use vstd::prelude::*;
use std::sync::mpsc::Sender;
use crate::message::{BroadcastMode, VideoFrame};

verus! {

#[verifier::external_type_specification]
#[verifier::external_body]
#[verifier::reject_recursive_types(T)]
pub struct ExSender<T>(Sender<T>);

/// What the render thread is asked to do.
pub enum VideoCommand {
    /// Show `frame` in `mode`.
    Frame { frame: VideoFrame, mode: BroadcastMode },
    /// Close the window.
    Stop,
}

/// Relies on `std::sync::mpsc::Sender::send`, which fails only once the
/// receiving end is gone; returns whether the command was handed over.
#[verifier::external_body]
fn send_command(sender: &Sender<VideoCommand>, command: VideoCommand) -> (delivered: bool) {
    sender.send(command).is_ok()
}

/// The student's handle on its render thread.
pub struct VideoRenderer {
    sender: Sender<VideoCommand>,
}

impl VideoRenderer {
    /// A renderer that hands its commands to the thread reading `sender`'s channel.
    pub fn from_sender(sender: Sender<VideoCommand>) -> (r: Self) {
        VideoRenderer { sender }
    }

    /// Asks for `frame` to be shown in `mode`; false when the render thread is gone.
    pub fn display_frame(&self, frame: VideoFrame, mode: BroadcastMode) -> (delivered: bool) {
        send_command(&self.sender, VideoCommand::Frame { frame, mode })
    }

    /// Asks for the window to be closed; false when the render thread is gone.
    pub fn stop(&self) -> (delivered: bool) {
        send_command(&self.sender, VideoCommand::Stop)
    }
}

} // verus!
