use vstd::prelude::*;
use vstd::string::*;
use crate::capture::CapturePipeline;
use crate::config::StudentConfig;
use crate::message::{
    AudioFrame, BroadcastCommand, BroadcastMode, BroadcastSource, FileOffer, Heartbeat, HelloMessage,
    StudentCapabilities, StudentToTeacher, TeacherToStudent, VideoFrame,
};
use crate::transfer::{
    CompleteOutcome, OutgoingTransfer, TransferTable, chunk_applied, completed, has_transfer, offer_applied,
};

verus! {

/// A student client, built from its settings.
pub struct StudentApp {
    config: StudentConfig,
}

impl StudentApp {
    pub fn new(config: StudentConfig) -> (r: Self)
        ensures
            r.config_spec() == config,
    {
        StudentApp { config }
    }

    pub closed spec fn config_spec(&self) -> StudentConfig {
        self.config
    }

    pub fn config(&self) -> (r: &StudentConfig)
        ensures
            *r == self.config_spec(),
    {
        &self.config
    }
}

/// The greeting a student opens its connection with.
pub fn hello_message(config: &StudentConfig, client_version: String) -> (r: StudentToTeacher)
    ensures
        r == StudentToTeacher::Hello(
            HelloMessage {
                student_id: config.student_id,
                student_name: config.student_name,
                client_version,
                capabilities: StudentCapabilities {
                    receive_video: true,
                    send_video: true,
                    receive_audio: true,
                    send_audio: false,
                    file_transfer: true,
                },
            },
        ),
{
    StudentToTeacher::Hello(
        HelloMessage {
            student_id: config.student_id.clone(),
            student_name: config.student_name.clone(),
            client_version,
            capabilities: StudentCapabilities {
                receive_video: true,
                send_video: true,
                receive_audio: true,
                send_audio: false,
                file_transfer: true,
            },
        },
    )
}

/// Starts uploading `file_name` of `total_size` bytes to the teacher; uploads
/// never ask to be opened.
pub fn upload_transfer(file_name: String, total_size: u64) -> (r: OutgoingTransfer)
    ensures
        r.file_name == file_name,
        r.total_size == total_size,
        r.offset == 0,
        !r.auto_open,
        r.sent@ == Seq::<Seq<u8>>::empty(),
        r.wf(),
{
    OutgoingTransfer::new(file_name, total_size, false)
}

/// What the student's screen sharing task is to do.
#[derive(Debug, Clone, Copy, PartialEq, Eq, Structural)]
pub enum SharingAction {
    Spawn,
    Abort,
    Keep,
}

/// What the client is to do after a message from the teacher was taken in.
#[derive(Debug, Clone, PartialEq, Eq)]
pub enum StudentAction {
    /// Nothing beyond what the state already shows.
    Nothing,
    /// Start, stop or keep the screen sharing task.
    Sharing(SharingAction),
    /// Stop the sharing task (when `abort_sharing`) and close the video window.
    StopAll { abort_sharing: bool },
    /// Show `frame` in `mode`.
    Display { frame: VideoFrame, mode: BroadcastMode },
    /// Queue `frame` for playback.
    Play(AudioFrame),
    /// Create `file_name` in the download directory, and, once it exists,
    /// open the download with `StudentClient::register_download`.
    CreateDownload { offer: FileOffer, file_name: String },
    /// Append `bytes` to the download's file.
    WriteDownload { transfer_id: u128, bytes: Vec<u8> },
    /// A chunk of no open download, dropped.
    UnknownChunk { transfer_id: u128 },
    /// Close the download's file if one is open (`outcome`), open `open` if
    /// given, and send `reply`.
    FinishDownload { transfer_id: u128, outcome: CompleteOutcome, open: Option<String>, reply: StudentToTeacher },
    /// Send `reply`.
    Reply(StudentToTeacher),
    /// The teacher reported an error.
    TeacherError(String),
}

/// The mode a student shows a broadcast in: fullscreen only when asked for and
/// either its own setting wants it or the teacher forces it and it allows that.
pub open spec fn display_mode(config: StudentConfig, forced: bool, requested: BroadcastMode) -> BroadcastMode {
    if requested == BroadcastMode::Fullscreen && (config.auto_fullscreen || (forced
        && config.allow_forced_fullscreen)) {
        BroadcastMode::Fullscreen
    } else {
        BroadcastMode::Window
    }
}

/// Whether `source` names the student with `student_id`.
pub open spec fn names_student(source: BroadcastSource, student_id: Seq<char>) -> bool {
    source matches BroadcastSource::Student { student_id: sid, .. } && sid@ == student_id
}

/// The text a student acknowledges a finished download with when the teacher gave none.
pub open spec fn default_ack_text() -> Seq<char> {
    "文件传输完成"@
}

/// How a student with settings `config` follows `command`: from mode `mode`
/// and sharing state `sharing` it goes to `new_mode` and `new_sharing`, and
/// asks for `r`.
pub open spec fn follows_command(
    config: StudentConfig,
    forced: bool,
    mode: BroadcastMode,
    sharing: bool,
    command: BroadcastCommand,
    new_mode: BroadcastMode,
    new_sharing: bool,
    r: StudentAction,
) -> bool {
    match command {
        BroadcastCommand::Start { source, mode: requested } => {
            let mine = names_student(source, config.student_id@);
            &&& new_mode == display_mode(config, forced, requested)
            &&& new_sharing == mine
            &&& r == StudentAction::Sharing(
                if mine {
                    if sharing {
                        SharingAction::Keep
                    } else {
                        SharingAction::Spawn
                    }
                } else if sharing {
                    SharingAction::Abort
                } else {
                    SharingAction::Keep
                },
            )
        },
        BroadcastCommand::Stop => {
            &&& new_mode == BroadcastMode::Window
            &&& !new_sharing
            &&& r == (StudentAction::StopAll { abort_sharing: sharing })
        },
        BroadcastCommand::RequestStudentShare { student_id } => {
            &&& new_mode == mode
            &&& if student_id@ == config.student_id@ {
                new_sharing && r == StudentAction::Sharing(
                    if sharing {
                        SharingAction::Keep
                    } else {
                        SharingAction::Spawn
                    },
                )
            } else {
                new_sharing == sharing && r == StudentAction::Sharing(SharingAction::Keep)
            }
        },
    }
}

/// The student side of a session: the mode frames are shown in, whether the
/// teacher forces fullscreen, the screen sharing pipeline and the downloads.
pub struct StudentClient {
    config: StudentConfig,
    forced_fullscreen: bool,
    current_mode: BroadcastMode,
    sharing: CapturePipeline,
    downloads: TransferTable,
}

/// No two open downloads share a transfer id, and the downloads open files
/// as the settings ask.
pub proof fn lemma_downloads_unique(c: StudentClient)
    requires
        c.wf(),
    ensures
        c.downloads().wf(),
        c.downloads().default_auto_open() == c.config_spec().auto_open_file,
{
}

impl StudentClient {
    pub closed spec fn config_spec(&self) -> StudentConfig {
        self.config
    }

    pub closed spec fn forced(&self) -> bool {
        self.forced_fullscreen
    }

    pub closed spec fn mode(&self) -> BroadcastMode {
        self.current_mode
    }

    pub closed spec fn sharing(&self) -> bool {
        self.sharing.running()
    }

    pub closed spec fn sharing_counter(&self) -> u64 {
        self.sharing.counter()
    }

    pub closed spec fn downloads(&self) -> TransferTable {
        self.downloads
    }

    pub closed spec fn wf(&self) -> bool {
        &&& self.downloads.wf()
        &&& self.downloads.default_auto_open() == self.config.auto_open_file
    }

    pub fn new(config: StudentConfig) -> (r: Self)
        ensures
            r.wf(),
            r.config_spec() == config,
            !r.forced(),
            r.mode() == BroadcastMode::Window,
            !r.sharing(),
            r.sharing_counter() == 0,
            r.downloads()@ == Seq::<crate::transfer::TransferSession>::empty(),
    {
        let auto_open = config.auto_open_file;
        StudentClient {
            config,
            forced_fullscreen: false,
            current_mode: BroadcastMode::Window,
            sharing: CapturePipeline::new(),
            downloads: TransferTable::new(auto_open),
        }
    }

    pub fn current_mode(&self) -> (r: BroadcastMode)
        ensures
            r == self.mode(),
    {
        self.current_mode
    }

    pub fn is_sharing(&self) -> (r: bool)
        ensures
            r == self.sharing(),
    {
        self.sharing.is_running()
    }

    /// Numbers the next frame of this student's shared screen.
    pub fn next_frame_id(&mut self) -> (r: Option<u64>)
        requires
            old(self).wf(),
        ensures
            final(self).wf(),
            final(self).config_spec() == old(self).config_spec(),
            final(self).forced() == old(self).forced(),
            final(self).mode() == old(self).mode(),
            final(self).sharing() == old(self).sharing(),
            final(self).downloads() == old(self).downloads(),
            old(self).sharing_counter() < u64::MAX ==> r == Some(
                (old(self).sharing_counter() + 1) as u64,
            ) && final(self).sharing_counter() == old(self).sharing_counter() + 1,
            old(self).sharing_counter() == u64::MAX ==> r is None,
    {
        self.sharing.next_frame_id()
    }

    /// Stops sharing, as when the connection ends.
    pub fn stop_sharing(&mut self) -> (abort: bool)
        requires
            old(self).wf(),
        ensures
            final(self).wf(),
            abort == old(self).sharing(),
            !final(self).sharing(),
            final(self).config_spec() == old(self).config_spec(),
            final(self).forced() == old(self).forced(),
            final(self).mode() == old(self).mode(),
            final(self).sharing_counter() == old(self).sharing_counter(),
            final(self).downloads() == old(self).downloads(),
    {
        self.sharing.stop()
    }

    /// Opens the download that `offer` announced, once its file exists;
    /// returns the name the file was created under.
    pub fn register_download(&mut self, offer: &FileOffer) -> (name: String)
        requires
            old(self).wf(),
        ensures
            final(self).wf(),
            name@ == crate::text::sanitized(offer.file_name@),
            offer_applied(
                old(self).downloads()@,
                final(self).downloads()@,
                *offer,
                name,
                old(self).config_spec().auto_open_file,
            ),
            final(self).config_spec() == old(self).config_spec(),
            final(self).forced() == old(self).forced(),
            final(self).mode() == old(self).mode(),
            final(self).sharing() == old(self).sharing(),
            final(self).sharing_counter() == old(self).sharing_counter(),
    {
        self.downloads.offer(offer)
    }

    fn is_me(&self, student_id: &String) -> (r: bool)
        ensures
            r == (student_id@ == self.config.student_id@),
    {
        *student_id == self.config.student_id
    }

    /// Follows a broadcast command of the teacher.
    pub fn handle_broadcast_command(&mut self, command: BroadcastCommand) -> (r: StudentAction)
        requires
            old(self).wf(),
        ensures
            final(self).wf(),
            final(self).config_spec() == old(self).config_spec(),
            final(self).forced() == old(self).forced(),
            final(self).downloads() == old(self).downloads(),
            final(self).sharing_counter() == old(self).sharing_counter(),
            follows_command(old(self).config_spec(), old(self).forced(), old(self).mode(), old(self).sharing(), command, final(self).mode(), final(self).sharing(), r),
    {
        match command {
            BroadcastCommand::Start { source, mode } => {
                let full = mode == BroadcastMode::Fullscreen && (self.config.auto_fullscreen || (
                self.forced_fullscreen && self.config.allow_forced_fullscreen));
                self.current_mode = if full {
                    BroadcastMode::Fullscreen
                } else {
                    BroadcastMode::Window
                };
                let mine = match &source {
                    BroadcastSource::Teacher => false,
                    BroadcastSource::Student { student_id, .. } => self.is_me(student_id),
                };
                if mine {
                    if self.sharing.start() {
                        StudentAction::Sharing(SharingAction::Spawn)
                    } else {
                        StudentAction::Sharing(SharingAction::Keep)
                    }
                } else if self.sharing.stop() {
                    StudentAction::Sharing(SharingAction::Abort)
                } else {
                    StudentAction::Sharing(SharingAction::Keep)
                }
            },
            BroadcastCommand::Stop => {
                let abort = self.sharing.stop();
                self.current_mode = BroadcastMode::Window;
                StudentAction::StopAll { abort_sharing: abort }
            },
            BroadcastCommand::RequestStudentShare { student_id } => {
                if self.is_me(&student_id) {
                    if self.sharing.start() {
                        StudentAction::Sharing(SharingAction::Spawn)
                    } else {
                        StudentAction::Sharing(SharingAction::Keep)
                    }
                } else {
                    StudentAction::Sharing(SharingAction::Keep)
                }
            },
        }
    }

    /// Takes in one message from the teacher; `now_ms` stamps a heartbeat reply.
    pub fn handle_message(&mut self, message: TeacherToStudent, now_ms: u64) -> (r: StudentAction)
        requires
            old(self).wf(),
        ensures
            final(self).wf(),
            final(self).config_spec() == old(self).config_spec(),
            final(self).sharing_counter() == old(self).sharing_counter(),
            match message {
                TeacherToStudent::Welcome(ack) => final(self).forced() == ack.force_fullscreen
                    && final(self).mode() == ack.broadcast_mode && final(self).sharing() == old(
                    self).sharing() && final(self).downloads() == old(self).downloads() && r
                    == StudentAction::Nothing,
                TeacherToStudent::Broadcast(c) => final(self).forced() == old(self).forced()
                    && final(self).downloads() == old(self).downloads() && follows_command(
                    old(self).config_spec(),
                    old(self).forced(),
                    old(self).mode(),
                    old(self).sharing(),
                    c,
                    final(self).mode(),
                    final(self).sharing(),
                    r,
                ),
                TeacherToStudent::Video(f) => final(self).forced() == old(self).forced() && final(
                    self).mode() == old(self).mode() && final(self).sharing() == old(self).sharing()
                    && final(self).downloads() == old(self).downloads() && r
                    == (StudentAction::Display { frame: f, mode: old(self).mode() }),
                TeacherToStudent::Audio(f) => final(self).forced() == old(self).forced() && final(
                    self).mode() == old(self).mode() && final(self).sharing() == old(self).sharing()
                    && final(self).downloads() == old(self).downloads() && r
                    == StudentAction::Play(f),
                TeacherToStudent::FileOffer(o) => final(self).forced() == old(self).forced()
                    && final(self).mode() == old(self).mode() && final(self).sharing() == old(
                    self).sharing() && final(self).downloads() == old(self).downloads() && (r matches StudentAction::CreateDownload {
                    offer,
                    file_name,
                } && offer == o && file_name@ == crate::text::sanitized(o.file_name@)),
                TeacherToStudent::FileChunk(c) => final(self).forced() == old(self).forced()
                    && final(self).mode() == old(self).mode() && final(self).sharing() == old(
                    self).sharing() && if has_transfer(old(self).downloads()@, c.transfer_id) {
                    r matches StudentAction::WriteDownload { transfer_id, bytes } && transfer_id
                        == c.transfer_id && bytes@ == c.bytes@ && chunk_applied(
                        old(self).downloads()@,
                        final(self).downloads()@,
                        c.transfer_id,
                        c.bytes@,
                    )
                } else {
                    r == (StudentAction::UnknownChunk { transfer_id: c.transfer_id }) && final(
                        self).downloads()@ == old(self).downloads()@
                },
                TeacherToStudent::FileComplete(d) => final(self).forced() == old(self).forced()
                    && final(self).mode() == old(self).mode() && final(self).sharing() == old(
                    self).sharing() && !has_transfer(final(self).downloads()@, d.transfer_id)
                    && (r matches StudentAction::FinishDownload {
                    transfer_id,
                    outcome,
                    open,
                    reply: StudentToTeacher::Ack(text),
                } && transfer_id == d.transfer_id && text@ == match d.message {
                    Some(m) => m@,
                    None => default_ack_text(),
                } && completed(old(self).downloads()@, final(self).downloads()@, d, outcome)
                    && open == match outcome {
                    CompleteOutcome::Finished { file_name, auto_open, .. } => if auto_open {
                        Some(file_name)
                    } else {
                        None::<String>
                    },
                    _ => None::<String>,
                }),
                TeacherToStudent::Heartbeat(_) => final(self).forced() == old(self).forced()
                    && final(self).mode() == old(self).mode() && final(self).sharing() == old(
                    self).sharing() && final(self).downloads() == old(self).downloads() && r
                    == StudentAction::Reply(
                    StudentToTeacher::Heartbeat(Heartbeat { timestamp_ms: now_ms }),
                ),
                TeacherToStudent::Error(e) => final(self).forced() == old(self).forced() && final(
                    self).mode() == old(self).mode() && final(self).sharing() == old(self).sharing()
                    && final(self).downloads() == old(self).downloads() && r
                    == StudentAction::TeacherError(e),
            },
    {
        match message {
            TeacherToStudent::Welcome(ack) => {
                self.forced_fullscreen = ack.force_fullscreen;
                self.current_mode = ack.broadcast_mode;
                StudentAction::Nothing
            },
            TeacherToStudent::Broadcast(command) => self.handle_broadcast_command(command),
            TeacherToStudent::Video(frame) => StudentAction::Display {
                frame,
                mode: self.current_mode,
            },
            TeacherToStudent::Audio(frame) => StudentAction::Play(frame),
            TeacherToStudent::FileOffer(offer) => {
                let file_name = crate::text::sanitize_filename(offer.file_name.as_str());
                StudentAction::CreateDownload { offer, file_name }
            },
            TeacherToStudent::FileChunk(chunk) => {
                let transfer_id = chunk.transfer_id;
                match self.downloads.chunk(chunk) {
                    Some(bytes) => StudentAction::WriteDownload { transfer_id, bytes },
                    None => StudentAction::UnknownChunk { transfer_id },
                }
            },
            TeacherToStudent::FileComplete(done) => {
                let outcome = self.downloads.complete(&done);
                assert(!has_transfer(old(self).downloads()@, done.transfer_id) ==> outcome
                    == CompleteOutcome::Unknown);
                assert(has_transfer(old(self).downloads()@, done.transfer_id) ==> outcome
                    != CompleteOutcome::Unknown);
                let open = match &outcome {
                    CompleteOutcome::Finished { file_name, auto_open, .. } => {
                        if *auto_open {
                            Some(file_name.clone())
                        } else {
                            None
                        }
                    },
                    _ => None,
                };
                let text = match done.message {
                    Some(m) => m,
                    None => String::from_str("文件传输完成"),
                };
                StudentAction::FinishDownload {
                    transfer_id: done.transfer_id,
                    outcome,
                    open,
                    reply: StudentToTeacher::Ack(text),
                }
            },
            TeacherToStudent::Heartbeat(_) => StudentAction::Reply(
                StudentToTeacher::Heartbeat(Heartbeat { timestamp_ms: now_ms }),
            ),
            TeacherToStudent::Error(e) => StudentAction::TeacherError(e),
        }
    }
}

} // verus!
