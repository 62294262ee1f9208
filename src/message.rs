use vstd::prelude::*;

verus! {

/// Display mode requested by the teacher.
#[derive(Debug, Clone, Copy, PartialEq, Eq, Structural)]
pub enum BroadcastMode {
    Fullscreen,
    Window,
}

impl Default for BroadcastMode {
    fn default() -> (r: Self)
        ensures
            r == BroadcastMode::Fullscreen,
    {
        BroadcastMode::Fullscreen
    }
}

/// Identifies the source of a broadcast feed.
#[derive(Debug, Clone, PartialEq, Eq)]
pub enum BroadcastSource {
    Teacher,
    Student { student_id: String, student_name: Option<String> },
}

/// Codecs a video frame may carry.
#[derive(Debug, Clone, Copy, PartialEq, Eq, Structural)]
pub enum VideoCodec {
    /// JPEG encoded frame.
    Jpeg,
    /// Raw BGRA pixels.
    Bgra,
}

/// A video frame, from the teacher to the students or from a spotlighted student.
#[derive(Debug, Clone, PartialEq, Eq)]
pub struct VideoFrame {
    pub frame_id: u64,
    pub timestamp_ms: u64,
    pub source: BroadcastSource,
    pub codec: VideoCodec,
    pub width: u32,
    pub height: u32,
    pub fullscreen: bool,
    pub data: Vec<u8>,
}

/// A chunk of PCM audio (little-endian `i16` samples).
#[derive(Debug, Clone, PartialEq, Eq)]
pub struct AudioFrame {
    pub frame_id: u64,
    pub timestamp_ms: u64,
    pub sample_rate: u32,
    pub channels: u8,
    pub force_play: bool,
    pub data: Vec<u8>,
}

/// Announces a file that is about to be sent.
#[derive(Debug, Clone, PartialEq, Eq)]
pub struct FileOffer {
    pub transfer_id: u128,
    pub file_name: String,
    pub total_size: u64,
    pub auto_open: bool,
}

/// One piece of the file of an ongoing transfer.
#[derive(Debug, Clone, PartialEq, Eq)]
pub struct FileChunk {
    pub transfer_id: u128,
    pub offset: u64,
    pub bytes: Vec<u8>,
    pub final_chunk: bool,
}

/// Ends a file transfer.
#[derive(Debug, Clone, PartialEq, Eq)]
pub struct FileTransferComplete {
    pub transfer_id: u128,
    pub success: bool,
    pub message: Option<String>,
}

/// First message of a student on a new connection.
#[derive(Debug, Clone, PartialEq, Eq)]
pub struct HelloMessage {
    pub student_id: String,
    pub student_name: String,
    pub client_version: String,
    pub capabilities: StudentCapabilities,
}

/// The teacher's answer to a `HelloMessage`.
#[derive(Debug, Clone, PartialEq, Eq)]
pub struct HelloAck {
    pub server_version: String,
    pub force_fullscreen: bool,
    pub broadcast_mode: BroadcastMode,
}

/// What a student client reports it can do; advisory only.
#[derive(Debug, Clone, Copy, PartialEq, Eq, Structural)]
pub struct StudentCapabilities {
    pub receive_video: bool,
    pub send_video: bool,
    pub receive_audio: bool,
    pub send_audio: bool,
    pub file_transfer: bool,
}

impl Default for StudentCapabilities {
    fn default() -> (r: Self)
        ensures
            !r.receive_video && !r.send_video && !r.receive_audio && !r.send_audio
                && !r.file_transfer,
    {
        StudentCapabilities {
            receive_video: false,
            send_video: false,
            receive_audio: false,
            send_audio: false,
            file_transfer: false,
        }
    }
}

/// Periodic liveness message.
#[derive(Debug, Clone, Copy, PartialEq, Eq, Structural)]
pub struct Heartbeat {
    pub timestamp_ms: u64,
}

/// Starts or stops a broadcast, or asks a student to share its screen.
#[derive(Debug, Clone, PartialEq, Eq)]
pub enum BroadcastCommand {
    Start { source: BroadcastSource, mode: BroadcastMode },
    Stop,
    RequestStudentShare { student_id: String },
}

/// Messages from the teacher to a student.
#[derive(Debug, Clone, PartialEq, Eq)]
pub enum TeacherToStudent {
    Welcome(HelloAck),
    Broadcast(BroadcastCommand),
    Video(VideoFrame),
    Audio(AudioFrame),
    FileOffer(FileOffer),
    FileChunk(FileChunk),
    FileComplete(FileTransferComplete),
    Heartbeat(Heartbeat),
    Error(String),
}

/// Messages from a student to the teacher.
#[derive(Debug, Clone, PartialEq, Eq)]
pub enum StudentToTeacher {
    Hello(HelloMessage),
    Heartbeat(Heartbeat),
    Ack(String),
    Video(VideoFrame),
    Audio(AudioFrame),
    FileOffer(FileOffer),
    FileChunk(FileChunk),
    FileComplete(FileTransferComplete),
    Error(String),
}

/// A copy of a byte vector, element for element.
pub fn copy_bytes(v: &Vec<u8>) -> (r: Vec<u8>)
    ensures
        r@ == v@,
{
    let r = v.clone();
    assert(r@ =~= v@);
    r
}

fn copy_opt_string(s: &Option<String>) -> (r: Option<String>)
    ensures
        r == *s,
{
    match s {
        Some(t) => Some(t.clone()),
        None => None,
    }
}

impl BroadcastSource {
    pub fn duplicate(&self) -> (r: Self)
        ensures
            r == *self,
    {
        match self {
            BroadcastSource::Teacher => BroadcastSource::Teacher,
            BroadcastSource::Student { student_id, student_name } => BroadcastSource::Student {
                student_id: student_id.clone(),
                student_name: copy_opt_string(student_name),
            },
        }
    }
}

impl VideoFrame {
    /// The two frames agree on every field, the pixel data compared by content.
    pub open spec fn same_as(&self, o: &VideoFrame) -> bool {
        &&& self.frame_id == o.frame_id
        &&& self.timestamp_ms == o.timestamp_ms
        &&& self.source == o.source
        &&& self.codec == o.codec
        &&& self.width == o.width
        &&& self.height == o.height
        &&& self.fullscreen == o.fullscreen
        &&& self.data@ == o.data@
    }

    pub fn duplicate(&self) -> (r: Self)
        ensures
            r.same_as(self),
    {
        VideoFrame {
            frame_id: self.frame_id,
            timestamp_ms: self.timestamp_ms,
            source: self.source.duplicate(),
            codec: self.codec,
            width: self.width,
            height: self.height,
            fullscreen: self.fullscreen,
            data: copy_bytes(&self.data),
        }
    }
}

impl AudioFrame {
    /// The two frames agree on every field, the samples compared by content.
    pub open spec fn same_as(&self, o: &AudioFrame) -> bool {
        &&& self.frame_id == o.frame_id
        &&& self.timestamp_ms == o.timestamp_ms
        &&& self.sample_rate == o.sample_rate
        &&& self.channels == o.channels
        &&& self.force_play == o.force_play
        &&& self.data@ == o.data@
    }

    pub fn duplicate(&self) -> (r: Self)
        ensures
            r.same_as(self),
    {
        AudioFrame {
            frame_id: self.frame_id,
            timestamp_ms: self.timestamp_ms,
            sample_rate: self.sample_rate,
            channels: self.channels,
            force_play: self.force_play,
            data: copy_bytes(&self.data),
        }
    }
}

impl FileChunk {
    /// The two chunks agree on every field, the bytes compared by content.
    pub open spec fn same_as(&self, o: &FileChunk) -> bool {
        &&& self.transfer_id == o.transfer_id
        &&& self.offset == o.offset
        &&& self.final_chunk == o.final_chunk
        &&& self.bytes@ == o.bytes@
    }

    pub fn duplicate(&self) -> (r: Self)
        ensures
            r.same_as(self),
    {
        FileChunk {
            transfer_id: self.transfer_id,
            offset: self.offset,
            bytes: copy_bytes(&self.bytes),
            final_chunk: self.final_chunk,
        }
    }
}

impl FileOffer {
    pub fn duplicate(&self) -> (r: Self)
        ensures
            r == *self,
    {
        FileOffer {
            transfer_id: self.transfer_id,
            file_name: self.file_name.clone(),
            total_size: self.total_size,
            auto_open: self.auto_open,
        }
    }
}

impl FileTransferComplete {
    pub fn duplicate(&self) -> (r: Self)
        ensures
            r == *self,
    {
        FileTransferComplete {
            transfer_id: self.transfer_id,
            success: self.success,
            message: copy_opt_string(&self.message),
        }
    }
}

impl BroadcastCommand {
    pub fn duplicate(&self) -> (r: Self)
        ensures
            r == *self,
    {
        match self {
            BroadcastCommand::Start { source, mode } => BroadcastCommand::Start {
                source: source.duplicate(),
                mode: *mode,
            },
            BroadcastCommand::Stop => BroadcastCommand::Stop,
            BroadcastCommand::RequestStudentShare { student_id } => {
                BroadcastCommand::RequestStudentShare { student_id: student_id.clone() }
            },
        }
    }
}

impl TeacherToStudent {
    /// The two messages are the same variant with the same contents, byte
    /// payloads compared by content.
    pub open spec fn same_as(&self, o: &TeacherToStudent) -> bool {
        match (self, o) {
            (TeacherToStudent::Video(a), TeacherToStudent::Video(b)) => a.same_as(b),
            (TeacherToStudent::Audio(a), TeacherToStudent::Audio(b)) => a.same_as(b),
            (TeacherToStudent::FileChunk(a), TeacherToStudent::FileChunk(b)) => a.same_as(b),
            (TeacherToStudent::Video(_), _) => false,
            (TeacherToStudent::Audio(_), _) => false,
            (TeacherToStudent::FileChunk(_), _) => false,
            _ => *self == *o,
        }
    }

    pub fn duplicate(&self) -> (r: Self)
        ensures
            r.same_as(self),
    {
        match self {
            TeacherToStudent::Welcome(ack) => TeacherToStudent::Welcome(HelloAck {
                server_version: ack.server_version.clone(),
                force_fullscreen: ack.force_fullscreen,
                broadcast_mode: ack.broadcast_mode,
            }),
            TeacherToStudent::Broadcast(c) => TeacherToStudent::Broadcast(c.duplicate()),
            TeacherToStudent::Video(f) => TeacherToStudent::Video(f.duplicate()),
            TeacherToStudent::Audio(f) => TeacherToStudent::Audio(f.duplicate()),
            TeacherToStudent::FileOffer(o) => TeacherToStudent::FileOffer(o.duplicate()),
            TeacherToStudent::FileChunk(c) => TeacherToStudent::FileChunk(c.duplicate()),
            TeacherToStudent::FileComplete(c) => TeacherToStudent::FileComplete(c.duplicate()),
            TeacherToStudent::Heartbeat(h) => TeacherToStudent::Heartbeat(*h),
            TeacherToStudent::Error(e) => TeacherToStudent::Error(e.clone()),
        }
    }
}


/// Relies on `uuid::Uuid::new_v4`: a random version-4 identifier, read as its
/// 128-bit value (`Uuid::as_u128`), so the version nibble is 4 and the variant
/// bits are `10`.
#[verifier::external_body]
pub(crate) fn fresh_id() -> (r: u128)
    ensures
        (r >> 76u128) & 0xfu128 == 4,
        (r >> 62u128) & 0x3u128 == 2,
{
    uuid::Uuid::new_v4().as_u128()
}

} // verus!
