use vstd::prelude::*;
use vstd::string::*;
use crate::capture::CapturePipeline;
use crate::config::{BroadcastConfig, StudentRegistration, TeacherConfig};
use crate::message::{
    AudioFrame, BroadcastCommand, BroadcastMode, BroadcastSource, FileOffer, FileTransferComplete,
    HelloAck, HelloMessage, StudentToTeacher, TeacherToStudent, VideoFrame, fresh_id,
};
use crate::registry::{
    Registry, StudentSession, StudentSummary, delivered_except, first_of_student,
    has_connection, sent_to, touched,
};
use crate::text::{sanitize_filename, sanitized};
use crate::transfer::{
    CompleteOutcome, OutgoingTransfer, TransferTable, chunk_applied, completed, has_transfer,
};

verus! {

/// What the teacher's screen capture task is to do after a transition.
#[derive(Debug, Clone, Copy, PartialEq, Eq, Structural)]
pub enum ScreenAction {
    /// Start the capture task, framing for `mode`.
    Spawn(BroadcastMode),
    /// Terminate the running capture task, then start one framing for `mode`.
    Restart(BroadcastMode),
    /// Terminate the running capture task.
    Abort,
    /// Leave it as it is.
    Keep,
}

/// A snapshot of the server for a control panel.
#[derive(Debug, Clone, PartialEq, Eq)]
pub struct ServerStatus {
    pub listen_addr: String,
    pub broadcast_mode: BroadcastMode,
    pub broadcast_source: Option<BroadcastSource>,
    pub audio_enabled: bool,
    pub audio_forced: bool,
    pub connected_students: usize,
}

/// Why a new connection was refused.
#[derive(Debug, Clone, PartialEq, Eq)]
pub enum HandshakeError {
    /// The first message was not a `Hello`.
    ExpectedHello,
}

/// What the connection task is to do after a student's message was taken in.
#[derive(Debug, Clone, PartialEq, Eq)]
pub enum StudentEffect {
    /// Nothing beyond what the state already shows.
    Handled,
    /// A second `Hello` on the connection, ignored.
    DuplicateHello,
    /// Create `file_name` in the student's upload directory `dir_name`, and,
    /// once it exists, open the upload with `TransferTable::offer`.
    CreateUpload { offer: FileOffer, dir_name: String, file_name: String },
    /// Append `bytes` to the upload's file.
    WriteUpload { transfer_id: u128, bytes: Vec<u8> },
    /// A chunk of no open upload, dropped.
    UnknownChunk { transfer_id: u128 },
    /// Flush and close the upload's file, which ended as `outcome`.
    CloseUpload { transfer_id: u128, outcome: CompleteOutcome },
    /// A completion of no open upload.
    UnknownComplete { transfer_id: u128 },
    /// The student reported an error.
    StudentError(String),
}

/// The name a student goes by: the name of its first session, else the name
/// the expected students list gives it.
pub open spec fn expected_name(regs: Seq<StudentRegistration>, student_id: Seq<char>) -> Option<
    String,
>
    decreases regs.len(),
{
    if regs.len() == 0 {
        None
    } else if regs[0].student_id@ == student_id {
        regs[0].student_name
    } else {
        expected_name(regs.drop_first(), student_id)
    }
}

pub open spec fn known_name(
    sessions: Seq<StudentSession>,
    regs: Seq<StudentRegistration>,
    student_id: Seq<char>,
) -> Option<String> {
    match first_of_student(sessions, student_id) {
        Some(s) => Some(s.student_name),
        None => expected_name(regs, student_id),
    }
}

/// The text the teacher acknowledges a finished upload with.
pub open spec fn upload_ack_text() -> Seq<char> {
    "文件上传完成"@
}

/// The acknowledgement a student gets for a finished upload.
pub open spec fn upload_ack(transfer_id: u128, text: String) -> TeacherToStudent {
    TeacherToStudent::FileComplete(
        FileTransferComplete { transfer_id, success: true, message: Some(text) },
    )
}

/// The teacher's process-wide state: the registry of connected students, the
/// broadcast source and mode, and the screen capture pipeline.
pub struct TeacherState {
    config: TeacherConfig,
    registry: Registry,
    source: Option<BroadcastSource>,
    mode: BroadcastMode,
    screen: CapturePipeline,
}

impl TeacherState {
    pub closed spec fn students(&self) -> Seq<StudentSession> {
        self.registry@
    }

    pub closed spec fn source(&self) -> Option<BroadcastSource> {
        self.source
    }

    pub closed spec fn mode(&self) -> BroadcastMode {
        self.mode
    }

    pub closed spec fn config_spec(&self) -> TeacherConfig {
        self.config
    }

    /// Whether the teacher's screen capture runs.
    pub closed spec fn screen_running(&self) -> bool {
        self.screen.running()
    }

    pub closed spec fn frame_counter(&self) -> u64 {
        self.screen.counter()
    }

    /// Connection ids are unique, and the screen is captured exactly while
    /// the teacher is the broadcast source.
    pub closed spec fn wf(&self) -> bool {
        &&& self.registry.wf()
        &&& self.screen.running() <==> self.source == Some(BroadcastSource::Teacher)
    }

    /// The source a student with `student_id` broadcasts as.
    pub open spec fn is_source_student(&self, student_id: Seq<char>) -> bool {
        self.source() matches Some(BroadcastSource::Student { student_id: sid, .. }) && sid@
            == student_id
    }

    pub fn new(config: TeacherConfig) -> (r: Self)
        ensures
            r.wf(),
            r.students() == Seq::<StudentSession>::empty(),
            r.source() is None,
            r.mode() == BroadcastMode::Window,
            !r.screen_running(),
            r.frame_counter() == 0,
            r.config_spec() == config,
    {
        TeacherState {
            config,
            registry: Registry::new(),
            source: None,
            mode: BroadcastMode::Window,
            screen: CapturePipeline::new(),
        }
    }

    pub fn config(&self) -> (r: &TeacherConfig)
        ensures
            *r == self.config_spec(),
    {
        &self.config
    }

    pub fn broadcast_config(&self) -> (r: BroadcastConfig)
        ensures
            r == self.config_spec().broadcast,
    {
        self.config.broadcast.duplicate()
    }

    /// Numbers the teacher's next screen frame.
    pub fn next_frame_id(&mut self) -> (r: Option<u64>)
        requires
            old(self).wf(),
        ensures
            final(self).wf(),
            final(self).students() == old(self).students(),
            final(self).source() == old(self).source(),
            final(self).mode() == old(self).mode(),
            final(self).screen_running() == old(self).screen_running(),
            final(self).config_spec() == old(self).config_spec(),
            old(self).frame_counter() < u64::MAX ==> r == Some(
                (old(self).frame_counter() + 1) as u64,
            ) && final(self).frame_counter() == old(self).frame_counter() + 1,
            old(self).frame_counter() == u64::MAX ==> r is None,
    {
        self.screen.next_frame_id()
    }

    pub fn broadcast_source(&self) -> (r: Option<BroadcastSource>)
        ensures
            r == self.source(),
    {
        match &self.source {
            Some(s) => Some(s.duplicate()),
            None => None,
        }
    }

    pub fn broadcast_mode(&self) -> (r: BroadcastMode)
        ensures
            r == self.mode(),
    {
        self.mode
    }

    pub fn is_screen_running(&self) -> (r: bool)
        ensures
            r == self.screen_running(),
    {
        self.screen.is_running()
    }

    pub fn student_count(&self) -> (r: usize)
        ensures
            r == self.students().len(),
    {
        self.registry.len()
    }

    /// Whether the student with `student_id` is the broadcast source.
    pub fn is_student_broadcasting(&self, student_id: &str) -> (r: bool)
        ensures
            r == self.is_source_student(student_id@),
    {
        match &self.source {
            Some(BroadcastSource::Student { student_id: sid, .. }) => {
                let key = String::from_str(student_id);
                *sid == key
            },
            _ => false,
        }
    }

    pub fn list_students(&self) -> (r: Vec<StudentSummary>)
        ensures
            r@.len() == self.students().len(),
            forall|i: int|
                0 <= i < self.students().len() ==> (#[trigger] r@[i]).student_id
                    == self.students()[i].student_id && r@[i].display_name
                    == self.students()[i].student_name && r@[i].addr == self.students()[i].addr,
    {
        self.registry.list()
    }

    /// The name to show for `student_id`: that of its first session, else the
    /// one the expected students list gives.
    pub fn find_student_name(&self, student_id: &str) -> (r: Option<String>)
        ensures
            r == known_name(self.students(), self.config_spec().expected_students@, student_id@),
    {
        match self.registry.find_by_student_id(student_id) {
            Some(s) => Some(s.student_name.clone()),
            None => {
                let regs = &self.config.expected_students;
                let key = String::from_str(student_id);
                let mut k: usize = 0;
                assert(regs@.skip(0) =~= regs@);
                while k < regs.len()
                    invariant
                        key@ == student_id@,
                        *regs == self.config.expected_students,
                        first_of_student(self.students(), student_id@) is None,
                        k <= regs@.len(),
                        expected_name(regs@.skip(k as int), student_id@) == expected_name(
                            regs@,
                            student_id@,
                        ),
                    decreases regs@.len() - k,
                {
                    if regs[k].student_id == key {
                        assert(regs@.skip(k as int)[0] == regs@[k as int]);
                        let r = match &regs[k].student_name {
                            Some(n) => Some(n.clone()),
                            None => None,
                        };
                        return r;
                    }
                    assert(regs@.skip(k as int).drop_first() =~= regs@.skip(k + 1));
                    k = k + 1;
                }
                None
            },
        }
    }

    /// Registers a student whose `Hello` arrived on a new connection, under a
    /// freshly minted connection id, and queues the `Welcome` for it.
    pub fn connect(&mut self, addr: String, hello: HelloMessage, server_version: String, now_ms: u64) -> (id: u128)
        requires
            old(self).wf(),
        ensures
            final(self).wf(),
            final(self).source() == old(self).source(),
            final(self).mode() == old(self).mode(),
            final(self).screen_running() == old(self).screen_running(),
            final(self).frame_counter() == old(self).frame_counter(),
            final(self).config_spec() == old(self).config_spec(),
            has_connection(final(self).students(), id),
            !has_connection(old(self).students(), id) ==> final(self).students().len() == old(
                self).students().len() + 1 && final(self).students().subrange(
                0,
                old(self).students().len() as int,
            ) == old(self).students(),
            has_connection(old(self).students(), id) ==> exists|k: int|
                0 <= k < old(self).students().len() && old(self).students()[k].connection_id
                    == id && final(self).students() == old(self).students().update(
                    k,
                    final(self).students()[k],
                ),
            forall|k: int|
                0 <= k < final(self).students().len() && (#[trigger] final(self).students()[k]).connection_id == id ==> {
                    let s = final(self).students()[k];
                    &&& s.addr == addr
                    &&& s.student_id == hello.student_id
                    &&& s.student_name == hello.student_name
                    &&& s.capabilities == hello.capabilities
                    &&& s.last_seen_ms == now_ms
                    &&& s.outbox@ == seq![
                        TeacherToStudent::Welcome(
                            HelloAck {
                                server_version,
                                force_fullscreen: old(self).mode() == BroadcastMode::Fullscreen,
                                broadcast_mode: old(self).mode(),
                            },
                        ),
                    ]
                },
            forall|k: int|
                0 <= k < old(self).students().len() && (#[trigger] old(self).students()[k]).connection_id != id ==> final(self).students().contains(
                    old(self).students()[k],
                ),
    {
        let id = fresh_id();
        let welcome = HelloAck {
            server_version,
            force_fullscreen: self.mode == BroadcastMode::Fullscreen,
            broadcast_mode: self.mode,
        };
        let mut session = StudentSession::new(
            id,
            addr,
            hello.student_id,
            hello.student_name,
            hello.capabilities,
            now_ms,
        );
        session.outbox.push(TeacherToStudent::Welcome(welcome));
        let ghost s = session;
        assert(s.outbox@ =~= seq![TeacherToStudent::Welcome(welcome)]);
        self.registry.add(session);
        proof {
            let old_s = old(self).registry@;
            let new_s = self.registry@;
            if has_connection(old_s, id) {
                let k0 = choose|k: int|
                    0 <= k < old_s.len() && old_s[k].connection_id == id && new_s == old_s.update(
                        k,
                        s,
                    );
                assert(new_s[k0] == s);
                assert(new_s == old_s.update(k0, new_s[k0]));
                assert forall|k: int|
                    0 <= k < old_s.len() && (#[trigger] old_s[k]).connection_id != id implies new_s.contains(
                    old_s[k],
                ) by {
                    assert(new_s[k] == old_s[k]);
                }
                assert forall|k: int|
                    0 <= k < new_s.len() && (#[trigger] new_s[k]).connection_id == id implies new_s[k]
                    == s by {
                    if k != k0 {
                        if k < k0 {
                            assert(new_s[k].connection_id != new_s[k0].connection_id);
                        } else {
                            assert(new_s[k0].connection_id != new_s[k].connection_id);
                        }
                    }
                }
            } else {
                assert(new_s[old_s.len() as int] == s);
                assert(new_s.subrange(0, old_s.len() as int) =~= old_s);
                assert forall|k: int|
                    0 <= k < old_s.len() && (#[trigger] old_s[k]).connection_id != id implies new_s.contains(
                    old_s[k],
                ) by {
                    assert(new_s[k] == old_s[k]);
                }
                assert forall|k: int|
                    0 <= k < new_s.len() && (#[trigger] new_s[k]).connection_id == id implies new_s[k]
                    == s by {
                    if k < old_s.len() {
                        assert(new_s[k] == old_s[k]);
                    }
                }
            }
        }
        id
    }

    /// Forgets the session of connection `id`; without one, nothing changes.
    pub fn remove_student(&mut self, id: u128)
        requires
            old(self).wf(),
        ensures
            final(self).wf(),
            !has_connection(old(self).students(), id) ==> final(self).students() == old(self).students(),
            has_connection(old(self).students(), id) ==> exists|k: int|
                0 <= k < old(self).students().len() && old(self).students()[k].connection_id
                    == id && final(self).students() == old(self).students().remove(k),
            !has_connection(final(self).students(), id),
            final(self).source() == old(self).source(),
            final(self).mode() == old(self).mode(),
            final(self).screen_running() == old(self).screen_running(),
            final(self).frame_counter() == old(self).frame_counter(),
            final(self).config_spec() == old(self).config_spec(),
    {
        self.registry.remove(id);
    }

    /// Forgets every session.
    pub fn disconnect_all(&mut self)
        requires
            old(self).wf(),
        ensures
            final(self).wf(),
            final(self).students() == Seq::<StudentSession>::empty(),
            final(self).source() == old(self).source(),
            final(self).mode() == old(self).mode(),
            final(self).screen_running() == old(self).screen_running(),
            final(self).frame_counter() == old(self).frame_counter(),
            final(self).config_spec() == old(self).config_spec(),
    {
        self.registry.clear();
    }

    /// Hands the writer of connection `id` what is queued for it, oldest first.
    pub fn take_outbox(&mut self, id: u128) -> (r: Vec<TeacherToStudent>)
        requires
            old(self).wf(),
        ensures
            final(self).wf(),
            final(self).source() == old(self).source(),
            final(self).mode() == old(self).mode(),
            final(self).screen_running() == old(self).screen_running(),
            final(self).frame_counter() == old(self).frame_counter(),
            final(self).config_spec() == old(self).config_spec(),
            !has_connection(old(self).students(), id) ==> final(self).students() == old(self).students() && r@.len() == 0,
            has_connection(old(self).students(), id) ==> exists|k: int|
                0 <= k < old(self).students().len() && old(self).students()[k].connection_id
                    == id && final(self).students() == old(self).students().update(
                    k,
                    final(self).students()[k],
                ) && final(self).students()[k].same_but_outbox(&old(self).students()[k])
                    && final(self).students()[k].outbox@.len() == 0 && r@ == old(self).students()[k].outbox@,
    {
        self.registry.take_outbox(id)
    }

    /// Queues a copy of `m` for every student but the one on connection `exclude`.
    pub fn broadcast_except(&mut self, m: &TeacherToStudent, exclude: Option<u128>)
        requires
            old(self).wf(),
        ensures
            final(self).wf(),
            delivered_except(old(self).students(), final(self).students(), *m, exclude),
            final(self).source() == old(self).source(),
            final(self).mode() == old(self).mode(),
            final(self).screen_running() == old(self).screen_running(),
            final(self).frame_counter() == old(self).frame_counter(),
            final(self).config_spec() == old(self).config_spec(),
    {
        self.registry.broadcast_except(m, exclude);
    }

    /// Queues a copy of `m` for every student.
    pub fn broadcast(&mut self, m: &TeacherToStudent)
        requires
            old(self).wf(),
        ensures
            final(self).wf(),
            delivered_except(old(self).students(), final(self).students(), *m, None),
            final(self).source() == old(self).source(),
            final(self).mode() == old(self).mode(),
            final(self).screen_running() == old(self).screen_running(),
            final(self).frame_counter() == old(self).frame_counter(),
            final(self).config_spec() == old(self).config_spec(),
    {
        self.registry.broadcast_except(m, None);
    }

    pub fn broadcast_command(&mut self, command: BroadcastCommand)
        requires
            old(self).wf(),
        ensures
            final(self).wf(),
            delivered_except(
                old(self).students(),
                final(self).students(),
                TeacherToStudent::Broadcast(command),
                None,
            ),
            final(self).source() == old(self).source(),
            final(self).mode() == old(self).mode(),
            final(self).screen_running() == old(self).screen_running(),
            final(self).frame_counter() == old(self).frame_counter(),
            final(self).config_spec() == old(self).config_spec(),
    {
        self.broadcast(&TeacherToStudent::Broadcast(command));
    }

    /// Queues a frame of the teacher's screen for every student, but only
    /// while the capture runs and the frame is framed for the current mode: a
    /// frame captured before a stop or a mode change is discarded. Returns
    /// whether it was queued.
    pub fn broadcast_video(&mut self, frame: VideoFrame) -> (sent: bool)
        requires
            old(self).wf(),
        ensures
            final(self).wf(),
            sent == (old(self).screen_running() && frame.fullscreen == (old(self).mode()
                == BroadcastMode::Fullscreen)),
            sent ==> delivered_except(
                old(self).students(),
                final(self).students(),
                TeacherToStudent::Video(frame),
                None,
            ),
            !sent ==> final(self).students() == old(self).students(),
            final(self).source() == old(self).source(),
            final(self).mode() == old(self).mode(),
            final(self).screen_running() == old(self).screen_running(),
            final(self).frame_counter() == old(self).frame_counter(),
            final(self).config_spec() == old(self).config_spec(),
    {
        if self.screen.is_running() && frame.fullscreen == (self.mode == BroadcastMode::Fullscreen) {
            self.broadcast(&TeacherToStudent::Video(frame));
            true
        } else {
            false
        }
    }

    pub fn broadcast_audio(&mut self, frame: AudioFrame)
        requires
            old(self).wf(),
        ensures
            final(self).wf(),
            delivered_except(
                old(self).students(),
                final(self).students(),
                TeacherToStudent::Audio(frame),
                None,
            ),
            final(self).source() == old(self).source(),
            final(self).mode() == old(self).mode(),
            final(self).screen_running() == old(self).screen_running(),
            final(self).frame_counter() == old(self).frame_counter(),
            final(self).config_spec() == old(self).config_spec(),
    {
        self.broadcast(&TeacherToStudent::Audio(frame));
    }

    /// Makes the teacher's screen the broadcast source in `mode`: the capture
    /// is started, restarted when it runs for another mode, and every student
    /// is told.
    pub fn start_teacher_broadcast(&mut self, mode: BroadcastMode) -> (r: ScreenAction)
        requires
            old(self).wf(),
        ensures
            final(self).wf(),
            final(self).source() == Some(BroadcastSource::Teacher),
            final(self).mode() == mode,
            final(self).screen_running(),
            r == if !old(self).screen_running() {
                ScreenAction::Spawn(mode)
            } else if old(self).mode() == mode {
                ScreenAction::Keep
            } else {
                ScreenAction::Restart(mode)
            },
            delivered_except(
                old(self).students(),
                final(self).students(),
                TeacherToStudent::Broadcast(
                    BroadcastCommand::Start { source: BroadcastSource::Teacher, mode },
                ),
                None,
            ),
            final(self).frame_counter() == old(self).frame_counter(),
            final(self).config_spec() == old(self).config_spec(),
    {
        let same_mode = self.mode == mode;
        self.source = Some(BroadcastSource::Teacher);
        self.mode = mode;
        let spawn = self.screen.start();
        self.broadcast_command(
            BroadcastCommand::Start { source: BroadcastSource::Teacher, mode },
        );
        if spawn {
            ScreenAction::Spawn(mode)
        } else if same_mode {
            ScreenAction::Keep
        } else {
            ScreenAction::Restart(mode)
        }
    }

    /// Spotlights the student with `student_id`: the teacher's capture stops,
    /// the student becomes the source in fullscreen, under the name it goes by
    /// (its id when it has none), and every student is told.
    pub fn start_student_broadcast(&mut self, student_id: &str) -> (r: ScreenAction)
        requires
            old(self).wf(),
        ensures
            final(self).wf(),
            !final(self).screen_running(),
            r == if old(self).screen_running() {
                ScreenAction::Abort
            } else {
                ScreenAction::Keep
            },
            final(self).mode() == BroadcastMode::Fullscreen,
            final(self).source() matches Some(
                BroadcastSource::Student { student_id: sid, student_name: Some(name) },
            ) && sid@ == student_id@ && name@ == match known_name(
                old(self).students(),
                old(self).config_spec().expected_students@,
                student_id@,
            ) {
                Some(n) => n@,
                None => student_id@,
            } && delivered_except(
                old(self).students(),
                final(self).students(),
                TeacherToStudent::Broadcast(
                    BroadcastCommand::Start {
                        source: BroadcastSource::Student {
                            student_id: sid,
                            student_name: Some(name),
                        },
                        mode: BroadcastMode::Fullscreen,
                    },
                ),
                None,
            ),
            final(self).frame_counter() == old(self).frame_counter(),
            final(self).config_spec() == old(self).config_spec(),
    {
        let abort = self.screen.stop();
        let name = match self.find_student_name(student_id) {
            Some(n) => n,
            None => String::from_str(student_id),
        };
        let source = BroadcastSource::Student {
            student_id: String::from_str(student_id),
            student_name: Some(name),
        };
        self.source = Some(source.duplicate());
        self.mode = BroadcastMode::Fullscreen;
        self.broadcast_command(
            BroadcastCommand::Start { source, mode: BroadcastMode::Fullscreen },
        );
        if abort {
            ScreenAction::Abort
        } else {
            ScreenAction::Keep
        }
    }

    /// Ends the broadcast: the capture stops, the state returns to no source in
    /// window mode, and every student is told.
    pub fn stop_broadcast(&mut self) -> (r: ScreenAction)
        requires
            old(self).wf(),
        ensures
            final(self).wf(),
            !final(self).screen_running(),
            r == if old(self).screen_running() {
                ScreenAction::Abort
            } else {
                ScreenAction::Keep
            },
            final(self).source() is None,
            final(self).mode() == BroadcastMode::Window,
            delivered_except(
                old(self).students(),
                final(self).students(),
                TeacherToStudent::Broadcast(BroadcastCommand::Stop),
                None,
            ),
            final(self).frame_counter() == old(self).frame_counter(),
            final(self).config_spec() == old(self).config_spec(),
    {
        let abort = self.screen.stop();
        self.source = None;
        self.mode = BroadcastMode::Window;
        self.broadcast_command(BroadcastCommand::Stop);
        if abort {
            ScreenAction::Abort
        } else {
            ScreenAction::Keep
        }
    }

    /// Takes in one message of the student `student_id` on connection
    /// `connection_id`, with `uploads` the connection's open uploads.
    pub fn handle_student_message(
        &mut self,
        uploads: &mut TransferTable,
        connection_id: u128,
        student_id: &String,
        message: StudentToTeacher,
        now_ms: u64,
    ) -> (r: StudentEffect)
        requires
            old(self).wf(),
            old(uploads).wf(),
        ensures
            final(self).wf(),
            final(uploads).wf(),
            final(uploads).default_auto_open() == old(uploads).default_auto_open(),
            final(self).source() == old(self).source(),
            final(self).mode() == old(self).mode(),
            final(self).screen_running() == old(self).screen_running(),
            final(self).frame_counter() == old(self).frame_counter(),
            final(self).config_spec() == old(self).config_spec(),
            match message {
                StudentToTeacher::Hello(_) => r == StudentEffect::DuplicateHello && final(self).students() == old(self).students() && final(uploads)@ == old(uploads)@,
                StudentToTeacher::Heartbeat(_) => r == StudentEffect::Handled && touched(
                    old(self).students(),
                    final(self).students(),
                    connection_id,
                    now_ms,
                ) && final(uploads)@ == old(uploads)@,
                StudentToTeacher::Ack(_) => r == StudentEffect::Handled && final(self).students()
                    == old(self).students() && final(uploads)@ == old(uploads)@,
                StudentToTeacher::Video(f) => r == StudentEffect::Handled && final(uploads)@ == old(uploads)@ && if old(self).is_source_student(student_id@) {
                    delivered_except(
                        old(self).students(),
                        final(self).students(),
                        TeacherToStudent::Video(f),
                        Some(connection_id),
                    )
                } else {
                    final(self).students() == old(self).students()
                },
                StudentToTeacher::Audio(f) => r == StudentEffect::Handled && final(uploads)@ == old(uploads)@ && delivered_except(
                    old(self).students(),
                    final(self).students(),
                    TeacherToStudent::Audio(f),
                    Some(connection_id),
                ),
                StudentToTeacher::FileOffer(o) => final(self).students() == old(self).students()
                    && final(uploads)@ == old(uploads)@ && (r matches StudentEffect::CreateUpload {
                    offer,
                    dir_name,
                    file_name,
                } && offer == o && dir_name@ == sanitized(student_id@) && file_name@ == sanitized(
                    o.file_name@,
                )),
                StudentToTeacher::FileChunk(c) => final(self).students() == old(self).students()
                    && if has_transfer(old(uploads)@, c.transfer_id) {
                    r matches StudentEffect::WriteUpload { transfer_id, bytes } && transfer_id
                        == c.transfer_id && bytes@ == c.bytes@ && chunk_applied(
                        old(uploads)@,
                        final(uploads)@,
                        c.transfer_id,
                        c.bytes@,
                    )
                } else {
                    r == (StudentEffect::UnknownChunk { transfer_id: c.transfer_id }) && final(uploads)@ == old(uploads)@
                },
                StudentToTeacher::FileComplete(d) => if has_transfer(
                    old(uploads)@,
                    d.transfer_id,
                ) {
                    r matches StudentEffect::CloseUpload { transfer_id, outcome } && transfer_id
                        == d.transfer_id && completed(old(uploads)@, final(uploads)@, d, outcome)
                        && if d.success {
                        exists|text: String|
                            text@ == upload_ack_text() && sent_to(
                                old(self).students(),
                                final(self).students(),
                                connection_id,
                                upload_ack(d.transfer_id, text),
                            )
                    } else {
                        final(self).students() == old(self).students()
                    }
                } else {
                    r == (StudentEffect::UnknownComplete { transfer_id: d.transfer_id }) && final(
                        uploads)@ == old(uploads)@ && final(self).students() == old(self).students()
                },
                StudentToTeacher::Error(e) => r == StudentEffect::StudentError(e) && final(self).students() == old(self).students() && final(uploads)@ == old(uploads)@,
            },
    {
        match message {
            StudentToTeacher::Hello(_) => StudentEffect::DuplicateHello,
            StudentToTeacher::Heartbeat(_) => {
                self.registry.touch(connection_id, now_ms);
                StudentEffect::Handled
            },
            StudentToTeacher::Ack(_) => StudentEffect::Handled,
            StudentToTeacher::Video(frame) => {
                if self.is_student_broadcasting(student_id.as_str()) {
                    self.broadcast_except(&TeacherToStudent::Video(frame), Some(connection_id));
                }
                StudentEffect::Handled
            },
            StudentToTeacher::Audio(frame) => {
                self.broadcast_except(&TeacherToStudent::Audio(frame), Some(connection_id));
                StudentEffect::Handled
            },
            StudentToTeacher::FileOffer(offer) => {
                let file_name = sanitize_filename(offer.file_name.as_str());
                StudentEffect::CreateUpload {
                    offer,
                    dir_name: sanitize_filename(student_id.as_str()),
                    file_name,
                }
            },
            StudentToTeacher::FileChunk(chunk) => {
                let transfer_id = chunk.transfer_id;
                match uploads.chunk(chunk) {
                    Some(bytes) => StudentEffect::WriteUpload { transfer_id, bytes },
                    None => StudentEffect::UnknownChunk { transfer_id },
                }
            },
            StudentToTeacher::FileComplete(done) => {
                let outcome = uploads.complete(&done);
                match outcome {
                    CompleteOutcome::Unknown => StudentEffect::UnknownComplete {
                        transfer_id: done.transfer_id,
                    },
                    CompleteOutcome::Failed { .. } => StudentEffect::CloseUpload {
                        transfer_id: done.transfer_id,
                        outcome,
                    },
                    CompleteOutcome::Finished { .. } => {
                        let text = String::from_str("文件上传完成");
                        let ghost t = text;
                        self.registry.send_to(
                            connection_id,
                            &TeacherToStudent::FileComplete(
                                FileTransferComplete {
                                    transfer_id: done.transfer_id,
                                    success: true,
                                    message: Some(text),
                                },
                            ),
                        );
                        assert(t@ == upload_ack_text());
                        StudentEffect::CloseUpload { transfer_id: done.transfer_id, outcome }
                    },
                }
            },
            StudentToTeacher::Error(e) => StudentEffect::StudentError(e),
        }
    }

    /// Starts sending `file_name` of `total_size` bytes to every student; it
    /// asks to be opened when `auto_open_override` or the settings say so.
    pub fn file_transfer(&self, file_name: String, total_size: u64, auto_open_override: bool) -> (r: OutgoingTransfer)
        ensures
            r.file_name == file_name,
            r.total_size == total_size,
            r.offset == 0,
            r.auto_open == (auto_open_override || self.config_spec().file_auto_open),
            r.sent@ == Seq::<Seq<u8>>::empty(),
            r.wf(),
    {
        OutgoingTransfer::new(file_name, total_size, auto_open_override || self.config.file_auto_open)
    }

    /// A snapshot for a control panel; the audio flags come from the audio pipeline.
    pub fn status_snapshot(&self, audio_enabled: bool, audio_forced: bool) -> (r: ServerStatus)
        ensures
            r.listen_addr@ == self.config_spec().listen_host@ + seq![':']
                + crate::text::decimal(self.config_spec().listen_port as nat),
            r.broadcast_mode == self.mode(),
            r.broadcast_source == self.source(),
            r.audio_enabled == audio_enabled,
            r.audio_forced == audio_forced,
            r.connected_students == self.students().len(),
    {
        ServerStatus {
            listen_addr: self.config.listen_addr(),
            broadcast_mode: self.mode,
            broadcast_source: self.broadcast_source(),
            audio_enabled,
            audio_forced,
            connected_students: self.registry.len(),
        }
    }
}

/// Exactly one capture source: the teacher's screen is captured when, and
/// only when, the teacher is the broadcast source; whenever a student is the
/// source, or none is, the teacher's capture is stopped.
pub proof fn lemma_capture_follows_source(t: TeacherState)
    requires
        t.wf(),
    ensures
        t.screen_running() <==> t.source() == Some(BroadcastSource::Teacher),
        (t.source() matches Some(BroadcastSource::Student { .. })) ==> !t.screen_running(),
        t.source() is None ==> !t.screen_running(),
{
}

/// No two connected students share a connection id.
pub proof fn lemma_connections_unique(t: TeacherState)
    requires
        t.wf(),
    ensures
        forall|i: int, j: int|
            0 <= i < j < t.students().len() ==> #[trigger] t.students()[i].connection_id
                != #[trigger] t.students()[j].connection_id,
{
}

/// Takes the first message of a new connection: it must be a `Hello`.
pub fn accept_greeting(first: StudentToTeacher) -> (r: Result<HelloMessage, HandshakeError>)
    ensures
        match first {
            StudentToTeacher::Hello(h) => r == Ok::<HelloMessage, HandshakeError>(h),
            _ => r == Err::<HelloMessage, HandshakeError>(HandshakeError::ExpectedHello),
        },
{
    match first {
        StudentToTeacher::Hello(h) => Ok(h),
        _ => Err(HandshakeError::ExpectedHello),
    }
}

} // verus!
