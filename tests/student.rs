use classroom::config::StudentConfig;
use classroom::message::{
    AudioFrame, BroadcastCommand, BroadcastMode, BroadcastSource, FileChunk, FileOffer,
    FileTransferComplete, Heartbeat, HelloAck, StudentToTeacher, TeacherToStudent, VideoCodec,
    VideoFrame,
};
use classroom::student::{hello_message, SharingAction, StudentAction, StudentApp, StudentClient};
use classroom::transfer::CompleteOutcome;

fn config(id: &str) -> StudentConfig {
    let mut c = StudentConfig::default();
    c.student_id = id.to_string();
    c.auto_fullscreen = false;
    c
}

fn start(source: BroadcastSource, mode: BroadcastMode) -> TeacherToStudent {
    TeacherToStudent::Broadcast(BroadcastCommand::Start { source, mode })
}

fn student_source(id: &str) -> BroadcastSource {
    BroadcastSource::Student { student_id: id.to_string(), student_name: Some(id.to_string()) }
}

#[test]
fn app_keeps_its_config() {
    let app = StudentApp::new(config("S3"));
    assert_eq!(app.config().student_id, "S3");
    match hello_message(app.config(), "0.1.0".to_string()) {
        StudentToTeacher::Hello(h) => {
            assert_eq!(h.student_id, "S3");
            assert!(h.capabilities.receive_video && h.capabilities.send_video && !h.capabilities.send_audio);
            assert!(h.capabilities.file_transfer && h.capabilities.receive_audio);
        }
        other => panic!("unexpected {:?}", other),
    }
}

#[test]
fn forced_fullscreen_applies_only_when_allowed() {
    let mut c = StudentClient::new(config("S1"));
    let welcome = TeacherToStudent::Welcome(HelloAck {
        server_version: "1".to_string(),
        force_fullscreen: true,
        broadcast_mode: BroadcastMode::Fullscreen,
    });
    assert_eq!(c.handle_message(welcome, 0), StudentAction::Nothing);
    c.handle_message(start(BroadcastSource::Teacher, BroadcastMode::Fullscreen), 0);
    assert_eq!(c.current_mode(), BroadcastMode::Fullscreen);
    c.handle_message(start(BroadcastSource::Teacher, BroadcastMode::Window), 0);
    assert_eq!(c.current_mode(), BroadcastMode::Window);

    let mut strict = config("S1");
    strict.allow_forced_fullscreen = false;
    let mut c = StudentClient::new(strict);
    c.handle_message(TeacherToStudent::Welcome(HelloAck { server_version: "1".to_string(), force_fullscreen: true, broadcast_mode: BroadcastMode::Window }), 0);
    c.handle_message(start(BroadcastSource::Teacher, BroadcastMode::Fullscreen), 0);
    assert_eq!(c.current_mode(), BroadcastMode::Window);
}

#[test]
fn spotlighted_student_shares_and_others_stop() {
    let mut s1 = StudentClient::new(config("S1"));
    let mut s2 = StudentClient::new(config("S2"));
    let cmd = start(student_source("S1"), BroadcastMode::Fullscreen);
    assert_eq!(s1.handle_message(cmd.clone(), 0), StudentAction::Sharing(SharingAction::Spawn));
    assert_eq!(s2.handle_message(cmd.clone(), 0), StudentAction::Sharing(SharingAction::Keep));
    assert!(s1.is_sharing() && !s2.is_sharing());
    assert_eq!(s1.handle_message(cmd, 0), StudentAction::Sharing(SharingAction::Keep));
    assert_eq!(s1.next_frame_id(), Some(1));
    assert_eq!(s1.next_frame_id(), Some(2));
    let back = start(BroadcastSource::Teacher, BroadcastMode::Fullscreen);
    assert_eq!(s1.handle_message(back, 0), StudentAction::Sharing(SharingAction::Abort));
    assert!(!s1.is_sharing());
}

#[test]
fn request_share_and_stop() {
    let mut s1 = StudentClient::new(config("S1"));
    let req = TeacherToStudent::Broadcast(BroadcastCommand::RequestStudentShare { student_id: "S1".to_string() });
    assert_eq!(s1.handle_message(req, 0), StudentAction::Sharing(SharingAction::Spawn));
    let other = TeacherToStudent::Broadcast(BroadcastCommand::RequestStudentShare { student_id: "S9".to_string() });
    assert_eq!(s1.handle_message(other, 0), StudentAction::Sharing(SharingAction::Keep));
    assert!(s1.is_sharing());
    assert_eq!(
        s1.handle_message(TeacherToStudent::Broadcast(BroadcastCommand::Stop), 0),
        StudentAction::StopAll { abort_sharing: true }
    );
    assert_eq!(s1.current_mode(), BroadcastMode::Window);
    assert!(!s1.stop_sharing());
}

#[test]
fn frames_heartbeats_and_errors() {
    let mut c = StudentClient::new(config("S1"));
    let frame = VideoFrame { frame_id: 1, timestamp_ms: 0, source: BroadcastSource::Teacher, codec: VideoCodec::Bgra, width: 1, height: 1, fullscreen: false, data: vec![1, 2, 3, 4] };
    assert_eq!(
        c.handle_message(TeacherToStudent::Video(frame.clone()), 0),
        StudentAction::Display { frame, mode: BroadcastMode::Window }
    );
    let audio = AudioFrame { frame_id: 1, timestamp_ms: 0, sample_rate: 8000, channels: 1, force_play: false, data: vec![] };
    assert_eq!(c.handle_message(TeacherToStudent::Audio(audio.clone()), 0), StudentAction::Play(audio));
    assert_eq!(
        c.handle_message(TeacherToStudent::Heartbeat(Heartbeat { timestamp_ms: 1 }), 42),
        StudentAction::Reply(StudentToTeacher::Heartbeat(Heartbeat { timestamp_ms: 42 }))
    );
    assert_eq!(
        c.handle_message(TeacherToStudent::Error("e".to_string()), 0),
        StudentAction::TeacherError("e".to_string())
    );
}

#[test]
fn download_lifecycle_with_auto_open() {
    let mut cfg = config("S1");
    cfg.auto_open_file = false;
    let mut c = StudentClient::new(cfg);
    let offer = FileOffer { transfer_id: 4, file_name: "lesson*.pdf".to_string(), total_size: 3, auto_open: true };
    assert_eq!(
        c.handle_message(TeacherToStudent::FileOffer(offer.clone()), 0),
        StudentAction::CreateDownload { offer: offer.clone(), file_name: "lesson_.pdf".to_string() }
    );
    assert_eq!(c.register_download(&offer), "lesson_.pdf");
    assert_eq!(
        c.handle_message(TeacherToStudent::FileChunk(FileChunk { transfer_id: 4, offset: 0, bytes: vec![1, 2, 3], final_chunk: true }), 0),
        StudentAction::WriteDownload { transfer_id: 4, bytes: vec![1, 2, 3] }
    );
    assert_eq!(
        c.handle_message(TeacherToStudent::FileChunk(FileChunk { transfer_id: 5, offset: 0, bytes: vec![1], final_chunk: true }), 0),
        StudentAction::UnknownChunk { transfer_id: 5 }
    );
    let done = FileTransferComplete { transfer_id: 4, success: true, message: Some("文件 lesson*.pdf 已发送".to_string()) };
    match c.handle_message(TeacherToStudent::FileComplete(done), 0) {
        StudentAction::FinishDownload { transfer_id, outcome, open, reply } => {
            assert_eq!(transfer_id, 4);
            assert!(matches!(outcome, CompleteOutcome::Finished { size_mismatch: false, .. }));
            assert_eq!(open, Some("lesson_.pdf".to_string()));
            assert_eq!(reply, StudentToTeacher::Ack("文件 lesson*.pdf 已发送".to_string()));
        }
        other => panic!("unexpected {:?}", other),
    }
    let unknown = FileTransferComplete { transfer_id: 8, success: true, message: None };
    match c.handle_message(TeacherToStudent::FileComplete(unknown), 0) {
        StudentAction::FinishDownload { outcome, open, reply, .. } => {
            assert_eq!(outcome, CompleteOutcome::Unknown);
            assert_eq!(open, None);
            assert_eq!(reply, StudentToTeacher::Ack("文件传输完成".to_string()));
        }
        other => panic!("unexpected {:?}", other),
    }
}

#[test]
fn unregistered_download_takes_no_chunks() {
    let mut c = StudentClient::new(config("S1"));
    // The file could not be created, so the offer is never registered.
    c.handle_message(TeacherToStudent::FileOffer(FileOffer { transfer_id: 6, file_name: "a".to_string(), total_size: 1, auto_open: false }), 0);
    assert_eq!(
        c.handle_message(TeacherToStudent::FileChunk(FileChunk { transfer_id: 6, offset: 0, bytes: vec![1], final_chunk: true }), 0),
        StudentAction::UnknownChunk { transfer_id: 6 }
    );
}

#[test]
fn uploads_never_ask_to_open() {
    let out = classroom::student::upload_transfer("u.txt".to_string(), 5);
    assert!(!out.auto_open);
    assert_eq!(out.file_name, "u.txt");
    assert_eq!(out.offset, 0);
}

#[test]
fn failed_create_keeps_earlier_download() {
    let mut c = StudentClient::new(config("S1"));
    let first = FileOffer { transfer_id: 2, file_name: "f".to_string(), total_size: 1, auto_open: false };
    c.handle_message(TeacherToStudent::FileOffer(first.clone()), 0);
    c.register_download(&first);
    // A second offer under the same id whose file is never created leaves the first in place.
    let again = FileOffer { transfer_id: 2, file_name: "g".to_string(), total_size: 5, auto_open: true };
    c.handle_message(TeacherToStudent::FileOffer(again), 0);
    assert_eq!(
        c.handle_message(TeacherToStudent::FileChunk(FileChunk { transfer_id: 2, offset: 0, bytes: vec![7], final_chunk: true }), 0),
        StudentAction::WriteDownload { transfer_id: 2, bytes: vec![7] }
    );
}
