use classroom::config::{StudentRegistration, TeacherConfig};
use classroom::message::{
    AudioFrame, BroadcastCommand, BroadcastMode, BroadcastSource, FileChunk, FileOffer,
    FileTransferComplete, Heartbeat, HelloAck, HelloMessage, StudentCapabilities,
    StudentToTeacher, TeacherToStudent, VideoCodec, VideoFrame,
};
use classroom::registry::{Registry, StudentSession};
use classroom::server::{accept_greeting, HandshakeError, ScreenAction, StudentEffect, TeacherState};
use classroom::transfer::{CompleteOutcome, TransferTable};
use classroom::media::teacher_frame;

fn hello(id: &str, name: &str) -> HelloMessage {
    HelloMessage {
        student_id: id.to_string(),
        student_name: name.to_string(),
        client_version: "0.1.0".to_string(),
        capabilities: StudentCapabilities::default(),
    }
}

fn video(id: u64, source: BroadcastSource) -> VideoFrame {
    VideoFrame {
        frame_id: id,
        timestamp_ms: 1000 + id,
        source,
        codec: VideoCodec::Jpeg,
        width: 2,
        height: 2,
        fullscreen: true,
        data: vec![1, 2, 3],
    }
}

fn two_students() -> (TeacherState, u128, u128) {
    let mut t = TeacherState::new(TeacherConfig::default());
    let a = t.connect("10.0.0.1:4000".to_string(), hello("S1", "Ann"), "1.0".to_string(), 5);
    let b = t.connect("10.0.0.2:4000".to_string(), hello("S2", "Bo"), "1.0".to_string(), 6);
    (t, a, b)
}

#[test]
fn connect_queues_welcome_with_current_mode() {
    let (mut t, a, b) = two_students();
    assert_ne!(a, b);
    assert_eq!(t.student_count(), 2);
    let welcome = TeacherToStudent::Welcome(HelloAck {
        server_version: "1.0".to_string(),
        force_fullscreen: false,
        broadcast_mode: BroadcastMode::Window,
    });
    assert_eq!(t.take_outbox(a), vec![welcome.clone()]);
    assert_eq!(t.take_outbox(b), vec![welcome]);
    assert!(t.take_outbox(a).is_empty());
    let list = t.list_students();
    assert_eq!(list.len(), 2);
    assert_eq!(list[0].student_id, "S1");
    assert_eq!(list[0].display_name, "Ann");
    assert_eq!(list[1].addr, "10.0.0.2:4000");
}

#[test]
fn start_teacher_with_two_students_sends_start_then_frames() {
    let (mut t, a, b) = two_students();
    t.take_outbox(a);
    t.take_outbox(b);
    let action = t.start_teacher_broadcast(BroadcastMode::Fullscreen);
    assert_eq!(action, ScreenAction::Spawn(BroadcastMode::Fullscreen));
    assert_eq!(t.start_teacher_broadcast(BroadcastMode::Fullscreen), ScreenAction::Keep);
    let mut ids = Vec::new();
    for _ in 0..3 {
        let id = t.next_frame_id().unwrap();
        ids.push(id);
        t.broadcast_video(teacher_frame(id, 0, BroadcastMode::Fullscreen, 2, 2, vec![9]));
    }
    assert_eq!(ids, vec![1, 2, 3]);
    for conn in [a, b] {
        let got = t.take_outbox(conn);
        let start = TeacherToStudent::Broadcast(BroadcastCommand::Start {
            source: BroadcastSource::Teacher,
            mode: BroadcastMode::Fullscreen,
        });
        assert_eq!(got[0], start);
        assert_eq!(got[1], start);
        let mut last = 0;
        for m in &got[2..] {
            match m {
                TeacherToStudent::Video(f) => {
                    assert!(f.frame_id > last);
                    last = f.frame_id;
                    assert_eq!(f.source, BroadcastSource::Teacher);
                    assert!(f.fullscreen);
                }
                other => panic!("unexpected {:?}", other),
            }
        }
        assert_eq!(last, 3);
    }
}

#[test]
fn spotlight_relays_student_frames_to_others_only() {
    let (mut t, a, b) = two_students();
    t.take_outbox(a);
    t.take_outbox(b);
    t.start_teacher_broadcast(BroadcastMode::Window);
    assert_eq!(t.start_student_broadcast("S1"), ScreenAction::Abort);
    assert!(!t.is_screen_running());
    let source = BroadcastSource::Student {
        student_id: "S1".to_string(),
        student_name: Some("Ann".to_string()),
    };
    assert_eq!(t.broadcast_source(), Some(source.clone()));
    assert_eq!(t.broadcast_mode(), BroadcastMode::Fullscreen);
    assert!(t.is_student_broadcasting("S1"));
    assert!(!t.is_student_broadcasting("S2"));
    t.take_outbox(a);
    t.take_outbox(b);

    let mut uploads = TransferTable::new(false);
    let s1 = "S1".to_string();
    let s2 = "S2".to_string();
    for id in 1..=2 {
        let effect = t.handle_student_message(
            &mut uploads,
            a,
            &s1,
            StudentToTeacher::Video(video(id, source.clone())),
            50,
        );
        assert_eq!(effect, StudentEffect::Handled);
    }
    // S2 is not the source: its frames go nowhere.
    t.handle_student_message(&mut uploads, b, &s2, StudentToTeacher::Video(video(9, BroadcastSource::Teacher)), 50);

    assert!(t.take_outbox(a).is_empty());
    let got = t.take_outbox(b);
    assert_eq!(got.len(), 2);
    for (k, m) in got.iter().enumerate() {
        match m {
            TeacherToStudent::Video(f) => {
                assert_eq!(f.frame_id, k as u64 + 1);
                assert_eq!(f.source, source);
            }
            other => panic!("unexpected {:?}", other),
        }
    }
}

#[test]
fn spotlight_name_falls_back_to_expected_list_then_id() {
    let mut config = TeacherConfig::default();
    config.expected_students.push(StudentRegistration {
        student_id: "S7".to_string(),
        student_name: Some("Seven".to_string()),
        seat: None,
        allow_uploads: true,
    });
    let mut t = TeacherState::new(config);
    assert_eq!(t.find_student_name("S7"), Some("Seven".to_string()));
    assert_eq!(t.find_student_name("S8"), None);
    assert_eq!(t.start_student_broadcast("S8"), ScreenAction::Keep);
    assert_eq!(
        t.broadcast_source(),
        Some(BroadcastSource::Student { student_id: "S8".to_string(), student_name: Some("S8".to_string()) })
    );
    t.start_student_broadcast("S7");
    assert_eq!(
        t.broadcast_source(),
        Some(BroadcastSource::Student { student_id: "S7".to_string(), student_name: Some("Seven".to_string()) })
    );
}

#[test]
fn switching_sources_keeps_one_capture_running() {
    let (mut t, _a, _b) = two_students();
    assert!(!t.is_screen_running());
    assert_eq!(t.start_student_broadcast("S2"), ScreenAction::Keep);
    assert!(!t.is_screen_running());
    assert_eq!(t.start_teacher_broadcast(BroadcastMode::Fullscreen), ScreenAction::Spawn(BroadcastMode::Fullscreen));
    assert!(t.is_screen_running());
    assert_eq!(t.start_student_broadcast("S1"), ScreenAction::Abort);
    assert!(!t.is_screen_running());
    assert_eq!(t.start_teacher_broadcast(BroadcastMode::Window), ScreenAction::Spawn(BroadcastMode::Window));
    assert_eq!(t.stop_broadcast(), ScreenAction::Abort);
    assert_eq!(t.broadcast_source(), None);
    assert_eq!(t.broadcast_mode(), BroadcastMode::Window);
    assert_eq!(t.stop_broadcast(), ScreenAction::Keep);
}

#[test]
fn broadcast_except_skips_only_the_excluded_connection() {
    let mut r = Registry::new();
    for (k, id) in [11u128, 22, 33].iter().enumerate() {
        r.add(StudentSession::new(*id, format!("h{}", k), format!("S{}", k), "n".to_string(), StudentCapabilities::default(), 0));
    }
    let m = TeacherToStudent::Heartbeat(Heartbeat { timestamp_ms: 4 });
    r.broadcast_except(&m, Some(22));
    assert_eq!(r.take_outbox(11), vec![m.clone()]);
    assert!(r.take_outbox(22).is_empty());
    assert_eq!(r.take_outbox(33), vec![m.clone()]);
    r.broadcast_except(&m, None);
    r.broadcast_except(&TeacherToStudent::Error("x".to_string()), Some(99));
    assert_eq!(r.take_outbox(22), vec![m.clone(), TeacherToStudent::Error("x".to_string())]);
    r.remove(22);
    r.remove(22);
    assert_eq!(r.len(), 2);
    assert!(r.take_outbox(22).is_empty());
}

#[test]
fn registry_add_replaces_same_connection() {
    let mut r = Registry::new();
    r.add(StudentSession::new(1, "a".to_string(), "S1".to_string(), "one".to_string(), StudentCapabilities::default(), 0));
    r.add(StudentSession::new(1, "b".to_string(), "S1".to_string(), "uno".to_string(), StudentCapabilities::default(), 3));
    assert_eq!(r.len(), 1);
    assert_eq!(r.find_by_student_id("S1").unwrap().student_name, "uno");
    assert!(r.find_by_student_id("S9").is_none());
    r.touch(1, 77);
    assert_eq!(r.find_by_student_id("S1").unwrap().last_seen_ms, 77);
    r.clear();
    assert_eq!(r.len(), 0);
}

#[test]
fn audio_from_a_student_goes_to_the_others() {
    let (mut t, a, b) = two_students();
    t.take_outbox(a);
    t.take_outbox(b);
    let frame = AudioFrame { frame_id: 1, timestamp_ms: 2, sample_rate: 48000, channels: 2, force_play: false, data: vec![0, 1] };
    let mut uploads = TransferTable::new(false);
    t.handle_student_message(&mut uploads, a, &"S1".to_string(), StudentToTeacher::Audio(frame.clone()), 0);
    assert!(t.take_outbox(a).is_empty());
    assert_eq!(t.take_outbox(b), vec![TeacherToStudent::Audio(frame)]);
}

#[test]
fn chunk_for_unknown_transfer_is_dropped_and_connection_goes_on() {
    let (mut t, a, _b) = two_students();
    t.take_outbox(a);
    let mut uploads = TransferTable::new(false);
    let s1 = "S1".to_string();
    let effect = t.handle_student_message(
        &mut uploads,
        a,
        &s1,
        StudentToTeacher::FileChunk(FileChunk { transfer_id: 77, offset: 0, bytes: vec![1, 2], final_chunk: false }),
        10,
    );
    assert_eq!(effect, StudentEffect::UnknownChunk { transfer_id: 77 });
    assert_eq!(uploads.len(), 0);
    let effect = t.handle_student_message(&mut uploads, a, &s1, StudentToTeacher::Heartbeat(Heartbeat { timestamp_ms: 1 }), 99);
    assert_eq!(effect, StudentEffect::Handled);
    let effect = t.handle_student_message(
        &mut uploads,
        a,
        &s1,
        StudentToTeacher::FileOffer(FileOffer { transfer_id: 78, file_name: "a.txt".to_string(), total_size: 2, auto_open: false }),
        100,
    );
    let offer = FileOffer { transfer_id: 78, file_name: "a.txt".to_string(), total_size: 2, auto_open: false };
    assert_eq!(
        effect,
        StudentEffect::CreateUpload { offer: offer.clone(), dir_name: "S1".to_string(), file_name: "a.txt".to_string() }
    );
    // Nothing is registered until the file exists.
    assert_eq!(uploads.len(), 0);
    uploads.offer(&offer);
    assert_eq!(uploads.len(), 1);
}

#[test]
fn short_upload_is_finished_with_size_mismatch() {
    let (mut t, a, b) = two_students();
    t.take_outbox(a);
    t.take_outbox(b);
    let mut uploads = TransferTable::new(false);
    let s1 = "S1".to_string();
    let effect = t.handle_student_message(
        &mut uploads,
        a,
        &s1,
        StudentToTeacher::FileOffer(FileOffer { transfer_id: 5, file_name: "re:port?.txt".to_string(), total_size: 100, auto_open: false }),
        0,
    );
    let offer = FileOffer { transfer_id: 5, file_name: "re:port?.txt".to_string(), total_size: 100, auto_open: false };
    assert_eq!(
        effect,
        StudentEffect::CreateUpload { offer: offer.clone(), dir_name: "S1".to_string(), file_name: "re_port_.txt".to_string() }
    );
    assert_eq!(uploads.offer(&offer), "re_port_.txt");
    let mut written = Vec::new();
    for part in [vec![7u8; 50], vec![8u8; 30]] {
        match t.handle_student_message(
            &mut uploads,
            a,
            &s1,
            StudentToTeacher::FileChunk(FileChunk { transfer_id: 5, offset: written.len() as u64, bytes: part.clone(), final_chunk: false }),
            0,
        ) {
            StudentEffect::WriteUpload { transfer_id, bytes } => {
                assert_eq!(transfer_id, 5);
                written.extend(bytes);
            }
            other => panic!("unexpected {:?}", other),
        }
    }
    assert_eq!(written.len(), 80);
    assert_eq!(uploads.get(5).unwrap().received, 80);
    let effect = t.handle_student_message(
        &mut uploads,
        a,
        &s1,
        StudentToTeacher::FileComplete(FileTransferComplete { transfer_id: 5, success: true, message: None }),
        0,
    );
    assert_eq!(
        effect,
        StudentEffect::CloseUpload {
            transfer_id: 5,
            outcome: CompleteOutcome::Finished {
                transfer_id: 5,
                file_name: "re_port_.txt".to_string(),
                expected: 100,
                received: 80,
                size_mismatch: true,
                auto_open: false,
            },
        }
    );
    assert_eq!(uploads.len(), 0);
    assert_eq!(
        t.take_outbox(a),
        vec![TeacherToStudent::FileComplete(FileTransferComplete {
            transfer_id: 5,
            success: true,
            message: Some("文件上传完成".to_string()),
        })]
    );
    assert!(t.take_outbox(b).is_empty());
}

#[test]
fn failed_upload_is_discarded_without_ack() {
    let (mut t, a, _b) = two_students();
    t.take_outbox(a);
    let mut uploads = TransferTable::new(false);
    let s1 = "S1".to_string();
    t.handle_student_message(&mut uploads, a, &s1, StudentToTeacher::FileOffer(FileOffer { transfer_id: 3, file_name: "x".to_string(), total_size: 1, auto_open: false }), 0);
    uploads.offer(&FileOffer { transfer_id: 3, file_name: "x".to_string(), total_size: 1, auto_open: false });
    let effect = t.handle_student_message(&mut uploads, a, &s1, StudentToTeacher::FileComplete(FileTransferComplete { transfer_id: 3, success: false, message: None }), 0);
    assert_eq!(effect, StudentEffect::CloseUpload { transfer_id: 3, outcome: CompleteOutcome::Failed { transfer_id: 3 } });
    assert!(t.take_outbox(a).is_empty());
    let effect = t.handle_student_message(&mut uploads, a, &s1, StudentToTeacher::FileComplete(FileTransferComplete { transfer_id: 3, success: true, message: None }), 0);
    assert_eq!(effect, StudentEffect::UnknownComplete { transfer_id: 3 });
}

#[test]
fn other_messages() {
    let (mut t, a, _b) = two_students();
    let mut uploads = TransferTable::new(false);
    let s1 = "S1".to_string();
    assert_eq!(t.handle_student_message(&mut uploads, a, &s1, StudentToTeacher::Hello(hello("S1", "Ann")), 0), StudentEffect::DuplicateHello);
    assert_eq!(t.handle_student_message(&mut uploads, a, &s1, StudentToTeacher::Ack("ok".to_string()), 0), StudentEffect::Handled);
    assert_eq!(
        t.handle_student_message(&mut uploads, a, &s1, StudentToTeacher::Error("bad".to_string()), 0),
        StudentEffect::StudentError("bad".to_string())
    );
    t.remove_student(a);
    assert_eq!(t.student_count(), 1);
    t.disconnect_all();
    assert_eq!(t.student_count(), 0);
}

#[test]
fn handshake_requires_hello() {
    assert_eq!(accept_greeting(StudentToTeacher::Hello(hello("S1", "Ann"))), Ok(hello("S1", "Ann")));
    assert_eq!(
        accept_greeting(StudentToTeacher::Heartbeat(Heartbeat { timestamp_ms: 0 })),
        Err(HandshakeError::ExpectedHello)
    );
}

#[test]
fn status_snapshot_reports_state() {
    let (mut t, _a, _b) = two_students();
    t.start_teacher_broadcast(BroadcastMode::Fullscreen);
    let s = t.status_snapshot(true, false);
    assert_eq!(s.listen_addr, "0.0.0.0:5000");
    assert_eq!(s.broadcast_mode, BroadcastMode::Fullscreen);
    assert_eq!(s.broadcast_source, Some(BroadcastSource::Teacher));
    assert!(s.audio_enabled && !s.audio_forced);
    assert_eq!(s.connected_students, 2);
    assert_eq!(t.broadcast_config().fps, 12);
    assert_eq!(t.config().listen_port, 5000);
}

#[test]
fn mode_change_restarts_capture_and_drops_stale_frames() {
    let (mut t, a, b) = two_students();
    assert_eq!(t.start_teacher_broadcast(BroadcastMode::Fullscreen), ScreenAction::Spawn(BroadcastMode::Fullscreen));
    assert_eq!(t.start_teacher_broadcast(BroadcastMode::Window), ScreenAction::Restart(BroadcastMode::Window));
    assert_eq!(t.start_teacher_broadcast(BroadcastMode::Window), ScreenAction::Keep);
    t.take_outbox(a);
    t.take_outbox(b);
    // A frame framed for the old mode is discarded; one for the current mode goes out.
    assert!(!t.broadcast_video(teacher_frame(1, 0, BroadcastMode::Fullscreen, 2, 2, vec![1])));
    assert!(t.broadcast_video(teacher_frame(2, 0, BroadcastMode::Window, 2, 2, vec![2])));
    assert_eq!(t.take_outbox(a).len(), 1);
    // After a stop, an in-flight frame is discarded too.
    t.stop_broadcast();
    t.take_outbox(a);
    assert!(!t.broadcast_video(teacher_frame(3, 0, BroadcastMode::Window, 2, 2, vec![3])));
    assert!(t.take_outbox(a).is_empty());
    assert!(t.take_outbox(b).iter().all(|m| !matches!(m, TeacherToStudent::Video(f) if f.frame_id == 3)));
}

#[test]
fn file_transfer_auto_open_follows_override_or_settings() {
    let t = TeacherState::new(TeacherConfig::default());
    assert!(!t.file_transfer("a".to_string(), 1, false).auto_open);
    assert!(t.file_transfer("a".to_string(), 1, true).auto_open);
    let mut config = TeacherConfig::default();
    config.file_auto_open = true;
    let t = TeacherState::new(config);
    let out = t.file_transfer("a".to_string(), 9, false);
    assert!(out.auto_open);
    assert_eq!((out.total_size, out.offset), (9, 0));
}

#[test]
fn removing_twice_is_harmless() {
    let (mut t, a, _b) = two_students();
    t.remove_student(a);
    t.remove_student(a);
    assert_eq!(t.student_count(), 1);
    assert!(t.take_outbox(a).is_empty());
}
