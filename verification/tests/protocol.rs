use yonder::accept::{
    begin_receive, check_meta, decision_from_reply, incoming_peer_name, meta_len, next_chunk_len, received_notice,
    MetaError, ReceivePhase, UploadMeta, MAX_META_BYTES,
};
use yonder::client::{
    SendPhase, SendSession,
    check_completion, check_decision, file_meta_for, frame_meta, prepare_send, sent_bytes,
    shrank_message, SendError,
};
use yonder::commands::transfers::cancel_transfer;
use yonder::config::Settings;
use yonder::identity::{secret_to_hex, Identity, SecretKey};
use yonder::state::{AppState, ApprovalDecision, Peer};
use yonder::transfer::{millis_as_u64, FileMeta, ProgressThrottle, Timestamp, TransferStatus};

fn state_with(auto_accept: bool) -> AppState {
    let key = SecretKey::generate();
    let mut settings = Settings::defaults_with(secret_to_hex(&key), Some("me".into()), "/d".into());
    settings.auto_accept = auto_accept;
    AppState::new(settings, Identity::new(&key, Some("me".into())))
}

fn file(name: &str, size: u64) -> FileMeta {
    FileMeta { name: name.to_string(), size, mime: None }
}

#[test]
fn meta_frame_round_trips() {
    let body = b"{\"session\":\"s\",\"files\":[]}".to_vec();
    let frame = frame_meta(&body).unwrap();
    assert_eq!(frame[..4], (body.len() as u32).to_le_bytes());
    assert_eq!(&frame[4..], &body[..]);
    let prefix: [u8; 4] = frame[..4].try_into().unwrap();
    assert_eq!(meta_len(&prefix), Ok(body.len()));
}

#[test]
fn meta_length_is_bounded() {
    assert_eq!(meta_len(&0u32.to_le_bytes()), Err(MetaError::InvalidLength(0)));
    assert_eq!(meta_len(&MAX_META_BYTES.to_le_bytes()), Ok(1024 * 1024));
    let over = MAX_META_BYTES + 1;
    let e = meta_len(&over.to_le_bytes()).unwrap_err();
    assert_eq!(e.message(), "invalid meta length: 1048577");
    let empty = UploadMeta { session: "s".into(), files: vec![] };
    let e = check_meta(empty).err().unwrap();
    assert_eq!(e.message(), "meta has no files");
    assert!(check_meta(UploadMeta { session: "s".into(), files: vec![file("a", 1)] }).is_ok());
}

#[test]
fn incoming_sender_is_named_by_peer_or_id() {
    let p = Peer {
        id: "abc".into(),
        name: "Alice".into(),
        os: "linux".into(),
        version: String::new(),
        addresses: vec![],
    };
    assert_eq!(incoming_peer_name(Some(p), "abc"), "Alice");
    assert_eq!(incoming_peer_name(None, "0123456789abcdef"), "Device 01234567");
    assert_eq!(incoming_peer_name(None, "abc"), "Device abc");
}

#[test]
fn auto_accept_skips_the_prompt() {
    let mut s = state_with(true);
    let meta = UploadMeta { session: "s1".into(), files: vec![file("a", 2), file("b", 3)] };
    let r = begin_receive(&mut s, "0123456789abcdef", meta);
    assert!(!r.ask_user);
    assert_eq!(r.transfer.peer_name, "Device 01234567");
    assert_eq!(r.transfer.total_bytes, 5);
    assert_eq!(s.get_transfer("s1").unwrap().status, TransferStatus::AwaitingApproval);

    let mut s = state_with(false);
    let meta = UploadMeta { session: "s2".into(), files: vec![file("a", 2)] };
    let incoming = begin_receive(&mut s, "ff", meta);
    assert!(incoming.ask_user);
    let mut session = incoming.session;
    assert_eq!(session.phase(), ReceivePhase::AwaitingDecision);
    let at = Timestamp { secs: 1, nanos: 2 };
    let t = session.decide(&mut s, ApprovalDecision::Reject, at).unwrap();
    assert_eq!(t.status, TransferStatus::Rejected);
    assert_eq!(t.finished_at, Some(at));
    assert_eq!(session.phase(), ReceivePhase::Done);
}

#[test]
fn accepted_receive_hands_out_each_file_in_order() {
    let mut s = state_with(false);
    let meta = UploadMeta { session: "s3".into(), files: vec![file("a.txt", 2), file("../b", 3)] };
    let mut session = begin_receive(&mut s, "ff", meta).session;
    let t = session
        .decide(&mut s, ApprovalDecision::Accept, Timestamp { secs: 0, nanos: 0 })
        .unwrap();
    assert_eq!(t.status, TransferStatus::Active);
    assert!(t.finished_at.is_none());
    let dir = tempfile::tempdir().unwrap();
    let d = dir.path().to_str().unwrap();
    let first = session.next_file(d).unwrap();
    assert_eq!(first.index, 0);
    assert_eq!(std::path::PathBuf::from(first.dest.unwrap()), dir.path().join("a.txt"));
    assert_eq!(session.remaining(), 2);
    assert_eq!(session.on_read(Some(2)), Ok(2));
    assert_eq!(session.remaining(), 0);
    let second = session.next_file(d).unwrap();
    assert_eq!(second.index, 1);
    assert_eq!(second.meta.size, 3);
    assert_eq!(std::path::PathBuf::from(second.dest.unwrap()), dir.path().join("..b"));
    assert_eq!(session.on_read(Some(1)), Ok(3));
    assert_eq!(session.on_read(Some(0)), Err("peer closed stream early".to_string()));
    assert_eq!(session.on_read(None), Err("peer closed stream early".to_string()));
    assert_eq!(session.remaining(), 2);
    assert_eq!(session.on_read(Some(2)), Ok(5));
    assert!(session.next_file(d).is_none());
    let at = Timestamp { secs: 3, nanos: 0 };
    let done = session.finish(&mut s, at).unwrap();
    assert_eq!(done.status, TransferStatus::Completed);
    assert_eq!(done.bytes_done, 5);
    assert_eq!(session.phase(), ReceivePhase::Done);
}

#[test]
fn notices_and_messages() {
    assert_eq!(received_notice(&vec![file("a.txt", 1)], "Bob"), "Received a.txt from Bob");
    assert_eq!(
        received_notice(&vec![file("a", 1), file("b", 1), file("c", 1)], "Bob"),
        "Received 3 files from Bob"
    );
    assert_eq!(
        shrank_message("/x/y", 12345),
        "/x/y shrank during transfer (expected 12345 more bytes)"
    );
    assert_eq!(SendError::Rejected.message(), "peer rejected transfer");
    assert_eq!(SendError::PeerFailed.message(), "peer reported transfer error");
    assert_eq!(SendError::MetaTooLarge.message(), "meta too large");
}

#[test]
fn sender_checks_replies() {
    assert_eq!(check_decision(1), Ok(()));
    assert_eq!(check_decision(0), Err(SendError::Rejected));
    assert_eq!(check_decision(7), Err(SendError::Rejected));
    assert_eq!(check_completion(0), Ok(()));
    assert_eq!(check_completion(1), Err(SendError::PeerFailed));
    assert_eq!(sent_bytes(0, 10), 10);
    assert_eq!(sent_bytes(4, 10), 4);
    assert_eq!(next_chunk_len(10, 64 * 1024), 10);
    assert_eq!(next_chunk_len(1 << 40, 64 * 1024), 64 * 1024);
}

#[test]
fn outgoing_files_are_named_after_their_path() {
    assert_eq!(file_meta_for("/home/u/report.pdf", 9).name, "report.pdf");
    assert_eq!(file_meta_for("/", 0).name, "unnamed");
    assert_eq!(file_meta_for("a/..", 0).name, "unnamed");
    let mut s = state_with(false);
    let p = Peer {
        id: "pp".into(),
        name: "P".into(),
        os: "linux".into(),
        version: String::new(),
        addresses: vec![],
    };
    let t = prepare_send(&mut s, &p, vec![file_meta_for("/x/a", 4), file_meta_for("/x/b", 6)]);
    assert_eq!(t.total_bytes, 10);
    assert_eq!(t.status, TransferStatus::Pending);
    assert_eq!(s.get_transfer(&t.id).unwrap().peer_name, "P");
}

#[test]
fn throttle_counts_every_byte_and_spaces_reports() {
    let mut th = ProgressThrottle::new(120);
    assert_eq!(th.add_at(10, 1000), Some(10));
    assert_eq!(th.add_at(5, 1050), None);
    assert_eq!(th.add_at(5, 1119), None);
    assert_eq!(th.add_at(1, 1120), Some(21));
    assert_eq!(th.add_at(1, 500), None); // clock went back
    assert_eq!(th.snapshot(), 22);
    let mut live = ProgressThrottle::new(0);
    assert_eq!(live.add(3), Some(3));
    assert_eq!(live.snapshot(), 3);
}

#[test]
fn send_session_streams_only_after_accept() {
    let mut s = state_with(false);
    let p = Peer {
        id: "pp".into(),
        name: "P".into(),
        os: "linux".into(),
        version: String::new(),
        addresses: vec![],
    };
    let t = prepare_send(&mut s, &p, vec![file("a", 0), file("b", 0)]);
    let mut session = SendSession::new(&t);
    assert_eq!(session.phase(), SendPhase::Connecting);
    let started = session.connected(&mut s).unwrap();
    assert_eq!(started.status, TransferStatus::Active);
    assert_eq!(session.phase(), SendPhase::AwaitingDecision);
    assert_eq!(session.on_decision(1), Ok(()));
    assert_eq!(session.next_file().unwrap().meta.name, "a");
    assert_eq!(session.next_file().unwrap().index, 1);
    assert!(session.next_file().is_none());
    assert_eq!(session.phase(), SendPhase::AwaitingCompletion);
    let at = Timestamp { secs: 4, nanos: 0 };
    let done = session.on_completion(&mut s, 0, at).unwrap().unwrap();
    assert_eq!(done.status, TransferStatus::Completed);
    assert_eq!(done.bytes_done, 0);
    assert_eq!(session.phase(), SendPhase::Done);
}

#[test]
fn send_session_rejected_or_failed() {
    let mut s = state_with(false);
    let p = Peer {
        id: "pp".into(),
        name: "P".into(),
        os: "linux".into(),
        version: String::new(),
        addresses: vec![],
    };
    let t = prepare_send(&mut s, &p, vec![file("a", 7)]);
    let mut session = SendSession::new(&t);
    session.connected(&mut s);
    assert_eq!(session.on_decision(0), Err(SendError::Rejected));
    assert_eq!(session.phase(), SendPhase::Done);
    let failed = session
        .fail(&mut s, SendError::Rejected.message(), Timestamp { secs: 1, nanos: 0 })
        .unwrap();
    assert_eq!(failed.status, TransferStatus::Failed);
    assert_eq!(failed.error.as_deref(), Some("peer rejected transfer"));

    let t = prepare_send(&mut s, &p, vec![file("a", 7)]);
    let mut session = SendSession::new(&t);
    session.connected(&mut s);
    session.on_decision(1).unwrap();
    assert!(session.next_file().is_some());
    assert_eq!(session.on_read(7), Some(7));
    assert!(session.next_file().is_none());
    let e = session.on_completion(&mut s, 1, Timestamp { secs: 2, nanos: 0 }).err().unwrap();
    assert_eq!(e, SendError::PeerFailed);
    assert_eq!(s.get_transfer(&t.id).unwrap().status, TransferStatus::Active);
}

#[test]
fn clock_millis_keep_the_low_64_bits() {
    assert_eq!(millis_as_u64(Some(1_700_000_000_123)), 1_700_000_000_123);
    assert_eq!(millis_as_u64(Some((1u128 << 64) + 3)), 3);
    assert_eq!(millis_as_u64(None), 0);
}

#[test]
fn send_session_counts_every_byte() {
    let mut s = state_with(false);
    let p = Peer {
        id: "pp".into(),
        name: "P".into(),
        os: "linux".into(),
        version: String::new(),
        addresses: vec![],
    };
    let t = prepare_send(&mut s, &p, vec![file("a", 5), file("b", 4)]);
    let mut session = SendSession::new(&t);
    session.connected(&mut s);
    session.on_decision(1).unwrap();
    session.next_file().unwrap();
    assert_eq!(session.remaining(), 5);
    assert_eq!(session.on_read(3), Some(3));
    assert_eq!(session.on_read(0), None);
    assert_eq!(session.remaining(), 2);
    assert_eq!(session.on_read(2), Some(5));
    session.next_file().unwrap();
    assert_eq!(session.on_read(4), Some(9));
    assert!(session.next_file().is_none());
    let done = session.on_completion(&mut s, 0, Timestamp { secs: 5, nanos: 0 }).unwrap().unwrap();
    assert_eq!(done.bytes_done, 9);
    assert_eq!(done.bytes_done, done.total_bytes);
}

#[test]
fn a_vanished_decider_means_reject() {
    assert_eq!(decision_from_reply(Some(ApprovalDecision::Accept)), ApprovalDecision::Accept);
    assert_eq!(decision_from_reply(Some(ApprovalDecision::Reject)), ApprovalDecision::Reject);
    assert_eq!(decision_from_reply(None), ApprovalDecision::Reject);
}

#[test]
fn a_cancelled_transfer_stays_cancelled_when_its_stream_fails() {
    let mut s = state_with(false);
    let meta = UploadMeta { session: "c1".into(), files: vec![file("a.txt", 2)] };
    let mut session = begin_receive(&mut s, "ff", meta).session;
    session.decide(&mut s, ApprovalDecision::Accept, Timestamp { secs: 0, nanos: 0 });
    let at = Timestamp { secs: 1, nanos: 0 };
    let c = cancel_transfer(&mut s, "c1", at).unwrap();
    assert_eq!(c.status, TransferStatus::Cancelled);
    let f = session.fail(&mut s, "network read failed".into(), Timestamp { secs: 2, nanos: 0 }).unwrap();
    assert_eq!(f.status, TransferStatus::Cancelled);
    assert_eq!(f.error, None);
    assert_eq!(f.finished_at, Some(at));
}

#[test]
fn failures_and_rejections_apply_except_failing_a_cancel() {
    let mut s = state_with(false);
    let meta = UploadMeta { session: "r1".into(), files: vec![file("a.txt", 2)] };
    let mut session = begin_receive(&mut s, "ff", meta).session;
    let at = Timestamp { secs: 1, nanos: 0 };
    let r = session.decide(&mut s, ApprovalDecision::Reject, at).unwrap();
    assert_eq!(r.status, TransferStatus::Rejected);

    let meta = UploadMeta { session: "r2".into(), files: vec![file("a.txt", 2)] };
    let mut session = begin_receive(&mut s, "ff", meta).session;
    session.decide(&mut s, ApprovalDecision::Accept, at);
    let later = Timestamp { secs: 2, nanos: 0 };
    let r = yonder::commands::transfers::reject_incoming(&mut s, "r2", later).unwrap();
    assert_eq!(r.status, TransferStatus::Rejected);
    assert_eq!(r.finished_at, Some(later));
    let f = session.fail(&mut s, "disk write failed".into(), Timestamp { secs: 3, nanos: 0 }).unwrap();
    assert_eq!(f.status, TransferStatus::Failed);
    assert_eq!(f.error.as_deref(), Some("disk write failed"));
    assert_eq!(f.finished_at, Some(Timestamp { secs: 3, nanos: 0 }));
}

#[test]
fn a_zero_interval_reports_every_addition() {
    let mut th = ProgressThrottle::new(0);
    assert_eq!(th.add(1), Some(1));
    assert_eq!(th.add(2), Some(3));
    let mut slow = ProgressThrottle::new(u64::MAX);
    assert_eq!(slow.add(4), None);
    assert_eq!(slow.snapshot(), 4);
}
