use yonder::commands::peers::{get_self, list_peers};
use yonder::commands::settings::{commit_settings, get_settings, merge_settings};
use yonder::commands::transfers::{
    accept_incoming, cancel_transfer, list_transfers, reject_incoming, send_files,
};
use yonder::config::Settings;
use yonder::identity::{secret_to_hex, Identity, SecretKey};
use yonder::state::{AppState, ApprovalDecision, Peer};
use yonder::transfer::{FileMeta, Timestamp, Transfer, TransferStatus, TransferUpdate};

fn fresh_state() -> AppState {
    let key = SecretKey::generate();
    let settings = Settings::defaults_with(secret_to_hex(&key), Some("me".into()), "/tmp/dl".into());
    let identity = Identity::new(&key, Some("me".into()));
    AppState::new(settings, identity)
}

fn peer(id: &str, name: &str) -> Peer {
    Peer {
        id: id.to_string(),
        name: name.to_string(),
        os: "linux".to_string(),
        version: "0.1.0".to_string(),
        addresses: vec!["10.0.0.2:1".to_string()],
    }
}

fn file(name: &str, size: u64) -> FileMeta {
    FileMeta { name: name.to_string(), size, mime: None }
}

const AT: Timestamp = Timestamp { secs: 1_700_000_000, nanos: 5 };

#[test]
fn insert_peer_reports_new_ids_only() {
    let mut s = fresh_state();
    assert!(s.insert_peer(peer("a", "Alice")));
    assert!(!s.insert_peer(peer("a", "Alice 2")));
    assert!(s.insert_peer(peer("b", "Bob")));
    assert_eq!(s.get_peer("a").unwrap().name, "Alice 2");
    let mut names: Vec<String> = list_peers(&s).into_iter().map(|p| p.name).collect();
    names.sort();
    assert_eq!(names, vec!["Alice 2".to_string(), "Bob".to_string()]);
    assert_eq!(s.remove_peer("a").unwrap().name, "Alice 2");
    assert!(s.remove_peer("a").is_none());
    assert!(s.get_peer("a").is_none());
    assert_eq!(s.list_peers().len(), 1);
}

#[test]
fn transfers_are_upserted_and_updated() {
    let mut s = fresh_state();
    let t = Transfer::new_receive("t1".into(), "p".into(), "P".into(), vec![file("a", 3), file("b", 4)]);
    assert_eq!(t.total_bytes, 7);
    assert_eq!(t.status, TransferStatus::AwaitingApproval);
    s.upsert_transfer(t);
    let u = s.update_transfer("t1", TransferUpdate::Started).unwrap();
    assert_eq!(u.status, TransferStatus::Active);
    let u = s.update_transfer("t1", TransferUpdate::Progress(5)).unwrap();
    assert_eq!(u.bytes_done, 5);
    let u = s
        .update_transfer("t1", TransferUpdate::Completed { bytes_done: 7, at: AT })
        .unwrap();
    assert_eq!(u.status, TransferStatus::Completed);
    assert_eq!(u.finished_at, Some(AT));
    assert!(s.update_transfer("nope", TransferUpdate::Started).is_none());
    assert_eq!(list_transfers(&s).len(), 1);
    assert_eq!(s.get_transfer("t1").unwrap().bytes_done, 7);
}

#[test]
fn cancel_leaves_finished_transfers_alone() {
    let mut s = fresh_state();
    let t = Transfer::new_receive("done".into(), "p".into(), "P".into(), vec![file("a", 1)]);
    s.upsert_transfer(t);
    s.update_transfer("done", TransferUpdate::Failed { error: "boom".into(), at: AT });
    let after = cancel_transfer(&mut s, "done", Timestamp { secs: 9, nanos: 0 }).unwrap();
    assert_eq!(after.status, TransferStatus::Failed);
    assert_eq!(after.error.as_deref(), Some("boom"));
    assert_eq!(after.finished_at, Some(AT));

    let t = Transfer::new_send("p".into(), "P".into(), vec![file("a", 1)]);
    let id = t.id.clone();
    assert_eq!(id.len(), 36);
    for (i, c) in id.chars().enumerate() {
        if i == 8 || i == 13 || i == 18 || i == 23 {
            assert_eq!(c, '-');
        } else {
            assert!(c.is_ascii_digit() || ('a'..='f').contains(&c), "{id}");
        }
    }
    assert_eq!(id.chars().nth(14), Some('4'));
    assert!("89ab".contains(id.chars().nth(19).unwrap()));
    s.upsert_transfer(t);
    let after = cancel_transfer(&mut s, &id, AT).unwrap();
    assert_eq!(after.status, TransferStatus::Cancelled);
}

#[test]
fn accepting_answers_the_waiting_side_once() {
    let mut s = fresh_state();
    let (tx, mut rx) = tokio::sync::oneshot::channel();
    s.register_pending_approval("t1", tx);
    assert!(accept_incoming(&mut s, "t1").is_ok());
    assert!(matches!(rx.try_recv(), Ok(ApprovalDecision::Accept)));
    assert_eq!(
        accept_incoming(&mut s, "t1"),
        Err("no pending approval for that transfer".to_string())
    );

    let (tx, rx) = tokio::sync::oneshot::channel::<ApprovalDecision>();
    drop(rx);
    s.register_pending_approval("t2", tx);
    assert_eq!(accept_incoming(&mut s, "t2"), Err("receiver dropped".to_string()));
    assert!(s.take_pending_approval("t2").is_none());
}

#[test]
fn rejecting_answers_and_marks_rejected() {
    let mut s = fresh_state();
    let t = Transfer::new_receive("t1".into(), "p".into(), "P".into(), vec![file("a", 1)]);
    s.upsert_transfer(t);
    let (tx, mut rx) = tokio::sync::oneshot::channel();
    s.register_pending_approval("t1", tx);
    let t = reject_incoming(&mut s, "t1", AT).unwrap();
    assert_eq!(t.status, TransferStatus::Rejected);
    assert_eq!(t.finished_at, Some(AT));
    assert!(matches!(rx.try_recv(), Ok(ApprovalDecision::Reject)));
    assert!(reject_incoming(&mut s, "missing", AT).is_none());
}

#[test]
fn send_files_checks_peer_then_paths() {
    let mut s = fresh_state();
    assert_eq!(
        send_files(&s, "zz", &vec!["/a".into()]).err(),
        Some("unknown peer id: zz".to_string())
    );
    s.insert_peer(peer("zz", "Z"));
    assert_eq!(send_files(&s, "zz", &vec![]).err(), Some("no files to send".to_string()));
    assert_eq!(send_files(&s, "zz", &vec!["/a".into()]).ok().unwrap().name, "Z");
}

#[test]
fn settings_updates_keep_the_secret_key() {
    let mut s = fresh_state();
    let key = s.settings().secret_key;
    let before = get_settings(&s);
    assert_eq!(before.secret_key, "");
    let mut wanted = before.clone();
    wanted.secret_key = "ffff".to_string();
    wanted.theme = "light".to_string();
    let merged = merge_settings(&s, wanted);
    assert_eq!(merged.secret_key, key);
    assert_eq!(merged.theme, "light");
    let u = commit_settings(&mut s, merged).ok().unwrap();
    assert!(u.identity.is_none());
    assert_eq!(u.settings.secret_key, "");
    assert_eq!(u.settings.theme, "light");
    assert_eq!(get_settings(&s).theme, "light");

    let mut renamed = get_settings(&s);
    renamed.display_name = "new name".to_string();
    let merged = merge_settings(&s, renamed);
    let u = commit_settings(&mut s, merged).ok().unwrap();
    let id = u.identity.unwrap();
    assert_eq!(id.name, "new name");
    assert_eq!(get_self(&s).name, "new name");
    assert_eq!(get_self(&s).id, id.id);
    assert_eq!(s.settings().secret_key, key);
    assert_eq!(get_settings(&s).secret_key, "");
}

#[test]
fn renaming_with_a_broken_key_fails() {
    let settings = Settings::defaults_with("zz".into(), Some("me".into()), "/d".into());
    let key = SecretKey::generate();
    let mut s = AppState::new(settings, Identity::new(&key, Some("me".into())));
    let mut renamed = get_settings(&s);
    renamed.display_name = "other".into();
    let merged = merge_settings(&s, renamed);
    let e = commit_settings(&mut s, merged).err().unwrap();
    assert!(e.starts_with("invalid secret key: invalid hex: "));
    assert_eq!(get_self(&s).name, "me");
}
