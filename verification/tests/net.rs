use yonder::config::Settings;
use yonder::discovery::{instance_from_fullname, short_host_id, SERVICE_TYPE};
use yonder::identity::{secret_to_hex, Identity, SecretKey};
use yonder::net::{peer_from_discovery, Discovered, PeerTracker, PeerUserData};
use yonder::state::AppState;

fn state() -> AppState {
    let key = SecretKey::generate();
    let settings = Settings::defaults_with(secret_to_hex(&key), Some("me".into()), "/d".into());
    AppState::new(settings, Identity::new(&key, Some("me".into())))
}

fn data(n: &str) -> Option<PeerUserData> {
    Some(PeerUserData { n: n.into(), o: "linux".into(), v: "1".into() })
}

#[test]
fn own_announcements_are_ignored() {
    let mut s = state();
    let mut t = PeerTracker::new("me".into());
    assert!(matches!(t.on_discovered(&mut s, "me".into(), data("x"), vec![]), Discovered::Ignored));
    assert!(t.on_expired("me").is_none());
    assert!(s.list_peers().is_empty());
}

#[test]
fn rediscovery_cancels_a_pending_removal() {
    let mut s = state();
    let mut t = PeerTracker::new("me".into());
    match t.on_discovered(&mut s, "p".into(), data("Pat"), vec!["1.2.3.4".into()]) {
        Discovered::Seen { added, cancelled, peer } => {
            assert!(added);
            assert!(cancelled.is_none());
            assert_eq!(peer.name, "Pat");
        }
        Discovered::Ignored => panic!("peer ignored"),
    }
    let sched = t.on_expired("p").unwrap();
    assert!(sched.superseded.is_none());
    match t.on_discovered(&mut s, "p".into(), data("Pat"), vec![]) {
        Discovered::Seen { added, cancelled, .. } => {
            assert!(!added);
            assert_eq!(cancelled, Some(sched.token));
        }
        Discovered::Ignored => panic!("peer ignored"),
    }
    assert!(t.on_removal_due(&mut s, "p", sched.token).is_none());
    assert!(s.get_peer("p").is_some());
}

#[test]
fn only_the_newest_removal_counts() {
    let mut s = state();
    let mut t = PeerTracker::new("me".into());
    t.on_discovered(&mut s, "p".into(), None, vec![]);
    let first = t.on_expired("p").unwrap();
    let second = t.on_expired("p").unwrap();
    assert_eq!(second.superseded, Some(first.token));
    assert!(t.on_removal_due(&mut s, "p", first.token).is_none());
    assert!(s.get_peer("p").is_some());
    let gone = t.on_removal_due(&mut s, "p", second.token).unwrap();
    assert_eq!(gone.name, "Unknown device");
    assert!(s.get_peer("p").is_none());
    assert!(t.on_removal_due(&mut s, "p", second.token).is_none());
}

#[test]
fn announcements_without_user_data_get_defaults() {
    let p = peer_from_discovery("id".into(), None, vec![]);
    assert_eq!(p.name, "Unknown device");
    assert_eq!(p.os, "unknown");
    assert_eq!(p.version, "");
}

#[test]
fn service_names() {
    assert_eq!(SERVICE_TYPE, "_yonder._tcp.local.");
    assert_eq!(short_host_id("1234-5678-9"), "1234");
    assert_eq!(short_host_id("abcdef"), "abcdef");
    assert_eq!(short_host_id("-x"), "");
    assert_eq!(instance_from_fullname("dev1._yonder._tcp.local."), "dev1");
    assert_eq!(instance_from_fullname("dev1._other._tcp.local."), "dev1._other._tcp.local.");
    assert_eq!(instance_from_fullname("_yonder._tcp.local."), "_yonder._tcp.local.");
}
