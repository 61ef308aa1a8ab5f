//! Peer discovery decisions: what a discovery announcement makes of a
//! peer, and the grace period before a vanished peer is dropped.
//!
//! Discovery reports a peer as discovered or expired. An expiry only
//! schedules the peer's removal; a discovery of the same peer before the
//! removal is due cancels it, so a peer that drops one announcement does
//! not flicker out of view. Each scheduled removal carries a token; only
//! the removal whose token is still current takes effect.
use vstd::prelude::*;
use crate::keyed::{Keyed, KeyedList};
use crate::state::{AppState, Peer};
use crate::text::str_eq;

verus! {

/// The grace period before a vanished peer is dropped, in milliseconds.
pub const PEER_REMOVAL_GRACE_MS: u64 = 4000;

/// What this device announces about itself.
pub struct PeerUserDataIn {
    pub name: String,
    pub os: String,
    pub version: String,
}

/// The compact form of the announcement carried by discovery: display
/// name, OS tag, version.
pub struct PeerUserData {
    pub n: String,
    pub o: String,
    pub v: String,
}

impl PeerUserData {
    /// The compact form of an announcement.
    pub fn from_announcement(d: &PeerUserDataIn) -> (r: PeerUserData)
        ensures
            r.n == d.name,
            r.o == d.os,
            r.v == d.version,
    {
        PeerUserData { n: d.name.clone(), o: d.os.clone(), v: d.version.clone() }
    }
}

/// The peer that an announcement describes; without readable user data it
/// is `Unknown device`, OS `unknown`, no version.
pub fn peer_from_discovery(id: String, user_data: Option<PeerUserData>, addresses: Vec<String>) -> (r:
    Peer)
    ensures
        r.id == id,
        r.addresses == addresses,
        match user_data {
            Some(u) => r.name == u.n && r.os == u.o && r.version == u.v,
            None => r.name@ == "Unknown device"@ && r.os@ == "unknown"@ && r.version@
                == Seq::<char>::empty(),
        },
{
    let (name, os, version) = match user_data {
        Some(u) => (u.n, u.o, u.v),
        None => ("Unknown device".to_string(), "unknown".to_string(), String::new()),
    };
    Peer { id, name, os, version, addresses }
}

/// A removal waiting for the grace period to pass.
pub struct PendingRemoval {
    pub peer_id: String,
    pub token: u64,
}

impl Keyed for PendingRemoval {
    open spec fn key(&self) -> Seq<char> {
        self.peer_id@
    }

    fn key_text(&self) -> (r: &str) {
        self.peer_id.as_str()
    }
}

/// What a discovery did.
pub enum Discovered {
    /// The announcement was this device's own.
    Ignored,
    /// The peer was recorded; `added` tells whether it is new. A pending
    /// removal of it, if there was one, was cancelled.
    Seen { peer: Peer, added: bool, cancelled: Option<u64> },
}

/// A removal to run after the grace period, and the older one it replaces.
pub struct ScheduledRemoval {
    pub token: u64,
    pub superseded: Option<u64>,
}

/// The scheduled removals and this device's own id.
pub struct PeerTracker {
    our_id: String,
    pending: KeyedList<PendingRemoval>,
    next_token: u64,
}

/// Whether a removal that comes due takes effect: it must still be the
/// one scheduled for the peer.
pub open spec fn removal_is_current(
    pending: Map<Seq<char>, PendingRemoval>,
    id: Seq<char>,
    token: u64,
) -> bool {
    pending.contains_key(id) && pending[id].token == token
}

impl PeerTracker {
    pub closed spec fn inv(&self) -> bool {
        self.pending.wf()
    }

    /// This device's id.
    pub closed spec fn our_id_view(&self) -> Seq<char> {
        self.our_id@
    }

    /// The scheduled removals, by peer id.
    pub closed spec fn pending_map(&self) -> Map<Seq<char>, PendingRemoval> {
        self.pending.map()
    }

    pub fn new(our_id: String) -> (r: PeerTracker)
        ensures
            r.inv(),
            r.our_id_view() == our_id@,
            r.pending_map() == Map::<Seq<char>, PendingRemoval>::empty(),
    {
        PeerTracker { our_id, pending: KeyedList::new(), next_token: 0 }
    }

    /// A peer was discovered: unless it is this device, record it and
    /// cancel its pending removal.
    pub fn on_discovered(
        &mut self,
        state: &mut AppState,
        id: String,
        user_data: Option<PeerUserData>,
        addresses: Vec<String>,
    ) -> (r: Discovered)
        requires
            old(self).inv(),
            old(state).inv(),
        ensures
            final(self).inv(),
            final(state).inv(),
            final(self).our_id_view() == old(self).our_id_view(),
            id@ == old(self).our_id_view() ==> {
                &&& r is Ignored
                &&& final(state).peer_map() == old(state).peer_map()
                &&& final(self).pending_map() == old(self).pending_map()
            },
            id@ != old(self).our_id_view() ==> {
                &&& r matches Discovered::Seen { peer, added, cancelled }
                &&& peer.id == id
                &&& added == !old(state).peer_map().contains_key(id@)
                &&& final(state).peer_map() == old(state).peer_map().insert(
                    id@,
                    final(state).peer_map()[id@],
                )
                &&& final(state).peer_map()[id@]@ == peer@
                &&& final(self).pending_map() == old(self).pending_map().remove(id@)
                &&& match cancelled {
                    Some(t) => old(self).pending_map().contains_key(id@) && t == old(self).pending_map()[id@].token,
                    None => !old(self).pending_map().contains_key(id@),
                }
            },
            final(state).transfer_map() == old(state).transfer_map(),
            final(state).pending_map() == old(state).pending_map(),
            final(state).settings_view() == old(state).settings_view(),
    {
        if str_eq(id.as_str(), self.our_id.as_str()) {
            return Discovered::Ignored;
        }
        let cancelled = match self.pending.remove(id.as_str()) {
            Some(p) => Some(p.token),
            None => None,
        };
        let peer = peer_from_discovery(id, user_data, addresses);
        let copy = peer.clone();
        let added = state.insert_peer(peer);
        Discovered::Seen { peer: copy, added, cancelled }
    }

    /// A peer's announcement expired: unless it is this device, schedule
    /// its removal, replacing an older schedule.
    pub fn on_expired(&mut self, id: &str) -> (r: Option<ScheduledRemoval>)
        requires
            old(self).inv(),
        ensures
            final(self).inv(),
            final(self).our_id_view() == old(self).our_id_view(),
            id@ == old(self).our_id_view() ==> r is None && final(self).pending_map() == old(self).pending_map(),
            id@ != old(self).our_id_view() ==> {
                &&& r matches Some(s)
                &&& final(self).pending_map().contains_key(id@)
                &&& final(self).pending_map()[id@].token == s.token
                &&& final(self).pending_map().dom() == old(self).pending_map().dom().insert(id@)
                &&& forall|k: Seq<char>|
                    k != id@ && #[trigger] old(self).pending_map().contains_key(k)
                        ==> final(self).pending_map()[k] == old(self).pending_map()[k]
                &&& match s.superseded {
                    Some(t) => old(self).pending_map().contains_key(id@) && t == old(self).pending_map()[id@].token,
                    None => !old(self).pending_map().contains_key(id@),
                }
            },
    {
        if str_eq(id, self.our_id.as_str()) {
            return None;
        }
        let token = self.next_token;
        self.next_token = self.next_token.wrapping_add(1);
        let superseded = match self.pending.get(id) {
            Some(p) => Some(p.token),
            None => None,
        };
        self.pending.insert(PendingRemoval { peer_id: id.to_string(), token });
        Some(ScheduledRemoval { token, superseded })
    }

    /// The grace period of the removal `token` of peer `id` has passed: if
    /// it is still the current schedule, drop the peer and return it (the
    /// caller reports it as removed when it was known).
    pub fn on_removal_due(&mut self, state: &mut AppState, id: &str, token: u64) -> (r: Option<Peer>)
        requires
            old(self).inv(),
            old(state).inv(),
        ensures
            final(self).inv(),
            final(state).inv(),
            final(self).our_id_view() == old(self).our_id_view(),
            removal_is_current(old(self).pending_map(), id@, token) ==> {
                &&& final(self).pending_map() == old(self).pending_map().remove(id@)
                &&& final(state).peer_map() == old(state).peer_map().remove(id@)
                &&& match r {
                    Some(p) => old(state).peer_map().contains_key(id@) && p == old(state).peer_map()[id@],
                    None => !old(state).peer_map().contains_key(id@),
                }
            },
            !removal_is_current(old(self).pending_map(), id@, token) ==> {
                &&& r is None
                &&& final(self).pending_map() == old(self).pending_map()
                &&& final(state).peer_map() == old(state).peer_map()
            },
            final(state).transfer_map() == old(state).transfer_map(),
            final(state).pending_map() == old(state).pending_map(),
            final(state).settings_view() == old(state).settings_view(),
    {
        let current = match self.pending.get(id) {
            Some(p) => p.token == token,
            None => false,
        };
        if !current {
            return None;
        }
        self.pending.remove(id);
        state.remove_peer(id)
    }
}

/// A peer that is discovered again before its removal is due stays: once
/// a discovery has cancelled the schedule, no removal of that peer is
/// current.
pub proof fn lemma_rediscovery_cancels_removal(
    pending: Map<Seq<char>, PendingRemoval>,
    id: Seq<char>,
    token: u64,
)
    ensures
        !removal_is_current(pending.remove(id), id, token),
{
}

/// An expiry supersedes the previous schedule: only the newest token of a
/// peer is current.
pub proof fn lemma_newest_schedule_wins(
    pending: Map<Seq<char>, PendingRemoval>,
    removal: PendingRemoval,
    older: u64,
)
    requires
        older != removal.token,
    ensures
        removal_is_current(pending.insert(removal.peer_id@, removal), removal.peer_id@, removal.token),
        !removal_is_current(pending.insert(removal.peer_id@, removal), removal.peer_id@, older),
{
}

} // verus!
