//! The app's in-memory state: settings, identity, known peers, transfers
//! and the transfers waiting for the user's decision.
use vstd::prelude::*;
use crate::config::{key_text_fits, Settings};
use crate::identity::Identity;
use crate::keyed::{Keyed, KeyedList};
use crate::transfer::{updated, Transfer, TransferUpdate, TransferView};

verus! {

#[verifier::external_type_specification]
#[verifier::external_body]
#[verifier::reject_recursive_types(T)]
pub struct ExOneshotSender<T>(tokio::sync::oneshot::Sender<T>);

/// The user's answer to an incoming transfer.
#[derive(Clone, Copy, PartialEq, Eq, Structural, Debug)]
pub enum ApprovalDecision {
    Accept,
    Reject,
}

/// A peer found on the local network. Its id is its endpoint id as text.
pub struct Peer {
    pub id: String,
    pub name: String,
    pub os: String,
    pub version: String,
    /// Direct addresses learned through discovery; for display only.
    pub addresses: Vec<String>,
}

/// A peer as a value.
pub ghost struct PeerView {
    pub id: String,
    pub name: String,
    pub os: String,
    pub version: String,
    pub addresses: Seq<String>,
}

impl View for Peer {
    type V = PeerView;

    open spec fn view(&self) -> PeerView {
        PeerView {
            id: self.id,
            name: self.name,
            os: self.os,
            version: self.version,
            addresses: self.addresses@,
        }
    }
}

impl Clone for Peer {
    fn clone(&self) -> (r: Peer)
        ensures
            r@ == self@,
    {
        let addresses = self.addresses.clone();
        assert(addresses@ =~= self.addresses@);
        Peer {
            id: self.id.clone(),
            name: self.name.clone(),
            os: self.os.clone(),
            version: self.version.clone(),
            addresses,
        }
    }
}

impl Keyed for Peer {
    open spec fn key(&self) -> Seq<char> {
        self.id@
    }

    fn key_text(&self) -> (r: &str) {
        self.id.as_str()
    }
}

impl Keyed for Transfer {
    open spec fn key(&self) -> Seq<char> {
        self.id@
    }

    fn key_text(&self) -> (r: &str) {
        self.id.as_str()
    }
}

/// The channel that answers a transfer waiting for the user's decision.
pub struct PendingApproval {
    pub transfer_id: String,
    pub sender: tokio::sync::oneshot::Sender<ApprovalDecision>,
}

impl Keyed for PendingApproval {
    open spec fn key(&self) -> Seq<char> {
        self.transfer_id@
    }

    fn key_text(&self) -> (r: &str) {
        self.transfer_id.as_str()
    }
}

/// A list of peers holds, once each, the peers of a map.
pub open spec fn lists_peers(r: Seq<Peer>, m: Map<Seq<char>, Peer>) -> bool {
    &&& forall|i: int|
        0 <= i < r.len() ==> m.contains_key(#[trigger] r[i].id@) && r[i]@ == m[r[i].id@]@
    &&& forall|k: Seq<char>| #[trigger] m.contains_key(k) ==> exists|i: int| 0 <= i < r.len() && r[i].id@ == k
    &&& forall|i: int, j: int| 0 <= i < j < r.len() ==> r[i].id@ != r[j].id@
}

/// A list of transfers holds, once each, the transfers of a map.
pub open spec fn lists_transfers(r: Seq<Transfer>, m: Map<Seq<char>, Transfer>) -> bool {
    &&& forall|i: int|
        0 <= i < r.len() ==> m.contains_key(#[trigger] r[i].id@) && r[i]@ == m[r[i].id@]@
    &&& forall|k: Seq<char>| #[trigger] m.contains_key(k) ==> exists|i: int| 0 <= i < r.len() && r[i].id@ == k
    &&& forall|i: int, j: int| 0 <= i < j < r.len() ==> r[i].id@ != r[j].id@
}

/// In-memory app state.
pub struct AppState {
    settings: Settings,
    identity: Identity,
    peers: KeyedList<Peer>,
    transfers: KeyedList<Transfer>,
    pending_approvals: KeyedList<PendingApproval>,
    /// Every decision handed to a waiting side, in order, with the id of
    /// the transfer it answered.
    answers: Ghost<Seq<(Seq<char>, ApprovalDecision)>>,
}

impl AppState {
    /// The stores are consistent and the key text fits the decoder.
    pub closed spec fn inv(&self) -> bool {
        &&& self.peers.wf()
        &&& self.transfers.wf()
        &&& self.pending_approvals.wf()
        &&& key_text_fits(self.settings.secret_key@)
    }

    /// The current settings.
    pub closed spec fn settings_view(&self) -> Settings {
        self.settings
    }

    /// This device's identity.
    pub closed spec fn identity_view(&self) -> Identity {
        self.identity
    }

    /// Known peers by id.
    pub closed spec fn peer_map(&self) -> Map<Seq<char>, Peer> {
        self.peers.map()
    }

    /// Transfers by id.
    pub closed spec fn transfer_map(&self) -> Map<Seq<char>, Transfer> {
        self.transfers.map()
    }

    /// Transfers waiting for a decision, by transfer id.
    pub closed spec fn pending_map(&self) -> Map<Seq<char>, PendingApproval> {
        self.pending_approvals.map()
    }

    /// The decisions handed to waiting sides so far, oldest first, each
    /// with the id of the transfer it answered.
    pub closed spec fn answered(&self) -> Seq<(Seq<char>, ApprovalDecision)> {
        self.answers@
    }

    /// The settings always hold key text that the hex decoder can take.
    pub proof fn lemma_settings_key_fits(&self)
        requires
            self.inv(),
        ensures
            key_text_fits(self.settings_view().secret_key@),
    {
    }

    pub fn new(settings: Settings, identity: Identity) -> (r: AppState)
        requires
            key_text_fits(settings.secret_key@),
        ensures
            r.inv(),
            r.settings_view() == settings,
            r.identity_view() == identity,
            r.peer_map() == Map::<Seq<char>, Peer>::empty(),
            r.transfer_map() == Map::<Seq<char>, Transfer>::empty(),
            r.pending_map() == Map::<Seq<char>, PendingApproval>::empty(),
            r.answered() == Seq::<(Seq<char>, ApprovalDecision)>::empty(),
    {
        AppState {
            settings,
            identity,
            peers: KeyedList::new(),
            transfers: KeyedList::new(),
            pending_approvals: KeyedList::new(),
            answers: Ghost(Seq::empty()),
        }
    }

    pub fn identity(&self) -> (r: Identity)
        requires
            self.inv(),
        ensures
            r == self.identity_view(),
    {
        self.identity.clone()
    }

    pub fn set_identity(&mut self, identity: Identity)
        requires
            old(self).inv(),
        ensures
            final(self).inv(),
            final(self).identity_view() == identity,
            final(self).settings_view() == old(self).settings_view(),
            final(self).peer_map() == old(self).peer_map(),
            final(self).transfer_map() == old(self).transfer_map(),
            final(self).pending_map() == old(self).pending_map(),
    {
        self.identity = identity;
    }

    pub fn settings(&self) -> (r: Settings)
        requires
            self.inv(),
        ensures
            r == self.settings_view(),
    {
        self.settings.clone()
    }

    pub fn set_settings(&mut self, settings: Settings)
        requires
            old(self).inv(),
            key_text_fits(settings.secret_key@),
        ensures
            final(self).inv(),
            final(self).settings_view() == settings,
            final(self).identity_view() == old(self).identity_view(),
            final(self).peer_map() == old(self).peer_map(),
            final(self).transfer_map() == old(self).transfer_map(),
            final(self).pending_map() == old(self).pending_map(),
    {
        self.settings = settings;
    }

    /// Every known peer, once each, in no particular order.
    pub fn list_peers(&self) -> (r: Vec<Peer>)
        requires
            self.inv(),
        ensures
            lists_peers(r@, self.peer_map()),
    {
        let all = self.peers.as_vec();
        let mut r: Vec<Peer> = Vec::new();
        let mut i: usize = 0;
        while i < all.len()
            invariant
                i <= all@.len(),
                r@.len() == i,
                forall|j: int| 0 <= j < i ==> #[trigger] r@[j]@ == all@[j]@,
            decreases all@.len() - i,
        {
            r.push(all[i].clone());
            i = i + 1;
        }
        assert forall|k: Seq<char>| #[trigger] self.peer_map().contains_key(k) implies exists|
            i: int,
        | 0 <= i < r@.len() && r@[i].id@ == k by {
            let i = choose|i: int| 0 <= i < all@.len() && all@[i].key() == k;
            assert(r@[i]@ == all@[i]@);
        }
        assert forall|i: int| 0 <= i < r@.len() implies self.peer_map().contains_key(
            #[trigger] r@[i].id@,
        ) && r@[i]@ == self.peer_map()[r@[i].id@]@ by {
            assert(r@[i]@ == all@[i]@);
            assert(self.peer_map().contains_key(all@[i].key()));
        }
        assert forall|i: int, j: int| 0 <= i < j < r@.len() implies r@[i].id@ != r@[j].id@ by {
            assert(r@[i]@ == all@[i]@);
            assert(r@[j]@ == all@[j]@);
        }
        r
    }

    /// The peer with this id.
    pub fn get_peer(&self, id: &str) -> (r: Option<Peer>)
        requires
            self.inv(),
        ensures
            match r {
                Some(p) => self.peer_map().contains_key(id@) && p@ == self.peer_map()[id@]@,
                None => !self.peer_map().contains_key(id@),
            },
    {
        match self.peers.get(id) {
            Some(p) => Some(p.clone()),
            None => None,
        }
    }

    /// Records a peer; returns true if its id was new (the caller then
    /// reports it as added, else as updated).
    pub fn insert_peer(&mut self, peer: Peer) -> (r: bool)
        requires
            old(self).inv(),
        ensures
            final(self).inv(),
            r == !old(self).peer_map().contains_key(peer.id@),
            final(self).peer_map() == old(self).peer_map().insert(peer.id@, peer),
            final(self).settings_view() == old(self).settings_view(),
            final(self).identity_view() == old(self).identity_view(),
            final(self).transfer_map() == old(self).transfer_map(),
            final(self).pending_map() == old(self).pending_map(),
    {
        self.peers.insert(peer)
    }

    /// Forgets the peer with this id, returning it.
    pub fn remove_peer(&mut self, id: &str) -> (r: Option<Peer>)
        requires
            old(self).inv(),
        ensures
            final(self).inv(),
            match r {
                Some(p) => old(self).peer_map().contains_key(id@) && p == old(self).peer_map()[id@],
                None => !old(self).peer_map().contains_key(id@),
            },
            final(self).peer_map() == old(self).peer_map().remove(id@),
            final(self).settings_view() == old(self).settings_view(),
            final(self).identity_view() == old(self).identity_view(),
            final(self).transfer_map() == old(self).transfer_map(),
            final(self).pending_map() == old(self).pending_map(),
    {
        self.peers.remove(id)
    }

    /// Every transfer, once each, in no particular order.
    pub fn list_transfers(&self) -> (r: Vec<Transfer>)
        requires
            self.inv(),
        ensures
            lists_transfers(r@, self.transfer_map()),
    {
        let all = self.transfers.as_vec();
        let mut r: Vec<Transfer> = Vec::new();
        let mut i: usize = 0;
        while i < all.len()
            invariant
                i <= all@.len(),
                r@.len() == i,
                forall|j: int| 0 <= j < i ==> #[trigger] r@[j]@ == all@[j]@,
            decreases all@.len() - i,
        {
            r.push(all[i].clone());
            i = i + 1;
        }
        assert forall|k: Seq<char>| #[trigger] self.transfer_map().contains_key(k) implies exists|
            i: int,
        | 0 <= i < r@.len() && r@[i].id@ == k by {
            let i = choose|i: int| 0 <= i < all@.len() && all@[i].key() == k;
            assert(r@[i]@ == all@[i]@);
        }
        assert forall|i: int| 0 <= i < r@.len() implies self.transfer_map().contains_key(
            #[trigger] r@[i].id@,
        ) && r@[i]@ == self.transfer_map()[r@[i].id@]@ by {
            assert(r@[i]@ == all@[i]@);
            assert(self.transfer_map().contains_key(all@[i].key()));
        }
        assert forall|i: int, j: int| 0 <= i < j < r@.len() implies r@[i].id@ != r@[j].id@ by {
            assert(r@[i]@ == all@[i]@);
            assert(r@[j]@ == all@[j]@);
        }
        r
    }

    /// Records a transfer under its id, replacing one with the same id.
    pub fn upsert_transfer(&mut self, t: Transfer)
        requires
            old(self).inv(),
        ensures
            final(self).inv(),
            final(self).transfer_map() == old(self).transfer_map().insert(t.id@, t),
            final(self).settings_view() == old(self).settings_view(),
            final(self).identity_view() == old(self).identity_view(),
            final(self).peer_map() == old(self).peer_map(),
            final(self).pending_map() == old(self).pending_map(),
    {
        self.transfers.insert(t);
    }

    /// The transfer with this id.
    pub fn get_transfer(&self, id: &str) -> (r: Option<Transfer>)
        requires
            self.inv(),
        ensures
            match r {
                Some(t) => self.transfer_map().contains_key(id@) && t@ == self.transfer_map()[id@]@,
                None => !self.transfer_map().contains_key(id@),
            },
    {
        match self.transfers.get(id) {
            Some(t) => Some(t.clone()),
            None => None,
        }
    }

    /// Applies an update to the transfer with this id, returning a copy of
    /// the result; does nothing when there is no such transfer.
    pub fn update_transfer(&mut self, id: &str, u: TransferUpdate) -> (r: Option<Transfer>)
        requires
            old(self).inv(),
        ensures
            final(self).inv(),
            old(self).transfer_map().contains_key(id@) ==> {
                &&& r is Some
                &&& final(self).transfer_map().dom() == old(self).transfer_map().dom()
                &&& final(self).transfer_map()[id@]@ == updated(old(self).transfer_map()[id@]@, u)
                &&& r->0@ == final(self).transfer_map()[id@]@
                &&& forall|k: Seq<char>|
                    k != id@ && #[trigger] old(self).transfer_map().contains_key(k)
                        ==> final(self).transfer_map()[k] == old(self).transfer_map()[k]
            },
            !old(self).transfer_map().contains_key(id@) ==> r is None && final(self).transfer_map()
                == old(self).transfer_map(),
            final(self).answered() == old(self).answered(),
            final(self).settings_view() == old(self).settings_view(),
            final(self).identity_view() == old(self).identity_view(),
            final(self).peer_map() == old(self).peer_map(),
            final(self).pending_map() == old(self).pending_map(),
    {
        match self.transfers.remove(id) {
            Some(t) => {
                let mut t = t;
                t.apply(u);
                let copy = t.clone();
                self.transfers.insert(t);
                assert(self.transfers.map().dom() =~= old(self).transfer_map().dom());
                Some(copy)
            },
            None => None,
        }
    }

    /// Parks the channel that answers the transfer with this id, replacing
    /// one parked under the same id.
    pub fn register_pending_approval(
        &mut self,
        transfer_id: &str,
        tx: tokio::sync::oneshot::Sender<ApprovalDecision>,
    )
        requires
            old(self).inv(),
        ensures
            final(self).inv(),
            final(self).pending_map().contains_key(transfer_id@),
            final(self).pending_map()[transfer_id@].sender == tx,
            final(self).pending_map().dom() == old(self).pending_map().dom().insert(transfer_id@),
            forall|k: Seq<char>|
                k != transfer_id@ && #[trigger] old(self).pending_map().contains_key(k)
                    ==> final(self).pending_map()[k] == old(self).pending_map()[k],
            final(self).settings_view() == old(self).settings_view(),
            final(self).identity_view() == old(self).identity_view(),
            final(self).peer_map() == old(self).peer_map(),
            final(self).transfer_map() == old(self).transfer_map(),
    {
        let p = PendingApproval { transfer_id: transfer_id.to_string(), sender: tx };
        self.pending_approvals.insert(p);
    }

    /// Takes out the channel parked for this transfer id.
    pub fn take_pending_approval(&mut self, transfer_id: &str) -> (r: Option<
        tokio::sync::oneshot::Sender<ApprovalDecision>,
    >)
        requires
            old(self).inv(),
        ensures
            final(self).inv(),
            match r {
                Some(tx) => old(self).pending_map().contains_key(transfer_id@) && tx == old(self).pending_map()[transfer_id@].sender,
                None => !old(self).pending_map().contains_key(transfer_id@),
            },
            final(self).pending_map() == old(self).pending_map().remove(transfer_id@),
            final(self).answered() == old(self).answered(),
            final(self).settings_view() == old(self).settings_view(),
            final(self).identity_view() == old(self).identity_view(),
            final(self).peer_map() == old(self).peer_map(),
            final(self).transfer_map() == old(self).transfer_map(),
    {
        match self.pending_approvals.remove(transfer_id) {
            Some(p) => Some(p.sender),
            None => None,
        }
    }

    /// Hands the decision `d` to the side waiting on the transfer with
    /// this id, if one waits: `None` when none does, else whether the
    /// waiting side was still there to take it. Either way nothing waits
    /// for that transfer afterwards.
    pub fn answer_pending(&mut self, transfer_id: &str, d: ApprovalDecision) -> (r: Option<bool>)
        requires
            old(self).inv(),
        ensures
            final(self).inv(),
            final(self).pending_map() == old(self).pending_map().remove(transfer_id@),
            old(self).pending_map().contains_key(transfer_id@) ==> r is Some
                && final(self).answered() == old(self).answered().push((transfer_id@, d)),
            !old(self).pending_map().contains_key(transfer_id@) ==> r is None
                && final(self).answered() == old(self).answered(),
            final(self).settings_view() == old(self).settings_view(),
            final(self).identity_view() == old(self).identity_view(),
            final(self).peer_map() == old(self).peer_map(),
            final(self).transfer_map() == old(self).transfer_map(),
    {
        match self.take_pending_approval(transfer_id) {
            Some(tx) => {
                proof {
                    self.answers@ = self.answers@.push((transfer_id@, d));
                }
                Some(answer(tx, d))
            },
            None => None,
        }
    }
}

/// Answers a transfer parked for the user's decision
/// (`tokio::sync::oneshot::Sender::send`); false when the waiting side is
/// gone.
#[verifier::external_body]
fn answer(tx: tokio::sync::oneshot::Sender<ApprovalDecision>, d: ApprovalDecision) -> bool {
    tx.send(d).is_ok()
}

/// A peer reads back as it was recorded: after `insert_peer(p)`,
/// `get_peer` of its id gives `p`, and the other peers are unchanged.
pub proof fn lemma_peer_reads_back(before: Map<Seq<char>, Peer>, after: Map<Seq<char>, Peer>, p: Peer)
    requires
        after == before.insert(p.id@, p),
    ensures
        after.contains_key(p.id@),
        after[p.id@]@ == p@,
        forall|k: Seq<char>| k != p.id@ ==> (after.contains_key(k) <==> before.contains_key(k)),
        forall|k: Seq<char>| k != p.id@ && before.contains_key(k) ==> after[k] == before[k],
{
}

/// A removed peer is gone: after `remove_peer(id)`, `get_peer(id)` gives
/// nothing, and the other peers are unchanged.
pub proof fn lemma_removed_peer_is_gone(
    before: Map<Seq<char>, Peer>,
    after: Map<Seq<char>, Peer>,
    id: Seq<char>,
)
    requires
        after == before.remove(id),
    ensures
        !after.contains_key(id),
        forall|k: Seq<char>| k != id ==> (after.contains_key(k) <==> before.contains_key(k)),
{
}

/// A transfer reads back as it was recorded: after `upsert_transfer(t)`,
/// `get_transfer` of its id gives `t`.
pub proof fn lemma_transfer_reads_back(
    before: Map<Seq<char>, Transfer>,
    after: Map<Seq<char>, Transfer>,
    t: Transfer,
)
    requires
        after == before.insert(t.id@, t),
    ensures
        after.contains_key(t.id@),
        after[t.id@]@ == t@,
{
}

/// A parked decision channel is answered at most once: after it is taken,
/// no channel waits under that transfer id.
pub proof fn lemma_approval_taken_once(
    before: Map<Seq<char>, PendingApproval>,
    after: Map<Seq<char>, PendingApproval>,
    id: Seq<char>,
)
    requires
        after == before.remove(id),
    ensures
        !after.contains_key(id),
{
}

} // verus!
