//! Transfers: listing, starting a send, and answering incoming ones.
use vstd::prelude::*;
use crate::state::{lists_transfers, AppState, ApprovalDecision, Peer};
use crate::transfer::{updated, Timestamp, Transfer, TransferUpdate};

verus! {

/// Every transfer.
pub fn list_transfers(state: &AppState) -> (r: Vec<Transfer>)
    requires
        state.inv(),
    ensures
        lists_transfers(r@, state.transfer_map()),
{
    state.list_transfers()
}

/// Checks a request to send `paths` to the peer `peer_id`: the peer must
/// be known (else `unknown peer id: <id>`) and there must be a file (else
/// `no files to send`). Returns the peer.
pub fn send_files(state: &AppState, peer_id: &str, paths: &Vec<String>) -> (r: Result<Peer, String>)
    requires
        state.inv(),
    ensures
        !state.peer_map().contains_key(peer_id@) ==> (r matches Err(m) && m@
            == "unknown peer id: "@ + peer_id@),
        state.peer_map().contains_key(peer_id@) && paths@.len() == 0 ==> (r matches Err(m) && m@
            == "no files to send"@),
        state.peer_map().contains_key(peer_id@) && paths@.len() > 0 ==> (r matches Ok(p) && p@
            == state.peer_map()[peer_id@]@),
{
    let peer = match state.get_peer(peer_id) {
        Some(p) => p,
        None => {
            let mut m = "unknown peer id: ".to_string();
            m.append(peer_id);
            return Err(m);
        },
    };
    if paths.len() == 0 {
        return Err("no files to send".to_string());
    }
    Ok(peer)
}

/// Accepts the incoming transfer `transfer_id`: fails with `no pending
/// approval for that transfer` when none waits, and with `receiver
/// dropped` when the waiting side is gone. The waiting side is handed an
/// accept; either way nothing waits for it afterwards.
pub fn accept_incoming(state: &mut AppState, transfer_id: &str) -> (r: Result<(), String>)
    requires
        old(state).inv(),
    ensures
        final(state).inv(),
        final(state).pending_map() == old(state).pending_map().remove(transfer_id@),
        !old(state).pending_map().contains_key(transfer_id@) ==> (r matches Err(m) && m@
            == "no pending approval for that transfer"@),
        old(state).pending_map().contains_key(transfer_id@) ==> (r is Ok || (r matches Err(m) && m@
            == "receiver dropped"@)),
        old(state).pending_map().contains_key(transfer_id@) ==> final(state).answered() == old(
            state,
        ).answered().push((transfer_id@, ApprovalDecision::Accept)),
        !old(state).pending_map().contains_key(transfer_id@) ==> final(state).answered() == old(
            state,
        ).answered(),
        final(state).transfer_map() == old(state).transfer_map(),
        final(state).peer_map() == old(state).peer_map(),
        final(state).settings_view() == old(state).settings_view(),
{
    match state.answer_pending(transfer_id, ApprovalDecision::Accept) {
        None => Err("no pending approval for that transfer".to_string()),
        Some(false) => Err("receiver dropped".to_string()),
        Some(true) => Ok(()),
    }
}

/// Rejects the transfer `transfer_id`: answers it if it waits for a
/// decision, and marks it rejected. Returns the transfer, if there is one.
pub fn reject_incoming(state: &mut AppState, transfer_id: &str, at: Timestamp) -> (r: Option<
    Transfer,
>)
    requires
        old(state).inv(),
    ensures
        final(state).inv(),
        final(state).pending_map() == old(state).pending_map().remove(transfer_id@),
        old(state).pending_map().contains_key(transfer_id@) ==> final(state).answered() == old(
            state,
        ).answered().push((transfer_id@, ApprovalDecision::Reject)),
        !old(state).pending_map().contains_key(transfer_id@) ==> final(state).answered() == old(
            state,
        ).answered(),
        old(state).transfer_map().contains_key(transfer_id@) ==> {
            &&& r matches Some(t)
            &&& t@ == updated(
                old(state).transfer_map()[transfer_id@]@,
                TransferUpdate::Rejected { at },
            )
            &&& final(state).transfer_map()[transfer_id@]@ == t@
            &&& final(state).transfer_map().dom() == old(state).transfer_map().dom()
        },
        !old(state).transfer_map().contains_key(transfer_id@) ==> r is None
            && final(state).transfer_map() == old(state).transfer_map(),
        final(state).peer_map() == old(state).peer_map(),
        final(state).settings_view() == old(state).settings_view(),
{
    let _ = state.answer_pending(transfer_id, ApprovalDecision::Reject);
    state.update_transfer(transfer_id, TransferUpdate::Rejected { at })
}

/// Cancels the transfer `transfer_id`: a transfer waiting for a decision
/// is answered with a rejection, and a transfer that has not ended is
/// marked cancelled; an ended one is left as it is. Returns the transfer,
/// if there is one.
pub fn cancel_transfer(state: &mut AppState, transfer_id: &str, at: Timestamp) -> (r: Option<
    Transfer,
>)
    requires
        old(state).inv(),
    ensures
        final(state).inv(),
        final(state).pending_map() == old(state).pending_map().remove(transfer_id@),
        old(state).pending_map().contains_key(transfer_id@) ==> final(state).answered() == old(
            state,
        ).answered().push((transfer_id@, ApprovalDecision::Reject)),
        !old(state).pending_map().contains_key(transfer_id@) ==> final(state).answered() == old(
            state,
        ).answered(),
        old(state).transfer_map().contains_key(transfer_id@) ==> {
            &&& r matches Some(t)
            &&& t@ == updated(
                old(state).transfer_map()[transfer_id@]@,
                TransferUpdate::Cancelled { at },
            )
            &&& final(state).transfer_map()[transfer_id@]@ == t@
            &&& final(state).transfer_map().dom() == old(state).transfer_map().dom()
        },
        !old(state).transfer_map().contains_key(transfer_id@) ==> r is None
            && final(state).transfer_map() == old(state).transfer_map(),
        final(state).peer_map() == old(state).peer_map(),
        final(state).settings_view() == old(state).settings_view(),
{
    let _ = state.answer_pending(transfer_id, ApprovalDecision::Reject);
    state.update_transfer(transfer_id, TransferUpdate::Cancelled { at })
}

} // verus!
