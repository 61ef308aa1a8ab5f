//! Peers and this device.
use vstd::prelude::*;
use crate::identity::Identity;
use crate::state::{lists_peers, AppState, Peer};

verus! {

/// Every known peer.
pub fn list_peers(state: &AppState) -> (r: Vec<Peer>)
    requires
        state.inv(),
    ensures
        lists_peers(r@, state.peer_map()),
{
    state.list_peers()
}

/// This device's identity.
pub fn get_self(state: &AppState) -> (r: Identity)
    requires
        state.inv(),
    ensures
        r == state.identity_view(),
{
    state.identity()
}

} // verus!
