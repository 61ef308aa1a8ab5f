//! Verified core of a LAN file-sharing app: device identity and keys,
//! settings, transfer bookkeeping, peer tracking, and the decisions of the
//! transfer protocol.
pub mod accept;
pub mod client;
pub mod commands;
pub mod config;
pub mod discovery;
pub mod hex;
pub mod identity;
pub mod keyed;
pub mod net;
pub mod paths;
pub mod state;
pub mod text;
pub mod transfer;
