//! The communication layer of a SignalR client, without the network.
//!
//! What touches the network is kept outside: whoever drives a connection asks
//! this library what to do next, does it, and reports what came back. Dialing
//! ([`dial`]), receiving ([`receive`]), reconnecting on request
//! ([`reconnect`]) and handling a dropped connection ([`dropped`]) are state
//! machines over a shared [`state`]; negotiation ([`http_client`]) and the
//! framing of hub messages ([`framing`]) are plain functions.

pub mod client;
pub mod dial;
pub mod dropped;
pub mod encoding;
pub mod endpoint;
pub mod framing;
pub mod http_client;
pub mod protocol;
pub mod receive;
pub mod reconnect;
pub mod state;
pub mod text;
