//! The core of a reverse proxy that routes by host: the header policy, the
//! request for the backend, the response for the client and the decisions in
//! between, verified with Verus. Network and routing table stay with the
//! caller.

pub mod clock;
pub mod dispatch;
pub mod header_map;
pub mod message;
pub mod names;
pub mod reverse;
pub mod sanitize;
pub mod tokens;
