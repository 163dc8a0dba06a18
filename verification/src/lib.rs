//! An authentication proxy core: the correlation client that multiplexes
//! request/response pairs over one WebSocket to a LaunchServer backend, and the
//! mapper that turns backend profiles into signed Yggdrasil texture properties.
//!
//! Everything here is pure decision logic over plain values; sockets, timers and
//! tasks live with the caller, which feeds events in and performs the actions
//! that come out.
pub mod address;
pub mod config;
pub mod encoding;
pub mod http;
pub mod identifier;
pub mod json;
pub mod launchserver;
pub mod signing;
