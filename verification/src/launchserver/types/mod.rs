//! The messages exchanged with a LaunchServer backend, and their wire form.
pub mod profile;
pub mod request;
pub mod response;
