//! The shapes of the Yggdrasil responses.
pub mod response;
