//! The computations behind each route.
pub mod api;
pub mod root;
pub mod sessionserver;
