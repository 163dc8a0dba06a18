//! Session validation and profile lookup.
pub mod get_profile_by_uuid;
pub mod mapper;
pub mod player_has_joined;
