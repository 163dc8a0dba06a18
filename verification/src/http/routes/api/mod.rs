//! The bulk lookup of profiles.
pub mod get_profiles_by_usernames;
