use crate::http::dto::response as dto;
use crate::http::routes::sessionserver::mapper::{map_profile, mapped};
use crate::http::state::State;
use crate::http::Reply;
use crate::launchserver::types::profile::ProfileView;
use crate::launchserver::types::request;
use crate::launchserver::types::response::GetProfileByUuid;
use crate::launchserver::Error;
use openssl::pkey::Private;
use openssl::rsa::Rsa;
use vstd::prelude::*;

verus! {

/// The path of the route.
#[derive(Debug)]
pub struct GetProfileByUuidPath {
    pub server_id: String,
    pub profile_id: u128,
}

/// The query of the route.
#[derive(Clone, Copy, Debug, PartialEq, Eq, Structural)]
pub struct GetProfileByUuidQuery {
    pub unsigned: bool,
}

/// The profile with its textures.
#[derive(Debug)]
pub struct GetProfileByUuidResponse(pub dto::Profile);

/// What a profile route answers with: the mapped profile, or nothing where the
/// profile cannot be mapped.
pub open spec fn answered(profile: ProfileView, key: Rsa<Private>, now: u128, signed: bool)
    -> Option<dto::ProfileView> {
    match mapped(profile, key, now, signed) {
        Ok(out) => Some(out),
        Err(_) => None,
    }
}

/// The first step of the route: the backend that the path names, by its
/// position, and the request for the profile that the path names. `None`, for
/// which the route answers nothing, where there is no such backend.
pub fn profile_request(state: &State, path: &GetProfileByUuidPath) -> (step: Option<
    (usize, request::Any),
>)
    ensures
        match state.position(path.server_id@) {
            Some(index) => step matches Some((found, request)) && found == index && request@.body
                == (request::KindView::GetProfileByUuid { uuid: path.profile_id }),
            None => step.is_none(),
        },
{
    match state.index(path.server_id.as_str()) {
        Some(index) => Some(
            (index, state.servers[index].socket.get_profile_by_uuid(path.profile_id)),
        ),
        None => None,
    }
}

/// Answers the lookup of one profile: the mapped profile, signed unless the
/// query says `unsigned`, where the backend answered; nothing where the call
/// failed.
pub fn get_profile_by_uuid(
    lookup: Result<GetProfileByUuid, Error>,
    key: &Rsa<Private>,
    now: u128,
    query: GetProfileByUuidQuery,
) -> (reply: Reply<GetProfileByUuidResponse>)
    ensures
        match lookup {
            Ok(body) => match answered(body.player_profile@, *key, now, !query.unsigned) {
                Some(out) => reply matches Reply::Json(response) && response.0@ == out,
                None => reply is NoContent,
            },
            Err(_) => reply is NoContent,
        },
{
    match lookup {
        Ok(body) => match map_profile(body.player_profile, key, now, !query.unsigned) {
            Ok(profile) => Reply::Json(GetProfileByUuidResponse(profile)),
            Err(_) => Reply::NoContent,
        },
        Err(_) => Reply::NoContent,
    }
}

} // verus!
