use crate::http::dto::response as dto;
use crate::http::routes::sessionserver::get_profile_by_uuid::answered;
use crate::http::routes::sessionserver::mapper::map_profile;
use crate::http::state::State;
use crate::http::Reply;
use crate::launchserver::types::{request, response};
use crate::launchserver::{Client, Error};
use openssl::pkey::Private;
use openssl::rsa::Rsa;
use vstd::prelude::*;

verus! {

/// The path of the route.
#[derive(Debug)]
pub struct PlayerHasJoinedPath {
    pub server_id: String,
}

/// The query of the route.
#[derive(Debug)]
pub struct PlayerHasJoinedQuery {
    pub username: String,
    pub server_id: String,
    pub ip: Option<String>,
}

/// The profile of the player that has joined.
#[derive(Debug)]
pub struct PlayerHasJoinedResponse(pub dto::Profile);

/// The first step of the route: the backend that the path names, by its
/// position, and the request that asks whether the player has joined the
/// server, without hardware and without properties. `None`, for which the
/// route answers nothing, where there is no such backend.
pub fn check_request(
    state: &State,
    path: &PlayerHasJoinedPath,
    query: PlayerHasJoinedQuery,
) -> (step: Option<(usize, request::Any)>)
    ensures
        match state.position(path.server_id@) {
            Some(index) => step matches Some((found, request)) && found == index && request@.body
                == (request::KindView::CheckServer {
                username: query.username@,
                server_id: query.server_id@,
                need_hardware: false,
                need_properties: false,
            }),
            None => step.is_none(),
        },
{
    match state.index(path.server_id.as_str()) {
        Some(index) => Some(
            (
                index,
                state.servers[index].socket.check_server(
                    query.username,
                    query.server_id,
                    false,
                    false,
                ),
            ),
        ),
        None => None,
    }
}

/// The second request of the route: the profile of the player that the check
/// named. There is none where the check failed.
pub fn profile_request(client: &Client, check: Result<response::CheckServer, Error>) -> (request:
    Option<request::Any>)
    ensures
        match check {
            Ok(body) => request matches Some(r) && r@.body == (request::KindView::GetProfileByUuid {
                uuid: body.uuid,
            }),
            Err(_) => request.is_none(),
        },
{
    match check {
        Ok(body) => Some(client.get_profile_by_uuid(body.uuid)),
        Err(_) => None,
    }
}

/// Answers the route: the mapped profile, unsigned, where the backend
/// answered; nothing where the call failed.
pub fn player_has_joined(
    lookup: Result<response::GetProfileByUuid, Error>,
    key: &Rsa<Private>,
    now: u128,
) -> (reply: Reply<PlayerHasJoinedResponse>)
    ensures
        match lookup {
            Ok(body) => match answered(body.player_profile@, *key, now, false) {
                Some(out) => reply matches Reply::Json(response) && response.0@ == out,
                None => reply is NoContent,
            },
            Err(_) => reply is NoContent,
        },
{
    match lookup {
        Ok(body) => match map_profile(body.player_profile, key, now, false) {
            Ok(profile) => Reply::Json(PlayerHasJoinedResponse(profile)),
            Err(_) => Reply::NoContent,
        },
        Err(_) => Reply::NoContent,
    }
}

} // verus!
