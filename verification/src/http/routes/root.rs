//! The metadata route of a backend.
use crate::config::push_all;
use crate::http::state::{Server, State};
use crate::http::Reply;
use crate::json::text_of;
use crate::launchserver::types::response::texts;
use vstd::prelude::*;
use vstd::string::StringExecFns;

verus! {

/// The path of the route.
#[derive(Debug)]
pub struct RootPath {
    pub server_id: String,
}

/// What the route answers with.
#[derive(Debug)]
pub struct RootResponse {
    pub meta: Meta,
    pub skin_domains: Vec<String>,
    pub signature_public_key: String,
}

/// Who answers.
#[derive(Debug)]
pub struct Meta {
    pub server_name: Option<String>,
    pub implementation_name: Option<String>,
    pub implementation_version: Option<String>,
}

/// The name of this implementation.
pub open spec fn implementation() -> Seq<char> {
    "Kinly"@
}

/// Whether `response` is the metadata of `server` under the name `name`: the
/// name as the server's name, the name of this implementation without a
/// version, the backend's texture domains and the public key of the
/// deployment.
pub open spec fn describes(response: RootResponse, name: Seq<char>, server: Server) -> bool {
    &&& text_of(response.meta.server_name) == Some(name)
    &&& text_of(response.meta.implementation_name) == Some(implementation())
    &&& response.meta.implementation_version.is_none()
    &&& texts(response.skin_domains@) == texts(server.assets@)
    &&& response.signature_public_key@ == server.key_pair.public@
}

/// The metadata of a backend.
pub fn metadata(name: String, server: &Server) -> (response: RootResponse)
    ensures
        describes(response, name@, *server),
{
    let mut skin_domains: Vec<String> = Vec::new();
    push_all(&mut skin_domains, &server.assets);
    proof {
        assert(texts(skin_domains@) =~= texts(server.assets@));
    }
    RootResponse {
        meta: Meta {
            server_name: Some(name),
            implementation_name: Some(String::from_str("Kinly")),
            implementation_version: None,
        },
        skin_domains,
        signature_public_key: server.key_pair.public.clone(),
    }
}

/// Answers the route: the metadata of the backend that the path names, or
/// nothing where there is no such backend.
pub fn root(state: &State, path: RootPath) -> (reply: Reply<RootResponse>)
    ensures
        match state.position(path.server_id@) {
            Some(index) => reply matches Reply::Json(response) && describes(
                response,
                path.server_id@,
                state.servers@[index],
            ),
            None => reply is NoContent,
        },
{
    match state.server(path.server_id.as_str()) {
        Some(server) => Reply::Json(metadata(path.server_id, server)),
        None => Reply::NoContent,
    }
}

} // verus!
