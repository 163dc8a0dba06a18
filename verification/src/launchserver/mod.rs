//! The client side of the LaunchServer protocol: the typed requests, the rule
//! for restoring a token that the backend no longer takes, and what a reply has
//! to be for each call.
use crate::identifier::fresh;
use crate::launchserver::types::{request, response};
use vstd::prelude::*;
use vstd::string::StringExecFns;

pub mod error;
pub mod safe_send;
pub mod socket;
pub mod types;

pub use error::Error;

verus! {

/// The settings of the client of one backend.
#[derive(Debug)]
pub struct Client {
    token: String,
    addr: String,
    options: socket::SocketOptions,
}

/// The name under which the token is handed to a restore.
pub open spec fn token_name() -> Seq<char> {
    "checkServer"@
}

/// The restore request for a token.
pub open spec fn restore_request(id: u128, token: Seq<char>) -> request::RequestView {
    request::RequestView {
        id,
        body: request::KindView::RestoreToken {
            extended: seq![(token_name(), token)],
            need_user_info: false,
        },
    }
}

/// The timing that a client gets from an optional waiting time: that time for
/// both settings, or the default for both.
pub open spec fn configured(timeout: Option<u64>) -> socket::SocketOptions {
    socket::SocketOptions {
        timeout: socket::options::or_default(timeout),
        reconnection_timeout: socket::options::or_default(timeout),
    }
}

impl Client {
    /// A client for the backend at `addr` that identifies itself with `token`.
    /// `timeout`, in milliseconds, is both how long a call waits and how long
    /// the supervisor pauses between attempts; without it both are the default.
    pub fn new(token: String, addr: String, timeout: Option<u64>) -> (client: Client)
        ensures
            client.token_text() == token@,
            client.addr_text() == addr@,
            client.settings() == configured(timeout),
    {
        let options = socket::SocketOptions::builder().with_timeout(
            timeout,
        ).with_reconnection_timeout(timeout).build();
        Client { token, addr, options }
    }

    /// The token of this client.
    pub closed spec fn token_text(&self) -> Seq<char> {
        self.token@
    }

    /// The address of the backend.
    pub closed spec fn addr_text(&self) -> Seq<char> {
        self.addr@
    }

    /// The timing of the connection.
    pub closed spec fn settings(&self) -> socket::SocketOptions {
        self.options
    }

    /// The token of this client.
    pub fn token(&self) -> (token: &String)
        ensures
            token@ == self.token_text(),
    {
        &self.token
    }

    /// The address of the backend.
    pub fn addr(&self) -> (addr: &String)
        ensures
            addr@ == self.addr_text(),
    {
        &self.addr
    }

    /// The timing of the connection.
    pub fn options(&self) -> (options: socket::SocketOptions)
        ensures
            options == self.settings(),
    {
        self.options
    }

    /// How long a call waits for its reply, in milliseconds.
    pub fn timeout(&self) -> (timeout: u64)
        ensures
            timeout == self.settings().timeout,
    {
        self.options.timeout
    }

    /// The request that asks whether `username` has joined `server_id`, under a
    /// fresh identifier.
    pub fn check_server(
        &self,
        username: String,
        server_id: String,
        need_hardware: bool,
        need_properties: bool,
    ) -> (request: request::Any)
        ensures
            request@.body == (request::KindView::CheckServer {
                username: username@,
                server_id: server_id@,
                need_hardware,
                need_properties,
            }),
    {
        request::Request {
            id: fresh(),
            body: request::Kind::CheckServer(
                request::CheckServer { username, server_id, need_hardware, need_properties },
            ),
        }
    }

    /// The request for the profile with the identifier `uuid`, under a fresh
    /// identifier of its own.
    pub fn get_profile_by_uuid(&self, uuid: u128) -> (request: request::Any)
        ensures
            request@.body == (request::KindView::GetProfileByUuid { uuid }),
    {
        request::Request {
            id: fresh(),
            body: request::Kind::GetProfileByUuid(request::GetProfileByUuid { uuid }),
        }
    }

    /// The request for the profile with the name `username`, under a fresh
    /// identifier.
    pub fn get_profile_by_username(&self, username: String) -> (request: request::Any)
        ensures
            request@.body == (request::KindView::GetProfileByUsername { username: username@ }),
    {
        request::Request {
            id: fresh(),
            body: request::Kind::GetProfileByUsername(request::GetProfileByUsername { username }),
        }
    }

    /// The request for the profiles of all `usernames`, in their order, under a
    /// fresh identifier.
    pub fn batch_profiles_by_usernames(&self, usernames: &Vec<String>) -> (request: request::Any)
        ensures
            request@.body == (request::KindView::BatchProfilesByUsernames {
                list: response::texts(usernames@),
            }),
    {
        let mut list: Vec<request::Entry> = Vec::new();
        let mut i: usize = 0;
        while i < usernames.len()
            invariant
                i <= usernames.len(),
                list@.len() == i,
                forall|k: int| 0 <= k < i ==> (#[trigger] list@[k]).username@ == usernames@[k]@,
            decreases usernames.len() - i,
        {
            list.push(request::Entry { username: usernames[i].clone() });
            i = i + 1;
        }
        proof {
            assert(request::names(list@) =~= response::texts(usernames@));
        }
        request::Request {
            id: fresh(),
            body: request::Kind::BatchProfilesByUsernames(
                request::BatchProfilesByUsernames { list },
            ),
        }
    }

    /// The request that asks the backend to take this client's token back,
    /// under the identifier `id`.
    pub fn restore_token(&self, id: u128) -> (request: request::Any)
        ensures
            request@ == restore_request(id, self.token_text()),
            request@.body.wf(),
    {
        let mut extended: Vec<request::Pair> = Vec::new();
        extended.push(
            request::Pair { name: String::from_str("checkServer"), value: self.token.clone() },
        );
        let body = request::Kind::RestoreToken(
            request::RestoreToken { extended, need_user_info: false },
        );
        proof {
            assert(request::pairs(extended@) =~= seq![(token_name(), self.token@)]);
        }
        request::Request { id, body }
    }
}

} // verus!
