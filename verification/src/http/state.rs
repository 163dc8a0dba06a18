//! The backends of a deployment, by name.
use crate::config;
use crate::launchserver::types::response::texts;
use crate::launchserver::{configured, Client};
use crate::signing::share;
use openssl::pkey::Private;
use openssl::rsa::Rsa;
use vstd::prelude::*;

verus! {

/// The key material of the deployment.
pub struct KeyPair {
    pub private: Rsa<Private>,
    /// The public key, PEM-encoded.
    pub public: String,
}

/// One backend: its name, which is its path segment, the key material, the
/// domains that textures may come from, and its client.
pub struct Server {
    pub name: String,
    pub key_pair: KeyPair,
    pub assets: Vec<String>,
    pub socket: Client,
}

/// The backends of a deployment. Where a name occurs twice, the later backend
/// stands for it.
pub struct State {
    pub servers: Vec<Server>,
}

/// The index of the last of the first `upto` backends that is called `name`.
pub open spec fn last_named(servers: Seq<Server>, name: Seq<char>, upto: int) -> Option<int>
    decreases upto,
{
    if upto <= 0 {
        None
    } else if servers[upto - 1].name@ == name {
        Some(upto - 1)
    } else {
        last_named(servers, name, upto - 1)
    }
}

impl KeyPair {
    /// One more pair around the same key.
    pub fn share(&self) -> (copy: KeyPair)
        ensures
            copy.private == self.private,
            copy.public@ == self.public@,
    {
        KeyPair { private: share(&self.private), public: self.public.clone() }
    }
}

impl Server {
    /// Whether this is the backend that a configuration describes: its name,
    /// the key material of the deployment, its domains as one list, and a
    /// client for its address and token that waits `timeout` milliseconds.
    pub open spec fn describes(self, server: config::Server, key_pair: KeyPair, timeout: u64)
        -> bool {
        &&& self.name@ == server.name@
        &&& self.key_pair.private == key_pair.private
        &&& self.key_pair.public@ == key_pair.public@
        &&& texts(self.assets@) == server.meta.assets.listed()
        &&& self.socket.token_text() == server.token@
        &&& self.socket.addr_text() == server.api@
        &&& self.socket.settings() == configured(Some(timeout))
    }

    /// The backend that a configuration describes.
    pub fn from_config(server: &config::Server, key_pair: &KeyPair, timeout: u64) -> (out: Server)
        ensures
            out.describes(*server, *key_pair, timeout),
    {
        Server {
            name: server.name.clone(),
            key_pair: key_pair.share(),
            assets: server.meta.assets.domains(),
            socket: Client::new(server.token.clone(), server.api.clone(), Some(timeout)),
        }
    }
}

impl State {
    /// The backends that a configuration describes, in its order.
    pub fn from_config(servers: &Vec<config::Server>, key_pair: &KeyPair, timeout: u64) -> (state:
        State)
        ensures
            state.servers@.len() == servers@.len(),
            forall|i: int|
                0 <= i < servers@.len() ==> (#[trigger] state.servers@[i]).describes(
                    servers@[i],
                    *key_pair,
                    timeout,
                ),
    {
        let mut out: Vec<Server> = Vec::new();
        let mut i: usize = 0;
        while i < servers.len()
            invariant
                i <= servers.len(),
                out@.len() == i,
                forall|k: int|
                    0 <= k < i ==> (#[trigger] out@[k]).describes(servers@[k], *key_pair, timeout),
            decreases servers.len() - i,
        {
            out.push(Server::from_config(&servers[i], key_pair, timeout));
            i = i + 1;
        }
        State { servers: out }
    }

    /// The position of the backend that `name` stands for.
    pub open spec fn position(self, name: Seq<char>) -> Option<int> {
        last_named(self.servers@, name, self.servers@.len() as int)
    }

    /// The position of the backend that `name` stands for.
    pub fn index(&self, name: &str) -> (found: Option<usize>)
        ensures
            match found {
                Some(index) => self.position(name@) == Some(index as int) && index
                    < self.servers@.len(),
                None => self.position(name@).is_none(),
            },
    {
        let wanted = name.to_owned();
        let mut i: usize = self.servers.len();
        while i > 0
            invariant
                i <= self.servers.len(),
                wanted@ == name@,
                self.position(name@) == last_named(self.servers@, name@, i as int),
            decreases i,
        {
            if self.servers[i - 1].name == wanted {
                return Some(i - 1);
            }
            i = i - 1;
        }
        None
    }

    /// The backend that `name` stands for.
    pub fn server(&self, name: &str) -> (found: Option<&Server>)
        ensures
            match found {
                Some(server) => self.position(name@) matches Some(index) && *server
                    == self.servers@[index],
                None => self.position(name@).is_none(),
            },
    {
        match self.index(name) {
            Some(index) => Some(&self.servers[index]),
            None => None,
        }
    }
}

} // verus!
