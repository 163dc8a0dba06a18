//! The configuration of a deployment, as far as the core reads it.
use crate::launchserver::types::response::texts;
use vstd::prelude::*;

verus! {

/// The whole configuration.
#[derive(Debug)]
pub struct Config {
    pub binds: Binds,
    pub servers: Vec<Server>,
}

/// Where the HTTP surface listens.
#[derive(Clone, Copy, Debug, PartialEq, Eq)]
pub struct Binds {
    /// The IPv4 address, one byte per part.
    pub host: [u8; 4],
    pub port: u16,
}

/// One backend.
#[derive(Debug)]
pub struct Server {
    /// The name, which is also the path segment of the backend.
    pub name: String,
    /// The address of the backend's WebSocket.
    pub api: String,
    pub token: String,
    pub meta: Meta,
}

/// What a backend's configuration says beside its address and token.
#[derive(Debug)]
pub struct Meta {
    pub assets: Assets,
}

/// The domains from which textures may come: one list for all, or one list
/// for skins and one for capes.
#[derive(Debug)]
pub enum Assets {
    AllInOne(Vec<String>),
    Separated { skins: Vec<String>, capes: Vec<String> },
}

/// The port that is used where none is configured.
pub const DEFAULT_PORT: u16 = 10000;

impl Default for Config {
    /// Every address, port 10000, no backend.
    fn default() -> (config: Config)
        ensures
            config.binds.host@ == seq![0u8, 0u8, 0u8, 0u8],
            config.binds.port == DEFAULT_PORT,
            config.servers@.len() == 0,
    {
        Config { binds: Binds { host: [0, 0, 0, 0], port: DEFAULT_PORT }, servers: Vec::new() }
    }
}

impl Assets {
    /// The allow-list as one sequence: the single list, or the skins' domains
    /// followed by the capes'.
    pub open spec fn listed(self) -> Seq<Seq<char>> {
        match self {
            Assets::AllInOne(values) => texts(values@),
            Assets::Separated { skins, capes } => texts(skins@) + texts(capes@),
        }
    }

    /// The allow-list as one list.
    pub fn domains(&self) -> (all: Vec<String>)
        ensures
            texts(all@) == self.listed(),
    {
        let mut all: Vec<String> = Vec::new();
        match self {
            Assets::AllInOne(values) => {
                push_all(&mut all, values);
                proof {
                    assert(texts(all@) =~= texts(values@));
                }
            },
            Assets::Separated { skins, capes } => {
                push_all(&mut all, skins);
                push_all(&mut all, capes);
                proof {
                    assert(texts(all@) =~= texts(skins@) + texts(capes@));
                }
            },
        }
        all
    }
}

/// Appends copies of all `items` to `out`.
pub fn push_all(out: &mut Vec<String>, items: &Vec<String>)
    ensures
        texts(final(out)@) == texts(old(out)@) + texts(items@),
{
    let mut i: usize = 0;
    proof {
        assert(texts(out@) =~= texts(old(out)@) + texts(items@.take(0)));
    }
    while i < items.len()
        invariant
            i <= items.len(),
            texts(out@) == texts(old(out)@) + texts(items@.take(i as int)),
        decreases items.len() - i,
    {
        let ghost before = out@;
        out.push(items[i].clone());
        proof {
            assert(texts(out@) =~= texts(before).push(items@[i as int]@));
            assert(texts(items@.take(i as int + 1)) =~= texts(items@.take(i as int)).push(
                items@[i as int]@,
            ));
            assert(texts(out@) =~= texts(old(out)@) + texts(items@.take(i as int + 1)));
        }
        i = i + 1;
    }
    proof {
        assert(items@.take(i as int) =~= items@);
    }
}

} // verus!
