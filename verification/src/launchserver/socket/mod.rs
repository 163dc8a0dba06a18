//! The correlation client: options, errors and the state machines that drive one
//! backend connection.
use crate::launchserver::types::response;
use vstd::prelude::*;

pub mod actor;
pub mod error;
pub mod io_pair;
pub mod options;
pub mod pump;
pub mod supervisor;

pub use error::Error;
pub use options::{SocketOptions, SocketOptionsBuilder};

verus! {

/// How many commands each channel between two tasks of a connection can hold.
pub const CAPACITY: usize = 256;

/// How many frames a pump may be forwarding at once.
pub const CONCURRENCY: usize = 5120;

/// How the wait for a reply ended.
pub enum Waited {
    /// The actor delivered this body.
    Replied(response::Kind),
    /// The per-call timeout elapsed first.
    TimedOut,
    /// The actor dropped the waiter without a reply, as it does when it shuts
    /// down.
    Abandoned,
}

/// How a call ends: what the caller gets, and the identifier to cancel at the
/// actor, if any.
pub struct Conclusion {
    pub result: Result<response::Kind, Error>,
    pub cancel: Option<u128>,
}

/// The caller's side of one connection.
#[derive(Clone, Copy, Debug, PartialEq, Eq, Structural)]
pub struct Socket {
    pub options: SocketOptions,
}

impl Socket {
    /// A socket with the given timing.
    pub fn new(options: SocketOptions) -> (socket: Socket)
        ensures
            socket.options == options,
    {
        Socket { options }
    }

    /// How the call for request `id` ends, given how the wait for its reply
    /// ended.
    ///
    /// A reply is passed on. A timeout fails with `ResponseNotReceived` and has
    /// the waiter cancelled. An abandoned waiter fails with
    /// `ResponseNotReceived` too; there is nothing left to cancel.
    pub fn conclude(&self, id: u128, waited: Waited) -> (conclusion: Conclusion)
        ensures
            match waited {
                Waited::Replied(body) => conclusion.result == Ok::<response::Kind, Error>(body)
                    && conclusion.cancel.is_none(),
                Waited::TimedOut => conclusion.result == Err::<response::Kind, Error>(
                    Error::ResponseNotReceived,
                ) && conclusion.cancel == Some(id),
                Waited::Abandoned => conclusion.result == Err::<response::Kind, Error>(
                    Error::ResponseNotReceived,
                ) && conclusion.cancel.is_none(),
            },
    {
        match waited {
            Waited::Replied(body) => Conclusion { result: Ok(body), cancel: None },
            Waited::TimedOut => Conclusion {
                result: Err(Error::ResponseNotReceived),
                cancel: Some(id),
            },
            Waited::Abandoned => Conclusion {
                result: Err(Error::ResponseNotReceived),
                cancel: None,
            },
        }
    }

    /// Whether the actor's task has to be aborted at the end of a shutdown:
    /// exactly when it has not finished by itself, acknowledged or not.
    pub fn must_abort(&self, finished: bool) -> (abort: bool)
        ensures
            abort == !finished,
    {
        !finished
    }
}

} // verus!
