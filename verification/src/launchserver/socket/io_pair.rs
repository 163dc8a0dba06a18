//! The duplex I/O pair of one connection: it passes frames between the actor
//! and the two pumps, and tells the actor when a failed write means that the
//! connection is lost.
use vstd::prelude::*;

verus! {

/// The kinds of error that writing to a WebSocket can end with.
#[derive(Clone, Copy, Debug, PartialEq, Eq, Structural)]
pub enum TransportError {
    ConnectionClosed,
    AlreadyClosed,
    Io,
    Tls,
    Capacity,
    Protocol,
    WriteBufferFull,
    Utf8,
    AttackAttempt,
    Url,
    Http,
    HttpFormat,
}

impl TransportError {
    /// Whether the connection is lost after this error: it is closed, or the
    /// I/O, TLS or protocol layer beneath it has failed.
    pub open spec fn fatal(self) -> bool {
        self == TransportError::ConnectionClosed || self == TransportError::AlreadyClosed || self
            == TransportError::Io || self == TransportError::Tls || self
            == TransportError::Protocol
    }

    /// Whether the connection is lost after this error.
    pub fn is_fatal(&self) -> (fatal: bool)
        ensures
            fatal == self.fatal(),
    {
        match self {
            TransportError::ConnectionClosed => true,
            TransportError::AlreadyClosed => true,
            TransportError::Io => true,
            TransportError::Tls => true,
            TransportError::Protocol => true,
            TransportError::Capacity => false,
            TransportError::WriteBufferFull => false,
            TransportError::Utf8 => false,
            TransportError::AttackAttempt => false,
            TransportError::Url => false,
            TransportError::Http => false,
            TransportError::HttpFormat => false,
        }
    }
}

/// What happens to the I/O pair. `M` is a frame.
pub enum Event<M> {
    /// The actor has a frame to send.
    Outgoing(M),
    /// The outgoing pump could not write a frame.
    WriteFailed(TransportError),
    /// The incoming pump has read a frame.
    Incoming(M),
    /// The actor wants the pair gone.
    Shutdown,
}

/// What the I/O pair asks its caller to do, in the order given.
pub enum Action<M> {
    /// Hand the frame to the outgoing pump.
    Write(M),
    /// Hand the frame to the actor.
    Deliver(M),
    /// Tell the actor that the connection is lost.
    ReportDisconnect,
    /// Tell both pumps to shut down and wait until both have.
    StopPumps,
    /// Tell the actor that the shutdown is done, and stop.
    Acknowledge,
}

/// The I/O pair: it runs until it is shut down.
#[derive(Clone, Copy, Debug, PartialEq, Eq, Structural)]
pub struct IoPair {
    pub running: bool,
}

/// The state after an event, and what is to be done about it.
///
/// Frames pass through in both directions. A failed write is reported as a
/// disconnect only if the error is fatal. A pair that has shut down passes
/// everything over.
pub open spec fn next<M>(state: IoPair, event: Event<M>) -> (IoPair, Seq<Action<M>>) {
    if !state.running {
        (state, Seq::empty())
    } else {
        match event {
            Event::Outgoing(frame) => (state, seq![Action::Write(frame)]),
            Event::WriteFailed(error) => if error.fatal() {
                (state, seq![Action::ReportDisconnect])
            } else {
                (state, Seq::empty())
            },
            Event::Incoming(frame) => (state, seq![Action::Deliver(frame)]),
            Event::Shutdown => (
                IoPair { running: false },
                seq![Action::StopPumps, Action::Acknowledge],
            ),
        }
    }
}

impl IoPair {
    /// A running pair.
    pub fn new() -> (pair: IoPair)
        ensures
            pair.running,
    {
        IoPair { running: true }
    }

    /// Handles one event.
    pub fn step<M>(&mut self, event: Event<M>) -> (actions: Vec<Action<M>>)
        ensures
            (*final(self), actions@) == next(*old(self), event),
    {
        let mut actions: Vec<Action<M>> = Vec::new();
        if !self.running {
            return actions;
        }
        match event {
            Event::Outgoing(frame) => {
                actions.push(Action::Write(frame));
                proof {
                    assert(actions@ =~= seq![Action::Write(frame)]);
                }
            },
            Event::WriteFailed(error) => {
                if error.is_fatal() {
                    actions.push(Action::ReportDisconnect);
                    proof {
                        assert(actions@ =~= seq![Action::<M>::ReportDisconnect]);
                    }
                }
            },
            Event::Incoming(frame) => {
                actions.push(Action::Deliver(frame));
                proof {
                    assert(actions@ =~= seq![Action::Deliver(frame)]);
                }
            },
            Event::Shutdown => {
                actions.push(Action::StopPumps);
                actions.push(Action::Acknowledge);
                self.running = false;
                proof {
                    assert(actions@ =~= seq![Action::<M>::StopPumps, Action::<M>::Acknowledge]);
                }
            },
        }
        actions
    }
}

} // verus!
