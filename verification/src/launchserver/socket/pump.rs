//! The two pumps of a connection. Each may have only so many forwards going at
//! once; at the bound it waits for one of them to finish first.
use crate::launchserver::socket::io_pair::TransportError;
use crate::launchserver::socket::CONCURRENCY;
use vstd::prelude::*;

verus! {

/// What a pump asks its caller to do, in the order given. `M` is a frame.
pub enum Action<M> {
    /// Wait until one of the forwards in flight has finished.
    AwaitOne,
    /// Wait until every forward in flight has finished.
    AwaitAll,
    /// Write the frame to the socket.
    Write(M),
    /// Start a forward that hands the frame on.
    Forward(M),
    /// Start a forward that reports the failed write.
    ReportFailure(TransportError),
    /// Tell the I/O pair that the shutdown is done, and stop.
    Acknowledge,
}

/// The state of a pump: how many forwards are in flight.
#[derive(Clone, Copy, Debug, PartialEq, Eq, Structural)]
pub struct Pump {
    pub in_flight: usize,
    pub running: bool,
}

impl Pump {
    /// A pump never has more forwards in flight than the bound.
    pub open spec fn wf(self) -> bool {
        self.in_flight <= CONCURRENCY
    }
}

/// The wait that makes room for one more forward: none below the bound, for
/// one forward at the bound.
pub open spec fn room<M>(state: Pump) -> Seq<Action<M>> {
    if state.in_flight >= CONCURRENCY {
        seq![Action::AwaitOne]
    } else {
        Seq::empty()
    }
}

/// How many forwards are in flight once there is room for one more.
pub open spec fn after_room(state: Pump) -> usize {
    if state.in_flight >= CONCURRENCY {
        (state.in_flight - 1) as usize
    } else {
        state.in_flight
    }
}

/// What happens to the outgoing pump.
pub enum Outgoing<M> {
    /// The I/O pair has a frame to write.
    Message(M),
    /// The write just asked for failed.
    WriteFailed(TransportError),
    /// The I/O pair wants the pump gone.
    Shutdown,
}

/// The outgoing pump after an event, and what is to be done about it.
///
/// A frame is written once there is room for the forward that a failure would
/// need. A failed write starts that forward. A shutdown waits for every
/// forward and acknowledges.
pub open spec fn next_outgoing<M>(state: Pump, event: Outgoing<M>) -> (Pump, Seq<Action<M>>) {
    if !state.running {
        (state, Seq::empty())
    } else {
        match event {
            Outgoing::Message(frame) => (
                Pump { in_flight: after_room(state), running: true },
                room::<M>(state).push(Action::Write(frame)),
            ),
            Outgoing::WriteFailed(error) => if state.in_flight < CONCURRENCY {
                (
                    Pump { in_flight: (state.in_flight + 1) as usize, running: true },
                    seq![Action::ReportFailure(error)],
                )
            } else {
                (
                    Pump { in_flight: state.in_flight, running: true },
                    seq![Action::AwaitOne, Action::ReportFailure(error)],
                )
            },
            Outgoing::Shutdown => (
                Pump { in_flight: 0, running: false },
                seq![Action::AwaitAll, Action::Acknowledge],
            ),
        }
    }
}

/// What happens to the incoming pump.
pub enum Incoming<M> {
    /// The socket gave a frame.
    Frame(M),
    /// The socket gave an error; it is only logged.
    Error,
    /// The socket has nothing more to give.
    End,
    /// The I/O pair wants the pump gone.
    Shutdown,
}

/// The incoming pump after an event, and what is to be done about it.
///
/// A frame is forwarded once there is room for its forward. An error changes
/// nothing. At the end of the stream the pump stops without a word. A shutdown
/// waits for every forward and acknowledges.
pub open spec fn next_incoming<M>(state: Pump, event: Incoming<M>) -> (Pump, Seq<Action<M>>) {
    if !state.running {
        (state, Seq::empty())
    } else {
        match event {
            Incoming::Frame(frame) => (
                Pump { in_flight: (after_room(state) + 1) as usize, running: true },
                room::<M>(state).push(Action::Forward(frame)),
            ),
            Incoming::Error => (state, Seq::empty()),
            Incoming::End => (Pump { in_flight: state.in_flight, running: false }, Seq::empty()),
            Incoming::Shutdown => (
                Pump { in_flight: 0, running: false },
                seq![Action::AwaitAll, Action::Acknowledge],
            ),
        }
    }
}

impl Pump {
    /// A running pump with nothing in flight.
    pub fn new() -> (pump: Pump)
        ensures
            pump == (Pump { in_flight: 0, running: true }),
            pump.wf(),
    {
        Pump { in_flight: 0, running: true }
    }

    /// Makes room for one more forward.
    fn make_room<M>(&mut self, actions: &mut Vec<Action<M>>)
        requires
            old(self).wf(),
        ensures
            final(self).in_flight == after_room(*old(self)),
            final(self).running == old(self).running,
            final(self).in_flight < CONCURRENCY,
            final(actions)@ == old(actions)@ + room::<M>(*old(self)),
    {
        if self.in_flight >= CONCURRENCY {
            actions.push(Action::AwaitOne);
            self.in_flight = self.in_flight - 1;
            proof {
                assert(actions@ =~= old(actions)@ + room::<M>(*old(self)));
            }
        } else {
            proof {
                assert(actions@ =~= old(actions)@ + room::<M>(*old(self)));
            }
        }
    }

    /// Handles one event of the outgoing pump.
    pub fn step_outgoing<M>(&mut self, event: Outgoing<M>) -> (actions: Vec<Action<M>>)
        requires
            old(self).wf(),
        ensures
            final(self).wf(),
            (*final(self), actions@) == next_outgoing(*old(self), event),
    {
        let mut actions: Vec<Action<M>> = Vec::new();
        if !self.running {
            return actions;
        }
        match event {
            Outgoing::Message(frame) => {
                self.make_room(&mut actions);
                actions.push(Action::Write(frame));
                proof {
                    assert(actions@ =~= room::<M>(*old(self)).push(Action::Write(frame)));
                }
            },
            Outgoing::WriteFailed(error) => {
                if self.in_flight < CONCURRENCY {
                    self.in_flight = self.in_flight + 1;
                    actions.push(Action::ReportFailure(error));
                    proof {
                        assert(actions@ =~= seq![Action::<M>::ReportFailure(error)]);
                    }
                } else {
                    actions.push(Action::AwaitOne);
                    actions.push(Action::ReportFailure(error));
                    proof {
                        assert(actions@ =~= seq![
                            Action::<M>::AwaitOne,
                            Action::<M>::ReportFailure(error),
                        ]);
                    }
                }
            },
            Outgoing::Shutdown => {
                actions.push(Action::AwaitAll);
                actions.push(Action::Acknowledge);
                self.in_flight = 0;
                self.running = false;
                proof {
                    assert(actions@ =~= seq![Action::<M>::AwaitAll, Action::<M>::Acknowledge]);
                }
            },
        }
        actions
    }

    /// Handles one event of the incoming pump.
    pub fn step_incoming<M>(&mut self, event: Incoming<M>) -> (actions: Vec<Action<M>>)
        requires
            old(self).wf(),
        ensures
            final(self).wf(),
            (*final(self), actions@) == next_incoming(*old(self), event),
    {
        let mut actions: Vec<Action<M>> = Vec::new();
        if !self.running {
            return actions;
        }
        match event {
            Incoming::Frame(frame) => {
                self.make_room(&mut actions);
                self.in_flight = self.in_flight + 1;
                actions.push(Action::Forward(frame));
                proof {
                    assert(actions@ =~= room::<M>(*old(self)).push(Action::Forward(frame)));
                }
            },
            Incoming::Error => {},
            Incoming::End => {
                self.running = false;
            },
            Incoming::Shutdown => {
                actions.push(Action::AwaitAll);
                actions.push(Action::Acknowledge);
                self.in_flight = 0;
                self.running = false;
                proof {
                    assert(actions@ =~= seq![Action::<M>::AwaitAll, Action::<M>::Acknowledge]);
                }
            },
        }
        actions
    }
}

/// The bound holds at every step of either pump: with at most the bound in
/// flight before an event, at most the bound is in flight after it; and a
/// forward is started at the bound only after the wait for an earlier one.
pub proof fn law_bound_is_kept<M>(state: Pump, sent: Outgoing<M>, received: Incoming<M>)
    requires
        state.wf(),
    ensures
        next_outgoing(state, sent).0.wf(),
        next_incoming(state, received).0.wf(),
        state.running && state.in_flight == CONCURRENCY && received is Frame ==> next_incoming(
            state,
            received,
        ).1[0] == Action::<M>::AwaitOne,
{
}

} // verus!
