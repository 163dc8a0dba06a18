//! The connection supervisor: it keeps at most one connection attempt going,
//! has it repeated until it succeeds, and announces the connection once.
use vstd::prelude::*;

verus! {

/// What happens to the supervisor.
#[derive(Clone, Copy, Debug, PartialEq, Eq, Structural)]
pub enum Event {
    /// The actor wants a connection; `retry` is the pause between two tries, in
    /// milliseconds, if there is to be one.
    Connect { retry: Option<u64> },
    /// The try of this attempt failed.
    Failed { attempt: u64 },
    /// The try of this attempt gave a connection.
    Succeeded { attempt: u64 },
    /// The actor is shutting down.
    Shutdown,
}

/// What the supervisor asks its caller to do, in the order given.
#[derive(Clone, Copy, Debug, PartialEq, Eq, Structural)]
pub enum Action {
    /// Give up this attempt, whatever it is doing.
    Abort { attempt: u64 },
    /// Try to open the WebSocket, as this attempt.
    Try { attempt: u64 },
    /// Sleep for so many milliseconds before the next try.
    Sleep { millis: u64 },
    /// Hand the two halves of this attempt's connection to the actor.
    Announce { attempt: u64 },
    /// Tell the actor that the shutdown is done, and stop.
    Acknowledge,
}

/// The attempt that is going on.
#[derive(Clone, Copy, Debug, PartialEq, Eq, Structural)]
pub struct Attempt {
    pub id: u64,
    pub retry: Option<u64>,
}

/// The state of a supervisor.
#[derive(Clone, Copy, Debug, PartialEq, Eq, Structural)]
pub struct Supervisor {
    /// The attempt in flight, if any.
    pub current: Option<Attempt>,
    /// The number that the next attempt gets.
    pub counter: u64,
    pub running: bool,
}

/// The number after `counter`, starting over after the last one.
pub open spec fn following(counter: u64) -> u64 {
    if counter == u64::MAX {
        0
    } else {
        (counter + 1) as u64
    }
}

/// What is done to an attempt that is in the way.
pub open spec fn aborted(current: Option<Attempt>) -> Seq<Action> {
    match current {
        Some(attempt) => seq![Action::Abort { attempt: attempt.id }],
        None => Seq::empty(),
    }
}

/// Whether `attempt` is the one in flight.
pub open spec fn is_current(state: Supervisor, attempt: u64) -> bool {
    state.current matches Some(current) && current.id == attempt
}

/// The state after an event, and what is to be done about it.
///
/// - `Connect` gives up the attempt in flight and starts a new one.
/// - A failed try of the attempt in flight is repeated, after the pause if
///   there is one; this goes on until it succeeds.
/// - A successful try of the attempt in flight is announced, and the attempt is
///   over.
/// - `Shutdown` gives up the attempt in flight and acknowledges.
/// - News of an attempt that is not in flight, and anything after a shutdown,
///   is passed over.
pub open spec fn next(state: Supervisor, event: Event) -> (Supervisor, Seq<Action>) {
    if !state.running {
        (state, Seq::empty())
    } else {
        match event {
            Event::Connect { retry } => (
                Supervisor {
                    current: Some(Attempt { id: state.counter, retry }),
                    counter: following(state.counter),
                    running: true,
                },
                aborted(state.current).push(Action::Try { attempt: state.counter }),
            ),
            Event::Failed { attempt } => if is_current(state, attempt) {
                match state.current.unwrap().retry {
                    Some(millis) => (
                        state,
                        seq![Action::Sleep { millis }, Action::Try { attempt }],
                    ),
                    None => (state, seq![Action::Try { attempt }]),
                }
            } else {
                (state, Seq::empty())
            },
            Event::Succeeded { attempt } => if is_current(state, attempt) {
                (
                    Supervisor { current: None, counter: state.counter, running: true },
                    seq![Action::Announce { attempt }],
                )
            } else {
                (state, Seq::empty())
            },
            Event::Shutdown => (
                Supervisor { current: None, counter: state.counter, running: false },
                aborted(state.current).push(Action::Acknowledge),
            ),
        }
    }
}

impl Supervisor {
    /// The attempt in flight carries the number just before the next one, so
    /// that no two attempts in a row are mistaken for each other.
    pub open spec fn wf(self) -> bool {
        self.current matches Some(attempt) ==> following(attempt.id) == self.counter
    }

    /// A supervisor without an attempt.
    pub fn new() -> (supervisor: Supervisor)
        ensures
            supervisor == (Supervisor { current: None, counter: 0, running: true }),
            supervisor.wf(),
    {
        Supervisor { current: None, counter: 0, running: true }
    }

    /// Handles one event.
    pub fn step(&mut self, event: Event) -> (actions: Vec<Action>)
        ensures
            (*final(self), actions@) == next(*old(self), event),
            old(self).wf() ==> final(self).wf(),
    {
        let mut actions: Vec<Action> = Vec::new();
        if !self.running {
            return actions;
        }
        match event {
            Event::Connect { retry } => {
                match self.current {
                    Some(attempt) => {
                        actions.push(Action::Abort { attempt: attempt.id });
                    },
                    None => {},
                }
                let id = self.counter;
                actions.push(Action::Try { attempt: id });
                self.current = Some(Attempt { id, retry });
                self.counter = if id == u64::MAX {
                    0
                } else {
                    id + 1
                };
                proof {
                    assert(actions@ =~= aborted(old(self).current).push(
                        Action::Try { attempt: id },
                    ));
                }
            },
            Event::Failed { attempt } => {
                match self.current {
                    Some(current) => {
                        if current.id == attempt {
                            match current.retry {
                                Some(millis) => {
                                    actions.push(Action::Sleep { millis });
                                },
                                None => {},
                            }
                            actions.push(Action::Try { attempt });
                            proof {
                                assert(actions@ =~= next(*old(self), event).1);
                            }
                        }
                    },
                    None => {},
                }
            },
            Event::Succeeded { attempt } => {
                match self.current {
                    Some(current) => {
                        if current.id == attempt {
                            actions.push(Action::Announce { attempt });
                            self.current = None;
                            proof {
                                assert(actions@ =~= seq![Action::Announce { attempt }]);
                            }
                        }
                    },
                    None => {},
                }
            },
            Event::Shutdown => {
                match self.current {
                    Some(attempt) => {
                        actions.push(Action::Abort { attempt: attempt.id });
                    },
                    None => {},
                }
                actions.push(Action::Acknowledge);
                self.current = None;
                self.running = false;
                proof {
                    assert(actions@ =~= aborted(old(self).current).push(Action::Acknowledge));
                }
            },
        }
        actions
    }
}

/// A new `Connect` cancels the attempt in flight: afterwards only the new
/// attempt counts, and news of the old one changes nothing.
pub proof fn law_connect_replaces_attempt(state: Supervisor, retry: Option<u64>, old_news: Event)
    requires
        state.running,
        state.wf(),
        state.current is Some,
        old_news == (Event::Failed { attempt: state.current.unwrap().id }) || old_news == (
        Event::Succeeded { attempt: state.current.unwrap().id }),
    ensures
        ({
            let (after, actions) = next(state, Event::Connect { retry });
            &&& actions == seq![
                Action::Abort { attempt: state.current.unwrap().id },
                Action::Try { attempt: state.counter },
            ]
            &&& after.current == Some(Attempt { id: state.counter, retry })
            &&& after.wf()
            &&& next(after, old_news) == (after, Seq::<Action>::empty())
        }),
{
    let (after, actions) = next(state, Event::Connect { retry });
    assert(actions =~= seq![
        Action::Abort { attempt: state.current.unwrap().id },
        Action::Try { attempt: state.counter },
    ]);
}

/// A failed try is always tried again, with the configured pause before it,
/// and the attempt stays in flight.
pub proof fn law_failure_is_retried(state: Supervisor, attempt: u64)
    requires
        state.running,
        is_current(state, attempt),
    ensures
        ({
            let (after, actions) = next(state, Event::Failed { attempt });
            &&& after == state
            &&& actions.len() > 0
            &&& actions.last() == (Action::Try { attempt })
            &&& state.current.unwrap().retry matches Some(millis) ==> actions[0] == (Action::Sleep {
                millis,
            })
        }),
{
}

/// A connection is announced exactly once: the success of the attempt in
/// flight is announced and ends the attempt, and the same success reported
/// again is passed over.
pub proof fn law_connection_announced_once(state: Supervisor, attempt: u64)
    requires
        state.running,
        is_current(state, attempt),
    ensures
        ({
            let (after, actions) = next(state, Event::Succeeded { attempt });
            &&& actions == seq![Action::Announce { attempt }]
            &&& after.current is None
            &&& next(after, Event::Succeeded { attempt }) == (after, Seq::<Action>::empty())
        }),
{
}

} // verus!
