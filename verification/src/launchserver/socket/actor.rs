//! The correlation actor: it owns the table of waiters and decides, event by
//! event, what is sent, who is answered and when the connection is rebuilt.
use crate::launchserver::types::{request, response};
use std::collections::HashMap;
use vstd::prelude::*;

verus! {

/// What the actor asks its caller to do, in the order given.
pub enum Action<W> {
    /// Hand this text frame to the outgoing pump.
    Enqueue(String),
    /// Give the body to this waiter.
    Deliver(W, response::Kind),
    /// Make new channels and start an I/O pair on the halves just connected.
    StartIo,
    /// Tell the I/O pair to shut down and wait until it has.
    StopIo,
    /// Ask the supervisor for a connection.
    Connect,
    /// Tell the supervisor to shut down and wait until it has.
    StopSupervisor,
    /// Tell whoever asked for the shutdown that it is done, and stop.
    Acknowledge,
}

/// The value of an [`Action`].
pub enum ActionView<W> {
    Enqueue(Seq<char>),
    Deliver(W, response::KindView),
    StartIo,
    StopIo,
    Connect,
    StopSupervisor,
    Acknowledge,
}

impl<W> View for Action<W> {
    type V = ActionView<W>;

    open spec fn view(&self) -> ActionView<W> {
        match self {
            Action::Enqueue(frame) => ActionView::Enqueue(frame@),
            Action::Deliver(waiter, body) => ActionView::Deliver(*waiter, body@),
            Action::StartIo => ActionView::StartIo,
            Action::StopIo => ActionView::StopIo,
            Action::Connect => ActionView::Connect,
            Action::StopSupervisor => ActionView::StopSupervisor,
            Action::Acknowledge => ActionView::Acknowledge,
        }
    }
}

/// The values of a list of actions.
pub open spec fn views<W>(actions: Seq<Action<W>>) -> Seq<ActionView<W>> {
    Seq::new(actions.len(), |i: int| actions[i]@)
}

/// What happens to the actor, after the wire format has been dealt with.
pub enum Input<W> {
    /// A caller wants `frame` sent and the reply to request `id` given to `sink`.
    /// `frame` is `None` where the request has no wire form.
    Send { id: u128, frame: Option<Seq<char>>, sink: W },
    /// The caller of request `id` has given up.
    Cancel { id: u128 },
    /// The client is shutting down.
    Shutdown,
    /// The supervisor has a connection.
    SocketConnected,
    /// A frame came in; `response` is what it decodes to, if anything.
    Reply { response: Option<response::ResponseView> },
    /// The I/O pair lost the connection.
    Disconnect,
}

/// A frame that came in from the backend.
pub enum Frame {
    /// A text frame.
    Text(String),
    /// A binary or control frame; these are passed over.
    Other,
}

/// What happens to the actor, as the caller sees it.
pub enum Event<W> {
    /// A caller wants the request sent and the reply given to the sink.
    Send(request::Any, W),
    /// The caller of the request with this identifier has given up.
    Cancel(u128),
    /// The client is shutting down.
    Shutdown,
    /// The supervisor has a connection.
    SocketConnected,
    /// A frame came in.
    Frame(Frame),
    /// The I/O pair lost the connection.
    Disconnect,
}

impl<W> Event<W> {
    /// The event after the wire format has been dealt with: a request as its
    /// frame, a frame as the reply it decodes to.
    pub open spec fn input(self) -> Input<W> {
        match self {
            Event::Send(request, sink) => Input::Send {
                id: request.id,
                frame: request::encoded(request@),
                sink,
            },
            Event::Cancel(id) => Input::Cancel { id },
            Event::Shutdown => Input::Shutdown,
            Event::SocketConnected => Input::SocketConnected,
            Event::Frame(frame) => Input::Reply {
                response: match frame {
                    Frame::Text(text) => response::decoded(text@),
                    Frame::Other => None,
                },
            },
            Event::Disconnect => Input::Disconnect,
        }
    }
}

/// The state of an actor: who waits for which reply, and where the connection
/// stands.
pub struct State<W> {
    pub waiters: Map<u128, W>,
    pub connected: bool,
    pub running: bool,
}

/// The state of an actor that has just been started.
pub open spec fn initial<W>() -> State<W> {
    State { waiters: Map::empty(), connected: false, running: true }
}

/// The state after an input, and what is to be done about it.
///
/// An actor that has shut down ignores everything.
pub open spec fn next<W>(state: State<W>, input: Input<W>) -> (State<W>, Seq<ActionView<W>>) {
    if !state.running {
        (state, Seq::empty())
    } else {
        match input {
            Input::Send { id, frame, sink } => match frame {
                Some(text) => (
                    State {
                        waiters: state.waiters.insert(id, sink),
                        connected: state.connected,
                        running: true,
                    },
                    seq![ActionView::Enqueue(text)],
                ),
                None => (state, Seq::empty()),
            },
            Input::Cancel { id } => (
                State {
                    waiters: state.waiters.remove(id),
                    connected: state.connected,
                    running: true,
                },
                Seq::empty(),
            ),
            Input::Reply { response } => match response {
                Some(reply) => if state.waiters.contains_key(reply.id) {
                    (
                        State {
                            waiters: state.waiters.remove(reply.id),
                            connected: state.connected,
                            running: true,
                        },
                        seq![ActionView::Deliver(state.waiters[reply.id], reply.body)],
                    )
                } else {
                    (state, Seq::empty())
                },
                None => (state, Seq::empty()),
            },
            Input::Disconnect => (
                State { waiters: state.waiters, connected: false, running: true },
                seq![ActionView::StopIo, ActionView::Connect],
            ),
            Input::SocketConnected => (
                State { waiters: state.waiters, connected: true, running: true },
                seq![ActionView::StartIo],
            ),
            Input::Shutdown => (
                State { waiters: Map::empty(), connected: state.connected, running: false },
                if state.connected {
                    seq![ActionView::StopIo, ActionView::StopSupervisor, ActionView::Acknowledge]
                } else {
                    seq![ActionView::StopSupervisor, ActionView::Acknowledge]
                },
            ),
        }
    }
}

/// The correlation actor of one backend connection.
///
/// `W` is whatever a reply is handed to; the actor only stores it and gives it
/// back.
pub struct Actor<W> {
    waiters: HashMap<u128, W>,
    connected: bool,
    running: bool,
}

impl<W> View for Actor<W> {
    type V = State<W>;

    closed spec fn view(&self) -> State<W> {
        State { waiters: self.waiters@, connected: self.connected, running: self.running }
    }
}

impl<W> Actor<W> {
    /// A running actor without waiters or connection, and the request for a
    /// first connection.
    pub fn new() -> (started: (Actor<W>, Vec<Action<W>>))
        ensures
            started.0@ == initial::<W>(),
            views(started.1@) == seq![ActionView::<W>::Connect],
    {
        let actor = Actor { waiters: HashMap::new(), connected: false, running: true };
        let mut actions: Vec<Action<W>> = Vec::new();
        actions.push(Action::Connect);
        proof {
            assert(views(actions@) =~= seq![ActionView::<W>::Connect]);
        }
        (actor, actions)
    }

    /// Whether a connection is up.
    pub fn is_connected(&self) -> (connected: bool)
        ensures
            connected == self@.connected,
    {
        self.connected
    }

    /// Whether the actor still takes events.
    pub fn is_running(&self) -> (running: bool)
        ensures
            running == self@.running,
    {
        self.running
    }

    /// How many callers wait for a reply.
    pub fn pending(&self) -> (count: usize)
        ensures
            count == self@.waiters.len(),
    {
        self.waiters.len()
    }

    /// Whether somebody waits for the reply to request `id`.
    pub fn is_waiting(&self, id: u128) -> (waiting: bool)
        ensures
            waiting == self@.waiters.contains_key(id),
    {
        self.waiters.contains_key(&id)
    }

    /// Handles one event: writes the frame of a request or reads the reply out
    /// of a frame, moves to the next state and says what is to be done.
    pub fn step(&mut self, event: Event<W>) -> (actions: Vec<Action<W>>)
        ensures
            (final(self)@, views(actions@)) == next(old(self)@, event.input()),
    {
        match event {
            Event::Send(request, sink) => {
                let frame = request::encode(&request);
                self.accept(request.id, frame, sink)
            },
            Event::Cancel(id) => self.cancel(id),
            Event::Shutdown => self.shutdown(),
            Event::SocketConnected => self.connected(),
            Event::Frame(frame) => {
                let reply = match frame {
                    Frame::Text(text) => response::decode(text.as_str()),
                    Frame::Other => None,
                };
                self.route(reply)
            },
            Event::Disconnect => self.disconnected(),
        }
    }

    /// Takes a request whose frame has been written: registers the waiter and
    /// has the frame sent. Without a frame the waiter is dropped.
    pub fn accept(&mut self, id: u128, frame: Option<String>, sink: W) -> (actions: Vec<Action<W>>)
        ensures
            (final(self)@, views(actions@)) == next(
                old(self)@,
                Input::Send { id, frame: crate::json::text_of(frame), sink },
            ),
    {
        let mut actions: Vec<Action<W>> = Vec::new();
        if !self.running {
            proof {
                assert(views(actions@) =~= Seq::empty());
            }
            return actions;
        }
        match frame {
            Some(text) => {
                self.waiters.insert(id, sink);
                actions.push(Action::Enqueue(text));
                proof {
                    assert(views(actions@) =~= seq![ActionView::Enqueue(text@)]);
                }
            },
            None => {
                proof {
                    assert(views(actions@) =~= Seq::empty());
                }
            },
        }
        actions
    }

    /// Forgets the waiter of request `id`, if there is one.
    pub fn cancel(&mut self, id: u128) -> (actions: Vec<Action<W>>)
        ensures
            (final(self)@, views(actions@)) == next(old(self)@, Input::Cancel { id }),
    {
        let actions: Vec<Action<W>> = Vec::new();
        proof {
            assert(views(actions@) =~= Seq::empty());
        }
        if self.running {
            let _ = self.waiters.remove(&id);
        }
        actions
    }

    /// Routes a decoded reply: the waiter registered under its identifier is
    /// taken out of the table and gets the body. A reply nobody waits for, and a
    /// frame that decoded to nothing, change nothing.
    pub fn route(&mut self, reply: Option<response::Any>) -> (actions: Vec<Action<W>>)
        ensures
            (final(self)@, views(actions@)) == next(
                old(self)@,
                Input::Reply { response: response::response_of(reply) },
            ),
    {
        let mut actions: Vec<Action<W>> = Vec::new();
        proof {
            assert(views(actions@) =~= Seq::empty());
        }
        if !self.running {
            return actions;
        }
        match reply {
            Some(found) => {
                match self.waiters.remove(&found.id) {
                    Some(waiter) => {
                        let ghost body = found.body@;
                        actions.push(Action::Deliver(waiter, found.body));
                        proof {
                            assert(views(actions@) =~= seq![ActionView::Deliver(waiter, body)]);
                        }
                    },
                    None => {
                        proof {
                            assert(self@.waiters =~= old(self)@.waiters);
                        }
                    },
                }
            },
            None => {},
        }
        actions
    }

    /// The connection is gone: the I/O pair is stopped and a new connection
    /// asked for. Waiters stay; their callers time out.
    pub fn disconnected(&mut self) -> (actions: Vec<Action<W>>)
        ensures
            (final(self)@, views(actions@)) == next(old(self)@, Input::Disconnect),
    {
        let mut actions: Vec<Action<W>> = Vec::new();
        if self.running {
            self.connected = false;
            actions.push(Action::StopIo);
            actions.push(Action::Connect);
            proof {
                assert(views(actions@) =~= seq![
                    ActionView::<W>::StopIo,
                    ActionView::<W>::Connect,
                ]);
            }
        } else {
            proof {
                assert(views(actions@) =~= Seq::empty());
            }
        }
        actions
    }

    /// A connection is up: an I/O pair is started on it.
    pub fn connected(&mut self) -> (actions: Vec<Action<W>>)
        ensures
            (final(self)@, views(actions@)) == next(old(self)@, Input::SocketConnected),
    {
        let mut actions: Vec<Action<W>> = Vec::new();
        if self.running {
            self.connected = true;
            actions.push(Action::StartIo);
            proof {
                assert(views(actions@) =~= seq![ActionView::<W>::StartIo]);
            }
        } else {
            proof {
                assert(views(actions@) =~= Seq::empty());
            }
        }
        actions
    }

    /// Shuts down: the I/O pair if a connection is up, then the supervisor, then
    /// the acknowledgement. Every waiter is dropped and nothing is accepted
    /// afterwards.
    pub fn shutdown(&mut self) -> (actions: Vec<Action<W>>)
        ensures
            (final(self)@, views(actions@)) == next(old(self)@, Input::Shutdown),
    {
        let mut actions: Vec<Action<W>> = Vec::new();
        if !self.running {
            proof {
                assert(views(actions@) =~= Seq::empty());
            }
            return actions;
        }
        if self.connected {
            actions.push(Action::StopIo);
        }
        actions.push(Action::StopSupervisor);
        actions.push(Action::Acknowledge);
        self.waiters.clear();
        self.running = false;
        proof {
            if self.connected {
                assert(views(actions@) =~= seq![
                    ActionView::<W>::StopIo,
                    ActionView::<W>::StopSupervisor,
                    ActionView::<W>::Acknowledge,
                ]);
            } else {
                assert(views(actions@) =~= seq![
                    ActionView::<W>::StopSupervisor,
                    ActionView::<W>::Acknowledge,
                ]);
            }
        }
        actions
    }
}

/// A request identifier has at most one waiter at a time: the table is a map, so
/// accepting a request puts its waiter in the place of any earlier one, and
/// taking that identifier out leaves nothing of it behind.
pub proof fn law_one_waiter_per_request<W>(state: State<W>, id: u128, frame: Seq<char>, sink: W)
    requires
        state.running,
    ensures
        ({
            let after = next(state, Input::Send { id, frame: Some(frame), sink }).0;
            &&& after.waiters.contains_key(id)
            &&& after.waiters[id] == sink
            &&& after.waiters.remove(id) == state.waiters.remove(id)
            &&& forall|other: u128|
                other != id ==> (after.waiters.contains_key(other) <==> state.waiters.contains_key(
                    other,
                ))
        }),
{
    let after = next(state, Input::Send { id, frame: Some(frame), sink }).0;
    assert(after.waiters.remove(id) =~= state.waiters.remove(id));
}

/// A waiter is removed exactly once: after a cancellation or a routed reply has
/// taken it out, its identifier is gone from the table, and a second
/// cancellation or reply for it changes nothing and reaches nobody.
pub proof fn law_removed_exactly_once<W>(state: State<W>, reply: response::ResponseView)
    requires
        state.running,
    ensures
        ({
            let id = reply.id;
            let cancelled = next(state, Input::Cancel { id }).0;
            let routed = next(state, Input::Reply { response: Some(reply) }).0;
            &&& !cancelled.waiters.contains_key(id)
            &&& !routed.waiters.contains_key(id)
            &&& next(cancelled, Input::Cancel { id }) == (cancelled, Seq::<ActionView<W>>::empty())
            &&& next(cancelled, Input::Reply { response: Some(reply) }) == (
                cancelled,
                Seq::<ActionView<W>>::empty(),
            )
            &&& next(routed, Input::Cancel { id }) == (routed, Seq::<ActionView<W>>::empty())
            &&& next(routed, Input::Reply { response: Some(reply) }) == (
                routed,
                Seq::<ActionView<W>>::empty(),
            )
        }),
{
    let id = reply.id;
    let cancelled = next(state, Input::<W>::Cancel { id }).0;
    let routed = next(state, Input::<W>::Reply { response: Some(reply) }).0;
    assert(cancelled.waiters.remove(id) =~= cancelled.waiters);
    assert(routed.waiters.remove(id) =~= routed.waiters);
}

/// A reply reaches at most one waiter, and that waiter at most once: routing it
/// either does nothing or delivers its body to the one waiter registered under
/// its identifier and takes that waiter out of the table, so that the same reply
/// routed again is delivered to nobody.
pub proof fn law_reply_delivered_once<W>(state: State<W>, reply: response::ResponseView)
    requires
        state.running,
    ensures
        ({
            let (after, actions) = next(state, Input::Reply { response: Some(reply) });
            &&& state.waiters.contains_key(reply.id) ==> actions == seq![
                ActionView::Deliver(state.waiters[reply.id], reply.body),
            ]
            &&& !state.waiters.contains_key(reply.id) ==> actions.len() == 0 && after == state
            &&& after.waiters == state.waiters.remove(reply.id)
            &&& next(after, Input::Reply { response: Some(reply) }).1.len() == 0
        }),
{
    let after = next(state, Input::<W>::Reply { response: Some(reply) }).0;
    assert(after.waiters =~= state.waiters.remove(reply.id));
}

/// A reply that arrives after its waiter was cancelled is dropped: nobody is
/// notified and the actor stays as it is.
pub proof fn law_late_reply_dropped<W>(state: State<W>, reply: response::ResponseView)
    requires
        state.running,
    ensures
        ({
            let cancelled = next(state, Input::Cancel { id: reply.id }).0;
            next(cancelled, Input::Reply { response: Some(reply) }) == (
                cancelled,
                Seq::<ActionView<W>>::empty(),
            )
        }),
{
}

/// A call that times out leaves no waiter behind, whether or not a connection is
/// up: accepting a request and then cancelling it gives the table without that
/// identifier, and an empty table where it was empty before.
pub proof fn law_timed_out_call_leaves_no_waiter<W>(
    state: State<W>,
    id: u128,
    frame: Option<Seq<char>>,
    sink: W,
)
    requires
        state.running,
    ensures
        ({
            let sent = next(state, Input::Send { id, frame, sink }).0;
            let after = next(sent, Input::Cancel { id }).0;
            &&& after.waiters == state.waiters.remove(id)
            &&& after.connected == state.connected
            &&& state.waiters == Map::<u128, W>::empty() ==> after.waiters == Map::<
                u128,
                W,
            >::empty()
        }),
{
    let sent = next(state, Input::Send { id, frame, sink }).0;
    let after = next(sent, Input::<W>::Cancel { id }).0;
    assert(after.waiters =~= state.waiters.remove(id));
    if state.waiters == Map::<u128, W>::empty() {
        assert(after.waiters =~= Map::<u128, W>::empty());
    }
}

/// A lost connection notifies nobody: the table of waiters is untouched, and the
/// only things asked for are the stop of the I/O pair and a new connection.
pub proof fn law_disconnect_keeps_waiters<W>(state: State<W>)
    requires
        state.running,
    ensures
        next(state, Input::Disconnect).0.waiters == state.waiters,
        !next(state, Input::Disconnect).0.connected,
        next(state, Input::Disconnect).1 == seq![ActionView::<W>::StopIo, ActionView::<W>::Connect],
{
}

/// After a shutdown nothing is emitted any more: whatever comes in, the actor
/// asks for nothing and stays as it is, without waiters.
pub proof fn law_silent_after_shutdown<W>(state: State<W>, input: Input<W>)
    ensures
        ({
            let stopped = next(state, Input::Shutdown).0;
            &&& !stopped.running
            &&& state.running ==> stopped.waiters == Map::<u128, W>::empty()
            &&& next(stopped, input) == (stopped, Seq::<ActionView<W>>::empty())
        }),
{
}

/// The state after a whole sequence of inputs, and everything that was asked
/// for on the way, in order.
pub open spec fn run<W>(state: State<W>, inputs: Seq<Input<W>>) -> (State<W>, Seq<ActionView<W>>)
    decreases inputs.len(),
{
    if inputs.len() == 0 {
        (state, Seq::empty())
    } else {
        let (middle, before) = run(state, inputs.drop_last());
        let (end, after) = next(middle, inputs.last());
        (end, before + after)
    }
}

/// How many frames a sequence of actions hands to the outgoing pump.
pub open spec fn enqueued<W>(actions: Seq<ActionView<W>>) -> nat
    decreases actions.len(),
{
    if actions.len() == 0 {
        0
    } else if actions.last() is Enqueue {
        enqueued(actions.drop_last()) + 1
    } else {
        enqueued(actions.drop_last())
    }
}

/// How many bodies a sequence of actions gives to waiters.
pub open spec fn delivered<W>(actions: Seq<ActionView<W>>) -> nat
    decreases actions.len(),
{
    if actions.len() == 0 {
        0
    } else if actions.last() is Deliver {
        delivered(actions.drop_last()) + 1
    } else {
        delivered(actions.drop_last())
    }
}

/// Both counts add up over two sequences of actions put together.
pub proof fn lemma_counts_add<W>(first: Seq<ActionView<W>>, second: Seq<ActionView<W>>)
    ensures
        enqueued(first + second) == enqueued(first) + enqueued(second),
        delivered(first + second) == delivered(first) + delivered(second),
    decreases second.len(),
{
    if second.len() == 0 {
        assert(first + second =~= first);
    } else {
        assert((first + second).drop_last() =~= first + second.drop_last());
        assert((first + second).last() == second.last());
        lemma_counts_add(first, second.drop_last());
    }
}

/// One input never delivers more than it frees: what is delivered, together
/// with the waiters that remain, is covered by what was enqueued and the
/// waiters that were there.
pub proof fn lemma_step_is_covered<W>(state: State<W>, input: Input<W>)
    requires
        state.waiters.dom().finite(),
    ensures
        next(state, input).0.waiters.dom().finite(),
        delivered(next(state, input).1) + next(state, input).0.waiters.len() <= enqueued(
            next(state, input).1,
        ) + state.waiters.len(),
{
    reveal_with_fuel(enqueued, 4);
    reveal_with_fuel(delivered, 4);
}

/// Over any sequence of inputs, from a start without waiters: every body that
/// is delivered answers a frame that was enqueued before, and no enqueued
/// frame is answered twice. What was delivered, together with the waiters that
/// are still there, never exceeds what was enqueued.
pub proof fn law_deliveries_are_covered<W>(inputs: Seq<Input<W>>)
    ensures
        run(initial::<W>(), inputs).0.waiters.dom().finite(),
        delivered(run(initial::<W>(), inputs).1) + run(initial::<W>(), inputs).0.waiters.len()
            <= enqueued(run(initial::<W>(), inputs).1),
    decreases inputs.len(),
{
    if inputs.len() > 0 {
        law_deliveries_are_covered::<W>(inputs.drop_last());
        let (middle, before) = run(initial::<W>(), inputs.drop_last());
        lemma_step_is_covered(middle, inputs.last());
        lemma_counts_add(before, next(middle, inputs.last()).1);
    }
}

} // verus!
