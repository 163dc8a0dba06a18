use kinly::launchserver::socket::actor::{Action, Actor, Event, Frame};
use kinly::launchserver::socket::{Conclusion, Error, Socket, SocketOptions, Waited, CAPACITY, CONCURRENCY};
use kinly::launchserver::types::request::{GetProfileByUsername, GetProfileByUuid, Kind, Request};
use kinly::launchserver::types::response;

const ID: u128 = 0x11111111_1111_1111_1111_111111111111;
const OTHER: u128 = 0x22222222_2222_2222_2222_222222222222;

fn request(id: u128) -> Request<Kind> {
    Request { id, body: Kind::GetProfileByUuid(GetProfileByUuid { uuid: ID }) }
}

fn check_reply(id: &str) -> Frame {
    Frame::Text(format!(
        "{{\"requestUUID\":\"{}\",\"type\":\"checkServer\",\"uuid\":\"22222222-2222-2222-2222-222222222222\"}}",
        id
    ))
}

fn started() -> Actor<&'static str> {
    let (actor, _) = Actor::new();
    actor
}

fn delivered(actions: Vec<Action<&'static str>>) -> Vec<(&'static str, u128)> {
    let mut out = Vec::new();
    for action in actions {
        match action {
            Action::Deliver(waiter, response::Kind::CheckServer(body)) => out.push((waiter, body.uuid)),
            _ => panic!("not a delivery"),
        }
    }
    out
}

#[test]
fn a_new_actor_asks_for_a_connection() {
    let (actor, actions) = Actor::<u8>::new();
    assert_eq!(actions.len(), 1);
    assert!(matches!(actions[0], Action::Connect));
    assert!(actor.is_running());
    assert!(!actor.is_connected());
    assert_eq!(actor.pending(), 0);
}

#[test]
fn send_registers_the_waiter_and_enqueues_the_frame() {
    let mut actor = started();
    let actions = actor.step(Event::Send(request(ID), "first"));
    assert_eq!(actions.len(), 1);
    match &actions[0] {
        Action::Enqueue(frame) => assert_eq!(
            frame,
            "{\"requestUUID\":\"11111111-1111-1111-1111-111111111111\",\"type\":\"profileByUUID\",\"uuid\":\"11111111-1111-1111-1111-111111111111\"}"
        ),
        _ => panic!("not an enqueue"),
    }
    assert!(actor.is_waiting(ID));
    assert!(!actor.is_waiting(OTHER));
    assert_eq!(actor.pending(), 1);
}

#[test]
fn frames_are_enqueued_while_disconnected() {
    let mut actor = started();
    assert!(!actor.is_connected());
    let actions = actor.step(Event::Send(request(ID), "w"));
    assert!(matches!(actions[0], Action::Enqueue(_)));
}

#[test]
fn a_request_without_a_frame_drops_its_waiter() {
    let mut actor = started();
    let actions = actor.accept(ID, None, "w");
    assert!(actions.is_empty());
    assert!(!actor.is_waiting(ID));
    assert_eq!(actor.pending(), 0);
}

#[test]
fn an_identifier_has_one_waiter_at_a_time() {
    let mut actor = started();
    actor.step(Event::Send(request(ID), "first"));
    actor.step(Event::Send(request(ID), "second"));
    assert_eq!(actor.pending(), 1);
    let got = delivered(actor.step(Event::Frame(check_reply("11111111-1111-1111-1111-111111111111"))));
    assert_eq!(got, vec![("second", OTHER)]);
    assert_eq!(actor.pending(), 0);
}

#[test]
fn a_reply_reaches_its_waiter_exactly_once() {
    let mut actor = started();
    actor.step(Event::Send(request(ID), "one"));
    actor.step(Event::Send(request(OTHER), "two"));
    let got = delivered(actor.step(Event::Frame(check_reply("11111111-1111-1111-1111-111111111111"))));
    assert_eq!(got, vec![("one", OTHER)]);
    assert!(!actor.is_waiting(ID));
    assert!(actor.is_waiting(OTHER));
    let again = actor.step(Event::Frame(check_reply("11111111-1111-1111-1111-111111111111")));
    assert!(again.is_empty());
    assert!(actor.is_waiting(OTHER));
    assert_eq!(actor.pending(), 1);
}

#[test]
fn a_reply_for_nobody_is_dropped() {
    let mut actor = started();
    actor.step(Event::Send(request(ID), "one"));
    let actions = actor.step(Event::Frame(check_reply("22222222-2222-2222-2222-222222222222")));
    assert!(actions.is_empty());
    assert!(actor.is_waiting(ID));
}

#[test]
fn frames_that_are_no_replies_change_nothing() {
    let mut actor = started();
    actor.step(Event::Send(request(ID), "one"));
    assert!(actor.step(Event::Frame(Frame::Other)).is_empty());
    assert!(actor.step(Event::Frame(Frame::Text("garbage".to_string()))).is_empty());
    assert!(actor.step(Event::Frame(Frame::Text("{\"requestUUID\":1}".to_string()))).is_empty());
    assert!(actor.is_waiting(ID));
    assert!(actor.is_running());
}

#[test]
fn cancel_removes_the_waiter_and_a_second_cancel_finds_nothing() {
    let mut actor = started();
    actor.step(Event::Send(request(ID), "one"));
    assert!(actor.step(Event::Cancel(ID)).is_empty());
    assert!(!actor.is_waiting(ID));
    assert!(actor.step(Event::Cancel(ID)).is_empty());
    assert_eq!(actor.pending(), 0);
}

#[test]
fn cancel_of_an_answered_request_is_no_error() {
    let mut actor = started();
    actor.step(Event::Send(request(ID), "one"));
    actor.step(Event::Frame(check_reply("11111111-1111-1111-1111-111111111111")));
    assert!(actor.step(Event::Cancel(ID)).is_empty());
    assert!(actor.is_running());
}

#[test]
fn timeout_cancels() {
    let socket = Socket::new(SocketOptions::builder().with_timeout(Some(100)).build());
    assert_eq!(socket.options.timeout, 100);
    let mut actor = started();
    actor.step(Event::Send(request(ID), "caller"));
    let Conclusion { result, cancel } = socket.conclude(ID, Waited::TimedOut);
    assert!(matches!(result, Err(Error::ResponseNotReceived)));
    assert_eq!(cancel, Some(ID));
    actor.step(Event::Cancel(cancel.unwrap()));
    assert_eq!(actor.pending(), 0);
    let late = actor.step(Event::Frame(check_reply("11111111-1111-1111-1111-111111111111")));
    assert!(late.is_empty());
    assert!(actor.is_running());
    assert_eq!(actor.pending(), 0);
}

#[test]
fn a_reply_is_passed_on_and_nothing_is_cancelled() {
    let socket = Socket::new(SocketOptions::builder().build());
    let body = response::Kind::CheckServer(response::CheckServer { uuid: OTHER });
    let Conclusion { result, cancel } = socket.conclude(ID, Waited::Replied(body));
    assert_eq!(cancel, None);
    match result {
        Ok(response::Kind::CheckServer(body)) => assert_eq!(body.uuid, OTHER),
        _ => panic!("reply lost"),
    }
}

#[test]
fn an_abandoned_waiter_sees_response_not_received() {
    let socket = Socket::new(SocketOptions::builder().build());
    let Conclusion { result, cancel } = socket.conclude(ID, Waited::Abandoned);
    assert!(matches!(result, Err(Error::ResponseNotReceived)));
    assert_eq!(cancel, None);
}

#[test]
fn the_actor_task_is_aborted_only_if_it_still_runs() {
    let socket = Socket::new(SocketOptions::builder().build());
    assert!(socket.must_abort(false));
    assert!(!socket.must_abort(true));
}

#[test]
fn connect_and_disconnect() {
    let mut actor = started();
    let actions = actor.step(Event::SocketConnected);
    assert_eq!(actions.len(), 1);
    assert!(matches!(actions[0], Action::StartIo));
    assert!(actor.is_connected());
    actor.step(Event::Send(request(ID), "one"));
    let actions = actor.step(Event::Disconnect);
    assert_eq!(actions.len(), 2);
    assert!(matches!(actions[0], Action::StopIo));
    assert!(matches!(actions[1], Action::Connect));
    assert!(!actor.is_connected());
    assert!(actor.is_waiting(ID));
    assert!(actor.is_running());
}

#[test]
fn shutdown_while_connected() {
    let mut actor = started();
    actor.step(Event::SocketConnected);
    actor.step(Event::Send(request(ID), "one"));
    let actions = actor.step(Event::Shutdown);
    assert_eq!(actions.len(), 3);
    assert!(matches!(actions[0], Action::StopIo));
    assert!(matches!(actions[1], Action::StopSupervisor));
    assert!(matches!(actions[2], Action::Acknowledge));
    assert!(!actor.is_running());
    assert_eq!(actor.pending(), 0);
}

#[test]
fn shutdown_while_disconnected() {
    let mut actor = started();
    let actions = actor.step(Event::Shutdown);
    assert_eq!(actions.len(), 2);
    assert!(matches!(actions[0], Action::StopSupervisor));
    assert!(matches!(actions[1], Action::Acknowledge));
}

#[test]
fn nothing_is_emitted_after_shutdown() {
    let mut actor = started();
    actor.step(Event::Shutdown);
    assert!(actor.step(Event::Send(request(ID), "one")).is_empty());
    assert!(!actor.is_waiting(ID));
    assert!(actor.step(Event::SocketConnected).is_empty());
    assert!(!actor.is_connected());
    assert!(actor.step(Event::Disconnect).is_empty());
    assert!(actor.step(Event::Cancel(ID)).is_empty());
    assert!(actor.step(Event::Frame(check_reply("11111111-1111-1111-1111-111111111111"))).is_empty());
    assert!(actor.step(Event::Shutdown).is_empty());
}

#[test]
fn unusual_characters_still_have_a_frame() {
    let mut actor = started();
    let odd = Request {
        id: ID,
        body: Kind::GetProfileByUsername(GetProfileByUsername { username: "\u{0}\u{7f}\u{ffff}".to_string() }),
    };
    let actions = actor.step(Event::Send(odd, "one"));
    assert_eq!(actions.len(), 1);
    assert!(actor.is_waiting(ID));
}

#[test]
fn channel_and_forward_bounds() {
    assert_eq!(CAPACITY, 256);
    assert_eq!(CONCURRENCY, 5120);
}
