use kinly::launchserver::safe_send::{
    expect_batch_profiles,
    expect_check_server,
    expect_profile_by_username,
    expect_profile_by_uuid,
    expect_restore_token,
    Progress,
    SafeSend,
};
use kinly::launchserver::socket;
use kinly::launchserver::socket::actor::{Action, Actor, Event, Frame};
use kinly::launchserver::types::request::{self, encode};
use kinly::launchserver::types::response::{self, decode};
use kinly::launchserver::{Client, Error};

const ID: u128 = 0x11111111_1111_1111_1111_111111111111;
const RESTORE: u128 = 0x33333333_3333_3333_3333_333333333333;

fn client() -> Client {
    Client::new("secret".to_string(), "ws://backend/api".to_string(), Some(100))
}

fn denied() -> response::Kind {
    response::Kind::Error(response::Error { kind: response::ErrorKind::PermissionsDenied })
}

fn restored(invalid: Vec<&str>) -> response::Kind {
    response::Kind::RestoreToken(response::RestoreToken {
        invalid_tokens: invalid.into_iter().map(|t| t.to_string()).collect(),
    })
}

fn checked() -> response::Kind {
    response::Kind::CheckServer(response::CheckServer { uuid: ID })
}

fn wanted() -> request::Any {
    request::Request {
        id: ID,
        body: request::Kind::CheckServer(request::CheckServer {
            username: "alice".to_string(),
            server_id: "srv".to_string(),
            need_hardware: false,
            need_properties: false,
        }),
    }
}

fn transmit(progress: Progress) -> (SafeSend, request::Any) {
    match progress {
        Progress::Transmit(next, request) => (next, request),
        Progress::Done(_) => panic!("the call is over"),
    }
}

fn done(progress: Progress) -> Result<response::Kind, Error> {
    match progress {
        Progress::Done(result) => result,
        Progress::Transmit(_, _) => panic!("something is sent"),
    }
}

#[test]
fn client_settings() {
    let client = client();
    assert_eq!(client.token(), "secret");
    assert_eq!(client.addr(), "ws://backend/api");
    assert_eq!(client.timeout(), 100);
    assert_eq!(client.options().timeout, 100);
    assert_eq!(client.options().reconnection_timeout, 100);
    let plain = Client::new("t".to_string(), "ws://x".to_string(), None);
    assert_eq!(plain.timeout(), 5000);
    assert_eq!(plain.options().reconnection_timeout, 5000);
}

#[test]
fn typed_requests() {
    let client = client();
    let check = client.check_server("alice".to_string(), "srv".to_string(), true, false);
    match &check.body {
        request::Kind::CheckServer(body) => {
            assert_eq!(body.username, "alice");
            assert_eq!(body.server_id, "srv");
            assert!(body.need_hardware);
            assert!(!body.need_properties);
        }
        _ => panic!("wrong kind"),
    }
    match client.get_profile_by_uuid(ID).body {
        request::Kind::GetProfileByUuid(body) => assert_eq!(body.uuid, ID),
        _ => panic!("wrong kind"),
    }
    match client.get_profile_by_username("bob".to_string()).body {
        request::Kind::GetProfileByUsername(body) => assert_eq!(body.username, "bob"),
        _ => panic!("wrong kind"),
    }
    match client.batch_profiles_by_usernames(&vec!["a".to_string(), "b".to_string()]).body {
        request::Kind::BatchProfilesByUsernames(body) => {
            assert_eq!(body.list.len(), 2);
            assert_eq!(body.list[0].username, "a");
            assert_eq!(body.list[1].username, "b");
        }
        _ => panic!("wrong kind"),
    }
}

#[test]
fn requests_get_fresh_identifiers() {
    let client = client();
    let first = client.get_profile_by_uuid(ID);
    let second = client.get_profile_by_uuid(ID);
    assert_ne!(first.id, second.id);
}

#[test]
fn restore_request_carries_the_token() {
    let request = client().restore_token(RESTORE);
    assert_eq!(
        encode(&request).unwrap(),
        "{\"requestUUID\":\"33333333-3333-3333-3333-333333333333\",\"type\":\"restore\",\"extended\":{\"checkServer\":\"secret\"},\"needUserInfo\":false}"
    );
}

#[test]
fn start_keeps_the_request_and_sends_a_copy() {
    let (state, first) = SafeSend::start(wanted());
    assert_eq!(encode(&first), encode(&wanted()));
    match state {
        SafeSend::First { request } => assert_eq!(encode(&request), encode(&wanted())),
        _ => panic!("wrong state"),
    }
}

#[test]
fn a_reply_ends_the_call() {
    let (state, _) = SafeSend::start(wanted());
    match done(state.advance(Ok(checked()), &client())) {
        Ok(response::Kind::CheckServer(body)) => assert_eq!(body.uuid, ID),
        _ => panic!("reply lost"),
    }
}

#[test]
fn a_timeout_is_not_retried() {
    let (state, _) = SafeSend::start(wanted());
    match done(state.advance(Err(socket::Error::ResponseNotReceived), &client())) {
        Err(Error::Internal(socket::Error::ResponseNotReceived)) => {}
        _ => panic!("wrong result"),
    }
}

#[test]
fn restore_with_no_invalid_token_causes_one_retry() {
    let client = client();
    let (state, _) = SafeSend::start(wanted());
    let (state, restore) = transmit(state.advance_with(Ok(denied()), &client, RESTORE));
    assert_eq!(restore.id, RESTORE);
    assert_eq!(
        encode(&restore).unwrap(),
        "{\"requestUUID\":\"33333333-3333-3333-3333-333333333333\",\"type\":\"restore\",\"extended\":{\"checkServer\":\"secret\"},\"needUserInfo\":false}"
    );
    let (state, retry) = transmit(state.advance(Ok(restored(vec![])), &client));
    assert_eq!(retry.id, ID);
    assert_eq!(encode(&retry), encode(&wanted()));
    assert!(matches!(state, SafeSend::Retrying));
    match done(state.advance(Ok(checked()), &client)) {
        Ok(response::Kind::CheckServer(body)) => assert_eq!(body.uuid, ID),
        _ => panic!("the retry's reply is lost"),
    }
}

#[test]
fn the_retry_is_the_last_try() {
    let client = client();
    let (state, _) = SafeSend::start(wanted());
    let (state, _) = transmit(state.advance(Ok(denied()), &client));
    let (state, _) = transmit(state.advance(Ok(restored(vec![])), &client));
    let result = done(state.advance(Ok(denied()), &client)).unwrap();
    assert!(result.is_permissions_denied());
    match expect_check_server(result) {
        Err(Error::UnexpectedResponse(kind)) => assert!(kind.is_permissions_denied()),
        _ => panic!("wrong result"),
    }
}

#[test]
fn a_timed_out_retry_is_a_socket_error() {
    let client = client();
    let (state, _) = SafeSend::start(wanted());
    let (state, _) = transmit(state.advance(Ok(denied()), &client));
    let (state, _) = transmit(state.advance(Ok(restored(vec![])), &client));
    match done(state.advance(Err(socket::Error::ResponseNotReceived), &client)) {
        Err(Error::Internal(socket::Error::ResponseNotReceived)) => {}
        _ => panic!("wrong result"),
    }
}

#[test]
fn restore_with_invalid_tokens_is_not_retried() {
    let client = client();
    let (state, _) = SafeSend::start(wanted());
    let (state, _) = transmit(state.advance(Ok(denied()), &client));
    match done(state.advance(Ok(restored(vec!["checkServer"])), &client)) {
        Err(Error::UnexpectedResponse(kind)) => assert!(kind.is_permissions_denied()),
        _ => panic!("wrong result"),
    }
}

#[test]
fn a_failed_restore_is_not_retried() {
    let client = client();
    let (state, _) = SafeSend::start(wanted());
    let (state, _) = transmit(state.advance(Ok(denied()), &client));
    match done(state.advance(Err(socket::Error::ResponseNotReceived), &client)) {
        Err(Error::UnexpectedResponse(kind)) => assert!(kind.is_permissions_denied()),
        _ => panic!("wrong result"),
    }
    let (state, _) = SafeSend::start(wanted());
    let (state, _) = transmit(state.advance(Ok(denied()), &client));
    match done(state.advance(Ok(denied()), &client)) {
        Err(Error::UnexpectedResponse(kind)) => assert!(kind.is_permissions_denied()),
        _ => panic!("wrong result"),
    }
    let (state, _) = SafeSend::start(wanted());
    let (state, _) = transmit(state.advance(Ok(denied()), &client));
    match done(state.advance(Ok(checked()), &client)) {
        Err(Error::UnexpectedResponse(kind)) => assert!(kind.is_permissions_denied()),
        _ => panic!("wrong result"),
    }
}

#[test]
fn other_errors_are_not_restored() {
    let other = response::Kind::Error(response::Error {
        kind: response::ErrorKind::Other("NotFound".to_string()),
    });
    let (state, _) = SafeSend::start(wanted());
    match done(state.advance(Ok(other), &client())) {
        Ok(response::Kind::Error(_)) => {}
        _ => panic!("wrong result"),
    }
}

#[test]
fn token_restore() {
    let client = client();
    let mut actor: Actor<u8> = Actor::new().0;
    let mut frames: Vec<String> = Vec::new();
    let mut send = |actor: &mut Actor<u8>, request: request::Any, frames: &mut Vec<String>| {
        for action in actor.step(Event::Send(request, 0)) {
            match action {
                Action::Enqueue(frame) => frames.push(frame),
                _ => panic!("not an enqueue"),
            }
        }
    };
    let mut receive = |actor: &mut Actor<u8>, text: String| -> response::Kind {
        let mut actions = actor.step(Event::Frame(Frame::Text(text)));
        assert_eq!(actions.len(), 1);
        match actions.remove(0) {
            Action::Deliver(_, body) => body,
            _ => panic!("not a delivery"),
        }
    };

    let (state, first) = SafeSend::start(wanted());
    send(&mut actor, first, &mut frames);
    let reply = receive(
        &mut actor,
        "{\"requestUUID\":\"11111111-1111-1111-1111-111111111111\",\"type\":\"error\",\"kind\":\"PermissionsDenied\"}".to_string(),
    );
    let (state, restore) = transmit(state.advance(Ok(reply), &client));
    let restore_id = decode_id(&encode(&restore).unwrap());
    send(&mut actor, restore, &mut frames);
    let reply = receive(
        &mut actor,
        format!("{{\"requestUUID\":\"{}\",\"type\":\"restore\",\"invalidTokens\":[]}}", restore_id),
    );
    let (state, retry) = transmit(state.advance(Ok(reply), &client));
    send(&mut actor, retry, &mut frames);
    let reply = receive(
        &mut actor,
        "{\"requestUUID\":\"11111111-1111-1111-1111-111111111111\",\"type\":\"checkServer\",\"uuid\":\"11111111-1111-1111-1111-111111111111\"}".to_string(),
    );
    let result = done(state.advance(Ok(reply), &client)).unwrap();
    assert_eq!(expect_check_server(result).unwrap().uuid, ID);
    assert_eq!(frames.len(), 3);
    assert_eq!(frames[0], encode(&wanted()).unwrap());
    assert!(frames[1].contains("\"type\":\"restore\""));
    assert!(frames[1].contains("\"extended\":{\"checkServer\":\"secret\"}"));
    assert_eq!(frames[2], frames[0]);
    assert_eq!(actor.pending(), 0);
}

fn decode_id(frame: &str) -> String {
    let value: serde_json::Value = serde_json::from_str(frame).unwrap();
    value["requestUUID"].as_str().unwrap().to_string()
}

#[test]
fn expectations_take_the_matching_body() {
    let profile = || {
        decode(
            "{\"requestUUID\":\"11111111-1111-1111-1111-111111111111\",\"type\":\"profileByUUID\",\"playerProfile\":{\"uuid\":\"11111111-1111-1111-1111-111111111111\",\"username\":\"alice\",\"assets\":{}}}",
        )
        .unwrap()
        .body
    };
    assert_eq!(expect_profile_by_uuid(profile()).unwrap().player_profile.username, "alice");
    assert!(matches!(expect_check_server(profile()), Err(Error::UnexpectedResponse(_))));
    assert!(matches!(expect_profile_by_username(profile()), Err(Error::UnexpectedResponse(_))));
    assert!(matches!(expect_batch_profiles(profile()), Err(Error::UnexpectedResponse(_))));
    assert!(matches!(expect_restore_token(profile()), Err(Error::UnexpectedResponse(_))));
    assert_eq!(expect_check_server(checked()).unwrap().uuid, ID);
    assert!(expect_restore_token(restored(vec![])).unwrap().invalid_tokens.is_empty());
    match expect_profile_by_uuid(denied()) {
        Err(Error::UnexpectedResponse(kind)) => assert!(kind.is_permissions_denied()),
        _ => panic!("wrong result"),
    }
    let by_name = decode(
        "{\"requestUUID\":\"11111111-1111-1111-1111-111111111111\",\"type\":\"profileByUsername\",\"playerProfile\":{\"uuid\":\"11111111-1111-1111-1111-111111111111\",\"username\":\"bob\",\"assets\":{}}}",
    )
    .unwrap()
    .body;
    assert_eq!(expect_profile_by_username(by_name).unwrap().player_profile.username, "bob");
    let batch = decode(
        "{\"requestUUID\":\"11111111-1111-1111-1111-111111111111\",\"type\":\"batchProfileByUsername\",\"playerProfiles\":[null]}",
    )
    .unwrap()
    .body;
    assert_eq!(expect_batch_profiles(batch).unwrap().player_profiles.len(), 1);
}

#[test]
fn error_messages() {
    assert_eq!(socket::Error::ResponseNotReceived.message(), "response not received");
    assert_eq!(socket::Error::Internal.message(), "internal error occurred");
    assert_eq!(
        Error::Internal(socket::Error::ResponseNotReceived).message(),
        "internal socket error: response not received"
    );
    assert_eq!(
        Error::UnexpectedResponse(denied()).message(),
        "unexpected response received: error"
    );
    assert_eq!(
        Error::UnexpectedResponse(checked()).message(),
        "unexpected response received: checkServer"
    );
}

#[test]
fn socket_errors_convert() {
    let error: Error = socket::Error::Internal.into();
    assert!(matches!(error, Error::Internal(socket::Error::Internal)));
    let error = Error::from(socket::Error::ResponseNotReceived);
    assert!(matches!(error, Error::Internal(socket::Error::ResponseNotReceived)));
}
