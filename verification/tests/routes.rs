use kinly::config::{self, Assets, Config, Meta};
use kinly::http::routes::api::get_profiles_by_usernames::{
    batch_request,
    get_profiles_by_usernames,
    list_profiles,
    GetProfilesByUsernamesPath,
    GetProfilesByUsernamesRequest,
};
use kinly::http::routes::root::{metadata, root, RootPath};
use kinly::http::routes::sessionserver::get_profile_by_uuid::{
    self as profile_route,
    get_profile_by_uuid,
    GetProfileByUuidPath,
    GetProfileByUuidQuery,
};
use kinly::http::routes::sessionserver::player_has_joined::{
    check_request,
    player_has_joined,
    profile_request,
    PlayerHasJoinedPath,
    PlayerHasJoinedQuery,
};
use kinly::http::state::{KeyPair, Server, State};
use kinly::http::Reply;
use kinly::launchserver::safe_send::expect_profile_by_uuid;
use kinly::launchserver::socket;
use kinly::launchserver::socket::actor::{Action, Actor, Event, Frame};
use kinly::launchserver::types::profile::{Assets as ProfileAssets, Profile};
use kinly::launchserver::types::request::{self, encode};
use kinly::launchserver::types::response::{self, BatchProfilesByUsernames};
use kinly::launchserver::{Client, Error};
use openssl::pkey::Private;
use openssl::rsa::Rsa;

const ID: u128 = 0x11111111_1111_1111_1111_111111111111;

fn key() -> Rsa<Private> {
    Rsa::generate(2048).unwrap()
}

fn client() -> Client {
    Client::new("secret".to_string(), "ws://backend/api".to_string(), None)
}

fn server(name: &str, assets: Vec<&str>, key: &Rsa<Private>) -> Server {
    Server {
        name: name.to_string(),
        key_pair: KeyPair { private: key.clone(), public: format!("PEM of {}", name) },
        assets: assets.into_iter().map(|a| a.to_string()).collect(),
        socket: client(),
    }
}

fn plain(uuid: u128, name: &str) -> Profile {
    Profile { uuid, username: name.to_string(), assets: ProfileAssets { skin: None, cape: None } }
}

fn timed_out() -> Error {
    Error::Internal(socket::Error::ResponseNotReceived)
}

#[test]
fn status_codes() {
    assert_eq!(Reply::<u8>::NoContent.status(), 204);
    assert_eq!(Reply::Json(1u8).status(), 200);
}

#[test]
fn all_in_one_domains() {
    let assets = Assets::AllInOne(vec!["a.example".to_string(), "b.example".to_string()]);
    assert_eq!(assets.domains(), vec!["a.example".to_string(), "b.example".to_string()]);
}

#[test]
fn separated_domains_are_joined_skins_first() {
    let meta = Meta {
        assets: Assets::Separated {
            skins: vec!["s1".to_string(), "s2".to_string()],
            capes: vec!["c1".to_string()],
        },
    };
    assert_eq!(meta.assets.domains(), vec!["s1".to_string(), "s2".to_string(), "c1".to_string()]);
    let empty = Assets::Separated { skins: vec![], capes: vec![] };
    assert!(empty.domains().is_empty());
}

#[test]
fn default_configuration() {
    let config = Config::default();
    assert_eq!(config.binds.host, [0, 0, 0, 0]);
    assert_eq!(config.binds.port, 10000);
    assert!(config.servers.is_empty());
}

#[test]
fn state_from_configuration() {
    let key = key();
    let servers = vec![
        config::Server {
            name: "one".to_string(),
            api: "ws://one/api".to_string(),
            token: "t1".to_string(),
            meta: Meta { assets: Assets::AllInOne(vec!["a".to_string()]) },
        },
        config::Server {
            name: "two".to_string(),
            api: "ws://two/api".to_string(),
            token: "t2".to_string(),
            meta: Meta {
                assets: Assets::Separated { skins: vec!["s".to_string()], capes: vec!["c".to_string()] },
            },
        },
    ];
    let pair = KeyPair { private: key.clone(), public: "PEM".to_string() };
    let state = State::from_config(&servers, &pair, 5000);
    assert_eq!(state.servers.len(), 2);
    assert_eq!(state.index("one"), Some(0));
    assert_eq!(state.index("two"), Some(1));
    assert_eq!(state.index("three"), None);
    let two = state.server("two").unwrap();
    assert_eq!(two.assets, vec!["s".to_string(), "c".to_string()]);
    assert_eq!(two.socket.token(), "t2");
    assert_eq!(two.socket.addr(), "ws://two/api");
    assert_eq!(two.socket.timeout(), 5000);
    assert_eq!(two.socket.options().reconnection_timeout, 5000);
    assert_eq!(two.key_pair.public, "PEM");
    assert_eq!(two.key_pair.private.size(), key.size());
    assert_eq!(
        two.key_pair.private.private_key_to_der().unwrap(),
        key.private_key_to_der().unwrap()
    );
}

#[test]
fn backends_are_found_by_name() {
    let key = key();
    let state = State {
        servers: vec![server("one", vec![], &key), server("two", vec!["x"], &key)],
    };
    assert_eq!(state.server("one").unwrap().name, "one");
    assert_eq!(state.server("two").unwrap().assets, vec!["x".to_string()]);
    assert!(state.server("three").is_none());
    assert!(state.server("").is_none());
    assert!(State { servers: vec![] }.server("one").is_none());
}

#[test]
fn the_later_backend_stands_for_a_repeated_name() {
    let key = key();
    let state = State {
        servers: vec![
            server("one", vec!["first"], &key),
            server("two", vec![], &key),
            server("one", vec!["second"], &key),
        ],
    };
    assert_eq!(state.server("one").unwrap().assets, vec!["second".to_string()]);
}

#[test]
fn root_route() {
    let key = key();
    let state = State {
        servers: vec![server("other", vec![], &key), server("main", vec!["a.example"], &key)],
    };
    match root(&state, RootPath { server_id: "main".to_string() }) {
        Reply::Json(response) => {
            assert_eq!(response.meta.server_name, Some("main".to_string()));
            assert_eq!(response.skin_domains, vec!["a.example".to_string()]);
            assert_eq!(response.signature_public_key, "PEM of main");
        }
        Reply::NoContent => panic!("no content"),
    }
    assert_eq!(root(&state, RootPath { server_id: "missing".to_string() }).status(), 204);
}

#[test]
fn root_response() {
    let key = key();
    let backend = server("main", vec!["a.example", "b.example"], &key);
    let response = metadata("main".to_string(), &backend);
    assert_eq!(response.meta.server_name, Some("main".to_string()));
    assert_eq!(response.meta.implementation_name, Some("Kinly".to_string()));
    assert_eq!(response.meta.implementation_version, None);
    assert_eq!(response.skin_domains, vec!["a.example".to_string(), "b.example".to_string()]);
    assert_eq!(response.signature_public_key, "PEM of main");
}

#[test]
fn batch_lists_the_profiles_found() {
    let batch = BatchProfilesByUsernames {
        player_profiles: vec![Some(plain(ID, "alice")), None, Some(plain(0xab, "bob")), None],
    };
    let listed = list_profiles(&batch);
    assert_eq!(listed.len(), 2);
    assert_eq!(listed[0].id, "11111111111111111111111111111111");
    assert_eq!(listed[0].name, "alice");
    assert!(listed[0].properties.is_empty());
    assert_eq!(listed[1].id, "000000000000000000000000000000ab");
    assert_eq!(listed[1].name, "bob");
    assert!(listed[1].properties.is_empty());
}

#[test]
fn batch_route() {
    let key = key();
    let state = State { servers: vec![server("main", vec![], &key)] };
    let path = GetProfilesByUsernamesPath { server_id: "main".to_string() };
    let body = GetProfilesByUsernamesRequest(vec!["alice".to_string()]);
    let (index, request) = batch_request(&state, &path, &body).unwrap();
    assert_eq!(index, 0);
    assert!(encode(&request).unwrap().contains("\"list\":[{\"username\":\"alice\"}]"));
    let missing = GetProfilesByUsernamesPath { server_id: "nope".to_string() };
    assert!(batch_request(&state, &missing, &body).is_none());
    let reply = get_profiles_by_usernames(Ok(BatchProfilesByUsernames {
        player_profiles: vec![None, Some(plain(ID, "alice"))],
    }));
    assert_eq!(reply.status(), 200);
    match reply {
        Reply::Json(response) => {
            assert_eq!(response.0.len(), 1);
            assert_eq!(response.0[0].name, "alice");
        }
        Reply::NoContent => panic!("no content"),
    }
    let reply = get_profiles_by_usernames(Ok(BatchProfilesByUsernames { player_profiles: vec![] }));
    match reply {
        Reply::Json(response) => assert!(response.0.is_empty()),
        Reply::NoContent => panic!("no content"),
    }
    assert_eq!(get_profiles_by_usernames(Err(timed_out())).status(), 204);
}

#[test]
fn profile_route() {
    let key = key();
    let state = State { servers: vec![server("a", vec![], &key), server("main", vec![], &key)] };
    let path = GetProfileByUuidPath { server_id: "main".to_string(), profile_id: ID };
    let (index, request) = profile_route::profile_request(&state, &path).unwrap();
    assert_eq!(index, 1);
    match request.body {
        request::Kind::GetProfileByUuid(body) => assert_eq!(body.uuid, ID),
        _ => panic!("wrong kind"),
    }
    let missing = GetProfileByUuidPath { server_id: "b".to_string(), profile_id: ID };
    assert!(profile_route::profile_request(&state, &missing).is_none());
    let found = || Ok(response::GetProfileByUuid { player_profile: plain(ID, "alice") });
    match get_profile_by_uuid(found(), &key, 5, GetProfileByUuidQuery { unsigned: true }) {
        Reply::Json(response) => {
            assert_eq!(response.0.id, "11111111111111111111111111111111");
            assert_eq!(response.0.properties[0].signature, None);
        }
        Reply::NoContent => panic!("no content"),
    }
    match get_profile_by_uuid(found(), &key, 5, GetProfileByUuidQuery { unsigned: false }) {
        Reply::Json(response) => assert!(response.0.properties[0].signature.is_some()),
        Reply::NoContent => panic!("no content"),
    }
    let reply = get_profile_by_uuid(Err(timed_out()), &key, 5, GetProfileByUuidQuery { unsigned: true });
    assert_eq!(reply.status(), 204);
}

#[test]
fn a_profile_that_cannot_be_signed_gives_no_content() {
    let key = key();
    let found = Ok(response::GetProfileByUuid { player_profile: plain(ID, &"x".repeat(400)) });
    let reply = get_profile_by_uuid(found, &key, 5, GetProfileByUuidQuery { unsigned: false });
    assert_eq!(reply.status(), 204);
}

#[test]
fn has_joined_route() {
    let key = key();
    let client = client();
    let state = State { servers: vec![server("main", vec![], &key)] };
    let path = PlayerHasJoinedPath { server_id: "main".to_string() };
    let query = || PlayerHasJoinedQuery {
        username: "alice".to_string(),
        server_id: "hash".to_string(),
        ip: Some("127.0.0.1".to_string()),
    };
    let missing = PlayerHasJoinedPath { server_id: "".to_string() };
    assert!(check_request(&state, &missing, query()).is_none());
    let (index, check) = check_request(&state, &path, query()).unwrap();
    assert_eq!(index, 0);
    match &check.body {
        request::Kind::CheckServer(body) => {
            assert_eq!(body.username, "alice");
            assert_eq!(body.server_id, "hash");
            assert!(!body.need_hardware);
            assert!(!body.need_properties);
        }
        _ => panic!("wrong kind"),
    }
    let lookup = profile_request(&client, Ok(response::CheckServer { uuid: ID })).unwrap();
    match lookup.body {
        request::Kind::GetProfileByUuid(body) => assert_eq!(body.uuid, ID),
        _ => panic!("wrong kind"),
    }
    assert!(profile_request(&client, Err(timed_out())).is_none());
    let found = Ok(response::GetProfileByUuid { player_profile: plain(ID, "alice") });
    match player_has_joined(found, &key, 5) {
        Reply::Json(response) => {
            assert_eq!(response.0.name, "alice");
            assert_eq!(response.0.properties[0].signature, None);
        }
        Reply::NoContent => panic!("no content"),
    }
    assert_eq!(player_has_joined(Err(timed_out()), &key, 5).status(), 204);
}

#[test]
fn happy_path_from_frame_to_reply() {
    let key = key();
    let client = client();
    let mut actor: Actor<u8> = Actor::new().0;
    let request = client.get_profile_by_uuid(ID);
    let id = uuid::Uuid::from_u128(request.id).hyphenated().to_string();
    let actions = actor.step(Event::Send(request, 1));
    match &actions[0] {
        Action::Enqueue(frame) => assert_eq!(
            *frame,
            format!(
                "{{\"requestUUID\":\"{}\",\"type\":\"profileByUUID\",\"uuid\":\"11111111-1111-1111-1111-111111111111\"}}",
                id
            )
        ),
        _ => panic!("not an enqueue"),
    }
    let frame = format!(
        "{{\"requestUUID\":\"{}\",\"type\":\"profileByUUID\",\"playerProfile\":{{\"uuid\":\"11111111-1111-1111-1111-111111111111\",\"username\":\"alice\",\"assets\":{{\"skin\":{{\"url\":\"https://x/s.png\",\"metadata\":{{\"model\":\"Default\"}}}}}}}}}}",
        id
    );
    let mut actions = actor.step(Event::Frame(Frame::Text(frame)));
    assert_eq!(actions.len(), 1);
    let body = match actions.remove(0) {
        Action::Deliver(1, body) => body,
        _ => panic!("not a delivery"),
    };
    let reply = get_profile_by_uuid(
        expect_profile_by_uuid(body),
        &key,
        1_700_000_000_000,
        GetProfileByUuidQuery { unsigned: true },
    );
    assert_eq!(reply.status(), 200);
    let profile = match reply {
        Reply::Json(response) => response.0,
        Reply::NoContent => panic!("no content"),
    };
    assert_eq!(profile.properties[0].signature, None);
    let value = openssl::base64::decode_block(&profile.properties[0].value).unwrap();
    let json: serde_json::Value = serde_json::from_slice(&value).unwrap();
    assert_eq!(json["profileId"], "11111111111111111111111111111111");
    assert_eq!(json["profileName"], "alice");
    assert_eq!(json["textures"]["SKIN"]["url"], "https://x/s.png");
    assert!(json["textures"]["SKIN"].get("metadata").is_none());
    assert_eq!(json["signatureRequired"], false);
}
