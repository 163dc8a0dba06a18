//! Incoming messages.
use crate::json::{parse, parsed, Json, JsonValue};
use crate::launchserver::types::profile::{
    profile_from,
    profile_of,
    read_uuid,
    uuid_member,
    Profile,
    ProfileView,
};
use vstd::prelude::*;
use vstd::string::StringExecFns;

verus! {

/// An envelope: the identifier of the request that is answered, and a body.
#[derive(Debug)]
pub struct Response<T> {
    pub id: u128,
    pub body: T,
}

/// An envelope around any of the known bodies.
pub type Any = Response<Kind>;

/// The body of a reply: one variant per operation, and one for a refusal.
#[derive(Debug)]
pub enum Kind {
    RestoreToken(RestoreToken),
    CheckServer(CheckServer),
    GetProfileByUuid(GetProfileByUuid),
    GetProfileByUsername(GetProfileByUsername),
    BatchProfilesByUsernames(BatchProfilesByUsernames),
    Error(Error),
}

/// The tokens that the backend did not take back.
#[derive(Debug)]
pub struct RestoreToken {
    pub invalid_tokens: Vec<String>,
}

/// The player that has joined.
#[derive(Debug)]
pub struct CheckServer {
    pub uuid: u128,
}

/// The profile with the identifier asked for.
#[derive(Debug)]
pub struct GetProfileByUuid {
    pub player_profile: Profile,
}

/// The profile with the name asked for.
#[derive(Debug)]
pub struct GetProfileByUsername {
    pub player_profile: Profile,
}

/// One entry per name asked for; `None` where the backend knows no such player.
#[derive(Debug)]
pub struct BatchProfilesByUsernames {
    pub player_profiles: Vec<Option<Profile>>,
}

/// A refusal.
#[derive(Debug)]
pub struct Error {
    pub kind: ErrorKind,
}

/// Why the backend refused.
#[derive(Debug)]
pub enum ErrorKind {
    /// The token of this connection is no longer accepted.
    PermissionsDenied,
    /// Any other reason, as the backend names it.
    Other(String),
}

/// The value of an [`ErrorKind`].
pub enum ErrorKindView {
    PermissionsDenied,
    Other(Seq<char>),
}

/// The value of a [`Kind`].
pub enum KindView {
    RestoreToken { invalid_tokens: Seq<Seq<char>> },
    CheckServer { uuid: u128 },
    GetProfileByUuid { player_profile: ProfileView },
    GetProfileByUsername { player_profile: ProfileView },
    BatchProfilesByUsernames { player_profiles: Seq<Option<ProfileView>> },
    Error { kind: ErrorKindView },
}

/// The value of a [`Response`] around a [`Kind`].
pub struct ResponseView {
    pub id: u128,
    pub body: KindView,
}

/// The texts of a list of strings.
pub open spec fn texts(list: Seq<String>) -> Seq<Seq<char>> {
    Seq::new(list.len(), |i: int| list[i]@)
}

/// The values of a list of optional profiles.
pub open spec fn profiles(list: Seq<Option<Profile>>) -> Seq<Option<ProfileView>> {
    Seq::new(list.len(), |i: int| profile_of(list[i]))
}

impl View for ErrorKind {
    type V = ErrorKindView;

    open spec fn view(&self) -> ErrorKindView {
        match self {
            ErrorKind::PermissionsDenied => ErrorKindView::PermissionsDenied,
            ErrorKind::Other(name) => ErrorKindView::Other(name@),
        }
    }
}

impl View for Kind {
    type V = KindView;

    open spec fn view(&self) -> KindView {
        match self {
            Kind::RestoreToken(body) => KindView::RestoreToken {
                invalid_tokens: texts(body.invalid_tokens@),
            },
            Kind::CheckServer(body) => KindView::CheckServer { uuid: body.uuid },
            Kind::GetProfileByUuid(body) => KindView::GetProfileByUuid {
                player_profile: body.player_profile@,
            },
            Kind::GetProfileByUsername(body) => KindView::GetProfileByUsername {
                player_profile: body.player_profile@,
            },
            Kind::BatchProfilesByUsernames(body) => KindView::BatchProfilesByUsernames {
                player_profiles: profiles(body.player_profiles@),
            },
            Kind::Error(body) => KindView::Error { kind: body.kind@ },
        }
    }
}

impl View for Response<Kind> {
    type V = ResponseView;

    open spec fn view(&self) -> ResponseView {
        ResponseView { id: self.id, body: self.body@ }
    }
}

/// The value of an optional reply.
pub open spec fn response_of(reply: Option<Any>) -> Option<ResponseView> {
    match reply {
        Some(r) => Some(r@),
        None => None,
    }
}

impl Kind {
    /// The value of the `type` member that names the variant.
    pub open spec fn tag(self) -> Seq<char> {
        match self {
            Kind::RestoreToken(_) => "restore"@,
            Kind::CheckServer(_) => "checkServer"@,
            Kind::GetProfileByUuid(_) => "profileByUUID"@,
            Kind::GetProfileByUsername(_) => "profileByUsername"@,
            Kind::BatchProfilesByUsernames(_) => "batchProfileByUsername"@,
            Kind::Error(_) => "error"@,
        }
    }

    /// The value of the `type` member.
    pub fn tag_name(&self) -> (name: &'static str)
        ensures
            name@ == self.tag(),
    {
        match self {
            Kind::RestoreToken(_) => "restore",
            Kind::CheckServer(_) => "checkServer",
            Kind::GetProfileByUuid(_) => "profileByUUID",
            Kind::GetProfileByUsername(_) => "profileByUsername",
            Kind::BatchProfilesByUsernames(_) => "batchProfileByUsername",
            Kind::Error(_) => "error",
        }
    }

    /// Whether this says that every token was taken back.
    pub open spec fn restored(self) -> bool {
        self matches Kind::RestoreToken(body) && body.invalid_tokens@.len() == 0
    }

    /// Whether this says that every token was taken back.
    pub fn is_restored(&self) -> (restored: bool)
        ensures
            restored == self.restored(),
    {
        match self {
            Kind::RestoreToken(body) => body.invalid_tokens.len() == 0,
            _ => false,
        }
    }

    /// Whether this is the refusal that a token restore can cure.
    pub open spec fn denied(self) -> bool {
        self matches Kind::Error(body) && body.kind is PermissionsDenied
    }

    /// Whether this is the refusal that a token restore can cure.
    pub fn is_permissions_denied(&self) -> (denied: bool)
        ensures
            denied == self.denied(),
    {
        match self {
            Kind::Error(body) => match body.kind {
                ErrorKind::PermissionsDenied => true,
                ErrorKind::Other(_) => false,
            },
            _ => false,
        }
    }
}

/// The value of an optional body.
pub open spec fn kind_of(body: Option<Kind>) -> Option<KindView> {
    match body {
        Some(b) => Some(b@),
        None => None,
    }
}

/// The texts of a list of strings; `None` if an item is not a string.
pub open spec fn texts_from(items: Seq<JsonValue>) -> Option<Seq<Seq<char>>> {
    if forall|i: int| 0 <= i < items.len() ==> #[trigger] items[i].text().is_some() {
        Some(Seq::new(items.len(), |i: int| items[i].text().unwrap()))
    } else {
        None
    }
}

/// What one item of a batch stands for: `null` for no profile, else a profile.
/// The outer `None` stands for anything else.
pub open spec fn entry_from(item: JsonValue) -> Option<Option<ProfileView>> {
    if item is Null {
        Some(None)
    } else {
        match profile_from(item) {
            Some(profile) => Some(Some(profile)),
            None => None,
        }
    }
}

/// The profiles of a batch; `None` if an item is neither `null` nor a profile.
pub open spec fn profiles_from(items: Seq<JsonValue>) -> Option<Seq<Option<ProfileView>>> {
    if forall|i: int| 0 <= i < items.len() ==> #[trigger] entry_from(items[i]).is_some() {
        Some(Seq::new(items.len(), |i: int| entry_from(items[i]).unwrap()))
    } else {
        None
    }
}

/// The reason that a name stands for.
pub open spec fn error_kind_from(name: Seq<char>) -> ErrorKindView {
    if name == "PermissionsDenied"@ {
        ErrorKindView::PermissionsDenied
    } else {
        ErrorKindView::Other(name)
    }
}

/// The body that an object holds under the tag `tag`:
/// `restore` with `invalidTokens`, `checkServer` with `uuid`, `profileByUUID`
/// and `profileByUsername` with `playerProfile`, `batchProfileByUsername` with
/// `playerProfiles`, `error` with `kind`. Any other tag gives nothing.
pub open spec fn body_from(tag: Seq<char>, doc: JsonValue) -> Option<KindView> {
    if tag == "restore"@ {
        match doc.array_member("invalidTokens"@) {
            Some(items) => match texts_from(items) {
                Some(invalid_tokens) => Some(KindView::RestoreToken { invalid_tokens }),
                None => None,
            },
            None => None,
        }
    } else if tag == "checkServer"@ {
        match uuid_member(doc, "uuid"@) {
            Some(uuid) => Some(KindView::CheckServer { uuid }),
            None => None,
        }
    } else if tag == "profileByUUID"@ {
        match doc.get("playerProfile"@) {
            Some(inner) => match profile_from(inner) {
                Some(player_profile) => Some(KindView::GetProfileByUuid { player_profile }),
                None => None,
            },
            None => None,
        }
    } else if tag == "profileByUsername"@ {
        match doc.get("playerProfile"@) {
            Some(inner) => match profile_from(inner) {
                Some(player_profile) => Some(KindView::GetProfileByUsername { player_profile }),
                None => None,
            },
            None => None,
        }
    } else if tag == "batchProfileByUsername"@ {
        match doc.array_member("playerProfiles"@) {
            Some(items) => match profiles_from(items) {
                Some(player_profiles) => Some(
                    KindView::BatchProfilesByUsernames { player_profiles },
                ),
                None => None,
            },
            None => None,
        }
    } else if tag == "error"@ {
        match doc.text_member("kind"@) {
            Some(name) => Some(KindView::Error { kind: error_kind_from(name) }),
            None => None,
        }
    } else {
        None
    }
}

/// The reply that a document is: an object with the identifier of the request
/// in `requestUUID`, a tag in `type`, and beside them the members of the body.
pub open spec fn response_from(doc: JsonValue) -> Option<ResponseView> {
    match (uuid_member(doc, "requestUUID"@), doc.text_member("type"@)) {
        (Some(id), Some(tag)) => match body_from(tag, doc) {
            Some(body) => Some(ResponseView { id, body }),
            None => None,
        },
        _ => None,
    }
}

/// The reply that a text frame is, if it is one.
pub open spec fn decoded(text: Seq<char>) -> Option<ResponseView> {
    match parsed(text) {
        Some(doc) => response_from(doc),
        None => None,
    }
}

fn read_texts(items: &Vec<Json>) -> (out: Option<Vec<String>>)
    ensures
        match out {
            Some(list) => {
                &&& forall|k: int|
                    0 <= k < items@.len() ==> (#[trigger] items@[k]@).text().is_some()
                &&& list@.len() == items@.len()
                &&& forall|k: int|
                    0 <= k < items@.len() ==> (#[trigger] list@[k])@ == items@[k]@.text().unwrap()
            },
            None => exists|k: int|
                0 <= k < items@.len() && (#[trigger] items@[k]@).text().is_none(),
        },
{
    let mut list: Vec<String> = Vec::new();
    let mut i: usize = 0;
    while i < items.len()
        invariant
            i <= items.len(),
            list@.len() == i,
            forall|k: int| 0 <= k < i ==> (#[trigger] items@[k]@).text().is_some(),
            forall|k: int| 0 <= k < i ==> (#[trigger] list@[k])@ == items@[k]@.text().unwrap(),
        decreases items.len() - i,
    {
        match items[i].as_text() {
            Some(text) => {
                list.push(text.clone());
            },
            None => {
                return None;
            },
        }
        i = i + 1;
    }
    Some(list)
}

fn read_profiles(items: &Vec<Json>) -> (out: Option<Vec<Option<Profile>>>)
    ensures
        match out {
            Some(list) => {
                &&& forall|k: int|
                    0 <= k < items@.len() ==> (#[trigger] entry_from(items@[k]@)).is_some()
                &&& list@.len() == items@.len()
                &&& forall|k: int|
                    0 <= k < items@.len() ==> profile_of(#[trigger] list@[k]) == entry_from(
                        items@[k]@,
                    ).unwrap()
            },
            None => exists|k: int|
                0 <= k < items@.len() && (#[trigger] entry_from(items@[k]@)).is_none(),
        },
{
    let mut list: Vec<Option<Profile>> = Vec::new();
    let mut i: usize = 0;
    while i < items.len()
        invariant
            i <= items.len(),
            list@.len() == i,
            forall|k: int| 0 <= k < i ==> (#[trigger] entry_from(items@[k]@)).is_some(),
            forall|k: int|
                0 <= k < i ==> profile_of(#[trigger] list@[k]) == entry_from(items@[k]@).unwrap(),
        decreases items.len() - i,
    {
        match &items[i] {
            Json::Null => {
                list.push(None);
            },
            item => {
                match Profile::from_json(item) {
                    Some(profile) => {
                        list.push(Some(profile));
                    },
                    None => {
                        proof {
                            assert(!(items@[i as int]@ is Null));
                            assert(entry_from(items@[i as int]@).is_none());
                        }
                        return None;
                    },
                }
            },
        }
        i = i + 1;
    }
    Some(list)
}

fn read_error_kind(name: &String) -> (kind: ErrorKind)
    ensures
        kind@ == error_kind_from(name@),
{
    let denied = String::from_str("PermissionsDenied");
    if *name == denied {
        ErrorKind::PermissionsDenied
    } else {
        ErrorKind::Other(name.clone())
    }
}

fn tag_is(tag: &String, name: &str) -> (same: bool)
    ensures
        same == (tag@ == name@),
{
    let wanted = String::from_str(name);
    *tag == wanted
}

impl Kind {
    /// Reads the body that `doc` holds under the tag `tag`.
    pub fn from_json(tag: &String, doc: &Json) -> (body: Option<Kind>)
        ensures
            kind_of(body) == body_from(tag@, doc@),
    {
        if tag_is(tag, "restore") {
            match doc.array_member("invalidTokens") {
                Some(items) => {
                    let ghost values = doc@.array_member("invalidTokens"@).unwrap();
                    match read_texts(items) {
                        Some(invalid_tokens) => {
                            proof {
                                assert forall|i: int| 0 <= i < values.len() implies (
                                #[trigger] values[i]).text().is_some() by {
                                    assert(values[i] == items@[i]@);
                                }
                                assert(texts(invalid_tokens@) =~= texts_from(values).unwrap());
                            }
                            Some(Kind::RestoreToken(RestoreToken { invalid_tokens }))
                        },
                        None => {
                            proof {
                                let k = choose|k: int|
                                    0 <= k < items@.len() && (
                                    #[trigger] items@[k]@).text().is_none();
                                assert(values[k] == items@[k]@);
                            }
                            None
                        },
                    }
                },
                None => None,
            }
        } else if tag_is(tag, "checkServer") {
            match read_uuid(doc, "uuid") {
                Some(uuid) => Some(Kind::CheckServer(CheckServer { uuid })),
                None => None,
            }
        } else if tag_is(tag, "profileByUUID") {
            match doc.get("playerProfile") {
                Some(inner) => match Profile::from_json(inner) {
                    Some(player_profile) => Some(
                        Kind::GetProfileByUuid(GetProfileByUuid { player_profile }),
                    ),
                    None => None,
                },
                None => None,
            }
        } else if tag_is(tag, "profileByUsername") {
            match doc.get("playerProfile") {
                Some(inner) => match Profile::from_json(inner) {
                    Some(player_profile) => Some(
                        Kind::GetProfileByUsername(GetProfileByUsername { player_profile }),
                    ),
                    None => None,
                },
                None => None,
            }
        } else if tag_is(tag, "batchProfileByUsername") {
            match doc.array_member("playerProfiles") {
                Some(items) => {
                    let ghost values = doc@.array_member("playerProfiles"@).unwrap();
                    match read_profiles(items) {
                        Some(player_profiles) => {
                            proof {
                                assert forall|i: int| 0 <= i < values.len() implies (
                                #[trigger] entry_from(values[i])).is_some() by {
                                    assert(values[i] == items@[i]@);
                                }
                                assert(profiles(player_profiles@) =~= profiles_from(
                                    values,
                                ).unwrap());
                            }
                            Some(
                                Kind::BatchProfilesByUsernames(
                                    BatchProfilesByUsernames { player_profiles },
                                ),
                            )
                        },
                        None => {
                            proof {
                                let k = choose|k: int|
                                    0 <= k < items@.len() && (#[trigger] entry_from(
                                        items@[k]@,
                                    )).is_none();
                                assert(values[k] == items@[k]@);
                            }
                            None
                        },
                    }
                },
                None => None,
            }
        } else if tag_is(tag, "error") {
            match doc.text_member("kind") {
                Some(name) => Some(Kind::Error(Error { kind: read_error_kind(name) })),
                None => None,
            }
        } else {
            None
        }
    }
}

/// Reads a reply from a document.
pub fn from_json(doc: &Json) -> (reply: Option<Any>)
    ensures
        response_of(reply) == response_from(doc@),
{
    let id = match read_uuid(doc, "requestUUID") {
        Some(id) => id,
        None => {
            return None;
        },
    };
    let tag = match doc.text_member("type") {
        Some(tag) => tag,
        None => {
            return None;
        },
    };
    match Kind::from_json(tag, doc) {
        Some(body) => Some(Response { id, body }),
        None => None,
    }
}

/// Reads a reply from the text of a frame. A text that is not JSON, or not a
/// reply, gives `None`.
pub fn decode(text: &str) -> (reply: Option<Any>)
    ensures
        response_of(reply) == decoded(text@),
{
    match parse(text) {
        Some(doc) => from_json(&doc),
        None => None,
    }
}

} // verus!
