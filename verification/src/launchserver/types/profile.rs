//! A player's profile as the backend reports it.
use crate::address::{normalize, normalized};
use crate::identifier::{parse, parsed_uuid};
use crate::json::{Json, JsonValue};
use vstd::prelude::*;
use vstd::string::StringExecFns;

verus! {

/// The texture model of a skin.
#[derive(Clone, Copy, Debug, PartialEq, Eq, Structural)]
pub enum Model {
    Default,
    Slim,
}

/// What the backend says about a skin beyond its address.
#[derive(Clone, Copy, Debug, PartialEq, Eq, Structural)]
pub struct Metadata {
    pub model: Model,
}

/// A skin texture.
#[derive(Debug)]
pub struct Skin {
    /// The address of the texture, in normal form.
    pub url: String,
    pub digest: Option<String>,
    pub metadata: Option<Metadata>,
}

/// A cape texture.
#[derive(Debug)]
pub struct Cape {
    /// The address of the texture, in normal form.
    pub url: String,
    pub digest: Option<String>,
}

/// The textures of a profile; each may be missing.
#[derive(Debug)]
pub struct Assets {
    pub skin: Option<Skin>,
    pub cape: Option<Cape>,
}

/// A player's profile.
#[derive(Debug)]
pub struct Profile {
    pub uuid: u128,
    pub username: String,
    pub assets: Assets,
}

/// The value of a [`Skin`].
pub struct SkinView {
    pub url: Seq<char>,
    pub digest: Option<Seq<char>>,
    pub metadata: Option<Metadata>,
}

/// The value of a [`Cape`].
pub struct CapeView {
    pub url: Seq<char>,
    pub digest: Option<Seq<char>>,
}

/// The value of a [`Profile`].
pub struct ProfileView {
    pub uuid: u128,
    pub username: Seq<char>,
    pub skin: Option<SkinView>,
    pub cape: Option<CapeView>,
}

impl View for Skin {
    type V = SkinView;

    open spec fn view(&self) -> SkinView {
        SkinView {
            url: self.url@,
            digest: crate::json::text_of(self.digest),
            metadata: self.metadata,
        }
    }
}

impl View for Cape {
    type V = CapeView;

    open spec fn view(&self) -> CapeView {
        CapeView { url: self.url@, digest: crate::json::text_of(self.digest) }
    }
}

impl View for Profile {
    type V = ProfileView;

    open spec fn view(&self) -> ProfileView {
        ProfileView {
            uuid: self.uuid,
            username: self.username@,
            skin: match self.assets.skin {
                Some(skin) => Some(skin@),
                None => None,
            },
            cape: match self.assets.cape {
                Some(cape) => Some(cape@),
                None => None,
            },
        }
    }
}

/// The value of an optional profile.
pub open spec fn profile_of(profile: Option<Profile>) -> Option<ProfileView> {
    match profile {
        Some(p) => Some(p@),
        None => None,
    }
}

/// The value of an optional skin.
pub open spec fn skin_of(skin: Option<Skin>) -> Option<SkinView> {
    match skin {
        Some(s) => Some(s@),
        None => None,
    }
}

/// The value of an optional cape.
pub open spec fn cape_of(cape: Option<Cape>) -> Option<CapeView> {
    match cape {
        Some(c) => Some(c@),
        None => None,
    }
}

/// The identifier in the member `name`, where that member is a string that
/// reads as one.
pub open spec fn uuid_member(doc: JsonValue, name: Seq<char>) -> Option<u128> {
    match doc.text_member(name) {
        Some(text) => parsed_uuid(text),
        None => None,
    }
}

/// The address in the member `url`, in normal form.
pub open spec fn url_from(doc: JsonValue) -> Option<Seq<char>> {
    match doc.text_member("url"@) {
        Some(text) => normalized(text),
        None => None,
    }
}

/// The member `digest`: absent or `null`, or a string. The outer `None` stands
/// for anything else.
pub open spec fn digest_from(doc: JsonValue) -> Option<Option<Seq<char>>> {
    match doc.optional("digest"@) {
        None => Some(None),
        Some(value) => match value.text() {
            Some(text) => Some(Some(text)),
            None => None,
        },
    }
}

/// The model that a name stands for.
pub open spec fn model_from(name: Seq<char>) -> Option<Model> {
    if name == "Default"@ {
        Some(Model::Default)
    } else if name == "Slim"@ {
        Some(Model::Slim)
    } else {
        None
    }
}

/// The member `metadata`: absent or `null`, or an object whose `model` names a
/// model. The outer `None` stands for anything else.
pub open spec fn metadata_from(doc: JsonValue) -> Option<Option<Metadata>> {
    match doc.optional("metadata"@) {
        None => Some(None),
        Some(value) => match value.text_member("model"@) {
            Some(name) => match model_from(name) {
                Some(model) => Some(Some(Metadata { model })),
                None => None,
            },
            None => None,
        },
    }
}

/// The skin that an object describes.
pub open spec fn skin_from(doc: JsonValue) -> Option<SkinView> {
    match (url_from(doc), digest_from(doc), metadata_from(doc)) {
        (Some(url), Some(digest), Some(metadata)) => Some(SkinView { url, digest, metadata }),
        _ => None,
    }
}

/// The cape that an object describes.
pub open spec fn cape_from(doc: JsonValue) -> Option<CapeView> {
    match (url_from(doc), digest_from(doc)) {
        (Some(url), Some(digest)) => Some(CapeView { url, digest }),
        _ => None,
    }
}

/// The member `skin` of the assets: absent or `null`, or a skin.
pub open spec fn skin_member(assets: JsonValue) -> Option<Option<SkinView>> {
    match assets.optional("skin"@) {
        None => Some(None),
        Some(value) => match skin_from(value) {
            Some(skin) => Some(Some(skin)),
            None => None,
        },
    }
}

/// The member `cape` of the assets: absent or `null`, or a cape.
pub open spec fn cape_member(assets: JsonValue) -> Option<Option<CapeView>> {
    match assets.optional("cape"@) {
        None => Some(None),
        Some(value) => match cape_from(value) {
            Some(cape) => Some(Some(cape)),
            None => None,
        },
    }
}

/// The profile that an object describes: `uuid`, `username` and `assets`, the
/// last an object with an optional `skin` and an optional `cape`.
pub open spec fn profile_from(doc: JsonValue) -> Option<ProfileView> {
    match (uuid_member(doc, "uuid"@), doc.text_member("username"@), doc.get("assets"@)) {
        (Some(uuid), Some(username), Some(assets)) => if assets is Object {
            match (skin_member(assets), cape_member(assets)) {
                (Some(skin), Some(cape)) => Some(ProfileView { uuid, username, skin, cape }),
                _ => None,
            }
        } else {
            None
        },
        _ => None,
    }
}

/// Reads the identifier in the member `name`.
pub fn read_uuid(doc: &Json, name: &str) -> (id: Option<u128>)
    ensures
        id == uuid_member(doc@, name@),
{
    match doc.text_member(name) {
        Some(text) => parse(text.as_str()),
        None => None,
    }
}

fn read_url(doc: &Json) -> (url: Option<String>)
    ensures
        crate::json::text_of(url) == url_from(doc@),
{
    match doc.text_member("url") {
        Some(text) => normalize(text.as_str()),
        None => None,
    }
}

fn read_digest(doc: &Json) -> (digest: Option<Option<String>>)
    ensures
        match digest {
            Some(inner) => digest_from(doc@) == Some(crate::json::text_of(inner)),
            None => digest_from(doc@).is_none(),
        },
{
    match doc.optional("digest") {
        None => Some(None),
        Some(value) => match value.as_text() {
            Some(text) => Some(Some(text.clone())),
            None => None,
        },
    }
}

fn read_model(name: &String) -> (model: Option<Model>)
    ensures
        model == model_from(name@),
{
    let default = String::from_str("Default");
    let slim = String::from_str("Slim");
    if *name == default {
        Some(Model::Default)
    } else if *name == slim {
        Some(Model::Slim)
    } else {
        None
    }
}

fn read_metadata(doc: &Json) -> (metadata: Option<Option<Metadata>>)
    ensures
        metadata == metadata_from(doc@),
{
    match doc.optional("metadata") {
        None => Some(None),
        Some(value) => match value.text_member("model") {
            Some(name) => match read_model(name) {
                Some(model) => Some(Some(Metadata { model })),
                None => None,
            },
            None => None,
        },
    }
}

impl Skin {
    /// Reads a skin from the object that describes it.
    pub fn from_json(doc: &Json) -> (skin: Option<Skin>)
        ensures
            skin_of(skin) == skin_from(doc@),
    {
        let url = match read_url(doc) {
            Some(url) => url,
            None => {
                return None;
            },
        };
        let digest = match read_digest(doc) {
            Some(digest) => digest,
            None => {
                return None;
            },
        };
        let metadata = match read_metadata(doc) {
            Some(metadata) => metadata,
            None => {
                return None;
            },
        };
        Some(Skin { url, digest, metadata })
    }
}

impl Cape {
    /// Reads a cape from the object that describes it.
    pub fn from_json(doc: &Json) -> (cape: Option<Cape>)
        ensures
            cape_of(cape) == cape_from(doc@),
    {
        let url = match read_url(doc) {
            Some(url) => url,
            None => {
                return None;
            },
        };
        let digest = match read_digest(doc) {
            Some(digest) => digest,
            None => {
                return None;
            },
        };
        Some(Cape { url, digest })
    }
}

impl Profile {
    /// Reads a profile from the object that describes it. Members that are not
    /// named here are passed over.
    pub fn from_json(doc: &Json) -> (profile: Option<Profile>)
        ensures
            profile_of(profile) == profile_from(doc@),
    {
        let uuid = match read_uuid(doc, "uuid") {
            Some(uuid) => uuid,
            None => {
                return None;
            },
        };
        let username = match doc.text_member("username") {
            Some(username) => username.clone(),
            None => {
                return None;
            },
        };
        let assets = match doc.get("assets") {
            Some(assets) => assets,
            None => {
                return None;
            },
        };
        match assets {
            Json::Object(_) => {},
            _ => {
                return None;
            },
        }
        let skin = match assets.optional("skin") {
            None => None,
            Some(value) => match Skin::from_json(value) {
                Some(skin) => Some(skin),
                None => {
                    return None;
                },
            },
        };
        let cape = match assets.optional("cape") {
            None => None,
            Some(value) => match Cape::from_json(value) {
                Some(cape) => Some(cape),
                None => {
                    return None;
                },
            },
        };
        Some(Profile { uuid, username, assets: Assets { skin, cape } })
    }
}

} // verus!
