//! Yggdrasil profiles and the textures object inside their `textures` property.
use crate::encoding::{decimal, push_decimal};
use crate::json::{quote, quoted, text_of};
use crate::launchserver::types::request::bool_text;
use vstd::prelude::*;
use vstd::string::StringExecFns;

verus! {

/// A profile as a Minecraft client reads it.
#[derive(Debug)]
pub struct Profile {
    /// The identifier, 32 hexadecimal digits without hyphens.
    pub id: String,
    pub name: String,
    pub properties: Vec<Property>,
}

/// A named value of a profile, with the signature over the value if it is signed.
#[derive(Debug)]
pub struct Property {
    pub name: String,
    pub value: String,
    pub signature: Option<String>,
}

/// The object that the value of the `textures` property encodes.
#[derive(Debug)]
pub struct Textures {
    /// Milliseconds since the epoch.
    pub timestamp: u128,
    pub profile_id: String,
    pub profile_name: String,
    pub signature_required: bool,
    pub textures: Kind,
}

/// The textures of a profile, each of them optional.
#[derive(Debug)]
pub struct Kind {
    pub skin: Option<Skin>,
    pub cape: Option<Cape>,
}

/// A skin: its address, and its model if that is not the default one.
#[derive(Debug)]
pub struct Skin {
    pub url: String,
    pub metadata: Option<Metadata>,
}

/// What is said about a skin beyond its address.
#[derive(Clone, Copy, Debug, PartialEq, Eq, Structural)]
pub struct Metadata {
    pub model: Model,
}

/// The only model that is ever written down; the default one is left out.
#[derive(Clone, Copy, Debug, PartialEq, Eq, Structural)]
pub enum Model {
    Slim,
}

/// A cape: its address.
#[derive(Debug)]
pub struct Cape {
    pub url: String,
}

/// The value of a [`Property`].
pub struct PropertyView {
    pub name: Seq<char>,
    pub value: Seq<char>,
    pub signature: Option<Seq<char>>,
}

/// The value of a [`Profile`].
pub struct ProfileView {
    pub id: Seq<char>,
    pub name: Seq<char>,
    pub properties: Seq<PropertyView>,
}

/// The value of a [`Skin`].
pub struct SkinView {
    pub url: Seq<char>,
    pub metadata: Option<Metadata>,
}

/// The value of a [`Textures`].
pub struct TexturesView {
    pub timestamp: u128,
    pub profile_id: Seq<char>,
    pub profile_name: Seq<char>,
    pub signature_required: bool,
    pub skin: Option<SkinView>,
    pub cape: Option<Seq<char>>,
}

impl View for Property {
    type V = PropertyView;

    open spec fn view(&self) -> PropertyView {
        PropertyView { name: self.name@, value: self.value@, signature: text_of(self.signature) }
    }
}

impl View for Profile {
    type V = ProfileView;

    open spec fn view(&self) -> ProfileView {
        ProfileView {
            id: self.id@,
            name: self.name@,
            properties: Seq::new(self.properties@.len(), |i: int| self.properties@[i]@),
        }
    }
}

impl View for Skin {
    type V = SkinView;

    open spec fn view(&self) -> SkinView {
        SkinView { url: self.url@, metadata: self.metadata }
    }
}

impl View for Textures {
    type V = TexturesView;

    open spec fn view(&self) -> TexturesView {
        TexturesView {
            timestamp: self.timestamp,
            profile_id: self.profile_id@,
            profile_name: self.profile_name@,
            signature_required: self.signature_required,
            skin: match self.textures.skin {
                Some(skin) => Some(skin@),
                None => None,
            },
            cape: match self.textures.cape {
                Some(cape) => Some(cape.url@),
                None => None,
            },
        }
    }
}

impl SkinView {
    /// Whether the address can be written as a JSON string.
    pub open spec fn encodable(self) -> bool {
        quoted(self.url).is_some()
    }

    /// The member `"SKIN":{..}`: the address, and the model where there is one.
    pub open spec fn text(self) -> Seq<char> {
        "\"SKIN\":{\"url\":"@ + quoted(self.url).unwrap() + (match self.metadata {
            Some(_) => ",\"metadata\":{\"model\":\"slim\"}}"@,
            None => "}"@,
        })
    }
}

/// The member `"CAPE":{..}` for the address of a cape.
pub open spec fn cape_text(url: Seq<char>) -> Seq<char> {
    "\"CAPE\":{\"url\":"@ + quoted(url).unwrap() + "}"@
}

impl TexturesView {
    /// Whether every string in the object can be written as a JSON string.
    pub open spec fn encodable(self) -> bool {
        &&& quoted(self.profile_id).is_some()
        &&& quoted(self.profile_name).is_some()
        &&& self.skin matches Some(skin) ==> skin.encodable()
        &&& self.cape matches Some(url) ==> quoted(url).is_some()
    }

    /// The members of the inner `textures` object: the skin, then the cape, each
    /// only if it is there.
    pub open spec fn kinds_text(self) -> Seq<char> {
        match (self.skin, self.cape) {
            (Some(skin), Some(url)) => skin.text() + ","@ + cape_text(url),
            (Some(skin), None) => skin.text(),
            (None, Some(url)) => cape_text(url),
            (None, None) => Seq::empty(),
        }
    }

    /// The object as compact JSON, members in the order of the fields.
    pub open spec fn text(self) -> Seq<char> {
        "{\"timestamp\":"@ + decimal(self.timestamp as nat) + ",\"profileId\":"@ + quoted(
            self.profile_id,
        ).unwrap() + ",\"profileName\":"@ + quoted(self.profile_name).unwrap()
            + ",\"signatureRequired\":"@ + bool_text(self.signature_required) + ",\"textures\":{"@
            + self.kinds_text() + "}}"@
    }

    /// The JSON text, where there is one.
    pub open spec fn json(self) -> Option<Seq<char>> {
        if self.encodable() {
            Some(self.text())
        } else {
            None
        }
    }
}

impl Skin {
    fn push(&self, out: &mut String) -> (done: bool)
        ensures
            done == self@.encodable(),
            done ==> final(out)@ == old(out)@ + self@.text(),
    {
        out.append("\"SKIN\":{\"url\":");
        match quote(self.url.as_str()) {
            Some(url) => {
                out.append(url.as_str());
            },
            None => {
                return false;
            },
        }
        match self.metadata {
            Some(_) => {
                out.append(",\"metadata\":{\"model\":\"slim\"}}");
            },
            None => {
                out.append("}");
            },
        }
        proof {
            assert(out@ =~= old(out)@ + self@.text());
        }
        true
    }
}

impl Cape {
    fn push(&self, out: &mut String) -> (done: bool)
        ensures
            done == quoted(self.url@).is_some(),
            done ==> final(out)@ == old(out)@ + cape_text(self.url@),
    {
        out.append("\"CAPE\":{\"url\":");
        match quote(self.url.as_str()) {
            Some(url) => {
                out.append(url.as_str());
            },
            None => {
                return false;
            },
        }
        out.append("}");
        proof {
            assert(out@ =~= old(out)@ + cape_text(self.url@));
        }
        true
    }
}

impl Textures {
    /// The object as compact JSON: `timestamp`, `profileId`, `profileName`,
    /// `signatureRequired` and `textures`, in which `SKIN` and `CAPE` stand only
    /// if the profile has them, and `metadata` only for a slim skin.
    ///
    /// `None` exactly when one of the strings has no JSON form.
    pub fn to_json(&self) -> (text: Option<String>)
        ensures
            text_of(text) == self@.json(),
    {
        let id = match quote(self.profile_id.as_str()) {
            Some(id) => id,
            None => {
                return None;
            },
        };
        let name = match quote(self.profile_name.as_str()) {
            Some(name) => name,
            None => {
                return None;
            },
        };
        let mut out = String::from_str("{\"timestamp\":");
        push_decimal(&mut out, self.timestamp);
        out.append(",\"profileId\":");
        out.append(id.as_str());
        out.append(",\"profileName\":");
        out.append(name.as_str());
        out.append(",\"signatureRequired\":");
        if self.signature_required {
            out.append("true");
        } else {
            out.append("false");
        }
        out.append(",\"textures\":{");
        let ghost head = out@;
        match &self.textures.skin {
            Some(skin) => {
                if !skin.push(&mut out) {
                    return None;
                }
                match &self.textures.cape {
                    Some(cape) => {
                        out.append(",");
                        if !cape.push(&mut out) {
                            return None;
                        }
                    },
                    None => {},
                }
            },
            None => {
                match &self.textures.cape {
                    Some(cape) => {
                        if !cape.push(&mut out) {
                            return None;
                        }
                    },
                    None => {},
                }
            },
        }
        proof {
            assert(out@ =~= head + self@.kinds_text());
        }
        out.append("}}");
        proof {
            assert(out@ =~= self@.text());
        }
        Some(out)
    }
}

} // verus!
