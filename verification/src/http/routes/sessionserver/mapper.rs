//! From a backend profile to the Yggdrasil profile with its `textures`
//! property: the textures object as JSON, base64 over it, and, where asked for,
//! an RSA signature over the base64 text.
use crate::encoding::{
    base64,
    base64_decoded,
    encode_block,
    fits_block,
    lemma_base64_len,
    lemma_base64_round_trip,
    MAX_BLOCK,
};
use crate::http::dto::response as dto;
use crate::identifier::{simple, simple_text};
use crate::launchserver::types::profile;
use crate::signing;
use openssl::pkey::Private;
use openssl::rsa::Rsa;
use vstd::prelude::*;
use vstd::string::StringExecFns;
use vstd::utf8::{decode_utf8, encode_utf8, encode_utf8_decode_utf8};

verus! {

/// Why a profile could not be mapped.
#[derive(Clone, Copy, Debug, PartialEq, Eq, Structural)]
pub enum Error {
    /// A string of the profile has no JSON form.
    Unencodable,
    /// The text to encode is longer than a base64 block can be.
    TooLarge,
    /// The key did not sign the value.
    Unsigned,
}

/// The emitted skin: the address as it is, `metadata` only for the slim model.
pub open spec fn skin_of(skin: profile::SkinView) -> dto::SkinView {
    dto::SkinView {
        url: skin.url,
        metadata: match skin.metadata {
            Some(metadata) => match metadata.model {
                profile::Model::Default => None,
                profile::Model::Slim => Some(dto::Metadata { model: dto::Model::Slim }),
            },
            None => None,
        },
    }
}

/// The textures object of a profile at the time `now`, in milliseconds.
pub open spec fn textures_of(profile: profile::ProfileView, now: u128, signed: bool)
    -> dto::TexturesView {
    dto::TexturesView {
        timestamp: now,
        profile_id: simple_text(profile.uuid),
        profile_name: profile.username,
        signature_required: signed,
        skin: match profile.skin {
            Some(skin) => Some(skin_of(skin)),
            None => None,
        },
        cape: match profile.cape {
            Some(cape) => Some(cape.url),
            None => None,
        },
    }
}

/// The value of the property: base64 over the UTF-8 bytes of the JSON text.
pub open spec fn value_of(textures: dto::TexturesView) -> Seq<char> {
    base64(encode_utf8(textures.text()))
}

/// The signature over a property value: base64 over the RSA block of the
/// value's own bytes, not of the JSON beneath it.
pub open spec fn signature_of(key: Rsa<Private>, value: Seq<char>) -> Result<Seq<char>, Error> {
    match signing::signed(key, encode_utf8(value)) {
        Ok(block) => if fits_block(block.len()) {
            Ok(base64(block))
        } else {
            Err(Error::TooLarge)
        },
        Err(_) => Err(Error::Unsigned),
    }
}

/// The emitted profile around a finished property.
pub open spec fn assembled(
    profile: profile::ProfileView,
    value: Seq<char>,
    signature: Option<Seq<char>>,
) -> dto::ProfileView {
    dto::ProfileView {
        id: simple_text(profile.uuid),
        name: profile.username,
        properties: seq![dto::PropertyView { name: "textures"@, value, signature }],
    }
}

/// What [`map_profile`] returns.
pub open spec fn mapped(profile: profile::ProfileView, key: Rsa<Private>, now: u128, signed: bool)
    -> Result<dto::ProfileView, Error> {
    let textures = textures_of(profile, now, signed);
    if !textures.encodable() {
        Err(Error::Unencodable)
    } else if !fits_block(encode_utf8(textures.text()).len()) {
        Err(Error::TooLarge)
    } else if !signed {
        Ok(assembled(profile, value_of(textures), None))
    } else {
        match signature_of(key, value_of(textures)) {
            Ok(signature) => Ok(assembled(profile, value_of(textures), Some(signature))),
            Err(e) => Err(e),
        }
    }
}

/// The value of an outcome.
pub open spec fn outcome_of(outcome: Result<dto::Profile, Error>) -> Result<
    dto::ProfileView,
    Error,
> {
    match outcome {
        Ok(profile) => Ok(profile@),
        Err(e) => Err(e),
    }
}

/// The text of an outcome.
pub open spec fn text_outcome(outcome: Result<String, Error>) -> Result<Seq<char>, Error> {
    match outcome {
        Ok(text) => Ok(text@),
        Err(e) => Err(e),
    }
}

fn emitted_skin(skin: &profile::Skin) -> (out: dto::Skin)
    ensures
        out@ == skin_of(skin@),
{
    let metadata = match skin.metadata {
        Some(metadata) => match metadata.model {
            profile::Model::Default => None,
            profile::Model::Slim => Some(dto::Metadata { model: dto::Model::Slim }),
        },
        None => None,
    };
    dto::Skin { url: skin.url.clone(), metadata }
}

/// Builds the textures object of a profile: the time stamp, the unhyphenated
/// identifier, the name as it is, the flag, and the textures that the profile
/// has.
pub fn textures(profile: &profile::Profile, now: u128, signed: bool) -> (out: dto::Textures)
    ensures
        out@ == textures_of(profile@, now, signed),
{
    let skin = match &profile.assets.skin {
        Some(skin) => Some(emitted_skin(skin)),
        None => None,
    };
    let cape = match &profile.assets.cape {
        Some(cape) => Some(dto::Cape { url: cape.url.clone() }),
        None => None,
    };
    dto::Textures {
        timestamp: now,
        profile_id: simple(profile.uuid),
        profile_name: profile.username.clone(),
        signature_required: signed,
        textures: dto::Kind { skin, cape },
    }
}

/// Signs a property value and encodes the signature.
pub fn signature(key: &Rsa<Private>, value: &str) -> (out: Result<String, Error>)
    ensures
        text_outcome(out) == signature_of(*key, value@),
        out matches Ok(text) ==> base64_decoded(text@) matches Some(block) && block.len()
            == signing::modulus_bytes(*key),
{
    match signing::sign(key, value.as_bytes()) {
        Ok(block) => {
            if block.len() > MAX_BLOCK {
                return Err(Error::TooLarge);
            }
            proof {
                lemma_base64_round_trip(block@);
            }
            Ok(encode_block(block.as_slice()))
        },
        Err(_) => Err(Error::Unsigned),
    }
}

/// Puts the emitted profile together from the backend profile and the finished
/// property.
pub fn assemble(profile: profile::Profile, value: String, signature: Option<String>) -> (out:
    dto::Profile)
    ensures
        out@ == assembled(profile@, value@, crate::json::text_of(signature)),
{
    let ghost before = profile@;
    let mut properties: Vec<dto::Property> = Vec::new();
    properties.push(dto::Property { name: String::from_str("textures"), value, signature });
    let out = dto::Profile { id: simple(profile.uuid), name: profile.username, properties };
    proof {
        assert(out@.properties =~= assembled(
            before,
            value@,
            crate::json::text_of(signature),
        ).properties);
    }
    out
}

/// Maps a backend profile to the profile a client expects.
///
/// `now` is the time since the epoch in milliseconds. The only property is
/// `textures`; it carries a signature exactly when `signed` is set.
pub fn map_profile(profile: profile::Profile, rsa: &Rsa<Private>, now: u128, signed: bool) -> (out:
    Result<dto::Profile, Error>)
    ensures
        outcome_of(out) == mapped(profile@, *rsa, now, signed),
{
    let object = textures(&profile, now, signed);
    let text = match object.to_json() {
        Some(text) => text,
        None => {
            return Err(Error::Unencodable);
        },
    };
    let bytes = text.as_str().as_bytes();
    if bytes.len() > MAX_BLOCK {
        return Err(Error::TooLarge);
    }
    let value = encode_block(bytes);
    if signed {
        match signature(rsa, value.as_str()) {
            Ok(signed_value) => Ok(assemble(profile, value, Some(signed_value))),
            Err(e) => Err(e),
        }
    } else {
        Ok(assemble(profile, value, None))
    }
}

/// Whatever the profile, key, time and flag: the emitted `id` is the 32-digit
/// unhyphenated form of the profile's identifier, the name is the profile's, and
/// the value of the one property, `textures`, base64-decodes to the UTF-8 text
/// of the JSON of a textures object whose `profileId` is that `id`, whose
/// `profileName` is the profile's name, whose `signatureRequired` is the flag
/// and whose `timestamp` is the time.
pub proof fn law_value_describes_profile(
    profile: profile::ProfileView,
    key: Rsa<Private>,
    now: u128,
    signed: bool,
)
    ensures
        mapped(profile, key, now, signed) matches Ok(out) ==> {
            let object = textures_of(profile, now, signed);
            &&& out.id == simple_text(profile.uuid)
            &&& out.id.len() == 32
            &&& out.name == profile.username
            &&& out.properties.len() == 1
            &&& out.properties[0].name == "textures"@
            &&& object.json() == Some(object.text())
            &&& base64_decoded(out.properties[0].value) == Some(encode_utf8(object.text()))
            &&& decode_utf8(base64_decoded(out.properties[0].value).unwrap()) == object.text()
            &&& object.timestamp == now
            &&& object.profile_id == out.id
            &&& object.profile_name == profile.username
            &&& object.signature_required == signed
        },
{
    crate::identifier::lemma_hex_lower_len(profile.uuid as nat, 32);
    let object = textures_of(profile, now, signed);
    lemma_base64_round_trip(encode_utf8(object.text()));
    encode_utf8_decode_utf8(object.text());
}

/// The textures object behind the value has a skin exactly when the profile has
/// one, and a cape exactly when the profile has one; a skin carries `metadata`
/// exactly when the profile's skin is of the slim model. Its JSON text names
/// `SKIN` and `CAPE` accordingly: both, one of them, or neither.
pub proof fn law_textures_follow_assets(profile: profile::ProfileView, now: u128, signed: bool)
    ensures
        ({
            let object = textures_of(profile, now, signed);
            &&& object.skin.is_some() == profile.skin.is_some()
            &&& object.cape.is_some() == profile.cape.is_some()
            &&& profile.skin matches Some(skin) ==> {
                &&& object.skin.unwrap().url == skin.url
                &&& object.skin.unwrap().metadata.is_some() == (skin.metadata
                    == Some(profile::Metadata { model: profile::Model::Slim }))
            }
            &&& profile.cape matches Some(cape) ==> object.cape == Some(cape.url)
            &&& object.kinds_text() == match (profile.skin, profile.cape) {
                (Some(skin), Some(cape)) => skin_of(skin).text() + ","@ + dto::cape_text(cape.url),
                (Some(skin), None) => skin_of(skin).text(),
                (None, Some(cape)) => dto::cape_text(cape.url),
                (None, None) => Seq::empty(),
            }
        }),
{
}

/// The property carries a signature exactly when one is asked for, and a
/// signature base64-decodes to a block of exactly as many bytes as the key's
/// modulus has: the block that the key makes of the value's own bytes.
pub proof fn law_signature_when_signed(
    profile: profile::ProfileView,
    key: Rsa<Private>,
    now: u128,
    signed: bool,
)
    ensures
        mapped(profile, key, now, signed) matches Ok(out) ==> {
            &&& out.properties[0].signature.is_some() == signed
            &&& out.properties[0].signature matches Some(text) ==> {
                &&& base64_decoded(text) matches Some(block)
                &&& block.len() == signing::modulus_bytes(key)
                &&& signing::signed(key, encode_utf8(out.properties[0].value)) == Ok::<
                    Seq<u8>,
                    signing::Error,
                >(block)
                &&& text.len() == 4 * ((signing::modulus_bytes(key) + 2) / 3)
            }
        },
{
    if let Ok(out) = mapped(profile, key, now, signed) {
        if signed {
            let value = value_of(textures_of(profile, now, signed));
            let block = signing::signed(key, encode_utf8(value)).unwrap();
            lemma_base64_len(block);
            lemma_base64_round_trip(block);
        }
    }
}

} // verus!
