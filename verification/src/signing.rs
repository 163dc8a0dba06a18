//! RSA signing with the private key of the deployment.
use openssl::error::ErrorStack;
use openssl::pkey::Private;
use openssl::rsa::{Padding, Rsa};
use vstd::prelude::*;

verus! {

/// `openssl::rsa::Rsa`, an RSA key; it is carried through as it is.
#[verifier::external_type_specification]
#[verifier::external_body]
#[verifier::reject_recursive_types(T)]
pub struct ExRsa<T>(Rsa<T>);

/// `openssl::pkey::Private`, the mark of a key with private components.
#[verifier::external_type_specification]
#[verifier::external_body]
pub struct ExPrivate(Private);

/// `openssl::error::ErrorStack`, the errors that OpenSSL reports.
#[verifier::external_type_specification]
#[verifier::external_body]
pub struct ExErrorStack(ErrorStack);

/// The length of a key's modulus in bytes.
pub uninterp spec fn modulus_bytes(key: Rsa<Private>) -> nat;

/// What `private_encrypt` with PKCS#1 v1.5 padding makes of `data` under `key`,
/// into a buffer as long as the modulus: the count it returns and the buffer it
/// leaves. `None` where it reports an error.
pub uninterp spec fn private_encrypted(key: Rsa<Private>, data: Seq<u8>) -> Option<
    (usize, Seq<u8>),
>;

/// The signature block of `data`: what [`private_encrypted`] leaves in a buffer
/// as long as the modulus, where it fills that buffer to the last byte.
pub open spec fn signature_block(key: Rsa<Private>, data: Seq<u8>) -> Option<Seq<u8>> {
    match private_encrypted(key, data) {
        Some((written, block)) => if written == modulus_bytes(key) && block.len()
            == modulus_bytes(key) {
            Some(block)
        } else {
            None
        },
        None => None,
    }
}

/// Calls `Rsa::size`, the length of the modulus in bytes.
#[verifier::external_body]
fn modulus_size(key: &Rsa<Private>) -> (size: u32)
    ensures
        size == modulus_bytes(*key),
{
    key.size()
}

/// Calls `Rsa::private_encrypt` with `Padding::PKCS1`. It panics on an input
/// longer than `i32::MAX` and on a buffer shorter than the modulus, which
/// `requires` leaves out. It writes into `to` and keeps its length; what it
/// returns and leaves there depends on the key and the data alone.
#[verifier::external_body]
fn private_encrypt(key: &Rsa<Private>, from: &[u8], to: &mut Vec<u8>) -> (written: Result<
    usize,
    ErrorStack,
>)
    requires
        from@.len() <= i32::MAX,
        old(to)@.len() == modulus_bytes(*key),
    ensures
        final(to)@.len() == old(to)@.len(),
        match written {
            Ok(count) => private_encrypted(*key, from@) == Some((count, final(to)@)),
            Err(_) => private_encrypted(*key, from@).is_none(),
        },
{
    key.private_encrypt(from, to.as_mut_slice(), Padding::PKCS1)
}

/// Calls `Rsa::clone`, which hands out one more handle to the same key.
#[verifier::external_body]
pub(crate) fn share(key: &Rsa<Private>) -> (copy: Rsa<Private>)
    ensures
        copy == *key,
{
    key.clone()
}

/// Why a signature could not be made.
#[derive(Clone, Copy, Debug, PartialEq, Eq, Structural)]
pub enum Error {
    /// The data is longer than the key can be given at once.
    TooLong,
    /// The key did not produce a block as long as its modulus.
    Rejected,
}

/// The outcome of signing `data` with `key`.
pub open spec fn signed(key: Rsa<Private>, data: Seq<u8>) -> Result<Seq<u8>, Error> {
    if data.len() > i32::MAX {
        Err(Error::TooLong)
    } else {
        match signature_block(key, data) {
            Some(block) => Ok(block),
            None => Err(Error::Rejected),
        }
    }
}

/// The bytes of an outcome.
pub open spec fn bytes_of(outcome: Result<Vec<u8>, Error>) -> Result<Seq<u8>, Error> {
    match outcome {
        Ok(block) => Ok(block@),
        Err(e) => Err(e),
    }
}

/// Signs `data` with the private key: PKCS#1 v1.5 padding, into a buffer of
/// exactly the modulus length.
///
/// A block comes back only if the key filled that buffer, so every signature is
/// as long as the modulus.
pub fn sign(key: &Rsa<Private>, data: &[u8]) -> (outcome: Result<Vec<u8>, Error>)
    ensures
        bytes_of(outcome) == signed(*key, data@),
        outcome matches Ok(block) ==> block@.len() == modulus_bytes(*key),
{
    if data.len() > 0x7fff_ffff {
        return Err(Error::TooLong);
    }
    let size = modulus_size(key);
    let mut block: Vec<u8> = Vec::new();
    let mut filled: u32 = 0;
    while filled < size
        invariant
            filled <= size,
            block@.len() == filled,
        decreases size - filled,
    {
        block.push(0u8);
        filled = filled + 1;
    }
    match private_encrypt(key, data, &mut block) {
        Ok(written) => {
            if written == block.len() {
                Ok(block)
            } else {
                Err(Error::Rejected)
            }
        },
        Err(_) => Err(Error::Rejected),
    }
}

} // verus!
