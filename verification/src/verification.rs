//! Authentication of inbound payloads: an asymmetric signature over the
//! concatenation of a timestamp and the request body, both signature and
//! public key arriving hex encoded.
//!
//! The check runs before any payload is interpreted: only its success
//! licenses trusting the payload's contents. Malformed hex and malformed
//! keys are failures of the same check, never panics.

use vstd::prelude::*;
use vstd::string::StringSliceAdditionalSpecFns;

verus! {

/// Why a signature check failed.
#[derive(Debug, PartialEq, Eq, Structural, Clone, Copy)]
pub enum Error {
    /// The public key or the signature is not valid hex.
    ParseHexFailed,
    /// The decoded public key bytes do not form a key.
    InvalidPublicKey,
    /// The decoded signature is malformed or does not match.
    InvalidSignature,
}

/// Whether `b` is an ASCII hex digit.
pub open spec fn spec_is_hex_digit(b: u8) -> bool {
    (48 <= b <= 57) || (65 <= b <= 70) || (97 <= b <= 102)
}

/// The value of one hex digit.
pub open spec fn spec_hex_val(b: u8) -> int {
    if 48 <= b <= 57 {
        b - 48
    } else if 65 <= b <= 70 {
        b - 55
    } else {
        b - 87
    }
}

/// Whether `s` is a well-formed hex string: even length, hex digits only.
pub open spec fn spec_valid_hex(s: Seq<u8>) -> bool {
    s.len() % 2 == 0 && forall|i: int| 0 <= i < s.len() ==> spec_is_hex_digit(#[trigger] s[i])
}

/// The bytes a hex string denotes, two digits each.
pub open spec fn spec_hex_bytes(s: Seq<u8>) -> Seq<u8> {
    Seq::new(s.len() / 2, |i: int| (spec_hex_val(s[2 * i]) * 16 + spec_hex_val(s[2 * i + 1])) as u8)
}

/// Relies on hex::decode: it succeeds exactly on even-length strings of hex
/// digits (upper or lower case), and turns each digit pair into one byte,
/// high digit first.
#[verifier::external_body]
fn hex_decode(s: &str) -> (r: Option<Vec<u8>>)
    ensures
        r is Some <==> spec_valid_hex(s.spec_bytes()),
        r is Some ==> r->0@ == spec_hex_bytes(s.spec_bytes()),
{
    hex::decode(s).ok()
}

/// Whether 32 key bytes decompress to a point, that is form a public key;
/// what ed25519_dalek's VerifyingKey::from_bytes accepts.
pub uninterp spec fn spec_ed25519_key_ok(key: Seq<u8>) -> bool;

/// Whether the signature bytes are a valid signature by the key over the
/// message; what ed25519_dalek's verify accepts. The outcome depends on the
/// three byte strings alone.
pub uninterp spec fn spec_ed25519_verify(key: Seq<u8>, msg: Seq<u8>, sig: Seq<u8>) -> bool;

/// Relies on ed25519_dalek's VerifyingKey::from_bytes: it takes exactly 32
/// bytes and fails exactly when they decompress to no curve point.
#[verifier::external_body]
fn ed25519_key_check(key: &Vec<u8>) -> (r: bool)
    ensures
        r == (key@.len() == 32 && spec_ed25519_key_ok(key@)),
{
    let arr: &[u8; 32] = match key.as_slice().try_into() { Ok(a) => a, Err(_) => return false };
    ed25519_dalek::VerifyingKey::from_bytes(arr).is_ok()
}

/// Relies on ed25519_dalek: Signature::from_slice takes exactly 64 bytes
/// and nothing else, and Verifier::verify decides deterministically from
/// key, message and signature bytes.
#[verifier::external_body]
fn ed25519_verify(key: &Vec<u8>, msg: &Vec<u8>, sig: &Vec<u8>) -> (r: bool)
    requires
        key@.len() == 32,
        spec_ed25519_key_ok(key@),
    ensures
        r == (sig@.len() == 64 && spec_ed25519_verify(key@, msg@, sig@)),
{
    let arr: &[u8; 32] = match key.as_slice().try_into() { Ok(a) => a, Err(_) => return false };
    let vk = match ed25519_dalek::VerifyingKey::from_bytes(arr) { Ok(v) => v, Err(_) => return false };
    let s = match ed25519_dalek::Signature::from_slice(sig.as_slice()) { Ok(s) => s, Err(_) => return false };
    ed25519_dalek::Verifier::verify(&vk, msg.as_slice(), &s).is_ok()
}

/// What a signature check of the inbound strings returns: hex is checked
/// first for the key, then the key itself, then hex for the signature, then
/// the signature against the message, the first failure naming the error.
pub open spec fn spec_verify_signature(pk: Seq<u8>, sig: Seq<u8>, msg: Seq<u8>) -> Result<
    (),
    Error,
> {
    if !spec_valid_hex(pk) {
        Err(Error::ParseHexFailed)
    } else if !(spec_hex_bytes(pk).len() == 32 && spec_ed25519_key_ok(spec_hex_bytes(pk))) {
        Err(Error::InvalidPublicKey)
    } else if !spec_valid_hex(sig) {
        Err(Error::ParseHexFailed)
    } else if !(spec_hex_bytes(sig).len() == 64 && spec_ed25519_verify(
        spec_hex_bytes(pk),
        msg,
        spec_hex_bytes(sig),
    )) {
        Err(Error::InvalidSignature)
    } else {
        Ok(())
    }
}

/// Check that `signature` signs the concatenation of `timestamp` and `body`
/// under `public_key`; key and signature arrive hex encoded. Nothing about
/// the inputs is assumed: malformed hex or a malformed key is an error, not
/// a panic, and the check has no side effect.
pub fn verify_signature(public_key: &str, signature: &str, timestamp: &str, body: &str) -> (r:
    Result<(), Error>)
    ensures
        r == spec_verify_signature(
            public_key.spec_bytes(),
            signature.spec_bytes(),
            timestamp.spec_bytes() + body.spec_bytes(),
        ),
        r is Ok ==> spec_ed25519_verify(
            spec_hex_bytes(public_key.spec_bytes()),
            timestamp.spec_bytes() + body.spec_bytes(),
            spec_hex_bytes(signature.spec_bytes()),
        ),
{
    let key = match hex_decode(public_key) {
        Some(k) => k,
        None => {
            return Err(Error::ParseHexFailed);
        },
    };
    if !ed25519_key_check(&key) {
        return Err(Error::InvalidPublicKey);
    }
    let sig = match hex_decode(signature) {
        Some(s) => s,
        None => {
            return Err(Error::ParseHexFailed);
        },
    };
    let mut msg: Vec<u8> = Vec::new();
    msg.extend_from_slice(timestamp.as_bytes());
    assert(msg@ =~= timestamp.spec_bytes());
    msg.extend_from_slice(body.as_bytes());
    assert(msg@ =~= timestamp.spec_bytes() + body.spec_bytes());
    if ed25519_verify(&key, &msg, &sig) {
        Ok(())
    } else {
        Err(Error::InvalidSignature)
    }
}

} // verus!
