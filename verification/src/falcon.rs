//! The Falcon signature primitive, consumed as an opaque capability through
//! trusted wrappers around `pqcrypto_falcon`, one per primitive and level.
//!
//! What verification of a signed-message buffer against a public-key buffer
//! yields depends on those bytes alone, so it is given a name per level
//! (`falcon512_opened`, `falcon1024_opened`). Key generation is randomized;
//! all that is stated of its outcome is the documented byte lengths and that
//! the two buffers form a matching pair (`falcon512_keypair_related`,
//! `falcon1024_keypair_related`). Signing is randomized too (the scheme salts
//! each signature); what is stated of every outcome is that the signed message
//! opens to the original message under any public key matched to the signing
//! key.

use vstd::prelude::*;

use pqcrypto_traits::sign::PublicKey as _;
use pqcrypto_traits::sign::SecretKey as _;
use pqcrypto_traits::sign::SignedMessage as _;

use crate::codec::{PublicKey, SecretKey};
use crate::level::{
    SecurityLevel, FALCON1024_PUBLIC_KEY_BYTES, FALCON1024_SECRET_KEY_BYTES,
    FALCON1024_SIGNATURE_BYTES, FALCON512_PUBLIC_KEY_BYTES, FALCON512_SECRET_KEY_BYTES,
    FALCON512_SIGNATURE_BYTES,
};

verus! {

/// The two buffers form a matching level-512 keypair: signatures made with
/// the secret key verify under the public key.
pub uninterp spec fn falcon512_keypair_related(pk: Seq<u8>, sk: Seq<u8>) -> bool;

/// The two buffers form a matching level-1024 keypair.
pub uninterp spec fn falcon1024_keypair_related(pk: Seq<u8>, sk: Seq<u8>) -> bool;

/// What level-512 verification of a signed-message buffer against a
/// public-key buffer yields: the recovered message, or nothing when the
/// signature does not validate.
pub uninterp spec fn falcon512_opened(sm: Seq<u8>, pk: Seq<u8>) -> Option<Seq<u8>>;

/// What level-1024 verification yields.
pub uninterp spec fn falcon1024_opened(sm: Seq<u8>, pk: Seq<u8>) -> Option<Seq<u8>>;

/// The two buffers form a matching keypair at the given level.
pub open spec fn spec_keypair_related(level: SecurityLevel, pk: Seq<u8>, sk: Seq<u8>) -> bool {
    match level {
        SecurityLevel::Level512 => falcon512_keypair_related(pk, sk),
        SecurityLevel::Level1024 => falcon1024_keypair_related(pk, sk),
    }
}

/// What verification of `sm` against `pk` yields at the given level.
pub open spec fn spec_opened(level: SecurityLevel, sm: Seq<u8>, pk: Seq<u8>) -> Option<Seq<u8>> {
    match level {
        SecurityLevel::Level512 => falcon512_opened(sm, pk),
        SecurityLevel::Level1024 => falcon1024_opened(sm, pk),
    }
}

/// `sm` is a signed message for `m` under the secret key `sk` at the given
/// level: it opens to `m` under every public key matched to `sk`.
pub open spec fn spec_signed_message_of(
    level: SecurityLevel,
    m: Seq<u8>,
    sk: Seq<u8>,
    sm: Seq<u8>,
) -> bool {
    forall|pk: Seq<u8>|
        #[trigger] spec_keypair_related(level, pk, sk) ==> spec_opened(level, sm, pk) == Some(m)
}

/// Relies on pqcrypto_falcon::falcon512::keypair: fresh key material of the
/// documented fixed lengths, the two buffers forming a matching pair. Aborts
/// only if the operating system's randomness source fails.
#[verifier::external_body]
fn falcon512_keypair_raw() -> (r: (Vec<u8>, Vec<u8>))
    ensures
        r.0@.len() == FALCON512_PUBLIC_KEY_BYTES,
        r.1@.len() == FALCON512_SECRET_KEY_BYTES,
        falcon512_keypair_related(r.0@, r.1@),
{
    let (pk, sk) = pqcrypto_falcon::falcon512::keypair();
    (pk.as_bytes().to_vec(), sk.as_bytes().to_vec())
}

/// Relies on pqcrypto_falcon::falcon1024::keypair, as for level 512.
#[verifier::external_body]
fn falcon1024_keypair_raw() -> (r: (Vec<u8>, Vec<u8>))
    ensures
        r.0@.len() == FALCON1024_PUBLIC_KEY_BYTES,
        r.1@.len() == FALCON1024_SECRET_KEY_BYTES,
        falcon1024_keypair_related(r.0@, r.1@),
{
    let (pk, sk) = pqcrypto_falcon::falcon1024::keypair();
    (pk.as_bytes().to_vec(), sk.as_bytes().to_vec())
}

/// Relies on pqcrypto_falcon::falcon512::sign: the signed message embeds the
/// message and a signature of at most the documented overhead, and opens to
/// the message under every public key matched to the signing key.
#[verifier::external_body]
fn falcon512_sign_raw(message: &[u8], sk: &[u8]) -> (r: Vec<u8>)
    requires
        sk@.len() == FALCON512_SECRET_KEY_BYTES,
        message@.len() + FALCON512_SIGNATURE_BYTES <= usize::MAX,
    ensures
        r@.len() <= message@.len() + FALCON512_SIGNATURE_BYTES,
        forall|pk: Seq<u8>|
            #[trigger] falcon512_keypair_related(pk, sk@) ==> falcon512_opened(r@, pk) == Some(
                message@,
            ),
{
    let key = pqcrypto_falcon::falcon512::SecretKey::from_bytes(sk).unwrap();
    pqcrypto_falcon::falcon512::sign(message, &key).as_bytes().to_vec()
}

/// Relies on pqcrypto_falcon::falcon1024::sign, as for level 512.
#[verifier::external_body]
fn falcon1024_sign_raw(message: &[u8], sk: &[u8]) -> (r: Vec<u8>)
    requires
        sk@.len() == FALCON1024_SECRET_KEY_BYTES,
        message@.len() + FALCON1024_SIGNATURE_BYTES <= usize::MAX,
    ensures
        r@.len() <= message@.len() + FALCON1024_SIGNATURE_BYTES,
        forall|pk: Seq<u8>|
            #[trigger] falcon1024_keypair_related(pk, sk@) ==> falcon1024_opened(r@, pk) == Some(
                message@,
            ),
{
    let key = pqcrypto_falcon::falcon1024::SecretKey::from_bytes(sk).unwrap();
    pqcrypto_falcon::falcon1024::sign(message, &key).as_bytes().to_vec()
}

/// Relies on pqcrypto_falcon::falcon512::open (with the byte-copying
/// falcon512::SignedMessage::from_bytes and the length-checking
/// falcon512::PublicKey::from_bytes): verification is a function of the two
/// buffers alone, returning the recovered message exactly when the signature
/// validates.
#[verifier::external_body]
fn falcon512_open_raw(signed: &[u8], pk: &[u8]) -> (r: Option<Vec<u8>>)
    requires
        pk@.len() == FALCON512_PUBLIC_KEY_BYTES,
    ensures
        match r {
            Some(m) => falcon512_opened(signed@, pk@) == Some(m@),
            None => falcon512_opened(signed@, pk@) is None,
        },
{
    let key = pqcrypto_falcon::falcon512::PublicKey::from_bytes(pk).unwrap();
    let sm = pqcrypto_falcon::falcon512::SignedMessage::from_bytes(signed).unwrap();
    pqcrypto_falcon::falcon512::open(&sm, &key).ok()
}

/// Relies on pqcrypto_falcon::falcon1024::open, as for level 512.
#[verifier::external_body]
fn falcon1024_open_raw(signed: &[u8], pk: &[u8]) -> (r: Option<Vec<u8>>)
    requires
        pk@.len() == FALCON1024_PUBLIC_KEY_BYTES,
    ensures
        match r {
            Some(m) => falcon1024_opened(signed@, pk@) == Some(m@),
            None => falcon1024_opened(signed@, pk@) is None,
        },
{
    let key = pqcrypto_falcon::falcon1024::PublicKey::from_bytes(pk).unwrap();
    let sm = pqcrypto_falcon::falcon1024::SignedMessage::from_bytes(signed).unwrap();
    pqcrypto_falcon::falcon1024::open(&sm, &key).ok()
}

/// Generates a fresh keypair at the given level: both keys carry that level,
/// have the level's exact lengths, and form a matching pair.
pub fn keypair(level: SecurityLevel) -> (r: (PublicKey, SecretKey))
    ensures
        r.0.level == level && r.0.wf(),
        r.1.level == level && r.1.wf(),
        spec_keypair_related(level, r.0.bytes@, r.1.bytes@),
{
    let (pk_bytes, sk_bytes) = match level {
        SecurityLevel::Level512 => falcon512_keypair_raw(),
        SecurityLevel::Level1024 => falcon1024_keypair_raw(),
    };
    (PublicKey { level, bytes: pk_bytes }, SecretKey { level, bytes: sk_bytes })
}

/// Signs a message with a typed secret key. The signed message embeds the
/// message and opens to it under every public key matched to the signing key;
/// signing adds at most the level's signature overhead.
pub fn sign(message: &Vec<u8>, key: &SecretKey) -> (r: Vec<u8>)
    requires
        key.wf(),
        message@.len() + key.level.spec_signature_overhead() <= usize::MAX,
    ensures
        spec_signed_message_of(key.level, message@, key.bytes@, r@),
        r@.len() <= message@.len() + key.level.spec_signature_overhead(),
{
    match key.level {
        SecurityLevel::Level512 => falcon512_sign_raw(
            message.as_slice(),
            key.bytes.as_slice(),
        ),
        SecurityLevel::Level1024 => falcon1024_sign_raw(
            message.as_slice(),
            key.bytes.as_slice(),
        ),
    }
}

/// Verifies a signed-message buffer against a typed public key, recovering
/// the embedded message exactly when the signature validates.
pub fn open(signed: &Vec<u8>, key: &PublicKey) -> (r: Option<Vec<u8>>)
    requires
        key.wf(),
    ensures
        match r {
            Some(m) => spec_opened(key.level, signed@, key.bytes@) == Some(m@),
            None => spec_opened(key.level, signed@, key.bytes@) is None,
        },
{
    match key.level {
        SecurityLevel::Level512 => falcon512_open_raw(signed.as_slice(), key.bytes.as_slice()),
        SecurityLevel::Level1024 => falcon1024_open_raw(signed.as_slice(), key.bytes.as_slice()),
    }
}

} // verus!
