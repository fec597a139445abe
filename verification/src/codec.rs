//! Typed key material: fixed-length byte buffers tagged with the security
//! level they belong to. Decoding validates the length before any key reaches
//! a cryptographic operation; encoding is the lossless identity on the buffer.

use vstd::prelude::*;

use crate::error::CliError;
use crate::level::SecurityLevel;

verus! {

/// A Falcon public key: a byte buffer of exactly the level's public key length.
pub struct PublicKey {
    pub level: SecurityLevel,
    pub bytes: Vec<u8>,
}

impl PublicKey {
    /// The buffer has exactly the length the level prescribes.
    pub open spec fn wf(self) -> bool {
        self.bytes@.len() == self.level.spec_public_key_len()
    }
}

/// A Falcon secret key: a byte buffer of exactly the level's secret key
/// length. It is consumed read-only by signing and must never be written to
/// process output.
pub struct SecretKey {
    pub level: SecurityLevel,
    pub bytes: Vec<u8>,
}

impl SecretKey {
    /// The buffer has exactly the length the level prescribes.
    pub open spec fn wf(self) -> bool {
        self.bytes@.len() == self.level.spec_secret_key_len()
    }
}

/// Decodes a public key buffer at the given level. Fails with `BadLength`,
/// carrying the expected and actual lengths, whenever the buffer's length is
/// not exactly the level's public key length; the buffer is never interpreted
/// as key material before this check.
pub fn decode_public(bytes: Vec<u8>, level: SecurityLevel) -> (r: Result<PublicKey, CliError>)
    ensures
        bytes@.len() == level.spec_public_key_len() ==> (r matches Ok(k) && k.level == level
            && k.bytes@ == bytes@ && k.wf()),
        bytes@.len() != level.spec_public_key_len() ==> (r matches Err(e)
            && e matches CliError::BadLength { expected, actual }
            && expected == level.spec_public_key_len() && actual == bytes@.len()),
{
    let expected = level.public_key_len();
    if bytes.len() != expected {
        Err(CliError::BadLength { expected, actual: bytes.len() })
    } else {
        Ok(PublicKey { level, bytes })
    }
}

/// Decodes a secret key buffer at the given level, under the same length
/// validation as `decode_public`.
pub fn decode_secret(bytes: Vec<u8>, level: SecurityLevel) -> (r: Result<SecretKey, CliError>)
    ensures
        bytes@.len() == level.spec_secret_key_len() ==> (r matches Ok(k) && k.level == level
            && k.bytes@ == bytes@ && k.wf()),
        bytes@.len() != level.spec_secret_key_len() ==> (r matches Err(e)
            && e matches CliError::BadLength { expected, actual }
            && expected == level.spec_secret_key_len() && actual == bytes@.len()),
{
    let expected = level.secret_key_len();
    if bytes.len() != expected {
        Err(CliError::BadLength { expected, actual: bytes.len() })
    } else {
        Ok(SecretKey { level, bytes })
    }
}

impl PublicKey {
    /// Encoding is the lossless identity on the buffer.
    pub fn encode(self) -> (r: Vec<u8>)
        ensures
            r@ == self.bytes@,
    {
        self.bytes
    }
}

impl SecretKey {
    /// Encoding is the lossless identity on the buffer.
    pub fn encode(self) -> (r: Vec<u8>)
        ensures
            r@ == self.bytes@,
    {
        self.bytes
    }
}

} // verus!
