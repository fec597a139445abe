//! Security levels of the Falcon signature scheme and the fixed byte lengths
//! they select for key material.

use vstd::prelude::*;

verus! {

/// Byte length of a Falcon level-512 public key.
pub const FALCON512_PUBLIC_KEY_BYTES: usize = 897;

/// Byte length of a Falcon level-512 secret key.
pub const FALCON512_SECRET_KEY_BYTES: usize = 1281;

/// Byte length of a Falcon level-1024 public key.
pub const FALCON1024_PUBLIC_KEY_BYTES: usize = 1793;

/// Byte length of a Falcon level-1024 secret key.
pub const FALCON1024_SECRET_KEY_BYTES: usize = 2305;

/// Largest number of bytes signing adds to a level-512 message.
pub const FALCON512_SIGNATURE_BYTES: usize = 752;

/// Largest number of bytes signing adds to a level-1024 message.
pub const FALCON1024_SIGNATURE_BYTES: usize = 1462;

/// The two Falcon parameter sets. A level is chosen once per invocation and
/// governs every key length check and which primitive variant is invoked.
#[derive(Clone, Copy, Debug, PartialEq, Eq, Structural)]
pub enum SecurityLevel {
    Level512,
    Level1024,
}

impl SecurityLevel {
    /// Expected public key length for this level, as a mathematical value.
    pub open spec fn spec_public_key_len(self) -> nat {
        match self {
            SecurityLevel::Level512 => FALCON512_PUBLIC_KEY_BYTES as nat,
            SecurityLevel::Level1024 => FALCON1024_PUBLIC_KEY_BYTES as nat,
        }
    }

    /// Expected secret key length for this level, as a mathematical value.
    pub open spec fn spec_secret_key_len(self) -> nat {
        match self {
            SecurityLevel::Level512 => FALCON512_SECRET_KEY_BYTES as nat,
            SecurityLevel::Level1024 => FALCON1024_SECRET_KEY_BYTES as nat,
        }
    }

    /// Largest number of bytes signing adds to a message at this level, as a
    /// mathematical value.
    pub open spec fn spec_signature_overhead(self) -> nat {
        match self {
            SecurityLevel::Level512 => FALCON512_SIGNATURE_BYTES as nat,
            SecurityLevel::Level1024 => FALCON1024_SIGNATURE_BYTES as nat,
        }
    }

    /// Largest number of bytes signing adds to a message at this level.
    pub fn signature_overhead(self) -> (n: usize)
        ensures
            n == self.spec_signature_overhead(),
    {
        match self {
            SecurityLevel::Level512 => FALCON512_SIGNATURE_BYTES,
            SecurityLevel::Level1024 => FALCON1024_SIGNATURE_BYTES,
        }
    }

    /// Expected public key length for this level.
    pub fn public_key_len(self) -> (n: usize)
        ensures
            n == self.spec_public_key_len(),
    {
        match self {
            SecurityLevel::Level512 => FALCON512_PUBLIC_KEY_BYTES,
            SecurityLevel::Level1024 => FALCON1024_PUBLIC_KEY_BYTES,
        }
    }

    /// Expected secret key length for this level.
    pub fn secret_key_len(self) -> (n: usize)
        ensures
            n == self.spec_secret_key_len(),
    {
        match self {
            SecurityLevel::Level512 => FALCON512_SECRET_KEY_BYTES,
            SecurityLevel::Level1024 => FALCON1024_SECRET_KEY_BYTES,
        }
    }

    /// Selects the level from the command-line degree flag: an explicit 512
    /// selects level 512; any other value, and an absent flag, select the
    /// default level 1024.
    pub fn from_flag(flag: Option<u64>) -> (r: SecurityLevel)
        ensures
            r == SecurityLevel::Level512 <==> flag == Some(512u64),
    {
        match flag {
            Some(512u64) => SecurityLevel::Level512,
            _ => SecurityLevel::Level1024,
        }
    }
}

} // verus!
