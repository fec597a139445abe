//! The failure taxonomy of the tool. Every operation surfaces at most one of
//! these per invocation; verification failure is an expected outcome with a
//! message of its own so that callers can branch on it.

use vstd::prelude::*;

verus! {

/// Terminal failures of a single invocation.
#[derive(Clone, Copy, Debug, PartialEq, Eq, Structural)]
pub enum CliError {
    /// Key bytes are the wrong size for the chosen security level.
    BadLength { expected: usize, actual: usize },
    /// A destructive write was blocked by an existing file and no force flag.
    RefusedOverwrite,
    /// A required file does not exist.
    NotFound,
    /// A filesystem access failed.
    IoError,
    /// No input file, no positional path, and no data piped into stdin.
    NoInputData,
    /// A key's length is inconsistent with the selected security level.
    KeyLevelMismatch,
    /// The signature does not validate or the message was tampered with.
    VerificationFailed,
    /// A public key supplied inline is not valid base64.
    InvalidBase64,
}

impl CliError {
    /// The human-readable message for this failure.
    pub open spec fn spec_message(self) -> Seq<char> {
        match self {
            CliError::BadLength { .. } => "key has the wrong length"@,
            CliError::RefusedOverwrite => "not overwriting existing file"@,
            CliError::NotFound => "file not found"@,
            CliError::IoError => "filesystem access failed"@,
            CliError::NoInputData => "no incoming data in stdin"@,
            CliError::KeyLevelMismatch => "key length does not match the selected security level"@,
            CliError::VerificationFailed => "verification failed"@,
            CliError::InvalidBase64 => "public key is not valid base64"@,
        }
    }

    /// The human-readable message for this failure.
    pub fn message(&self) -> (r: &'static str)
        ensures
            r@ == self.spec_message(),
    {
        match self {
            CliError::BadLength { .. } => "key has the wrong length",
            CliError::RefusedOverwrite => "not overwriting existing file",
            CliError::NotFound => "file not found",
            CliError::IoError => "filesystem access failed",
            CliError::NoInputData => "no incoming data in stdin",
            CliError::KeyLevelMismatch => "key length does not match the selected security level",
            CliError::VerificationFailed => "verification failed",
            CliError::InvalidBase64 => "public key is not valid base64",
        }
    }
}

} // verus!
