//! Overwrite-safe persistence planning for key files. The library never
//! touches the filesystem itself: it decides, from a target existence flag and
//! the force flag, whether a write may happen, and hands the caller a command
//! holding the exact bytes and the permission discipline. A refused write
//! issues no command at all, so the existing file stays byte-identical.

use vstd::prelude::*;

use crate::codec::{PublicKey, SecretKey};
use crate::error::CliError;

verus! {

/// The overwrite guard: a write to an existing path is allowed only when
/// overwrite was explicitly authorized.
pub open spec fn spec_overwrite_allowed(target_exists: bool, force: bool) -> bool {
    !target_exists || force
}

/// Evaluates the overwrite guard for one target path.
pub fn check_overwrite(target_exists: bool, force: bool) -> (r: Result<(), CliError>)
    ensures
        r is Ok <==> spec_overwrite_allowed(target_exists, force),
        r matches Err(e) ==> e == CliError::RefusedOverwrite,
{
    if !target_exists || force {
        Ok(())
    } else {
        Err(CliError::RefusedOverwrite)
    }
}

/// A single authorized file write: the exact bytes to put at the target, and
/// whether the file must be restricted to owner-only permissions before the
/// write is considered complete.
pub struct WriteCommand {
    pub bytes: Vec<u8>,
    pub owner_only: bool,
}

/// Plans the write of a public key file. Succeeds exactly when the overwrite
/// guard allows it; the command carries the key's bytes unchanged and never
/// restricts permissions beyond process defaults.
pub fn plan_public_key_write(key: PublicKey, target_exists: bool, force: bool) -> (r: Result<
    WriteCommand,
    CliError,
>)
    ensures
        spec_overwrite_allowed(target_exists, force) ==> (r matches Ok(c) && c.bytes@ == key.bytes@
            && !c.owner_only),
        !spec_overwrite_allowed(target_exists, force) ==> (r matches Err(e)
            && e == CliError::RefusedOverwrite),
{
    match check_overwrite(target_exists, force) {
        Ok(()) => Ok(WriteCommand { bytes: key.encode(), owner_only: false }),
        Err(e) => Err(e),
    }
}

/// Plans the write of a secret key file. Succeeds exactly when the overwrite
/// guard allows it; the command carries the key's bytes unchanged and always
/// demands owner-only permissions on the written file.
pub fn plan_secret_key_write(key: SecretKey, target_exists: bool, force: bool) -> (r: Result<
    WriteCommand,
    CliError,
>)
    ensures
        spec_overwrite_allowed(target_exists, force) ==> (r matches Ok(c) && c.bytes@ == key.bytes@
            && c.owner_only),
        !spec_overwrite_allowed(target_exists, force) ==> (r matches Err(e)
            && e == CliError::RefusedOverwrite),
{
    match check_overwrite(target_exists, force) {
        Ok(()) => Ok(WriteCommand { bytes: key.encode(), owner_only: true }),
        Err(e) => Err(e),
    }
}

/// Classifies a failed key file read: an absent file is `NotFound`, any other
/// filesystem failure is `IoError`.
pub fn classify_read_failure(not_found: bool) -> (r: CliError)
    ensures
        r == if not_found {
            CliError::NotFound
        } else {
            CliError::IoError
        },
{
    if not_found {
        CliError::NotFound
    } else {
        CliError::IoError
    }
}

} // verus!
