//! Output resolution: result bytes go to an explicit output path under the
//! overwrite guard, or verbatim to standard output, which is never guarded.

use vstd::prelude::*;

use crate::error::CliError;
use crate::store::{check_overwrite, spec_overwrite_allowed};

verus! {

/// Where the result bytes are written.
#[derive(Clone, Copy, Debug, PartialEq, Eq, Structural)]
pub enum OutputChoice {
    /// The explicit output path; the overwrite guard has passed.
    WriteFile,
    /// Standard output, verbatim.
    WriteStdout,
}

/// Resolves the output sink. With no explicit path the bytes go to standard
/// output unconditionally; with one, the write is allowed exactly when the
/// overwrite guard passes, and refused with `RefusedOverwrite` (and no
/// partial write) otherwise.
pub fn resolve_output(has_path: bool, path_exists: bool, force: bool) -> (r: Result<
    OutputChoice,
    CliError,
>)
    ensures
        !has_path ==> (r matches Ok(c) && c == OutputChoice::WriteStdout),
        has_path && spec_overwrite_allowed(path_exists, force) ==> (r matches Ok(c) && c
            == OutputChoice::WriteFile),
        has_path && !spec_overwrite_allowed(path_exists, force) ==> (r matches Err(e) && e
            == CliError::RefusedOverwrite),
{
    if !has_path {
        Ok(OutputChoice::WriteStdout)
    } else {
        match check_overwrite(path_exists, force) {
            Ok(()) => Ok(OutputChoice::WriteFile),
            Err(e) => Err(e),
        }
    }
}

} // verus!
