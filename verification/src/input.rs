//! Input resolution: which source the message bytes come from. Priority is
//! the explicit flag path, then the positional path, then standard input; an
//! interactive terminal with nothing piped in fails fast instead of blocking.

use vstd::prelude::*;

use crate::error::CliError;

verus! {

/// Where the message bytes are read from.
#[derive(Clone, Copy, Debug, PartialEq, Eq, Structural)]
pub enum InputSelector {
    /// The path given by the explicit input flag.
    ExplicitFile,
    /// The path given as a positional argument.
    PositionalFile,
    /// Standard input, read to completion.
    StandardInput,
}

/// Resolves the input source. The explicit flag wins over the positional
/// path, which wins over standard input; when only standard input is left and
/// it is an interactive terminal with no piped data, resolution fails with
/// `NoInputData` rather than blocking indefinitely.
pub fn resolve_input(has_explicit: bool, has_positional: bool, stdin_is_terminal: bool) -> (r:
    Result<InputSelector, CliError>)
    ensures
        has_explicit ==> (r matches Ok(s) && s == InputSelector::ExplicitFile),
        !has_explicit && has_positional ==> (r matches Ok(s) && s
            == InputSelector::PositionalFile),
        !has_explicit && !has_positional && !stdin_is_terminal ==> (r matches Ok(s) && s
            == InputSelector::StandardInput),
        !has_explicit && !has_positional && stdin_is_terminal ==> (r matches Err(e) && e
            == CliError::NoInputData),
{
    if has_explicit {
        Ok(InputSelector::ExplicitFile)
    } else if has_positional {
        Ok(InputSelector::PositionalFile)
    } else if stdin_is_terminal {
        Err(CliError::NoInputData)
    } else {
        Ok(InputSelector::StandardInput)
    }
}

} // verus!
