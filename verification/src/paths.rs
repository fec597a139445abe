//! Default key file locations, computed as a pure function of an injected
//! home directory rather than of ambient process state.

use vstd::prelude::*;
use vstd::string::StringExecFns;

verus! {

/// The default public key location under the given home directory.
pub fn default_public_key_path(home: String) -> (r: String)
    ensures
        r@ == home@ + "/.falcon-cli/public.key"@,
{
    home.concat("/.falcon-cli/public.key")
}

/// The default secret key location under the given home directory.
pub fn default_secret_key_path(home: String) -> (r: String)
    ensures
        r@ == home@ + "/.falcon-cli/secret.key"@,
{
    home.concat("/.falcon-cli/secret.key")
}

} // verus!
