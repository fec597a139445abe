//! The signing engine: orchestration of keygen, sign and verify. Each
//! operation threads a single security level through every length check and
//! primitive call, enforces the overwrite guards independently per key file,
//! and writes nothing on a verification failure.

use vstd::prelude::*;

use base64::Engine as _;

use crate::codec::{decode_public, decode_secret, PublicKey};
use crate::error::CliError;
use crate::falcon;
use crate::falcon::{spec_keypair_related, spec_opened, spec_signed_message_of};
use crate::level::SecurityLevel;
use crate::store::{plan_public_key_write, plan_secret_key_write, spec_overwrite_allowed,
    WriteCommand};

verus! {

/// What decoding a text with the standard base64 alphabet yields: the decoded
/// bytes, or nothing when the text is not valid base64.
pub uninterp spec fn base64_decoding(s: Seq<char>) -> Option<Seq<u8>>;

/// Relies on base64's standard-alphabet Engine::decode: a function of the
/// input text alone, returning the decoded bytes exactly when the text is
/// valid base64.
#[verifier::external_body]
fn base64_decode(s: &str) -> (r: Option<Vec<u8>>)
    ensures
        match r {
            Some(v) => base64_decoding(s@) == Some(v@),
            None => base64_decoding(s@) is None,
        },
{
    base64::engine::general_purpose::STANDARD.decode(s).ok()
}

/// The operation a single invocation requests.
#[derive(Clone, Copy, Debug, PartialEq, Eq, Structural)]
pub enum Mode {
    /// Generate and persist a fresh keypair.
    Keygen,
    /// Sign the resolved input.
    Sign,
    /// Verify the resolved input; the default when no mode flag is given.
    Verify,
}

/// Selects the requested operation from the mode flags: the keygen flag wins,
/// then the sign flag, and verification is the default.
pub fn select_mode(keygen_flag: bool, sign_flag: bool) -> (r: Mode)
    ensures
        keygen_flag ==> r == Mode::Keygen,
        !keygen_flag && sign_flag ==> r == Mode::Sign,
        !keygen_flag && !sign_flag ==> r == Mode::Verify,
{
    if keygen_flag {
        Mode::Keygen
    } else if sign_flag {
        Mode::Sign
    } else {
        Mode::Verify
    }
}

/// The outcome of a keygen request. A key file whose overwrite guard fails is
/// never commanded to be written, so its bytes stay unchanged; the public key
/// is written before the secret key's guard is evaluated, and each guard is
/// enforced independently.
pub enum KeygenPlan {
    /// Both guards passed: write the public key file, then the secret key file.
    WriteBoth { public: WriteCommand, secret: WriteCommand },
    /// The public key guard passed but the secret key guard failed: the
    /// public key file is written, the secret key file stays untouched, and
    /// the request fails.
    PublicOnly { public: WriteCommand, refused: CliError },
    /// The public key guard failed: nothing is written.
    Refused { refused: CliError },
}

/// Everything the keygen planner promises of its outcome: the outcomes
/// correspond exactly to the two overwrite guards, evaluated independently;
/// the commands carry fresh keys of the level's exact lengths, forming a
/// matching pair; the public key command never restricts permissions and the
/// secret key command always demands owner-only permissions.
pub open spec fn keygen_plan_ok(
    level: SecurityLevel,
    pk_exists: bool,
    sk_exists: bool,
    force: bool,
    plan: KeygenPlan,
) -> bool {
    &&& plan is Refused <==> !spec_overwrite_allowed(pk_exists, force)
    &&& plan is PublicOnly <==> spec_overwrite_allowed(pk_exists, force)
        && !spec_overwrite_allowed(sk_exists, force)
    &&& plan is WriteBoth <==> spec_overwrite_allowed(pk_exists, force)
        && spec_overwrite_allowed(sk_exists, force)
    &&& plan matches KeygenPlan::Refused { refused } ==> refused == CliError::RefusedOverwrite
    &&& plan matches KeygenPlan::PublicOnly { public, refused } ==> refused
        == CliError::RefusedOverwrite && public.bytes@.len() == level.spec_public_key_len()
        && !public.owner_only
    &&& plan matches KeygenPlan::WriteBoth { public, secret } ==> public.bytes@.len()
        == level.spec_public_key_len() && !public.owner_only && secret.bytes@.len()
        == level.spec_secret_key_len() && secret.owner_only && spec_keypair_related(
        level,
        public.bytes@,
        secret.bytes@,
    )
}

/// Keygen: generates a fresh keypair at the level and plans the two guarded
/// writes. The public key command never restricts permissions; the secret key
/// command always demands owner-only permissions.
pub fn keygen(level: SecurityLevel, pk_exists: bool, sk_exists: bool, force: bool) -> (r:
    KeygenPlan)
    ensures
        keygen_plan_ok(level, pk_exists, sk_exists, force, r),
{
    let (pk, sk) = falcon::keypair(level);
    let public = match plan_public_key_write(pk, pk_exists, force) {
        Ok(c) => c,
        Err(refused) => {
            return KeygenPlan::Refused { refused };
        },
    };
    match plan_secret_key_write(sk, sk_exists, force) {
        Ok(secret) => KeygenPlan::WriteBoth { public, secret },
        Err(refused) => KeygenPlan::PublicOnly { public, refused },
    }
}

/// Sign: decodes the secret key at the selected level and signs the message.
/// A secret key whose length does not match the level fails with
/// `KeyLevelMismatch` before any cryptographic call; on success the signed
/// message opens to the message under every public key matched to the
/// signing key.
pub fn sign_message(level: SecurityLevel, message: &Vec<u8>, sk_bytes: Vec<u8>) -> (r: Result<
    Vec<u8>,
    CliError,
>)
    requires
        message@.len() + level.spec_signature_overhead() <= usize::MAX,
    ensures
        sk_bytes@.len() == level.spec_secret_key_len() ==> (r matches Ok(sm)
            && spec_signed_message_of(level, message@, sk_bytes@, sm@) && sm@.len()
            <= message@.len() + level.spec_signature_overhead()),
        sk_bytes@.len() != level.spec_secret_key_len() ==> (r matches Err(e) && e
            == CliError::KeyLevelMismatch),
{
    if sk_bytes.len() != level.secret_key_len() {
        return Err(CliError::KeyLevelMismatch);
    }
    let key = match decode_secret(sk_bytes, level) {
        Ok(k) => k,
        Err(e) => {
            return Err(e);
        },
    };
    Ok(falcon::sign(message, &key))
}

/// Verify: decodes the public key at the selected level and opens the signed
/// message. A public key whose length does not match the level fails with
/// `KeyLevelMismatch`; a signature that does not validate fails with
/// `VerificationFailed`, and only a successful verification yields bytes for
/// the output sink.
pub fn verify_message(level: SecurityLevel, signed: &Vec<u8>, pk_bytes: Vec<u8>) -> (r: Result<
    Vec<u8>,
    CliError,
>)
    ensures
        pk_bytes@.len() == level.spec_public_key_len() ==> match spec_opened(
            level,
            signed@,
            pk_bytes@,
        ) {
            Some(m) => r matches Ok(v) && v@ == m,
            None => r matches Err(e) && e == CliError::VerificationFailed,
        },
        pk_bytes@.len() != level.spec_public_key_len() ==> (r matches Err(e) && e
            == CliError::KeyLevelMismatch),
{
    if pk_bytes.len() != level.public_key_len() {
        return Err(CliError::KeyLevelMismatch);
    }
    let key = match decode_public(pk_bytes, level) {
        Ok(k) => k,
        Err(e) => {
            return Err(e);
        },
    };
    match falcon::open(signed, &key) {
        Some(m) => Ok(m),
        None => Err(CliError::VerificationFailed),
    }
}

/// Where the public key for verification comes from.
#[derive(Clone, Copy, Debug, PartialEq, Eq, Structural)]
pub enum PublicKeySource {
    /// A base64 literal supplied on the command line.
    Literal,
    /// The public key file.
    KeyFile,
}

/// A caller-supplied base64 literal takes precedence over the key file
/// whenever both are available.
pub fn resolve_public_key_source(has_literal: bool) -> (r: PublicKeySource)
    ensures
        r == PublicKeySource::Literal <==> has_literal,
{
    if has_literal {
        PublicKeySource::Literal
    } else {
        PublicKeySource::KeyFile
    }
}

/// Decodes an inline base64 public key at the selected level. Text that is
/// not valid base64 fails with `InvalidBase64`; decoded bytes whose length
/// does not match the level fail with `KeyLevelMismatch` rather than guessing
/// another level.
pub fn decode_public_key_literal(text: &str, level: SecurityLevel) -> (r: Result<
    PublicKey,
    CliError,
>)
    ensures
        match base64_decoding(text@) {
            None => r matches Err(e) && e == CliError::InvalidBase64,
            Some(bytes) => if bytes.len() == level.spec_public_key_len() {
                r matches Ok(k) && k.level == level && k.bytes@ == bytes && k.wf()
            } else {
                r matches Err(e) && e == CliError::KeyLevelMismatch
            },
        },
{
    let bytes = match base64_decode(text) {
        Some(v) => v,
        None => {
            return Err(CliError::InvalidBase64);
        },
    };
    if bytes.len() != level.public_key_len() {
        return Err(CliError::KeyLevelMismatch);
    }
    match decode_public(bytes, level) {
        Ok(k) => Ok(k),
        Err(_) => Err(CliError::KeyLevelMismatch),
    }
}

/// The bytes of the two key files of one level, where present: the abstract
/// view of the key directory that a keygen plan acts on.
pub struct KeyDirectory {
    pub public_file: Option<Seq<u8>>,
    pub secret_file: Option<Seq<u8>>,
}

/// What a compliant executor does with a keygen plan: every commanded write
/// replaces its target file's bytes in full, and a file for which the plan
/// holds no command is not touched at all.
pub open spec fn apply_keygen_plan(pre: KeyDirectory, plan: KeygenPlan) -> KeyDirectory {
    match plan {
        KeygenPlan::WriteBoth { public, secret } => KeyDirectory {
            public_file: Some(public.bytes@),
            secret_file: Some(secret.bytes@),
        },
        KeygenPlan::PublicOnly { public, .. } => KeyDirectory {
            public_file: Some(public.bytes@),
            secret_file: pre.secret_file,
        },
        KeygenPlan::Refused { .. } => pre,
    }
}

/// Keygen without force is non-destructive: a key file that already exists
/// keeps its bytes unchanged under any plan the planner may produce, and the
/// plan reports the refusal.
pub proof fn lemma_keygen_without_force_preserves_existing(
    level: SecurityLevel,
    pre: KeyDirectory,
    plan: KeygenPlan,
)
    requires
        keygen_plan_ok(
            level,
            pre.public_file is Some,
            pre.secret_file is Some,
            false,
            plan,
        ),
    ensures
        pre.public_file is Some ==> apply_keygen_plan(pre, plan).public_file == pre.public_file
            && (plan matches KeygenPlan::Refused { refused } && refused
            == CliError::RefusedOverwrite),
        pre.secret_file is Some ==> apply_keygen_plan(pre, plan).secret_file == pre.secret_file,
{
}

/// Keygen with force replaces both key files with the fresh pair, whatever
/// stood there before.
pub proof fn lemma_keygen_with_force_replaces(
    level: SecurityLevel,
    pre: KeyDirectory,
    plan: KeygenPlan,
)
    requires
        keygen_plan_ok(level, pre.public_file is Some, pre.secret_file is Some, true, plan),
    ensures
        plan matches KeygenPlan::WriteBoth { public, secret }
            && apply_keygen_plan(pre, plan).public_file == Some(public.bytes@)
            && apply_keygen_plan(pre, plan).secret_file == Some(secret.bytes@)
            && spec_keypair_related(level, public.bytes@, secret.bytes@),
{
}

/// Round trip: a message signed with the secret key of a keypair generated
/// together at a level opens, under that keypair's public key at the same
/// level, to exactly the original message.
pub proof fn lemma_sign_open_round_trip(
    level: SecurityLevel,
    m: Seq<u8>,
    pk: Seq<u8>,
    sk: Seq<u8>,
    sm: Seq<u8>,
)
    requires
        spec_keypair_related(level, pk, sk),
        spec_signed_message_of(level, m, sk, sm),
    ensures
        spec_opened(level, sm, pk) == Some(m),
{
}

} // verus!
