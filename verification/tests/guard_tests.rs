use falcon_cli::codec::{decode_public, decode_secret};
use falcon_cli::engine::{keygen, resolve_public_key_source, select_mode, KeygenPlan, Mode,
    PublicKeySource};
use falcon_cli::error::CliError;
use falcon_cli::input::{resolve_input, InputSelector};
use falcon_cli::level::SecurityLevel;
use falcon_cli::output::{resolve_output, OutputChoice};
use falcon_cli::store::{check_overwrite, classify_read_failure, plan_public_key_write,
    plan_secret_key_write};

#[test]
fn mode_selection_keygen_wins_then_sign_then_verify() {
    assert_eq!(select_mode(true, true), Mode::Keygen);
    assert_eq!(select_mode(true, false), Mode::Keygen);
    assert_eq!(select_mode(false, true), Mode::Sign);
    assert_eq!(select_mode(false, false), Mode::Verify);
}

#[test]
fn read_failures_are_classified() {
    assert_eq!(classify_read_failure(true), CliError::NotFound);
    assert_eq!(classify_read_failure(false), CliError::IoError);
}

#[test]
fn overwrite_guard_blocks_existing_without_force() {
    assert_eq!(check_overwrite(true, false).err(), Some(CliError::RefusedOverwrite));
    assert!(check_overwrite(true, true).is_ok());
    assert!(check_overwrite(false, false).is_ok());
    assert!(check_overwrite(false, true).is_ok());
}

#[test]
fn public_key_write_keeps_default_permissions() {
    let key = decode_public(vec![3u8; 897], SecurityLevel::Level512).unwrap();
    let cmd = plan_public_key_write(key, false, false).unwrap();
    assert!(!cmd.owner_only);
    assert_eq!(cmd.bytes, vec![3u8; 897]);
}

#[test]
fn secret_key_write_is_owner_only() {
    let key = decode_secret(vec![9u8; 1281], SecurityLevel::Level512).unwrap();
    let cmd = plan_secret_key_write(key, false, false).unwrap();
    assert!(cmd.owner_only);
    assert_eq!(cmd.bytes, vec![9u8; 1281]);
}

#[test]
fn secret_key_write_refused_on_existing_file() {
    let key = decode_secret(vec![9u8; 1281], SecurityLevel::Level512).unwrap();
    let r = plan_secret_key_write(key, true, false);
    assert_eq!(r.err(), Some(CliError::RefusedOverwrite));
}

#[test]
fn keygen_refuses_existing_public_key_without_force() {
    match keygen(SecurityLevel::Level512, true, false, false) {
        KeygenPlan::Refused { refused } => assert_eq!(refused, CliError::RefusedOverwrite),
        _ => panic!("keygen must refuse when the public key file exists without force"),
    }
}

#[test]
fn keygen_writes_public_but_refuses_existing_secret_key() {
    match keygen(SecurityLevel::Level512, false, true, false) {
        KeygenPlan::PublicOnly { public, refused } => {
            assert_eq!(refused, CliError::RefusedOverwrite);
            assert_eq!(public.bytes.len(), 897);
            assert!(!public.owner_only);
        }
        _ => panic!("keygen must still write the fresh public key file"),
    }
}

#[test]
fn keygen_with_force_replaces_existing_files() {
    match keygen(SecurityLevel::Level512, true, true, true) {
        KeygenPlan::WriteBoth { public, secret } => {
            assert_eq!(public.bytes.len(), 897);
            assert_eq!(secret.bytes.len(), 1281);
            assert!(secret.owner_only);
            assert!(!public.owner_only);
        }
        _ => panic!("keygen with force must write both key files"),
    }
}

#[test]
fn keygen_fresh_paths_write_both_at_1024() {
    match keygen(SecurityLevel::Level1024, false, false, false) {
        KeygenPlan::WriteBoth { public, secret } => {
            assert_eq!(public.bytes.len(), 1793);
            assert_eq!(secret.bytes.len(), 2305);
            assert!(secret.owner_only);
        }
        _ => panic!("keygen into fresh paths must write both key files"),
    }
}

#[test]
fn input_priority_explicit_then_positional_then_stdin() {
    assert_eq!(resolve_input(true, true, true), Ok(InputSelector::ExplicitFile));
    assert_eq!(resolve_input(true, false, false), Ok(InputSelector::ExplicitFile));
    assert_eq!(resolve_input(false, true, true), Ok(InputSelector::PositionalFile));
    assert_eq!(resolve_input(false, false, false), Ok(InputSelector::StandardInput));
}

#[test]
fn input_fails_fast_on_interactive_terminal() {
    assert_eq!(resolve_input(false, false, true), Err(CliError::NoInputData));
}

#[test]
fn output_defaults_to_stdout_without_guard() {
    assert_eq!(resolve_output(false, true, false), Ok(OutputChoice::WriteStdout));
}

#[test]
fn output_file_is_overwrite_guarded() {
    assert_eq!(resolve_output(true, true, false), Err(CliError::RefusedOverwrite));
    assert_eq!(resolve_output(true, true, true), Ok(OutputChoice::WriteFile));
    assert_eq!(resolve_output(true, false, false), Ok(OutputChoice::WriteFile));
}

#[test]
fn public_key_literal_takes_precedence() {
    assert_eq!(resolve_public_key_source(true), PublicKeySource::Literal);
    assert_eq!(resolve_public_key_source(false), PublicKeySource::KeyFile);
}
