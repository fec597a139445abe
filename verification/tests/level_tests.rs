use falcon_cli::error::CliError;
use falcon_cli::level::SecurityLevel;
use falcon_cli::paths::{default_public_key_path, default_secret_key_path};

#[test]
fn level_flag_selects_512_only_on_exact_512() {
    assert_eq!(SecurityLevel::from_flag(Some(512)), SecurityLevel::Level512);
    assert_eq!(SecurityLevel::from_flag(Some(1024)), SecurityLevel::Level1024);
    assert_eq!(SecurityLevel::from_flag(Some(513)), SecurityLevel::Level1024);
    assert_eq!(SecurityLevel::from_flag(None), SecurityLevel::Level1024);
}

#[test]
fn level_lengths_are_the_documented_constants() {
    assert_eq!(SecurityLevel::Level512.public_key_len(), 897);
    assert_eq!(SecurityLevel::Level512.secret_key_len(), 1281);
    assert_eq!(SecurityLevel::Level512.signature_overhead(), 752);
    assert_eq!(SecurityLevel::Level1024.public_key_len(), 1793);
    assert_eq!(SecurityLevel::Level1024.secret_key_len(), 2305);
    assert_eq!(SecurityLevel::Level1024.signature_overhead(), 1462);
}

#[test]
fn default_paths_live_under_the_tool_directory() {
    let home = String::from("/home/someone");
    assert_eq!(default_public_key_path(home.clone()), "/home/someone/.falcon-cli/public.key");
    assert_eq!(default_secret_key_path(home), "/home/someone/.falcon-cli/secret.key");
}

#[test]
fn error_messages_are_distinguishable() {
    assert_eq!(CliError::VerificationFailed.message(), "verification failed");
    assert_eq!(CliError::RefusedOverwrite.message(), "not overwriting existing file");
    assert_eq!(CliError::NoInputData.message(), "no incoming data in stdin");
    assert_ne!(
        CliError::KeyLevelMismatch.message(),
        CliError::BadLength { expected: 897, actual: 0 }.message()
    );
}
