//! Credential handling.

use rustmail::auth::{get_password, CredentialError};

/// A successful command's output is returned with surrounding whitespace
/// trimmed — a password command usually ends its output with a newline.
#[test]
fn password_is_trimmed() {
    let out = b"  hunter2-secret-417\n".to_vec();
    assert_eq!(get_password(true, out), Ok("hunter2-secret-417".to_string()));
}

/// A failed exit yields `CommandFailed`, whatever was printed.
#[test]
fn failed_command_is_an_error() {
    let out = b"something\n".to_vec();
    assert_eq!(get_password(false, out), Err(CredentialError::CommandFailed));
}

/// Output that is not valid text yields `NotText`.
#[test]
fn non_text_output_is_an_error() {
    let out = vec![0xffu8, 0xfe, 0xfd];
    assert_eq!(get_password(true, out), Err(CredentialError::NotText));
}

/// Valid empty output is accepted and trims to the empty credential.
#[test]
fn empty_output_trims_to_empty() {
    assert_eq!(get_password(true, Vec::new()), Ok(String::new()));
}
