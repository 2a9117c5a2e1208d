//! The credential provider's computing half.
//!
//! The secret itself comes from an opaque instruction that the caller runs in
//! a subordinate process, capturing exit status and standard output. This
//! module turns that captured outcome into the credential string: it fails if
//! the process failed or its output is not text, and otherwise returns the
//! output with surrounding whitespace trimmed. The credential is treated as
//! opaque: nothing here logs it or copies it into an error.

use vstd::prelude::*;
use vstd::utf8::{encode_utf8, decode_utf8, valid_utf8};

verus! {

/// Why a credential could not be produced.
#[derive(Debug, PartialEq, Eq, Structural, Clone, Copy)]
pub enum CredentialError {
    /// The credential command exited with a non-zero status.
    CommandFailed,
    /// The credential command's output was not valid text.
    NotText,
}

/// What `str::trim` leaves of a character sequence: the sequence with leading
/// and trailing whitespace removed.
pub uninterp spec fn trim_of(s: Seq<char>) -> Seq<char>;

/// Relies on `str::trim`: the result is a contiguous part of the input with
/// only leading and trailing whitespace removed, and depends on the input
/// characters alone.
#[verifier::external_body]
fn trim_str(s: &str) -> (r: String)
    ensures
        r@ == trim_of(s@),
{
    s.trim().to_owned()
}

/// Relies on `String::from_utf8`: succeeds exactly on valid UTF-8 input, and
/// the returned string's byte encoding is the input.
#[verifier::external_body]
fn bytes_to_string(bytes: Vec<u8>) -> (r: Option<String>)
    ensures
        r is Some <==> valid_utf8(bytes@),
        r matches Some(s) ==> encode_utf8(s@) == bytes@,
{
    String::from_utf8(bytes).ok()
}

/// Turns the captured outcome of the credential command into the credential.
///
/// `exit_ok` is whether the command exited successfully; `stdout` is its
/// captured standard output. Fails with `CommandFailed` on a failed exit and
/// with `NotText` on output that is not valid text; otherwise returns the
/// decoded output with surrounding whitespace trimmed.
pub fn get_password(exit_ok: bool, stdout: Vec<u8>) -> (r: Result<String, CredentialError>)
    ensures
        !exit_ok ==> r == Err::<String, CredentialError>(CredentialError::CommandFailed),
        exit_ok && !valid_utf8(stdout@) ==> r == Err::<String, CredentialError>(
            CredentialError::NotText,
        ),
        exit_ok && valid_utf8(stdout@) ==> (r matches Ok(p) && p@ == trim_of(
            decode_utf8(stdout@),
        )),
{
    if !exit_ok {
        return Err(CredentialError::CommandFailed);
    }
    let ghost raw = stdout@;
    match bytes_to_string(stdout) {
        None => Err(CredentialError::NotText),
        Some(text) => {
            proof {
                vstd::utf8::encode_utf8_decode_utf8(text@);
            }
            Ok(trim_str(text.as_str()))
        },
    }
}

} // verus!
