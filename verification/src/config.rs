//! Account settings.
//!
//! The settings arrive as an already-parsed, already-validated record: the
//! caller loads and deserializes its configuration file and hands the result
//! over as plain values. Nothing here reads disk or network.

use vstd::prelude::*;

verus! {

/// Top level configuration for one invocation.
#[derive(Debug, Clone)]
pub struct Config {
    /// Email account configuration.
    pub email_account: EmailAccount,
}

/// Settings for a single email account. Immutable once loaded; owned by the
/// caller for the duration of one check.
#[derive(Debug, Clone)]
pub struct EmailAccount {
    /// Email address used for this account.
    pub email: String,
    /// IMAP server address.
    pub imap_server: String,
    /// IMAP server port.
    pub imap_port: u16,
    /// SMTP server address.
    pub smtp_server: String,
    /// SMTP server port.
    pub smtp_port: u16,
    /// Username for authentication.
    pub username: String,
    /// Command to retrieve the password or token.
    pub password_cmd: String,
    /// Default folder to fetch mail from.
    pub default_folder: Option<String>,
    /// Whether to use TLS when connecting.
    pub use_tls: Option<bool>,
}

} // verus!
