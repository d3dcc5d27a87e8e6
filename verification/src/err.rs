//! The error taxonomy of the library.

use vstd::prelude::*;

use crate::text::{spec_decimal, usize_to_string};

verus! {

/// Everything that a command of this password manager can report to its
/// caller.  Best-effort cleanup failures (deleting a staging file, clearing
/// the clipboard) are deliberately absent: they are logged by the caller and
/// never surfaced as an error.
#[derive(Debug, PartialEq, Eq)]
pub enum AikotError {
    /// An external command (the encryption collaborator, the editor) failed;
    /// carries its captured diagnostic output.
    CommandFail { stderr: String },
    /// A secret's body turned out to be empty where a password was expected.
    EmptyPassword { name: String },
    /// The attempt cap was exhausted without a candidate password that
    /// satisfies the policy.
    GenerationFail { pwgen: String },
    /// Neither `gpg` nor `gpg2` could be found.
    GpgNotFound,
    /// A required environment value is missing.
    InvalidEnv { name: String },
    /// The requested password length is below the policy's floor.
    MinimumLength { pwgen: String, min_len: usize },
    /// A secret of that name already exists in the store.
    PassAlreadyExists { name: String },
    /// No secret of that name exists in the store.
    PassNotFound { name: String },
    /// The store holds no recipient identities to encrypt to.
    RecipientNotFound,
    /// A secret's body holds no `url:` field.
    UrlNotFound { name: String },
    /// No reachable clipboard subsystem.
    ClipboardBackendUnavailable,
    /// The detached clearing worker could not be spawned; the clipboard is
    /// left untouched in that case.
    DaemonizeFailed,
    /// Exclusive creation of the plaintext staging file failed.
    StagingCreateFailed,
}

/// The user-facing message of each error.
pub open spec fn spec_message(e: AikotError) -> Seq<char> {
    match e {
        AikotError::CommandFail { stderr } => "command execution fail: "@ + stderr@,
        AikotError::EmptyPassword { name } => "password file is empty: "@ + name@,
        AikotError::GenerationFail { pwgen } => "password genaration fail, "@ + pwgen@,
        AikotError::GpgNotFound => "gpg or gpg2 command not found"@,
        AikotError::InvalidEnv { name } => "invalid environment: "@ + name@,
        AikotError::MinimumLength { pwgen, min_len } => "password less than minimum length: "@
            + spec_decimal(min_len as nat) + " > "@ + pwgen@,
        AikotError::PassAlreadyExists { name } => "password file already exists: "@ + name@,
        AikotError::PassNotFound { name } => "password file not found: "@ + name@,
        AikotError::RecipientNotFound => "recipient not found"@,
        AikotError::UrlNotFound { name } => "url field not found: "@ + name@,
        AikotError::ClipboardBackendUnavailable => "clipboard backend unavailable"@,
        AikotError::DaemonizeFailed => "daemonize fail"@,
        AikotError::StagingCreateFailed => "temp file creation fail"@,
    }
}

impl AikotError {
    /// The descriptive message that the top level prints for this error.
    pub fn message(&self) -> (r: String)
        ensures
            r@ == spec_message(*self),
    {
        match self {
            AikotError::CommandFail { stderr } => {
                let mut s = String::from_str("command execution fail: ");
                s.append(stderr.as_str());
                s
            },
            AikotError::EmptyPassword { name } => {
                let mut s = String::from_str("password file is empty: ");
                s.append(name.as_str());
                s
            },
            AikotError::GenerationFail { pwgen } => {
                let mut s = String::from_str("password genaration fail, ");
                s.append(pwgen.as_str());
                s
            },
            AikotError::GpgNotFound => String::from_str("gpg or gpg2 command not found"),
            AikotError::InvalidEnv { name } => {
                let mut s = String::from_str("invalid environment: ");
                s.append(name.as_str());
                s
            },
            AikotError::MinimumLength { pwgen, min_len } => {
                let mut s = String::from_str("password less than minimum length: ");
                let n = usize_to_string(*min_len);
                s.append(n.as_str());
                s.append(" > ");
                s.append(pwgen.as_str());
                s
            },
            AikotError::PassAlreadyExists { name } => {
                let mut s = String::from_str("password file already exists: ");
                s.append(name.as_str());
                s
            },
            AikotError::PassNotFound { name } => {
                let mut s = String::from_str("password file not found: ");
                s.append(name.as_str());
                s
            },
            AikotError::RecipientNotFound => String::from_str("recipient not found"),
            AikotError::UrlNotFound { name } => {
                let mut s = String::from_str("url field not found: ");
                s.append(name.as_str());
                s
            },
            AikotError::ClipboardBackendUnavailable => String::from_str(
                "clipboard backend unavailable",
            ),
            AikotError::DaemonizeFailed => String::from_str("daemonize fail"),
            AikotError::StagingCreateFailed => String::from_str("temp file creation fail"),
        }
    }
}

} // verus!
