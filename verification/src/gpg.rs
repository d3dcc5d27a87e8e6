//! The decision owed to the encryption collaborator's outcome.
//!
//! Running the external encryption tool is the caller's work; what the
//! command promises its own caller — the plaintext on success, the captured
//! diagnostics as a command failure otherwise — is decided here.

use vstd::prelude::*;

use crate::err::AikotError;

verus! {

/// What a decryption returns, given the collaborator's outcome: its
/// standard output is the plaintext if it succeeded, and its diagnostic
/// output rides the error if it did not.
pub fn decrypt(success: bool, stdout: String, stderr: String) -> (r: Result<String, AikotError>)
    ensures
        success ==> (r matches Ok(p) && p == stdout),
        !success ==> (r matches Err(AikotError::CommandFail { stderr: e }) && e == stderr),
{
    if success {
        Ok(stdout)
    } else {
        Err(AikotError::CommandFail { stderr })
    }
}

} // verus!
