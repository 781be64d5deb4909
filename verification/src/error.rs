//! The failure modes of the two-factor operations, and the user-visible
//! message of each.

use vstd::prelude::*;
use vstd::string::StringExecFns;

verus! {

/// Why a two-factor operation was refused. Every failure is terminal for the
/// request and leaves the stored record untouched.
#[derive(Clone, Copy, Debug, PartialEq, Eq, Structural)]
pub enum TwoFactorError {
    /// The supplied master-password hash does not verify.
    InvalidCredential,
    /// No account matches the claimed identity (recovery path only).
    AccountNotFound,
    /// The supplied token is not numeric.
    MalformedToken,
    /// The supplied key is not valid base32 of exactly twenty bytes.
    InvalidSecretFormat,
    /// The supplied token does not validate against the candidate secret.
    InvalidToken,
    /// The supplied recovery code is not the stored one (recovery path only).
    RecoveryCodeMismatch,
}

impl TwoFactorError {
    /// The message shown to the caller. The three causes a recovery request
    /// can fail for — unknown account, wrong password, wrong code — share one
    /// message on purpose, so a caller cannot probe which check failed.
    pub fn message(&self) -> (r: String)
        ensures
            r@ == self.message_spec(),
    {
        match self {
            TwoFactorError::InvalidCredential => String::from_str("Username or password is incorrect. Try again."),
            TwoFactorError::AccountNotFound => String::from_str("Username or password is incorrect. Try again."),
            TwoFactorError::RecoveryCodeMismatch => String::from_str("Username or password is incorrect. Try again."),
            TwoFactorError::MalformedToken => String::from_str("Malformed token"),
            TwoFactorError::InvalidSecretFormat => String::from_str("Invalid totp secret"),
            TwoFactorError::InvalidToken => String::from_str("Invalid totp code"),
        }
    }

    /// The message of each failure kind.
    pub open spec fn message_spec(self) -> Seq<char> {
        match self {
            TwoFactorError::InvalidCredential => "Username or password is incorrect. Try again."@,
            TwoFactorError::AccountNotFound => "Username or password is incorrect. Try again."@,
            TwoFactorError::RecoveryCodeMismatch => "Username or password is incorrect. Try again."@,
            TwoFactorError::MalformedToken => "Malformed token"@,
            TwoFactorError::InvalidSecretFormat => "Invalid totp secret"@,
            TwoFactorError::InvalidToken => "Invalid totp code"@,
        }
    }
}

/// The three failures a recovery request can meet are indistinguishable to
/// the caller: they carry one and the same message.
pub proof fn lemma_recovery_failures_indistinguishable()
    ensures
        TwoFactorError::AccountNotFound.message_spec()
            == TwoFactorError::InvalidCredential.message_spec(),
        TwoFactorError::RecoveryCodeMismatch.message_spec()
            == TwoFactorError::InvalidCredential.message_spec(),
{
}

} // verus!
