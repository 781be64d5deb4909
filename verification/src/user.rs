//! The user record as this library sees it: an opaque master-password
//! verifier plus the two optional two-factor fields whose lifecycle the
//! operations in [`crate::operations`] govern.

use vstd::prelude::*;

verus! {

/// A user account record.
///
/// `password_hash` is the stored verifier for the master password; this
/// library only ever compares against it, never changes it. `totp_secret`
/// holds the base32-encoded shared secret of the authenticator when
/// two-factor authentication is enabled, and `totp_recover` holds the
/// base32-encoded single-use recovery code. The two optional fields are set
/// together at activation and cleared together at disable or recovery.
#[derive(Clone)]
pub struct User {
    pub email: String,
    pub password_hash: String,
    pub totp_secret: Option<String>,
    pub totp_recover: Option<String>,
}

impl User {
    /// The record-at-rest invariant: the recovery code is present exactly
    /// when the authenticator secret is present.
    pub open spec fn two_factor_consistent(self) -> bool {
        self.totp_recover is Some <==> self.totp_secret is Some
    }

    /// What a correct supplied master-password hash is for this record.
    pub open spec fn password_matches(self, supplied: Seq<char>) -> bool {
        supplied == self.password_hash@
    }

    /// What a correct supplied recovery code is for this record: a full,
    /// case-sensitive match with the stored code, which must be present.
    pub open spec fn recovery_code_matches(self, supplied: Seq<char>) -> bool {
        self.totp_recover matches Some(stored) && supplied == stored@
    }

    /// Decides whether `supplied` verifies against the stored master-password
    /// verifier.
    pub fn check_valid_password(&self, supplied: &String) -> (r: bool)
        ensures
            r == self.password_matches(supplied@),
    {
        *supplied == self.password_hash
    }

    /// Decides whether `supplied` is exactly the stored recovery code.
    pub fn check_valid_recovery_code(&self, supplied: &String) -> (r: bool)
        ensures
            r == self.recovery_code_matches(supplied@),
    {
        match &self.totp_recover {
            Some(stored) => *supplied == *stored,
            None => false,
        }
    }
}

} // verus!
