//! The library-wide laws of the two-factor lifecycle, stated over the same
//! spec functions that the operations' contracts use.

use vstd::prelude::*;

use crate::error::TwoFactorError;
use crate::operations::disabled_user;
use crate::operations::recover_spec;
use crate::operations::status_spec;
use crate::operations::ProviderStatus;
use crate::user::User;

verus! {

/// A recovery code is single-use: when a recovery request succeeds, replaying
/// the very same request against the record it produced fails — the code was
/// cleared together with the secret, so nothing is left to match.
pub proof fn lemma_recovery_code_single_use(found: User, password: Seq<char>, code: Seq<char>)
    requires
        recover_spec(Some(found), password, code) is Ok,
    ensures
        recover_spec(Some(recover_spec(Some(found), password, code)->Ok_0), password, code)
            == Err::<User, TwoFactorError>(TwoFactorError::RecoveryCodeMismatch),
{
}

/// The status query is idempotent: two status reads of the same record, with
/// no mutation between them, observe the same answer.
pub proof fn lemma_status_idempotent(
    u: User,
    first: Option<ProviderStatus>,
    second: Option<ProviderStatus>,
)
    requires
        first == status_spec(u),
        second == status_spec(u),
    ensures
        first == second,
{
}

/// The two two-factor fields die together: the record that a disable leaves
/// behind, and the record that a successful recovery yields, both satisfy the
/// record-at-rest invariant — and keep the identity and the password verifier
/// of the record they came from.
pub proof fn lemma_clearing_preserves_consistency(
    u: User,
    found: Option<User>,
    password: Seq<char>,
    code: Seq<char>,
)
    ensures
        disabled_user(u).two_factor_consistent(),
        disabled_user(u).email == u.email,
        disabled_user(u).password_hash == u.password_hash,
        recover_spec(found, password, code) matches Ok(v) ==> v.two_factor_consistent(),
{
}

} // verus!
