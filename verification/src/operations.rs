//! The two-factor state machine: status query, recovery-code disclosure,
//! two-step authenticator enrollment, account recovery, and disable.
//!
//! Every operation takes the already-authenticated user record (or, for
//! recovery, the result of the caller's account lookup) as an explicit
//! argument, validates the caller's credentials, and either completes fully
//! or leaves the record untouched. Persistence is the caller's duty: an
//! operation that returns an error must not be followed by a save.

use vstd::prelude::*;

use crate::error::TwoFactorError;
use crate::provision::base32_decode_of;
use crate::provision::base32_of;
use crate::provision::decode_base32;
use crate::provision::encode_base32;
use crate::provision::generate_secret_key;
use crate::token::NumberOrString;
use crate::totp::totp_accepts;
use crate::totp::totp_token_matches;
use crate::user::User;

verus! {

/// The single provider this system knows: a TOTP authenticator app.
#[derive(Clone, Copy, Debug, PartialEq, Eq, Structural)]
pub enum ProviderType {
    Authenticator,
}

/// One provider's status, as the status query reports it.
#[derive(Clone, Copy, Debug, PartialEq, Eq, Structural)]
pub struct ProviderStatus {
    pub enabled: bool,
    pub provider_type: ProviderType,
}

/// What enrollment and activation answer: whether the authenticator is
/// enabled, and the secret key in base32 text form.
pub struct EnrollmentData {
    pub enabled: bool,
    pub key: String,
}

/// What the status query observes: nothing while two-factor authentication
/// is off, otherwise the enabled authenticator provider.
pub open spec fn status_spec(u: User) -> Option<ProviderStatus> {
    if u.totp_secret is Some {
        Some(
            ProviderStatus {
                enabled: true,
                provider_type: ProviderType::Authenticator,
            },
        )
    } else {
        None
    }
}

/// A candidate key is well-formed when it decodes as base32 to exactly
/// twenty bytes.
pub open spec fn key_well_formed(key: Seq<char>) -> bool {
    base32_decode_of(key) matches Some(b) && b.len() == 20
}

/// The bytes a well-formed candidate key decodes to.
pub open spec fn key_bytes(key: Seq<char>) -> Seq<u8>
    recommends
        key_well_formed(key),
{
    base32_decode_of(key)->0
}

/// The record with two-factor authentication off: both two-factor fields
/// cleared, everything else kept.
pub open spec fn disabled_user(u: User) -> User {
    User {
        email: u.email,
        password_hash: u.password_hash,
        totp_secret: None,
        totp_recover: None,
    }
}

/// What a recovery request decides, given the account lookup result and the
/// claimed credentials: the cleared record exactly when the account exists,
/// the password verifies and the code is the stored one; otherwise the first
/// failed check's error.
pub open spec fn recover_spec(found: Option<User>, password: Seq<char>, code: Seq<char>) -> Result<
    User,
    TwoFactorError,
> {
    match found {
        None => Err(TwoFactorError::AccountNotFound),
        Some(u) => {
            if !u.password_matches(password) {
                Err(TwoFactorError::InvalidCredential)
            } else if !u.recovery_code_matches(code) {
                Err(TwoFactorError::RecoveryCodeMismatch)
            } else {
                Ok(disabled_user(u))
            }
        },
    }
}

/// Status query: reports whether the authenticator provider is enabled. Read
/// only; never fails.
pub fn get_twofactor(user: &User) -> (r: Option<ProviderStatus>)
    ensures
        r == status_spec(*user),
{
    match &user.totp_secret {
        Some(_) => Some(
            ProviderStatus { enabled: true, provider_type: ProviderType::Authenticator },
        ),
        None => None,
    }
}

/// Recovery code disclosure: returns the stored recovery code — absent if
/// two-factor authentication was never enabled — once the password verifies,
/// and discloses nothing otherwise. Read only.
pub fn get_recover(user: &User, master_password_hash: &String) -> (r: Result<
    Option<String>,
    TwoFactorError,
>)
    ensures
        r is Ok <==> user.password_matches(master_password_hash@),
        r matches Err(e) ==> e == TwoFactorError::InvalidCredential,
        r matches Ok(code) ==> (match (code, user.totp_recover) {
            (Some(c), Some(stored)) => c@ == stored@,
            (None, None) => true,
            _ => false,
        }),
{
    if !user.check_valid_password(master_password_hash) {
        return Err(TwoFactorError::InvalidCredential);
    }
    match &user.totp_recover {
        Some(code) => Ok(Some(code.clone())),
        None => Ok(None),
    }
}

/// Enrollment, step one: once the password verifies, reports the existing
/// secret if the authenticator is already enabled, and otherwise answers
/// with a fresh candidate key. The candidate is not persisted — the record
/// is read only — and only activation can make it the stored secret.
pub fn generate_authenticator(user: &User, master_password_hash: &String) -> (r: Result<
    EnrollmentData,
    TwoFactorError,
>)
    ensures
        r is Ok <==> user.password_matches(master_password_hash@),
        r matches Err(e) ==> e == TwoFactorError::InvalidCredential,
        r matches Ok(d) ==> (d.enabled <==> user.totp_secret is Some),
        r matches Ok(d) ==> (match user.totp_secret {
            Some(s) => d.key@ == s@,
            None => key_well_formed(d.key@),
        }),
{
    if !user.check_valid_password(master_password_hash) {
        return Err(TwoFactorError::InvalidCredential);
    }
    match &user.totp_secret {
        Some(secret) => Ok(EnrollmentData { enabled: true, key: secret.clone() }),
        None => Ok(EnrollmentData { enabled: false, key: generate_secret_key() }),
    }
}

/// Enrollment, step two: activation. Verifies the password, reduces the
/// token to a number, decodes the candidate key, and consults the TOTP
/// engine against the candidate — in that order. Only when every check
/// passes are the canonical key and a fresh recovery code committed to the
/// record, together; on any failure the record is untouched.
pub fn activate_authenticator(
    user: &mut User,
    master_password_hash: &String,
    key: &String,
    token: &NumberOrString,
    now: u64,
) -> (r: Result<EnrollmentData, TwoFactorError>)
    requires
        key@.len() <= usize::MAX / 32,
    ensures
        r is Err ==> *final(user) == *old(user),
        !old(user).password_matches(master_password_hash@) ==> r == Err::<
            EnrollmentData,
            TwoFactorError,
        >(TwoFactorError::InvalidCredential),
        old(user).password_matches(master_password_hash@) && token.numeric_value() is None ==> r
            == Err::<EnrollmentData, TwoFactorError>(TwoFactorError::MalformedToken),
        old(user).password_matches(master_password_hash@) && token.numeric_value() is Some
            && !key_well_formed(key@) ==> r == Err::<EnrollmentData, TwoFactorError>(
            TwoFactorError::InvalidSecretFormat,
        ),
        old(user).password_matches(master_password_hash@) && token.numeric_value() is Some
            && key_well_formed(key@) ==> (if totp_accepts(
            key_bytes(key@),
            token.numeric_value()->0,
            now,
        ) {
            r is Ok
        } else {
            r == Err::<EnrollmentData, TwoFactorError>(TwoFactorError::InvalidToken)
        }),
        r matches Ok(d) ==> {
            &&& d.enabled
            &&& d.key@ == base32_of(key_bytes(key@))
            &&& final(user).email == old(user).email
            &&& final(user).password_hash == old(user).password_hash
            &&& final(user).totp_secret matches Some(s) && s@ == base32_of(key_bytes(key@))
                && base32_decode_of(s@) == Some(key_bytes(key@))
            &&& final(user).totp_recover matches Some(c) && key_well_formed(c@)
            &&& final(user).two_factor_consistent()
        },
        old(user).two_factor_consistent() ==> final(user).two_factor_consistent(),
{
    if !user.check_valid_password(master_password_hash) {
        return Err(TwoFactorError::InvalidCredential);
    }
    let token_value: u64 = match token.into_number() {
        Some(v) => v,
        None => {
            return Err(TwoFactorError::MalformedToken);
        },
    };
    let decoded = match decode_base32(key.as_str()) {
        Some(bytes) => bytes,
        None => {
            return Err(TwoFactorError::InvalidSecretFormat);
        },
    };
    if decoded.len() != 20 {
        return Err(TwoFactorError::InvalidSecretFormat);
    }
    if !totp_token_matches(&decoded, token_value, now) {
        return Err(TwoFactorError::InvalidToken);
    }
    let canonical_key = encode_base32(&decoded);
    user.totp_secret = Some(canonical_key.clone());
    user.totp_recover = Some(generate_secret_key());
    Ok(EnrollmentData { enabled: true, key: canonical_key })
}

/// Account recovery, the unauthenticated path: given the caller's lookup
/// result, clears both two-factor fields exactly when every check passes and
/// returns the record to persist. The three failures carry one user-visible
/// message (see [`TwoFactorError::message`]).
pub fn recover(found: Option<User>, master_password_hash: &String, recovery_code: &String) -> (r:
    Result<User, TwoFactorError>)
    ensures
        r == recover_spec(found, master_password_hash@, recovery_code@),
{
    let user = match found {
        Some(u) => u,
        None => {
            return Err(TwoFactorError::AccountNotFound);
        },
    };
    if !user.check_valid_password(master_password_hash) {
        return Err(TwoFactorError::InvalidCredential);
    }
    if !user.check_valid_recovery_code(recovery_code) {
        return Err(TwoFactorError::RecoveryCodeMismatch);
    }
    let mut user = user;
    user.totp_secret = None;
    user.totp_recover = None;
    Ok(user)
}

/// Disable: once the password verifies, clears both two-factor fields —
/// idempotently, an already-disabled record is cleared again without
/// complaint. The provider type is accepted but not dispatched on: this is a
/// single-provider system.
pub fn disable_authenticator(
    user: &mut User,
    master_password_hash: &String,
    _provider_type: &NumberOrString,
) -> (r: Result<ProviderStatus, TwoFactorError>)
    ensures
        !old(user).password_matches(master_password_hash@) ==> r == Err::<
            ProviderStatus,
            TwoFactorError,
        >(TwoFactorError::InvalidCredential) && *final(user) == *old(user),
        old(user).password_matches(master_password_hash@) ==> {
            &&& r == Ok::<ProviderStatus, TwoFactorError>(
                ProviderStatus { enabled: false, provider_type: ProviderType::Authenticator },
            )
            &&& *final(user) == disabled_user(*old(user))
        },
        old(user).two_factor_consistent() ==> final(user).two_factor_consistent(),
{
    if !user.check_valid_password(master_password_hash) {
        return Err(TwoFactorError::InvalidCredential);
    }
    user.totp_secret = None;
    user.totp_recover = None;
    Ok(ProviderStatus { enabled: false, provider_type: ProviderType::Authenticator })
}

} // verus!
