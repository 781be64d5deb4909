//! End-to-end exercises of the two-factor lifecycle: the status query,
//! enrollment and activation, recovery-code disclosure and consumption, and
//! disable, driven with concrete credentials and RFC 6238 test vectors.

use two_factor::operations::activate_authenticator;
use two_factor::operations::disable_authenticator;
use two_factor::operations::generate_authenticator;
use two_factor::operations::get_recover;
use two_factor::operations::get_twofactor;
use two_factor::operations::recover;
use two_factor::token::NumberOrString;
use two_factor::TwoFactorError;
use two_factor::User;

/// The RFC 6238 test secret, as base32 text.
const RFC_KEY: &str = "GEZDGNBVGY3TQOJQGEZDGNBVGY3TQOJQ";

/// A moment for which RFC 6238 lists the SHA-1 code 94287082; six digits of
/// it are 287082.
const RFC_TIME: u64 = 59;
const RFC_CODE: u64 = 287082;

fn fresh_user() -> User {
    User {
        email: String::from("user@example.com"),
        password_hash: String::from("stored-master-hash"),
        totp_secret: None,
        totp_recover: None,
    }
}

fn password() -> String {
    String::from("stored-master-hash")
}

fn wrong_password() -> String {
    String::from("wrong-master-hash")
}

/// Computes the six-digit code of `key` for the window of `time`, with the
/// same engine the library trusts.
fn code_for(key: &str, time: u64) -> u64 {
    let bytes = data_encoding::BASE32.decode(key.as_bytes()).unwrap();
    totp_lite::totp_custom::<totp_lite::Sha1>(30, 6, &bytes, time)
        .parse()
        .unwrap()
}

fn enabled_user() -> User {
    let mut user = fresh_user();
    let r = activate_authenticator(
        &mut user,
        &password(),
        &String::from(RFC_KEY),
        &NumberOrString::Number(RFC_CODE),
        RFC_TIME,
    );
    assert!(r.is_ok());
    user
}

#[test]
fn status_empty_without_two_factor() {
    let user = fresh_user();
    assert_eq!(get_twofactor(&user), None);
}

#[test]
fn status_idempotent() {
    let user = enabled_user();
    let first = get_twofactor(&user);
    let second = get_twofactor(&user);
    assert_eq!(first, second);
    let status = first.unwrap();
    assert!(status.enabled);
}

#[test]
fn begin_enrollment_rejects_wrong_password() {
    let user = fresh_user();
    let r = generate_authenticator(&user, &wrong_password());
    assert_eq!(r.err().unwrap(), TwoFactorError::InvalidCredential);
}

#[test]
fn begin_enrollment_returns_candidate() {
    let user = fresh_user();
    let data = generate_authenticator(&user, &password()).unwrap();
    assert!(!data.enabled);
    // The candidate is canonical base32 of twenty fresh bytes.
    assert_eq!(data.key.len(), 32);
    let decoded = data_encoding::BASE32.decode(data.key.as_bytes()).unwrap();
    assert_eq!(decoded.len(), 20);
}

#[test]
fn enrollment_candidates_are_fresh_and_unpersisted() {
    let user = fresh_user();
    let first = generate_authenticator(&user, &password()).unwrap();
    let second = generate_authenticator(&user, &password()).unwrap();
    assert_ne!(first.key, second.key);
    assert_eq!(get_twofactor(&user), None);
}

#[test]
fn begin_enrollment_reports_existing_secret() {
    let user = enabled_user();
    let data = generate_authenticator(&user, &password()).unwrap();
    assert!(data.enabled);
    assert_eq!(data.key, RFC_KEY);
}

#[test]
fn activate_rejects_invalid_token_and_keeps_state() {
    let mut user = fresh_user();
    let data = generate_authenticator(&user, &password()).unwrap();
    let now: u64 = 1_111_111_109;
    // A token that matches neither the current nor the previous window.
    let mut bad = (code_for(&data.key, now) + 1) % 1_000_000;
    if bad == code_for(&data.key, now - 30) {
        bad = (bad + 1) % 1_000_000;
    }
    let r = activate_authenticator(
        &mut user,
        &password(),
        &data.key,
        &NumberOrString::Number(bad),
        now,
    );
    assert_eq!(r.err().unwrap(), TwoFactorError::InvalidToken);
    assert_eq!(get_twofactor(&user), None);
    assert!(user.totp_secret.is_none() && user.totp_recover.is_none());
}

#[test]
fn activate_succeeds_with_valid_token() {
    let mut user = fresh_user();
    let r = activate_authenticator(
        &mut user,
        &password(),
        &String::from(RFC_KEY),
        &NumberOrString::Number(RFC_CODE),
        RFC_TIME,
    );
    let data = r.unwrap();
    assert!(data.enabled);
    assert_eq!(data.key, RFC_KEY);
    assert_eq!(user.totp_secret.as_deref(), Some(RFC_KEY));
    assert!(user.totp_recover.is_some());
    let status = get_twofactor(&user).unwrap();
    assert!(status.enabled);
    // The recovery code disclosed after activation is non-empty.
    let code = get_recover(&user, &password()).unwrap().unwrap();
    assert!(!code.is_empty());
}

#[test]
fn activate_accepts_previous_window_code() {
    let mut user = fresh_user();
    let r = activate_authenticator(
        &mut user,
        &password(),
        &String::from(RFC_KEY),
        &NumberOrString::Number(RFC_CODE),
        RFC_TIME + 30,
    );
    assert!(r.is_ok());
}

#[test]
fn activate_rejects_future_window_code() {
    let mut user = fresh_user();
    let future = code_for(RFC_KEY, RFC_TIME + 30);
    let r = activate_authenticator(
        &mut user,
        &password(),
        &String::from(RFC_KEY),
        &NumberOrString::Number(future),
        RFC_TIME,
    );
    assert_eq!(r.err().unwrap(), TwoFactorError::InvalidToken);
}

#[test]
fn activate_accepts_numeric_string_token() {
    let mut user = fresh_user();
    let r = activate_authenticator(
        &mut user,
        &password(),
        &String::from(RFC_KEY),
        &NumberOrString::Text(String::from("287082")),
        RFC_TIME,
    );
    assert!(r.is_ok());
}

#[test]
fn activate_accepts_zero_padded_token_text() {
    // "287082" and "0287082" denote the same number.
    let mut user = fresh_user();
    let r = activate_authenticator(
        &mut user,
        &password(),
        &String::from(RFC_KEY),
        &NumberOrString::Text(String::from("0287082")),
        RFC_TIME,
    );
    assert!(r.is_ok());
}

#[test]
fn activate_rejects_numeric_token_beyond_six_digits() {
    // A numeric token parses, but no seven-digit number is a code.
    let mut user = fresh_user();
    let r = activate_authenticator(
        &mut user,
        &password(),
        &String::from(RFC_KEY),
        &NumberOrString::Number(1_000_000 + RFC_CODE),
        RFC_TIME,
    );
    assert_eq!(r.err().unwrap(), TwoFactorError::InvalidToken);
}

#[test]
fn activate_rejects_malformed_token() {
    for text in ["", "12a456", " 287082", "99999999999999999999999"] {
        let mut user = fresh_user();
        let r = activate_authenticator(
            &mut user,
            &password(),
            &String::from(RFC_KEY),
            &NumberOrString::Text(String::from(text)),
            RFC_TIME,
        );
        assert_eq!(r.err().unwrap(), TwoFactorError::MalformedToken);
        assert!(user.totp_secret.is_none());
    }
}

#[test]
fn activate_parses_largest_numeric_string() {
    // The largest representable token is numeric, so the failure is the key
    // check, not token parsing.
    let mut user = fresh_user();
    let r = activate_authenticator(
        &mut user,
        &password(),
        &String::from("not base32!"),
        &NumberOrString::Text(String::from("18446744073709551615")),
        RFC_TIME,
    );
    assert_eq!(r.err().unwrap(), TwoFactorError::InvalidSecretFormat);
}

#[test]
fn activate_checks_password_before_token() {
    let mut user = fresh_user();
    let r = activate_authenticator(
        &mut user,
        &wrong_password(),
        &String::from(RFC_KEY),
        &NumberOrString::Text(String::from("junk")),
        RFC_TIME,
    );
    assert_eq!(r.err().unwrap(), TwoFactorError::InvalidCredential);
}

#[test]
fn activate_rejects_short_key_before_totp_check() {
    // Nineteen decoded bytes: well-formed base32, wrong length. The token
    // would even be valid for that key; the format check comes first.
    let short = data_encoding::BASE32.encode(&[7u8; 19]);
    let token = {
        let bytes = data_encoding::BASE32.decode(short.as_bytes()).unwrap();
        totp_lite::totp_custom::<totp_lite::Sha1>(30, 6, &bytes, RFC_TIME)
            .parse::<u64>()
            .unwrap()
    };
    let mut user = fresh_user();
    let r = activate_authenticator(
        &mut user,
        &password(),
        &short,
        &NumberOrString::Number(token),
        RFC_TIME,
    );
    assert_eq!(r.err().unwrap(), TwoFactorError::InvalidSecretFormat);
    assert!(user.totp_secret.is_none() && user.totp_recover.is_none());
}

#[test]
fn activate_rejects_text_that_is_not_base32() {
    let mut user = fresh_user();
    let r = activate_authenticator(
        &mut user,
        &password(),
        &String::from("lowercase!notbase32"),
        &NumberOrString::Number(RFC_CODE),
        RFC_TIME,
    );
    assert_eq!(r.err().unwrap(), TwoFactorError::InvalidSecretFormat);
}

#[test]
fn get_recover_rejects_wrong_password() {
    let user = enabled_user();
    let r = get_recover(&user, &wrong_password());
    assert_eq!(r.err().unwrap(), TwoFactorError::InvalidCredential);
}

#[test]
fn get_recover_without_two_factor_is_empty() {
    let user = fresh_user();
    assert_eq!(get_recover(&user, &password()).unwrap(), None);
}

#[test]
fn disable_rejects_wrong_password_and_keeps_state() {
    let mut user = enabled_user();
    let r = disable_authenticator(
        &mut user,
        &wrong_password(),
        &NumberOrString::Number(0),
    );
    assert_eq!(r.err().unwrap(), TwoFactorError::InvalidCredential);
    assert!(user.totp_secret.is_some() && user.totp_recover.is_some());
    assert!(get_twofactor(&user).unwrap().enabled);
}

#[test]
fn disable_clears_both_fields() {
    let mut user = enabled_user();
    let status = disable_authenticator(&mut user, &password(), &NumberOrString::Number(0)).unwrap();
    assert!(!status.enabled);
    assert!(user.totp_secret.is_none() && user.totp_recover.is_none());
    assert_eq!(get_twofactor(&user), None);
}

#[test]
fn disable_is_idempotent() {
    let mut user = fresh_user();
    let r = disable_authenticator(&mut user, &password(), &NumberOrString::Number(0));
    assert!(r.is_ok());
    assert!(user.totp_secret.is_none() && user.totp_recover.is_none());
}

#[test]
fn recover_clears_fields_and_code_is_single_use() {
    let user = enabled_user();
    let code = get_recover(&user, &password()).unwrap().unwrap();
    let recovered = recover(Some(user), &password(), &code).unwrap();
    assert!(recovered.totp_secret.is_none() && recovered.totp_recover.is_none());
    assert_eq!(recovered.email, "user@example.com");
    // Immediate replay of the very same request fails.
    let replay = recover(Some(recovered), &password(), &code);
    assert_eq!(replay.err().unwrap(), TwoFactorError::RecoveryCodeMismatch);
}

#[test]
fn recover_rejects_unknown_account() {
    let r = recover(None, &password(), &String::from("ANYCODE"));
    assert_eq!(r.err().unwrap(), TwoFactorError::AccountNotFound);
}

#[test]
fn recover_rejects_wrong_password() {
    let user = enabled_user();
    let code = get_recover(&user, &password()).unwrap().unwrap();
    let r = recover(Some(user), &wrong_password(), &code);
    assert_eq!(r.err().unwrap(), TwoFactorError::InvalidCredential);
}

#[test]
fn recover_rejects_wrong_code() {
    let user = enabled_user();
    let r = recover(Some(user), &password(), &String::from("NOTTHECODE"));
    assert_eq!(r.err().unwrap(), TwoFactorError::RecoveryCodeMismatch);
}

#[test]
fn recover_code_comparison_is_case_sensitive() {
    let user = enabled_user();
    let code = get_recover(&user, &password()).unwrap().unwrap();
    let lowered = code.to_lowercase();
    assert_ne!(code, lowered);
    let r = recover(Some(user), &password(), &lowered);
    assert_eq!(r.err().unwrap(), TwoFactorError::RecoveryCodeMismatch);
}

#[test]
fn recovery_failures_share_one_message() {
    let a = TwoFactorError::AccountNotFound.message();
    let b = TwoFactorError::InvalidCredential.message();
    let c = TwoFactorError::RecoveryCodeMismatch.message();
    assert_eq!(a, b);
    assert_eq!(b, c);
    assert_eq!(a, "Username or password is incorrect. Try again.");
}

#[test]
fn distinct_messages_for_activation_failures() {
    assert_eq!(TwoFactorError::MalformedToken.message(), "Malformed token");
    assert_eq!(TwoFactorError::InvalidSecretFormat.message(), "Invalid totp secret");
    assert_eq!(TwoFactorError::InvalidToken.message(), "Invalid totp code");
}

#[test]
fn recovery_code_rotates_on_reactivation() {
    // Activation after a disable issues a fresh recovery code.
    let mut user = enabled_user();
    let first = get_recover(&user, &password()).unwrap().unwrap();
    disable_authenticator(&mut user, &password(), &NumberOrString::Number(0)).unwrap();
    let r = activate_authenticator(
        &mut user,
        &password(),
        &String::from(RFC_KEY),
        &NumberOrString::Number(RFC_CODE),
        RFC_TIME,
    );
    assert!(r.is_ok());
    let second = get_recover(&user, &password()).unwrap().unwrap();
    assert_ne!(first, second);
}
