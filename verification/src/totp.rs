//! The TOTP engine adapter: decides whether a supplied token is the
//! authenticator code of a secret for the current or the immediately
//! preceding thirty-second time window.

use vstd::prelude::*;

verus! {

/// The six-digit authenticator code of `secret` for the thirty-second time
/// window `window`, as ASCII digit bytes.
pub uninterp spec fn totp_code_of(secret: Seq<u8>, window: int) -> Seq<u8>;

/// Relies on `totp_lite::totp_custom` with SHA-1, six digits and a
/// thirty-second step (RFC 6238): deterministic in the secret and the time
/// window `time / 30`.
#[verifier::external_body]
fn totp_digits(secret: &Vec<u8>, time: u64) -> (r: Vec<u8>)
    ensures
        r@ == totp_code_of(secret@, time as int / 30),
{
    totp_lite::totp_custom::<totp_lite::Sha1>(30, 6, secret.as_slice(), time).into_bytes()
}

/// The six-digit zero-padded decimal rendering of `token`, as ASCII bytes.
pub open spec fn token_digits(token: u64) -> Seq<u8>
    recommends
        token < 1000000,
{
    seq![
        (48 + (token / 100000) % 10) as u8,
        (48 + (token / 10000) % 10) as u8,
        (48 + (token / 1000) % 10) as u8,
        (48 + (token / 100) % 10) as u8,
        (48 + (token / 10) % 10) as u8,
        (48 + token % 10) as u8,
    ]
}

/// When the engine accepts `token` for `secret` at `now` seconds since the
/// epoch: the token renders to the code of the current window, or, as the
/// tolerance for clock skew, to the code of the window before it.
pub open spec fn totp_accepts(secret: Seq<u8>, token: u64, now: u64) -> bool {
    &&& token < 1000000
    &&& {
        ||| token_digits(token) == totp_code_of(secret, now as int / 30)
        ||| now >= 30 && token_digits(token) == totp_code_of(secret, (now as int - 30) / 30)
    }
}

/// Renders `token` as six zero-padded decimal digits.
fn render_token(token: u64) -> (r: Vec<u8>)
    requires
        token < 1000000,
    ensures
        r@ == token_digits(token),
{
    let mut v: Vec<u8> = Vec::new();
    v.push((48 + (token / 100000) % 10) as u8);
    v.push((48 + (token / 10000) % 10) as u8);
    v.push((48 + (token / 1000) % 10) as u8);
    v.push((48 + (token / 100) % 10) as u8);
    v.push((48 + (token / 10) % 10) as u8);
    v.push((48 + token % 10) as u8);
    proof {
        assert(v@ =~= token_digits(token));
    }
    v
}

/// Decides byte-string equality.
fn bytes_eq(a: &Vec<u8>, b: &Vec<u8>) -> (r: bool)
    ensures
        r == (a@ == b@),
{
    if a.len() != b.len() {
        return false;
    }
    let mut i: usize = 0;
    while i < a.len()
        invariant
            0 <= i <= a.len(),
            a@.len() == b@.len(),
            forall|j: int| 0 <= j < i ==> a@[j] == b@[j],
        decreases a.len() - i,
    {
        if a[i] != b[i] {
            return false;
        }
        i = i + 1;
    }
    proof {
        assert(a@ =~= b@);
    }
    true
}

/// Decides whether `token` is a valid authenticator code for `secret` at
/// `now` seconds since the epoch.
pub fn totp_token_matches(secret: &Vec<u8>, token: u64, now: u64) -> (r: bool)
    ensures
        r == totp_accepts(secret@, token, now),
{
    if token >= 1000000 {
        return false;
    }
    let rendered = render_token(token);
    let current = totp_digits(secret, now);
    if bytes_eq(&rendered, &current) {
        return true;
    }
    if now >= 30 {
        let previous = totp_digits(secret, now - 30);
        if bytes_eq(&rendered, &previous) {
            return true;
        }
    }
    false
}

} // verus!
