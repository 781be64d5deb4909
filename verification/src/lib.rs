//! Two-factor authentication lifecycle management.
//!
//! This library manages the time-based one-time-password (TOTP) two-factor
//! state of a user account: enrolling an authenticator, activating it after a
//! proof of possession, disclosing and consuming the single-use recovery code,
//! and disabling two-factor authentication. Every operation validates the
//! caller's credentials first and either completes fully or leaves the user
//! record untouched.

pub mod error;
pub mod laws;
pub mod operations;
pub mod provision;
pub mod token;
pub mod totp;
pub mod user;

pub use error::TwoFactorError;
pub use user::User;
