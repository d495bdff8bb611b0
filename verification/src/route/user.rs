//! Accounts and sessions.
pub mod login;
pub mod signup;
