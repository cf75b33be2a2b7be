//! Validation of the local part of an email-like identifier: a username.

pub mod username;

pub use username::validate_username;
