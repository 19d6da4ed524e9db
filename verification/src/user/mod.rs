//! Logging in and out, and the login status.
pub mod login;
pub mod logout;
pub mod status;
