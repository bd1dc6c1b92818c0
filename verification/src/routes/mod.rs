//! The decisions behind each HTTP endpoint.

pub mod admin;
pub mod export;
pub mod signup;
pub mod webauthn;
