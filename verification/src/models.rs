//! The request and response payloads.

use vstd::prelude::*;

verus! {

/// `{ "email": "..." }`: begins both the register and the login ceremony.
#[derive(Debug)]
pub struct EmailRequest {
    pub email: String,
}

/// Returned when a ceremony completes and the session is now authenticated.
#[derive(Debug)]
pub struct AuthenticatedResponse {
    pub authenticated: bool,
}

impl AuthenticatedResponse {
    /// The answer to a completed ceremony.
    pub fn done() -> (r: AuthenticatedResponse)
        ensures
            r.authenticated,
    {
        AuthenticatedResponse { authenticated: true }
    }
}

/// The signup form. The email is intentionally not part of it: it is taken from the
/// authenticated session, so that it stays bound to the security key.
#[derive(Debug)]
pub struct SignupRequest {
    pub full_name: String,
    pub company: String,
    pub street: String,
    pub postal_code: String,
    pub city: String,
    pub country: String,
    pub gdpr_consent: bool,
}

/// A user's current signup, returned to pre-fill the edit form.
#[derive(Debug)]
pub struct SignupData {
    pub full_name: String,
    pub company: String,
    pub street: String,
    pub postal_code: String,
    pub city: String,
    pub country: String,
    pub gdpr_consent: bool,
}

/// One entry of the export: a registered security key, with its signup details if the
/// person completed the form (`signed_up` tells the two apart).
#[derive(Debug)]
pub struct Registration {
    pub email: String,
    pub registered_at: String,
    pub signed_up: bool,
    pub full_name: Option<String>,
    pub company: Option<String>,
    pub street: Option<String>,
    pub postal_code: Option<String>,
    pub city: Option<String>,
    pub country: Option<String>,
    pub gdpr_consent: Option<bool>,
    pub signed_up_at: Option<String>,
}

} // verus!
