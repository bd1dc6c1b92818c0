//! Server-side session state. All three values live in the session store; only an
//! opaque session-id cookie ever reaches the browser.

use vstd::prelude::*;

use webauthn_rs::prelude::{PasskeyAuthentication, PasskeyRegistration};

verus! {

/// Session key of the in-flight registration ceremony.
pub const REG_STATE: &'static str = "reg_state";

/// Session key of the in-flight authentication ceremony.
pub const AUTH_STATE: &'static str = "auth_state";

/// Session key that marks the session as authenticated once a ceremony succeeds.
pub const AUTHED_USER: &'static str = "authed_user";

#[verifier::external_type_specification]
#[verifier::external_body]
pub struct ExPasskeyRegistration(PasskeyRegistration);

#[verifier::external_type_specification]
#[verifier::external_body]
pub struct ExPasskeyAuthentication(PasskeyAuthentication);

/// An in-flight registration: the user handle, the email it binds and the
/// authenticator library's ceremony state.
pub struct RegState {
    pub user_id: u128,
    pub email: String,
    pub reg: PasskeyRegistration,
}

/// An in-flight authentication: the user handle and the ceremony state.
pub struct AuthState {
    pub user_id: u128,
    pub auth: PasskeyAuthentication,
}

/// The user that a completed ceremony authenticated, with the email bound to the key.
#[derive(Debug)]
pub struct AuthedUser {
    pub user_id: u128,
    pub email: String,
}

} // verus!
