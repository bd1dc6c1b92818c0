//! The relying party and the passkey values that the ceremonies hand around.
//!
//! The authenticator library's values are opaque. What the ceremony logic reads of them
//! (credential ids, the counter, whether an update is due, the user a challenge is made
//! for, the credentials a challenge allows) is copied out into plain fields right where
//! the library hands the value over, and kept next to it in a type of this library whose
//! fields only this module sets.

use vstd::prelude::*;

use webauthn_rs::prelude::{
    AuthenticationResult, CreationChallengeResponse, Passkey, PasskeyAuthentication,
    PasskeyRegistration, PublicKeyCredential, RegisterPublicKeyCredential,
    RequestChallengeResponse, Uuid, Webauthn, WebauthnBuilder,
};

use crate::error::AppError;
use crate::config::{parse_origin, rp_id_fits, url_domain, url_parses, Config, Origin};

verus! {

#[verifier::external_type_specification]
#[verifier::external_body]
pub struct ExWebauthn(Webauthn);

#[verifier::external_type_specification]
#[verifier::external_body]
pub struct ExCreationChallengeResponse(CreationChallengeResponse);

#[verifier::external_type_specification]
#[verifier::external_body]
pub struct ExRequestChallengeResponse(RequestChallengeResponse);

#[verifier::external_type_specification]
#[verifier::external_body]
pub struct ExRegisterPublicKeyCredential(RegisterPublicKeyCredential);

#[verifier::external_type_specification]
#[verifier::external_body]
pub struct ExPublicKeyCredential(PublicKeyCredential);

#[verifier::external_type_specification]
#[verifier::external_body]
pub struct ExPasskey(Passkey);

#[verifier::external_type_specification]
#[verifier::external_body]
pub struct ExAuthenticationResult(AuthenticationResult);

/// How long an authenticator may take to answer a challenge, in milliseconds: the
/// library's default of five minutes.
pub const AUTHENTICATOR_TIMEOUT_MS: u32 = 300000;

/// The 16 bytes of a user handle, most significant first, as a UUID holds them.
pub open spec fn uuid_bytes(id: u128) -> Seq<u8> {
    Seq::new(16, |k: int| (id >> ((120 - 8 * k) as u128)) as u8)
}

/// A handle has the shape of a random (version 4) UUID: version nibble 4, variant bits `10`.
pub open spec fn uuid_v4_shape(id: u128) -> bool {
    (id >> 76u128) & 0xf == 4 && (id >> 62u128) & 0x3 == 2
}

/// Calls `Uuid::new_v4`: a random user handle. Its source masks a random value so that
/// the version nibble is 4 and the variant bits are `10`; nothing else is claimed.
#[verifier::external_body]
pub(crate) fn new_user_handle() -> (r: u128)
    ensures
        uuid_v4_shape(r),
{
    Uuid::new_v4().as_u128()
}

/// The relying party: the authenticator library's configuration for this site. Only
/// `for_config` makes one, always with `AUTHENTICATOR_TIMEOUT_MS` as the authenticator
/// timeout, which fits the `u32` milliseconds that every challenge carries.
pub struct RelyingParty {
    webauthn: Webauthn,
    timeout_ms: u32,
}

/// The relying party configuration that `WebauthnBuilder` builds for the RP ID, the URL
/// parsed from the origin text, the RP name and the timeout in milliseconds.
pub uninterp spec fn built_webauthn(
    rp_id: Seq<char>,
    origin: Seq<char>,
    rp_name: Seq<char>,
    timeout_ms: u32,
) -> Webauthn;

/// Calls `WebauthnBuilder::new(rp_id, url)` for the origin's URL, then `rp_name` and
/// `timeout` with `timeout_ms` milliseconds, then `build`. Its source accepts the RP ID
/// exactly when the URL's domain (`Url::domain`) is the RP ID or ends with a dot followed
/// by it, and `build` always succeeds. What it builds depends on those four values alone
/// and is named `built_webauthn`.
#[verifier::external_body]
fn webauthn_build(rp_id: &str, origin: &Origin, rp_name: &str, timeout_ms: u32) -> (r: Result<
    Webauthn,
    String,
>)
    ensures
        r is Ok <==> (origin.domain() matches Some(d) && rp_id_fits(d, rp_id@)),
        r matches Ok(w) ==> w == built_webauthn(rp_id@, origin.text(), rp_name@, timeout_ms),
{
    let duration = std::time::Duration::from_millis(timeout_ms as u64);
    match WebauthnBuilder::new(rp_id, origin.url()) {
        Ok(b) => match b.rp_name(rp_name).timeout(duration).build() {
            Ok(w) => Ok(w),
            Err(e) => Err(e.to_string()),
        },
        Err(e) => Err(e.to_string()),
    }
}

impl RelyingParty {
    /// The authenticator timeout it was built with, in milliseconds.
    pub closed spec fn timeout(&self) -> u32 {
        self.timeout_ms
    }

    /// The authenticator library's configuration it holds.
    pub closed spec fn webauthn(&self) -> Webauthn {
        self.webauthn
    }

    /// The relying party of a configuration: it exists exactly when the origin is a URL
    /// whose domain is the RP ID or ends with a dot followed by it, and is then built for
    /// the configuration's RP ID, origin and RP name with `AUTHENTICATOR_TIMEOUT_MS`.
    pub fn for_config(config: &Config) -> (r: Result<RelyingParty, String>)
        ensures
            r is Ok <==> url_parses(config.rp_origin@) && (url_domain(config.rp_origin@) matches Some(
                d,
            ) && rp_id_fits(d, config.rp_id@)),
            r matches Ok(rp) ==> rp.timeout() == AUTHENTICATOR_TIMEOUT_MS && rp.webauthn()
                == built_webauthn(
                config.rp_id@,
                config.rp_origin@,
                config.rp_name@,
                AUTHENTICATOR_TIMEOUT_MS,
            ),
    {
        let origin = match parse_origin(config.rp_origin.as_str()) {
            Some(o) => o,
            None => return Err("RP_ORIGIN must be a valid URL".to_owned()),
        };
        match webauthn_build(
            config.rp_id.as_str(),
            &origin,
            config.rp_name.as_str(),
            AUTHENTICATOR_TIMEOUT_MS,
        ) {
            Ok(webauthn) => Ok(RelyingParty { webauthn, timeout_ms: AUTHENTICATOR_TIMEOUT_MS }),
            Err(e) => Err(e),
        }
    }
}

/// A stored passkey with its credential id, copied out of it when it was made or read.
pub struct StoredPasskey {
    cred_id: Vec<u8>,
    passkey: Passkey,
}

impl StoredPasskey {
    /// The passkey's credential id.
    pub closed spec fn id(self) -> Seq<u8> {
        self.cred_id@
    }

    /// The passkey's credential id.
    pub fn cred_id(&self) -> (r: &Vec<u8>)
        ensures
            r@ == self.id(),
    {
        &self.cred_id
    }

    /// The passkey itself, for storing it.
    pub fn passkey(&self) -> &Passkey {
        &self.passkey
    }
}

/// What `serde_json::to_string` writes for the passkey, or `None` where it fails.
pub uninterp spec fn passkey_json(p: StoredPasskey) -> Option<Seq<char>>;

/// Calls `serde_json::to_string` on the passkey. Its fields serialise in declaration
/// order and its maps are ordered, so the text depends on the passkey alone; it is named
/// `passkey_json`. An error comes back as its display text.
#[verifier::external_body]
fn passkey_to_json(p: &StoredPasskey) -> (r: Result<String, String>)
    ensures
        r is Ok <==> passkey_json(*p) is Some,
        r matches Ok(j) ==> passkey_json(*p) == Some(j@),
{
    serde_json::to_string(&p.passkey).map_err(|e| e.to_string())
}

impl StoredPasskey {
    /// The passkey as the JSON text it is stored as; a failure is an internal error.
    pub fn to_json(&self) -> (r: Result<String, AppError>)
        ensures
            r is Ok <==> passkey_json(*self) is Some,
            r matches Ok(j) ==> passkey_json(*self) == Some(j@),
            r matches Err(e) ==> e is Other,
    {
        match passkey_to_json(self) {
            Ok(j) => Ok(j),
            Err(m) => Err(AppError::Other(m)),
        }
    }
}

/// What `serde_json::from_str::<Passkey>` reads from `json`: the passkey, with its
/// credential id copied out, or `None` where the text is no passkey.
pub uninterp spec fn passkey_of_json(json: Seq<char>) -> Option<StoredPasskey>;

/// Calls `serde_json::from_str::<Passkey>` and copies the credential id of the passkey it
/// reads (`Passkey::cred_id`). The parse depends on the text alone; its outcome is named
/// `passkey_of_json`. An error comes back as its display text.
#[verifier::external_body]
fn passkey_from_json(json: &str) -> (r: Result<StoredPasskey, String>)
    ensures
        r is Ok <==> passkey_of_json(json@) is Some,
        r matches Ok(p) ==> passkey_of_json(json@) == Some(p),
{
    match serde_json::from_str::<Passkey>(json) {
        Ok(passkey) => Ok(StoredPasskey { cred_id: passkey.cred_id().as_ref().to_vec(), passkey }),
        Err(e) => Err(e.to_string()),
    }
}

/// Reads stored passkeys, one per row, in order; the first row that does not read as a
/// passkey fails the whole.
pub fn parse_passkeys(rows: &Vec<String>) -> (r: Result<Vec<StoredPasskey>, String>)
    ensures
        r is Ok <==> forall|i: int|
            0 <= i < rows.len() ==> (#[trigger] passkey_of_json(rows@[i]@)) is Some,
        r matches Ok(v) ==> v.len() == rows.len() && forall|i: int|
            0 <= i < rows.len() ==> passkey_of_json(rows@[i]@) == Some(#[trigger] v@[i]),
{
    let mut out: Vec<StoredPasskey> = Vec::new();
    let mut i: usize = 0;
    while i < rows.len()
        invariant
            i <= rows.len(),
            out.len() == i,
            forall|k: int| 0 <= k < i ==> passkey_of_json(#[trigger] rows@[k]@) == Some(out@[k]),
        decreases rows.len() - i,
    {
        match passkey_from_json(rows[i].as_str()) {
            Ok(p) => out.push(p),
            Err(e) => return Err(e),
        }
        i = i + 1;
    }
    Ok(out)
}

/// A registration challenge, with the user it is made for and whether it asks the
/// authenticator to verify the user copied out of it.
pub struct RegistrationChallenge {
    response: CreationChallengeResponse,
    user_handle: Vec<u8>,
    user_name: String,
    display_name: String,
    verify_user: bool,
    state: PasskeyRegistration,
}

impl RegistrationChallenge {
    /// The user handle the challenge is made for.
    pub closed spec fn handle(self) -> Seq<u8> {
        self.user_handle@
    }

    /// The user name the challenge is made for.
    pub closed spec fn name(self) -> Seq<char> {
        self.user_name@
    }

    /// The display name the challenge is made for.
    pub closed spec fn display(self) -> Seq<char> {
        self.display_name@
    }

    /// Whether the challenge requires user verification (its authenticator selection
    /// carries the policy `Required`).
    pub closed spec fn verification_required(self) -> bool {
        self.verify_user
    }

    /// The ceremony state the relying party made together with this challenge: the one an
    /// answer to this challenge is checked against.
    pub closed spec fn state(self) -> PasskeyRegistration {
        self.state
    }

    /// The challenge as it goes to the browser.
    pub fn response(self) -> CreationChallengeResponse {
        self.response
    }
}

/// An authentication challenge, with the credential ids it allows and whether it asks
/// the authenticator to verify the user copied out of it.
pub struct AuthenticationChallenge {
    response: RequestChallengeResponse,
    allowed: Vec<Vec<u8>>,
    verify_user: bool,
    state: PasskeyAuthentication,
}

impl AuthenticationChallenge {
    /// The credential ids the challenge allows, in order.
    pub closed spec fn allowed_ids(self) -> Seq<Seq<u8>> {
        self.allowed@.map_values(|v: Vec<u8>| v@)
    }

    /// Whether the challenge requires user verification (its policy is `Required`).
    pub closed spec fn verification_required(self) -> bool {
        self.verify_user
    }

    /// The ceremony state the relying party made together with this challenge: the one an
    /// answer to this challenge is checked against.
    pub closed spec fn state(self) -> PasskeyAuthentication {
        self.state
    }

    /// The challenge as it goes to the browser.
    pub fn response(self) -> RequestChallengeResponse {
        self.response
    }
}

/// An accepted authentication, with what the service reads of it copied out.
pub struct AuthOutcome {
    result: AuthenticationResult,
    cred_id: Vec<u8>,
    counter: u32,
    needs_update: bool,
}

impl AuthOutcome {
    /// The credential id the authenticator signed with.
    pub closed spec fn id(self) -> Seq<u8> {
        self.cred_id@
    }

    /// The authenticator's counter.
    pub closed spec fn counter_value(self) -> u32 {
        self.counter
    }

    /// Whether the stored passkey should be updated with this result.
    pub closed spec fn update_needed(self) -> bool {
        self.needs_update
    }

    /// The credential id the authenticator signed with.
    pub fn cred_id(&self) -> (r: &Vec<u8>)
        ensures
            r@ == self.id(),
    {
        &self.cred_id
    }

    /// The authenticator's counter.
    pub fn counter(&self) -> (r: u32)
        ensures
            r == self.counter_value(),
    {
        self.counter
    }

    /// Whether the stored passkey should be updated with this result.
    pub fn needs_update(&self) -> (r: bool)
        ensures
            r == self.update_needed(),
    {
        self.needs_update
    }
}

/// Calls `Webauthn::start_passkey_registration` with the handle (as UUID bytes), the email
/// as user name and display name, and no excluded credentials, and copies the user and the
/// user-verification policy out of the challenge (`Required` is that policy's default
/// value). Its source refuses only an empty name; otherwise the challenge names exactly
/// that user and requires user verification. The relying party's timeout fits `u32`
/// milliseconds, so the call does not panic. The challenge keeps a clone of the ceremony
/// state returned with it (the state derives `Clone`, so the clone equals it field by
/// field). The challenge itself is random and not claimed.
#[verifier::external_body]
pub(crate) fn passkey_registration_start(rp: &RelyingParty, user_id: u128, email: &str) -> (r:
    Result<(RegistrationChallenge, PasskeyRegistration), String>)
    ensures
        r is Ok <==> email@.len() > 0,
        r matches Ok((c, _)) ==> c.handle() == uuid_bytes(user_id) && c.name() == email@
            && c.display() == email@ && c.verification_required(),
        r matches Ok((c, reg)) ==> c.state() == reg,
{
    match rp.webauthn.start_passkey_registration(Uuid::from_u128(user_id), email, email, None) {
        Ok((response, reg)) => {
            let user = &response.public_key.user;
            let (user_handle, user_name) = (user.id.as_ref().to_vec(), user.name.clone());
            let display_name = user.display_name.clone();
            let selection = response.public_key.authenticator_selection.as_ref();
            let verify_user = selection.is_some_and(|s| s.user_verification == Default::default());
            let state = reg.clone();
            let c = RegistrationChallenge { response, user_handle, user_name, display_name, verify_user, state };
            Ok((c, reg))
        },
        Err(e) => Err(e.to_string()),
    }
}

/// What `Webauthn::finish_passkey_registration` makes of the authenticator's answer for a
/// registration state: the new passkey, with its credential id copied out, or `None` where
/// the answer is refused.
pub uninterp spec fn registration_result(
    rp: RelyingParty,
    cred: RegisterPublicKeyCredential,
    state: PasskeyRegistration,
) -> Option<StoredPasskey>;

/// Whether the relying party accepts the authenticator's answer for the registration state.
pub open spec fn registration_accepted(
    rp: RelyingParty,
    cred: RegisterPublicKeyCredential,
    state: PasskeyRegistration,
) -> bool {
    registration_result(rp, cred, state) is Some
}

/// Calls `Webauthn::finish_passkey_registration`, which checks the authenticator's answer
/// against the ceremony state, and copies the new passkey's credential id. Passkey
/// registration passes no attestation CA list, so no certificate time check runs: the
/// outcome depends on the relying party, the answer and the state alone, and is named
/// `registration_result`. A refusal comes back as the error's display text.
#[verifier::external_body]
pub(crate) fn passkey_registration_finish(
    rp: &RelyingParty,
    cred: &RegisterPublicKeyCredential,
    state: &PasskeyRegistration,
) -> (r: Result<StoredPasskey, String>)
    ensures
        r is Ok <==> registration_accepted(*rp, *cred, *state),
        r matches Ok(p) ==> registration_result(*rp, *cred, *state) == Some(p),
{
    match rp.webauthn.finish_passkey_registration(cred, state) {
        Ok(passkey) => Ok(StoredPasskey { cred_id: passkey.cred_id().as_ref().to_vec(), passkey }),
        Err(e) => Err(e.to_string()),
    }
}

/// Calls `Webauthn::start_passkey_authentication` for the passkeys and copies the allowed
/// credential ids and the user-verification policy out of the challenge (`Required` is
/// that policy's default value). Its source passes the policy `Required`, so the challenge
/// builder cannot fail and the challenge requires user verification, and it allows each
/// passkey's credential id in order; the relying party's timeout fits `u32` milliseconds,
/// so it does not panic. The challenge keeps a clone of the ceremony state returned with it
/// (the state derives `Clone`, so the clone equals it field by field). The challenge
/// itself is random and not claimed.
#[verifier::external_body]
pub(crate) fn passkey_authentication_start(rp: &RelyingParty, passkeys: &Vec<StoredPasskey>) -> (r:
    Result<(AuthenticationChallenge, PasskeyAuthentication), String>)
    ensures
        r is Ok,
        r matches Ok((c, _)) ==> c.allowed_ids().len() == passkeys.len() && forall|i: int|
            0 <= i < passkeys.len() ==> c.allowed_ids()[i] == (#[trigger] passkeys@[i]).id(),
        r matches Ok((c, _)) ==> c.verification_required(),
        r matches Ok((c, auth)) ==> c.state() == auth,
{
    let keys: Vec<Passkey> = passkeys.iter().map(|p| p.passkey.clone()).collect();
    match rp.webauthn.start_passkey_authentication(&keys) {
        Ok((response, auth)) => {
            let ids = response.public_key.allow_credentials.iter();
            let allowed = ids.map(|c| c.id.as_ref().to_vec()).collect();
            let verify_user = response.public_key.user_verification == Default::default();
            let state = auth.clone();
            Ok((AuthenticationChallenge { response, allowed, verify_user, state }, auth))
        },
        Err(e) => Err(e.to_string()),
    }
}

/// What `Webauthn::finish_passkey_authentication` makes of the authenticator's answer for
/// an authentication state: the result, with its credential id, counter and update flag
/// copied out, or `None` where the answer is refused.
pub uninterp spec fn authentication_result(
    rp: RelyingParty,
    cred: PublicKeyCredential,
    state: PasskeyAuthentication,
) -> Option<AuthOutcome>;

/// Whether the relying party accepts the authenticator's answer for the authentication
/// state.
pub open spec fn assertion_accepted(
    rp: RelyingParty,
    cred: PublicKeyCredential,
    state: PasskeyAuthentication,
) -> bool {
    authentication_result(rp, cred, state) is Some
}

/// Calls `Webauthn::finish_passkey_authentication`, which checks the signature and the
/// counter against the ceremony state, and copies the credential id, the counter and the
/// update flag out of the result (`cred_id`, `counter`, `needs_update`). It reads no clock
/// and no random source: the outcome depends on the relying party, the answer and the
/// state alone, and is named `authentication_result`. A refusal comes back as the error's
/// display text.
#[verifier::external_body]
pub(crate) fn passkey_authentication_finish(
    rp: &RelyingParty,
    cred: &PublicKeyCredential,
    state: &PasskeyAuthentication,
) -> (r: Result<AuthOutcome, String>)
    ensures
        r is Ok <==> assertion_accepted(*rp, *cred, *state),
        r matches Ok(o) ==> authentication_result(*rp, *cred, *state) == Some(o),
{
    match rp.webauthn.finish_passkey_authentication(cred, state) {
        Ok(result) => {
            let (cred_id, counter) = (result.cred_id().as_ref().to_vec(), result.counter());
            let needs_update = result.needs_update();
            Ok(AuthOutcome { result, cred_id, counter, needs_update })
        },
        Err(e) => Err(e.to_string()),
    }
}

/// The passkey as `Passkey::update_credential` leaves it after an authentication outcome:
/// counter and backup flags advanced where the outcome's credential id is the passkey's,
/// the passkey unchanged otherwise.
pub uninterp spec fn updated_passkey(p: StoredPasskey, outcome: AuthOutcome) -> StoredPasskey;

/// Calls `Passkey::update_credential` on `passkeys[i]` with the outcome's result. Its
/// source reads only the passkey and the result, so the passkey it leaves is named
/// `updated_passkey`; it returns `Some` exactly when the result's credential id is the
/// passkey's, changes nothing when it returns `None`, and never changes the credential id.
/// No other passkey changes.
#[verifier::external_body]
pub(crate) fn passkey_update(passkeys: &mut Vec<StoredPasskey>, i: usize, outcome: &AuthOutcome)
    -> (r: Option<bool>)
    requires
        i < old(passkeys).len(),
    ensures
        final(passkeys).len() == old(passkeys).len(),
        forall|j: int|
            0 <= j < old(passkeys).len() && j != i ==> final(passkeys)@[j] == old(passkeys)@[j],
        final(passkeys)@[i as int] == updated_passkey(old(passkeys)@[i as int], *outcome),
        final(passkeys)@[i as int].id() == old(passkeys)@[i as int].id(),
        r is Some <==> old(passkeys)@[i as int].id() == outcome.id(),
        r is None ==> final(passkeys)@ == old(passkeys)@,
{
    passkeys[i].passkey.update_credential(&outcome.result)
}

} // verus!
