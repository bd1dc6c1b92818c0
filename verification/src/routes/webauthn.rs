//! The four WebAuthn ceremony endpoints as step machines: each step decides what the
//! endpoint does next, and the caller does the outside work it names (session,
//! database) and hands the outcome to the next step.
//!
//! The frontend posts a single email. A brand-new email registers a passkey; a known
//! email authenticates. Branching is client-driven: registering a known email is
//! answered `409` with the hint "login", authenticating an unknown one `404` with the
//! hint "register".

use vstd::prelude::*;
use vstd::utf8::encode_utf8;

use webauthn_rs::prelude::{PublicKeyCredential, RegisterPublicKeyCredential};

use crate::authn::{
    new_user_handle, passkey_authentication_finish, passkey_authentication_start,
    passkey_registration_finish, passkey_registration_start, passkey_update, registration_result,
    authentication_result, assertion_accepted, registration_accepted, updated_passkey, uuid_bytes,
    uuid_v4_shape, AuthOutcome, AuthenticationChallenge, RegistrationChallenge, RelyingParty,
    StoredPasskey,
};
use crate::error::{AppError, Hint};
use crate::session::{AuthState, AuthedUser, RegState};
use crate::text::{contains_char, lowercase, to_lowercase, trim, trimmed};

verus! {

/// The email as the ceremonies use it: trimmed, then lower-cased.
pub open spec fn normalized(raw: Seq<char>) -> Seq<char> {
    lowercase(trimmed(raw))
}

/// An email is accepted when its UTF-8 encoding is 3 to 254 bytes long and it holds an `@`.
pub open spec fn email_acceptable(email: Seq<char>) -> bool {
    &&& 3 <= encode_utf8(email).len() <= 254
    &&& email.contains('@')
}

/// `raw` trimmed and lower-cased.
pub fn normalize_email(raw: &str) -> (r: String)
    ensures
        r@ == normalized(raw@),
{
    let t = trim(raw);
    to_lowercase(t.as_str())
}

/// Refuses an email that is too short, too long or has no `@`.
pub fn validate_email(email: &str) -> (r: Result<(), AppError>)
    ensures
        r is Ok <==> email_acceptable(email@),
        r matches Err(e) ==> e matches AppError::BadRequest(m) && m@ == "invalid email address"@,
{
    let bytes = email.as_bytes().len();
    if bytes < 3 || !contains_char(email, '@') || bytes > 254 {
        return Err(AppError::BadRequest("invalid email address".to_owned()));
    }
    Ok(())
}

/// The normalized email of a ceremony request, if it is acceptable.
pub fn ceremony_email(raw: &str) -> (r: Result<String, AppError>)
    ensures
        r is Ok <==> email_acceptable(normalized(raw@)),
        r matches Ok(e) ==> e@ == normalized(raw@),
        r matches Err(e) ==> e matches AppError::BadRequest(m) && m@ == "invalid email address"@,
{
    let email = normalize_email(raw);
    match validate_email(email.as_str()) {
        Ok(()) => Ok(email),
        Err(e) => Err(e),
    }
}


/// Registering an email that already has a credential is answered with the hint to log in.
pub fn require_unregistered(has_credential: bool) -> (r: Result<(), AppError>)
    ensures
        r is Ok <==> !has_credential,
        r matches Err(e) ==> e == AppError::Conflict(Hint::Login),
{
    if has_credential {
        return Err(AppError::Conflict(Hint::Login));
    }
    Ok(())
}

/// The handle for a registration: the one that an earlier, unfinished attempt created,
/// or else a fresh random one, shaped as a random UUID.
pub fn registration_user(existing: Option<u128>) -> (r: u128)
    ensures
        existing matches Some(id) ==> r == id,
        existing is None ==> uuid_v4_shape(r),
{
    match existing {
        Some(id) => id,
        None => new_user_handle(),
    }
}

/// Starts registering a passkey for `email` under `user_id`. It succeeds exactly for a
/// non-empty email; the challenge is made for that handle and email, and the returned
/// state binds both together with the ceremony state made for that same challenge, to be
/// kept in the session until the ceremony finishes.
pub fn start_registration(rp: &RelyingParty, user_id: u128, email: String) -> (r: Result<
    (RegistrationChallenge, RegState),
    AppError,
>)
    ensures
        r is Ok <==> email@.len() > 0,
        r matches Ok((c, st)) ==> st.user_id == user_id && st.email == email && c.handle()
            == uuid_bytes(user_id) && c.name() == email@ && c.display() == email@
            && c.verification_required(),
        r matches Ok((c, st)) ==> c.state() == st.reg,
        r matches Err(e) ==> e is Webauthn,
{
    match passkey_registration_start(rp, user_id, email.as_str()) {
        Ok((challenge, reg)) => Ok((challenge, RegState { user_id, email, reg })),
        Err(msg) => Err(AppError::Webauthn(msg)),
    }
}

/// The registration in progress, taken out of the session.
pub fn pending_registration(taken: Option<RegState>) -> (r: Result<RegState, AppError>)
    ensures
        r is Ok <==> taken is Some,
        r matches Ok(st) ==> taken == Some(st),
        r matches Err(e) ==> e matches AppError::BadRequest(m) && m@
            == "no registration in progress"@,
{
    match taken {
        Some(st) => Ok(st),
        None => Err(AppError::BadRequest("no registration in progress".to_owned())),
    }
}

/// Finishes a registration. It succeeds exactly when the relying party accepts the
/// authenticator's answer for the registration state; the passkey the relying party makes
/// of it is to be stored for the registration's user and email, and the session is
/// authenticated as exactly that user and email: the email stays bound to the key.
pub fn finish_registration(
    rp: &RelyingParty,
    cred: &RegisterPublicKeyCredential,
    state: RegState,
) -> (r: Result<(StoredPasskey, AuthedUser), AppError>)
    ensures
        r is Ok <==> registration_accepted(*rp, *cred, state.reg),
        r matches Ok((p, u)) ==> registration_result(*rp, *cred, state.reg) == Some(p)
            && u.user_id == state.user_id && u.email == state.email,
        r matches Err(e) ==> e is Webauthn,
{
    match passkey_registration_finish(rp, cred, &state.reg) {
        Ok(pk) => Ok((pk, AuthedUser { user_id: state.user_id, email: state.email })),
        Err(msg) => Err(AppError::Webauthn(msg)),
    }
}

/// Logging in with an unknown email is answered with the hint to register.
pub fn known_user(found: Option<u128>) -> (r: Result<u128, AppError>)
    ensures
        r is Ok <==> found is Some,
        r matches Ok(id) ==> found == Some(id),
        r matches Err(e) ==> e == AppError::NotFound(Hint::Register),
{
    match found {
        Some(id) => Ok(id),
        None => Err(AppError::NotFound(Hint::Register)),
    }
}

/// Logging in as a user without any passkey is answered with the hint to register.
pub fn require_passkeys(passkeys: &Vec<StoredPasskey>) -> (r: Result<(), AppError>)
    ensures
        r is Ok <==> passkeys.len() > 0,
        r matches Err(e) ==> e == AppError::NotFound(Hint::Register),
{
    if passkeys.len() == 0 {
        return Err(AppError::NotFound(Hint::Register));
    }
    Ok(())
}

/// The challenge allows exactly the credential ids of `passkeys`, in order, and requires
/// user verification.
pub open spec fn allows_exactly(c: AuthenticationChallenge, passkeys: Seq<StoredPasskey>) -> bool {
    &&& c.allowed_ids().len() == passkeys.len()
    &&& forall|i: int| 0 <= i < passkeys.len() ==> c.allowed_ids()[i] == (#[trigger] passkeys[i]).id()
    &&& c.verification_required()
}

/// Starts authenticating `user_id` with its passkeys: the challenge allows exactly their
/// credential ids and requires user verification, and the returned state holds the
/// ceremony state made for that same challenge. A user without any passkey is answered with the hint to register.
pub fn start_authentication(rp: &RelyingParty, user_id: u128, passkeys: &Vec<StoredPasskey>) -> (r:
    Result<(AuthenticationChallenge, AuthState), AppError>)
    ensures
        r is Ok <==> passkeys.len() > 0,
        r matches Ok((c, st)) ==> st.user_id == user_id && allows_exactly(c, passkeys@),
        r matches Ok((c, st)) ==> c.state() == st.auth,
        r matches Err(e) ==> e == AppError::NotFound(Hint::Register),
{
    if passkeys.len() == 0 {
        return Err(AppError::NotFound(Hint::Register));
    }
    match passkey_authentication_start(rp, passkeys) {
        Ok((challenge, auth)) => Ok((challenge, AuthState { user_id, auth })),
        Err(msg) => Err(AppError::Webauthn(msg)),
    }
}

/// The authentication in progress, taken out of the session.
pub fn pending_authentication(taken: Option<AuthState>) -> (r: Result<AuthState, AppError>)
    ensures
        r is Ok <==> taken is Some,
        r matches Ok(st) ==> taken == Some(st),
        r matches Err(e) ==> e matches AppError::BadRequest(m) && m@
            == "no authentication in progress"@,
{
    match taken {
        Some(st) => Ok(st),
        None => Err(AppError::BadRequest("no authentication in progress".to_owned())),
    }
}

/// Checks the authenticator's answer; the relying party also detects counter regression
/// and replay. It succeeds exactly when the relying party accepts the answer for the
/// state, with the outcome the relying party makes of it; a refusal is reported as a
/// WebAuthn error.
pub fn finish_authentication(
    rp: &RelyingParty,
    cred: &PublicKeyCredential,
    state: &AuthState,
) -> (r: Result<AuthOutcome, AppError>)
    ensures
        r is Ok <==> assertion_accepted(*rp, *cred, state.auth),
        r matches Ok(o) ==> authentication_result(*rp, *cred, state.auth) == Some(o),
        r matches Err(e) ==> e is Webauthn,
{
    match passkey_authentication_finish(rp, cred, &state.auth) {
        Ok(res) => Ok(res),
        Err(msg) => Err(AppError::Webauthn(msg)),
    }
}

/// Whether the authenticator advanced something (such as its counter) that should be
/// written back to the stored passkey.
pub fn needs_update(result: &AuthOutcome) -> (r: bool)
    ensures
        r == result.update_needed(),
{
    result.needs_update()
}

/// Position `j` holds the first of `passkeys` whose credential id is `id`.
pub open spec fn first_with_id(passkeys: Seq<StoredPasskey>, id: Seq<u8>, j: int) -> bool {
    &&& 0 <= j < passkeys.len()
    &&& passkeys[j].id() == id
    &&& forall|k: int| 0 <= k < j ==> (#[trigger] passkeys[k]).id() != id
}

/// Applies an authentication result to the passkey it was made with: the first of
/// `passkeys` whose credential id is the result's, which becomes that passkey as updated
/// by the result. Returns its position and the result's counter to store, or `None`
/// exactly when no passkey has that id. No passkey is added or removed, no credential id
/// changes, none but the one at the returned position changes, and with `None` none
/// changes.
pub fn apply_authentication(passkeys: &mut Vec<StoredPasskey>, result: &AuthOutcome) -> (r:
    Option<(usize, u32)>)
    ensures
        final(passkeys).len() == old(passkeys).len(),
        forall|j: int|
            0 <= j < old(passkeys).len() ==> (#[trigger] final(passkeys)@[j]).id() == old(
                passkeys,
            )@[j].id(),
        r is None <==> forall|j: int|
            0 <= j < old(passkeys).len() ==> (#[trigger] old(passkeys)@[j]).id() != result.id(),
        r matches Some((i, c)) ==> {
            &&& i < old(passkeys).len()
            &&& old(passkeys)@[i as int].id() == result.id()
            &&& c == result.counter_value()
            &&& final(passkeys)@[i as int] == updated_passkey(old(passkeys)@[i as int], *result)
            &&& forall|j: int| 0 <= j < i ==> (#[trigger] old(passkeys)@[j]).id() != result.id()
            &&& forall|j: int|
                0 <= j < old(passkeys).len() && j != i ==> final(passkeys)@[j] == old(
                    passkeys,
                )@[j]
        },
        r is None ==> final(passkeys)@ == old(passkeys)@,
{
    let n = passkeys.len();
    let mut i: usize = 0;
    while i < n
        invariant
            n == passkeys.len(),
            n == old(passkeys).len(),
            passkeys@ == old(passkeys)@,
            i <= n,
            forall|j: int| 0 <= j < i ==> (#[trigger] old(passkeys)@[j]).id() != result.id(),
        decreases n - i,
    {
        if same_bytes(passkeys[i].cred_id(), result.cred_id()) {
            let updated = passkey_update(passkeys, i, result);
            assert(updated is Some);
            return Some((i, result.counter()));
        }
        i = i + 1;
    }
    None
}

/// Whether two byte strings are equal.
pub fn same_bytes(a: &Vec<u8>, b: &Vec<u8>) -> (r: bool)
    ensures
        r == (a@ == b@),
{
    if a.len() != b.len() {
        return false;
    }
    let mut k: usize = 0;
    while k < a.len()
        invariant
            a.len() == b.len(),
            k <= a.len(),
            forall|m: int| 0 <= m < k ==> a@[m] == b@[m],
        decreases a.len() - k,
    {
        if a[k] != b[k] {
            return false;
        }
        k = k + 1;
    }
    assert(a@ =~= b@);
    true
}

/// The session user after a login: the user handle with the email stored for it. A
/// handle without a stored email is refused.
pub fn authenticated_user(user_id: u128, stored_email: Option<String>) -> (r: Result<
    AuthedUser,
    AppError,
>)
    ensures
        r is Ok <==> stored_email is Some,
        r matches Ok(u) ==> u.user_id == user_id && stored_email == Some(u.email),
        r matches Err(e) ==> e == AppError::Unauthorized,
{
    match stored_email {
        Some(email) => Ok(AuthedUser { user_id, email }),
        None => Err(AppError::Unauthorized),
    }
}

/// Where `POST /api/register/start` stands: each variant but `Failed` names the outside
/// work to do next and the step to hand its outcome to.
pub enum RegisterStart {
    /// Ask the database whether `email` has a credential; then `credentials_checked`.
    CheckCredentials { email: String },
    /// Look up the user handle stored for `email`; then `user_looked_up`.
    LookUpUser { email: String },
    /// Remove any registration state from the session; then `session_cleared`.
    ClearPending { user_id: u128, email: String },
    /// Store `state` in the session; then answer with `challenge`.
    StorePending { state: RegState, challenge: RegistrationChallenge },
    /// Answer with the error.
    Failed(AppError),
}

impl RegisterStart {
    /// Starts the endpoint for the posted email.
    pub fn begin(raw_email: &str) -> (r: RegisterStart)
        ensures
            email_acceptable(normalized(raw_email@)) ==> (r matches RegisterStart::CheckCredentials {
                email,
            } && email@ == normalized(raw_email@)),
            !email_acceptable(normalized(raw_email@)) ==> (r matches RegisterStart::Failed(e)
                && e matches AppError::BadRequest(m) && m@ == "invalid email address"@),
    {
        match ceremony_email(raw_email) {
            Ok(email) => RegisterStart::CheckCredentials { email },
            Err(e) => RegisterStart::Failed(e),
        }
    }

    /// An email that has a credential is answered with the hint to log in; any other is
    /// looked up.
    pub fn credentials_checked(email: String, has_credential: bool) -> (r: RegisterStart)
        ensures
            has_credential ==> r == RegisterStart::Failed(AppError::Conflict(Hint::Login)),
            !has_credential ==> r == (RegisterStart::LookUpUser { email }),
    {
        match require_unregistered(has_credential) {
            Ok(()) => RegisterStart::LookUpUser { email },
            Err(e) => RegisterStart::Failed(e),
        }
    }

    /// Keeps the handle of an unfinished earlier attempt, or takes a fresh random one.
    pub fn user_looked_up(email: String, existing: Option<u128>) -> (r: RegisterStart)
        ensures
            r matches RegisterStart::ClearPending { user_id, email: e } && e == email && (
            existing matches Some(id) ==> user_id == id) && (existing is None ==> uuid_v4_shape(
                user_id,
            )),
    {
        let user_id = registration_user(existing);
        RegisterStart::ClearPending { user_id, email }
    }

    /// Starts the ceremony: the challenge is made for the handle and the email and
    /// requires user verification, and its state binds both. An email that passed `begin` is never empty, so this succeeds
    /// for it.
    pub fn session_cleared(rp: &RelyingParty, user_id: u128, email: String) -> (r:
        RegisterStart)
        ensures
            email@.len() > 0 ==> r is StorePending,
            email@.len() == 0 ==> (r matches RegisterStart::Failed(e) && e is Webauthn),
            r matches RegisterStart::StorePending { state, challenge } ==> state.user_id
                == user_id && state.email == email && challenge.handle() == uuid_bytes(user_id)
                && challenge.name() == email@ && challenge.display() == email@
                && challenge.verification_required(),
            r matches RegisterStart::StorePending { state, challenge } ==> challenge.state()
                == state.reg,
    {
        match start_registration(rp, user_id, email) {
            Ok((challenge, state)) => RegisterStart::StorePending { state, challenge },
            Err(e) => RegisterStart::Failed(e),
        }
    }
}

/// Where `POST /api/register/finish` stands.
pub enum RegisterFinish {
    /// Take the registration state out of the session; then `pending_taken`.
    TakePending,
    /// Store the user with its new passkey; then `stored`.
    StoreCredential { user: AuthedUser, passkey: StoredPasskey },
    /// Mark the session as authenticated as `user`; then answer that it is.
    Authenticate { user: AuthedUser },
    /// Answer with the error.
    Failed(AppError),
}

impl RegisterFinish {
    /// Starts the endpoint.
    pub fn begin() -> (r: RegisterFinish)
        ensures
            r is TakePending,
    {
        RegisterFinish::TakePending
    }

    /// Finishes the ceremony in progress. It goes on to store a passkey exactly when the
    /// relying party accepts the answer; the passkey is the one the relying party makes of
    /// it, and the user to store and to authenticate is exactly the one the ceremony was
    /// started for, email included.
    pub fn pending_taken(
        rp: &RelyingParty,
        cred: &RegisterPublicKeyCredential,
        taken: Option<RegState>,
    ) -> (r: RegisterFinish)
        ensures
            taken is None ==> (r matches RegisterFinish::Failed(e) && e matches AppError::BadRequest(
                m,
            ) && m@ == "no registration in progress"@),
            taken matches Some(st) ==> (r is StoreCredential <==> registration_accepted(
                *rp,
                *cred,
                st.reg,
            )),
            taken matches Some(st) ==> (r matches RegisterFinish::StoreCredential { user, passkey }
                ==> user.user_id == st.user_id && user.email == st.email && registration_result(
                *rp,
                *cred,
                st.reg,
            ) == Some(passkey)),
            taken is Some ==> (r matches RegisterFinish::Failed(e) ==> e is Webauthn),
            r is StoreCredential || r is Failed,
    {
        let state = match pending_registration(taken) {
            Ok(st) => st,
            Err(e) => return RegisterFinish::Failed(e),
        };
        match finish_registration(rp, cred, state) {
            Ok((passkey, user)) => RegisterFinish::StoreCredential { user, passkey },
            Err(e) => RegisterFinish::Failed(e),
        }
    }

    /// Once the passkey is stored, the session is authenticated as its user.
    pub fn stored(user: AuthedUser) -> (r: RegisterFinish)
        ensures
            r == (RegisterFinish::Authenticate { user }),
    {
        RegisterFinish::Authenticate { user }
    }
}

/// Where `POST /api/login/start` stands.
pub enum LoginStart {
    /// Look up the user handle stored for `email`; then `user_looked_up`.
    LookUpUser { email: String },
    /// Load the passkeys of `user_id` (`parse_passkeys` reads the stored rows); then
    /// `passkeys_loaded`.
    LoadPasskeys { user_id: u128 },
    /// Remove any authentication state from the session; then `session_cleared`.
    ClearPending { user_id: u128, passkeys: Vec<StoredPasskey> },
    /// Store `state` in the session; then answer with `challenge`.
    StorePending { state: AuthState, challenge: AuthenticationChallenge },
    /// Answer with the error.
    Failed(AppError),
}

impl LoginStart {
    /// Starts the endpoint for the posted email.
    pub fn begin(raw_email: &str) -> (r: LoginStart)
        ensures
            email_acceptable(normalized(raw_email@)) ==> (r matches LoginStart::LookUpUser { email }
                && email@ == normalized(raw_email@)),
            !email_acceptable(normalized(raw_email@)) ==> (r matches LoginStart::Failed(e)
                && e matches AppError::BadRequest(m) && m@ == "invalid email address"@),
    {
        match ceremony_email(raw_email) {
            Ok(email) => LoginStart::LookUpUser { email },
            Err(e) => LoginStart::Failed(e),
        }
    }

    /// An unknown email is answered with the hint to register.
    pub fn user_looked_up(found: Option<u128>) -> (r: LoginStart)
        ensures
            found is None ==> r == LoginStart::Failed(AppError::NotFound(Hint::Register)),
            found matches Some(id) ==> r == (LoginStart::LoadPasskeys { user_id: id }),
    {
        match known_user(found) {
            Ok(user_id) => LoginStart::LoadPasskeys { user_id },
            Err(e) => LoginStart::Failed(e),
        }
    }

    /// A user without passkeys is answered with the hint to register.
    pub fn passkeys_loaded(user_id: u128, passkeys: Vec<StoredPasskey>) -> (r: LoginStart)
        ensures
            passkeys.len() == 0 ==> r == LoginStart::Failed(AppError::NotFound(Hint::Register)),
            passkeys.len() > 0 ==> r == (LoginStart::ClearPending { user_id, passkeys }),
    {
        match require_passkeys(&passkeys) {
            Ok(()) => LoginStart::ClearPending { user_id, passkeys },
            Err(e) => LoginStart::Failed(e),
        }
    }

    /// Starts the ceremony for the user's passkeys: the challenge allows exactly their
    /// credential ids and requires user verification. With passkeys this always succeeds.
    pub fn session_cleared(rp: &RelyingParty, user_id: u128, passkeys: &Vec<StoredPasskey>) -> (r:
        LoginStart)
        ensures
            passkeys.len() > 0 ==> r is StorePending,
            passkeys.len() == 0 ==> r == LoginStart::Failed(AppError::NotFound(Hint::Register)),
            r matches LoginStart::StorePending { state, challenge } ==> state.user_id == user_id
                && allows_exactly(challenge, passkeys@),
            r matches LoginStart::StorePending { state, challenge } ==> challenge.state()
                == state.auth,
    {
        match start_authentication(rp, user_id, passkeys) {
            Ok((challenge, state)) => LoginStart::StorePending { state, challenge },
            Err(e) => LoginStart::Failed(e),
        }
    }
}

/// Where `POST /api/login/finish` stands.
pub enum LoginFinish {
    /// Take the authentication state out of the session; then `pending_taken`.
    TakePending,
    /// The authenticator's answer was accepted for `user_id`; `accepted` decides what follows.
    Accepted { user_id: u128, result: AuthOutcome },
    /// Load the passkeys of `user_id` (`parse_passkeys` reads the stored rows); then
    /// `passkeys_loaded`.
    LoadPasskeys { user_id: u128, result: AuthOutcome },
    /// Store the updated passkey and its counter; then `counter_stored`.
    StoreCounter { user_id: u128, passkey: StoredPasskey, counter: u32 },
    /// Look up the email stored for `user_id`; then `email_looked_up`.
    LookUpEmail { user_id: u128 },
    /// Mark the session as authenticated as `user`; then answer that it is.
    Authenticate { user: AuthedUser },
    /// Answer with the error.
    Failed(AppError),
}

impl LoginFinish {
    /// Starts the endpoint.
    pub fn begin() -> (r: LoginFinish)
        ensures
            r is TakePending,
    {
        LoginFinish::TakePending
    }

    /// Checks the authenticator's answer against the ceremony in progress: it is accepted,
    /// with the outcome the relying party makes of it, exactly when the relying party
    /// accepts it for the state.
    pub fn pending_taken(rp: &RelyingParty, cred: &PublicKeyCredential, taken: Option<AuthState>)
        -> (r: LoginFinish)
        ensures
            taken is None ==> (r matches LoginFinish::Failed(e) && e matches AppError::BadRequest(m)
                && m@ == "no authentication in progress"@),
            taken matches Some(st) ==> (r is Accepted <==> assertion_accepted(*rp, *cred, st.auth)),
            taken matches Some(st) ==> match r {
                LoginFinish::Accepted { user_id, result } => user_id == st.user_id
                    && authentication_result(*rp, *cred, st.auth) == Some(result),
                LoginFinish::Failed(e) => e is Webauthn,
                _ => false,
            },
    {
        let state = match pending_authentication(taken) {
            Ok(st) => st,
            Err(e) => return LoginFinish::Failed(e),
        };
        match finish_authentication(rp, cred, &state) {
            Ok(result) => LoginFinish::Accepted { user_id: state.user_id, result },
            Err(e) => LoginFinish::Failed(e),
        }
    }

    /// When the authenticator advanced its counter the passkeys are reloaded to store it;
    /// otherwise the user's email is looked up.
    pub fn accepted(user_id: u128, result: AuthOutcome) -> (r: LoginFinish)
        ensures
            result.update_needed() ==> r == (LoginFinish::LoadPasskeys { user_id, result }),
            !result.update_needed() ==> r == (LoginFinish::LookUpEmail { user_id }),
    {
        if needs_update(&result) {
            LoginFinish::LoadPasskeys { user_id, result }
        } else {
            LoginFinish::LookUpEmail { user_id }
        }
    }

    /// Applies the authentication result to the passkey it was made with, if the user
    /// still has it: the first passkey with the result's credential id, as updated by the
    /// result, and the result's counter are stored next. Without such a passkey the email
    /// is looked up.
    pub fn passkeys_loaded(user_id: u128, result: &AuthOutcome, passkeys: Vec<StoredPasskey>) -> (r:
        LoginFinish)
        ensures
            (exists|j: int| 0 <= j < passkeys.len() && (#[trigger] passkeys@[j]).id() == result.id())
                ==> (r matches LoginFinish::StoreCounter { user_id: id, passkey, counter } && id
                == user_id && passkey.id() == result.id() && counter == result.counter_value()
                && exists|j: int| #[trigger] first_with_id(passkeys@, result.id(), j) && passkey
                    == updated_passkey(passkeys@[j], *result)),
            (forall|j: int| 0 <= j < passkeys.len() ==> (#[trigger] passkeys@[j]).id() != result.id())
                ==> r == (LoginFinish::LookUpEmail { user_id }),
    {
        let mut passkeys = passkeys;
        let ghost before = passkeys@;
        match apply_authentication(&mut passkeys, result) {
            Some((i, counter)) => {
                assert(passkeys@[i as int].id() == before[i as int].id());
                let passkey = passkeys.remove(i);
                assert(first_with_id(before, result.id(), i as int));
                LoginFinish::StoreCounter { user_id, passkey, counter }
            },
            None => LoginFinish::LookUpEmail { user_id },
        }
    }

    /// Once the counter is stored, the user's email is looked up.
    pub fn counter_stored(user_id: u128) -> (r: LoginFinish)
        ensures
            r == (LoginFinish::LookUpEmail { user_id }),
    {
        LoginFinish::LookUpEmail { user_id }
    }

    /// The session is authenticated with the email stored for the user, never one from
    /// the request; a handle without one is refused.
    pub fn email_looked_up(user_id: u128, stored: Option<String>) -> (r: LoginFinish)
        ensures
            stored is None ==> r == LoginFinish::Failed(AppError::Unauthorized),
            stored matches Some(e) ==> (r matches LoginFinish::Authenticate { user } && user.user_id
                == user_id && user.email == e),
    {
        match authenticated_user(user_id, stored) {
            Ok(user) => LoginFinish::Authenticate { user },
            Err(e) => LoginFinish::Failed(e),
        }
    }
}

} // verus!
