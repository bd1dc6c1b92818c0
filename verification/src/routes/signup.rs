//! The signup endpoints' decisions. Both need an authenticated session (a completed
//! WebAuthn ceremony) and phase 2 to be active; the email always comes from the
//! session side, never from the form.

use vstd::prelude::*;

use crate::error::AppError;
use crate::models::SignupRequest;
use crate::session::AuthedUser;
use crate::text::{trim, trimmed};

verus! {

/// A form value counts as missing when nothing but white space is left after trimming.
pub open spec fn blank(s: Seq<char>) -> bool {
    trimmed(s).len() == 0
}

/// The name of the first required field, in form order, that is blank.
pub open spec fn first_blank_field(req: &SignupRequest) -> Option<Seq<char>> {
    if blank(req.full_name@) {
        Some("full_name"@)
    } else if blank(req.company@) {
        Some("company"@)
    } else if blank(req.street@) {
        Some("street"@)
    } else if blank(req.postal_code@) {
        Some("postal_code"@)
    } else if blank(req.city@) {
        Some("city"@)
    } else if blank(req.country@) {
        Some("country"@)
    } else {
        None
    }
}

/// The message for a refused form: consent first, then the first blank field.
pub open spec fn signup_refusal(req: &SignupRequest) -> Option<Seq<char>> {
    if !req.gdpr_consent {
        Some("consent is required"@)
    } else if first_blank_field(req) is Some {
        Some(first_blank_field(req)->0 + " is required"@)
    } else {
        None
    }
}

/// Refuses a session without an authenticated user.
pub fn require_authed(user: Option<AuthedUser>) -> (r: Result<AuthedUser, AppError>)
    ensures
        r is Ok <==> user is Some,
        r matches Ok(u) ==> user == Some(u),
        r matches Err(e) ==> e == AppError::Unauthorized,
{
    match user {
        Some(u) => Ok(u),
        None => Err(AppError::Unauthorized),
    }
}

/// Refuses while phase 2 is not active.
pub fn require_phase2(active: bool) -> (r: Result<(), AppError>)
    ensures
        r is Ok <==> active,
        r matches Err(e) ==> e == AppError::PhaseLocked,
{
    if !active {
        return Err(AppError::PhaseLocked);
    }
    Ok(())
}

fn blank_field(value: &String, name: &str) -> (r: Option<String>)
    ensures
        r is Some <==> blank(value@),
        r matches Some(m) ==> m@ == name@ + " is required"@,
{
    let t = trim(value.as_str());
    if t.as_str().is_empty() {
        Some(name.to_owned().concat(" is required"))
    } else {
        None
    }
}

/// A form is complete: consent is given and none of the six required fields is blank.
pub open spec fn form_complete(req: &SignupRequest) -> bool {
    &&& req.gdpr_consent
    &&& !blank(req.full_name@)
    &&& !blank(req.company@)
    &&& !blank(req.street@)
    &&& !blank(req.postal_code@)
    &&& !blank(req.city@)
    &&& !blank(req.country@)
}

/// The form is refused exactly when it is not complete. Without consent the refusal
/// names the consent; with consent and a blank name it names `full_name`, the first
/// field of the form; and whenever a field is named, that field is blank.
pub proof fn lemma_signup_refused_exactly_when_incomplete(req: &SignupRequest)
    ensures
        signup_refusal(req) is None <==> form_complete(req),
        !req.gdpr_consent ==> signup_refusal(req) == Some("consent is required"@),
        req.gdpr_consent && blank(req.full_name@) ==> signup_refusal(req) == Some(
            "full_name is required"@,
        ),
        first_blank_field(req) matches Some(f) ==> {
            ||| f == "full_name"@ && blank(req.full_name@)
            ||| f == "company"@ && blank(req.company@)
            ||| f == "street"@ && blank(req.street@)
            ||| f == "postal_code"@ && blank(req.postal_code@)
            ||| f == "city"@ && blank(req.city@)
            ||| f == "country"@ && blank(req.country@)
        },
{
    reveal_strlit("full_name");
    reveal_strlit(" is required");
    reveal_strlit("full_name is required");
    assert("full_name"@ + " is required"@ =~= "full_name is required"@);
}

/// Checks the signup form: consent must be given and no required field may be blank.
pub fn validate_signup(req: &SignupRequest) -> (r: Result<(), AppError>)
    ensures
        r is Ok <==> form_complete(req),
        r is Ok <==> signup_refusal(req) is None,
        r matches Err(e) ==> e matches AppError::BadRequest(m) && Some(m@) == signup_refusal(req),
{
    if !req.gdpr_consent {
        return Err(AppError::BadRequest("consent is required".to_owned()));
    }
    if let Some(m) = blank_field(&req.full_name, "full_name") {
        return Err(AppError::BadRequest(m));
    }
    if let Some(m) = blank_field(&req.company, "company") {
        return Err(AppError::BadRequest(m));
    }
    if let Some(m) = blank_field(&req.street, "street") {
        return Err(AppError::BadRequest(m));
    }
    if let Some(m) = blank_field(&req.postal_code, "postal_code") {
        return Err(AppError::BadRequest(m));
    }
    if let Some(m) = blank_field(&req.city, "city") {
        return Err(AppError::BadRequest(m));
    }
    if let Some(m) = blank_field(&req.country, "country") {
        return Err(AppError::BadRequest(m));
    }
    Ok(())
}

/// The email stored with a signup: the one stored for the user, or else the one in the
/// session. Never one from the form.
pub fn signup_email(stored: Option<String>, user: AuthedUser) -> (r: String)
    ensures
        stored matches Some(e) ==> r == e,
        stored is None ==> r == user.email,
{
    match stored {
        Some(e) => e,
        None => user.email,
    }
}

/// Where `GET /api/signup` stands.
pub enum SignupCurrent {
    /// Read the authenticated user from the session; then `session_read`.
    ReadSession,
    /// Read whether phase 2 is active; then `phase_checked`.
    CheckPhase { user: AuthedUser },
    /// Load the user's signup; then answer with the user's email and that signup.
    LoadSignup { user: AuthedUser },
    /// Answer with the error.
    Failed(AppError),
}

impl SignupCurrent {
    /// Starts the endpoint.
    pub fn begin() -> (r: SignupCurrent)
        ensures
            r is ReadSession,
    {
        SignupCurrent::ReadSession
    }

    /// A session without a user is refused before anything else is read.
    pub fn session_read(user: Option<AuthedUser>) -> (r: SignupCurrent)
        ensures
            user is None ==> r == SignupCurrent::Failed(AppError::Unauthorized),
            user matches Some(u) ==> r == (SignupCurrent::CheckPhase { user: u }),
    {
        match require_authed(user) {
            Ok(user) => SignupCurrent::CheckPhase { user },
            Err(e) => SignupCurrent::Failed(e),
        }
    }

    /// In phase 1 an authenticated session is refused.
    pub fn phase_checked(user: AuthedUser, active: bool) -> (r: SignupCurrent)
        ensures
            !active ==> r == SignupCurrent::Failed(AppError::PhaseLocked),
            active ==> r == (SignupCurrent::LoadSignup { user }),
    {
        match require_phase2(active) {
            Ok(()) => SignupCurrent::LoadSignup { user },
            Err(e) => SignupCurrent::Failed(e),
        }
    }
}

/// Where `POST /api/signup` stands. The posted form travels with each step, so the form
/// that is stored is the one that was checked.
pub enum SignupSubmit {
    /// Read the authenticated user from the session; then `session_read`.
    ReadSession { form: SignupRequest },
    /// Read whether phase 2 is active; then `phase_checked`.
    CheckPhase { user: AuthedUser, form: SignupRequest },
    /// Look up the email stored for the user; then `email_looked_up`.
    LookUpEmail { user: AuthedUser, form: SignupRequest },
    /// Store `form` as the signup of `user_id` with `email` (replacing an earlier one);
    /// then answer `{"ok":true}`.
    Upsert { user_id: u128, email: String, form: SignupRequest },
    /// Answer with the error.
    Failed(AppError),
}

impl SignupSubmit {
    /// Starts the endpoint for the posted form.
    pub fn begin(form: SignupRequest) -> (r: SignupSubmit)
        ensures
            r == (SignupSubmit::ReadSession { form }),
    {
        SignupSubmit::ReadSession { form }
    }

    /// A session without a user is refused before anything else is read.
    pub fn session_read(user: Option<AuthedUser>, form: SignupRequest) -> (r: SignupSubmit)
        ensures
            user is None ==> r == SignupSubmit::Failed(AppError::Unauthorized),
            user matches Some(u) ==> r == (SignupSubmit::CheckPhase { user: u, form }),
    {
        match require_authed(user) {
            Ok(user) => SignupSubmit::CheckPhase { user, form },
            Err(e) => SignupSubmit::Failed(e),
        }
    }

    /// In phase 1 an authenticated session is refused; in phase 2 the form is checked,
    /// and only a form that passes goes on.
    pub fn phase_checked(user: AuthedUser, active: bool, form: SignupRequest) -> (r:
        SignupSubmit)
        ensures
            !active ==> r == SignupSubmit::Failed(AppError::PhaseLocked),
            active && signup_refusal(&form) is None ==> r == (SignupSubmit::LookUpEmail {
                user,
                form,
            }),
            active && signup_refusal(&form) is Some ==> (r matches SignupSubmit::Failed(e)
                && e matches AppError::BadRequest(m) && Some(m@) == signup_refusal(&form)),
    {
        if let Err(e) = require_phase2(active) {
            return SignupSubmit::Failed(e);
        }
        match validate_signup(&form) {
            Ok(()) => SignupSubmit::LookUpEmail { user, form },
            Err(e) => SignupSubmit::Failed(e),
        }
    }

    /// The form is stored for the session's user with the email stored for that user, or
    /// else the session's; never an email from the form.
    pub fn email_looked_up(user: AuthedUser, stored: Option<String>, form: SignupRequest) -> (r:
        SignupSubmit)
        ensures
            stored matches Some(e) ==> r == (SignupSubmit::Upsert {
                user_id: user.user_id,
                email: e,
                form,
            }),
            stored is None ==> r == (SignupSubmit::Upsert {
                user_id: user.user_id,
                email: user.email,
                form,
            }),
    {
        let user_id = user.user_id;
        let email = signup_email(stored, user);
        SignupSubmit::Upsert { user_id, email, form }
    }
}

} // verus!
