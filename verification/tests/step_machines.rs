use followup::error::{AppError, Hint};
use followup::models::SignupRequest;
use followup::routes::signup::{SignupCurrent, SignupSubmit};
use followup::routes::webauthn::{LoginFinish, LoginStart, RegisterFinish, RegisterStart};
use followup::session::AuthedUser;
use followup::authn::RelyingParty;
use followup::config::{Config, EnvVars};

fn test_rp() -> RelyingParty {
    let config = Config::from_env(EnvVars {
        bind_addr: Some("127.0.0.1:8080".to_string()),
        bind_addr_is_socket: true,
        database_url: Some("sqlite::memory:".to_string()),
        rp_id: Some("localhost".to_string()),
        rp_origin: Some("http://localhost:8080".to_string()),
        rp_name: Some("test".to_string()),
        export_token: Some("e".to_string()),
        admin_token: Some("a".to_string()),
        session_secure: Some("false".to_string()),
    })
    .unwrap_or_else(|e| panic!("{e:?}"));
    RelyingParty::for_config(&config).unwrap()
}

fn user() -> AuthedUser {
    AuthedUser { user_id: 11, email: "session@example.com".to_string() }
}

fn form(consent: bool, city: &str) -> SignupRequest {
    SignupRequest {
        full_name: "Ada".to_string(),
        company: "ACME".to_string(),
        street: "Main St 1".to_string(),
        postal_code: "12345".to_string(),
        city: city.to_string(),
        country: "DE".to_string(),
        gdpr_consent: consent,
    }
}

#[test]
fn register_start_walks_to_a_stored_challenge() {
    let rp = test_rp();
    let email = match RegisterStart::begin("  New@Example.com ") {
        RegisterStart::CheckCredentials { email } => email,
        _ => panic!("expected the credential check"),
    };
    assert_eq!(email, "new@example.com");
    let email = match RegisterStart::credentials_checked(email, false) {
        RegisterStart::LookUpUser { email } => email,
        _ => panic!("expected the user lookup"),
    };
    let (user_id, email) = match RegisterStart::user_looked_up(email, Some(77)) {
        RegisterStart::ClearPending { user_id, email } => (user_id, email),
        _ => panic!("expected the session to be cleared"),
    };
    assert_eq!(user_id, 77);
    match RegisterStart::session_cleared(&rp, user_id, email) {
        RegisterStart::StorePending { state, challenge } => {
            assert_eq!(state.user_id, 77);
            assert_eq!(state.email, "new@example.com");
            let txt = serde_json::to_string(&challenge.response()).unwrap();
            assert!(txt.contains("challenge") && txt.contains("new@example.com"));
        }
        _ => panic!("expected a challenge"),
    }
}

#[test]
fn register_start_refuses_known_and_invalid_emails() {
    match RegisterStart::credentials_checked("a@b.c".to_string(), true) {
        RegisterStart::Failed(AppError::Conflict(Hint::Login)) => {}
        _ => panic!("expected the hint to log in"),
    }
    match RegisterStart::begin("nobody") {
        RegisterStart::Failed(AppError::BadRequest(m)) => assert_eq!(m, "invalid email address"),
        _ => panic!("expected a bad request"),
    }
}

#[test]
fn register_finish_needs_a_ceremony_in_progress() {
    let rp = test_rp();
    assert!(matches!(RegisterFinish::begin(), RegisterFinish::TakePending));
    let cred: webauthn_rs::prelude::RegisterPublicKeyCredential = serde_json::from_str(
        r#"{"id":"AAAA","rawId":"AAAA","response":{"attestationObject":"AAAA","clientDataJSON":"AAAA"},"type":"public-key","extensions":{}}"#,
    )
    .unwrap();
    match RegisterFinish::pending_taken(&rp, &cred, None) {
        RegisterFinish::Failed(AppError::BadRequest(m)) => assert_eq!(m, "no registration in progress"),
        _ => panic!("expected a bad request"),
    }
    match RegisterFinish::stored(user()) {
        RegisterFinish::Authenticate { user } => assert_eq!(user.email, "session@example.com"),
        _ => panic!("expected to authenticate"),
    }
}

#[test]
fn login_start_refuses_unknown_users_and_users_without_keys() {
    match LoginStart::begin(" Known@Example.com") {
        LoginStart::LookUpUser { email } => assert_eq!(email, "known@example.com"),
        _ => panic!("expected the user lookup"),
    }
    match LoginStart::user_looked_up(None) {
        LoginStart::Failed(AppError::NotFound(Hint::Register)) => {}
        _ => panic!("expected the hint to register"),
    }
    match LoginStart::user_looked_up(Some(4)) {
        LoginStart::LoadPasskeys { user_id } => assert_eq!(user_id, 4),
        _ => panic!("expected the passkeys to load"),
    }
    match LoginStart::passkeys_loaded(4, Vec::new()) {
        LoginStart::Failed(AppError::NotFound(Hint::Register)) => {}
        _ => panic!("expected the hint to register"),
    }
}

#[test]
fn login_finish_binds_the_stored_email() {
    assert!(matches!(LoginFinish::begin(), LoginFinish::TakePending));
    match LoginFinish::counter_stored(8) {
        LoginFinish::LookUpEmail { user_id } => assert_eq!(user_id, 8),
        _ => panic!("expected the email lookup"),
    }
    match LoginFinish::email_looked_up(8, Some("db@example.com".to_string())) {
        LoginFinish::Authenticate { user } => {
            assert_eq!(user.user_id, 8);
            assert_eq!(user.email, "db@example.com");
        }
        _ => panic!("expected to authenticate"),
    }
    match LoginFinish::email_looked_up(8, None) {
        LoginFinish::Failed(AppError::Unauthorized) => {}
        _ => panic!("expected unauthorized"),
    }
}

#[test]
fn signup_current_gates_on_session_then_phase() {
    assert!(matches!(SignupCurrent::begin(), SignupCurrent::ReadSession));
    assert!(matches!(SignupCurrent::session_read(None), SignupCurrent::Failed(AppError::Unauthorized)));
    assert!(matches!(SignupCurrent::session_read(Some(user())), SignupCurrent::CheckPhase { .. }));
    assert!(matches!(SignupCurrent::phase_checked(user(), false), SignupCurrent::Failed(AppError::PhaseLocked)));
    assert!(matches!(SignupCurrent::phase_checked(user(), true), SignupCurrent::LoadSignup { .. }));
}

#[test]
fn signup_submit_checks_phase_then_form_then_stores() {
    assert!(matches!(SignupSubmit::begin(form(true, "Berlin")), SignupSubmit::ReadSession { .. }));
    assert!(matches!(
        SignupSubmit::session_read(None, form(true, "Berlin")),
        SignupSubmit::Failed(AppError::Unauthorized)
    ));
    match SignupSubmit::session_read(Some(user()), form(true, "Berlin")) {
        SignupSubmit::CheckPhase { user: u, form: f } => {
            assert_eq!(u.user_id, 11);
            assert_eq!(f.city, "Berlin");
        }
        _ => panic!("expected the phase check"),
    }
    assert!(matches!(
        SignupSubmit::phase_checked(user(), false, form(true, " ")),
        SignupSubmit::Failed(AppError::PhaseLocked)
    ));
    match SignupSubmit::phase_checked(user(), true, form(true, " ")) {
        SignupSubmit::Failed(AppError::BadRequest(m)) => assert_eq!(m, "city is required"),
        _ => panic!("expected a bad request"),
    }
    match SignupSubmit::phase_checked(user(), true, form(true, "Berlin")) {
        SignupSubmit::LookUpEmail { form: f, .. } => assert_eq!(f.city, "Berlin"),
        _ => panic!("expected the email lookup"),
    }
    match SignupSubmit::email_looked_up(user(), None, form(true, "Hamburg")) {
        SignupSubmit::Upsert { user_id, email, form: f } => {
            assert_eq!(user_id, 11);
            assert_eq!(email, "session@example.com");
            assert_eq!(f.city, "Hamburg");
        }
        _ => panic!("expected the upsert"),
    }
    match SignupSubmit::email_looked_up(user(), Some("db@example.com".to_string()), form(true, "Köln")) {
        SignupSubmit::Upsert { email, form: f, .. } => {
            assert_eq!(email, "db@example.com");
            assert_eq!(f.city, "Köln");
        }
        _ => panic!("expected the upsert"),
    }
}

#[test]
fn a_forged_registration_answer_is_a_webauthn_error() {
    let rp = test_rp();
    let (user_id, email) = (5u128, "x@y.z".to_string());
    let pending = match RegisterStart::session_cleared(&rp, user_id, email) {
        RegisterStart::StorePending { state, .. } => state,
        _ => panic!("expected a challenge"),
    };
    let cred: webauthn_rs::prelude::RegisterPublicKeyCredential = serde_json::from_str(
        r#"{"id":"AAAA","rawId":"AAAA","response":{"attestationObject":"AAAA","clientDataJSON":"AAAA"},"type":"public-key","extensions":{}}"#,
    )
    .unwrap();
    match RegisterFinish::pending_taken(&rp, &cred, Some(pending)) {
        RegisterFinish::Failed(e) => {
            assert!(matches!(e, AppError::Webauthn(_)));
            let r = e.into_response();
            assert_eq!(r.status, 401);
            assert_eq!(r.body, r#"{"error":"authentication failed"}"#);
        }
        _ => panic!("a forged answer was accepted"),
    }
}
