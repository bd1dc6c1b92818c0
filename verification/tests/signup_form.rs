use followup::error::AppError;
use followup::models::SignupRequest;
use followup::routes::signup::{require_authed, require_phase2, signup_email, validate_signup};
use followup::session::AuthedUser;

fn form() -> SignupRequest {
    SignupRequest {
        full_name: "A".to_string(),
        company: "B".to_string(),
        street: "C".to_string(),
        postal_code: "1".to_string(),
        city: "D".to_string(),
        country: "E".to_string(),
        gdpr_consent: true,
    }
}

fn refusal(req: &SignupRequest) -> String {
    match validate_signup(req) {
        Err(AppError::BadRequest(m)) => m,
        other => panic!("expected a bad request, got {other:?}"),
    }
}

#[test]
fn signup_requires_authenticated_session() {
    let e = require_authed(None).unwrap_err();
    assert_eq!(e.into_response().status, 401);
}

#[test]
fn get_signup_requires_session() {
    assert!(matches!(require_authed(None), Err(AppError::Unauthorized)));
    let u = require_authed(Some(AuthedUser { user_id: 1, email: "a@b".to_string() })).unwrap();
    assert_eq!(u.user_id, 1);
}

#[test]
fn phase_one_locks_the_form() {
    let e = require_phase2(false).unwrap_err();
    assert!(matches!(e, AppError::PhaseLocked));
    assert_eq!(e.into_response().status, 403);
    assert!(require_phase2(true).is_ok());
}

#[test]
fn a_complete_form_is_accepted() {
    assert!(validate_signup(&form()).is_ok());
}

#[test]
fn consent_is_checked_first() {
    let mut f = form();
    f.gdpr_consent = false;
    f.full_name = String::new();
    assert_eq!(refusal(&f), "consent is required");
}

#[test]
fn the_first_blank_field_is_named() {
    let mut f = form();
    f.street = " \t ".to_string();
    f.city = String::new();
    assert_eq!(refusal(&f), "street is required");
    let mut f = form();
    f.country = "\u{2003}".to_string();
    assert_eq!(refusal(&f), "country is required");
    let mut f = form();
    f.postal_code = String::new();
    assert_eq!(refusal(&f), "postal_code is required");
}

#[test]
fn the_stored_email_wins_over_the_session() {
    let u = AuthedUser { user_id: 1, email: "session@example.com".to_string() };
    assert_eq!(signup_email(Some("stored@example.com".to_string()), u), "stored@example.com");
    let u = AuthedUser { user_id: 1, email: "session@example.com".to_string() };
    assert_eq!(signup_email(None, u), "session@example.com");
}

#[test]
fn trimming_agrees_with_std_on_every_character_up_to_the_ideographic_space() {
    for c in (0u32..=0x3000).filter_map(char::from_u32) {
        let s = format!("{c}a{c}");
        assert_eq!(followup::text::trim(&s), s.trim(), "character U+{:04X}", c as u32);
    }
}
