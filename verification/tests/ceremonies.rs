use followup::error::{AppError, Hint};
use followup::routes::webauthn::{
    authenticated_user, ceremony_email, known_user, normalize_email, pending_authentication,
    pending_registration, registration_user, require_unregistered, start_authentication,
    start_registration, validate_email,
};
use followup::authn::{parse_passkeys, RelyingParty};
use followup::config::{Config, EnvVars};

fn test_rp() -> RelyingParty {
    let config = Config::from_env(EnvVars {
        bind_addr: Some("127.0.0.1:8080".to_string()),
        bind_addr_is_socket: true,
        database_url: Some("sqlite::memory:".to_string()),
        rp_id: Some("localhost".to_string()),
        rp_origin: Some("http://localhost:8080".to_string()),
        rp_name: Some("test".to_string()),
        export_token: Some("e".to_string()),
        admin_token: Some("a".to_string()),
        session_secure: Some("false".to_string()),
    })
    .unwrap_or_else(|e| panic!("{e:?}"));
    RelyingParty::for_config(&config).unwrap()
}

#[test]
fn normalize_trims_and_lowercases() {
    assert_eq!(normalize_email("  Alice@Example.COM \n"), "alice@example.com");
    assert_eq!(normalize_email("\u{3000}Bob@X.de\t"), "bob@x.de");
    assert_eq!(normalize_email("ÄRGER@Ü.DE"), "ärger@ü.de");
    assert_eq!(normalize_email("   "), "");
}

#[test]
fn validate_accepts_plain_addresses() {
    assert!(validate_email("a@b").is_ok());
    assert!(validate_email("new@example.com").is_ok());
}

#[test]
fn validate_refuses_short_long_and_at_less() {
    for bad in ["", "a@", "ab", "abc", "no-at-sign.example.com"] {
        match validate_email(bad) {
            Err(AppError::BadRequest(m)) => assert_eq!(m, "invalid email address"),
            other => panic!("{bad:?} gave {other:?}"),
        }
    }
    let long_ok = format!("{}@x", "a".repeat(252));
    assert_eq!(long_ok.len(), 254);
    assert!(validate_email(&long_ok).is_ok());
    let too_long = format!("{}@x", "a".repeat(253));
    assert!(validate_email(&too_long).is_err());
}

#[test]
fn validate_counts_bytes_not_chars() {
    // "ä@" is two characters but three bytes.
    assert!(validate_email("ä@").is_ok());
    let umlauts = format!("{}@", "ä".repeat(127));
    assert_eq!(umlauts.len(), 255);
    assert!(validate_email(&umlauts).is_err());
}

#[test]
fn ceremony_email_normalizes_before_validating() {
    assert_eq!(ceremony_email("  New@Example.com ").unwrap(), "new@example.com");
    assert!(matches!(ceremony_email("  a  "), Err(AppError::BadRequest(_))));
}

#[test]
fn registering_a_known_email_hints_login() {
    assert!(require_unregistered(false).is_ok());
    let e = require_unregistered(true).unwrap_err();
    assert!(matches!(e, AppError::Conflict(Hint::Login)));
    let r = e.into_response();
    assert_eq!(r.status, 409);
    assert_eq!(r.body, r#"{"action":"login","error":"conflict"}"#);
}

#[test]
fn registration_reuses_an_unfinished_handle() {
    assert_eq!(registration_user(Some(42)), 42);
    // A fresh handle is random; two of them differ with overwhelming probability.
    let (a, b) = (registration_user(None), registration_user(None));
    assert_ne!(a, b);
    for id in [a, b] {
        assert_eq!((id >> 76) & 0xf, 4);
        assert_eq!((id >> 62) & 0x3, 2);
    }
}

#[test]
fn register_start_returns_challenge() {
    let rp = test_rp();
    let email = ceremony_email("new@example.com").unwrap();
    let (ccr, state) = start_registration(&rp, 7, email).unwrap();
    assert_eq!(state.user_id, 7);
    assert_eq!(state.email, "new@example.com");
    let txt = serde_json::to_string(&ccr.response()).unwrap();
    assert!(txt.contains("publicKey") && txt.contains("challenge"), "body was {txt}");
}

#[test]
fn finishing_without_a_ceremony_is_a_bad_request() {
    match pending_registration(None) {
        Err(AppError::BadRequest(m)) => assert_eq!(m, "no registration in progress"),
        _ => panic!("expected a bad request"),
    }
    match pending_authentication(None) {
        Err(AppError::BadRequest(m)) => assert_eq!(m, "no authentication in progress"),
        _ => panic!("expected a bad request"),
    }
}

#[test]
fn login_start_unknown_email_hints_register() {
    let e = known_user(None).unwrap_err();
    let r = e.into_response();
    assert_eq!(r.status, 404);
    assert!(r.body.contains("register"));
    assert_eq!(r.body, r#"{"action":"register","error":"not found"}"#);
    assert_eq!(known_user(Some(5)).unwrap(), 5);
}

#[test]
fn login_without_passkeys_hints_register() {
    let rp = test_rp();
    match start_authentication(&rp, 9, &Vec::new()) {
        Err(AppError::NotFound(Hint::Register)) => {}
        _ => panic!("expected the hint to register"),
    }
}

#[test]
fn login_needs_a_stored_email() {
    let u = authenticated_user(3, Some("x@y.z".to_string())).unwrap();
    assert_eq!(u.user_id, 3);
    assert_eq!(u.email, "x@y.z");
    assert!(matches!(authenticated_user(3, None), Err(AppError::Unauthorized)));
}

#[test]
fn registration_challenge_names_the_user() {
    let rp = test_rp();
    let (challenge, _) = start_registration(&rp, 0x0102, "who@example.com".to_string()).unwrap();
    let txt = serde_json::to_string(&challenge.response()).unwrap();
    assert!(txt.contains("who@example.com"), "body was {txt}");
    assert!(matches!(start_registration(&rp, 1, String::new()), Err(AppError::Webauthn(_))));
}

#[test]
fn stored_passkeys_must_read_as_json() {
    assert_eq!(parse_passkeys(&Vec::new()).map(|v| v.len()), Ok(0));
    assert!(parse_passkeys(&vec!["not json".to_string()]).is_err());
}

fn config_for(rp_id: &str, origin: &str) -> Config {
    Config {
        bind_addr: "127.0.0.1:8080".to_string(),
        database_url: "sqlite::memory:".to_string(),
        rp_id: rp_id.to_string(),
        rp_origin: origin.to_string(),
        rp_name: "test".to_string(),
        export_token: "e".to_string(),
        admin_token: "a".to_string(),
        session_secure: false,
    }
}

#[test]
fn relying_party_accepts_an_rp_id_that_is_the_origins_domain_or_a_dotted_suffix() {
    assert!(RelyingParty::for_config(&config_for("example.com", "https://idm.example.com")).is_ok());
    assert!(RelyingParty::for_config(&config_for("idm.example.com", "https://idm.example.com")).is_ok());
    assert!(RelyingParty::for_config(&config_for("localhost", "http://localhost:8080")).is_ok());
}

#[test]
fn relying_party_refuses_an_rp_id_that_does_not_fit_the_origin() {
    assert!(RelyingParty::for_config(&config_for("example.com", "https://idm.different.com")).is_err());
    assert!(RelyingParty::for_config(&config_for("ample.com", "https://idm.example.com")).is_err());
    assert!(RelyingParty::for_config(&config_for("example.com", "not a url")).is_err());
}

#[test]
fn relying_party_refuses_an_origin_whose_host_is_an_ip_address() {
    assert!(RelyingParty::for_config(&config_for("127.0.0.1", "http://127.0.0.1:8080")).is_err());
}
