use followup::error::AppError;
use followup::routes::admin::{bearer_matches, bearer_token, check_admin_token};
use followup::routes::export::check_export_token;

#[test]
fn export_requires_token() {
    let e = check_export_token("test-token", None).unwrap_err();
    assert!(matches!(e, AppError::Unauthorized));
    assert_eq!(e.into_response().status, 401);
}

#[test]
fn export_accepts_the_bearer_token() {
    assert!(check_export_token("test-token", Some(b"Bearer test-token")).is_ok());
}

#[test]
fn wrong_or_malformed_tokens_are_refused() {
    for h in [
        &b"Bearer wrong"[..],
        b"bearer test-token",
        b"Bearer  test-token",
        b"Bearer test-token ",
        b"test-token",
        b"Bearer test-tok\x7fen",
        b"Basic dGVzdA==",
    ] {
        assert!(check_admin_token("test-token", Some(h)).is_err(), "{h:?}");
    }
}

#[test]
fn bearer_token_reads_what_follows_the_scheme() {
    assert_eq!(bearer_token(Some(b"Bearer abc")), b"abc");
    assert_eq!(bearer_token(Some(b"Bearer a\tb")), b"a\tb");
    assert_eq!(bearer_token(Some(b"Bearer ")), b"");
    assert_eq!(bearer_token(Some(b"Bearer \xff")), b"");
    assert_eq!(bearer_token(Some(b"Bear")), b"");
    assert_eq!(bearer_token(None), b"");
}

#[test]
fn an_empty_token_would_admit_anonymous_requests() {
    // This is why the configuration refuses empty tokens.
    assert!(bearer_matches(None, ""));
    assert!(!bearer_matches(None, "x"));
}
