use followup::error::{AppError, Hint, LogLevel};


#[test]
fn each_error_has_its_status_and_body() {
    let cases: Vec<(AppError, u16, &str, LogLevel)> = vec![
        (AppError::Unauthorized, 401, r#"{"error":"unauthorized"}"#, LogLevel::Silent),
        (AppError::PhaseLocked, 403, r#"{"error":"forbidden"}"#, LogLevel::Silent),
        (
            AppError::NotFound(Hint::Register),
            404,
            r#"{"action":"register","error":"not found"}"#,
            LogLevel::Silent,
        ),
        (
            AppError::Conflict(Hint::Login),
            409,
            r#"{"action":"login","error":"conflict"}"#,
            LogLevel::Silent,
        ),
        (
            AppError::BadRequest("consent is required".to_string()),
            400,
            r#"{"error":"consent is required"}"#,
            LogLevel::Silent,
        ),
        (
            AppError::Webauthn("bad signature".to_string()),
            401,
            r#"{"error":"authentication failed"}"#,
            LogLevel::Warn,
        ),
        (AppError::Db("disk full".to_string()), 500, r#"{"error":"internal error"}"#, LogLevel::Error),
        (
            AppError::Session("store down".to_string()),
            500,
            r#"{"error":"internal error"}"#,
            LogLevel::Error,
        ),
        (AppError::Other("boom".to_string()), 500, r#"{"error":"internal error"}"#, LogLevel::Error),
    ];
    for (e, status, body, log) in cases {
        let r = e.into_response();
        assert_eq!(r.status, status);
        assert_eq!(r.body, body);
        assert_eq!(r.log, log);
    }
}

#[test]
fn internal_errors_do_not_leak_their_detail() {
    let a = AppError::Db("SELECT secret FROM users".to_string()).into_response();
    let b = AppError::Other("another secret".to_string()).into_response();
    assert_eq!(a.body, b.body);
    assert!(!a.body.contains("secret"));
    assert_eq!(a.note, "database error");
    assert_eq!(a.detail.as_deref(), Some("SELECT secret FROM users"));
    assert_eq!(b.note, "internal error");
    let w = AppError::Webauthn("bad signature".to_string()).into_response();
    assert_eq!(w.note, "webauthn ceremony failed");
    assert_eq!(w.detail.as_deref(), Some("bad signature"));
    let u = AppError::Unauthorized.into_response();
    assert!(u.detail.is_none() && u.note.is_empty());
}

#[test]
fn bad_request_messages_are_json_escaped() {
    let r = AppError::BadRequest("say \"hi\"\\\n\u{1}".to_string()).into_response();
    assert_eq!(r.body, "{\"error\":\"say \\\"hi\\\"\\\\\\n\\u0001\"}");
    let parsed: serde_json::Value = serde_json::from_str(&r.body).unwrap();
    assert_eq!(parsed["error"], "say \"hi\"\\\n\u{1}");
}

#[test]
fn control_characters_are_escaped_like_serde_json() {
    let r = AppError::BadRequest("\u{8}\t\n\u{c}\r\u{1f}\u{7f}ü".to_string()).into_response();
    assert_eq!(r.body, "{\"error\":\"\\b\\t\\n\\f\\r\\u001f\u{7f}ü\"}");
}
