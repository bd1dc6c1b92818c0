use followup::routes::export::{all_registrations, check_export_token, SignupRecord, UserRecord};

fn user(id: u128, email: &str, at: &str) -> UserRecord {
    UserRecord { user_id: id, email: email.to_string(), created_at: at.to_string() }
}

fn signup(id: u128, name: &str, at: &str) -> SignupRecord {
    SignupRecord {
        user_id: id,
        full_name: name.to_string(),
        company: "ACME".to_string(),
        street: "Main St 1".to_string(),
        postal_code: "12345".to_string(),
        city: "Berlin".to_string(),
        country: "DE".to_string(),
        gdpr_consent: true,
        created_at: at.to_string(),
    }
}

#[test]
fn export_with_token_returns_empty_array() {
    assert!(check_export_token("test-token", Some(b"Bearer test-token")).is_ok());
    let rows = all_registrations(&Vec::new(), &Vec::new());
    assert!(rows.is_empty());
}

#[test]
fn export_includes_registered_without_signup() {
    let users = vec![
        user(1, "registered@example.com", "2026-01-01T00:00:00Z"),
        user(2, "signed@example.com", "2026-01-02T00:00:00Z"),
    ];
    let signups = vec![signup(2, "Ada Lovelace", "2026-01-03T00:00:00Z")];
    let rows = all_registrations(&users, &signups);
    assert_eq!(rows.len(), 2, "export should include every registered key");

    let reg = rows.iter().find(|r| r.email == "registered@example.com").unwrap();
    assert!(!reg.signed_up);
    assert!(reg.full_name.is_none());

    let sig = rows.iter().find(|r| r.email == "signed@example.com").unwrap();
    assert!(sig.signed_up);
    assert_eq!(sig.full_name.as_deref(), Some("Ada Lovelace"));
    assert_eq!(sig.gdpr_consent, Some(true));
}

#[test]
fn export_lists_newest_first() {
    let users = vec![
        user(1, "a@x", "2026-01-02T00:00:00Z"),
        user(2, "b@x", "2026-01-03T00:00:00Z"),
        user(3, "c@x", "2026-01-01T00:00:00Z"),
        user(4, "d@x", "2026-01-02T10:00:00Z"),
    ];
    let signups = vec![signup(3, "C", "2026-02-01T00:00:00Z"), signup(1, "A", "2026-02-02T00:00:00Z")];
    let rows = all_registrations(&users, &signups);
    let order: Vec<&str> = rows.iter().map(|r| r.email.as_str()).collect();
    assert_eq!(order, vec!["b@x", "d@x", "a@x", "c@x"]);
    let a = &rows[2];
    assert_eq!(a.signed_up_at.as_deref(), Some("2026-02-02T00:00:00Z"));
    assert_eq!(a.registered_at, "2026-01-02T00:00:00Z");
    assert_eq!(a.company.as_deref(), Some("ACME"));
    assert!(rows[0].company.is_none() && rows[0].signed_up_at.is_none());
}
