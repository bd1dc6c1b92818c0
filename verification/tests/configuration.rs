use followup::config::{parse_bool, rp_id_fits_host, Config, ConfigError, EnvKey, EnvVars};

fn vars() -> EnvVars {
    EnvVars {
        bind_addr: Some("127.0.0.1:8080".to_string()),
        bind_addr_is_socket: true,
        database_url: Some("sqlite://data/app.db?mode=rwc".to_string()),
        rp_id: Some("firefox.com".to_string()),
        rp_origin: Some("https://enterprise.firefox.com".to_string()),
        rp_name: Some("Firefox Enterprise".to_string()),
        export_token: Some("export".to_string()),
        admin_token: Some("admin".to_string()),
        session_secure: Some("true".to_string()),
    }
}

fn err(v: EnvVars) -> ConfigError {
    match Config::from_env(v) {
        Ok(_) => panic!("configuration was accepted"),
        Err(e) => e,
    }
}

#[test]
fn a_complete_environment_is_accepted() {
    let c = Config::from_env(vars()).unwrap_or_else(|e| panic!("{e:?}"));
    assert_eq!(c.bind_addr, "127.0.0.1:8080");
    assert_eq!(c.database_url, "sqlite://data/app.db?mode=rwc");
    assert_eq!(c.rp_id, "firefox.com");
    assert_eq!(c.rp_origin, "https://enterprise.firefox.com");
    assert_eq!(c.rp_name, "Firefox Enterprise");
    assert_eq!(c.export_token, "export");
    assert_eq!(c.admin_token, "admin");
    assert!(c.session_secure);
}

#[test]
fn missing_variables_are_reported_in_order() {
    let mut v = vars();
    v.bind_addr = None;
    v.rp_id = None;
    assert_eq!(err(v), ConfigError::Missing(EnvKey::BindAddr));
    let mut v = vars();
    v.rp_id = None;
    v.admin_token = None;
    assert_eq!(err(v), ConfigError::Missing(EnvKey::RpId));
    let mut v = vars();
    v.session_secure = None;
    assert_eq!(err(v), ConfigError::Missing(EnvKey::SessionSecure));
    assert_eq!(EnvKey::SessionSecure.name(), "SESSION_SECURE");
}

#[test]
fn malformed_values_are_refused() {
    let mut v = vars();
    v.bind_addr_is_socket = false;
    assert_eq!(err(v), ConfigError::InvalidBindAddr);
    let mut v = vars();
    v.rp_origin = Some("not a url".to_string());
    assert_eq!(err(v), ConfigError::InvalidRpOrigin);
    let mut v = vars();
    v.session_secure = Some("TRUE".to_string());
    assert_eq!(err(v), ConfigError::InvalidSessionSecure);
}

#[test]
fn empty_tokens_are_refused() {
    let mut v = vars();
    v.export_token = Some(String::new());
    assert_eq!(err(v), ConfigError::EmptyExportToken);
    let mut v = vars();
    v.admin_token = Some(String::new());
    assert_eq!(err(v), ConfigError::EmptyAdminToken);
}

#[test]
fn rp_id_must_fit_the_origin_host() {
    let mut v = vars();
    v.rp_id = Some("irefox.com".to_string());
    assert_eq!(err(v), ConfigError::RpIdNotSuffix);
    let mut v = vars();
    v.rp_id = Some("enterprise.firefox.com".to_string());
    assert!(Config::from_env(v).is_ok());
    let mut v = vars();
    v.rp_origin = Some("data:text/plain,hi".to_string());
    assert_eq!(err(v), ConfigError::RpIdNotSuffix);
    assert!(rp_id_fits_host("localhost", "localhost"));
    assert!(rp_id_fits_host("a.b.example.org", "example.org"));
    assert!(!rp_id_fits_host("badexample.org", "example.org"));
    assert!(!rp_id_fits_host("example.org", "a.example.org"));
}

#[test]
fn session_flag_parses_like_bool_from_str() {
    assert_eq!(parse_bool("true"), Some(true));
    assert_eq!(parse_bool("false"), Some(false));
    assert_eq!(parse_bool("True"), None);
    assert_eq!(parse_bool(" true"), None);
    assert_eq!(parse_bool(""), None);
}

#[test]
fn origin_host_names_the_host_of_a_url_only() {
    assert_eq!(followup::config::origin_host("https://idm.example.com:8443/x"), Some("idm.example.com".to_string()));
    assert_eq!(followup::config::origin_host("http://127.0.0.1:8080"), Some("127.0.0.1".to_string()));
    assert_eq!(followup::config::origin_host("not a url"), None);
}
