use followup::assets::{asset_path, serve, Served, INDEX_PATH};
use followup::db::{database_file_path, email_has_credential, phase2_active};

fn found(path: &str) -> (String, String) {
    match serve(path, true) {
        Served::Found(h) => (h.content_type, h.cache_control),
        Served::NotFound => panic!("not found"),
    }
}

#[test]
fn serves_embedded_index() {
    let (ct, cache) = found(INDEX_PATH);
    assert!(ct.contains("text/html"), "content-type was {ct}");
    assert_eq!(cache, "no-cache");
}

#[test]
fn serves_embedded_css() {
    let path = asset_path("/styles.css");
    assert_eq!(path, "styles.css");
    let (ct, _) = found(&path);
    assert!(ct.contains("text/css"), "content-type was {ct}");
}

#[test]
fn unknown_asset_is_404() {
    let path = asset_path("/does-not-exist.js");
    assert!(matches!(serve(&path, false), Served::NotFound));
}

#[test]
fn assets_under_assets_are_cached_for_a_day() {
    let (ct, cache) = found("assets/app.js");
    assert_eq!(cache, "public, max-age=86400");
    assert!(ct.contains("javascript"), "content-type was {ct}");
    let (ct, _) = found("blob.unknownext");
    assert_eq!(ct, "application/octet-stream");
}

#[test]
fn asset_path_drops_every_leading_slash() {
    assert_eq!(asset_path("///a/b.png"), "a/b.png");
    assert_eq!(asset_path("/"), "");
    assert_eq!(asset_path("x/"), "x/");
}

#[test]
fn database_file_path_strips_scheme_and_query() {
    assert_eq!(database_file_path("sqlite://data/app.db?mode=rwc").as_deref(), Some("data/app.db"));
    assert_eq!(database_file_path("sqlite:app.db").as_deref(), Some("app.db"));
    assert_eq!(database_file_path("sqlite://sqlite://x.db").as_deref(), Some("x.db"));
    assert_eq!(database_file_path("/abs/x.db?a=b?c").as_deref(), Some("/abs/x.db"));
    assert_eq!(database_file_path("sqlite::memory:"), None);
    assert_eq!(database_file_path("sqlite://"), None);
    assert_eq!(database_file_path("sqlite://?mode=memory"), None);
}

#[test]
fn stored_flags_read_as_booleans() {
    assert!(phase2_active(1) && phase2_active(-1));
    assert!(!phase2_active(0));
    assert!(email_has_credential(3));
    assert!(!email_has_credential(0));
}
