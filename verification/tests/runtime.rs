use client_catalogue_request::runtime::{
    assets_path, database_path, health_payload, index_path, is_immutable_asset, parse_port,
    runtime_config, sqlite_url, CONTENT_SECURITY_POLICY,
};

#[test]
fn runtime_defaults_to_port_and_local_paths() {
    let config = runtime_config(None, None, None);
    assert_eq!(config.port, 8080);
    assert_eq!(config.data_dir, "data");
    assert_eq!(config.web_dist, "dist");
}

#[test]
fn runtime_uses_supplied_settings() {
    let config = runtime_config(
        Some("3000".to_string()),
        Some("/srv/data".to_string()),
        Some("/srv/web".to_string()),
    );
    assert_eq!(config.port, 3000);
    assert_eq!(config.data_dir, "/srv/data");
    assert_eq!(config.web_dist, "/srv/web");
    assert_eq!(runtime_config(Some("eighty".to_string()), None, None).port, 8080);
    assert_eq!(runtime_config(Some("70000".to_string()), None, None).port, 8080);
}

#[test]
fn port_parsing_matches_u16_parsing() {
    for s in [
        "0", "80", "+80", "65535", "65536", "", "+", "-1", " 80", "80 ", "0080", "00000000065535",
        "99999999999999999999", "8o", "++1",
    ] {
        assert_eq!(parse_port(s), s.parse::<u16>().ok(), "input {s:?}");
    }
}

#[test]
fn content_security_policy_allows_sociobot_entra() {
    assert!(CONTENT_SECURITY_POLICY
        .split(';')
        .any(|directive| directive.trim() == "connect-src 'self' https://api.sociobot.in https://sociobotcustomers.ciamlogin.com"));
    assert!(CONTENT_SECURITY_POLICY
        .split(';')
        .any(|directive| directive.trim()
            == "frame-src 'self' https://sociobotcustomers.ciamlogin.com"));
}

#[test]
fn health_returns_supplied_build_sha() {
    let body = health_payload("claim-build-123");
    assert_eq!(body.ok, true);
    assert_eq!(body.build_sha, "claim-build-123");
}

#[test]
fn storage_and_web_paths() {
    assert_eq!(database_path("data"), "data/catalogue.db");
    assert_eq!(sqlite_url("data/catalogue.db"), "sqlite://data/catalogue.db");
    assert_eq!(index_path("dist"), "dist/index.html");
    assert_eq!(assets_path("dist"), "dist/assets");
}

#[test]
fn only_assets_are_cached_as_immutable() {
    assert!(is_immutable_asset("/assets/app-1234.js"));
    assert!(!is_immutable_asset("/assets"));
    assert!(!is_immutable_asset("/api/assets/x"));
    assert!(!is_immutable_asset("/"));
}
