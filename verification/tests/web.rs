use tass::config::{OAuthConfig, ServiceConfig};
use tass::web_auth::{
    client_plan, cookie_key_step, keyset_step, kid_for, port_of, render, ClientPlan, CookieKeyStep, FileRead, KeysetStep,
    LoginQuery,
};

fn confidential_service() -> ServiceConfig {
    ServiceConfig {
        bind: Some("127.0.0.1:3000".into()),
        public_url: Some("https://telluri.at".into()),
        cookie_paths: vec!["current".into()],
        oauth: OAuthConfig {
            scopes: vec!["atproto".into()],
            keyset_paths: vec!["current".into()],
            client_name: Some("telluri.at".into()),
            ..Default::default()
        },
    }
}

#[test]
fn render_escapes_return_to_attribute() {
    let html = render(r#"/x" onmouseover="evil"#);
    assert!(!html.contains(r#"value="/x" onmouseover="evil""#));
    assert!(html.contains(r#"name="return_to""#));
    assert!(html.contains("value=\"/x&quot; onmouseover=&quot;evil\""));
}

#[test]
fn render_defaults_return_to_to_root() {
    let q = LoginQuery::default();
    let html = render(q.return_to());
    assert!(html.contains(r#"value="/""#));
}

#[test]
fn escaping_covers_markup_characters() {
    let html = render("<a>&");
    assert!(html.contains("value=\"&lt;a&gt;&amp;\""));
}

#[test]
fn confidential_metadata_derives_client_id_and_redirect() {
    match client_plan(&confidential_service()) {
        ClientPlan::Confidential { client_id, redirect_uri, client_name, logo_uri, .. } => {
            assert_eq!(client_id, "https://telluri.at/oauth-client-metadata.json");
            assert_eq!(redirect_uri, "https://telluri.at/oauth/callback");
            assert_eq!(client_name.as_deref(), Some("telluri.at"));
            assert_eq!(logo_uri, None);
        }
        other => panic!("expected confidential, got {other:?}"),
    }
}

#[test]
fn loopback_metadata_when_no_keyset() {
    let svc = ServiceConfig {
        bind: Some("127.0.0.1:4567".into()),
        public_url: None,
        oauth: OAuthConfig { keyset_paths: vec![], scopes: vec!["atproto".into()], ..Default::default() },
        ..Default::default()
    };
    match client_plan(&svc) {
        ClientPlan::Loopback { redirect_uris } => {
            assert!(redirect_uris.iter().any(|u| u.starts_with("http://127.0.0.1:4567/oauth/callback")));
            assert_eq!(redirect_uris[1], "http://[::1]:4567/oauth/callback");
        }
        other => panic!("expected loopback, got {other:?}"),
    }
}

#[test]
fn https_without_keyset_still_loopback() {
    let svc = ServiceConfig {
        public_url: Some("https://telluri.at".into()),
        oauth: OAuthConfig { keyset_paths: vec![], ..Default::default() },
        ..Default::default()
    };
    match client_plan(&svc) {
        ClientPlan::Loopback { redirect_uris } => assert_eq!(redirect_uris[0], "http://127.0.0.1:3000/oauth/callback"),
        other => panic!("expected loopback, got {other:?}"),
    }
}

#[test]
fn trailing_slash_public_url_and_branding() {
    let mut svc = confidential_service();
    svc.public_url = Some("https://telluri.at//".into());
    svc.oauth.logo_path = Some("logo.png".into());
    match client_plan(&svc) {
        ClientPlan::Confidential { client_id, logo_uri, .. } => {
            assert_eq!(client_id, "https://telluri.at/oauth-client-metadata.json");
            assert_eq!(logo_uri.as_deref(), Some("https://telluri.at/logo.png"));
        }
        other => panic!("expected confidential, got {other:?}"),
    }
}

#[test]
fn bind_ports_parse() {
    assert_eq!(port_of("127.0.0.1:3000"), Some(3000));
    assert_eq!(port_of("[::1]:65535"), Some(65535));
    assert_eq!(port_of("[::1]:65536"), None);
    assert_eq!(port_of("localhost"), None);
    assert_eq!(port_of("host:"), None);
}

#[test]
fn key_ids_are_file_stems() {
    assert_eq!(kid_for("/state/keyset/current.json"), "current");
    assert_eq!(kid_for("/state/keyset/2026-07.json"), "2026-07");
    assert_eq!(kid_for("/"), "tass-key");
}

#[test]
fn cookie_key_lifecycle() {
    assert!(matches!(cookie_key_step("k", FileRead::Bytes(vec![7; 64])), CookieKeyStep::Use(b) if b.len() == 64));
    assert!(matches!(cookie_key_step("k", FileRead::NotFound("gone".into())), CookieKeyStep::Generate));
    match cookie_key_step("/s/bad.key", FileRead::Bytes(b"too short".to_vec())) {
        CookieKeyStep::Refuse(m) => assert_eq!(m, "cookie key /s/bad.key is 9 bytes; expected 64"),
        other => panic!("unexpected {other:?}"),
    }
    match cookie_key_step("/s/k", FileRead::Failed("denied".into())) {
        CookieKeyStep::Refuse(m) => assert_eq!(m, "read cookie key /s/k: denied"),
        other => panic!("unexpected {other:?}"),
    }
}

#[test]
fn keyset_lifecycle() {
    assert!(matches!(keyset_step("/k/current.json", true, FileRead::NotFound("gone".into())), KeysetStep::Generate(k) if k == "current"));
    match keyset_step("/k/old.json", false, FileRead::NotFound("gone".into())) {
        KeysetStep::Refuse(m) => assert_eq!(m, "read keyset /k/old.json: gone"),
        other => panic!("unexpected {other:?}"),
    }
    assert!(matches!(keyset_step("/k/a.json", false, FileRead::Bytes(vec![1])), KeysetStep::Parse(b) if b == vec![1]));
}
