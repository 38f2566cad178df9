use tass::config::{join_url, resolve_key_files, Login, OAuthConfig, ServiceConfig};
use tass::tailscale::TailscaleConfig;

#[test]
fn login_is_resolvable_needs_account_and_pds() {
    let neither = Login::default();
    assert!(!neither.is_resolvable());

    let with_did = Login { did: Some("did:plc:abc".into()), ..Default::default() };
    assert!(!with_did.is_resolvable());

    let full = Login { did: Some("did:plc:abc".into()), pds: Some("https://pds.example".into()), ..Default::default() };
    assert!(full.is_resolvable());
    assert_eq!(full.account(), Some("did:plc:abc"));

    let handle_only =
        Login { handle: Some("foo.bar".into()), pds: Some("https://pds.example".into()), ..Default::default() };
    assert!(handle_only.is_resolvable());
    assert_eq!(handle_only.account(), Some("foo.bar"));
}

#[test]
fn service_defaults_are_sensible() {
    let s = ServiceConfig::default();
    assert!(s.bind.is_none() && s.public_url.is_none());
    assert_eq!(s.cookie_paths, ["current"]);
    assert_eq!(s.oauth.scopes, ["atproto"]);
    assert_eq!(s.oauth.keyset_paths, ["current"]);
    assert!(s.oauth.is_confidential());
}

#[test]
fn key_file_resolution() {
    let files = resolve_key_files("/state/keyset", &["current".into(), "2026-07.json".into(), "/abs/k".into()], "json");
    assert_eq!(files[0], "/state/keyset/current.json");
    assert_eq!(files[1], "/state/keyset/2026-07.json");
    assert_eq!(files[2], "/abs/k.json");
}

#[test]
fn branding_uris_join_public_url() {
    let s = ServiceConfig {
        public_url: Some("https://telluri.at/".to_string()),
        oauth: OAuthConfig { logo_path: Some("/logo.png".to_string()), tos_path: Some("tos".to_string()), ..Default::default() },
        ..Default::default()
    };
    assert_eq!(s.logo_uri().as_deref(), Some("https://telluri.at/logo.png"));
    assert_eq!(s.tos_uri().as_deref(), Some("https://telluri.at/tos"));
    assert_eq!(s.privacy_uri(), None);
    assert_eq!(s.client_uri().as_deref(), Some("https://telluri.at/"));
}

#[test]
fn public_client_when_no_keyset() {
    let s = OAuthConfig { keyset_paths: vec![], ..Default::default() };
    assert!(!s.is_confidential());
}

#[test]
fn join_url_keeps_exactly_one_slash() {
    assert_eq!(join_url("https://a.example///", "///x/y"), "https://a.example/x/y");
    assert_eq!(join_url("https://a.example", "x"), "https://a.example/x");
    assert_eq!(join_url("", ""), "/");
}

#[test]
fn dotted_and_hidden_names_keep_or_gain_extension() {
    let files = resolve_key_files("keys", &[".hidden".into(), "a.b.c".into(), "dir/name".into()], "key");
    assert_eq!(files, vec!["keys/.hidden.key".to_string(), "keys/a.b.c".to_string(), "keys/dir/name.key".to_string()]);
}

#[test]
fn lib_defaults_are_sensible() {
    let cfg = TailscaleConfig::default();
    assert!(cfg.enabled);
    assert_eq!(cfg.hostname, "tass-web");
    assert_eq!(cfg.auth_key, None);
    assert_eq!(cfg.state_path, "/var/lib/tailscale/tailscaled.state");
    assert_eq!(cfg.socket_path, "/var/run/tailscale/tailscaled.sock");
    assert_eq!(cfg.bin_dir, "./bin");
    assert_eq!(cfg.extra_args, None);
}

#[test]
fn resolves_binary_paths() {
    let cfg = TailscaleConfig::default();
    assert_eq!(cfg.tailscale_path(), "./bin/tailscale");
    assert_eq!(cfg.tailscaled_path(), "./bin/tailscaled");
}

#[test]
fn splits_extra_args() {
    let cfg = TailscaleConfig {
        extra_args: Some("--advertise-exit-node --advertise-routes=10.0.0.0/8".to_string()),
        ..Default::default()
    };
    assert_eq!(cfg.extra_args(), vec!["--advertise-exit-node", "--advertise-routes=10.0.0.0/8"]);
}

#[test]
fn extra_args_honour_quotes_and_reject_unbalanced() {
    let quoted = TailscaleConfig { extra_args: Some("--hostname 'my host' \"a b\"".to_string()), ..Default::default() };
    assert_eq!(quoted.extra_args(), vec!["--hostname", "my host", "a b"]);
    let broken = TailscaleConfig { extra_args: Some("--x 'unterminated".to_string()), ..Default::default() };
    assert!(broken.extra_args().is_empty());
    assert!(TailscaleConfig::default().extra_args().is_empty());
}

#[test]
fn socket_and_state_paths_are_the_configured_ones() {
    let cfg = TailscaleConfig { socket_path: "/tmp/ts.sock".into(), state_path: "/data/ts.state".into(), ..Default::default() };
    assert_eq!(cfg.socket(), "/tmp/ts.sock");
    assert_eq!(cfg.state_file(), "/data/ts.state");
}
