use tass::lexicons::{self, LexiconDoc, SampleRecord};
use tass::listen::{resolve_listen, ListenArgs, ListenConfig, ListenError};
use tass::output::{encoding, frame, Encoding, Envelope, Format, RenderError};
use tass::profiles::{default_profile_index, dotted_path, Profile};
use tass::slingshot::{SlingshotError, SlingshotHydrator, DEFAULT_BASE};
use tass::spacedust::{on_frame, Frame, FrameAction, LinkEvent, SpacedustConfig, DEFAULT_ENDPOINT};

fn profile(did: &str, active: bool, updated_at: Option<&str>) -> Profile {
    Profile {
        id: did.into(),
        did: did.into(),
        handle: None,
        pds: "https://pds.example".into(),
        active,
        path: format!("/p/{did}.toml"),
        updated_at: updated_at.map(|s| s.to_string()),
    }
}

const RAW: [LexiconDoc; 2] = [
    LexiconDoc { nsid: "actor.rpg.stats", file_name: "actor.rpg.stats.json", json: "{\"id\":\"actor.rpg.stats\"}" },
    LexiconDoc { nsid: "equipment.rpg.item", file_name: "equipment.rpg.item.json", json: "{\"id\":\"equipment.rpg.item\"}" },
];

const OVERLAY: [LexiconDoc; 1] =
    [LexiconDoc { nsid: "actor.rpg.stats", file_name: "actor.rpg.stats.overlay.json", json: "{}" }];

#[test]
fn subscribe_url_encodes_did_and_params() {
    let cfg = SpacedustConfig {
        endpoint: DEFAULT_ENDPOINT.to_string(),
        account: "did:plc:abc123".to_string(),
        wanted_sources: vec!["app.bsky.feed.post:reply.parent.uri".to_string()],
        instant: false,
    };
    let url = cfg.subscribe_url().unwrap();
    assert!(url.starts_with("wss://spacedust.microcosm.blue/subscribe?"));
    assert!(url.contains("wantedSubjectDids=did%3Aplc%3Aabc123"));
    assert!(url.contains("wantedSources=app.bsky.feed.post"));
    assert!(!url.contains("instant"));
}

#[test]
fn instant_subscriptions_say_so_and_bad_endpoints_fail() {
    let mut cfg = SpacedustConfig::for_account("did:plc:x");
    assert_eq!(cfg.endpoint, DEFAULT_ENDPOINT);
    cfg.instant = true;
    assert!(cfg.subscribe_url().unwrap().ends_with("&instant=true"));
    cfg.endpoint = "not a url".into();
    match cfg.subscribe_url() {
        Err(e) => assert!(e.message().starts_with("invalid endpoint URL: ")),
        Ok(u) => panic!("parsed {u}"),
    }
}

#[test]
fn frames_drive_the_subscriber() {
    let link = LinkEvent {
        operation: "create".into(),
        source: "app.bsky.feed.post:reply.parent.uri".into(),
        source_record: "at://did:plc:them/app.bsky.feed.post/3l".into(),
        source_rev: "abc".into(),
        subject: "at://did:plc:mage/app.bsky.feed.post/3k".into(),
    };
    match on_frame(Frame::Event("link".into(), link.clone())) {
        FrameAction::Yield(l) => assert_eq!(l.subject, "at://did:plc:mage/app.bsky.feed.post/3k"),
        other => panic!("unexpected {other:?}"),
    }
    assert!(matches!(on_frame(Frame::Event("info".into(), link)), FrameAction::Skip));
    assert!(matches!(on_frame(Frame::Ping(vec![1, 2])), FrameAction::Pong(p) if p == vec![1, 2]));
    assert!(matches!(on_frame(Frame::Close), FrameAction::End));
    assert!(matches!(on_frame(Frame::Other), FrameAction::Skip));
}

#[test]
fn slingshot_targets_and_defaults() {
    let h = SlingshotHydrator::default();
    assert_eq!(h.base(), DEFAULT_BASE);
    assert_eq!(SlingshotHydrator::new("https://mine.example").base(), "https://mine.example");
    assert_eq!(
        h.target("at://did:plc:x/app.bsky.feed.post/3k").ok(),
        Some(("did:plc:x".to_string(), "app.bsky.feed.post".to_string(), "3k".to_string()))
    );
    match h.target("https://example.com") {
        Err(e) => {
            assert!(matches!(e, SlingshotError::BadUri(ref u) if u == "https://example.com"));
            assert_eq!(e.message(), "malformed at-uri: https://example.com");
        }
        Ok(t) => panic!("accepted {t:?}"),
    }
    assert_eq!(
        SlingshotError::BadBase("b".into(), "e".into()).message(),
        "invalid Slingshot base URL b: e"
    );
}

#[test]
fn listen_flags_override_config() {
    let cfg = ListenConfig { account: Some("did:plc:cfg".into()), ..Default::default() };
    let args = ListenArgs { account: None, endpoint: Some("wss://other/subscribe".into()), slingshot: None };
    let (sub, hyd) = resolve_listen(args, cfg).unwrap();
    assert_eq!(sub.account, "did:plc:cfg");
    assert_eq!(sub.endpoint, "wss://other/subscribe");
    assert_eq!(hyd.base(), DEFAULT_BASE);
    let none = resolve_listen(ListenArgs { account: None, endpoint: None, slingshot: None }, ListenConfig::default());
    assert!(matches!(none, Err(ListenError::NoAccount)));
    assert_eq!(
        ListenError::NoAccount.message(),
        "no account to listen for: set [service.listen].account or pass --account"
    );
}

#[test]
fn output_framing() {
    assert_eq!(encoding(Format::Table), Encoding::PrettyJson);
    assert_eq!(encoding(Format::Json), Encoding::PrettyJson);
    assert_eq!(encoding(Format::Cbor), Encoding::DagCbor);
    assert_eq!(frame(Encoding::PrettyJson, b"{}".to_vec()), b"{}\n".to_vec());
    assert_eq!(frame(Encoding::DagCbor, vec![0xa0]), vec![0xa0]);
    let env = Envelope::value(5);
    assert!(env.uri.is_none() && env.rkey.is_none() && env.normalized.is_none());
    assert_eq!(env.value, 5);
    assert_eq!(RenderError::Encode("x".into()).message(), "encode error: x");
}

#[test]
fn default_profile_prefers_active_then_recent_then_did() {
    let ps = vec![
        profile("did:plc:b", false, Some("2026-01-02")),
        profile("did:plc:c", true, Some("2026-01-01")),
        profile("did:plc:a", true, Some("2026-01-01")),
        profile("did:plc:d", true, None),
    ];
    assert_eq!(default_profile_index(&ps), Some(2));
    let inactive = vec![profile("did:plc:z", false, None), profile("did:plc:y", false, Some("2020"))];
    assert_eq!(default_profile_index(&inactive), Some(1));
    assert_eq!(default_profile_index(&[]), None);
}

#[test]
fn dotted_paths_split_or_reject() {
    assert_eq!(dotted_path("service.oauth.scopes").unwrap(), vec!["service", "oauth", "scopes"]);
    assert_eq!(dotted_path("did").unwrap(), vec!["did"]);
    assert_eq!(dotted_path("a..b"), Err("config key must be a non-empty dotted TOML path".to_string()));
    assert!(dotted_path("").is_err());
    assert!(dotted_path("a.").is_err());
}

#[test]
fn lexicon_registries_look_up_and_combine() {
    assert_eq!(lexicons::get(&RAW, "equipment.rpg.item").map(|d| d.file_name), Some("equipment.rpg.item.json"));
    assert!(lexicons::get(&RAW, "at.telluri.node").is_none());
    let all = lexicons::combined(&RAW, &OVERLAY);
    assert_eq!(all.len(), RAW.len() + OVERLAY.len());
    assert_eq!(lexicons::get(&all, "actor.rpg.stats").map(|d| d.file_name), Some("actor.rpg.stats.json"));
    assert_eq!(lexicons::iter(&RAW), RAW.to_vec());
    let samples = [SampleRecord { file_name: "a.example.json", description: "d", json: "{\"createdAt\":1}" }];
    assert_eq!(lexicons::get_sample(&samples, "a.example.json").map(|s| s.description), Some("d"));
    assert!(lexicons::get_sample(&samples, "b").is_none());
    assert_eq!(lexicons::iter_samples(&samples).len(), 1);
}
