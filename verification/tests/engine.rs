use tass::engine::{parse_at_uri, Command, Dispatcher, Event};
use tass::enervate::EnervateCommand;
use tass::listen::Verb;

fn ev(text: &str) -> Event {
    Event {
        actor_did: "did:plc:them".into(),
        source_record: "at://did:plc:them/app.bsky.feed.post/3l".into(),
        source_rev: "rev".into(),
        subject: "at://did:plc:mage/app.bsky.feed.post/3k".into(),
        collection: "app.bsky.feed.post".into(),
        text: text.into(),
    }
}

#[test]
fn parse_at_uri_splits_or_rejects() {
    assert_eq!(
        parse_at_uri("at://did:plc:x/app.bsky.feed.post/3k"),
        Some(("did:plc:x".to_string(), "app.bsky.feed.post".to_string(), "3k".to_string()))
    );
    assert_eq!(parse_at_uri("at://did:plc:x/app.bsky.feed.post"), None);
    assert_eq!(parse_at_uri("https://example.com"), None);
}

#[test]
fn dispatcher_routes_by_keyword() {
    let mut d = Dispatcher::new();
    d.register(EnervateCommand);
    assert!(d.route(&ev("please burn my tass")).is_some());
    assert!(d.route(&ev("just saying hi")).is_none());
}

#[test]
fn rkey_may_hold_slashes() {
    assert_eq!(
        parse_at_uri("at://did:plc:x/coll/a/b"),
        Some(("did:plc:x".to_string(), "coll".to_string(), "a/b".to_string()))
    );
    assert_eq!(parse_at_uri("at:///coll/rk"), None);
    assert_eq!(parse_at_uri("at://did//rk"), None);
    assert_eq!(parse_at_uri("at://did/coll/"), None);
}

#[test]
fn first_registered_command_wins() {
    let mut d = Dispatcher::new();
    d.register(Verb::ChatEnervate).register(Verb::Enervate);
    let routed = d.route(&ev("BURN the TASS please"));
    assert_eq!(routed.map(|c| c.name()), Some("enervate-chat"));
}

#[test]
fn matching_is_case_insensitive() {
    let mut d = Dispatcher::new();
    d.register(Verb::Enervate);
    let events = [ev("burn my tass"), ev("hello there"), ev("BURN the TASS please")];
    let routed = events.iter().filter(|e| d.route(e).is_some()).count();
    assert_eq!(routed, 2);
}
