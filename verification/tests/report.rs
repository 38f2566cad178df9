use tass::json::JsonValue;
use tass::mage::is_normalizable;
use tass::repo::{check_collection, envelope, ListPage};
use tass::repo_mage::stats_page;
use tass::report::{mage_shown, page_lines, record_lines, repo_list_lines, self_lines, stats_output, RawPart};
use tass::stats::summarize_systems;

fn obj(members: Vec<(&str, JsonValue)>) -> JsonValue {
    JsonValue::Object(members.into_iter().map(|(k, v)| (k.to_string(), v)).collect())
}

fn text(s: &str) -> JsonValue {
    JsonValue::Str(s.to_string())
}

fn mage_record() -> JsonValue {
    obj(vec![
        ("system", text("mage")),
        ("data", obj(vec![("arete", JsonValue::Int(3)), ("milliQuintessence", JsonValue::Int(2_500)), ("forces", JsonValue::Int(2))])),
    ])
}

#[test]
fn mage_records_show_their_block_and_stats() {
    let v = mage_record();
    assert!(is_normalizable(&v));
    let o = stats_output("mage", "at://did:plc:x/actor.rpg.stats/mage", Some("bafy"), &v);
    assert_eq!(o.source.rkey, "mage");
    assert_eq!(o.source.shape, "per-system-envelope");
    assert_eq!(o.summary.system.as_deref(), Some("mage"));
    let m = o.mage.as_ref().unwrap();
    assert_eq!(m.arete, Some(3));
    assert_eq!(m.quintessence, Some(2));
    match o.raw {
        RawPart::Members(b) => assert_eq!(b.len(), 3),
        RawPart::Value(_) => panic!("expected the mage block"),
    }
    let lines = record_lines(&o);
    assert_eq!(lines[0], "actor.rpg.stats/mage");
    assert_eq!(lines[1], "  source: at://did:plc:x/actor.rpg.stats/mage");
    assert_eq!(lines[2], "  shape:  per-system-envelope");
    assert_eq!(lines[3], "  system: mage");
    assert_eq!(lines[4], "  arete:        3");
    assert_eq!(lines[5], "  willpower:    absent");
    assert_eq!(lines[6], "  quintessence: 2");
    assert_eq!(lines[7], "  milliQ:       2500 millis");
    assert_eq!(lines[8], "  paradox:      absent");
    assert_eq!(lines[9], "  spheres:");
    assert_eq!(lines[10], "    forces: 2");
    assert!(lines[11].starts_with("  missing: willpower, paradox, correspondence"));
    assert_eq!(lines.len(), 12);
}

#[test]
fn other_systems_show_their_data_and_fields() {
    let v = obj(vec![("system", text("vampire")), ("data", obj(vec![("blood", JsonValue::Int(4))]))]);
    let o = stats_output("vampire", "at://did:plc:x/actor.rpg.stats/vampire", None, &v);
    assert!(o.mage.is_none());
    match o.raw {
        RawPart::Value(d) => assert_eq!(d, &obj(vec![("blood", JsonValue::Int(4))])),
        RawPart::Members(_) => panic!("expected the data payload"),
    }
    let lines = record_lines(&o);
    assert_eq!(
        lines,
        vec![
            "actor.rpg.stats/vampire".to_string(),
            "  source: at://did:plc:x/actor.rpg.stats/vampire".to_string(),
            "  shape:  per-system-envelope".to_string(),
            "  system: vampire".to_string(),
            "  fields: blood".to_string(),
        ]
    );
}

#[test]
fn unnormalizable_quintessence_is_detected() {
    let v = obj(vec![("system", text("mage")), ("data", obj(vec![("quintessence", JsonValue::Int(i64::MAX))]))]);
    assert!(!is_normalizable(&v));
    assert!(is_normalizable(&obj(vec![("system", text("vampire"))])));
}

#[test]
fn listed_pages_read_out_each_summary() {
    let page = ListPage {
        cursor: Some("next".into()),
        records: vec![envelope("at://did:plc:x/actor.rpg.stats/mage".into(), None, mage_record())],
    };
    let summaries = stats_page(page);
    let lines = page_lines("did:plc:x", "https://pds.example", &summaries);
    assert_eq!(
        lines,
        vec![
            "actor.rpg.stats".to_string(),
            "  repo: did:plc:x".to_string(),
            "  pds:  https://pds.example".to_string(),
            "  records: 1".to_string(),
            "  next cursor: next".to_string(),
            "  mage (per-system-envelope)".to_string(),
            "    uri: at://did:plc:x/actor.rpg.stats/mage".to_string(),
            "    system: mage".to_string(),
            "    fields: arete, milliQuintessence, forces".to_string(),
        ]
    );
}

#[test]
fn self_aggregates_read_out_each_system() {
    let raw = obj(vec![
        ("$type", text("actor.rpg.stats")),
        ("vampire", obj(vec![("blood", JsonValue::Int(1))])),
        ("mage", obj(vec![])),
    ]);
    let systems = summarize_systems(&raw);
    let lines = self_lines("at://did:plc:x/actor.rpg.stats/self", None, &systems);
    assert_eq!(
        lines,
        vec![
            "actor.rpg.stats/self".to_string(),
            "  uri: at://did:plc:x/actor.rpg.stats/self".to_string(),
            "  systems: 2".to_string(),
            "  mage (object)".to_string(),
            "  vampire (object)".to_string(),
            "    fields: blood".to_string(),
        ]
    );
}

#[test]
fn mage_stats_are_shown_for_mage_and_self_records() {
    let v = mage_record();
    assert!(mage_shown("other", "at://did:plc:x/actor.rpg.stats/mage", &v));
    assert!(mage_shown("self", "at://did:plc:x/actor.rpg.stats/self", &obj(vec![])));
    let vampire = obj(vec![("system", text("vampire")), ("data", obj(vec![]))]);
    assert!(!mage_shown("vampire", "at://did:plc:x/actor.rpg.stats/vampire", &vampire));
}

#[test]
fn repo_listings_read_out_each_record() {
    let page = ListPage {
        cursor: None,
        records: vec![
            envelope("at://did:plc:x/app.bsky.feed.post/3k".into(), Some("bafyrei".into()), obj(vec![])),
            envelope("at://did:plc:x/app.bsky.feed.post/3l".into(), None, obj(vec![])),
        ],
    };
    let lines = repo_list_lines("app.bsky.feed.post", "did:plc:x", "https://pds.example", &page);
    assert_eq!(
        lines,
        vec![
            "app.bsky.feed.post".to_string(),
            "  repo: did:plc:x".to_string(),
            "  pds:  https://pds.example".to_string(),
            "  records: 2".to_string(),
            "  3k  bafyrei  at://did:plc:x/app.bsky.feed.post/3k".to_string(),
            "  3l  at://did:plc:x/app.bsky.feed.post/3l".to_string(),
        ]
    );
}

#[test]
fn listed_collections_must_be_nsids() {
    assert!(check_collection("app.bsky.feed.post").is_ok());
    assert!(check_collection("actor.rpg.stats").is_ok());
    assert!(check_collection("not an nsid").is_err());
    assert!(check_collection("").is_err());
}
