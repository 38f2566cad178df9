use tass::args::generate::NodeItemArgs;
use tass::cli::{list_next, session_summary, ListStep};
use tass::generate::{generate_node_item, node_item_pair, NodeItemError};
use tass::json::JsonValue;
use tass::lexicons::{corpus_lexicon, rpg_lexicon, rpg_sample, schema_lexicon, tass_sample};
use tass::profiles::{
    document_with_setting, fragment_setting, fragment_with_setting, fragment_without_setting, profile_of_fragment,
    saved_fragment, scalar_of, TomlScalar, FRAGMENT_HEADER,
};
use tass::web_auth::{keyset_file_step, keyset_files_check, FileRead, KeysetStep};

fn member<'a>(v: &'a JsonValue, key: &str) -> Option<&'a JsonValue> {
    match v {
        JsonValue::Object(es) => es.iter().find(|(k, _)| k == key).map(|(_, v)| v),
        _ => None,
    }
}

fn s(v: &str) -> JsonValue {
    JsonValue::Str(v.to_string())
}

#[test]
fn fragments_describe_profiles() {
    let text = "did = \"did:plc:a\"\npds = \"https://pds.example\"\nhandle = \"a.example\"\n";
    let p = profile_of_fragment("/f/a.toml", text).unwrap().unwrap();
    assert_eq!(p.did, "did:plc:a");
    assert_eq!(p.id, "did:plc:a");
    assert_eq!(p.pds, "https://pds.example");
    assert_eq!(p.handle.as_deref(), Some("a.example"));
    assert!(!p.active);
    assert_eq!(p.path, "/f/a.toml");
    assert_eq!(p.updated_at, None);

    let named = "id = \"work\"\ndid = \"did:plc:a\"\npds = \"p\"\nactive = true\nupdated_at = \"t\"\n";
    let p = profile_of_fragment("f", named).unwrap().unwrap();
    assert_eq!(p.id, "work");
    assert!(p.active);
    assert_eq!(p.updated_at.as_deref(), Some("t"));

    assert!(profile_of_fragment("f", "did = \"did:plc:a\"\n").unwrap().is_none());
    assert!(profile_of_fragment("f", FRAGMENT_HEADER).unwrap().is_none());
    let err = profile_of_fragment("f.toml", "did = ").unwrap_err();
    assert!(!err.is_empty());
}

#[test]
fn settings_read_back_what_was_written() {
    let v = scalar_of("3", None);
    let (text, shown) = fragment_with_setting("f", FRAGMENT_HEADER, "store.depth", &v, "now").unwrap();
    assert_eq!(shown, "3");
    assert_eq!(fragment_setting("f", &text, "store.depth").unwrap().as_deref(), Some(" 3"));
    assert_eq!(fragment_setting("f", &text, "updated_at").unwrap().as_deref(), Some(" \"now\""));
    assert!(text.contains("# tassle profile fragment"));
    // A value read back from a file keeps the space that separates it from `=`.

    let (text, shown) = document_with_setting("f", "x = 1\n", "x.y", &TomlScalar::Str("v".into())).unwrap();
    assert_eq!(shown, "\"v\"");
    assert_eq!(fragment_setting("f", &text, "x.y").unwrap().as_deref(), Some(" \"v\""));
    assert_eq!(fragment_setting("f", &text, "updated_at").unwrap(), None);

    let (text, _) = document_with_setting("f", "", "flag", &scalar_of("TRUE", None)).unwrap();
    assert_eq!(fragment_setting("f", &text, "flag").unwrap().as_deref(), Some(" true"));
    let (text, _) = document_with_setting("f", "", "ratio", &scalar_of("1.5", Some("1.5".into()))).unwrap();
    assert_eq!(fragment_setting("f", &text, "ratio").unwrap().as_deref(), Some(" 1.5"));
    assert_eq!(scalar_of("abc", None), TomlScalar::Str("abc".into()));

    assert_eq!(
        fragment_setting("f", "", "a..b").unwrap_err(),
        "config key must be a non-empty dotted TOML path"
    );
}

#[test]
fn settings_are_removed_once() {
    let text = "[store]\npath = \"/x\"\nkeep = 1\n";
    let after = fragment_without_setting("f", text, "store.path").unwrap().unwrap();
    assert_eq!(fragment_setting("f", &after, "store.path").unwrap(), None);
    assert_eq!(fragment_setting("f", &after, "store.keep").unwrap().as_deref(), Some(" 1"));
    assert_eq!(fragment_without_setting("f", &after, "store.path").unwrap(), None);
}

#[test]
fn logins_stamp_their_fragment() {
    let text = saved_fragment("f", FRAGMENT_HEADER, "did:plc:a", Some("a.example"), "https://p", "t1").unwrap();
    let p = profile_of_fragment("f", &text).unwrap().unwrap();
    assert_eq!((p.id.as_str(), p.did.as_str(), p.pds.as_str()), ("did:plc:a", "did:plc:a", "https://p"));
    assert!(p.active);
    assert_eq!(fragment_setting("f", &text, "created_at").unwrap().as_deref(), Some(" \"t1\""));
    let again = saved_fragment("f", &text, "did:plc:a", None, "https://p", "t2").unwrap();
    assert_eq!(fragment_setting("f", &again, "created_at").unwrap().as_deref(), Some(" \"t1\""));
    assert_eq!(fragment_setting("f", &again, "updated_at").unwrap().as_deref(), Some(" \"t2\""));
    assert_eq!(fragment_setting("f", &again, "handle").unwrap().as_deref(), Some(" \"a.example\""));
}

#[test]
fn session_summaries_follow_the_token() {
    assert_eq!(session_summary(None, 0), JsonValue::Object(vec![("state".into(), s("absent"))]));
    // {"exp":5} in URL-safe base64 without padding.
    let v = session_summary(Some("h.eyJleHAiOjV9.sig"), 10);
    assert_eq!(member(&v, "state"), Some(&s("expired")));
    assert_eq!(member(&v, "exp"), Some(&s("1970-01-01T00:00:05+00:00")));
    assert_eq!(member(&v, "exp_unix"), Some(&JsonValue::Int(5)));
    assert_eq!(member(&session_summary(Some("h.eyJleHAiOjV9.sig"), 5), "state"), Some(&s("ok")));
    assert_eq!(session_summary(Some("h.eyJzdWIiOiJ4In0.sig"), 0), JsonValue::Object(vec![("state".into(), s("ok"))]));
}

#[test]
fn registries_name_their_documents() {
    let e = corpus_lexicon("com.superbfowle.tass.node").unwrap();
    assert_eq!(e.file_name, "com.superbfowle.tass.node.json");
    assert!(corpus_lexicon("com.superbfowle.tass.nope").is_none());
    assert!(schema_lexicon("at.telluri.node").is_some());
    assert!(rpg_lexicon("actor.rpg.stats").is_some());
    assert!(rpg_sample("mage-stats.example.json").is_some());
    assert!(rpg_sample("missing.example.json").is_none());
    assert_eq!(
        tass_sample("node-crystal-spring.example.json").unwrap().description,
        "A rating-3 Node with dynamic resonance and a default ambient pool (15q)."
    );
}

#[test]
fn keyset_loads_follow_the_files_in_order() {
    assert_eq!(keyset_files_check(&vec![]).unwrap_err(), "keyset_paths resolved empty (is_confidential but no files)");
    let files = vec!["/k/current.json".to_string(), "/k/old.json".to_string(), "/k/current.json".to_string()];
    assert!(keyset_files_check(&files).is_ok());
    assert!(matches!(keyset_file_step(&files, 0, FileRead::NotFound("gone".into())), KeysetStep::Generate(k) if k == "current"));
    assert!(matches!(keyset_file_step(&files, 1, FileRead::Bytes(vec![1])), KeysetStep::Parse(b) if b == vec![1u8]));
    assert!(matches!(
        keyset_file_step(&files, 1, FileRead::NotFound("gone".into())),
        KeysetStep::Refuse(m) if m == "read keyset /k/old.json: gone"
    ));
    // A file named as the signer is the signer too.
    assert!(matches!(keyset_file_step(&files, 2, FileRead::NotFound("gone".into())), KeysetStep::Generate(_)));
}

#[test]
fn node_items_pair_a_give_with_its_item() {
    let args = NodeItemArgs {
        name: "Spring".into(),
        mage: "did:plc:mage".into(),
        rating: 2,
        item: "node".into(),
        quintessence: None,
        milli_quintessence: None,
        tass_form: None,
        resonance: Some("dynamic".into()),
        description: Some("deep".into()),
        no_validate: false,
    };
    let pair = node_item_pair(&args, "3kabc", "2026-01-01T00:00:00.000000Z").unwrap();
    let give = member(&pair, "give").unwrap();
    let item = member(&pair, "item").unwrap();
    assert_eq!(member(give, "recipient"), Some(&s("did:plc:mage")));
    assert_eq!(member(give, "givenAt"), Some(&s("2026-01-01T00:00:00.000000Z")));
    assert_eq!(member(give, "description"), Some(&s("deep")));
    assert_eq!(member(item, "give"), Some(&s("at://did:plc:mage/equipment.rpg.give/3kabc")));
    assert_eq!(member(item, "provider"), Some(&s("did:plc:mage")));
    let stats = member(item, "stats").unwrap();
    assert_eq!(member(stats, "milliQuintessence"), Some(&JsonValue::Int(2000)));
    assert_eq!(member(stats, "quintessence"), Some(&JsonValue::Int(2)));
    assert_eq!(member(stats, "makesTass"), Some(&JsonValue::Bool(true)));
    assert_eq!(member(stats, "resonance"), Some(&s("dynamic")));
    assert_eq!(member(stats, "tassForm"), None);
    let bad = NodeItemArgs { rating: 9, ..args };
    assert!(matches!(node_item_pair(&bad, "3kabc", "t"), Err(NodeItemError::Rating(_))));
}

#[test]
fn mage_list_tries_candidates_in_order() {
    let cands = vec!["mage".to_string(), "self".to_string()];
    assert_eq!(list_next(&cands, 0), ListStep::Fetch("mage".into()));
    assert_eq!(list_next(&cands, 1), ListStep::Fetch("self".into()));
    assert_eq!(list_next(&cands, 2), ListStep::NotFound("no actor.rpg.stats record found for requested rkey".into()));
}

#[test]
fn generated_node_items_succeed_on_valid_input() {
    let args = NodeItemArgs {
        name: "Spring".into(),
        mage: "did:plc:mage".into(),
        rating: 3,
        item: "node".into(),
        quintessence: Some(2),
        milli_quintessence: None,
        tass_form: None,
        resonance: None,
        description: None,
        no_validate: true,
    };
    let pair = generate_node_item(&args).unwrap();
    let item = member(&pair, "item").unwrap();
    let stats = member(item, "stats").unwrap();
    assert_eq!(member(stats, "milliQuintessence"), Some(&JsonValue::Int(2000)));
    let huge = NodeItemArgs { rating: 0, quintessence: Some(i64::MAX), ..args };
    assert!(matches!(generate_node_item(&huge), Err(NodeItemError::Rating(_))));
}
