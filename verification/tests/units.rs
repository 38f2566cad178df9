use tass::args::generate::NodeItemArgs;
use tass::chat_enervate;
use tass::cli::{check_switch, pad_right, status_line, uses_oauth};
use tass::config::AuthError;
use tass::lexicons::{iter_overlay, iter_raw, LexiconDoc};
use tass::enervate::{self, asks_to_burn, mentions_burn_tass, pick_tass_lowered, EnervateError, Impl, State};
use tass::engine::Event;
use tass::generate::{give_uri, node_stats, NodeItemError};
use tass::json::{entry_index, entry_keys, set_member, JsonValue};
use tass::listen::default_slingshot;
use tass::mage::{mage_envelope, normalize_block, number_field};
use tass::phase::{advance, FsmJob, RunError};
use tass::profiles::{parse_i64, setting_value, SettingValue};
use tass::repo::{envelope, prefixed};
use tass::slingshot::SlingshotHydrator;
use tass::spacedust::{default_endpoint, SpacedustConfig};
use tass::stats::field_names;
use tass::text::{
    after_last_char, chars_eq, chars_of, contains_chars, contains_str, find_char, i64_text, occurs_at_exec,
    rfind_char, str_eq, str_lt, string_from_chars, sub_chars, sub_string, u64_text,
};

fn node_args(rating: i64, quintessence: Option<i64>, milli: Option<i64>) -> NodeItemArgs {
    NodeItemArgs {
        name: "Node".into(),
        mage: "did:plc:mage".into(),
        rating,
        item: "item".into(),
        quintessence,
        milli_quintessence: milli,
        tass_form: Some("crystal".into()),
        resonance: None,
        description: None,
        no_validate: false,
    }
}

fn members(pairs: Vec<(&str, JsonValue)>) -> Vec<(String, JsonValue)> {
    pairs.into_iter().map(|(k, v)| (k.to_string(), v)).collect()
}

#[test]
fn node_stats_cap_and_clamp() {
    let full = node_stats(&node_args(3, None, None)).unwrap();
    assert_eq!(full.milli_quintessence, 3000);
    assert_eq!(full.quintessence, 3);
    assert!(full.makes_tass);
    assert_eq!(full.tass_form.as_deref(), Some("crystal"));

    let over = node_stats(&node_args(2, Some(9), None)).unwrap();
    assert_eq!(over.milli_quintessence, 2000);
    assert_eq!(over.quintessence, 2);

    let milli = node_stats(&node_args(5, Some(1), Some(2_750))).unwrap();
    assert_eq!(milli.milli_quintessence, 2750);
    assert_eq!(milli.quintessence, 2);

    let negative = node_stats(&node_args(1, None, Some(-40))).unwrap();
    assert_eq!(negative.milli_quintessence, 0);
    assert_eq!(negative.quintessence, 0);
}

#[test]
fn node_stats_refuse_rating_out_of_range() {
    assert_eq!(node_stats(&node_args(0, None, None)).unwrap_err(), NodeItemError::Rating("rating must be between 1 and 5 (got 0)".into()));
    assert_eq!(node_stats(&node_args(6, None, None)).unwrap_err(), NodeItemError::Rating("rating must be between 1 and 5 (got 6)".into()));
    assert_eq!(node_stats(&node_args(-2, None, None)).unwrap_err(), NodeItemError::Rating("rating must be between 1 and 5 (got -2)".into()));
}

#[test]
fn node_items_need_a_mage_did() {
    let mut args = node_args(3, None, None);
    args.mage = "alice.bsky.social".into();
    assert!(matches!(node_stats(&args), Err(NodeItemError::Mage(m)) if !m.is_empty()));
    args.rating = 9;
    assert!(matches!(node_stats(&args), Err(NodeItemError::Rating(_))));
}

#[test]
fn give_records_live_in_the_mage_repo() {
    assert_eq!(give_uri("did:plc:mage", "3k2"), "at://did:plc:mage/equipment.rpg.give/3k2");
}

#[test]
fn oauth_is_chosen_by_flag_or_mode() {
    assert!(uses_oauth(true, None));
    assert!(uses_oauth(false, Some("oauth")));
    assert!(!uses_oauth(false, Some("app-password")));
    assert!(!uses_oauth(false, None));
}

#[test]
fn switching_needs_a_known_profile() {
    let profiles = vec!["alice".to_string(), "bob".to_string()];
    assert_eq!(check_switch(&profiles, "bob"), Ok(()));
    assert_eq!(check_switch(&profiles, "carol"), Err("unknown profile 'carol'; available: alice, bob".to_string()));
    assert_eq!(check_switch(&Vec::new(), "carol"), Err("unknown profile 'carol'; available: (none)".to_string()));
}

#[test]
fn phases_are_named() {
    assert_eq!(enervate::state_name(State::Matched), "Matched");
    assert_eq!(enervate::state_name(State::Done), "Done");
    assert_eq!(chat_enervate::state_name(chat_enervate::State::Done), "Done");
}

#[test]
fn run_errors_read_as_text() {
    let stuck: RunError<EnervateError> = RunError::Stuck;
    assert_eq!(enervate::run_error_message(&stuck), "no transition for the produced event");
    let driver: RunError<EnervateError> = RunError::Driver(EnervateError::WritesNotWired);
    assert_eq!(
        enervate::run_error_message(&driver),
        "driver error: real writes are not wired yet (writes=off)"
    );
    let read: RunError<EnervateError> = RunError::Driver(EnervateError::Read("timeout".into()));
    assert_eq!(enervate::run_error_message(&read), "driver error: reading the actor's tass failed: timeout");
}

#[test]
fn burn_requests_are_spotted_in_lowered_text() {
    assert!(mentions_burn_tass("please burn my tass"));
    assert!(!mentions_burn_tass("please burn my Tass"));
    assert!(!mentions_burn_tass("tass only"));
    let ev = Event {
        actor_did: "did:plc:x".into(),
        source_record: "at://did:plc:x/app.bsky.feed.post/1".into(),
        source_rev: "r".into(),
        subject: "at://did:plc:mage/app.bsky.feed.post/2".into(),
        collection: "app.bsky.feed.post".into(),
        text: "BURN 2 TASS".into(),
    };
    assert!(asks_to_burn(&ev));
}

#[test]
fn pick_matches_lowered_forms() {
    let records = vec![
        envelope("at://did:plc:x/t/1".into(), None, JsonValue::Object(members(vec![("quintessence", JsonValue::Int(4))]))),
        envelope("at://did:plc:x/t/2".into(), None, JsonValue::Object(members(vec![("quintessence", JsonValue::Int(7))]))),
    ];
    let forms = vec![Some("pearl".to_string()), Some("crystal".to_string())];
    assert_eq!(
        pick_tass_lowered(&records, &forms, "burn crystal tass"),
        Some(("at://did:plc:x/t/2".to_string(), 7))
    );
    assert_eq!(pick_tass_lowered(&records, &forms, "burn tass"), Some(("at://did:plc:x/t/1".to_string(), 4)));
}

#[test]
fn a_job_starts_fresh_or_resumes() {
    let fresh: FsmJob<Impl, u8> = FsmJob::new(7);
    assert_eq!(fresh.phase(), State::Matched);
    assert_eq!(fresh.driver, 7);
    let parked: FsmJob<Impl, u8> = FsmJob::resume(State::Attesting, 1);
    assert_eq!(parked.phase(), State::Attesting);
}

#[test]
fn advance_moves_one_step_or_is_stuck() {
    let ok = advance::<Impl, ()>(State::Matched, enervate::Input::FoundTass);
    assert!(matches!(ok, Ok((State::Resolved, None))));
    let stuck = advance::<Impl, ()>(State::Done, enervate::Input::FoundTass);
    assert!(matches!(stuck, Err(RunError::Stuck)));
}

#[test]
fn members_are_found_listed_and_set() {
    let mut m = members(vec![("a", JsonValue::Int(1)), ("b", JsonValue::Null), ("a", JsonValue::Int(2))]);
    assert_eq!(entry_index(&m, "a"), Some(0));
    assert_eq!(entry_index(&m, "b"), Some(1));
    assert_eq!(entry_index(&m, "c"), None);
    assert_eq!(entry_keys(&m), vec!["a".to_string(), "b".to_string(), "a".to_string()]);
    set_member(&mut m, "b", JsonValue::Bool(true));
    assert_eq!(m[1], ("b".to_string(), JsonValue::Bool(true)));
    assert_eq!(m.len(), 3);
    set_member(&mut m, "c", JsonValue::Int(9));
    assert_eq!(m.len(), 4);
    assert_eq!(m[3], ("c".to_string(), JsonValue::Int(9)));
    let v = JsonValue::Object(m);
    assert_eq!(v.get_i64("a"), Some(1));
    assert!(v.as_object().is_some());
    assert!(v.get_object("a").is_none());
    assert!(JsonValue::Null.as_object().is_none());
}

#[test]
fn mage_blocks_are_read_by_alias() {
    let env = JsonValue::Object(members(vec![("system", JsonValue::Str("mage".into()))]));
    assert!(mage_envelope(&env));
    let other = JsonValue::Object(members(vec![("system", JsonValue::Str("vampire".into()))]));
    assert!(!mage_envelope(&other));
    let block = members(vec![("Arete", JsonValue::Int(4)), ("paradox", JsonValue::Str("x".into()))]);
    assert_eq!(number_field(&block, &["arete", "Arete"]), Some(4));
    assert_eq!(number_field(&block, &["paradox"]), None);
    let n = normalize_block(&block);
    assert_eq!(n.arete, Some(4));
    assert_eq!(n.paradox, None);
    assert!(n.missing.contains(&"paradox".to_string()));
}

#[test]
fn defaults_and_prefixes() {
    assert_eq!(prefixed("driver error: ", "x"), "driver error: x");
    assert_eq!(default_slingshot(), "https://slingshot.microcosm.blue");
    assert_eq!(SlingshotHydrator::public().base(), "https://slingshot.microcosm.blue");
    assert_eq!(default_endpoint(), "wss://spacedust.microcosm.blue/subscribe");
}

#[test]
fn subscription_query_pairs() {
    let cfg = SpacedustConfig {
        endpoint: default_endpoint(),
        account: "did:plc:abc".into(),
        wanted_sources: vec!["s1".into(), "s2".into()],
        instant: true,
    };
    let q = cfg.subscribe_query();
    assert_eq!(
        q,
        vec![
            ("wantedSubjectDids".to_string(), "did:plc:abc".to_string()),
            ("wantedSources".to_string(), "s1".to_string()),
            ("wantedSources".to_string(), "s2".to_string()),
            ("instant".to_string(), "true".to_string()),
        ]
    );
}

#[test]
fn field_names_of_objects_only() {
    let v = JsonValue::Object(members(vec![("x", JsonValue::Null), ("y", JsonValue::Int(1))]));
    assert_eq!(field_names(&v), vec!["x".to_string(), "y".to_string()]);
    assert!(field_names(&JsonValue::Int(1)).is_empty());
}

#[test]
fn text_helpers() {
    let v = chars_of("a/b/c");
    assert_eq!(v, vec!['a', '/', 'b', '/', 'c']);
    assert_eq!(string_from_chars(&v), "a/b/c");
    assert!(contains_str("hello world", "o w"));
    assert!(!contains_str("hello", "hello!"));
    assert!(chars_eq(&chars_of("ab"), &chars_of("ab")));
    assert!(!chars_eq(&chars_of("ab"), &chars_of("abc")));
    assert!(str_eq("x", "x"));
    assert!(!str_eq("x", "y"));
    assert!(occurs_at_exec(&v, &chars_of("b/"), 2));
    assert!(!occurs_at_exec(&v, &chars_of("b/"), 4));
    assert!(contains_chars(&v, &chars_of("/c")));
    assert_eq!(find_char(&v, '/', 0), Some(1));
    assert_eq!(find_char(&v, '/', 2), Some(3));
    assert_eq!(find_char(&v, 'z', 0), None);
    assert_eq!(rfind_char(&v, '/'), Some(3));
    assert_eq!(rfind_char(&v, 'z'), None);
    assert_eq!(sub_chars(&v, 2, 4), vec!['b', '/']);
    assert_eq!(sub_string(&v, 0, 3), "a/b");
    assert_eq!(after_last_char("a/b/c", '/'), "c");
    assert_eq!(after_last_char("abc", '/'), "abc");
    assert!(str_lt("abc", "abd"));
    assert!(str_lt("ab", "abc"));
    assert!(!str_lt("b", "abc"));
    assert!(!str_lt("abc", "abc"));
    assert_eq!(u64_text(0), "0");
    assert_eq!(u64_text(18_446_744_073_709_551_615), "18446744073709551615");
    assert_eq!(i64_text(-9_223_372_036_854_775_808), "-9223372036854775808");
    assert_eq!(i64_text(42), "42");
}

#[test]
fn setting_values_are_typed() {
    assert_eq!(setting_value("TRUE"), SettingValue::Bool(true));
    assert_eq!(setting_value("False"), SettingValue::Bool(false));
    assert_eq!(setting_value("42"), SettingValue::Int(42));
    assert_eq!(setting_value("+7"), SettingValue::Int(7));
    assert_eq!(setting_value("-9223372036854775808"), SettingValue::Int(i64::MIN));
    assert_eq!(setting_value("9223372036854775807"), SettingValue::Int(i64::MAX));
    assert_eq!(setting_value("9223372036854775808"), SettingValue::Other);
    assert_eq!(setting_value("1.5"), SettingValue::Other);
    assert_eq!(setting_value("-"), SettingValue::Other);
    assert_eq!(setting_value(""), SettingValue::Other);
    assert_eq!(setting_value("tru"), SettingValue::Other);
    assert_eq!(parse_i64("007"), Some(7));
    assert_eq!(parse_i64(" 7"), None);
}

#[test]
fn auth_errors_read_as_text() {
    assert_eq!(AuthError::NoPds.message(), "active profile has no `pds`");
    assert_eq!(AuthError::Config("missing".into()).message(), "config/active profile: missing");
    assert_eq!(
        AuthError::LoginRequired { profile: "main".into() }.message(),
        "no resumable session for profile `main`; run `tassle auth login` first"
    );
    assert_eq!(AuthError::Uri("x".into()).message(), "invalid PDS URI: x");
}

#[test]
fn rpg_schema_parts_are_listed_separately() {
    let raw = [LexiconDoc { nsid: "actor.rpg.stats", file_name: "actor.rpg.stats.json", json: "{\"id\":\"actor.rpg.stats\"}" }];
    let overlay: [LexiconDoc; 0] = [];
    assert_eq!(iter_raw(&raw, &overlay), raw.to_vec());
    assert!(iter_overlay(&raw, &overlay).is_empty());
}

#[test]
fn status_rows_pad_their_columns() {
    assert_eq!(
        status_line(true, "main", Some("did:plc:x"), None, "no session", Some("/tmp/s")),
        format!("{} {:<14} {:<32} {:<22} {:<24} {}", "*", "main", "did:plc:x", "-", "no session", "/tmp/s")
    );
    assert_eq!(
        status_line(false, "a-very-long-profile-name", None, Some("me.example"), "session exp 2030", None),
        format!(
            "{} {:<14} {:<32} {:<22} {:<24} {}",
            " ", "a-very-long-profile-name", "(no did)", "me.example", "session exp 2030", "?"
        )
    );
    assert_eq!(pad_right("é", 3), "é  ");
}
