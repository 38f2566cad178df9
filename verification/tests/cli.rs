use tass::cli::{
    candidate_rkeys, check_limit, display_opt, format_session, fragment_file, join, jwt_payload, plan_config_set,
    profile_line, range_note, sample_uri, session_state, split_assignment, stamp_opts, OutputFormat, SetAction,
    SetError, SetTarget,
};
use tass::json::JsonValue;
use tass::quint::{Quint, MAX_MILLIS};
use tass::repo_mage::build_patch;

fn obj(members: Vec<(&str, JsonValue)>) -> JsonValue {
    JsonValue::Object(members.into_iter().map(|(k, v)| (k.to_string(), v)).collect())
}

#[test]
fn only_json_is_json() {
    assert!(OutputFormat::Json.is_json());
    assert!(!OutputFormat::Table.is_json());
    assert!(!OutputFormat::Cbor.is_json());
}

#[test]
fn assignments_split_at_first_equals_and_trim() {
    assert_eq!(split_assignment(" did = did:plc:x=y "), ("did", Some("did:plc:x=y")));
    assert_eq!(split_assignment("  pds  "), ("pds", None));
    assert_eq!(split_assignment("k="), ("k", Some("")));
    assert_eq!(split_assignment("\u{3000}k\u{a0}=\tv\n"), ("k", Some("v")));
}

#[test]
fn optional_stats_show_number_or_absent() {
    assert_eq!(display_opt(Some(4)), "4");
    assert_eq!(display_opt(Some(-12)), "-12");
    assert_eq!(display_opt(Some(i64::MIN)), i64::MIN.to_string());
    assert_eq!(display_opt(None), "absent");
}

#[test]
fn stamp_options_prefer_unstamped() {
    let now = "2026-06-30T00:00:00Z";
    let q = Quint::from_points(1);
    let unstamped = stamp_opts(Some("1999-01-01T00:00:00Z".into()), true);
    assert!(build_patch(q, &unstamped, now).milli_quintessence_updated_at.is_none());
    let at = stamp_opts(Some("1999-01-01T00:00:00Z".into()), false);
    assert_eq!(build_patch(q, &at, now).milli_quintessence_updated_at.as_deref(), Some("1999-01-01T00:00:00Z"));
    let default = stamp_opts(None, false);
    assert_eq!(build_patch(q, &default, now).milli_quintessence_updated_at.as_deref(), Some(now));
}

#[test]
fn range_note_warns_out_of_range() {
    assert_eq!(range_note(Quint::from_millis(MAX_MILLIS + 1)), "  \u{26a0} out of expected [0, 20] range");
    assert_eq!(range_note(Quint::from_millis(-1)), "  \u{26a0} out of expected [0, 20] range");
    assert_eq!(range_note(Quint::from_millis(5)), "");
}

#[test]
fn sessions_show_their_state() {
    let ok = obj(vec![("state", JsonValue::Str("ok".into())), ("exp", JsonValue::Str("2026-01-01T00:00:00+00:00".into()))]);
    assert_eq!(format_session(&ok), "session exp 2026-01-01T00:00:00+00:00");
    assert_eq!(format_session(&obj(vec![("state", JsonValue::Str("ok".into()))])), "session present");
    assert_eq!(format_session(&obj(vec![("state", JsonValue::Str("expired".into()))])), "session EXPIRED");
    assert_eq!(format_session(&obj(vec![("state", JsonValue::Str("absent".into()))])), "no session");
    assert_eq!(format_session(&obj(vec![("state", JsonValue::Str("n/a".into()))])), "session: n/a");
    assert_eq!(format_session(&JsonValue::Null), "session: n/a");
    assert_eq!(session_state(10, 11), "expired");
    assert_eq!(session_state(11, 11), "ok");
}

#[test]
fn jwt_payload_is_second_segment_decoded() {
    // {"exp":5} in URL-safe base64 without padding.
    assert_eq!(jwt_payload("h.eyJleHAiOjV9.sig"), Some(br#"{"exp":5}"#.to_vec()));
    assert_eq!(jwt_payload("h.eyJleHAiOjV9"), Some(br#"{"exp":5}"#.to_vec()));
    assert_eq!(jwt_payload("no-dots"), None);
    assert_eq!(jwt_payload("h.!!!.s"), None);
    assert_eq!(tass::cli::jwt_exp("h.eyJleHAiOjV9.sig"), Some(5));
    assert_eq!(tass::cli::jwt_exp("h.eyJzdWIiOiJ4In0.sig"), None);
    assert_eq!(tass::cli::jwt_exp("no-dots"), None);
}

#[test]
fn sample_uris_use_placeholder_did() {
    assert_eq!(
        sample_uri("com.superbfowle.tass.node", "3ksamplesample1"),
        "at://did:plc:samplesamplesamplesample/com.superbfowle.tass.node/3ksamplesample1"
    );
}

#[test]
fn config_set_plans() {
    assert!(matches!(plan_config_set(" =x", false), Err(SetError::MissingKey)));
    assert!(matches!(plan_config_set("did=x", true), Err(SetError::UnsetWithValue)));
    let p = plan_config_set("profile = work", false).unwrap();
    assert_eq!(p.key, "profile");
    assert_eq!(p.target, SetTarget::BaseConfig);
    assert!(matches!(p.action, SetAction::Write(ref v) if v == "work"));
    let r = plan_config_set("pds", false).unwrap();
    assert_eq!(r.target, SetTarget::ActiveFragment);
    assert!(matches!(r.action, SetAction::Read));
    let u = plan_config_set("pds", true).unwrap();
    assert!(matches!(u.action, SetAction::Unset));
    assert_eq!(SetError::MissingKey.message(), "config key is required");
    assert_eq!(fragment_file("work"), "work.toml");
    assert_eq!(profile_line("work", "work"), "* work");
    assert_eq!(profile_line("home", "work"), "  home");
}

#[test]
fn mage_list_helpers() {
    assert!(check_limit(1).is_ok() && check_limit(100).is_ok());
    assert_eq!(check_limit(0), Err("--limit must be between 1 and 100".to_string()));
    assert!(check_limit(101).is_err());
    assert_eq!(candidate_rkeys(None), vec!["mage".to_string(), "self".to_string()]);
    assert_eq!(candidate_rkeys(Some("vampire".into())), vec!["vampire".to_string()]);
    assert_eq!(join(&vec!["a".into(), "b".into(), "c".into()], ", "), "a, b, c");
    assert_eq!(join(&vec![], ", "), "");
}
