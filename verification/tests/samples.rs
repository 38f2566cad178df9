use tass::cli::{auth_set_lines, config_set_lines, password_choice, SetOutcome};
use tass::config::resolve_key_files;
use tass::json::{entry_keys, set_member, JsonValue};
use tass::samples::{build_samples, sample_records};

fn member<'a>(v: &'a JsonValue, key: &str) -> Option<&'a JsonValue> {
    match v {
        JsonValue::Object(es) => es.iter().find(|(k, _)| k == key).map(|(_, v)| v),
        _ => None,
    }
}

#[test]
fn auth_set_reports_each_outcome() {
    let f = "/cfg/work.toml";
    assert_eq!(auth_set_lines("pds", &SetOutcome::Unset(true), f), vec!["unset pds", "  file: /cfg/work.toml"]);
    assert_eq!(
        auth_set_lines("pds", &SetOutcome::Unset(false), f),
        vec!["pds was already unset", "  file: /cfg/work.toml"]
    );
    assert_eq!(
        auth_set_lines("a.b", &SetOutcome::Written("true".into()), f),
        vec!["a.b = true", "  file: /cfg/work.toml"]
    );
    assert_eq!(auth_set_lines("pds", &SetOutcome::Read(Some("\"x\"".into())), f), vec!["pds = \"x\""]);
    assert_eq!(auth_set_lines("pds", &SetOutcome::Read(None), f), vec!["pds is unset", "  file: /cfg/work.toml"]);
}

#[test]
fn config_set_reports_each_outcome() {
    let f = "/cfg/config.toml";
    assert_eq!(config_set_lines("profile", &SetOutcome::Unset(true), f), vec!["unset", "  profile", "  file: /cfg/config.toml"]);
    assert_eq!(
        config_set_lines("profile", &SetOutcome::Unset(false), f),
        vec!["(already unset)", "  profile", "  file: /cfg/config.toml"]
    );
    assert_eq!(config_set_lines("k", &SetOutcome::Written("3".into()), f), vec!["k = 3", "  file: /cfg/config.toml"]);
    assert_eq!(config_set_lines("k", &SetOutcome::Read(Some("v".into())), f), vec!["v"]);
    assert!(config_set_lines("k", &SetOutcome::Read(None), f).is_empty());
}

#[test]
fn password_prefers_flag_then_nonempty_env() {
    assert_eq!(password_choice(Some("flag".into()), Some("env".into())), Some("flag".to_string()));
    assert_eq!(password_choice(Some(String::new()), Some("env".into())), Some(String::new()));
    assert_eq!(password_choice(None, Some("env".into())), Some("env".to_string()));
    assert_eq!(password_choice(None, Some(String::new())), None);
    assert_eq!(password_choice(None, None), None);
}

#[test]
fn samples_are_the_four_fixed_records() {
    let samples = build_samples().expect("the sample URIs and time are valid");
    let names: Vec<&str> = samples.iter().map(|s| s.filename.as_str()).collect();
    assert_eq!(
        names,
        vec![
            "node-crystal-spring.example.json",
            "tassilize-silver-coin.example.json",
            "meditate-dawn-pull.example.json",
            "enervate-spend.example.json",
        ]
    );
    assert!(samples.iter().all(|s| s.filename.ends_with(".example.json")));
    let at = JsonValue::Str("2026-06-21T12:00:00.000000Z".into());
    assert!(samples.iter().all(|s| member(&s.record, "createdAt") == Some(&at)));
    let node_uri = JsonValue::Str("at://did:plc:samplesamplesamplesample/com.superbfowle.tass.node/3ksamplesample1".into());
    assert_eq!(member(&samples[1].record, "node"), Some(&node_uri));
    assert_eq!(member(&samples[2].record, "node"), Some(&node_uri));
    assert_eq!(
        member(&samples[3].record, "tass"),
        Some(&JsonValue::Str(
            "at://did:plc:samplesamplesamplesample/com.superbfowle.tass.tassilize/3ksamplesample2".into()
        ))
    );
    assert_eq!(member(&samples[0].record, "rating"), Some(&JsonValue::Int(3)));
    assert_eq!(member(&samples[1].record, "quintessence"), Some(&JsonValue::Int(5)));
    assert_eq!(member(&samples[3].record, "amount"), Some(&JsonValue::Int(2)));
}

#[test]
fn sample_records_carry_the_given_time_and_uris() {
    let s = sample_records("T", "N", "S");
    assert_eq!(s.len(), 4);
    assert_eq!(member(&s[0].record, "createdAt"), Some(&JsonValue::Str("T".into())));
    assert_eq!(member(&s[2].record, "node"), Some(&JsonValue::Str("N".into())));
    assert_eq!(member(&s[3].record, "tass"), Some(&JsonValue::Str("S".into())));
    assert_eq!(s[0].description, "A rating-3 Node with dynamic resonance and a default ambient pool (15q).");
}

#[test]
fn key_files_join_relative_names_onto_the_directory() {
    let files = resolve_key_files("/state/", &["a.json".into(), "/abs/k.json".into()], "json");
    assert_eq!(files, vec!["/state/a.json".to_string(), "/abs/k.json".to_string()]);
    let files = resolve_key_files("", &["a".into()], "json");
    assert_eq!(files, vec!["a.json".to_string()]);
}

#[test]
fn setting_members_keeps_keys_distinct() {
    let mut m = vec![("a".to_string(), JsonValue::Int(1)), ("b".to_string(), JsonValue::Null)];
    set_member(&mut m, "a", JsonValue::Int(2));
    set_member(&mut m, "c", JsonValue::Int(3));
    set_member(&mut m, "c", JsonValue::Int(4));
    assert_eq!(entry_keys(&m), vec!["a".to_string(), "b".to_string(), "c".to_string()]);
    let v = JsonValue::Object(m);
    assert_eq!(v.get_i64("a"), Some(2));
    assert_eq!(v.get_i64("c"), Some(4));
}
