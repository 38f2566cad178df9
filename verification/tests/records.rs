use tass::json::JsonValue;
use tass::mage::{mage_block, normalize};
use tass::quint::{sheet_patch, Quint};
use tass::quint_jac::{self, extract_quint, patch_record, prepare_write, QuintError};
use tass::repo::rkey_from_uri;
use tass::repo_mage::{self, build_patch, prepare_write_with, WriteOpts};
use tass::stats::{stats_payload, summarize_record, summarize_systems};

fn obj(members: Vec<(&str, JsonValue)>) -> JsonValue {
    JsonValue::Object(members.into_iter().map(|(k, v)| (k.to_string(), v)).collect())
}

fn members(v: JsonValue) -> Vec<(String, JsonValue)> {
    match v {
        JsonValue::Object(m) => m,
        _ => panic!("not an object"),
    }
}

fn num(i: i64) -> JsonValue {
    JsonValue::Int(i)
}

fn text(s: &str) -> JsonValue {
    JsonValue::Str(s.to_string())
}

fn envelope(fields: JsonValue) -> JsonValue {
    obj(vec![("system", text("mage")), ("data", fields), ("$type", text("actor.rpg.stats"))])
}

fn inline(fields: JsonValue) -> JsonValue {
    obj(vec![("mage", fields), ("$type", text("actor.rpg.stats"))])
}

fn block_int(v: &JsonValue, key: &str) -> Option<i64> {
    mage_block(v).and_then(|b| tass::json::entry_lookup(b, key)).and_then(|x| x.as_i64())
}

#[test]
fn rkey_is_last_at_uri_segment() {
    assert_eq!(rkey_from_uri("at://did:plc:abc/actor.rpg.stats/mage"), "mage");
    assert_eq!(rkey_from_uri("mage"), "mage");
    assert_eq!(rkey_from_uri("at://did:plc:abc/coll/self"), "self");
}

#[test]
fn locates_block_in_both_shapes() {
    let e = envelope(obj(vec![("arete", num(3))]));
    assert_eq!(block_int(&e, "arete"), Some(3));
    let i = inline(obj(vec![("arete", num(3))]));
    assert_eq!(block_int(&i, "arete"), Some(3));
    assert!(mage_block(&obj(vec![("$type", text("actor.rpg.stats"))])).is_none());
}

#[test]
fn normalize_returns_none_without_block() {
    assert!(normalize(&obj(vec![("$type", text("actor.rpg.stats"))])).is_none());
}

#[test]
fn reads_core_stats_with_case_aliases() {
    let n = normalize(&inline(obj(vec![("Arete", num(4)), ("willpower", num(6)), ("Paradox", num(1))]))).unwrap();
    assert_eq!(n.arete, Some(4));
    assert_eq!(n.willpower, Some(6));
    assert_eq!(n.paradox, Some(1));
}

#[test]
fn willpower_object_shape() {
    let n = normalize(&inline(obj(vec![("willpower", obj(vec![("permanent", num(7)), ("temporary", num(5))]))])))
        .unwrap();
    assert_eq!(n.willpower, Some(7));
    assert_eq!(n.willpower_temporary, Some(5));
}

#[test]
fn quintessence_prefers_milli_and_floors_points() {
    let n = normalize(&envelope(obj(vec![("milliQuintessence", num(3500)), ("quintessence", num(2))]))).unwrap();
    assert_eq!(n.milli_quintessence, Some(3500));
    assert_eq!(n.quintessence, Some(3));
}

#[test]
fn quintessence_hydrates_from_legacy_integer() {
    let n = normalize(&inline(obj(vec![("quintessence", num(5))]))).unwrap();
    assert_eq!(n.milli_quintessence, None);
    assert_eq!(n.quintessence, Some(5));
}

#[test]
fn missing_lists_absent_stats() {
    let n = normalize(&inline(obj(vec![("arete", num(3))]))).unwrap();
    assert!(n.missing.contains(&"willpower".to_owned()));
    assert!(n.missing.contains(&"forces".to_owned()));
    assert!(!n.missing.contains(&"arete".to_owned()));
}

#[test]
fn spheres_read_through_aliases_in_canonical_order() {
    let n = normalize(&inline(obj(vec![("Time", num(2)), ("Force", num(3)), ("prime", num(1))]))).unwrap();
    assert_eq!(
        n.spheres,
        vec![("forces".to_string(), 3), ("prime".to_string(), 1), ("time".to_string(), 2)]
    );
    assert_eq!(
        n.missing,
        ["arete", "willpower", "quintessence", "paradox", "correspondence", "entropy", "life", "matter", "mind", "spirit"]
            .iter()
            .map(|s| s.to_string())
            .collect::<Vec<_>>()
    );
}

#[test]
fn non_integer_stat_falls_through_to_alias() {
    let n = normalize(&inline(obj(vec![("arete", text("three")), ("Arete", num(3))]))).unwrap();
    assert_eq!(n.arete, Some(3));
}

#[test]
fn lib_extract_prefers_milli_field() {
    let v = envelope(obj(vec![("milliQuintessence", num(1500)), ("quintessence", num(9))]));
    assert_eq!(extract_quint(&v), Some(Quint::from_millis(1500)));
    assert_eq!(extract_quint(&v).unwrap().points(), 1);
}

#[test]
fn extract_hydrates_from_legacy_quintessence() {
    let v = envelope(obj(vec![("quintessence", num(9))]));
    assert_eq!(extract_quint(&v), Some(Quint::from_points(9)));
}

#[test]
fn extract_works_for_inline_legacy_shape() {
    let v = inline(obj(vec![("Quintessence", num(7))]));
    assert_eq!(extract_quint(&v), None);
    let v2 = inline(obj(vec![("quintessence", num(7))]));
    assert_eq!(extract_quint(&v2), Some(Quint::from_points(7)));
}

#[test]
fn extract_none_when_no_mage_block() {
    let v = obj(vec![("system", text("vampire")), ("data", obj(vec![]))]);
    assert_eq!(extract_quint(&v), None);
}

#[test]
fn lib_extract_none_when_both_fields_absent() {
    let v = envelope(obj(vec![("arete", num(3))]));
    assert_eq!(extract_quint(&v), None);
}

#[test]
fn apply_replicates_into_legacy_field() {
    let mut v = envelope(obj(vec![("arete", num(3)), ("quintessence", num(5))]));
    assert!(patch_record(&mut v, Quint::from_millis(1_500)));
    assert_eq!(block_int(&v, "milliQuintessence"), Some(1500));
    assert_eq!(block_int(&v, "quintessence"), Some(1));
    assert_eq!(block_int(&v, "arete"), Some(3));
}

#[test]
fn apply_preserves_envelope_and_type() {
    let mut v = envelope(obj(vec![("quintessence", num(0))]));
    assert!(patch_record(&mut v, Quint::from_points(2)));
    assert_eq!(v.get_str("system").map(|s| s.as_str()), Some("mage"));
    assert_eq!(v.get_str("$type").map(|s| s.as_str()), Some("actor.rpg.stats"));
    assert_eq!(v.get("data").and_then(|d| d.get_i64("milliQuintessence")), Some(2000));
}

#[test]
fn apply_to_inline_shape_patches_mage_key() {
    let mut v = inline(obj(vec![("quintessence", num(0))]));
    assert!(patch_record(&mut v, Quint::from_points(4)));
    assert_eq!(v.get("mage").and_then(|m| m.get_i64("milliQuintessence")), Some(4000));
    assert_eq!(v.get("mage").and_then(|m| m.get_i64("quintessence")), Some(4));
}

#[test]
fn write_without_block_is_refused_and_untouched() {
    let mut v = obj(vec![("system", text("mage")), ("data", num(1))]);
    assert!(matches!(prepare_write(&mut v, Quint::from_points(1), "2026-01-01T00:00:00Z"), Err(QuintError::NoMageBlock)));
    assert_eq!(v, obj(vec![("system", text("mage")), ("data", num(1))]));
    assert_eq!(QuintError::NoMageBlock.message(), "record has no mage block to patch");
}

#[test]
fn write_bumps_record_updated_at() {
    let mut v = inline(obj(vec![("quintessence", num(1))]));
    assert!(prepare_write(&mut v, Quint::from_millis(2_500), "2026-01-01T00:00:00Z").is_ok());
    assert_eq!(v.get_str("updatedAt").map(|s| s.as_str()), Some("2026-01-01T00:00:00Z"));
    assert_eq!(v.get("mage").and_then(|m| m.get_i64("quintessence")), Some(2));
}

#[test]
fn build_patch_default_stamps_now() {
    let patch = build_patch(Quint::from_points(2), &WriteOpts::default(), "2026-06-30T00:00:00Z");
    assert_eq!(patch.milli_quintessence, 2_000);
    assert_eq!(patch.quintessence, 2);
    assert_eq!(patch.milli_quintessence_updated_at.as_deref(), Some("2026-06-30T00:00:00Z"));
}

#[test]
fn build_patch_at_uses_caller_time() {
    let opts = WriteOpts::default().at("1999-01-01T00:00:00Z");
    let patch = build_patch(Quint::from_points(1), &opts, "2026-06-30T00:00:00Z");
    assert_eq!(patch.milli_quintessence_updated_at.as_deref(), Some("1999-01-01T00:00:00Z"));
}

#[test]
fn build_patch_unstamped_omits_timestamp() {
    let opts = WriteOpts::default().unstamped();
    let patch = build_patch(Quint::from_points(1), &opts, "2026-06-30T00:00:00Z");
    assert!(patch.milli_quintessence_updated_at.is_none());
}

#[test]
fn extract_prefers_milli_field() {
    let m = members(obj(vec![("milliQuintessence", num(1500)), ("quintessence", num(9))]));
    assert_eq!(quint_jac::block_quint(&m), Some(Quint::from_millis(1500)));
    assert_eq!(quint_jac::block_quint(&m).unwrap().points(), 1);
}

#[test]
fn extract_hydrates_from_quintessence_only() {
    let m = members(obj(vec![("quintessence", num(9))]));
    assert_eq!(quint_jac::block_quint(&m), Some(Quint::from_points(9)));
}

#[test]
fn extract_none_when_both_fields_absent() {
    let m = members(obj(vec![("arete", num(3))]));
    assert_eq!(quint_jac::block_quint(&m), None);
}

#[test]
fn apply_sets_milli_and_replicates_floor() {
    let mut m = members(obj(vec![("arete", num(3)), ("quintessence", num(5))]));
    repo_mage::apply_quint(&mut m, &sheet_patch(Quint::from_millis(1_500)));
    let b = JsonValue::Object(m);
    assert_eq!(b.get_i64("milliQuintessence"), Some(1500));
    assert_eq!(b.get_i64("quintessence"), Some(1));
    assert_eq!(b.get_i64("arete"), Some(3));
}

#[test]
fn apply_writes_updated_at_when_stamped() {
    let mut m = members(obj(vec![("quintessence", num(0))]));
    let patch = sheet_patch(Quint::from_points(1)).with_updated_at("2026-06-29T21:00:00Z");
    repo_mage::apply_quint(&mut m, &patch);
    let b = JsonValue::Object(m);
    assert!(b.get_str("milliQuintessenceUpdatedAt").is_some());
    assert_eq!(b.get_str("milliQuintessenceUpdatedAt").map(|s| s.as_str()), Some("2026-06-29T21:00:00.000000Z"));
}

#[test]
fn apply_stamps_now_when_time_does_not_parse() {
    let mut m = members(obj(vec![]));
    let patch = sheet_patch(Quint::from_points(1)).with_updated_at("yesterday");
    repo_mage::apply_quint(&mut m, &patch);
    let b = JsonValue::Object(m);
    let stamp = b.get_str("milliQuintessenceUpdatedAt").expect("stamped").clone();
    assert_ne!(stamp, "yesterday");
    assert_eq!(stamp.len(), "2026-06-29T21:00:00.000000Z".len());
    assert!(stamp.ends_with('Z'));
}

#[test]
fn stamps_are_lexicon_datetimes() {
    let mut m = members(obj(vec![]));
    let patch = sheet_patch(Quint::from_points(1)).with_updated_at("2026-06-29T23:00:00.1234567+02:00");
    repo_mage::apply_quint(&mut m, &patch);
    let b = JsonValue::Object(m);
    assert_eq!(
        b.get_str("milliQuintessenceUpdatedAt").map(|s| s.as_str()),
        Some("2026-06-29T23:00:00.123457+02:00")
    );
    assert!(repo_mage::roundable("2026-06-29T21:00:00Z"));
    assert!(repo_mage::roundable("yesterday"));
    assert!(!repo_mage::roundable("3000-01-01T00:00:00Z"));
    assert!(!repo_mage::roundable("1600-01-01T00:00:00Z"));
}

#[test]
fn apply_omits_updated_at_when_unstamped() {
    let mut m = members(obj(vec![("quintessence", num(0))]));
    repo_mage::apply_quint(&mut m, &sheet_patch(Quint::from_points(1)));
    let b = JsonValue::Object(m);
    assert!(b.get("milliQuintessenceUpdatedAt").is_none());
}

#[test]
fn envelope_write_patches_data_and_bumps_updated_at() {
    let mut v = envelope(obj(vec![("arete", num(2))]));
    let opts = WriteOpts::default().at("2026-06-29T21:00:00Z");
    let r = prepare_write_with(&mut v, Quint::from_millis(4_200), &opts, "2026-07-01T00:00:00Z");
    assert_eq!(r.ok(), Some(Quint::from_millis(4_200)));
    assert_eq!(v.get_str("updatedAt").map(|s| s.as_str()), Some("2026-07-01T00:00:00Z"));
    let data = v.get("data").unwrap();
    assert_eq!(data.get_i64("quintessence"), Some(4));
    assert_eq!(data.get_str("milliQuintessenceUpdatedAt").map(|s| s.as_str()), Some("2026-06-29T21:00:00.000000Z"));
    let mut legacy = inline(obj(vec![]));
    assert!(prepare_write_with(&mut legacy, Quint::from_millis(1), &opts, "x").is_err());
}

#[test]
fn classifies_per_system_envelope() {
    let v = obj(vec![("system", text("mage")), ("data", obj(vec![("arete", num(3))]))]);
    let p = stats_payload(&v, "mage");
    assert_eq!(p.shape, "per-system-envelope");
    assert_eq!(p.system.as_deref(), Some("mage"));
    assert!(p.data.is_some());
}

#[test]
fn classifies_legacy_inline_and_self_and_unknown() {
    let inline_v = obj(vec![("mage", obj(vec![("arete", num(3))]))]);
    assert_eq!(stats_payload(&inline_v, "mage").shape, "legacy-inline-system");
    assert_eq!(stats_payload(&obj(vec![("vampire", obj(vec![]))]), "self").shape, "legacy-self-aggregate");
    assert_eq!(stats_payload(&obj(vec![("x", num(1))]), "mage").shape, "unknown");
}

#[test]
fn summarize_record_derives_rkey_and_fields() {
    let v = obj(vec![("system", text("mage")), ("data", obj(vec![("arete", num(3)), ("willpower", num(5))]))]);
    let s = summarize_record("at://did:plc:abc/actor.rpg.stats/mage", Some("cid1"), &v);
    assert_eq!(s.rkey, "mage");
    assert_eq!(s.cid.as_deref(), Some("cid1"));
    assert_eq!(s.shape, "per-system-envelope");
    assert_eq!(s.fields, vec!["arete".to_owned(), "willpower".to_owned()]);
}

#[test]
fn summarize_systems_skips_meta_and_sorts() {
    let v = obj(vec![
        ("$type", text("actor.rpg.stats")),
        ("updatedAt", text("2026-01-01")),
        ("mage", obj(vec![("arete", num(3))])),
        ("core", obj(vec![("hp", num(10))])),
    ]);
    let systems = summarize_systems(&v);
    let keys: Vec<_> = systems.iter().map(|s| s.key.as_str()).collect();
    assert_eq!(keys, vec!["core", "mage"]);
    assert_eq!(systems[0].kind, "object");
    assert_eq!(systems[0].fields, vec!["hp".to_string()]);
}

#[test]
fn summarize_systems_reports_kinds() {
    let v = obj(vec![("b", JsonValue::Bool(true)), ("a", JsonValue::Array(vec![])), ("c", JsonValue::Null)]);
    let systems = summarize_systems(&v);
    let kinds: Vec<_> = systems.iter().map(|s| (s.key.as_str(), s.kind.as_str())).collect();
    assert_eq!(kinds, vec![("a", "array"), ("b", "bool"), ("c", "null")]);
    assert!(summarize_systems(&num(1)).is_empty());
}

#[test]
fn stats_page_summarizes_each_record() {
    let page = tass::repo::ListPage {
        cursor: Some("next".into()),
        records: vec![tass::repo::envelope(
            "at://did:plc:abc/actor.rpg.stats/self".into(),
            None,
            obj(vec![("vampire", obj(vec![]))]),
        )],
    };
    let p = repo_mage::stats_page(page);
    assert_eq!(p.cursor.as_deref(), Some("next"));
    assert_eq!(p.records[0].shape, "legacy-self-aggregate");
    assert_eq!(p.records[0].fields, vec!["vampire".to_string()]);
    assert_eq!(quint_jac::STATS_COLLECTION, "actor.rpg.stats");
}

#[test]
fn written_balance_reads_back() {
    for millis in [0i64, 999, 1_000, 2_500, -1_500] {
        let mut v = envelope(obj(vec![("arete", num(2)), ("quintessence", num(7))]));
        assert!(prepare_write(&mut v, Quint::from_millis(millis), "2026-01-01T00:00:00Z").is_ok());
        assert_eq!(extract_quint(&v), Some(Quint::from_millis(millis)));
    }
    let mut inline_sheet = inline(obj(vec![("quintessence", num(3))]));
    assert!(prepare_write(&mut inline_sheet, Quint::from_millis(6_100), "2026-01-01T00:00:00Z").is_ok());
    assert_eq!(extract_quint(&inline_sheet), Some(Quint::from_millis(6_100)));
}

#[test]
fn prepared_write_reads_back_under_every_stamp() {
    let stamps = [WriteOpts::default(), WriteOpts::default().at("2026-06-29T21:00:00Z"), WriteOpts::default().unstamped()];
    for opts in stamps.iter() {
        let mut v = envelope(obj(vec![("arete", num(2))]));
        let r = prepare_write_with(&mut v, Quint::from_millis(3_300), opts, "2026-07-01T00:00:00Z");
        assert_eq!(r.ok(), Some(Quint::from_millis(3_300)));
        assert_eq!(extract_quint(&v), Some(Quint::from_millis(3_300)));
    }
}

#[test]
fn request_coordinates_are_validated() {
    assert!(quint_jac::request_coordinates("did:plc:abc123", "mage").is_ok());
    assert!(quint_jac::request_coordinates("alice.bsky.social", "self").is_ok());
    match quint_jac::request_coordinates("not an identifier", "mage") {
        Err(QuintError::Ident(m)) => assert!(!m.is_empty()),
        other => panic!("expected an identifier error, got {other:?}"),
    }
    match quint_jac::request_coordinates("did:plc:abc123", "bad/key") {
        Err(QuintError::Ident(m)) => assert!(m.contains("bad/key")),
        other => panic!("expected a record-key error, got {other:?}"),
    }
}
