use tass::quint::{resolve, sheet_patch, Quint, MAX_MILLIS, PER_POINT};

#[test]
fn points_always_floors() {
    assert_eq!(Quint::from_millis(0).points(), 0);
    assert_eq!(Quint::from_millis(999).points(), 0);
    assert_eq!(Quint::from_millis(1_000).points(), 1);
    assert_eq!(Quint::from_millis(1_999).points(), 1);
    assert_eq!(Quint::from_millis(20_000).points(), 20);
}

#[test]
fn from_points_round_trip() {
    let q = Quint::from_points(7);
    assert_eq!(q.millis(), 7_000);
    assert_eq!(q.points(), 7);
    assert_eq!(q.remainder(), 0);
}

#[test]
fn remainder_stays_in_unit_range() {
    for millis in [0i64, 1, 999, 1_000, 1_001, 19_999, 20_000] {
        let r = Quint::from_millis(millis).remainder();
        assert!(
            (0..PER_POINT).contains(&r),
            "remainder {r} out of range for millis {millis}"
        );
    }
}

#[test]
fn resolve_prefers_explicit_quint() {
    let resolved = resolve(Some(1_500), Some(9));
    assert_eq!(resolved, Some(Quint::from_millis(1_500)));
    assert_eq!(resolved.unwrap().points(), 1);
}

#[test]
fn resolve_hydrates_from_legacy_quintessence() {
    let resolved = resolve(None, Some(9));
    assert_eq!(resolved, Some(Quint::from_points(9)));
    assert_eq!(resolved.unwrap().millis(), 9_000);
    assert_eq!(resolved.unwrap().points(), 9);
}

#[test]
fn resolve_none_when_both_absent() {
    assert_eq!(resolve(None, None), None);
}

#[test]
fn sheet_patch_replicates_floored_points() {
    let patch = sheet_patch(Quint::from_millis(1_500));
    assert_eq!(patch.milli_quintessence, 1_500);
    assert_eq!(patch.quintessence, 1);
}

#[test]
fn anomalies_surface_not_clamped() {
    let neg = Quint::from_millis(-1);
    let over = Quint::from_millis(MAX_MILLIS + 1);
    assert!(neg.is_out_of_range());
    assert!(over.is_out_of_range());
    assert_eq!(neg.millis(), -1);
    assert_eq!(over.millis(), MAX_MILLIS + 1);
}

#[test]
fn negative_balance_points_are_floored() {
    let q = Quint::from_millis(-1_500);
    assert_eq!(q.points(), -2);
    assert_eq!(q.remainder(), 500);
    assert_eq!(q.points() * PER_POINT + q.remainder(), q.millis());
    assert_eq!(Quint::from_millis(-1).points(), -1);
    assert_eq!(Quint::from_millis(-1).remainder(), 999);
    assert_eq!(Quint::from_millis(-1_000).points(), -1);
    assert_eq!(Quint::from_millis(-1_000).remainder(), 0);
    assert_eq!(sheet_patch(Quint::from_millis(-1)).quintessence, -1);
}

#[test]
fn stamped_patch_keeps_balance_and_carries_time() {
    let patch = sheet_patch(Quint::from_points(3)).with_updated_at("2026-06-29T21:00:00Z");
    assert_eq!(patch.milli_quintessence, 3_000);
    assert_eq!(patch.quintessence, 3);
    assert_eq!(patch.milli_quintessence_updated_at.as_deref(), Some("2026-06-29T21:00:00Z"));
}

#[test]
fn in_range_balances_are_not_anomalies() {
    assert!(!Quint::from_millis(0).is_out_of_range());
    assert!(!Quint::from_millis(MAX_MILLIS).is_out_of_range());
}
