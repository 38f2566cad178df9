//! Quint: mage pattern-quintessence at thousandth-of-a-point resolution.
//!
//! `milliQuintessence` is the source of truth; the legacy whole-point
//! `quintessence` field is always its floor in whole points, and every
//! write replicates both fields. Construction never clamps, so anomalous
//! balances (negative, over the cap) surface as they are.

use vstd::prelude::*;

verus! {

/// Milli-quintessence per whole point.
pub const PER_POINT: i64 = 1_000;

/// Canonical mage pattern-quintessence cap, in whole points.
pub const MAX_POINTS: i64 = 20;

/// The same cap in milli-quintessence.
pub const MAX_MILLIS: i64 = 20_000;

/// Whole points shown for a milli balance: the floor of `millis / 1000`.
pub open spec fn points_of(millis: int) -> int {
    millis / (PER_POINT as int)
}

/// Sub-point remainder of a milli balance, in `[0, 1000)`.
pub open spec fn remainder_of(millis: int) -> int {
    millis % (PER_POINT as int)
}

/// Whether `v` fits in an `i64`.
pub open spec fn fits_i64(v: int) -> bool {
    i64::MIN <= v <= i64::MAX
}

/// Whether a milli balance lies outside `[0, MAX_MILLIS]`.
pub open spec fn out_of_range(millis: int) -> bool {
    millis < 0 || millis > MAX_MILLIS
}

/// A quantity of pattern-quintessence in milli-points. The wrapped integer is
/// the source of truth; its view is that integer.
#[derive(Debug, Clone, Copy, PartialEq, Eq)]
pub struct Quint(i64);

impl View for Quint {
    type V = int;

    closed spec fn view(&self) -> int {
        self.0 as int
    }
}

impl Quint {
    /// A balance is a machine integer.
    pub proof fn lemma_fits(self)
        ensures
            fits_i64(self@),
    {
    }

    /// Construct from a raw milli-quintessence value (never clamped).
    pub fn from_millis(millis: i64) -> (q: Quint)
        ensures
            q@ == millis,
    {
        Quint(millis)
    }

    /// Construct from whole points: `from_points(p) == from_millis(p * 1000)`.
    pub fn from_points(points: i64) -> (q: Quint)
        requires
            fits_i64(points * PER_POINT),
        ensures
            q@ == points * PER_POINT,
    {
        Quint(points * PER_POINT)
    }

    /// The raw milli value — what the `milliQuintessence` field persists.
    pub fn millis(self) -> (m: i64)
        ensures
            m == self@,
    {
        self.0
    }

    /// Whole points, rounded down.
    pub fn points(self) -> (p: i64)
        ensures
            p == points_of(self@),
    {
        match self.0.checked_div_euclid(PER_POINT) {
            Some(p) => p,
            None => {
                // Never taken: the floor of an `i64` over 1000 is an `i64`.
                proof {
                    assert(i64::MIN <= self.0 / 1000 <= i64::MAX) by (nonlinear_arith)
                        requires i64::MIN <= self.0 <= i64::MAX;
                }
                0
            },
        }
    }

    /// The sub-point remainder, in `[0, 1000)`.
    pub fn remainder(self) -> (r: i64)
        ensures
            r == remainder_of(self@),
            0 <= r < PER_POINT,
    {
        match self.0.checked_rem_euclid(PER_POINT) {
            Some(r) => r,
            // Never taken: a remainder modulo 1000 always exists.
            None => 0,
        }
    }

    /// True when the balance lies outside `[0, MAX_MILLIS]`.
    pub fn is_out_of_range(self) -> (b: bool)
        ensures
            b == out_of_range(self@),
    {
        self.0 < 0 || self.0 > MAX_MILLIS
    }
}

/// What [`resolve`] yields: the explicit milli field when present, else the
/// legacy points hydrated to millis, else nothing.
pub open spec fn resolved_millis(milli_quintessence: Option<i64>, quintessence: Option<i64>) -> Option<int> {
    match milli_quintessence {
        Some(m) => Some(m as int),
        None => match quintessence {
            Some(p) => Some(p * PER_POINT),
            None => None,
        },
    }
}

/// The inputs on which [`resolve`] can hydrate without leaving `i64`.
pub open spec fn resolvable(milli_quintessence: Option<i64>, quintessence: Option<i64>) -> bool {
    milli_quintessence is None && quintessence is Some ==> fits_i64(quintessence->0 * PER_POINT)
}

/// Resolve the effective balance from raw mage-block fields: prefer
/// `milliQuintessence`, hydrate from `quintessence * 1000` when only the legacy
/// integer is present, `None` when neither is set.
pub fn resolve(milli_quintessence: Option<i64>, quintessence: Option<i64>) -> (r: Option<Quint>)
    requires
        resolvable(milli_quintessence, quintessence),
    ensures
        r is Some <==> resolved_millis(milli_quintessence, quintessence) is Some,
        r matches Some(q) ==> q@ == resolved_millis(milli_quintessence, quintessence)->0,
{
    if let Some(millis) = milli_quintessence {
        return Some(Quint::from_millis(millis));
    }
    match quintessence {
        Some(points) => Some(Quint::from_points(points)),
        None => None,
    }
}

/// The mage-block fields a write merges into the sheet: the source-of-truth
/// millis, the replicated floor, and an optional change stamp.
#[derive(Debug, Clone, PartialEq, Eq)]
pub struct SheetPatch {
    pub milli_quintessence: i64,
    pub quintessence: i64,
    pub milli_quintessence_updated_at: Option<String>,
}

impl SheetPatch {
    /// Stamp the patch with the time the milli value changed.
    pub fn with_updated_at(self, ts: &str) -> (p: SheetPatch)
        ensures
            p.milli_quintessence == self.milli_quintessence,
            p.quintessence == self.quintessence,
            p.milli_quintessence_updated_at matches Some(t) && t@ == ts@,
    {
        SheetPatch { milli_quintessence_updated_at: Some(ts.to_owned()), ..self }
    }
}

/// The patch for a desired balance: `q` as the source of truth, its floor
/// replicated into the legacy field, no stamp.
pub fn sheet_patch(q: Quint) -> (p: SheetPatch)
    ensures
        p.milli_quintessence == q@,
        p.quintessence == points_of(q@),
        p.milli_quintessence_updated_at is None,
{
    SheetPatch { milli_quintessence: q.millis(), quintessence: q.points(), milli_quintessence_updated_at: None }
}

/// The shown points are the balance's floor: whole points never exceed the
/// balance and the next point is not yet reached, negative balances included.
pub proof fn law_points_floor(millis: int)
    ensures
        points_of(millis) * PER_POINT <= millis < (points_of(millis) + 1) * PER_POINT,
        0 <= remainder_of(millis) < PER_POINT,
{
}

/// Every balance decomposes into its shown points and its remainder.
pub proof fn law_points_and_remainder_recompose(millis: int)
    ensures
        points_of(millis) * PER_POINT + remainder_of(millis) == millis,
        0 <= remainder_of(millis) < PER_POINT,
{
}

/// Whole points survive the trip into millis and back, with no remainder.
pub proof fn law_from_points_round_trip(points: int)
    ensures
        points_of(points * PER_POINT) == points,
        remainder_of(points * PER_POINT) == 0,
{
    assert((points * 1000) / 1000 == points && (points * 1000) % 1000 == 0) by (nonlinear_arith);
}

/// A read of what a patch wrote gives back the written balance, and the legacy
/// field the read sees already shows that balance's floor.
pub proof fn law_patch_read_back(milli: i64, quintessence: i64, q: int)
    requires
        milli == q,
        quintessence == points_of(q),
    ensures
        resolved_millis(Some(milli), Some(quintessence)) == Some(q),
        points_of(resolved_millis(Some(milli), Some(quintessence))->0) == quintessence,
{
}

} // verus!
