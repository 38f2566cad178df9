//! The `actor.rpg.stats` mage sheet: where the mage block lives in the two
//! production record shapes, and how its loose fields normalize to canonical
//! stats.

use vstd::prelude::*;
use crate::json::{entry_get, entry_int, entry_object, get_object, get_str, JsonValue};
use crate::quint::{points_of, resolvable, resolve, resolved_millis};

verus! {

/// The mage block of a stats record value: the `data` object of the
/// per-system envelope `{ system: "mage", data: {...} }`, else the legacy
/// inline `mage` object; `None` when neither shape carries one.
pub open spec fn mage_block_of(v: JsonValue) -> Option<Seq<(String, JsonValue)>> {
    if get_str(v, "system"@) == Some("mage"@) && get_object(v, "data"@) is Some {
        get_object(v, "data"@)
    } else {
        get_object(v, "mage"@)
    }
}

/// Whether `v` is the per-system envelope of a mage sheet.
pub open spec fn is_mage_envelope(v: JsonValue) -> bool {
    get_str(v, "system"@) == Some("mage"@)
}

/// Whether the `system` member of `value` is the string `mage`.
pub fn mage_envelope(value: &JsonValue) -> (b: bool)
    ensures
        b == is_mage_envelope(*value),
{
    match value.get_str("system") {
        Some(s) => crate::text::str_eq(s.as_str(), "mage"),
        None => false,
    }
}

/// Locate the mage field map inside an `actor.rpg.stats` record value.
pub fn mage_block(value: &JsonValue) -> (r: Option<&Vec<(String, JsonValue)>>)
    ensures
        r is Some <==> mage_block_of(*value) is Some,
        r matches Some(b) ==> b@ == mage_block_of(*value)->0,
{
    if mage_envelope(value) {
        if let Some(obj) = value.get_object("data") {
            return Some(obj);
        }
    }
    value.get_object("mage")
}

/// The first of `names` whose member in `obj` holds an integer, as that
/// integer.
pub open spec fn number_in(obj: Seq<(String, JsonValue)>, names: Seq<Seq<char>>) -> Option<i64>
    decreases names.len(),
{
    if names.len() == 0 {
        None
    } else {
        match entry_int(obj, names[0]) {
            Some(v) => Some(v),
            None => number_in(obj, names.drop_first()),
        }
    }
}

/// The views of a slice of names.
pub open spec fn name_views(names: Seq<&str>) -> Seq<Seq<char>> {
    names.map_values(|s: &str| s@)
}

/// First integer among `names` present on `obj`.
pub fn number_field(obj: &Vec<(String, JsonValue)>, names: &[&str]) -> (r: Option<i64>)
    ensures
        r == number_in(obj@, name_views(names@)),
{
    let mut i: usize = 0;
    assert(name_views(names@).skip(0) =~= name_views(names@));
    while i < names.len()
        invariant
            i <= names.len(),
            number_in(obj@, name_views(names@)) == number_in(obj@, name_views(names@).skip(i as int)),
        decreases names.len() - i,
    {
        let ghost rest = name_views(names@).skip(i as int);
        assert(rest[0] == names@[i as int]@);
        assert(rest.drop_first() =~= name_views(names@).skip(i + 1));
        match crate::json::entry_lookup(obj, names[i]) {
            Some(x) => {
                match x.as_i64() {
                    Some(v) => {
                        return Some(v);
                    },
                    None => {},
                }
            },
            None => {},
        }
        i = i + 1;
    }
    None
}

/// `willpower.<sub>` as an integer, when `willpower` is an object.
pub open spec fn willpower_sub(obj: Seq<(String, JsonValue)>, sub: Seq<char>) -> Option<i64> {
    match entry_object(obj, "willpower"@) {
        Some(w) => entry_int(w, sub),
        None => None,
    }
}

/// Permanent willpower: a flat `willpower`/`Willpower` integer, else the
/// `willpower.permanent` sub-field.
pub open spec fn willpower_of(obj: Seq<(String, JsonValue)>) -> Option<i64> {
    match number_in(obj, seq!["willpower"@, "Willpower"@]) {
        Some(v) => Some(v),
        None => willpower_sub(obj, "permanent"@),
    }
}

/// `willpower.<sub>` of `obj`, when `willpower` is an object holding an
/// integer there.
fn willpower_part(obj: &Vec<(String, JsonValue)>, sub: &str) -> (r: Option<i64>)
    ensures
        r == willpower_sub(obj@, sub@),
{
    match crate::json::entry_lookup(obj, "willpower") {
        Some(w) => match w.as_object() {
            Some(wo) => match crate::json::entry_lookup(wo, sub) {
                Some(x) => x.as_i64(),
                None => None,
            },
            None => None,
        },
        None => None,
    }
}

/// Permanent willpower of a mage block.
fn willpower_field(obj: &Vec<(String, JsonValue)>) -> (r: Option<i64>)
    ensures
        r == willpower_of(obj@),
{
    let names = ["willpower", "Willpower"];
    let r = number_field(obj, &names);
    assert(name_views(names@) =~= seq!["willpower"@, "Willpower"@]);
    match r {
        Some(v) => Some(v),
        None => willpower_part(obj, "permanent"),
    }
}

/// A mage sheet read out of a record, normalized to canonical fields.
/// `spheres` lists each sphere with a readable value, in canonical
/// (alphabetical) order; `missing` lists the canonical stats with none.
#[derive(Debug, Clone, PartialEq, Eq)]
pub struct NormalizedMageStats {
    pub arete: Option<i64>,
    pub willpower: Option<i64>,
    pub willpower_temporary: Option<i64>,
    /// Whole points: the floor of the resolved milli balance.
    pub quintessence: Option<i64>,
    /// The raw `milliQuintessence` extension field.
    pub milli_quintessence: Option<i64>,
    pub paradox: Option<i64>,
    pub spheres: Vec<(String, i64)>,
    pub missing: Vec<String>,
}

/// The views of a list of names.
pub open spec fn string_views(v: Seq<String>) -> Seq<Seq<char>> {
    v.map_values(|s: String| s@)
}

/// The views of a list of named values.
pub open spec fn pair_views(v: Seq<(String, i64)>) -> Seq<(Seq<char>, i64)> {
    v.map_values(|p: (String, i64)| (p.0@, p.1))
}

/// Record one canonical stat: its value joins `found` when readable, else its
/// name joins `missing`.
pub open spec fn tally(acc: (Seq<(Seq<char>, i64)>, Seq<Seq<char>>), name: Seq<char>, value: Option<i64>) -> (Seq<(Seq<char>, i64)>, Seq<Seq<char>>) {
    match value {
        Some(v) => (acc.0.push((name, v)), acc.1),
        None => (acc.0, acc.1.push(name)),
    }
}

/// The legacy and extension quintessence fields of a block.
pub open spec fn raw_quintessence(obj: Seq<(String, JsonValue)>) -> Option<i64> {
    number_in(obj, seq!["quintessence"@, "Quintessence"@])
}

/// The `milliQuintessence` extension field of a block.
pub open spec fn raw_milli(obj: Seq<(String, JsonValue)>) -> Option<i64> {
    number_in(obj, seq!["milliQuintessence"@, "MilliQuintessence"@])
}

/// The whole points a block shows: the floor of its resolved balance.
pub open spec fn quintessence_points(obj: Seq<(String, JsonValue)>) -> Option<i64> {
    match resolved_millis(raw_milli(obj), raw_quintessence(obj)) {
        Some(m) => Some(points_of(m) as i64),
        None => None,
    }
}

/// The canonical stats of a block: the spheres read (in canonical order) and
/// the canonical stats missing (core stats first, then spheres).
pub open spec fn stat_tally(obj: Seq<(String, JsonValue)>) -> (Seq<(Seq<char>, i64)>, Seq<Seq<char>>) {
    let core = tally(
        tally(
            tally(
                tally((Seq::empty(), Seq::empty()), "arete"@, number_in(obj, seq!["arete"@, "Arete"@])),
                "willpower"@,
                willpower_of(obj),
            ),
            "quintessence"@,
            quintessence_points(obj),
        ),
        "paradox"@,
        number_in(obj, seq!["paradox"@, "Paradox"@]),
    );
    let a0 = (Seq::empty(), core.1);
    let a1 = tally(a0, "correspondence"@, number_in(obj, seq!["correspondence"@, "Correspondence"@]));
    let a2 = tally(a1, "entropy"@, number_in(obj, seq!["entropy"@, "Entropy"@]));
    let a3 = tally(a2, "forces"@, number_in(obj, seq!["forces"@, "Forces"@, "Force"@]));
    let a4 = tally(a3, "life"@, number_in(obj, seq!["life"@, "Life"@]));
    let a5 = tally(a4, "matter"@, number_in(obj, seq!["matter"@, "Matter"@]));
    let a6 = tally(a5, "mind"@, number_in(obj, seq!["mind"@, "Mind"@]));
    let a7 = tally(a6, "prime"@, number_in(obj, seq!["prime"@, "Prime"@]));
    let a8 = tally(a7, "spirit"@, number_in(obj, seq!["spirit"@, "Spirit"@]));
    tally(a8, "time"@, number_in(obj, seq!["time"@, "Time"@]))
}

proof fn lemma_tally_keeps(acc: (Seq<(Seq<char>, i64)>, Seq<Seq<char>>), name: Seq<char>, value: Option<i64>, e: (Seq<char>, i64))
    requires
        acc.0.contains(e),
    ensures
        tally(acc, name, value).0.contains(e),
{
    if value is Some {
        let i = choose|i: int| 0 <= i < acc.0.len() && acc.0[i] == e;
        assert(tally(acc, name, value).0[i] == e);
    }
}

proof fn lemma_tally_adds(acc: (Seq<(Seq<char>, i64)>, Seq<Seq<char>>), name: Seq<char>, v: i64)
    ensures
        tally(acc, name, Some(v)).0.contains((name, v)),
{
    assert(tally(acc, name, Some(v)).0[acc.0.len() as int] == (name, v));
}

/// The canonical spheres with the case alias each is also read under.
pub open spec fn sphere_alias(s: Seq<char>, alias: Seq<char>) -> bool {
    ||| s == "correspondence"@ && alias == "Correspondence"@
    ||| s == "entropy"@ && alias == "Entropy"@
    ||| s == "forces"@ && alias == "Forces"@
    ||| s == "life"@ && alias == "Life"@
    ||| s == "matter"@ && alias == "Matter"@
    ||| s == "mind"@ && alias == "Mind"@
    ||| s == "prime"@ && alias == "Prime"@
    ||| s == "spirit"@ && alias == "Spirit"@
    ||| s == "time"@ && alias == "Time"@
}

/// Every sphere is read from its own field: when a block holds an integer
/// under a sphere's name, or else under its case alias, the normalized
/// spheres hold that sphere with that integer.
pub proof fn law_sphere_reads_its_own_field(obj: Seq<(String, JsonValue)>, s: Seq<char>, alias: Seq<char>, v: i64)
    requires
        sphere_alias(s, alias),
        entry_int(obj, s) == Some(v) || (entry_int(obj, s) is None && entry_int(obj, alias) == Some(v)),
    ensures
        stat_tally(obj).0.contains((s, v)),
{
    let core = tally(
        tally(
            tally(
                tally((Seq::empty(), Seq::empty()), "arete"@, number_in(obj, seq!["arete"@, "Arete"@])),
                "willpower"@,
                willpower_of(obj),
            ),
            "quintessence"@,
            quintessence_points(obj),
        ),
        "paradox"@,
        number_in(obj, seq!["paradox"@, "Paradox"@]),
    );
    let names = seq![
        ("correspondence"@, seq!["correspondence"@, "Correspondence"@]),
        ("entropy"@, seq!["entropy"@, "Entropy"@]),
        ("forces"@, seq!["forces"@, "Forces"@, "Force"@]),
        ("life"@, seq!["life"@, "Life"@]),
        ("matter"@, seq!["matter"@, "Matter"@]),
        ("mind"@, seq!["mind"@, "Mind"@]),
        ("prime"@, seq!["prime"@, "Prime"@]),
        ("spirit"@, seq!["spirit"@, "Spirit"@]),
        ("time"@, seq!["time"@, "Time"@]),
    ];
    let a0 = (Seq::<(Seq<char>, i64)>::empty(), core.1);
    let a1 = tally(a0, names[0].0, number_in(obj, names[0].1));
    let a2 = tally(a1, names[1].0, number_in(obj, names[1].1));
    let a3 = tally(a2, names[2].0, number_in(obj, names[2].1));
    let a4 = tally(a3, names[3].0, number_in(obj, names[3].1));
    let a5 = tally(a4, names[4].0, number_in(obj, names[4].1));
    let a6 = tally(a5, names[5].0, number_in(obj, names[5].1));
    let a7 = tally(a6, names[6].0, number_in(obj, names[6].1));
    let a8 = tally(a7, names[7].0, number_in(obj, names[7].1));
    let a9 = tally(a8, names[8].0, number_in(obj, names[8].1));
    assert(stat_tally(obj) == a9);
    let accs = seq![a0, a1, a2, a3, a4, a5, a6, a7, a8, a9];
    let e = (s, v);
    // Which sphere `s` is, and that its alias list reads `v`.
    let k: int = if s == "correspondence"@ && alias == "Correspondence"@ { 0 } else if s == "entropy"@ && alias == "Entropy"@ { 1 } else if s == "forces"@ && alias == "Forces"@ { 2 } else if s == "life"@ && alias == "Life"@ { 3 } else if s == "matter"@ && alias == "Matter"@ { 4 } else if s == "mind"@ && alias == "Mind"@ { 5 } else if s == "prime"@ && alias == "Prime"@ { 6 } else if s == "spirit"@ && alias == "Spirit"@ { 7 } else { 8 };
    assert(names[k].0 == s && names[k].1[0] == s && names[k].1[1] == alias);
    assert(number_in(obj, names[k].1) == Some(v)) by {
        reveal_with_fuel(number_in, 3);
        assert(names[k].1.drop_first()[0] == alias);
    }
    assert(accs[k + 1] == tally(accs[k], names[k].0, number_in(obj, names[k].1)));
    lemma_tally_adds(accs[k], s, v);
    assert(accs[k + 1].0.contains(e));
    if a1.0.contains(e) {
        lemma_tally_keeps(a1, names[1].0, number_in(obj, names[1].1), e);
    }
    if a2.0.contains(e) {
        lemma_tally_keeps(a2, names[2].0, number_in(obj, names[2].1), e);
    }
    if a3.0.contains(e) {
        lemma_tally_keeps(a3, names[3].0, number_in(obj, names[3].1), e);
    }
    if a4.0.contains(e) {
        lemma_tally_keeps(a4, names[4].0, number_in(obj, names[4].1), e);
    }
    if a5.0.contains(e) {
        lemma_tally_keeps(a5, names[5].0, number_in(obj, names[5].1), e);
    }
    if a6.0.contains(e) {
        lemma_tally_keeps(a6, names[6].0, number_in(obj, names[6].1), e);
    }
    if a7.0.contains(e) {
        lemma_tally_keeps(a7, names[7].0, number_in(obj, names[7].1), e);
    }
    if a8.0.contains(e) {
        lemma_tally_keeps(a8, names[8].0, number_in(obj, names[8].1), e);
    }
}

/// The blocks whose quintessence can be resolved without leaving `i64`.
pub open spec fn normalizable(obj: Seq<(String, JsonValue)>) -> bool {
    resolvable(raw_milli(obj), raw_quintessence(obj))
}

/// Push a canonical stat onto `found` or `missing`.
fn record_stat(found: &mut Vec<(String, i64)>, missing: &mut Vec<String>, name: &str, value: Option<i64>)
    ensures
        (pair_views(final(found)@), string_views(final(missing)@))
            == tally((pair_views(old(found)@), string_views(old(missing)@)), name@, value),
{
    match value {
        Some(v) => {
            found.push((name.to_owned(), v));
            assert(pair_views(found@) =~= pair_views(old(found)@).push((name@, v)));
        },
        None => {
            missing.push(name.to_owned());
            assert(string_views(missing@) =~= string_views(old(missing)@).push(name@));
        },
    }
}

/// Read a stat through its alias list and record it.
fn read_stat(obj: &Vec<(String, JsonValue)>, found: &mut Vec<(String, i64)>, missing: &mut Vec<String>, name: &str, aliases: &[&str])
    ensures
        (pair_views(final(found)@), string_views(final(missing)@))
            == tally((pair_views(old(found)@), string_views(old(missing)@)), name@, number_in(obj@, name_views(aliases@))),
{
    let v = number_field(obj, aliases);
    record_stat(found, missing, name, v);
}

/// Normalize an already-located mage field map: stat keys are read through
/// alias lists, `willpower` may be a flat integer or a
/// `{ permanent, temporary }` object, and quintessence resolves through the
/// milli extension field.
pub fn normalize_block(obj: &Vec<(String, JsonValue)>) -> (n: NormalizedMageStats)
    requires
        normalizable(obj@),
    ensures
        n.arete == number_in(obj@, seq!["arete"@, "Arete"@]),
        n.willpower == willpower_of(obj@),
        n.willpower_temporary == willpower_sub(obj@, "temporary"@),
        n.quintessence == quintessence_points(obj@),
        n.milli_quintessence == raw_milli(obj@),
        n.paradox == number_in(obj@, seq!["paradox"@, "Paradox"@]),
        pair_views(n.spheres@) == stat_tally(obj@).0,
        string_views(n.missing@) == stat_tally(obj@).1,
{
    let a_names = ["arete", "Arete"];
    let q_names = ["quintessence", "Quintessence"];
    let m_names = ["milliQuintessence", "MilliQuintessence"];
    let p_names = ["paradox", "Paradox"];
    assert(name_views(a_names@) =~= seq!["arete"@, "Arete"@]);
    assert(name_views(q_names@) =~= seq!["quintessence"@, "Quintessence"@]);
    assert(name_views(m_names@) =~= seq!["milliQuintessence"@, "MilliQuintessence"@]);
    assert(name_views(p_names@) =~= seq!["paradox"@, "Paradox"@]);
    let arete = number_field(obj, &a_names);
    let willpower = willpower_field(obj);
    let willpower_temporary = willpower_part(obj, "temporary");
    let quintessence_raw = number_field(obj, &q_names);
    let milli_raw = number_field(obj, &m_names);
    let quintessence = match resolve(milli_raw, quintessence_raw) {
        Some(q) => Some(q.points()),
        None => None,
    };
    let paradox = number_field(obj, &p_names);

    let mut found: Vec<(String, i64)> = Vec::new();
    let mut missing: Vec<String> = Vec::new();
    assert(pair_views(found@) =~= Seq::empty());
    assert(string_views(missing@) =~= Seq::empty());
    record_stat(&mut found, &mut missing, "arete", arete);
    record_stat(&mut found, &mut missing, "willpower", willpower);
    record_stat(&mut found, &mut missing, "quintessence", quintessence);
    record_stat(&mut found, &mut missing, "paradox", paradox);

    let mut spheres: Vec<(String, i64)> = Vec::new();
    assert(pair_views(spheres@) =~= Seq::empty());
    let s1 = ["correspondence", "Correspondence"];
    let s2 = ["entropy", "Entropy"];
    let s3 = ["forces", "Forces", "Force"];
    let s4 = ["life", "Life"];
    let s5 = ["matter", "Matter"];
    let s6 = ["mind", "Mind"];
    let s7 = ["prime", "Prime"];
    let s8 = ["spirit", "Spirit"];
    let s9 = ["time", "Time"];
    assert(name_views(s1@) =~= seq!["correspondence"@, "Correspondence"@]);
    assert(name_views(s2@) =~= seq!["entropy"@, "Entropy"@]);
    assert(name_views(s3@) =~= seq!["forces"@, "Forces"@, "Force"@]);
    assert(name_views(s4@) =~= seq!["life"@, "Life"@]);
    assert(name_views(s5@) =~= seq!["matter"@, "Matter"@]);
    assert(name_views(s6@) =~= seq!["mind"@, "Mind"@]);
    assert(name_views(s7@) =~= seq!["prime"@, "Prime"@]);
    assert(name_views(s8@) =~= seq!["spirit"@, "Spirit"@]);
    assert(name_views(s9@) =~= seq!["time"@, "Time"@]);
    read_stat(obj, &mut spheres, &mut missing, "correspondence", &s1);
    read_stat(obj, &mut spheres, &mut missing, "entropy", &s2);
    read_stat(obj, &mut spheres, &mut missing, "forces", &s3);
    read_stat(obj, &mut spheres, &mut missing, "life", &s4);
    read_stat(obj, &mut spheres, &mut missing, "matter", &s5);
    read_stat(obj, &mut spheres, &mut missing, "mind", &s6);
    read_stat(obj, &mut spheres, &mut missing, "prime", &s7);
    read_stat(obj, &mut spheres, &mut missing, "spirit", &s8);
    read_stat(obj, &mut spheres, &mut missing, "time", &s9);

    NormalizedMageStats {
        arete,
        willpower,
        willpower_temporary,
        quintessence,
        milli_quintessence: milli_raw,
        paradox,
        spheres,
        missing,
    }
}

/// The records whose mage block (if any) can be normalized.
pub open spec fn record_normalizable(record: JsonValue) -> bool {
    mage_block_of(record) matches Some(b) ==> normalizable(b)
}

/// `n` is the normalized form of the mage block `b`.
pub open spec fn normalizes(n: NormalizedMageStats, b: Seq<(String, JsonValue)>) -> bool {
    &&& n.arete == number_in(b, seq!["arete"@, "Arete"@])
    &&& n.willpower == willpower_of(b)
    &&& n.willpower_temporary == willpower_sub(b, "temporary"@)
    &&& n.quintessence == quintessence_points(b)
    &&& n.milli_quintessence == raw_milli(b)
    &&& n.paradox == number_in(b, seq!["paradox"@, "Paradox"@])
    &&& pair_views(n.spheres@) == stat_tally(b).0
    &&& string_views(n.missing@) == stat_tally(b).1
}

/// Locate the mage block in `record` and normalize it; `None` when the record
/// carries no mage block.
pub fn normalize(record: &JsonValue) -> (r: Option<NormalizedMageStats>)
    requires
        record_normalizable(*record),
    ensures
        r is Some <==> mage_block_of(*record) is Some,
        r matches Some(n) ==> normalizes(n, mage_block_of(*record)->0),
{
    match mage_block(record) {
        Some(b) => Some(normalize_block(b)),
        None => None,
    }
}

/// Whether `record` can be normalized: its mage block, if any, holds a
/// quintessence that resolves within `i64`.
pub fn is_normalizable(record: &JsonValue) -> (b: bool)
    ensures
        b == record_normalizable(*record),
{
    match mage_block(record) {
        Some(block) => {
            let q_names = ["quintessence", "Quintessence"];
            let m_names = ["milliQuintessence", "MilliQuintessence"];
            assert(name_views(q_names@) =~= seq!["quintessence"@, "Quintessence"@]);
            assert(name_views(m_names@) =~= seq!["milliQuintessence"@, "MilliQuintessence"@]);
            let milli = number_field(block, &m_names);
            let points = number_field(block, &q_names);
            match (milli, points) {
                (None, Some(p)) => -9_223_372_036_854_775 <= p && p <= 9_223_372_036_854_775,
                _ => true,
            }
        },
        None => true,
    }
}

} // verus!
