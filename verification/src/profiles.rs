//! Login profiles kept as drop-in fragments: which one is the default, and
//! the dotted keys their settings are addressed by.

use vstd::prelude::*;
use crate::cli::{trim, trimmed};
use crate::text::{
    char_from_ascii, chars_of, digits_value, is_digit, lemma_digits_push, find_char, index_of, index_of_from, lemma_lex_lt_irreflexive, lemma_lex_lt_total,
    lemma_lex_lt_transitive, lex_lt, str_lt, sub_string,
};

verus! {

/// A login profile read from its fragment.
#[derive(Debug, Clone)]
pub struct Profile {
    pub id: String,
    pub did: String,
    pub handle: Option<String>,
    pub pds: String,
    pub active: bool,
    /// The fragment's path.
    pub path: String,
    pub updated_at: Option<String>,
}

/// The view of an optional text.
pub open spec fn opt_view(o: Option<String>) -> Option<Seq<char>> {
    match o {
        Some(s) => Some(s@),
        None => None,
    }
}

/// Optional texts in ascending order: none first, then by text.
pub open spec fn opt_lt(a: Option<Seq<char>>, b: Option<Seq<char>>) -> bool {
    match (a, b) {
        (None, Some(_)) => true,
        (Some(x), Some(y)) => lex_lt(x, y),
        _ => false,
    }
}

/// `a` comes before `b` among profiles: active ones first, then the most
/// recently updated (an update time before none), then by DID.
pub open spec fn profile_before(a: Profile, b: Profile) -> bool {
    if a.active != b.active {
        a.active
    } else if opt_view(a.updated_at) != opt_view(b.updated_at) {
        opt_lt(opt_view(b.updated_at), opt_view(a.updated_at))
    } else {
        lex_lt(a.did@, b.did@)
    }
}

/// Two profiles tie when they agree on everything the order looks at.
pub open spec fn profile_tie(a: Profile, b: Profile) -> bool {
    a.active == b.active && opt_view(a.updated_at) == opt_view(b.updated_at) && a.did@ == b.did@
}

proof fn lemma_opt_lt(a: Option<Seq<char>>, b: Option<Seq<char>>, c: Option<Seq<char>>)
    ensures
        !opt_lt(a, a),
        a != b ==> opt_lt(a, b) || opt_lt(b, a),
        opt_lt(a, b) && opt_lt(b, c) ==> opt_lt(a, c),
{
    if a is Some {
        lemma_lex_lt_irreflexive(a->0);
    }
    if a is Some && b is Some {
        lemma_lex_lt_total(a->0, b->0);
    }
    if opt_lt(a, b) && opt_lt(b, c) && a is Some {
        lemma_lex_lt_transitive(a->0, b->0, c->0);
    }
}

proof fn lemma_profile_order(a: Profile, b: Profile, c: Profile)
    ensures
        !profile_before(a, a),
        profile_before(a, b) || profile_before(b, a) || profile_tie(a, b),
        profile_before(a, b) && profile_before(b, c) ==> profile_before(a, c),
{
    let (ua, ub, uc) = (opt_view(a.updated_at), opt_view(b.updated_at), opt_view(c.updated_at));
    lemma_opt_lt(ua, ub, uc);
    lemma_opt_lt(ub, ua, uc);
    lemma_opt_lt(uc, ub, ua);
    lemma_opt_lt(ua, uc, ub);
    lemma_opt_lt(ub, uc, ua);
    lemma_opt_lt(uc, ua, ub);
    lemma_lex_lt_irreflexive(a.did@);
    lemma_lex_lt_total(a.did@, b.did@);
    if lex_lt(a.did@, b.did@) && lex_lt(b.did@, c.did@) {
        lemma_lex_lt_transitive(a.did@, b.did@, c.did@);
    }
}

/// Whether the optional text `a` sorts strictly before `b`.
fn opt_less(a: &Option<String>, b: &Option<String>) -> (r: bool)
    ensures
        r == opt_lt(opt_view(*a), opt_view(*b)),
{
    match (a, b) {
        (None, Some(_)) => true,
        (Some(x), Some(y)) => str_lt(x.as_str(), y.as_str()),
        _ => false,
    }
}

/// Whether two optional texts are equal.
fn opt_eq(a: &Option<String>, b: &Option<String>) -> (r: bool)
    ensures
        r == (opt_view(*a) == opt_view(*b)),
{
    match (a, b) {
        (None, None) => true,
        (Some(x), Some(y)) => crate::text::str_eq(x.as_str(), y.as_str()),
        _ => false,
    }
}

/// Whether profile `a` comes before `b`.
fn comes_before(a: &Profile, b: &Profile) -> (r: bool)
    ensures
        r == profile_before(*a, *b),
{
    if a.active != b.active {
        a.active
    } else if !opt_eq(&a.updated_at, &b.updated_at) {
        opt_less(&b.updated_at, &a.updated_at)
    } else {
        str_lt(a.did.as_str(), b.did.as_str())
    }
}

/// The default profile among `profiles`: the first in order (active first,
/// then most recently updated, then by DID), the earliest listed among ties;
/// `None` when there are none.
pub fn default_profile_index(profiles: &[Profile]) -> (r: Option<usize>)
    ensures
        r is None <==> profiles.len() == 0,
        r matches Some(k) ==> {
            &&& k < profiles.len()
            &&& forall|j: int| 0 <= j < profiles.len() ==> !profile_before(#[trigger] profiles@[j], profiles@[k as int])
            &&& forall|j: int| 0 <= j < k ==> profile_before(profiles@[k as int], #[trigger] profiles@[j])
        },
{
    if profiles.len() == 0 {
        return None;
    }
    let mut best: usize = 0;
    let mut i: usize = 1;
    proof {
        lemma_profile_order(profiles@[0], profiles@[0], profiles@[0]);
    }
    while i < profiles.len()
        invariant
            1 <= i <= profiles.len(),
            best < i,
            forall|j: int| 0 <= j < i ==> !profile_before(#[trigger] profiles@[j], profiles@[best as int]),
            forall|j: int| 0 <= j < best ==> profile_before(profiles@[best as int], #[trigger] profiles@[j]),
        decreases profiles.len() - i,
    {
        if comes_before(&profiles[i], &profiles[best]) {
            proof {
                let pi = profiles@[i as int];
                let pb = profiles@[best as int];
                assert forall|j: int| 0 <= j < i implies !profile_before(#[trigger] profiles@[j], pi) by {
                    lemma_profile_order(profiles@[j], pi, pb);
                }
                assert forall|j: int| 0 <= j < i implies profile_before(pi, #[trigger] profiles@[j]) by {
                    let pj = profiles@[j];
                    lemma_profile_order(pi, pb, pj);
                    lemma_profile_order(pb, pj, pi);
                    lemma_profile_order(pi, pj, pb);
                }
                lemma_profile_order(pi, pi, pi);
            }
            best = i;
        } else {
            proof {
                lemma_profile_order(profiles@[best as int], profiles@[best as int], profiles@[best as int]);
            }
        }
        i = i + 1;
    }
    Some(best)
}

/// The parts of a dotted key: the texts between its dots.
pub open spec fn dot_parts(s: Seq<char>) -> Seq<Seq<char>>
    decreases s.len(),
{
    match index_of(s, '.') {
        Some(i) => {
            proof {
                crate::text::lemma_index_of_from_bounds(s, '.', 0);
            }
            seq![s.take(i)] + dot_parts(s.skip(i + 1))
        },
        None => seq![s],
    }
}

/// The parts of a dotted key, when none is empty.
pub open spec fn dotted_parts(s: Seq<char>) -> Option<Seq<Seq<char>>> {
    if forall|i: int| 0 <= i < dot_parts(s).len() ==> #[trigger] dot_parts(s)[i].len() > 0 {
        Some(dot_parts(s))
    } else {
        None
    }
}

proof fn lemma_push_nonempty(before: Seq<String>, after: Seq<String>, was: bool)
    requires
        after.len() == before.len() + 1,
        forall|k: int| 0 <= k < before.len() ==> after[k] == before[k],
        was == (forall|i: int| 0 <= i < before.len() ==> #[trigger] before[i]@.len() > 0),
    ensures
        (was && after[before.len() as int]@.len() > 0) == (forall|i: int| 0 <= i < after.len() ==> #[trigger] after[i]@.len() > 0),
{
    if !was {
        let j = choose|j: int| 0 <= j < before.len() && !(before[j]@.len() > 0);
        assert(after[j] == before[j]);
    }
    if was && after[before.len() as int]@.len() > 0 {
        assert forall|i: int| 0 <= i < after.len() implies #[trigger] after[i]@.len() > 0 by {
            if i < before.len() {
                assert(after[i] == before[i]);
            }
        }
    }
}

/// Split a dotted key into its parts; refused when any part is empty.
pub fn dotted_path(key: &str) -> (r: Result<Vec<String>, String>)
    ensures
        dotted_parts(key@) is Some ==> (r matches Ok(v) && v@.map_values(|s: String| s@) == dotted_parts(key@)->0),
        dotted_parts(key@) is None ==> (r matches Err(m) && m@ == "config key must be a non-empty dotted TOML path"@),
{
    let v = chars_of(key);
    let mut parts: Vec<String> = Vec::new();
    let mut start: usize = 0;
    let mut all_nonempty = true;
    assert(key@.skip(0) =~= key@);
    assert(parts@.map_values(|s: String| s@) + dot_parts(key@) =~= dot_parts(key@));
    loop
        invariant_except_break
            start <= v.len(),
            v@ == key@,
            dot_parts(key@) == parts@.map_values(|s: String| s@) + dot_parts(key@.skip(start as int)),
            all_nonempty == (forall|i: int| 0 <= i < parts@.len() ==> #[trigger] parts@[i]@.len() > 0),
        ensures
            dot_parts(key@) == parts@.map_values(|s: String| s@),
            all_nonempty == (forall|i: int| 0 <= i < parts@.len() ==> #[trigger] parts@[i]@.len() > 0),
        decreases v.len() - start,
    {
        let ghost rest = key@.skip(start as int);
        let ghost before = parts@.map_values(|s: String| s@);
        let ghost before_parts = parts@;
        match find_char(&v, '.', start) {
            Some(i) => {
                proof {
                    crate::engine::lemma_shifted_index(key@, '.', start as nat);
                    assert(rest.take(i - start) =~= v@.subrange(start as int, i as int));
                    assert(rest.skip(i - start + 1) =~= key@.skip(i + 1));
                }
                let part = sub_string(&v, start, i);
                let nonempty = i > start;
                let ghost was = all_nonempty;
                parts.push(part);
                all_nonempty = all_nonempty && nonempty;
                proof { lemma_push_nonempty(before_parts, parts@, was); }
                proof {
                    assert(parts@.map_values(|s: String| s@) =~= before.push(rest.take(i - start)));
                    assert(before.push(rest.take(i - start)) + dot_parts(key@.skip(i + 1))
                        =~= before + (seq![rest.take(i - start)] + dot_parts(rest.skip(i - start + 1))));
                    assert(parts@ == before_parts.push(parts@[parts@.len() - 1]));
                }
                start = i + 1;
            },
            None => {
                proof {
                    crate::engine::lemma_shifted_index(key@, '.', start as nat);
                    assert(rest =~= v@.subrange(start as int, v.len() as int));
                }
                let part = sub_string(&v, start, v.len());
                let nonempty = v.len() > start;
                let ghost was = all_nonempty;
                parts.push(part);
                all_nonempty = all_nonempty && nonempty;
                proof { lemma_push_nonempty(before_parts, parts@, was); }
                proof {
                    assert(parts@.map_values(|s: String| s@) =~= before.push(rest));
                    assert(dot_parts(key@) =~= parts@.map_values(|s: String| s@));
                    assert(parts@ == before_parts.push(parts@[parts@.len() - 1]));
                }
                break;
            },
        }
    }
    let ghost pv = parts@.map_values(|s: String| s@);
    assert(dot_parts(key@) == pv);
    if all_nonempty {
        assert forall|i: int| 0 <= i < dot_parts(key@).len() implies #[trigger] dot_parts(key@)[i].len() > 0 by {
            assert(pv[i] == parts@[i]@);
        }
        Ok(parts)
    } else {
        proof {
            let j = choose|j: int| 0 <= j < parts@.len() && !(parts@[j]@.len() > 0);
            assert(pv[j] == parts@[j]@);
        }
        Err(String::from_str("config key must be a non-empty dotted TOML path"))
    }
}

// ---------------------------------------------------------------------------
// Typed setting values.

/// A setting value typed as exactly as the reader can decide it: a boolean,
/// an integer, or neither.
#[derive(Debug, Clone, Copy, PartialEq, Eq, Structural)]
pub enum SettingValue {
    Bool(bool),
    Int(i64),
    /// Neither a boolean nor an integer (a float or a string).
    Other,
}

/// `c` with an ASCII upper-case letter folded to lower case.
pub open spec fn ascii_lower(c: char) -> char {
    if 'A' <= c && c <= 'Z' {
        ((c as u32) + 32) as char
    } else {
        c
    }
}

/// `a` and `b` are equal ignoring ASCII case.
pub open spec fn eq_ignore_ascii_case(a: Seq<char>, b: Seq<char>) -> bool {
    a.len() == b.len() && forall|i: int| 0 <= i < a.len() ==> ascii_lower(#[trigger] a[i]) == ascii_lower(b[i])
}

/// Whether `s` opens with a sign.
pub open spec fn has_sign(s: Seq<char>) -> bool {
    s.len() > 0 && (s[0] == '-' || s[0] == '+')
}

/// What follows an optional leading sign.
pub open spec fn unsigned_part(s: Seq<char>) -> Seq<char> {
    if has_sign(s) { s.drop_first() } else { s }
}

/// Every char of `d` is an ASCII digit.
pub open spec fn all_digits(d: Seq<char>) -> bool {
    forall|i: int| 0 <= i < d.len() ==> is_digit(#[trigger] d[i])
}

/// The value `s` names when it is a sign and digits.
pub open spec fn signed_value(s: Seq<char>) -> int {
    if has_sign(s) && s[0] == '-' { -digits_value(unsigned_part(s)) } else { digits_value(unsigned_part(s)) }
}

/// What `str::parse::<i64>` reads `s` as: an optional `+` or `-` sign followed
/// by at least one ASCII digit, the value in range; otherwise nothing.
pub open spec fn i64_parse(s: Seq<char>) -> Option<i64> {
    if unsigned_part(s).len() > 0 && all_digits(unsigned_part(s)) && i64::MIN <= signed_value(s) <= i64::MAX {
        Some(signed_value(s) as i64)
    } else {
        None
    }
}

/// The typed value a setting's text stands for: `true` and `false` in any
/// ASCII case are booleans; then an `i64`; else neither.
pub open spec fn setting_of(s: Seq<char>) -> SettingValue {
    if eq_ignore_ascii_case(s, "true"@) {
        SettingValue::Bool(true)
    } else if eq_ignore_ascii_case(s, "false"@) {
        SettingValue::Bool(false)
    } else {
        match i64_parse(s) {
            Some(n) => SettingValue::Int(n),
            None => SettingValue::Other,
        }
    }
}

/// `c` folded to ASCII lower case.
fn lower_ascii(c: char) -> (r: char)
    ensures
        r == ascii_lower(c),
{
    if c >= 'A' && c <= 'Z' {
        char_from_ascii((c as u32) + 32)
    } else {
        c
    }
}

/// Whether `a` equals `b` ignoring ASCII case.
fn same_ignoring_ascii_case(a: &Vec<char>, b: &Vec<char>) -> (r: bool)
    ensures
        r == eq_ignore_ascii_case(a@, b@),
{
    if a.len() != b.len() {
        return false;
    }
    let mut i: usize = 0;
    while i < a.len()
        invariant
            i <= a.len() == b.len(),
            forall|k: int| 0 <= k < i ==> ascii_lower(#[trigger] a@[k]) == ascii_lower(b@[k]),
        decreases a.len() - i,
    {
        if lower_ascii(a[i]) != lower_ascii(b[i]) {
            return false;
        }
        i = i + 1;
    }
    true
}

/// `s` parsed as an `i64` the way `str::parse::<i64>` reads it.
pub fn parse_i64(s: &str) -> (r: Option<i64>)
    ensures
        r == i64_parse(s@),
{
    let v = chars_of(s);
    let n = v.len();
    let signed = n > 0 && (v[0] == '-' || v[0] == '+');
    let negative = signed && v[0] == '-';
    let start: usize = if signed { 1 } else { 0 };
    let ghost digits = v@.subrange(start as int, n as int);
    assert(digits =~= unsigned_part(s@));
    if start == n {
        return None;
    }
    let mut acc: u128 = 0;
    let mut over: bool = false;
    let mut i: usize = start;
    while i < n
        invariant
            start <= i <= n == v@.len(),
            start <= 1,
            v@ == s@,
            digits == v@.subrange(start as int, n as int),
            digits == unsigned_part(s@),
            signed == has_sign(s@),
            forall|k: int| start <= k < i ==> is_digit(#[trigger] v@[k]),
            over ==> digits_value(v@.subrange(start as int, i as int)) > 9_223_372_036_854_775_808,
            !over ==> acc == digits_value(v@.subrange(start as int, i as int)),
            !over ==> acc <= 9_223_372_036_854_775_808,
        decreases n - i,
    {
        let c = v[i];
        if !(c >= '0' && c <= '9') {
            proof {
                assert(digits[i - start] == c);
                assert(!is_digit(digits[i - start]));
            }
            return None;
        }
        let d: u128 = ((c as u32) - ('0' as u32)) as u128;
        proof {
            lemma_digits_push(v@.subrange(start as int, i as int), c);
            assert(v@.subrange(start as int, i + 1) =~= v@.subrange(start as int, i as int).push(c));
        }
        if !over {
            acc = acc * 10 + d;
            if acc > 9_223_372_036_854_775_808 {
                over = true;
            }
        }
        i = i + 1;
    }
    assert(v@.subrange(start as int, n as int) == digits);
    assert forall|k: int| 0 <= k < digits.len() implies is_digit(#[trigger] digits[k]) by {
        assert(digits[k] == v@[start + k]);
    }
    assert(all_digits(digits));
    if over {
        return None;
    }
    if negative {
        if acc == 9_223_372_036_854_775_808 {
            Some(i64::MIN)
        } else {
            let m: i64 = acc as i64;
            Some(-m)
        }
    } else if acc <= 9_223_372_036_854_775_807 {
        Some(acc as i64)
    } else {
        None
    }
}

/// The typed value a setting's text stands for (see [`setting_of`]).
pub fn setting_value(input: &str) -> (r: SettingValue)
    ensures
        r == setting_of(input@),
{
    let v = chars_of(input);
    let t = chars_of("true");
    let f = chars_of("false");
    proof {
        reveal_strlit("true");
        reveal_strlit("false");
    }
    if same_ignoring_ascii_case(&v, &t) {
        SettingValue::Bool(true)
    } else if same_ignoring_ascii_case(&v, &f) {
        SettingValue::Bool(false)
    } else {
        match parse_i64(input) {
            Some(n) => SettingValue::Int(n),
            None => SettingValue::Other,
        }
    }
}


// ---------------------------------------------------------------------------
// Profile fragments as TOML text.

/// The header a fragment that does not exist yet starts from.
pub const FRAGMENT_HEADER: &'static str =
    "# tassle profile fragment\n# Managed by `tassle auth login`; safe to extend with profile-specific settings.\n\n";

/// What toml_edit reports of an item of a TOML document: whether it is a
/// (standard) table, its string and its boolean when it is one, the text of
/// its value when it is a value, and its own text.
#[derive(Debug, Clone, PartialEq, Eq)]
pub struct TomlItem {
    pub is_table: bool,
    pub str_value: Option<String>,
    pub bool_value: Option<bool>,
    pub value_text: Option<String>,
    pub item_text: String,
}

/// How an item reads back: its value's text, else its own text trimmed.
pub open spec fn rendered_of(it: TomlItem) -> Seq<char> {
    match it.value_text {
        Some(t) => t@,
        None => trimmed(it.item_text@),
    }
}

/// How an item reads back (see [`rendered_of`]).
pub fn rendered(it: &TomlItem) -> (r: String)
    ensures
        r@ == rendered_of(*it),
{
    match &it.value_text {
        Some(t) => t.clone(),
        None => String::from_str(trim(it.item_text.as_str())),
    }
}

/// A value a setting is written as. `Float` holds the TOML text of a float.
#[derive(Debug, Clone, PartialEq, Eq)]
pub enum TomlScalar {
    Bool(bool),
    Int(i64),
    Str(String),
    Float(String),
}

/// What a [`TomlScalar`] writes, as plain values.
pub enum ScalarView {
    Bool(bool),
    Int(i64),
    Str(Seq<char>),
    Float(Seq<char>),
}

impl View for TomlScalar {
    type V = ScalarView;

    open spec fn view(&self) -> ScalarView {
        match self {
            TomlScalar::Bool(b) => ScalarView::Bool(*b),
            TomlScalar::Int(n) => ScalarView::Int(*n),
            TomlScalar::Str(s) => ScalarView::Str(s@),
            TomlScalar::Float(t) => ScalarView::Float(t@),
        }
    }
}

/// The views of a dotted path.
pub open spec fn path_view(parts: Seq<String>) -> Seq<Seq<char>> {
    parts.map_values(|s: String| s@)
}

/// What toml_edit reports when it parses `text` as a document: `None` when
/// it parses, else its error's text.
pub uninterp spec fn toml_parse_error(text: Seq<char>) -> Option<Seq<char>>;

/// What toml_edit reports of the item it finds at `path` of the document
/// `text` parses to, following each key with `get`; `None` when the text
/// does not parse or there is no item there.
pub uninterp spec fn toml_item_at(text: Seq<char>, path: Seq<Seq<char>>) -> Option<TomlItem>;

/// The document `text` with the value `v` set at `path`, and how `v` reads:
/// each parent table along the path is entered, or added empty when absent,
/// and the last key is set. `None` when the text does not parse, the path is
/// empty, a parent is not a table, or a `Float` text is not a TOML value.
pub uninterp spec fn toml_with_value(text: Seq<char>, path: Seq<Seq<char>>, v: ScalarView) -> Option<(Seq<char>, Seq<char>)>;

/// The document `text` with the item at `path` replaced by an empty table;
/// `None` when the text does not parse, the path is empty, or there is no
/// item there below tables.
pub uninterp spec fn toml_with_table(text: Seq<char>, path: Seq<Seq<char>>) -> Option<Seq<char>>;

/// The document `text` with the item at `path` removed; `None` when the text
/// does not parse, the path is empty, or there is no item there below tables.
pub uninterp spec fn toml_without(text: Seq<char>, path: Seq<Seq<char>>) -> Option<Seq<char>>;

/// toml_edit's parse of `text` into a `DocumentMut`, reduced to its error
/// text, as [`toml_parse_error`] names it.
#[verifier::external_body]
fn toml_error(text: &str) -> (r: Option<String>)
    ensures
        opt_view(r) == toml_parse_error(text@),
{
    match text.parse::<toml_edit::DocumentMut>() {
        Ok(_) => None,
        Err(e) => Some(e.to_string()),
    }
}

/// toml_edit's `Item::get` along `parts` from the root of the parsed
/// document, and what `is_table`, `as_str`, `as_bool`, `as_value` (shown)
/// and `to_string` report of the item found, as [`toml_item_at`] names it.
#[verifier::external_body]
fn item_at(text: &str, parts: &[String]) -> (r: Option<TomlItem>)
    ensures
        r == toml_item_at(text@, path_view(parts@)),
{
    let doc = text.parse::<toml_edit::DocumentMut>().ok()?;
    let mut item = doc.as_item();
    for p in parts {
        item = item.get(p.as_str())?;
    }
    Some(TomlItem {
        is_table: item.is_table(),
        str_value: item.as_str().map(String::from),
        bool_value: item.as_bool(),
        value_text: item.as_value().map(|v| v.to_string()),
        item_text: item.to_string(),
    })
}

/// toml_edit's `Table::entry(..).or_insert(table())` along the parents of
/// `parts` and an assignment at the last key, then the document's text, as
/// [`toml_with_value`] names it.
#[verifier::external_body]
fn set_in_toml(text: &str, parts: &[String], v: &TomlScalar) -> (r: Option<(String, String)>)
    ensures
        (match r {
            Some((t, shown)) => Some((t@, shown@)),
            None => None,
        }) == toml_with_value(text@, path_view(parts@), v@),
{
    let mut doc = text.parse::<toml_edit::DocumentMut>().ok()?;
    let (last, parents) = parts.split_last()?;
    let item = match v {
        TomlScalar::Bool(b) => toml_edit::value(*b),
        TomlScalar::Int(n) => toml_edit::value(*n),
        TomlScalar::Str(s) => toml_edit::value(s.as_str()),
        TomlScalar::Float(t) => toml_edit::Item::Value(t.parse::<toml_edit::Value>().ok()?),
    };
    let shown = item.to_string();
    let mut table = doc.as_table_mut();
    for p in parents {
        table = table.entry(p).or_insert(toml_edit::table()).as_table_mut()?;
    }
    table[last.as_str()] = item;
    Some((doc.to_string(), shown))
}

/// toml_edit's `Table::get_mut` along the parents of `parts` and an empty
/// `table()` put in place of the last key's item, as [`toml_with_table`]
/// names it.
#[verifier::external_body]
fn table_in_toml(text: &str, parts: &[String]) -> (r: Option<String>)
    ensures
        opt_view(r) == toml_with_table(text@, path_view(parts@)),
{
    let mut doc = text.parse::<toml_edit::DocumentMut>().ok()?;
    let (last, parents) = parts.split_last()?;
    let mut table = doc.as_table_mut();
    for p in parents {
        table = table.get_mut(p)?.as_table_mut()?;
    }
    *table.get_mut(last)? = toml_edit::table();
    Some(doc.to_string())
}

/// toml_edit's `Table::get_mut` along the parents of `parts` and
/// `Table::remove` of the last key, as [`toml_without`] names it.
#[verifier::external_body]
fn remove_in_toml(text: &str, parts: &[String]) -> (r: Option<String>)
    ensures
        opt_view(r) == toml_without(text@, path_view(parts@)),
{
    let mut doc = text.parse::<toml_edit::DocumentMut>().ok()?;
    let (last, parents) = parts.split_last()?;
    let mut table = doc.as_table_mut();
    for p in parents {
        table = table.get_mut(p)?.as_table_mut()?;
    }
    table.remove(last)?;
    Some(doc.to_string())
}

/// Whether an item is present at `path` and is not a table.
pub open spec fn non_table_at(text: Seq<char>, path: Seq<Seq<char>>) -> bool {
    toml_item_at(text, path) matches Some(it) && !it.is_table
}

/// The text a dotted write at `path` first makes: walking the parents of the
/// key from the `k`-th on, every item that is there and is not a table is
/// replaced by an empty table.
pub open spec fn tabled_from(text: Seq<char>, path: Seq<Seq<char>>, k: nat) -> Option<Seq<char>>
    decreases path.len() - k,
{
    if k + 1 >= path.len() {
        Some(text)
    } else {
        let next = if non_table_at(text, path.take((k + 1) as int)) {
            toml_with_table(text, path.take((k + 1) as int))
        } else {
            Some(text)
        };
        match next {
            Some(t) => tabled_from(t, path, k + 1),
            None => None,
        }
    }
}

/// The text and shown value of writing `v` at `path`: parents that are not
/// tables become tables, then the value is set.
pub open spec fn with_setting(text: Seq<char>, path: Seq<Seq<char>>, v: ScalarView) -> Option<(Seq<char>, Seq<char>)> {
    match tabled_from(text, path, 0) {
        Some(t) => toml_with_value(t, path, v),
        None => None,
    }
}

/// Write `v` at the dotted path `parts` of a TOML text: every parent that is
/// there and is not a table is first replaced by an empty table, then the
/// parents are entered (or added) and the value set. The new text and how the
/// value reads; `None` where toml_edit gives up.
pub fn set_setting(text: &str, parts: &Vec<String>, v: &TomlScalar) -> (r: Option<(String, String)>)
    ensures
        (match r {
            Some((t, shown)) => Some((t@, shown@)),
            None => None,
        }) == with_setting(text@, path_view(parts@), v@),
{
    let ghost path = path_view(parts@);
    let mut t = String::from_str(text);
    let mut prefix: Vec<String> = Vec::new();
    let mut k: usize = 0;
    while k + 1 < parts.len()
        invariant
            k + 1 <= parts.len() || parts.len() == 0,
            k <= parts.len(),
            path == path_view(parts@),
            path_view(prefix@) == path.take(k as int),
            tabled_from(text@, path, 0) == tabled_from(t@, path, k as nat),
        decreases parts.len() - k,
    {
        let c = parts[k].clone();
        let ghost before = prefix@;
        prefix.push(c);
        proof {
            assert(prefix@ == before.push(c));
            assert(path_view(before).len() == before.len());
            assert(before.len() == k);
            assert forall|i: int| 0 <= i < k + 1 implies #[trigger] path_view(prefix@)[i] == path.take((k + 1) as int)[i] by {
                if i < k {
                    assert(prefix@[i] == before[i]);
                    assert(path_view(before)[i] == path.take(k as int)[i]);
                } else {
                    assert(prefix@[i] == c);
                    assert(path[i] == parts@[i]@);
                }
            }
            assert(path_view(prefix@) =~= path.take((k + 1) as int));
        }
        match item_at(t.as_str(), prefix.as_slice()) {
            Some(it) => {
                if !it.is_table {
                    match table_in_toml(t.as_str(), prefix.as_slice()) {
                        Some(n) => {
                            t = n;
                        },
                        None => {
                            return None;
                        },
                    }
                }
            },
            None => {},
        }
        k = k + 1;
    }
    proof {
        assert(tabled_from(t@, path, k as nat) == Some(t@));
    }
    set_in_toml(t.as_str(), parts.as_slice(), v)
}

/// The string at the top-level `key` of a TOML text.
pub open spec fn str_item(text: Seq<char>, key: Seq<char>) -> Option<Seq<char>> {
    match toml_item_at(text, seq![key]) {
        Some(it) => opt_view(it.str_value),
        None => None,
    }
}

/// The boolean at the top-level `key` of a TOML text.
pub open spec fn bool_item(text: Seq<char>, key: Seq<char>) -> Option<bool> {
    match toml_item_at(text, seq![key]) {
        Some(it) => it.bool_value,
        None => None,
    }
}

/// The item at the top-level `key` of a TOML text.
fn top_item(text: &str, key: &str) -> (r: Option<TomlItem>)
    ensures
        r == toml_item_at(text@, seq![key@]),
{
    let parts = vec![String::from_str(key)];
    assert(path_view(parts@) =~= seq![key@]);
    item_at(text, parts.as_slice())
}

fn str_member(text: &str, key: &str) -> (r: Option<String>)
    ensures
        opt_view(r) == str_item(text@, key@),
{
    match top_item(text, key) {
        Some(it) => it.str_value,
        None => None,
    }
}

fn bool_member(text: &str, key: &str) -> (r: Option<bool>)
    ensures
        r == bool_item(text@, key@),
{
    match top_item(text, key) {
        Some(it) => it.bool_value,
        None => None,
    }
}


/// `p` is the profile the fragment `text` at `path` describes: its DID and
/// PDS, its id (the DID when it names none), its handle, whether it is active
/// (not unless it says so), and when it was updated.
pub open spec fn fragment_profile(p: Profile, path: Seq<char>, text: Seq<char>) -> bool {
    let did = str_item(text, "did"@)->0;
    &&& p.did@ == did
    &&& p.pds@ == str_item(text, "pds"@)->0
    &&& p.id@ == (match str_item(text, "id"@) {
        Some(i) => i,
        None => did,
    })
    &&& opt_view(p.handle) == str_item(text, "handle"@)
    &&& p.active == (match bool_item(text, "active"@) {
        Some(b) => b,
        None => false,
    })
    &&& p.path@ == path
    &&& opt_view(p.updated_at) == str_item(text, "updated_at"@)
}

/// The profile a fragment describes: a fragment that does not parse is an
/// error; one without a `did` or a `pds` string describes no profile.
pub fn profile_of_fragment(path: &str, text: &str) -> (r: Result<Option<Profile>, String>)
    ensures
        match toml_parse_error(text@) {
            Some(e) => r matches Err(m) && m@ == e,
            None => r matches Ok(o) && (o is Some <==> (str_item(text@, "did"@) is Some
                && str_item(text@, "pds"@) is Some)) && (o matches Some(p) ==> fragment_profile(p, path@, text@)),
        },
{
    if let Some(e) = toml_error(text) {
        return Err(e);
    }
    let did = match str_member(text, "did") {
        Some(d) => d,
        None => {
            return Ok(None);
        },
    };
    let pds = match str_member(text, "pds") {
        Some(p) => p,
        None => {
            return Ok(None);
        },
    };
    let id = match str_member(text, "id") {
        Some(i) => i,
        None => did.clone(),
    };
    let active = match bool_member(text, "active") {
        Some(b) => b,
        None => false,
    };
    Ok(Some(Profile {
        id,
        did,
        handle: str_member(text, "handle"),
        pds,
        active,
        path: String::from_str(path),
        updated_at: str_member(text, "updated_at"),
    }))
}

/// The value a setting's text is written as: a boolean or an integer when it
/// reads as one; otherwise the float whose TOML text is `float_text`, when
/// the text reads as a float; otherwise the text itself, as a string.
pub fn scalar_of(input: &str, float_text: Option<String>) -> (v: TomlScalar)
    ensures
        v@ == (match setting_of(input@) {
            SettingValue::Bool(b) => ScalarView::Bool(b),
            SettingValue::Int(n) => ScalarView::Int(n),
            SettingValue::Other => match float_text {
                Some(f) => ScalarView::Float(f@),
                None => ScalarView::Str(input@),
            },
        }),
{
    match setting_value(input) {
        SettingValue::Bool(b) => TomlScalar::Bool(b),
        SettingValue::Int(n) => TomlScalar::Int(n),
        SettingValue::Other => match float_text {
            Some(f) => TomlScalar::Float(f),
            None => TomlScalar::Str(String::from_str(input)),
        },
    }
}

/// The setting at the dotted `key` of the fragment `text` at `path`, as it
/// reads: the fragment must parse and the key be a dotted path.
pub fn fragment_setting(path: &str, text: &str, key: &str) -> (r: Result<Option<String>, String>)
    ensures
        toml_parse_error(text@) matches Some(e) ==> (r matches Err(m) && m@ == e),
        toml_parse_error(text@) is None ==> match dotted_parts(key@) {
            None => r matches Err(m) && m@ == "config key must be a non-empty dotted TOML path"@,
            Some(parts) => r matches Ok(o) && opt_view(o) == (match toml_item_at(text@, parts) {
                Some(it) => Some(rendered_of(it)),
                None => None,
            }),
        },
{
    if let Some(e) = toml_error(text) {
        return Err(e);
    }
    let parts = dotted_path(key)?;
    match item_at(text, parts.as_slice()) {
        Some(it) => Ok(Some(rendered(&it))),
        None => Ok(None),
    }
}

/// Set `v` at the top-level `key`, after a step that may already have failed.
pub open spec fn then_set(t: Option<Seq<char>>, key: Seq<char>, v: ScalarView) -> Option<Seq<char>> {
    match t {
        Some(x) => match with_setting(x, seq![key], v) {
            Some((y, _)) => Some(y),
            None => None,
        },
        None => None,
    }
}

fn set_top(text: String, key: &str, v: TomlScalar) -> (r: Option<String>)
    ensures
        opt_view(r) == then_set(Some(text@), key@, v@),
{
    let parts = vec![String::from_str(key)];
    assert(path_view(parts@) =~= seq![key@]);
    match set_setting(text.as_str(), &parts, &v) {
        Some((t, _)) => Some(t),
        None => None,
    }
}

/// The message of a write toml_edit gave up on.
pub open spec fn write_message(path: Seq<char>, key: Seq<char>) -> Seq<char> {
    "cannot write "@ + key + " in "@ + path
}

fn write_failure(path: &str, key: &str) -> (m: String)
    ensures
        m@ == write_message(path@, key@),
{
    let mut m = String::from_str("cannot write ");
    m.append(key);
    m.append(" in ");
    m.append(path);
    m
}

/// Write `v` at the dotted `key` of the TOML file `text` at `path`: the new
/// text and how the value reads.
pub fn document_with_setting(path: &str, text: &str, key: &str, v: &TomlScalar) -> (r: Result<(String, String), String>)
    ensures
        toml_parse_error(text@) matches Some(e) ==> (r matches Err(m) && m@ == e),
        toml_parse_error(text@) is None ==> match dotted_parts(key@) {
            None => r matches Err(m) && m@ == "config key must be a non-empty dotted TOML path"@,
            Some(parts) => match with_setting(text@, parts, v@) {
                Some((t, shown)) => r matches Ok((a, b)) && a@ == t && b@ == shown,
                None => r matches Err(m) && m@ == write_message(path@, key@),
            },
        },
{
    if let Some(e) = toml_error(text) {
        return Err(e);
    }
    let parts = dotted_path(key)?;
    match set_setting(text, &parts, v) {
        Some(x) => Ok(x),
        None => Err(write_failure(path, key)),
    }
}

/// Write `v` at the dotted `key` of the fragment `text` at `path` and stamp
/// the fragment's `updated_at` with `now`: the new text and how the value
/// reads.
pub fn fragment_with_setting(path: &str, text: &str, key: &str, v: &TomlScalar, now: &str) -> (r: Result<(String, String), String>)
    ensures
        toml_parse_error(text@) matches Some(e) ==> (r matches Err(m) && m@ == e),
        toml_parse_error(text@) is None ==> match dotted_parts(key@) {
            None => r matches Err(m) && m@ == "config key must be a non-empty dotted TOML path"@,
            Some(parts) => match with_setting(text@, parts, v@) {
                Some((t, shown)) => match then_set(Some(t), "updated_at"@, ScalarView::Str(now@)) {
                    Some(t2) => r matches Ok((a, b)) && a@ == t2 && b@ == shown,
                    None => r matches Err(m) && m@ == write_message(path@, key@),
                },
                None => r matches Err(m) && m@ == write_message(path@, key@),
            },
        },
{
    let (t, shown) = document_with_setting(path, text, key, v)?;
    match set_top(t, "updated_at", TomlScalar::Str(String::from_str(now))) {
        Some(t2) => Ok((t2, shown)),
        None => Err(write_failure(path, key)),
    }
}

/// Remove the dotted `key` from the fragment `text` at `path`: the new text
/// when there was an item to remove, else `None`.
pub fn fragment_without_setting(path: &str, text: &str, key: &str) -> (r: Result<Option<String>, String>)
    ensures
        toml_parse_error(text@) matches Some(e) ==> (r matches Err(m) && m@ == e),
        toml_parse_error(text@) is None ==> match dotted_parts(key@) {
            None => r matches Err(m) && m@ == "config key must be a non-empty dotted TOML path"@,
            Some(parts) => r matches Ok(o) && opt_view(o) == toml_without(text@, parts),
        },
{
    if let Some(e) = toml_error(text) {
        return Err(e);
    }
    let parts = dotted_path(key)?;
    Ok(remove_in_toml(text, parts.as_slice()))
}

/// The text a login leaves in a fragment: its `id` and `did` set to the DID,
/// its `handle` (when one is known), its `pds`, `active = true`, a
/// `created_at` of `now` when it has none, and an `updated_at` of `now`.
pub open spec fn saved_text(text: Seq<char>, did: Seq<char>, handle: Option<Seq<char>>, pds: Seq<char>, now: Seq<char>) -> Option<Seq<char>> {
    let t1 = then_set(then_set(Some(text), "id"@, ScalarView::Str(did)), "did"@, ScalarView::Str(did));
    let t2 = match handle {
        Some(h) => then_set(t1, "handle"@, ScalarView::Str(h)),
        None => t1,
    };
    let t3 = then_set(then_set(t2, "pds"@, ScalarView::Str(pds)), "active"@, ScalarView::Bool(true));
    let t4 = match t3 {
        Some(x) => if toml_item_at(x, seq!["created_at"@]) is None {
            then_set(t3, "created_at"@, ScalarView::Str(now))
        } else {
            t3
        },
        None => None,
    };
    then_set(t4, "updated_at"@, ScalarView::Str(now))
}

fn set_top_opt(t: Option<String>, key: &str, v: TomlScalar) -> (r: Option<String>)
    ensures
        opt_view(r) == then_set(opt_view(t), key@, v@),
{
    match t {
        Some(x) => set_top(x, key, v),
        None => None,
    }
}

/// The fragment `text` at `path` after a login of `did` with `handle` at
/// `pds`, at time `now`.
pub fn saved_fragment(path: &str, text: &str, did: &str, handle: Option<&str>, pds: &str, now: &str) -> (r: Result<String, String>)
    ensures
        toml_parse_error(text@) matches Some(e) ==> (r matches Err(m) && m@ == e),
        toml_parse_error(text@) is None ==> match saved_text(text@, did@, match handle {
            Some(h) => Some(h@),
            None => None,
        }, pds@, now@) {
            Some(t) => r matches Ok(s) && s@ == t,
            None => r matches Err(m) && m@ == write_message(path@, "the login"@),
        },
{
    if let Some(e) = toml_error(text) {
        return Err(e);
    }
    let t = set_top(String::from_str(text), "id", TomlScalar::Str(String::from_str(did)));
    let t = set_top_opt(t, "did", TomlScalar::Str(String::from_str(did)));
    let t = match handle {
        Some(h) => set_top_opt(t, "handle", TomlScalar::Str(String::from_str(h))),
        None => t,
    };
    let t = set_top_opt(t, "pds", TomlScalar::Str(String::from_str(pds)));
    let t = set_top_opt(t, "active", TomlScalar::Bool(true));
    let t = match t {
        Some(x) => {
            if top_item(x.as_str(), "created_at").is_none() {
                set_top(x, "created_at", TomlScalar::Str(String::from_str(now)))
            } else {
                Some(x)
            }
        },
        None => None,
    };
    match set_top_opt(t, "updated_at", TomlScalar::Str(String::from_str(now))) {
        Some(s) => Ok(s),
        None => Err(write_failure(path, "the login")),
    }
}

} // verus!
