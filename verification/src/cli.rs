//! The command-line surface's own rules: output formats, `key=value`
//! assignments, how optional stats and quint balances are shown, session
//! states, and the plans the `config set` and `mage list` commands follow.

use vstd::prelude::*;
use vstd::string::StrSliceExecFns;
use base64::Engine;
use crate::json::{get_str, JsonValue};
use crate::samples::{is_int_entry, is_str_entry};
use crate::quint::{out_of_range, Quint};
use crate::repo_mage::{datetime_roundable, stamp_roundable, stamp_with, WriteOpts};
use crate::text::{chars_of, index_of, is_ws, signed_decimal, i64_text, str_eq, find_char};

verus! {

/// Output format, selected by the global `--format` flag.
#[derive(Debug, Clone, Copy, PartialEq, Eq, Structural)]
pub enum OutputFormat {
    /// Human-readable.
    Table,
    /// Machine-readable JSON.
    Json,
    /// DAG-CBOR bytes.
    Cbor,
}

impl OutputFormat {
    /// True when the caller should emit JSON.
    pub fn is_json(self) -> (b: bool)
        ensures
            b == (self == OutputFormat::Json),
    {
        match self {
            OutputFormat::Json => true,
            _ => false,
        }
    }
}

// ---------------------------------------------------------------------------
// Assignments.

/// The first index at or after `i` that is not whitespace.
pub open spec fn ws_start(s: Seq<char>, i: nat) -> nat
    decreases s.len() - i,
{
    if i < s.len() && is_ws(s[i as int]) {
        ws_start(s, i + 1)
    } else {
        i
    }
}

/// The end of `s` once trailing whitespace after `lo` is dropped.
pub open spec fn ws_end(s: Seq<char>, lo: nat, j: nat) -> nat
    decreases j,
{
    if j > lo && j <= s.len() && is_ws(s[j - 1]) {
        ws_end(s, lo, (j - 1) as nat)
    } else {
        j
    }
}

/// `s` without leading and trailing whitespace, as `str::trim` leaves it.
pub open spec fn trimmed(s: Seq<char>) -> Seq<char> {
    let lo = ws_start(s, 0);
    let hi = ws_end(s, lo, s.len());
    s.subrange(lo as int, hi as int)
}

proof fn lemma_ws_start(s: Seq<char>, i: nat)
    requires
        i <= s.len(),
    ensures
        i <= ws_start(s, i) <= s.len(),
    decreases s.len() - i,
{
    if i < s.len() && is_ws(s[i as int]) {
        lemma_ws_start(s, i + 1);
    }
}

proof fn lemma_ws_end(s: Seq<char>, lo: nat, j: nat)
    requires
        lo <= j <= s.len(),
    ensures
        lo <= ws_end(s, lo, j) <= j,
    decreases j,
{
    if j > lo && is_ws(s[j - 1]) {
        lemma_ws_end(s, lo, (j - 1) as nat);
    }
}

/// Whether a char is whitespace.
fn ws_char(c: char) -> (b: bool)
    ensures
        b == is_ws(c),
{
    c == '\t' || c == '\n' || c == '\u{b}' || c == '\u{c}' || c == '\r' || c == ' ' || c == '\u{85}' || c == '\u{a0}'
        || c == '\u{1680}' || ('\u{2000}' <= c && c <= '\u{200a}') || c == '\u{2028}' || c == '\u{2029}'
        || c == '\u{202f}' || c == '\u{205f}' || c == '\u{3000}'
}

/// The part of `s` in `[from, to)` with surrounding whitespace dropped.
fn trim_range<'a>(s: &'a str, v: &Vec<char>, from: usize, to: usize) -> (r: &'a str)
    requires
        v@ == s@,
        from <= to <= v.len(),
    ensures
        r@ == trimmed(s@.subrange(from as int, to as int)),
{
    let ghost part = s@.subrange(from as int, to as int);
    let mut lo = from;
    assert(ws_start(part, 0) == ws_start(part, (lo - from) as nat));
    while lo < to && ws_char(v[lo])
        invariant
            from <= lo <= to <= v.len(),
            v@ == s@,
            part == s@.subrange(from as int, to as int),
            ws_start(part, 0) == ws_start(part, (lo - from) as nat),
        decreases to - lo,
    {
        assert(part[(lo - from) as int] == v@[lo as int]);
        lo = lo + 1;
    }
    proof {
        if lo < to {
            assert(part[(lo - from) as int] == v@[lo as int]);
        }
        lemma_ws_start(part, 0);
    }
    let ghost plo = (lo - from) as nat;
    assert(ws_start(part, 0) == plo);
    let mut hi = to;
    assert(ws_end(part, plo, part.len()) == ws_end(part, plo, (hi - from) as nat));
    while hi > lo && ws_char(v[hi - 1])
        invariant
            from <= lo <= hi <= to <= v.len(),
            v@ == s@,
            part == s@.subrange(from as int, to as int),
            plo == lo - from,
            ws_end(part, plo, part.len()) == ws_end(part, plo, (hi - from) as nat),
        decreases hi,
    {
        assert(part[(hi - from - 1) as int] == v@[hi - 1]);
        hi = hi - 1;
    }
    proof {
        if hi > lo {
            assert(part[(hi - from - 1) as int] == v@[hi - 1]);
        }
        assert(part.subrange(plo as int, (hi - from) as int) =~= s@.subrange(lo as int, hi as int));
    }
    s.substring_char(lo, hi)
}

/// `s` without leading and trailing whitespace.
pub fn trim(s: &str) -> (r: &str)
    ensures
        r@ == trimmed(s@),
{
    let v = chars_of(s);
    assert(s@.subrange(0, v.len() as int) =~= s@);
    trim_range(s, &v, 0, v.len())
}

/// The key and optional value of `key=value` (split at the first `=`),
/// each trimmed of surrounding whitespace.
pub open spec fn assignment_parts(s: Seq<char>) -> (Seq<char>, Option<Seq<char>>) {
    match index_of(s, '=') {
        Some(i) => (trimmed(s.take(i)), Some(trimmed(s.skip(i + 1)))),
        None => (trimmed(s), None),
    }
}

/// Split `key=value` at the first `=`, trimming both sides; a bare `key`
/// has no value.
pub fn split_assignment(input: &str) -> (r: (&str, Option<&str>))
    ensures
        r.0@ == assignment_parts(input@).0,
        r.1 is Some <==> assignment_parts(input@).1 is Some,
        r.1 matches Some(v) ==> v@ == assignment_parts(input@).1->0,
{
    let v = chars_of(input);
    match find_char(&v, '=', 0) {
        Some(i) => {
            assert(input@.take(i as int) =~= input@.subrange(0, i as int));
            assert(input@.skip(i + 1) =~= input@.subrange(i + 1, v.len() as int));
            (trim_range(input, &v, 0, i), Some(trim_range(input, &v, i + 1, v.len())))
        },
        None => {
            assert(input@ =~= input@.subrange(0, v.len() as int));
            (trim_range(input, &v, 0, v.len()), None)
        },
    }
}

// ---------------------------------------------------------------------------
// Showing values.

/// An optional stat as shown: its number, else `absent`.
pub fn display_opt(value: Option<i64>) -> (r: String)
    ensures
        value matches Some(v) ==> r@ == signed_decimal(v as int),
        value is None ==> r@ == "absent"@,
{
    match value {
        Some(v) => i64_text(v),
        None => String::from_str("absent"),
    }
}

/// The stamp options of a quint write: unstamped wins over a caller time;
/// with neither, stamp "now".
pub fn stamp_opts(at: Option<String>, unstamped: bool) -> (o: WriteOpts)
    ensures
        forall|now: Seq<char>| #[trigger] stamp_with(o, now) == (if unstamped {
            None
        } else {
            match at {
                Some(ts) => Some(ts@),
                None => Some(now),
            }
        }),
        stamp_roundable(o) == (unstamped || (at matches Some(ts) ==> datetime_roundable(ts@))),
{
    let opts = WriteOpts::default();
    if unstamped {
        opts.unstamped()
    } else {
        match at {
            Some(ts) => opts.at(ts.as_str()),
            None => opts,
        }
    }
}

/// The warning shown beside a balance outside the expected range.
pub const RANGE_WARNING: &'static str = "  \u{26a0} out of expected [0, 20] range";

/// The note shown beside a balance: a warning when it lies outside
/// `[0, MAX_MILLIS]`, else nothing.
pub fn range_note(q: Quint) -> (r: String)
    ensures
        out_of_range(q@) ==> r@ == RANGE_WARNING@,
        !out_of_range(q@) ==> r@ == Seq::<char>::empty(),
{
    if q.is_out_of_range() {
        String::from_str(RANGE_WARNING)
    } else {
        String::new()
    }
}

// ---------------------------------------------------------------------------
// Sessions.

/// A session summary as shown: its state, and its expiry when it is live.
pub open spec fn session_line(s: JsonValue) -> Seq<char> {
    match get_str(s, "state"@) {
        Some(st) => if st == "ok"@ {
            match get_str(s, "exp"@) {
                Some(exp) => "session exp "@ + exp,
                None => "session present"@,
            }
        } else if st == "expired"@ {
            "session EXPIRED"@
        } else if st == "absent"@ {
            "no session"@
        } else {
            "session: n/a"@
        },
        None => "session: n/a"@,
    }
}

/// Show a session summary `{ state, exp }`.
pub fn format_session(s: &JsonValue) -> (r: String)
    ensures
        r@ == session_line(*s),
{
    match s.get_str("state") {
        Some(st) => {
            if str_eq(st.as_str(), "ok") {
                match s.get_str("exp") {
                    Some(exp) => crate::repo::prefixed("session exp ", exp.as_str()),
                    None => String::from_str("session present"),
                }
            } else if str_eq(st.as_str(), "expired") {
                String::from_str("session EXPIRED")
            } else if str_eq(st.as_str(), "absent") {
                String::from_str("no session")
            } else {
                String::from_str("session: n/a")
            }
        },
        None => String::from_str("session: n/a"),
    }
}

/// `s` padded on the right with spaces to at least `width` chars.
pub open spec fn padded(s: Seq<char>, width: nat) -> Seq<char> {
    if s.len() >= width {
        s
    } else {
        s + Seq::new((width - s.len()) as nat, |_i: int| ' ')
    }
}

/// `s` padded on the right with spaces to at least `width` chars.
pub fn pad_right(s: &str, width: usize) -> (r: String)
    ensures
        r@ == padded(s@, width as nat),
{
    let mut r = String::from_str(s);
    let n = s.unicode_len();
    let mut k: usize = n;
    while k < width
        invariant
            n == s@.len(),
            n <= k <= (if width > n { width } else { n }),
            r@ == s@ + Seq::new((k - n) as nat, |_i: int| ' '),
        decreases width - k,
    {
        let ghost before = r@;
        r.append(" ");
        proof {
            reveal_strlit(" ");
            assert(s@ + Seq::new((k + 1 - n) as nat, |_i: int| ' ') =~= before + " "@);
        }
        k = k + 1;
    }
    proof {
        if n >= width {
            assert(s@ + Seq::new(0, |_i: int| ' ') =~= s@);
        }
    }
    r
}

/// The line `auth status` shows for a profile: the active mark, then the
/// profile, DID, handle and session padded into columns, then the store path.
pub open spec fn status_line_of(
    active: bool,
    profile: Seq<char>,
    did: Option<Seq<char>>,
    handle: Option<Seq<char>>,
    session: Seq<char>,
    store_path: Option<Seq<char>>,
) -> Seq<char> {
    (if active { "*"@ } else { " "@ }) + " "@ + padded(profile, 14) + " "@
        + padded(match did { Some(d) => d, None => "(no did)"@ }, 32) + " "@
        + padded(match handle { Some(h) => h, None => "-"@ }, 22) + " "@
        + padded(session, 24) + " "@
        + match store_path { Some(p) => p, None => "?"@ }
}

/// The line `auth status` shows for a profile.
pub fn status_line(
    active: bool,
    profile: &str,
    did: Option<&str>,
    handle: Option<&str>,
    session: &str,
    store_path: Option<&str>,
) -> (r: String)
    ensures
        r@ == status_line_of(active, profile@, match did {
            Some(d) => Some(d@),
            None => None,
        }, match handle {
            Some(h) => Some(h@),
            None => None,
        }, session@, match store_path {
            Some(p) => Some(p@),
            None => None,
        }),
{
    let mut r = String::from_str(if active { "*" } else { " " });
    r.append(" ");
    let p = pad_right(profile, 14);
    r.append(p.as_str());
    r.append(" ");
    let d = pad_right(match did {
        Some(d) => d,
        None => "(no did)",
    }, 32);
    r.append(d.as_str());
    r.append(" ");
    let h = pad_right(match handle {
        Some(h) => h,
        None => "-",
    }, 22);
    r.append(h.as_str());
    r.append(" ");
    let se = pad_right(session, 24);
    r.append(se.as_str());
    r.append(" ");
    r.append(match store_path {
        Some(p) => p,
        None => "?",
    });
    proof {
        reveal_strlit("*");
        reveal_strlit(" ");
        reveal_strlit("(no did)");
        reveal_strlit("-");
        reveal_strlit("?");
    }
    r
}

/// The state of a session whose access token expires at `exp` (Unix
/// seconds), seen at `now`: expired strictly before now, else ok.
pub fn session_state(exp: i64, now: i64) -> (r: &'static str)
    ensures
        exp < now ==> r@ == "expired"@,
        exp >= now ==> r@ == "ok"@,
{
    if exp < now {
        "expired"
    } else {
        "ok"
    }
}

/// What base64's URL-safe, unpadded engine decodes a text to, or `None` when
/// the text is not valid in that alphabet.
pub uninterp spec fn base64_url_decoded(s: Seq<char>) -> Option<Seq<u8>>;

/// `base64::engine::general_purpose::URL_SAFE_NO_PAD.decode`, as
/// [`base64_url_decoded`] names it; `None` where it reports an error.
#[verifier::external_body]
fn decode_url_safe(s: &str) -> (r: Option<Vec<u8>>)
    ensures
        r is Some <==> base64_url_decoded(s@) is Some,
        r matches Some(b) ==> b@ == base64_url_decoded(s@)->0,
{
    base64::engine::general_purpose::URL_SAFE_NO_PAD.decode(s).ok()
}

/// The second `.`-separated segment of a token: what follows its first `.`,
/// up to the next one.
pub open spec fn second_segment(t: Seq<char>) -> Option<Seq<char>> {
    match index_of(t, '.') {
        Some(i) => {
            let rest = t.skip(i + 1);
            match index_of(rest, '.') {
                Some(j) => Some(rest.take(j)),
                None => Some(rest),
            }
        },
        None => None,
    }
}

/// The payload bytes of a JWT: its second segment, base64url-decoded.
pub fn jwt_payload(token: &str) -> (r: Option<Vec<u8>>)
    ensures
        r is Some <==> (second_segment(token@) matches Some(p) && base64_url_decoded(p) is Some),
        r matches Some(b) ==> b@ == base64_url_decoded(second_segment(token@)->0)->0,
{
    let v = chars_of(token);
    let i = match find_char(&v, '.', 0) {
        Some(i) => i,
        None => {
            return None;
        },
    };
    let end = match find_char(&v, '.', i + 1) {
        Some(j) => j,
        None => v.len(),
    };
    proof {
        let rest = token@.skip(i + 1);
        crate::engine::lemma_shifted_index(token@, '.', (i + 1) as nat);
        if end < v.len() {
            assert(rest.take(end - (i + 1)) =~= token@.subrange(i + 1, end as int));
        } else {
            assert(rest =~= token@.subrange(i + 1, end as int));
        }
    }
    let payload = token.substring_char(i + 1, end);
    decode_url_safe(payload)
}

/// The `exp` claim serde_json reads in JWT payload bytes: the integer `exp`
/// member of the JSON value it parses them as; `None` when the bytes do not
/// parse or carry no integer `exp`.
pub uninterp spec fn payload_exp(bytes: Seq<u8>) -> Option<i64>;

/// `serde_json::from_slice` of payload bytes into a `Value`, then its `exp`
/// member as an `i64`, as [`payload_exp`] names it.
#[verifier::external_body]
fn parsed_exp(bytes: &[u8]) -> (r: Option<i64>)
    ensures
        r == payload_exp(bytes@),
{
    let v: serde_json::Value = serde_json::from_slice(bytes).ok()?;
    v.get("exp")?.as_i64()
}

/// The `exp` claim of a JWT's payload: its second segment, base64url-decoded,
/// then parsed.
pub open spec fn token_exp(token: Seq<char>) -> Option<i64> {
    match second_segment(token) {
        Some(p) => match base64_url_decoded(p) {
            Some(b) => payload_exp(b),
            None => None,
        },
        None => None,
    }
}

/// The expiry of a JWT access token: the `exp` claim of its payload; `None`
/// when the token has no decodable payload.
pub fn jwt_exp(token: &str) -> (r: Option<i64>)
    ensures
        r == token_exp(token@),
{
    match jwt_payload(token) {
        Some(bytes) => parsed_exp(bytes.as_slice()),
        None => None,
    }
}

/// The RFC 3339 text chrono gives the UTC time `secs` seconds after the Unix
/// epoch; `None` when chrono cannot represent that time.
pub uninterp spec fn utc_rfc3339(secs: i64) -> Option<Seq<char>>;

/// chrono's `DateTime::from_timestamp(secs, 0)` and `to_rfc3339`, as
/// [`utc_rfc3339`] names it.
#[verifier::external_body]
fn rfc3339_utc(secs: i64) -> (r: Option<String>)
    ensures
        match r {
            Some(s) => utc_rfc3339(secs) == Some(s@),
            None => utc_rfc3339(secs) is None,
        },
{
    chrono::DateTime::from_timestamp(secs, 0).map(|d| d.to_rfc3339())
}

/// The session summary of a profile whose stored access token is
/// `access_jwt`, seen at Unix time `now`: `absent` without a token; with one
/// whose payload has an `exp`, the state `session_state` gives, the expiry
/// as RFC 3339 text (its number when chrono cannot show it) and as seconds;
/// otherwise just `ok`.
pub open spec fn session_summary_is(v: JsonValue, access_jwt: Option<Seq<char>>, now: i64) -> bool {
    &&& v matches JsonValue::Object(es)
    &&& match access_jwt {
        None => es@.len() == 1 && is_str_entry(es@[0], "state"@, "absent"@),
        Some(t) => match token_exp(t) {
            Some(exp) => {
                &&& es@.len() == 3
                &&& is_str_entry(es@[0], "state"@, if exp < now { "expired"@ } else { "ok"@ })
                &&& is_str_entry(es@[1], "exp"@, match utc_rfc3339(exp) {
                    Some(iso) => iso,
                    None => signed_decimal(exp as int),
                })
                &&& is_int_entry(es@[2], "exp_unix"@, exp)
            },
            None => es@.len() == 1 && is_str_entry(es@[0], "state"@, "ok"@),
        },
    }
}

fn str_member(k: &str, v: String) -> (e: (String, JsonValue))
    ensures
        is_str_entry(e, k@, v@),
{
    (String::from_str(k), JsonValue::Str(v))
}

/// The session summary of a profile (see [`session_summary_is`]).
pub fn session_summary(access_jwt: Option<&str>, now: i64) -> (r: JsonValue)
    ensures
        session_summary_is(r, match access_jwt {
            Some(t) => Some(t@),
            None => None,
        }, now),
{
    let es = match access_jwt {
        None => vec![str_member("state", String::from_str("absent"))],
        Some(token) => match jwt_exp(token) {
            Some(exp) => {
                let state = String::from_str(session_state(exp, now));
                let iso = match rfc3339_utc(exp) {
                    Some(s) => s,
                    None => i64_text(exp),
                };
                vec![
                    str_member("state", state),
                    str_member("exp", iso),
                    (String::from_str("exp_unix"), JsonValue::Int(exp)),
                ]
            },
            None => vec![str_member("state", String::from_str("ok"))],
        },
    };
    JsonValue::Object(es)
}

// ---------------------------------------------------------------------------
// Sample records.

/// The placeholder DID of sample record URIs.
pub const SAMPLE_DID: &'static str = "did:plc:samplesamplesamplesample";

/// The AT-URI of a sample record: `at://<sample DID>/<collection>/<rkey>`.
pub fn sample_uri(collection: &str, rkey: &str) -> (r: String)
    ensures
        r@ == "at://"@ + SAMPLE_DID@ + "/"@ + collection@ + "/"@ + rkey@,
{
    let mut s = String::from_str("at://");
    s.append(SAMPLE_DID);
    s.append("/");
    s.append(collection);
    s.append("/");
    s.append(rkey);
    s
}

// ---------------------------------------------------------------------------
// `config set`.

/// Which file a `config set` touches.
#[derive(Debug, Clone, Copy, PartialEq, Eq, Structural)]
pub enum SetTarget {
    /// The base `config.toml` (the `profile` selector lives there).
    BaseConfig,
    /// The active profile's drop-in fragment.
    ActiveFragment,
}

/// What a `config set` does with its key.
#[derive(Debug)]
pub enum SetAction {
    /// Remove the key.
    Unset,
    /// Write this value.
    Write(String),
    /// Read the key back.
    Read,
}

/// The plan of a `config set`.
#[derive(Debug)]
pub struct SetPlan {
    pub key: String,
    pub target: SetTarget,
    pub action: SetAction,
}

/// Why a `config set` is refused.
#[derive(Debug, Clone, Copy, PartialEq, Eq, Structural)]
pub enum SetError {
    /// The key is empty.
    MissingKey,
    /// `--unset` was given a value.
    UnsetWithValue,
}

impl SetError {
    /// The message this error reads as.
    pub fn message(&self) -> (r: String)
        ensures
            *self == SetError::MissingKey ==> r@ == "config key is required"@,
            *self == SetError::UnsetWithValue ==> r@ == "--unset expects a key, not key=value"@,
    {
        match self {
            SetError::MissingKey => String::from_str("config key is required"),
            SetError::UnsetWithValue => String::from_str("--unset expects a key, not key=value"),
        }
    }
}

/// Plan a `config set`: split the assignment; an empty key or `--unset` with
/// a value is refused; the `profile` key lives in the base config, every
/// other key in the active fragment; `--unset` removes, a value writes, and a
/// bare key reads.
pub fn plan_config_set(assignment: &str, unset: bool) -> (r: Result<SetPlan, SetError>)
    ensures
        ({
            let (key, value) = assignment_parts(assignment@);
            &&& key.len() == 0 ==> r == Err::<SetPlan, SetError>(SetError::MissingKey)
            &&& key.len() > 0 && unset && value is Some ==> r == Err::<SetPlan, SetError>(SetError::UnsetWithValue)
            &&& key.len() > 0 && !(unset && value is Some) ==> (r matches Ok(p) && {
                &&& p.key@ == key
                &&& p.target == (if key == "profile"@ { SetTarget::BaseConfig } else { SetTarget::ActiveFragment })
                &&& unset ==> p.action is Unset
                &&& !unset && value is Some ==> (p.action matches SetAction::Write(v) && v@ == value->0)
                &&& !unset && value is None ==> p.action is Read
            })
        }),
{
    let (key, value) = split_assignment(assignment);
    if key.is_empty() {
        return Err(SetError::MissingKey);
    }
    if unset && value.is_some() {
        return Err(SetError::UnsetWithValue);
    }
    let target = if str_eq(key, "profile") { SetTarget::BaseConfig } else { SetTarget::ActiveFragment };
    let action = if unset {
        SetAction::Unset
    } else {
        match value {
            Some(v) => SetAction::Write(v.to_owned()),
            None => SetAction::Read,
        }
    };
    Ok(SetPlan { key: key.to_owned(), target, action })
}

/// The file name of a profile's drop-in fragment: `<name>.toml`.
pub fn fragment_file(name: &str) -> (r: String)
    ensures
        r@ == name@ + ".toml"@,
{
    crate::repo::prefixed(name, ".toml")
}

/// The line listing a profile: `*` marks the active one.
pub fn profile_line(profile: &str, active: &str) -> (r: String)
    ensures
        profile@ == active@ ==> r@ == "* "@ + profile@,
        profile@ != active@ ==> r@ == "  "@ + profile@,
{
    if str_eq(profile, active) {
        crate::repo::prefixed("* ", profile)
    } else {
        crate::repo::prefixed("  ", profile)
    }
}

/// What a `set` did with its key, as its report shows it.
#[derive(Debug)]
pub enum SetOutcome {
    /// `--unset`: whether the key was there to remove.
    Unset(bool),
    /// A value was written; this is how the file renders it.
    Written(String),
    /// A bare key was read back: its value, if it is set.
    Read(Option<String>),
}

/// The `  file: <path>` line that names the file a `set` touched.
pub open spec fn file_line(file: Seq<char>) -> Seq<char> {
    "  file: "@ + file
}

/// The lines `auth set` prints: `unset <key>` or `<key> was already unset`
/// after `--unset`, `<key> = <value>` after a write or a read of a set key,
/// `<key> is unset` after a read of an unset one; each but the read of a set
/// key is followed by the file line.
pub open spec fn auth_set_text(key: Seq<char>, outcome: SetOutcome, file: Seq<char>) -> Seq<Seq<char>> {
    match outcome {
        SetOutcome::Unset(removed) => if removed {
            seq!["unset "@ + key, file_line(file)]
        } else {
            seq![key + " was already unset"@, file_line(file)]
        },
        SetOutcome::Written(v) => seq![key + " = "@ + v@, file_line(file)],
        SetOutcome::Read(Some(v)) => seq![key + " = "@ + v@],
        SetOutcome::Read(None) => seq![key + " is unset"@, file_line(file)],
    }
}

/// The lines `config set` prints: `unset` or `(already unset)`, the key and
/// the file line after `--unset`; `<key> = <value>` and the file line after a
/// write; the value's text after a read (nothing when there is none).
pub open spec fn config_set_text(key: Seq<char>, outcome: SetOutcome, file: Seq<char>) -> Seq<Seq<char>> {
    match outcome {
        SetOutcome::Unset(removed) => seq![
            if removed { "unset"@ } else { "(already unset)"@ },
            "  "@ + key,
            file_line(file),
        ],
        SetOutcome::Written(v) => seq![key + " = "@ + v@, file_line(file)],
        SetOutcome::Read(Some(v)) => seq![v@],
        SetOutcome::Read(None) => Seq::empty(),
    }
}

/// The views of a list of lines.
pub open spec fn line_views(v: Seq<String>) -> Seq<Seq<char>> {
    v.map_values(|l: String| l@)
}

fn concat3(a: &str, b: &str, c: &str) -> (r: String)
    ensures
        r@ == a@ + b@ + c@,
{
    let mut s = String::from_str(a);
    s.append(b);
    s.append(c);
    s
}

/// The lines `auth set` prints for `key`, what was done, and the profile file.
pub fn auth_set_lines(key: &str, outcome: &SetOutcome, file: &str) -> (r: Vec<String>)
    ensures
        line_views(r@) == auth_set_text(key@, *outcome, file@),
{
    let fl = crate::repo::prefixed("  file: ", file);
    let r = match outcome {
        SetOutcome::Unset(removed) => if *removed {
            vec![crate::repo::prefixed("unset ", key), fl]
        } else {
            vec![crate::repo::prefixed(key, " was already unset"), fl]
        },
        SetOutcome::Written(v) => vec![concat3(key, " = ", v.as_str()), fl],
        SetOutcome::Read(Some(v)) => vec![concat3(key, " = ", v.as_str())],
        SetOutcome::Read(None) => vec![crate::repo::prefixed(key, " is unset"), fl],
    };
    assert(line_views(r@) =~= auth_set_text(key@, *outcome, file@));
    r
}

/// The lines `config set` prints for `key`, what was done, and the target file.
pub fn config_set_lines(key: &str, outcome: &SetOutcome, file: &str) -> (r: Vec<String>)
    ensures
        line_views(r@) == config_set_text(key@, *outcome, file@),
{
    let fl = crate::repo::prefixed("  file: ", file);
    let r = match outcome {
        SetOutcome::Unset(removed) => vec![
            String::from_str(if *removed { "unset" } else { "(already unset)" }),
            crate::repo::prefixed("  ", key),
            fl,
        ],
        SetOutcome::Written(v) => vec![concat3(key, " = ", v.as_str()), fl],
        SetOutcome::Read(Some(v)) => vec![v.clone()],
        SetOutcome::Read(None) => Vec::new(),
    };
    assert(line_views(r@) =~= config_set_text(key@, *outcome, file@));
    r
}

/// Where `auth login` takes the app password from: the `--password` flag,
/// else the password variable of the environment when it is not empty;
/// `None` means it is to be asked for.
pub fn password_choice(flag: Option<String>, env: Option<String>) -> (r: Option<String>)
    ensures
        flag is Some ==> r == flag,
        flag is None ==> (env matches Some(e) && e@.len() > 0 ==> r == env),
        flag is None ==> (!(env matches Some(e) && e@.len() > 0) ==> r is None),
{
    match flag {
        Some(f) => Some(f),
        None => match env {
            Some(e) => if e.as_str().is_empty() { None } else { Some(e) },
            None => None,
        },
    }
}

// ---------------------------------------------------------------------------
// `mage list`.

/// The largest page `--limit` accepts.
pub const MAX_PAGE: i64 = 100;

/// Check a `--limit`: it must lie in `[1, 100]`.
pub fn check_limit(limit: i64) -> (r: Result<(), String>)
    ensures
        r is Ok <==> 1 <= limit <= MAX_PAGE,
        r matches Err(m) ==> m@ == "--limit must be between 1 and 100"@,
{
    if limit < 1 || limit > MAX_PAGE {
        return Err(String::from_str("--limit must be between 1 and 100"));
    }
    Ok(())
}

/// The record keys a `mage list` tries, in order: the default `mage` record
/// falls back to the legacy `self` aggregate.
pub fn candidate_rkeys(rkey: Option<String>) -> (r: Vec<String>)
    ensures
        ({
            let k = match rkey {
                Some(k) => k@,
                None => "mage"@,
            };
            &&& k == "mage"@ ==> r@.map_values(|s: String| s@) == seq!["mage"@, "self"@]
            &&& k != "mage"@ ==> r@.map_values(|s: String| s@) == seq![k]
        }),
{
    let k = match rkey {
        Some(k) => k,
        None => String::from_str("mage"),
    };
    if str_eq(k.as_str(), "mage") {
        let r = vec![String::from_str("mage"), String::from_str("self")];
        assert(r@.map_values(|s: String| s@) =~= seq!["mage"@, "self"@]);
        r
    } else {
        let r = vec![k];
        assert(r@.map_values(|s: String| s@) =~= seq![r@[0]@]);
        r
    }
}

/// What `mage list` does next while looking for a record.
#[derive(Debug, Clone, PartialEq, Eq)]
pub enum ListStep {
    /// Fetch the record with this key.
    Fetch(String),
    /// No candidate holds a record: fail with this message.
    NotFound(String),
}

/// What `mage list` does once the first `absent` candidate keys held no
/// record: fetch the next candidate, or fail when none is left.
pub fn list_next(candidates: &Vec<String>, absent: usize) -> (s: ListStep)
    ensures
        absent < candidates.len() ==> s == ListStep::Fetch(candidates@[absent as int]),
        absent >= candidates.len() ==> (s matches ListStep::NotFound(m)
            && m@ == "no actor.rpg.stats record found for requested rkey"@),
{
    if absent < candidates.len() {
        ListStep::Fetch(candidates[absent].clone())
    } else {
        ListStep::NotFound(String::from_str("no actor.rpg.stats record found for requested rkey"))
    }
}

/// The items of `items` joined with `sep`.
pub open spec fn joined(items: Seq<Seq<char>>, sep: Seq<char>) -> Seq<char>
    decreases items.len(),
{
    if items.len() == 0 {
        Seq::empty()
    } else if items.len() == 1 {
        items[0]
    } else {
        joined(items.drop_last(), sep) + sep + items.last()
    }
}

/// `items` joined with `sep`, as `join` renders them.
pub fn join(items: &Vec<String>, sep: &str) -> (r: String)
    ensures
        r@ == joined(items@.map_values(|s: String| s@), sep@),
{
    let ghost views = items@.map_values(|s: String| s@);
    let mut r = String::new();
    let mut i: usize = 0;
    while i < items.len()
        invariant
            i <= items.len(),
            views == items@.map_values(|s: String| s@),
            r@ == joined(views.take(i as int), sep@),
        decreases items.len() - i,
    {
        proof {
            assert(views.take(i + 1).drop_last() =~= views.take(i as int));
            assert(views.take(i + 1).last() == items@[i as int]@);
        }
        if i > 0 {
            r.append(sep);
        } else {
            assert(views.take(1) =~= seq![items@[0]@]);
            assert(Seq::<char>::empty() + items@[0]@ =~= items@[0]@);
        }
        r.append(items[i].as_str());
        i = i + 1;
    }
    assert(views.take(items.len() as int) =~= views);
    r
}


// ---------------------------------------------------------------------------
// `auth`.

/// Whether a login goes through the OAuth flow: when `--oauth` is passed or
/// the selected profile declares `auth_mode = "oauth"`; otherwise it uses an
/// app password.
pub fn uses_oauth(oauth_flag: bool, auth_mode: Option<&str>) -> (b: bool)
    ensures
        b == (oauth_flag || (auth_mode matches Some(m) && m@ == "oauth"@)),
{
    oauth_flag || match auth_mode {
        Some(m) => str_eq(m, "oauth"),
        None => false,
    }
}

/// Whether `names` lists `name`.
pub open spec fn listed(names: Seq<String>, name: Seq<char>) -> bool {
    exists|i: int| 0 <= i < names.len() && #[trigger] names[i]@ == name
}

/// Check an `auth switch` target: it must be one of the available profiles;
/// otherwise the refusal lists them (or says there are none).
pub fn check_switch(profiles: &Vec<String>, target: &str) -> (r: Result<(), String>)
    ensures
        r is Ok <==> listed(profiles@, target@),
        r matches Err(m) ==> m@ == "unknown profile '"@ + target@ + "'; available: "@ + (if profiles@.len() == 0 {
            "(none)"@
        } else {
            joined(profiles@.map_values(|s: String| s@), ", "@)
        }),
{
    let mut i: usize = 0;
    while i < profiles.len()
        invariant
            i <= profiles.len(),
            forall|j: int| 0 <= j < i ==> profiles@[j]@ != target@,
        decreases profiles.len() - i,
    {
        if str_eq(profiles[i].as_str(), target) {
            return Ok(());
        }
        i = i + 1;
    }
    let mut m = String::from_str("unknown profile '");
    m.append(target);
    m.append("'; available: ");
    if profiles.len() == 0 {
        m.append("(none)");
    } else {
        let list = join(profiles, ", ");
        m.append(list.as_str());
    }
    Err(m)
}

} // verus!
