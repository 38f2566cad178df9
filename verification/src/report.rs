//! What the command line shows of stats records: the record a `mage list`
//! shows, and the text lines of a shown record, of record summaries and of a
//! self-aggregate.

use vstd::prelude::*;
use crate::json::JsonValue;
use crate::cli::{display_opt, join, joined};
use crate::mage::{pair_views, string_views, mage_block, mage_block_of, normalize, normalizes, record_normalizable, NormalizedMageStats};
use crate::repo::{rkey_from_uri, ListPage, RecordEnvelope};
use crate::repo_mage::StatsPage;
use crate::stats::{SystemSummary, payload_of, stats_payload, summarize_record, summary_fields_of, names_view, StatsSummary};
use crate::repo::prefixed;
use crate::text::{after_last, decimal, i64_text, signed_decimal, str_eq, u64_text};

verus! {

/// Where a shown record came from.
#[derive(Debug)]
pub struct StatsSource {
    pub uri: String,
    pub cid: Option<String>,
    pub rkey: String,
    pub shape: String,
}

/// The part of a record shown as raw: a mage block's members, or a value.
#[derive(Debug)]
pub enum RawPart<'a> {
    Members(&'a Vec<(String, JsonValue)>),
    Value(&'a JsonValue),
}

/// One stats record as `mage list` shows it.
#[derive(Debug)]
pub struct StatsOutput<'a> {
    pub source: StatsSource,
    pub summary: StatsSummary,
    pub mage: Option<NormalizedMageStats>,
    pub raw: RawPart<'a>,
}

/// The view of an optional text.
pub open spec fn text_view(o: Option<String>) -> Option<Seq<char>> {
    match o {
        Some(s) => Some(s@),
        None => None,
    }
}

/// `s` is the summary of the record at `uri` (with `cid`) whose value is
/// `value`.
pub open spec fn summarizes(s: StatsSummary, uri: Seq<char>, cid: Option<Seq<char>>, value: JsonValue) -> bool {
    let rkey = after_last(uri, '/');
    &&& s.uri@ == uri
    &&& text_view(s.cid) == cid
    &&& s.rkey@ == rkey
    &&& s.shape@ == payload_of(value, rkey).1
    &&& text_view(s.system) == payload_of(value, rkey).2
    &&& names_view(s.fields@) == summary_fields_of(value, rkey)
}

/// Whether a record fetched as `rkey` from `uri` is shown with its
/// normalized mage stats: its system is `mage`, or it is the `self` record.
pub open spec fn shows_mage(rkey: Seq<char>, uri: Seq<char>, value: JsonValue) -> bool {
    payload_of(value, after_last(uri, '/')).2 == Some("mage"@) || rkey == "self"@
}

/// Whether a record fetched as `rkey` from `uri` is shown with its
/// normalized mage stats (see [`shows_mage`]).
pub fn mage_shown(rkey: &str, uri: &str, value: &JsonValue) -> (b: bool)
    ensures
        b == shows_mage(rkey@, uri@, *value),
{
    let key = rkey_from_uri(uri);
    let payload = stats_payload(value, key);
    let is_mage = match &payload.system {
        Some(s) => str_eq(s.as_str(), "mage"),
        None => false,
    };
    proof {
        reveal_strlit("mage");
        reveal_strlit("self");
    }
    is_mage || str_eq(rkey, "self")
}

/// The record a `mage list` shows for the record fetched as `rkey`: its
/// summary and source; its normalized mage stats when it is a mage record (or
/// the `self` record); and as raw, for `mage` and `self` its mage block (else
/// the whole value), for other rkeys the system data it carries (else the
/// whole value).
pub fn stats_output<'a>(rkey: &str, uri: &str, cid: Option<&str>, value: &'a JsonValue) -> (o: StatsOutput<'a>)
    requires
        shows_mage(rkey@, uri@, *value) ==> record_normalizable(*value),
    ensures
        summarizes(o.summary, uri@, match cid {
            Some(c) => Some(c@),
            None => None,
        }, *value),
        o.source.uri == o.summary.uri,
        o.source.cid == o.summary.cid,
        o.source.rkey == o.summary.rkey,
        o.source.shape == o.summary.shape,
        shows_mage(rkey@, uri@, *value) ==> (o.mage is Some <==> mage_block_of(*value) is Some),
        shows_mage(rkey@, uri@, *value) ==> (o.mage matches Some(n) ==> normalizes(n, mage_block_of(*value)->0)),
        !shows_mage(rkey@, uri@, *value) ==> o.mage is None,
        (rkey@ == "mage"@ || rkey@ == "self"@) ==> match mage_block_of(*value) {
            Some(b) => o.raw matches RawPart::Members(m) && m@ == b,
            None => o.raw == RawPart::Value(value),
        },
        !(rkey@ == "mage"@ || rkey@ == "self"@) ==> match payload_of(*value, rkey@).0 {
            Some(d) => o.raw matches RawPart::Value(x) && *x == d,
            None => o.raw == RawPart::Value(value),
        },
{
    let summary = summarize_record(uri, cid, value);
    let mage_or_self = str_eq(rkey, "mage") || str_eq(rkey, "self");
    proof {
        reveal_strlit("mage");
        reveal_strlit("self");
    }
    let raw = if mage_or_self {
        match mage_block(value) {
            Some(b) => RawPart::Members(b),
            None => RawPart::Value(value),
        }
    } else {
        match stats_payload(value, rkey).data {
            Some(d) => RawPart::Value(d),
            None => RawPart::Value(value),
        }
    };
    let mage = if mage_shown(rkey, uri, value) {
        normalize(value)
    } else {
        None
    };
    let source = StatsSource {
        uri: summary.uri.clone(),
        cid: summary.cid.clone(),
        rkey: summary.rkey.clone(),
        shape: summary.shape.clone(),
    };
    StatsOutput { source, summary, mage, raw }
}

// ---------------------------------------------------------------------------
// Text lines.

/// The views of a list of lines.
pub open spec fn lines_view(v: Seq<String>) -> Seq<Seq<char>> {
    v.map_values(|s: String| s@)
}

/// A stat as shown: its number, else `absent`.
pub open spec fn shown(v: Option<i64>) -> Seq<char> {
    match v {
        Some(x) => signed_decimal(x as int),
        None => "absent"@,
    }
}

/// The number of an optional stat, as text.
pub open spec fn number_text(v: Option<i64>) -> Option<Seq<char>> {
    match v {
        Some(x) => Some(signed_decimal(x as int)),
        None => None,
    }
}

/// The line `prefix` + `s` when there is an `s`; else no line.
pub open spec fn line_if(prefix: Seq<char>, s: Option<Seq<char>>) -> Seq<Seq<char>> {
    match s {
        Some(t) => seq![prefix + t],
        None => Seq::empty(),
    }
}

/// The line `prefix` + the items joined with `", "` when there are items;
/// else no line.
pub open spec fn list_line(prefix: Seq<char>, items: Seq<Seq<char>>) -> Seq<Seq<char>> {
    if items.len() == 0 {
        Seq::empty()
    } else {
        seq![prefix + joined(items, ", "@)]
    }
}

/// The line of one sphere.
pub open spec fn sphere_line(p: (Seq<char>, i64)) -> Seq<char> {
    "    "@ + p.0 + ": "@ + signed_decimal(p.1 as int)
}

/// The lines of normalized mage stats.
pub open spec fn mage_lines(m: NormalizedMageStats) -> Seq<Seq<char>> {
    seq!["  arete:        "@ + shown(m.arete), "  willpower:    "@ + shown(m.willpower)]
        + line_if("  temp willpower: "@, number_text(m.willpower_temporary))
        + seq!["  quintessence: "@ + shown(m.quintessence)]
        + line_if("  milliQ:       "@, match m.milli_quintessence {
            Some(x) => Some(signed_decimal(x as int) + " millis"@),
            None => None,
        })
        + seq!["  paradox:      "@ + shown(m.paradox), "  spheres:"@]
        + pair_views(m.spheres@).map_values(|p: (Seq<char>, i64)| sphere_line(p))
        + list_line("  missing: "@, string_views(m.missing@))
}

/// The lines of a shown record: its header and source, its system, then its
/// mage stats, or else the fields its summary lists.
pub open spec fn record_lines_of(source: StatsSource, summary: StatsSummary, mage: Option<NormalizedMageStats>) -> Seq<Seq<char>> {
    seq!["actor.rpg.stats/"@ + source.rkey@, "  source: "@ + source.uri@, "  shape:  "@ + source.shape@]
        + line_if("  system: "@, text_view(summary.system))
        + match mage {
            Some(m) => mage_lines(m),
            None => list_line("  fields: "@, names_view(summary.fields@)),
        }
}

/// Append a line.
fn push_line(lines: &mut Vec<String>, line: String)
    ensures
        lines_view(final(lines)@) == lines_view(old(lines)@).push(line@),
{
    let ghost before = lines_view(lines@);
    lines.push(line);
    assert(lines_view(lines@) =~= before.push(line@));
}

/// Append `prefix` + `s` when there is an `s`.
fn push_if(lines: &mut Vec<String>, prefix: &str, s: Option<&str>)
    ensures
        lines_view(final(lines)@) == lines_view(old(lines)@) + line_if(prefix@, match s {
            Some(t) => Some(t@),
            None => None,
        }),
{
    match s {
        Some(t) => {
            push_line(lines, prefixed(prefix, t));
        },
        None => {
            assert(lines_view(lines@) + Seq::<Seq<char>>::empty() =~= lines_view(lines@));
        },
    }
}

/// Append `prefix` + the items joined with `", "` when there are items.
fn push_list(lines: &mut Vec<String>, prefix: &str, items: &Vec<String>)
    ensures
        lines_view(final(lines)@) == lines_view(old(lines)@) + list_line(prefix@, names_view(items@)),
{
    if items.len() == 0 {
        assert(lines_view(lines@) + Seq::<Seq<char>>::empty() =~= lines_view(lines@));
    } else {
        let all = join(items, ", ");
        proof {
            reveal_strlit(", ");
            assert(names_view(items@) =~= items@.map_values(|s: String| s@));
        }
        push_line(lines, prefixed(prefix, all.as_str()));
    }
}

/// The lines of normalized mage stats, appended.
fn push_mage(lines: &mut Vec<String>, m: &NormalizedMageStats)
    ensures
        lines_view(final(lines)@) == lines_view(old(lines)@) + mage_lines(*m),
{
    let ghost start = lines_view(lines@);
    let a = display_opt(m.arete);
    push_line(lines, prefixed("  arete:        ", a.as_str()));
    let w = display_opt(m.willpower);
    push_line(lines, prefixed("  willpower:    ", w.as_str()));
    let ghost l1 = lines_view(lines@);
    match m.willpower_temporary {
        Some(t) => {
            let tt = i64_text(t);
            push_line(lines, prefixed("  temp willpower: ", tt.as_str()));
        },
        None => {},
    }
    let ghost l2 = lines_view(lines@);
    let q = display_opt(m.quintessence);
    push_line(lines, prefixed("  quintessence: ", q.as_str()));
    let ghost l3 = lines_view(lines@);
    match m.milli_quintessence {
        Some(x) => {
            let mut t = i64_text(x);
            t.append(" millis");
            push_line(lines, prefixed("  milliQ:       ", t.as_str()));
        },
        None => {},
    }
    let ghost l4 = lines_view(lines@);
    let p = display_opt(m.paradox);
    push_line(lines, prefixed("  paradox:      ", p.as_str()));
    push_line(lines, String::from_str("  spheres:"));
    let ghost l5 = lines_view(lines@);
    let ghost spheres = pair_views(m.spheres@).map_values(|p: (Seq<char>, i64)| sphere_line(p));
    let mut i: usize = 0;
    while i < m.spheres.len()
        invariant
            i <= m.spheres.len(),
            spheres == pair_views(m.spheres@).map_values(|p: (Seq<char>, i64)| sphere_line(p)),
            lines_view(lines@) == l5 + spheres.take(i as int),
        decreases m.spheres.len() - i,
    {
        let mut line = prefixed("    ", m.spheres[i].0.as_str());
        line.append(": ");
        let v = i64_text(m.spheres[i].1);
        line.append(v.as_str());
        proof {
            reveal_strlit("    ");
            reveal_strlit(": ");
            assert(pair_views(m.spheres@)[i as int] == (m.spheres@[i as int].0@, m.spheres@[i as int].1));
            assert(line@ == spheres[i as int]);
            assert(spheres.take(i + 1) =~= spheres.take(i as int).push(spheres[i as int]));
        }
        push_line(lines, line);
        i = i + 1;
    }
    assert(spheres.take(m.spheres.len() as int) =~= spheres);
    let ghost l6 = lines_view(lines@);
    push_list(lines, "  missing: ", &m.missing);
    proof {
        reveal_strlit("  arete:        ");
        reveal_strlit("  willpower:    ");
        reveal_strlit("  temp willpower: ");
        reveal_strlit("  quintessence: ");
        reveal_strlit("  milliQ:       ");
        reveal_strlit(" millis");
        reveal_strlit("  paradox:      ");
        reveal_strlit("  spheres:");
        reveal_strlit("  missing: ");
        assert(names_view(m.missing@) =~= string_views(m.missing@));
        assert(l1 == start + seq!["  arete:        "@ + shown(m.arete), "  willpower:    "@ + shown(m.willpower)]);
        assert(l2 == l1 + line_if("  temp willpower: "@, number_text(m.willpower_temporary)));
        assert(lines_view(lines@) =~= start + mage_lines(*m));
    }
}

/// The lines `mage list` prints for a shown record.
pub fn record_lines(o: &StatsOutput) -> (r: Vec<String>)
    ensures
        lines_view(r@) == record_lines_of(o.source, o.summary, o.mage),
{
    let mut lines: Vec<String> = Vec::new();
    push_line(&mut lines, prefixed("actor.rpg.stats/", o.source.rkey.as_str()));
    push_line(&mut lines, prefixed("  source: ", o.source.uri.as_str()));
    push_line(&mut lines, prefixed("  shape:  ", o.source.shape.as_str()));
    let ghost head = lines_view(lines@);
    let system = match &o.summary.system {
        Some(s) => Some(s.as_str()),
        None => None,
    };
    push_if(&mut lines, "  system: ", system);
    let ghost with_system = lines_view(lines@);
    match &o.mage {
        Some(m) => push_mage(&mut lines, m),
        None => push_list(&mut lines, "  fields: ", &o.summary.fields),
    }
    proof {
        reveal_strlit("actor.rpg.stats/");
        reveal_strlit("  source: ");
        reveal_strlit("  shape:  ");
        reveal_strlit("  system: ");
        reveal_strlit("  fields: ");
        assert(head =~= seq!["actor.rpg.stats/"@ + o.source.rkey@, "  source: "@ + o.source.uri@, "  shape:  "@ + o.source.shape@]);
        assert(with_system == head + line_if("  system: "@, text_view(o.summary.system)));
        assert(lines_view(lines@) =~= record_lines_of(o.source, o.summary, o.mage));
    }
    lines
}

/// The lines of one record summary.
pub open spec fn summary_lines(s: StatsSummary) -> Seq<Seq<char>> {
    seq!["  "@ + s.rkey@ + " ("@ + s.shape@ + ")"@, "    uri: "@ + s.uri@]
        + line_if("    system: "@, text_view(s.system))
        + list_line("    fields: "@, names_view(s.fields@))
}

/// The lines of a list of summaries, one after another.
pub open spec fn summaries_lines(ss: Seq<StatsSummary>) -> Seq<Seq<char>>
    decreases ss.len(),
{
    if ss.len() == 0 {
        Seq::empty()
    } else {
        summaries_lines(ss.drop_last()) + summary_lines(ss.last())
    }
}

/// The lines `mage list --all` prints for a page of `repo` (at `pds`): the
/// collection, the repo, the PDS, the record count, the next cursor when
/// there is one, then each record's summary.
pub open spec fn page_lines_of(repo: Seq<char>, pds: Seq<char>, page: StatsPage) -> Seq<Seq<char>> {
    list_header("actor.rpg.stats"@, repo, pds, page.records@.len(), text_view(page.cursor))
        + summaries_lines(page.records@)
}

/// The head of a listed page of `collection` in `repo` at `pds`: the
/// collection, the repo, the PDS, the record count, and the next cursor when
/// there is one.
pub open spec fn list_header(collection: Seq<char>, repo: Seq<char>, pds: Seq<char>, n: nat, cursor: Option<Seq<char>>) -> Seq<Seq<char>> {
    seq![collection, "  repo: "@ + repo, "  pds:  "@ + pds, "  records: "@ + decimal(n)]
        + line_if("  next cursor: "@, cursor)
}

/// The line of one listed record: its rkey, its CID when known, its URI.
pub open spec fn listed_line(e: RecordEnvelope) -> Seq<char> {
    match e.cid {
        Some(c) => "  "@ + after_last(e.uri@, '/') + "  "@ + c@ + "  "@ + e.uri@,
        None => "  "@ + after_last(e.uri@, '/') + "  "@ + e.uri@,
    }
}

/// The lines `repo list` prints for a page of `collection` in `repo` at
/// `pds`: the head, then one line per record.
pub open spec fn repo_list_lines_of(collection: Seq<char>, repo: Seq<char>, pds: Seq<char>, page: ListPage) -> Seq<Seq<char>> {
    list_header(collection, repo, pds, page.records@.len(), text_view(page.cursor))
        + page.records@.map_values(|e: RecordEnvelope| listed_line(e))
}

/// The lines of one system of a self-aggregate.
pub open spec fn system_lines(s: SystemSummary) -> Seq<Seq<char>> {
    seq!["  "@ + s.key@ + " ("@ + s.kind@ + ")"@] + list_line("    fields: "@, names_view(s.fields@))
}

/// The lines of a list of systems, one after another.
pub open spec fn systems_lines(ss: Seq<SystemSummary>) -> Seq<Seq<char>>
    decreases ss.len(),
{
    if ss.len() == 0 {
        Seq::empty()
    } else {
        systems_lines(ss.drop_last()) + system_lines(ss.last())
    }
}

/// The lines `self stats` prints for the self-aggregate at `uri`: its header,
/// URI, CID when known, the system count, then each system.
pub open spec fn self_lines_of(uri: Seq<char>, cid: Option<Seq<char>>, systems: Seq<SystemSummary>) -> Seq<Seq<char>> {
    seq!["actor.rpg.stats/self"@, "  uri: "@ + uri]
        + line_if("  cid: "@, cid)
        + seq!["  systems: "@ + decimal(systems.len())]
        + systems_lines(systems)
}

/// `a (b)`, indented by two.
fn labelled(a: &str, b: &str) -> (r: String)
    ensures
        r@ == "  "@ + a@ + " ("@ + b@ + ")"@,
{
    let mut r = prefixed("  ", a);
    r.append(" (");
    r.append(b);
    r.append(")");
    proof {
        reveal_strlit("  ");
        reveal_strlit(" (");
        reveal_strlit(")");
    }
    r
}

/// The lines of one record summary, appended.
fn push_summary(lines: &mut Vec<String>, s: &StatsSummary)
    ensures
        lines_view(final(lines)@) == lines_view(old(lines)@) + summary_lines(*s),
{
    let ghost start = lines_view(lines@);
    push_line(lines, labelled(s.rkey.as_str(), s.shape.as_str()));
    push_line(lines, prefixed("    uri: ", s.uri.as_str()));
    let ghost head = lines_view(lines@);
    let system = match &s.system {
        Some(x) => Some(x.as_str()),
        None => None,
    };
    push_if(lines, "    system: ", system);
    let ghost mid = lines_view(lines@);
    push_list(lines, "    fields: ", &s.fields);
    proof {
        reveal_strlit("    uri: ");
        reveal_strlit("    system: ");
        reveal_strlit("    fields: ");
        assert(head =~= start + seq!["  "@ + s.rkey@ + " ("@ + s.shape@ + ")"@, "    uri: "@ + s.uri@]);
        assert(mid == head + line_if("    system: "@, text_view(s.system)));
        assert(lines_view(lines@) =~= start + summary_lines(*s));
    }
}

/// The head of a listed page (see [`list_header`]).
fn header_lines(collection: &str, repo: &str, pds: &str, n: usize, cursor: Option<&str>) -> (r: Vec<String>)
    ensures
        lines_view(r@) == list_header(collection@, repo@, pds@, n as nat, match cursor {
            Some(c) => Some(c@),
            None => None,
        }),
{
    let mut lines: Vec<String> = Vec::new();
    push_line(&mut lines, String::from_str(collection));
    push_line(&mut lines, prefixed("  repo: ", repo));
    push_line(&mut lines, prefixed("  pds:  ", pds));
    let count = u64_text(n as u64);
    push_line(&mut lines, prefixed("  records: ", count.as_str()));
    let ghost head = lines_view(lines@);
    push_if(&mut lines, "  next cursor: ", cursor);
    proof {
        reveal_strlit("  repo: ");
        reveal_strlit("  pds:  ");
        reveal_strlit("  records: ");
        reveal_strlit("  next cursor: ");
        assert(head =~= seq![collection@, "  repo: "@ + repo@, "  pds:  "@ + pds@, "  records: "@ + decimal(n as nat)]);
    }
    lines
}

/// The lines `repo list` prints for a page of `collection` in `repo` at `pds`.
pub fn repo_list_lines(collection: &str, repo: &str, pds: &str, page: &ListPage) -> (r: Vec<String>)
    ensures
        lines_view(r@) == repo_list_lines_of(collection@, repo@, pds@, *page),
{
    let cursor = match &page.cursor {
        Some(c) => Some(c.as_str()),
        None => None,
    };
    let mut lines = header_lines(collection, repo, pds, page.records.len(), cursor);
    let ghost top = lines_view(lines@);
    let ghost listed = page.records@.map_values(|e: RecordEnvelope| listed_line(e));
    let mut i: usize = 0;
    while i < page.records.len()
        invariant
            i <= page.records.len(),
            listed == page.records@.map_values(|e: RecordEnvelope| listed_line(e)),
            lines_view(lines@) == top + listed.take(i as int),
        decreases page.records.len() - i,
    {
        let e = &page.records[i];
        let mut line = prefixed("  ", rkey_from_uri(e.uri.as_str()));
        line.append("  ");
        match &e.cid {
            Some(c) => {
                line.append(c.as_str());
                line.append("  ");
            },
            None => {},
        }
        line.append(e.uri.as_str());
        proof {
            reveal_strlit("  ");
            assert(line@ == listed[i as int]);
            assert(listed.take(i + 1) =~= listed.take(i as int).push(listed[i as int]));
        }
        push_line(&mut lines, line);
        i = i + 1;
    }
    assert(listed.take(page.records.len() as int) =~= listed);
    lines
}

/// The lines `mage list --all` prints for a page of `repo` at `pds`.
pub fn page_lines(repo: &str, pds: &str, page: &StatsPage) -> (r: Vec<String>)
    ensures
        lines_view(r@) == page_lines_of(repo@, pds@, *page),
{
    let cursor = match &page.cursor {
        Some(c) => Some(c.as_str()),
        None => None,
    };
    let mut lines = header_lines("actor.rpg.stats", repo, pds, page.records.len(), cursor);
    let ghost top = lines_view(lines@);
    let mut i: usize = 0;
    while i < page.records.len()
        invariant
            i <= page.records.len(),
            lines_view(lines@) == top + summaries_lines(page.records@.take(i as int)),
        decreases page.records.len() - i,
    {
        proof {
            assert(page.records@.take(i + 1).drop_last() =~= page.records@.take(i as int));
            assert(page.records@.take(i + 1).last() == page.records@[i as int]);
        }
        push_summary(&mut lines, &page.records[i]);
        assert(lines_view(lines@) =~= top + summaries_lines(page.records@.take(i + 1)));
        i = i + 1;
    }
    proof {
        reveal_strlit("actor.rpg.stats");
        assert(page.records@.take(page.records.len() as int) =~= page.records@);
        assert(lines_view(lines@) =~= page_lines_of(repo@, pds@, *page));
    }
    lines
}

/// The lines `self stats` prints for the self-aggregate at `uri`.
pub fn self_lines(uri: &str, cid: Option<&str>, systems: &Vec<SystemSummary>) -> (r: Vec<String>)
    ensures
        lines_view(r@) == self_lines_of(uri@, match cid {
            Some(c) => Some(c@),
            None => None,
        }, systems@),
{
    let mut lines: Vec<String> = Vec::new();
    push_line(&mut lines, String::from_str("actor.rpg.stats/self"));
    push_line(&mut lines, prefixed("  uri: ", uri));
    let ghost head = lines_view(lines@);
    push_if(&mut lines, "  cid: ", cid);
    let ghost with_cid = lines_view(lines@);
    let n = u64_text(systems.len() as u64);
    push_line(&mut lines, prefixed("  systems: ", n.as_str()));
    let ghost top = lines_view(lines@);
    let mut i: usize = 0;
    while i < systems.len()
        invariant
            i <= systems.len(),
            lines_view(lines@) == top + systems_lines(systems@.take(i as int)),
        decreases systems.len() - i,
    {
        proof {
            assert(systems@.take(i + 1).drop_last() =~= systems@.take(i as int));
            assert(systems@.take(i + 1).last() == systems@[i as int]);
        }
        let ghost before = lines_view(lines@);
        push_line(&mut lines, labelled(systems[i].key.as_str(), systems[i].kind.as_str()));
        push_list(&mut lines, "    fields: ", &systems[i].fields);
        proof {
            reveal_strlit("    fields: ");
            assert(lines_view(lines@) =~= before + system_lines(systems@[i as int]));
        }
        assert(lines_view(lines@) =~= top + systems_lines(systems@.take(i + 1)));
        i = i + 1;
    }
    proof {
        reveal_strlit("actor.rpg.stats/self");
        reveal_strlit("  uri: ");
        reveal_strlit("  cid: ");
        reveal_strlit("  systems: ");
        assert(systems@.take(systems.len() as int) =~= systems@);
        assert(head =~= seq!["actor.rpg.stats/self"@, "  uri: "@ + uri@]);
        assert(lines_view(lines@) =~= self_lines_of(uri@, match cid {
            Some(c) => Some(c@),
            None => None,
        }, systems@));
    }
    lines
}

} // verus!
