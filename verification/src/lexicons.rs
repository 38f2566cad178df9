//! Registries of embedded lexicon documents and example records: ordered
//! tables looked up by NSID or file name, and the rpg schema set seen as its
//! raw upstream documents followed by the mage overlay.

use vstd::prelude::*;
use crate::text::str_eq;

verus! {

/// One lexicon document.
#[derive(Debug, Clone, Copy, PartialEq, Eq)]
pub struct LexiconDoc {
    /// Lexicon NSID.
    pub nsid: &'static str,
    /// File name inside the registry's directory.
    pub file_name: &'static str,
    /// Canonical JSON text.
    pub json: &'static str,
}

/// One example record.
#[derive(Debug, Clone, Copy, PartialEq, Eq)]
pub struct SampleRecord {
    /// File name inside the registry's directory.
    pub file_name: &'static str,
    /// Human-readable description of the example.
    pub description: &'static str,
    /// Canonical JSON text.
    pub json: &'static str,
}

/// Where the `at.telluri.*` lexicons live.
pub const LEXICON_DIR: &'static str = "crates/tass-lex-schema/lexicons";

/// Where the `at.telluri.*` example records live.
pub const SAMPLE_DIR: &'static str = "crates/tass-lex-sample/samples";

/// Where the raw upstream rpg lexicons live.
pub const RPG_LEXICON_DIR: &'static str = "crates/tass-lex-rpg-schema/lexicons";

/// Where the mage overlay lexicons live.
pub const RPG_OVERLAY_DIR: &'static str = "crates/tass-lex-rpg-schema/overlay";

/// Where the `com.superbfowle.tass.*` corpus lexicons live.
pub const CORPUS_LEXICON_DIR: &'static str = "crates/tass-lex-corpus/lexicons";

/// Where the corpus example records live.
pub const CORPUS_SAMPLE_DIR: &'static str = "crates/tass-lex-corpus/samples";

/// The index of the first document at or after `i` with NSID `nsid`.
pub open spec fn doc_index(docs: Seq<LexiconDoc>, nsid: Seq<char>, i: nat) -> Option<int>
    decreases docs.len() - i,
{
    if i >= docs.len() {
        None
    } else if docs[i as int].nsid@ == nsid {
        Some(i as int)
    } else {
        doc_index(docs, nsid, i + 1)
    }
}

/// The index of the first record at or after `i` with file name `name`.
pub open spec fn sample_index(samples: Seq<SampleRecord>, name: Seq<char>, i: nat) -> Option<int>
    decreases samples.len() - i,
{
    if i >= samples.len() {
        None
    } else if samples[i as int].file_name@ == name {
        Some(i as int)
    } else {
        sample_index(samples, name, i + 1)
    }
}

proof fn lemma_doc_index(docs: Seq<LexiconDoc>, nsid: Seq<char>, i: nat)
    ensures
        doc_index(docs, nsid, i) matches Some(k) ==> i <= k < docs.len() && docs[k].nsid@ == nsid
            && forall|j: int| i <= j < k ==> docs[j].nsid@ != nsid,
        doc_index(docs, nsid, i) is None ==> forall|j: int| i <= j < docs.len() ==> docs[j].nsid@ != nsid,
    decreases docs.len() - i,
{
    if i < docs.len() && docs[i as int].nsid@ != nsid {
        lemma_doc_index(docs, nsid, i + 1);
    }
}

proof fn lemma_sample_index(samples: Seq<SampleRecord>, name: Seq<char>, i: nat)
    ensures
        sample_index(samples, name, i) matches Some(k) ==> i <= k < samples.len() && samples[k].file_name@ == name
            && forall|j: int| i <= j < k ==> samples[j].file_name@ != name,
        sample_index(samples, name, i) is None ==> forall|j: int| i <= j < samples.len() ==> samples[j].file_name@ != name,
    decreases samples.len() - i,
{
    if i < samples.len() && samples[i as int].file_name@ != name {
        lemma_sample_index(samples, name, i + 1);
    }
}

/// All documents of a registry, in its order.
pub fn iter(docs: &[LexiconDoc]) -> (r: Vec<LexiconDoc>)
    ensures
        r@ == docs@,
{
    let mut r: Vec<LexiconDoc> = Vec::new();
    let mut i: usize = 0;
    while i < docs.len()
        invariant
            i <= docs.len(),
            r@ == docs@.take(i as int),
        decreases docs.len() - i,
    {
        r.push(docs[i]);
        assert(docs@.take(i + 1) =~= docs@.take(i as int).push(docs@[i as int]));
        i = i + 1;
    }
    assert(docs@.take(docs.len() as int) =~= docs@);
    r
}

/// The first document of a registry with NSID `nsid`.
pub fn get(docs: &[LexiconDoc], nsid: &str) -> (r: Option<LexiconDoc>)
    ensures
        r is Some <==> doc_index(docs@, nsid@, 0) is Some,
        r matches Some(d) ==> d == docs@[doc_index(docs@, nsid@, 0)->0],
{
    let mut i: usize = 0;
    while i < docs.len()
        invariant
            i <= docs.len(),
            forall|j: int| 0 <= j < i ==> docs@[j].nsid@ != nsid@,
        decreases docs.len() - i,
    {
        if str_eq(docs[i].nsid, nsid) {
            proof { lemma_doc_index(docs@, nsid@, 0); }
            return Some(docs[i]);
        }
        i = i + 1;
    }
    proof { lemma_doc_index(docs@, nsid@, 0); }
    None
}

/// The raw upstream documents followed by the overlay: the set the rpg
/// schemas are seen as.
pub fn combined(raw: &[LexiconDoc], overlay: &[LexiconDoc]) -> (r: Vec<LexiconDoc>)
    ensures
        r@ == raw@ + overlay@,
{
    let mut r = iter(raw);
    let mut i: usize = 0;
    while i < overlay.len()
        invariant
            i <= overlay.len(),
            r@ == raw@ + overlay@.take(i as int),
        decreases overlay.len() - i,
    {
        r.push(overlay[i]);
        assert(raw@ + overlay@.take(i + 1) =~= (raw@ + overlay@.take(i as int)).push(overlay@[i as int]));
        i = i + 1;
    }
    assert(overlay@.take(overlay.len() as int) =~= overlay@);
    r
}

/// The raw upstream documents of the rpg schema set (`raw` and `overlay`).
pub fn iter_raw(raw: &[LexiconDoc], overlay: &[LexiconDoc]) -> (r: Vec<LexiconDoc>)
    ensures
        r@ == raw@,
{
    iter(raw)
}

/// The overlay documents of the rpg schema set (`raw` and `overlay`).
pub fn iter_overlay(raw: &[LexiconDoc], overlay: &[LexiconDoc]) -> (r: Vec<LexiconDoc>)
    ensures
        r@ == overlay@,
{
    iter(overlay)
}

/// All example records of a registry, in its order.
pub fn iter_samples(samples: &[SampleRecord]) -> (r: Vec<SampleRecord>)
    ensures
        r@ == samples@,
{
    let mut r: Vec<SampleRecord> = Vec::new();
    let mut i: usize = 0;
    while i < samples.len()
        invariant
            i <= samples.len(),
            r@ == samples@.take(i as int),
        decreases samples.len() - i,
    {
        r.push(samples[i]);
        assert(samples@.take(i + 1) =~= samples@.take(i as int).push(samples@[i as int]));
        i = i + 1;
    }
    assert(samples@.take(samples.len() as int) =~= samples@);
    r
}

/// The first example record of a registry with file name `file_name`.
pub fn get_sample(samples: &[SampleRecord], file_name: &str) -> (r: Option<SampleRecord>)
    ensures
        r is Some <==> sample_index(samples@, file_name@, 0) is Some,
        r matches Some(s) ==> s == samples@[sample_index(samples@, file_name@, 0)->0],
{
    let mut i: usize = 0;
    while i < samples.len()
        invariant
            i <= samples.len(),
            forall|j: int| 0 <= j < i ==> samples@[j].file_name@ != file_name@,
        decreases samples.len() - i,
    {
        if str_eq(samples[i].file_name, file_name) {
            proof { lemma_sample_index(samples@, file_name@, 0); }
            return Some(samples[i]);
        }
        i = i + 1;
    }
    proof { lemma_sample_index(samples@, file_name@, 0); }
    None
}

/// A document found in the combined view is found in the raw documents or,
/// failing that, in the overlay: the raw upstream set shadows the overlay.
pub proof fn law_combined_lookup(raw: Seq<LexiconDoc>, overlay: Seq<LexiconDoc>, nsid: Seq<char>)
    ensures
        doc_index(raw, nsid, 0) matches Some(k) ==> doc_index(raw + overlay, nsid, 0) == Some(k),
        doc_index(raw, nsid, 0) is None ==> match doc_index(overlay, nsid, 0) {
            Some(k) => doc_index(raw + overlay, nsid, 0) == Some(raw.len() + k),
            None => doc_index(raw + overlay, nsid, 0) is None,
        },
{
    let all = raw + overlay;
    lemma_doc_index(raw, nsid, 0);
    lemma_doc_index(overlay, nsid, 0);
    lemma_doc_index(all, nsid, 0);
    if let Some(k) = doc_index(raw, nsid, 0) {
        assert(all[k] == raw[k]);
        if let Some(m) = doc_index(all, nsid, 0) {
            if m < k {
                assert(all[m] == raw[m]);
            }
        }
    } else {
        match doc_index(overlay, nsid, 0) {
            Some(k) => {
                assert(all[raw.len() + k] == overlay[k]);
                if let Some(m) = doc_index(all, nsid, 0) {
                    if m < raw.len() {
                        assert(all[m] == raw[m]);
                    } else if m < raw.len() + k {
                        assert(all[m] == overlay[m - raw.len()]);
                    }
                }
            },
            None => {
                if let Some(m) = doc_index(all, nsid, 0) {
                    if m < raw.len() {
                        assert(all[m] == raw[m]);
                    } else {
                        assert(all[m] == overlay[m - raw.len()]);
                    }
                }
            },
        }
    }
}


// ---------------------------------------------------------------------------
// The registries' catalogs: which documents and examples each one holds and
// the files they live in (under its directory), without their JSON bodies.

/// A lexicon a registry holds: its NSID and its file name.
#[derive(Debug, Clone, Copy, PartialEq, Eq)]
pub struct LexiconEntry {
    pub nsid: &'static str,
    pub file_name: &'static str,
}

/// An example record a registry holds: its file name and description.
#[derive(Debug, Clone, Copy, PartialEq, Eq)]
pub struct SampleEntry {
    pub file_name: &'static str,
    pub description: &'static str,
}

/// The views of lexicon entries.
pub open spec fn lexicon_views(t: Seq<LexiconEntry>) -> Seq<(Seq<char>, Seq<char>)> {
    t.map_values(|e: LexiconEntry| (e.nsid@, e.file_name@))
}

/// The views of example entries.
pub open spec fn sample_views(t: Seq<SampleEntry>) -> Seq<(Seq<char>, Seq<char>)> {
    t.map_values(|e: SampleEntry| (e.file_name@, e.description@))
}

/// The first entry of `table` with NSID `nsid`.
pub fn find_lexicon(table: &Vec<LexiconEntry>, nsid: &str) -> (r: Option<LexiconEntry>)
    ensures
        r is Some <==> exists|i: int| 0 <= i < table.len() && #[trigger] table@[i].nsid@ == nsid@,
        r matches Some(e) ==> e.nsid@ == nsid@ && exists|i: int| 0 <= i < table.len() && table@[i] == e,
{
    let mut i: usize = 0;
    while i < table.len()
        invariant
            i <= table.len(),
            forall|j: int| 0 <= j < i ==> #[trigger] table@[j].nsid@ != nsid@,
        decreases table.len() - i,
    {
        if str_eq(table[i].nsid, nsid) {
            return Some(table[i]);
        }
        i = i + 1;
    }
    None
}

/// The first entry of `table` with file name `file_name`.
pub fn find_sample(table: &Vec<SampleEntry>, file_name: &str) -> (r: Option<SampleEntry>)
    ensures
        r is Some <==> exists|i: int| 0 <= i < table.len() && #[trigger] table@[i].file_name@ == file_name@,
        r matches Some(e) ==> e.file_name@ == file_name@ && exists|i: int| 0 <= i < table.len() && table@[i] == e,
{
    let mut i: usize = 0;
    while i < table.len()
        invariant
            i <= table.len(),
            forall|j: int| 0 <= j < i ==> #[trigger] table@[j].file_name@ != file_name@,
        decreases table.len() - i,
    {
        if str_eq(table[i].file_name, file_name) {
            return Some(table[i]);
        }
        i = i + 1;
    }
    None
}

/// The lexicons of the `at.telluri.*` registry with their file names, in the registry's order.
pub open spec fn schema_lexicon_table() -> Seq<(Seq<char>, Seq<char>)> {
    seq![
        ("at.telluri.act.enervate"@, "at.telluri.act.enervate.json"@),
        ("at.telluri.act.meditate"@, "at.telluri.act.meditate.json"@),
        ("at.telluri.act.tassilize"@, "at.telluri.act.tassilize.json"@),
        ("at.telluri.node"@, "at.telluri.node.json"@),
        ("at.telluri.resonance"@, "at.telluri.resonance.json"@)
    ]
}

/// The entries of the `at.telluri.*` registry, in order.
pub fn schema_lexicons() -> (r: Vec<LexiconEntry>)
    ensures
        lexicon_views(r@) == schema_lexicon_table(),
{
    let r = vec![
        LexiconEntry { nsid: "at.telluri.act.enervate", file_name: "at.telluri.act.enervate.json" },
        LexiconEntry { nsid: "at.telluri.act.meditate", file_name: "at.telluri.act.meditate.json" },
        LexiconEntry { nsid: "at.telluri.act.tassilize", file_name: "at.telluri.act.tassilize.json" },
        LexiconEntry { nsid: "at.telluri.node", file_name: "at.telluri.node.json" },
        LexiconEntry { nsid: "at.telluri.resonance", file_name: "at.telluri.resonance.json" },
    ];
    assert(lexicon_views(r@) =~= schema_lexicon_table());
    r
}

/// The entry of the `at.telluri.*` registry with NSID `nsid`, when there is one.
pub fn schema_lexicon(nsid: &str) -> (r: Option<LexiconEntry>)
    ensures
        r is Some <==> exists|i: int| 0 <= i < schema_lexicon_table().len() && #[trigger] schema_lexicon_table()[i].0 == nsid@,
        r matches Some(e) ==> e.nsid@ == nsid@ && schema_lexicon_table().contains((e.nsid@, e.file_name@)),
{
    let t = schema_lexicons();
    let r = find_lexicon(&t, nsid);
    proof {
        if exists|i: int| 0 <= i < schema_lexicon_table().len() && #[trigger] schema_lexicon_table()[i].0 == nsid@ {
            let i = choose|i: int| 0 <= i < schema_lexicon_table().len() && #[trigger] schema_lexicon_table()[i].0 == nsid@;
            assert(lexicon_views(t@)[i] == schema_lexicon_table()[i]);
        }
        if let Some(e) = r {
            let i = choose|i: int| 0 <= i < t@.len() && t@[i] == e;
            assert(lexicon_views(t@)[i] == schema_lexicon_table()[i]);
            assert(schema_lexicon_table()[i].0 == nsid@);
            assert(schema_lexicon_table()[i] == (e.nsid@, e.file_name@));
        }
    }
    r
}

/// The lexicons of the `com.superbfowle.tass.*` corpus with their file names, in the registry's order.
pub open spec fn corpus_lexicon_table() -> Seq<(Seq<char>, Seq<char>)> {
    seq![
        ("com.superbfowle.tass.enervate"@, "com.superbfowle.tass.enervate.json"@),
        ("com.superbfowle.tass.form"@, "com.superbfowle.tass.form.json"@),
        ("com.superbfowle.tass.meditate"@, "com.superbfowle.tass.meditate.json"@),
        ("com.superbfowle.tass.node"@, "com.superbfowle.tass.node.json"@),
        ("com.superbfowle.tass.resonance"@, "com.superbfowle.tass.resonance.json"@),
        ("com.superbfowle.tass.tassilize"@, "com.superbfowle.tass.tassilize.json"@)
    ]
}

/// The entries of the `com.superbfowle.tass.*` corpus, in order.
pub fn corpus_lexicons() -> (r: Vec<LexiconEntry>)
    ensures
        lexicon_views(r@) == corpus_lexicon_table(),
{
    let r = vec![
        LexiconEntry { nsid: "com.superbfowle.tass.enervate", file_name: "com.superbfowle.tass.enervate.json" },
        LexiconEntry { nsid: "com.superbfowle.tass.form", file_name: "com.superbfowle.tass.form.json" },
        LexiconEntry { nsid: "com.superbfowle.tass.meditate", file_name: "com.superbfowle.tass.meditate.json" },
        LexiconEntry { nsid: "com.superbfowle.tass.node", file_name: "com.superbfowle.tass.node.json" },
        LexiconEntry { nsid: "com.superbfowle.tass.resonance", file_name: "com.superbfowle.tass.resonance.json" },
        LexiconEntry { nsid: "com.superbfowle.tass.tassilize", file_name: "com.superbfowle.tass.tassilize.json" },
    ];
    assert(lexicon_views(r@) =~= corpus_lexicon_table());
    r
}

/// The entry of the `com.superbfowle.tass.*` corpus with NSID `nsid`, when there is one.
pub fn corpus_lexicon(nsid: &str) -> (r: Option<LexiconEntry>)
    ensures
        r is Some <==> exists|i: int| 0 <= i < corpus_lexicon_table().len() && #[trigger] corpus_lexicon_table()[i].0 == nsid@,
        r matches Some(e) ==> e.nsid@ == nsid@ && corpus_lexicon_table().contains((e.nsid@, e.file_name@)),
{
    let t = corpus_lexicons();
    let r = find_lexicon(&t, nsid);
    proof {
        if exists|i: int| 0 <= i < corpus_lexicon_table().len() && #[trigger] corpus_lexicon_table()[i].0 == nsid@ {
            let i = choose|i: int| 0 <= i < corpus_lexicon_table().len() && #[trigger] corpus_lexicon_table()[i].0 == nsid@;
            assert(lexicon_views(t@)[i] == corpus_lexicon_table()[i]);
        }
        if let Some(e) = r {
            let i = choose|i: int| 0 <= i < t@.len() && t@[i] == e;
            assert(lexicon_views(t@)[i] == corpus_lexicon_table()[i]);
            assert(corpus_lexicon_table()[i].0 == nsid@);
            assert(corpus_lexicon_table()[i] == (e.nsid@, e.file_name@));
        }
    }
    r
}

/// The lexicons of the raw upstream rpg registry (its overlay holds none) with their file names, in the registry's order.
pub open spec fn rpg_lexicon_table() -> Seq<(Seq<char>, Seq<char>)> {
    seq![
        ("actor.rpg.master"@, "actor.rpg.master.json"@),
        ("actor.rpg.sprite"@, "actor.rpg.sprite.json"@),
        ("actor.rpg.stats"@, "actor.rpg.stats.json"@),
        ("equipment.rpg.give"@, "equipment.rpg.give.json"@),
        ("equipment.rpg.item"@, "equipment.rpg.item.json"@)
    ]
}

/// The entries of the raw upstream rpg registry (its overlay holds none), in order.
pub fn rpg_lexicons() -> (r: Vec<LexiconEntry>)
    ensures
        lexicon_views(r@) == rpg_lexicon_table(),
{
    let r = vec![
        LexiconEntry { nsid: "actor.rpg.master", file_name: "actor.rpg.master.json" },
        LexiconEntry { nsid: "actor.rpg.sprite", file_name: "actor.rpg.sprite.json" },
        LexiconEntry { nsid: "actor.rpg.stats", file_name: "actor.rpg.stats.json" },
        LexiconEntry { nsid: "equipment.rpg.give", file_name: "equipment.rpg.give.json" },
        LexiconEntry { nsid: "equipment.rpg.item", file_name: "equipment.rpg.item.json" },
    ];
    assert(lexicon_views(r@) =~= rpg_lexicon_table());
    r
}

/// The entry of the raw upstream rpg registry (its overlay holds none) with NSID `nsid`, when there is one.
pub fn rpg_lexicon(nsid: &str) -> (r: Option<LexiconEntry>)
    ensures
        r is Some <==> exists|i: int| 0 <= i < rpg_lexicon_table().len() && #[trigger] rpg_lexicon_table()[i].0 == nsid@,
        r matches Some(e) ==> e.nsid@ == nsid@ && rpg_lexicon_table().contains((e.nsid@, e.file_name@)),
{
    let t = rpg_lexicons();
    let r = find_lexicon(&t, nsid);
    proof {
        if exists|i: int| 0 <= i < rpg_lexicon_table().len() && #[trigger] rpg_lexicon_table()[i].0 == nsid@ {
            let i = choose|i: int| 0 <= i < rpg_lexicon_table().len() && #[trigger] rpg_lexicon_table()[i].0 == nsid@;
            assert(lexicon_views(t@)[i] == rpg_lexicon_table()[i]);
        }
        if let Some(e) = r {
            let i = choose|i: int| 0 <= i < t@.len() && t@[i] == e;
            assert(lexicon_views(t@)[i] == rpg_lexicon_table()[i]);
            assert(rpg_lexicon_table()[i].0 == nsid@);
            assert(rpg_lexicon_table()[i] == (e.nsid@, e.file_name@));
        }
    }
    r
}

/// The example files of the corpus, with their descriptions, in the registry's
/// order.
pub open spec fn corpus_sample_table() -> Seq<(Seq<char>, Seq<char>)> {
    seq![
        ("enervate-spend.example.json"@, "Spending 2q from the silver-coin tass to fuel a coincidence."@),
        ("meditate-dawn-pull.example.json"@, "Meditating at the Crystal Spring, drawing 3q into the mage's pattern."@),
        ("node-crystal-spring.example.json"@, "A rating-3 Node with dynamic resonance and a default ambient pool (15q)."@),
        ("tassilize-silver-coin.example.json"@, "Genesis record: 5q crystallized at the Crystal Spring node as a silver coin."@)
    ]
}

/// The example entries of the corpus, in order.
pub fn corpus_samples() -> (r: Vec<SampleEntry>)
    ensures
        sample_views(r@) == corpus_sample_table(),
{
    let r = vec![
        SampleEntry {
            file_name: "enervate-spend.example.json",
            description: "Spending 2q from the silver-coin tass to fuel a coincidence.",
        },
        SampleEntry {
            file_name: "meditate-dawn-pull.example.json",
            description: "Meditating at the Crystal Spring, drawing 3q into the mage's pattern.",
        },
        SampleEntry {
            file_name: "node-crystal-spring.example.json",
            description: "A rating-3 Node with dynamic resonance and a default ambient pool (15q).",
        },
        SampleEntry {
            file_name: "tassilize-silver-coin.example.json",
            description: "Genesis record: 5q crystallized at the Crystal Spring node as a silver coin.",
        },
    ];
    assert(sample_views(r@) =~= corpus_sample_table());
    r
}

/// The example entry of the corpus with file name `file_name`, when there is one.
pub fn corpus_sample(file_name: &str) -> (r: Option<SampleEntry>)
    ensures
        r is Some <==> exists|i: int| 0 <= i < corpus_sample_table().len() && #[trigger] corpus_sample_table()[i].0 == file_name@,
        r matches Some(e) ==> e.file_name@ == file_name@ && corpus_sample_table().contains((e.file_name@, e.description@)),
{
    let t = corpus_samples();
    let r = find_sample(&t, file_name);
    proof {
        if exists|i: int| 0 <= i < corpus_sample_table().len() && #[trigger] corpus_sample_table()[i].0 == file_name@ {
            let i = choose|i: int| 0 <= i < corpus_sample_table().len() && #[trigger] corpus_sample_table()[i].0 == file_name@;
            assert(sample_views(t@)[i] == corpus_sample_table()[i]);
        }
        if let Some(e) = r {
            let i = choose|i: int| 0 <= i < t@.len() && t@[i] == e;
            assert(sample_views(t@)[i] == corpus_sample_table()[i]);
            assert(corpus_sample_table()[i].0 == file_name@);
            assert(corpus_sample_table()[i] == (e.file_name@, e.description@));
        }
    }
    r
}

/// The example files of the `at.telluri.*` examples, with their descriptions, in the registry's
/// order.
pub open spec fn tass_sample_table() -> Seq<(Seq<char>, Seq<char>)> {
    seq![
        ("enervate-spend.example.json"@, "Spending 2q from the silver-coin tass to fuel a coincidence."@),
        ("meditate-dawn-pull.example.json"@, "Meditating at the Crystal Spring, drawing 3q into the mage's pattern."@),
        ("node-crystal-spring.example.json"@, "A rating-3 Node with dynamic resonance and a default ambient pool (15q)."@),
        ("tassilize-silver-coin.example.json"@, "Genesis record: 5q crystallized at the Crystal Spring node as a silver coin."@)
    ]
}

/// The example entries of the `at.telluri.*` examples, in order.
pub fn tass_samples() -> (r: Vec<SampleEntry>)
    ensures
        sample_views(r@) == tass_sample_table(),
{
    let r = vec![
        SampleEntry {
            file_name: "enervate-spend.example.json",
            description: "Spending 2q from the silver-coin tass to fuel a coincidence.",
        },
        SampleEntry {
            file_name: "meditate-dawn-pull.example.json",
            description: "Meditating at the Crystal Spring, drawing 3q into the mage's pattern.",
        },
        SampleEntry {
            file_name: "node-crystal-spring.example.json",
            description: "A rating-3 Node with dynamic resonance and a default ambient pool (15q).",
        },
        SampleEntry {
            file_name: "tassilize-silver-coin.example.json",
            description: "Genesis record: 5q crystallized at the Crystal Spring node as a silver coin.",
        },
    ];
    assert(sample_views(r@) =~= tass_sample_table());
    r
}

/// The example entry of the `at.telluri.*` examples with file name `file_name`, when there is one.
pub fn tass_sample(file_name: &str) -> (r: Option<SampleEntry>)
    ensures
        r is Some <==> exists|i: int| 0 <= i < tass_sample_table().len() && #[trigger] tass_sample_table()[i].0 == file_name@,
        r matches Some(e) ==> e.file_name@ == file_name@ && tass_sample_table().contains((e.file_name@, e.description@)),
{
    let t = tass_samples();
    let r = find_sample(&t, file_name);
    proof {
        if exists|i: int| 0 <= i < tass_sample_table().len() && #[trigger] tass_sample_table()[i].0 == file_name@ {
            let i = choose|i: int| 0 <= i < tass_sample_table().len() && #[trigger] tass_sample_table()[i].0 == file_name@;
            assert(sample_views(t@)[i] == tass_sample_table()[i]);
        }
        if let Some(e) = r {
            let i = choose|i: int| 0 <= i < t@.len() && t@[i] == e;
            assert(sample_views(t@)[i] == tass_sample_table()[i]);
            assert(tass_sample_table()[i].0 == file_name@);
            assert(tass_sample_table()[i] == (e.file_name@, e.description@));
        }
    }
    r
}

/// The example files of the rpg examples, with their descriptions, in the registry's
/// order.
pub open spec fn rpg_sample_table() -> Seq<(Seq<char>, Seq<char>)> {
    seq![
        ("equipment-item.example.json"@, "A player's owned item, accepted from a provider's give record."@),
        ("mage-stats.example.json"@, "A Mage: the Ascension character sheet (actor.rpg.stats/mage)."@)
    ]
}

/// The example entries of the rpg examples, in order.
pub fn rpg_samples() -> (r: Vec<SampleEntry>)
    ensures
        sample_views(r@) == rpg_sample_table(),
{
    let r = vec![
        SampleEntry {
            file_name: "equipment-item.example.json",
            description: "A player's owned item, accepted from a provider's give record.",
        },
        SampleEntry {
            file_name: "mage-stats.example.json",
            description: "A Mage: the Ascension character sheet (actor.rpg.stats/mage).",
        },
    ];
    assert(sample_views(r@) =~= rpg_sample_table());
    r
}

/// The example entry of the rpg examples with file name `file_name`, when there is one.
pub fn rpg_sample(file_name: &str) -> (r: Option<SampleEntry>)
    ensures
        r is Some <==> exists|i: int| 0 <= i < rpg_sample_table().len() && #[trigger] rpg_sample_table()[i].0 == file_name@,
        r matches Some(e) ==> e.file_name@ == file_name@ && rpg_sample_table().contains((e.file_name@, e.description@)),
{
    let t = rpg_samples();
    let r = find_sample(&t, file_name);
    proof {
        if exists|i: int| 0 <= i < rpg_sample_table().len() && #[trigger] rpg_sample_table()[i].0 == file_name@ {
            let i = choose|i: int| 0 <= i < rpg_sample_table().len() && #[trigger] rpg_sample_table()[i].0 == file_name@;
            assert(sample_views(t@)[i] == rpg_sample_table()[i]);
        }
        if let Some(e) = r {
            let i = choose|i: int| 0 <= i < t@.len() && t@[i] == e;
            assert(sample_views(t@)[i] == rpg_sample_table()[i]);
            assert(rpg_sample_table()[i].0 == file_name@);
            assert(rpg_sample_table()[i] == (e.file_name@, e.description@));
        }
    }
    r
}

} // verus!
