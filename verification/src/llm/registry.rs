//! The registry of local GGUF model files and lookups in it.
use vstd::prelude::*;

use crate::paths::{extension_of, file_name_of, file_stem_of, last_part, name_extension, name_stem, opt_text, plain_path};
use crate::sort::{lemma_lex_total, lemma_lex_trans, lex_le, sort_spec, stable_sort, str_lex_le, SortKey};
use crate::text::{
    chars_of, contains_chars, eq_ascii_nocase, eq_ignore_ascii_case, lowercase, push_str,
    seq_contains, to_lowercase,
};

verus! {

#[derive(Debug, Clone, PartialEq, Eq)]
pub enum ModelSource {
    Local,
    HuggingFace { repo: String },
}

#[derive(Debug, Clone, PartialEq, Eq, Structural)]
pub enum ModelLoadStatus {
    Available,
    Loaded,
}

/// One model file found on disk; `path` is the file's path as text.
#[derive(Debug, Clone, PartialEq, Eq)]
pub struct ModelRecord {
    pub id: String,
    pub path: String,
    pub size_bytes: u64,
    pub source: ModelSource,
    pub status: ModelLoadStatus,
}

/// The models found under a directory, ordered by id.
#[derive(Debug)]
pub struct ModelRegistry {
    pub models: Vec<ModelRecord>,
}

/// Why a lookup found no single model.
#[derive(Debug, Clone, PartialEq, Eq)]
pub enum FindError {
    /// Nothing matched the query.
    NoMatch { query: String },
    /// Several models matched partially; their ids, in registry order.
    Ambiguous { query: String, ids: Vec<String> },
}

/// The names a model is known by: its id and the file name of its path
/// (when the path has one), each as written and lower-cased.
pub struct MatchKey {
    pub id: String,
    pub file_name: Option<String>,
    pub id_lower: String,
    pub file_name_lower: Option<String>,
}

/// The outcome of matching a query against the keys, by position.
#[derive(Debug, Clone, PartialEq, Eq)]
pub enum MatchOutcome {
    Found(usize),
    NoMatch,
    Ambiguous(Vec<usize>),
}

/// The key names the query exactly, ignoring ASCII case.
pub open spec fn exact_match(k: MatchKey, query: Seq<char>) -> bool {
    eq_ascii_nocase(k.id@, query) || (k.file_name matches Some(n) && eq_ascii_nocase(n@, query))
}

/// The key's lower-cased names contain the lower-cased query.
pub open spec fn partial_match(k: MatchKey, query_lower: Seq<char>) -> bool {
    seq_contains(k.id_lower@, query_lower) || (k.file_name_lower matches Some(n) && seq_contains(
        n@,
        query_lower,
    ))
}

/// The positions, in order, of the keys among the first `n` that match partially.
pub open spec fn partial_positions(keys: Seq<MatchKey>, query_lower: Seq<char>, n: nat) -> Seq<usize>
    decreases n,
{
    if n == 0 {
        Seq::empty()
    } else {
        let prev = partial_positions(keys, query_lower, (n - 1) as nat);
        if partial_match(keys[n - 1], query_lower) {
            prev.push((n - 1) as usize)
        } else {
            prev
        }
    }
}

/// Partial-match positions lie below `n`, and there is one whenever a key
/// below `n` matches partially.
pub proof fn lemma_partial_positions(keys: Seq<MatchKey>, query_lower: Seq<char>, n: nat)
    requires
        n <= keys.len(),
    ensures
        forall|j: int|
            0 <= j < partial_positions(keys, query_lower, n).len() ==> (#[trigger] partial_positions(
                keys,
                query_lower,
                n,
            )[j]) < n,
        (exists|i: int| 0 <= i < n && partial_match(#[trigger] keys[i], query_lower)) ==> partial_positions(
            keys,
            query_lower,
            n,
        ).len() > 0,
    decreases n,
{
    if n > 0 {
        lemma_partial_positions(keys, query_lower, (n - 1) as nat);
        if exists|i: int| 0 <= i < n && partial_match(#[trigger] keys[i], query_lower) {
            let i = choose|i: int| 0 <= i < n && partial_match(#[trigger] keys[i], query_lower);
            if i < n - 1 {
                assert(0 <= i < n - 1 && partial_match(keys[i], query_lower));
            }
        }
    }
}

/// Position `i` holds the first exact match.
pub open spec fn first_exact(keys: Seq<MatchKey>, query: Seq<char>, i: int) -> bool {
    0 <= i < keys.len() && exact_match(keys[i], query) && forall|j: int|
        0 <= j < i ==> !exact_match(keys[j], query)
}

/// What a lookup selects: the first exact match; else the single partial
/// match; else nothing, or all partial matches when there are several.
pub open spec fn selects(
    keys: Seq<MatchKey>,
    query: Seq<char>,
    query_lower: Seq<char>,
    r: MatchOutcome,
) -> bool {
    if exists|i: int| 0 <= i < keys.len() && exact_match(keys[i], query) {
        r matches MatchOutcome::Found(i) && first_exact(keys, query, i as int)
    } else {
        let ps = partial_positions(keys, query_lower, keys.len());
        if ps.len() == 1 {
            r == MatchOutcome::Found(ps[0])
        } else if ps.len() == 0 {
            r == MatchOutcome::NoMatch
        } else {
            r matches MatchOutcome::Ambiguous(v) && v@ == ps
        }
    }
}

/// Whether a key matches the query exactly (ASCII case-insensitively).
fn key_matches_exactly(k: &MatchKey, query: &[char]) -> (r: bool)
    ensures
        r == exact_match(*k, query@),
{
    let id = chars_of(k.id.as_str());
    if eq_ignore_ascii_case(&id, query) {
        return true;
    }
    match &k.file_name {
        Some(n) => {
            let name = chars_of(n.as_str());
            eq_ignore_ascii_case(&name, query)
        },
        None => false,
    }
}

/// Whether a key's lower-cased names contain the lower-cased query.
fn key_matches_partially(k: &MatchKey, query_lower: &[char]) -> (r: bool)
    ensures
        r == partial_match(*k, query_lower@),
{
    let id = chars_of(k.id_lower.as_str());
    if contains_chars(&id, query_lower) {
        return true;
    }
    match &k.file_name_lower {
        Some(n) => {
            let name = chars_of(n.as_str());
            contains_chars(&name, query_lower)
        },
        None => false,
    }
}

/// Match a query against the models' keys (`query_lower` is the query's
/// lower case).
pub fn select_match(keys: &[MatchKey], query: &str, query_lower: &str) -> (r: MatchOutcome)
    ensures
        selects(keys@, query@, query_lower@, r),
{
    let q = chars_of(query);
    let ql = chars_of(query_lower);
    let mut i: usize = 0;
    while i < keys.len()
        invariant
            q@ == query@,
            i <= keys@.len(),
            forall|j: int| 0 <= j < i ==> !exact_match(keys@[j], query@),
        decreases keys@.len() - i,
    {
        if key_matches_exactly(&keys[i], &q) {
            assert(first_exact(keys@, query@, i as int));
            return MatchOutcome::Found(i);
        }
        i = i + 1;
    }
    let mut ps: Vec<usize> = Vec::new();
    let mut k: usize = 0;
    while k < keys.len()
        invariant
            ql@ == query_lower@,
            k <= keys@.len(),
            ps@ == partial_positions(keys@, query_lower@, k as nat),
        decreases keys@.len() - k,
    {
        if key_matches_partially(&keys[k], &ql) {
            ps.push(k);
        }
        k = k + 1;
    }
    if ps.len() == 1 {
        MatchOutcome::Found(ps[0])
    } else if ps.len() == 0 {
        MatchOutcome::NoMatch
    } else {
        MatchOutcome::Ambiguous(ps)
    }
}

/// `k` holds the names of record `m`: its id and the id's lower case, and
/// the file name std reads from its path with that name's lower case (for a
/// plain path, its last part; none for an empty path).
pub open spec fn key_of(m: ModelRecord, k: MatchKey) -> bool {
    &&& k.id@ == m.id@
    &&& k.id_lower@ == lowercase(m.id@)
    &&& match k.file_name {
        Some(n) => k.file_name_lower matches Some(nl) && nl@ == lowercase(n@),
        None => k.file_name_lower is None,
    }
    &&& plain_path(m.path@) ==> opt_text(k.file_name) == Some(last_part(m.path@))
    &&& m.path@.len() == 0 ==> k.file_name is None
}

/// `keys` holds the names of `records`, position by position.
pub open spec fn keys_of(records: Seq<ModelRecord>, keys: Seq<MatchKey>) -> bool {
    keys.len() == records.len() && forall|i: int| 0 <= i < keys.len() ==> key_of(records[i], #[trigger] keys[i])
}

/// What a lookup of `query` answers for a matching outcome: the record at the
/// found position; no match; or, when ambiguous, the ids at the matching
/// positions, in order.
pub open spec fn answers(
    records: Seq<ModelRecord>,
    query: Seq<char>,
    outcome: MatchOutcome,
    r: Result<&ModelRecord, FindError>,
) -> bool {
    match outcome {
        MatchOutcome::Found(i) => i < records.len() && (r matches Ok(m) && *m == records[i as int]),
        MatchOutcome::NoMatch => r matches Err(FindError::NoMatch { query: q }) && q@ == query,
        MatchOutcome::Ambiguous(ps) => r matches Err(FindError::Ambiguous { query: q, ids }) && q@
            == query && ids@.len() == ps@.len() && (forall|j: int|
            0 <= j < ps@.len() ==> ps@[j] < records.len() && (#[trigger] ids@[j])@ == records[ps@[j] as int].id@),
    }
}

/// An extension that marks a GGUF file: `gguf` in any ASCII case.
pub open spec fn is_gguf_extension(ext: Option<String>) -> bool {
    ext matches Some(e) && eq_ascii_nocase(e@, "gguf"@)
}

/// Whether an extension marks a GGUF file.
pub fn gguf_extension(ext: &Option<String>) -> (r: bool)
    ensures
        r == is_gguf_extension(*ext),
{
    match ext {
        Some(e) => {
            let chars = chars_of(e.as_str());
            let gguf = chars_of("gguf");
            eq_ignore_ascii_case(&chars, &gguf)
        },
        None => false,
    }
}

/// Whether the path names a GGUF file (by its extension, in any ASCII case);
/// the extension itself comes from the platform's path syntax.
pub fn is_gguf_file(path: &str) -> (r: bool)
    ensures
        plain_path(path@) ==> r == (name_extension(last_part(path@)) matches Some(e)
            && eq_ascii_nocase(e, "gguf"@)),
        path@.len() == 0 ==> !r,
{
    let ext = extension_of(path);
    gguf_extension(&ext)
}

/// The model id for a file stem: the stem itself, or `unknown-model` when
/// the path has none.
pub fn model_id_from_stem(stem: Option<String>) -> (r: String)
    ensures
        r@ == match stem {
            Some(s) => s@,
            None => "unknown-model"@,
        },
{
    match stem {
        Some(s) => s,
        None => {
            let mut r = String::new();
            push_str(&mut r, "unknown-model");
            r
        },
    }
}

/// The model id for a model file: its file stem, or `unknown-model`.
pub fn model_id_from_path(path: &str) -> (r: String)
    ensures
        plain_path(path@) ==> r@ == name_stem(last_part(path@)),
        path@.len() == 0 ==> r@ == "unknown-model"@,
{
    model_id_from_stem(file_stem_of(path))
}

impl SortKey for ModelRecord {
    open spec fn le_spec(&self, other: &Self) -> bool {
        lex_le(self.id@, other.id@)
    }

    proof fn lemma_le_total(a: &Self, b: &Self) {
        lemma_lex_total(a.id@, b.id@);
    }

    proof fn lemma_le_trans(a: &Self, b: &Self, c: &Self) {
        lemma_lex_trans(a.id@, b.id@, c.id@);
    }

    fn key_le(&self, other: &Self) -> (r: bool) {
        str_lex_le(self.id.as_str(), other.id.as_str())
    }
}

impl ModelRegistry {
    /// A registry of the given models, ordered by id (models with equal ids
    /// keep their order).
    pub fn from_records(records: Vec<ModelRecord>) -> (r: Self)
        ensures
            r.models@ == sort_spec(records@),
    {
        ModelRegistry { models: stable_sort(records) }
    }
}

impl ModelRegistry {
    pub open spec fn records(&self) -> Seq<ModelRecord> {
        self.models@
    }

    /// The models, in registry order.
    pub fn models(&self) -> (r: &[ModelRecord])
        ensures
            r@ == self.records(),
    {
        self.models.as_slice()
    }

    /// Find a model by id or file name: first an exact match ignoring ASCII
    /// case, else the single model whose lower-cased id or file name
    /// contains the lower-cased query. A found model is always one of the
    /// registry's; a model whose id equals the query (ignoring ASCII case)
    /// is always found; `NoMatch` means no id even contains the query. In
    /// full: the answer for what `select_match` selects among the records'
    /// names.
    pub fn find(&self, query: &str) -> (r: Result<&ModelRecord, FindError>)
        ensures
            exists|keys: Seq<MatchKey>, outcome: MatchOutcome|
                #![trigger keys_of(self.records(), keys), selects(keys, query@, lowercase(query@), outcome)]
                keys_of(self.records(), keys) && selects(keys, query@, lowercase(query@), outcome)
                    && answers(self.records(), query@, outcome, r),
            r matches Ok(m) ==> exists|i: int| 0 <= i < self.records().len() && self.records()[i]
                == *m,
            (exists|i: int|
                0 <= i < self.records().len() && eq_ascii_nocase(
                    #[trigger] self.records()[i].id@,
                    query@,
                )) ==> r is Ok,
            r matches Err(FindError::NoMatch { query: q }) ==> q@ == query@ && forall|i: int|
                0 <= i < self.records().len() ==> !seq_contains(
                    lowercase(#[trigger] self.records()[i].id@),
                    lowercase(query@),
                ),
            r matches Err(FindError::Ambiguous { query: q, ids }) ==> q@ == query@ && ids@.len()
                >= 2,
    {
        let query_lower = to_lowercase(query);
        let mut keys: Vec<MatchKey> = Vec::new();
        let mut i: usize = 0;
        while i < self.models.len()
            invariant
                i <= self.models@.len(),
                keys@.len() == i,
                forall|j: int| 0 <= j < i ==> key_of(self.models@[j], #[trigger] keys@[j]),
            decreases self.models@.len() - i,
        {
            let m = &self.models[i];
            let file_name = file_name_of(m.path.as_str());
            let file_name_lower = match &file_name {
                Some(n) => Some(to_lowercase(n.as_str())),
                None => None,
            };
            let mut id = String::new();
            push_str(&mut id, m.id.as_str());
            keys.push(MatchKey { id, file_name, id_lower: to_lowercase(m.id.as_str()), file_name_lower });
            i = i + 1;
        }
        let outcome = select_match(&keys, query, query_lower.as_str());
        proof {
            lemma_partial_positions(keys@, query_lower@, keys@.len());
            if exists|i: int|
                0 <= i < self.records().len() && eq_ascii_nocase(
                    #[trigger] self.records()[i].id@,
                    query@,
                ) {
                let i = choose|i: int|
                    0 <= i < self.records().len() && eq_ascii_nocase(
                        #[trigger] self.records()[i].id@,
                        query@,
                    );
                assert(exact_match(keys@[i], query@));
            }
            assert forall|i: int| 0 <= i < self.records().len() && !partial_match(keys@[i], query_lower@)
                implies !seq_contains(lowercase(#[trigger] self.records()[i].id@), lowercase(query@)) by {
                assert(keys@[i].id_lower@ == lowercase(self.models@[i].id@));
            }
        }
        let ghost out = outcome;
        proof {
            assert(keys_of(self.records(), keys@));
            assert(selects(keys@, query@, lowercase(query@), out));
        }
        let mut owned_query = String::new();
        push_str(&mut owned_query, query);
        match outcome {
            MatchOutcome::Found(k) => {
                if k < self.models.len() {
                    Ok(&self.models[k])
                } else {
                    Err(FindError::NoMatch { query: owned_query })
                }
            },
            MatchOutcome::NoMatch => Err(FindError::NoMatch { query: owned_query }),
            MatchOutcome::Ambiguous(ps) => {
                let mut ids: Vec<String> = Vec::new();
                let mut j: usize = 0;
                while j < ps.len()
                    invariant
                        j <= ps@.len(),
                        ids@.len() == j,
                        forall|t: int| 0 <= t < j ==> ps@[t] < self.models@.len() ==> (#[trigger] ids@[t])@
                            == self.models@[ps@[t] as int].id@,
                    decreases ps@.len() - j,
                {
                    let p = ps[j];
                    let mut id = String::new();
                    if p < self.models.len() {
                        push_str(&mut id, self.models[p].id.as_str());
                    }
                    ids.push(id);
                    j = j + 1;
                }
                Err(FindError::Ambiguous { query: owned_query, ids })
            },
        }
    }
}

} // verus!
