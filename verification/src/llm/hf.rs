//! Hugging Face model references, URLs, file choice and local paths for
//! GGUF downloads. The HTTP transfers themselves happen outside.
use vstd::prelude::*;

use vstd::string::StringSliceAdditionalSpecFns;

use crate::sort::{lemma_lex_total, lemma_lex_trans, lex_le, sort_spec, stable_sort, str_lex_le, SortKey};
use crate::text::{
    chars_of, dec, dec_string, hex_digit, push_char, push_str, seq_contains, contains_chars,
    string_from_chars, str_eq, lowercase, to_lowercase, seq_ends_with, ends_with_chars,
};

verus! {

/// A Hugging Face repository, `owner/repo`.
#[derive(Debug, Clone, PartialEq, Eq)]
pub struct HuggingFaceModelRef {
    pub owner: String,
    pub repo: String,
}

/// Why a Hugging Face request cannot be served.
#[derive(Debug, Clone, PartialEq, Eq)]
pub enum HfError {
    /// The text is not of the form `owner/repo`.
    InvalidRepoId { value: String },
    /// The requested file is not in the repository.
    FileNotFound { requested: String },
    /// The repository has no GGUF files.
    NoGgufFiles,
    /// The file name would leave the model directory or is empty.
    InvalidFilename { filename: String },
}

/// `s` holds `c` somewhere.
pub open spec fn has_char(s: Seq<char>, c: char) -> bool {
    exists|i: int| 0 <= i < s.len() && s[i] == c
}

/// `i` is the first position of `c` in `s`.
pub open spec fn first_of(s: Seq<char>, c: char, i: int) -> bool {
    0 <= i < s.len() && s[i] == c && forall|j: int| 0 <= j < i ==> s[j] != c
}

/// The owner and repository named by `owner/repo` text: split at the first
/// slash; both parts must be nonempty and the repository holds no slash.
pub open spec fn parsed_repo_id(s: Seq<char>) -> Option<(Seq<char>, Seq<char>)> {
    if has_char(s, '/') {
        let i = choose|i: int| first_of(s, '/', i);
        let owner = s.take(i);
        let repo = s.skip(i + 1);
        if owner.len() > 0 && repo.len() > 0 && !has_char(repo, '/') {
            Some((owner, repo))
        } else {
            None
        }
    } else {
        None
    }
}

/// A repository id written as `owner/repo` parses back to its owner and
/// repository, when both are nonempty and hold no slash.
pub proof fn lemma_repo_id_roundtrip(owner: Seq<char>, repo: Seq<char>)
    requires
        owner.len() > 0,
        repo.len() > 0,
        !has_char(owner, '/'),
        !has_char(repo, '/'),
    ensures
        parsed_repo_id(owner + "/"@ + repo) == Some((owner, repo)),
{
    reveal_strlit("/");
    let s = owner + "/"@ + repo;
    let k = owner.len() as int;
    assert(s[k] == '/');
    assert(first_of(s, '/', k)) by {
        assert forall|j: int| 0 <= j < k implies s[j] != '/' by {
            assert(s[j] == owner[j]);
        }
    }
    let i = choose|i: int| first_of(s, '/', i);
    assert(i == k) by {
        if i < k {
            assert(s[i] == owner[i]);
        }
    }
    assert(s.take(k) =~= owner);
    assert(s.skip(k + 1) =~= repo);
}

/// The first position of `c` in `cs`, if any.
fn find_char(cs: &[char], c: char) -> (r: Option<usize>)
    ensures
        match r {
            Some(i) => first_of(cs@, c, i as int),
            None => !has_char(cs@, c),
        },
{
    let mut i: usize = 0;
    while i < cs.len()
        invariant
            i <= cs@.len(),
            forall|j: int| 0 <= j < i ==> cs@[j] != c,
        decreases cs@.len() - i,
    {
        if cs[i] == c {
            return Some(i);
        }
        i = i + 1;
    }
    None
}

impl HuggingFaceModelRef {
    /// `owner/repo`.
    pub fn id(&self) -> (r: String)
        ensures
            r@ == self.owner@ + "/"@ + self.repo@,
    {
        let mut s = String::new();
        push_str(&mut s, self.owner.as_str());
        push_str(&mut s, "/");
        push_str(&mut s, self.repo.as_str());
        s
    }

    /// Parse `owner/repo`; anything else is an invalid repository id.
    pub fn parse_ref(value: &str) -> (r: Result<Self, HfError>)
        ensures
            match parsed_repo_id(value@) {
                Some((owner, repo)) => r matches Ok(m) && m.owner@ == owner && m.repo@ == repo,
                None => r matches Err(HfError::InvalidRepoId { value: v }) && v@ == value@,
            },
    {
        let cs = chars_of(value);
        match find_char(&cs, '/') {
            Some(i) => {
                proof {
                    let c = choose|c: int| first_of(value@, '/', c);
                    assert(c == i as int) by {
                        if c < i as int {
                            assert(cs@[c] != '/');
                        }
                        if c > i as int {
                            assert(value@[i as int] != '/');
                        }
                    }
                }
                assert(i < cs.len());
                let owner_chars = slice_chars(&cs, 0, i);
                let repo_chars = slice_chars(&cs, i + 1, cs.len());
                assert(owner_chars@ =~= value@.take(i as int));
                assert(repo_chars@ =~= value@.skip(i + 1));
                let slash = find_char(&repo_chars, '/');
                if owner_chars.len() == 0 || repo_chars.len() == 0 || slash.is_some() {
                    return Err(HfError::InvalidRepoId { value: string_from_chars(&cs) });
                }
                Ok(HuggingFaceModelRef {
                    owner: string_from_chars(&owner_chars),
                    repo: string_from_chars(&repo_chars),
                })
            },
            None => Err(HfError::InvalidRepoId { value: string_from_chars(&cs) }),
        }
    }
}

impl std::str::FromStr for HuggingFaceModelRef {
    type Err = HfError;

    fn from_str(value: &str) -> Result<Self, HfError> {
        Self::parse_ref(value)
    }
}

/// The characters `cs[from..to]`.
fn slice_chars(cs: &[char], from: usize, to: usize) -> (r: Vec<char>)
    requires
        from <= to <= cs@.len(),
    ensures
        r@ == cs@.subrange(from as int, to as int),
{
    let mut r: Vec<char> = Vec::new();
    let mut i: usize = from;
    while i < to
        invariant
            from <= i <= to <= cs@.len(),
            r@ == cs@.subrange(from as int, i as int),
        decreases to - i,
    {
        r.push(cs[i]);
        i = i + 1;
        assert(r@ =~= cs@.subrange(from as int, i as int));
    }
    r
}

/// `s` without any trailing `c`.
pub open spec fn trim_end(s: Seq<char>, c: char) -> Seq<char>
    decreases s.len(),
{
    if s.len() > 0 && s.last() == c {
        trim_end(s.drop_last(), c)
    } else {
        s
    }
}

/// `s` without any leading `c`.
pub open spec fn trim_start(s: Seq<char>, c: char) -> Seq<char>
    decreases s.len(),
{
    if s.len() > 0 && s[0] == c {
        trim_start(s.drop_first(), c)
    } else {
        s
    }
}

/// `s` without trailing `c` (std's `trim_end_matches` with one character).
pub fn trim_end_char(s: &str, c: char) -> (r: Vec<char>)
    ensures
        r@ == trim_end(s@, c),
{
    let cs = chars_of(s);
    let mut n: usize = cs.len();
    assert(cs@.take(n as int) =~= s@);
    while n > 0 && cs[n - 1] == c
        invariant
            n <= cs@.len(),
            trim_end(cs@.take(n as int), c) == trim_end(s@, c),
            cs@ == s@,
        decreases n,
    {
        assert(cs@.take(n as int).drop_last() =~= cs@.take(n - 1));
        n = n - 1;
    }
    assert(cs@.take(n as int).len() == 0 || cs@.take(n as int).last() != c);
    slice_chars(&cs, 0, n)
}

/// `s` without leading `c` (std's `trim_start_matches` with one character).
pub fn trim_start_char(s: &str, c: char) -> (r: Vec<char>)
    ensures
        r@ == trim_start(s@, c),
{
    let cs = chars_of(s);
    let mut k: usize = 0;
    assert(cs@.skip(0) =~= s@);
    while k < cs.len() && cs[k] == c
        invariant
            k <= cs@.len(),
            trim_start(cs@.skip(k as int), c) == trim_start(s@, c),
            cs@ == s@,
        decreases cs@.len() - k,
    {
        assert(cs@.skip(k as int).drop_first() =~= cs@.skip(k + 1));
        k = k + 1;
    }
    assert(cs@.skip(k as int) =~= cs@.subrange(k as int, cs@.len() as int));
    slice_chars(&cs, k, cs.len())
}

/// Bytes that percent-encoding leaves as they are: ASCII letters, digits
/// and `-`, `.`, `_`, `~`.
pub open spec fn url_safe(b: u8) -> bool {
    (0x30 <= b <= 0x39) || (0x41 <= b <= 0x5A) || (0x61 <= b <= 0x7A) || b == 0x2D || b == 0x2E
        || b == 0x5F || b == 0x7E
}

/// Percent-encoding of bytes: safe bytes as themselves, every other byte as
/// `%` and two upper-case hex digits.
pub open spec fn percent_encoded(bytes: Seq<u8>) -> Seq<char>
    decreases bytes.len(),
{
    if bytes.len() == 0 {
        Seq::empty()
    } else {
        let b = bytes.last();
        percent_encoded(bytes.drop_last()) + if url_safe(b) {
            seq![b as char]
        } else {
            seq!['%', hex_digit(b / 16), hex_digit(b % 16)]
        }
    }
}

/// urlencoding's `encode`: percent-encodes every UTF-8 byte of `s` except
/// ASCII letters, digits and `-`, `.`, `_`, `~`, with upper-case hex digits.
#[verifier::external_body]
fn url_encode(s: &str) -> (r: String)
    ensures
        r@ == percent_encoded(s.spec_bytes()),
{
    urlencoding::encode(s).into_owned()
}

/// The quantizations preferred when no file is requested, best first.
pub open spec fn preferred_quant(i: int) -> Seq<char> {
    if i == 0 {
        "Q4_K_M"@
    } else if i == 1 {
        "Q4_K_S"@
    } else if i == 2 {
        "Q5_K_M"@
    } else if i == 3 {
        "Q8_0"@
    } else {
        "Q4_0"@
    }
}

/// How many quantizations are preferred.
pub const PREFERRED_QUANT_COUNT: usize = 5;

fn preferred_quant_str(i: usize) -> (r: &'static str)
    requires
        i < PREFERRED_QUANT_COUNT,
    ensures
        r@ == preferred_quant(i as int),
{
    if i == 0 {
        "Q4_K_M"
    } else if i == 1 {
        "Q4_K_S"
    } else if i == 2 {
        "Q5_K_M"
    } else if i == 3 {
        "Q8_0"
    } else {
        "Q4_0"
    }
}

#[derive(Debug, Clone, PartialEq, Eq)]
pub struct HuggingFaceModel {
    pub id: String,
    pub downloads: Option<u64>,
    pub likes: Option<u64>,
    pub tags: Vec<String>,
    pub last_modified: Option<String>,
}

#[derive(Debug, Clone, PartialEq, Eq)]
pub struct HuggingFaceModelDetails {
    pub siblings: Vec<HuggingFaceFile>,
}

/// A file in a Hugging Face repository.
#[derive(Debug, Clone, PartialEq, Eq)]
pub struct HuggingFaceFile {
    pub rfilename: String,
    pub size: Option<u64>,
}

/// A completed download; `path` is where the file was written.
#[derive(Debug, Clone, PartialEq, Eq)]
pub struct DownloadedModel {
    pub model_id: String,
    pub filename: String,
    pub path: String,
    pub bytes_written: u64,
    pub expected_bytes: Option<u64>,
}

/// What the user asked to download; `models_dir` is the models directory.
#[derive(Debug, Clone, PartialEq, Eq)]
pub struct DownloadRequest {
    pub name: String,
    pub filename: Option<String>,
    pub models_dir: String,
    pub print_url: bool,
    pub force: bool,
}

/// A resolved download: the file, its URL, and the destination path as its
/// components (models directory first).
#[derive(Debug, Clone, PartialEq, Eq)]
pub struct DownloadPlan {
    pub model: HuggingFaceModelRef,
    pub file: HuggingFaceFile,
    pub url: String,
    pub destination: Vec<String>,
}

/// The characters of an optional string slice.
pub open spec fn opt_view(o: Option<&str>) -> Option<Seq<char>> {
    match o {
        Some(s) => Some(s@),
        None => None,
    }
}

/// `i` is the first file whose name is `name`.
pub open spec fn first_named(files: Seq<HuggingFaceFile>, name: Seq<char>, i: int) -> bool {
    0 <= i < files.len() && files[i].rfilename@ == name && forall|j: int|
        0 <= j < i ==> files[j].rfilename@ != name
}

/// `i` is the first file whose name contains `part`.
pub open spec fn first_containing(files: Seq<HuggingFaceFile>, part: Seq<char>, i: int) -> bool {
    0 <= i < files.len() && seq_contains(files[i].rfilename@, part) && forall|j: int|
        0 <= j < i ==> !seq_contains(files[j].rfilename@, part)
}

/// Some file's name contains `part`.
pub open spec fn any_containing(files: Seq<HuggingFaceFile>, part: Seq<char>) -> bool {
    exists|i: int| 0 <= i < files.len() && seq_contains(files[i].rfilename@, part)
}

/// Quantization `q` is the first preferred one that some file carries.
pub open spec fn first_preferred(files: Seq<HuggingFaceFile>, q: int) -> bool {
    0 <= q < PREFERRED_QUANT_COUNT && any_containing(files, preferred_quant(q)) && forall|p: int|
        0 <= p < q ==> !any_containing(files, preferred_quant(p))
}

/// No preferred quantization occurs in any file name.
pub open spec fn no_preferred(files: Seq<HuggingFaceFile>) -> bool {
    forall|p: int| 0 <= p < PREFERRED_QUANT_COUNT ==> !any_containing(files, preferred_quant(p))
}

/// The chosen file is `files[i]`: the requested one (the first with that
/// name); else the first file with the best preferred quantization; else
/// the first file.
pub open spec fn chosen_at(files: Seq<HuggingFaceFile>, requested: Option<Seq<char>>, i: int) -> bool {
    match requested {
        Some(name) => first_named(files, name, i),
        None => (exists|q: int|
            first_preferred(files, q) && first_containing(files, preferred_quant(q), i)) || (
        no_preferred(files) && files.len() > 0 && i == 0),
    }
}

/// With no file requested, the preference is Q4_K_M, then Q4_K_S, Q5_K_M,
/// Q8_0 and Q4_0: the chosen file is the first one carrying the first of
/// these that any file carries, and the first file when none carries any.
pub proof fn lemma_quant_preference(files: Seq<HuggingFaceFile>, i: int)
    requires
        chosen_at(files, None, i),
    ensures
        any_containing(files, "Q4_K_M"@) ==> first_containing(files, "Q4_K_M"@, i),
        !any_containing(files, "Q4_K_M"@) && any_containing(files, "Q4_K_S"@) ==> first_containing(
            files,
            "Q4_K_S"@,
            i,
        ),
        !any_containing(files, "Q4_K_M"@) && !any_containing(files, "Q4_K_S"@) && any_containing(
            files,
            "Q5_K_M"@,
        ) ==> first_containing(files, "Q5_K_M"@, i),
        !any_containing(files, "Q4_K_M"@) && !any_containing(files, "Q4_K_S"@) && !any_containing(
            files,
            "Q5_K_M"@,
        ) && any_containing(files, "Q8_0"@) ==> first_containing(files, "Q8_0"@, i),
        !any_containing(files, "Q4_K_M"@) && !any_containing(files, "Q4_K_S"@) && !any_containing(
            files,
            "Q5_K_M"@,
        ) && !any_containing(files, "Q8_0"@) && any_containing(files, "Q4_0"@) ==> first_containing(
            files,
            "Q4_0"@,
            i,
        ),
        !any_containing(files, "Q4_K_M"@) && !any_containing(files, "Q4_K_S"@) && !any_containing(
            files,
            "Q5_K_M"@,
        ) && !any_containing(files, "Q8_0"@) && !any_containing(files, "Q4_0"@) ==> i == 0,
{
    if exists|q: int| first_preferred(files, q) && first_containing(files, preferred_quant(q), i) {
        let q = choose|q: int| first_preferred(files, q) && first_containing(files, preferred_quant(q), i);
        assert(preferred_quant(0) == "Q4_K_M"@);
        assert(preferred_quant(1) == "Q4_K_S"@);
        assert(preferred_quant(2) == "Q5_K_M"@);
        assert(preferred_quant(3) == "Q8_0"@);
        assert(preferred_quant(4) == "Q4_0"@);
    } else {
        assert(!any_containing(files, preferred_quant(0)));
        assert(!any_containing(files, preferred_quant(1)));
        assert(!any_containing(files, preferred_quant(2)));
        assert(!any_containing(files, preferred_quant(3)));
        assert(!any_containing(files, preferred_quant(4)));
    }
}

/// `i` lists the path components of a relative file name split at `/`.
pub open spec fn split_slash(s: Seq<char>) -> Seq<Seq<char>>
    decreases s.len(),
{
    if s.len() == 0 {
        seq![Seq::empty()]
    } else {
        let sp = split_slash(s.drop_last());
        if s.last() == '/' {
            sp.push(Seq::empty())
        } else {
            sp.update(sp.len() - 1, sp.last().push(s.last()))
        }
    }
}

/// A path component a download may not use: empty, `.` or `..`.
pub open spec fn bad_component(c: Seq<char>) -> bool {
    c.len() == 0 || c == "."@ || c == ".."@
}

/// The destination of a download, as path components: the models
/// directory, `huggingface`, the owner, the repository, then the parts of
/// the file name (leading slashes dropped). The name is refused when it is
/// empty, contains `..`, or has an empty or `.` part.
pub open spec fn destination_of(models_dir: Seq<char>, model: HuggingFaceModelRef, filename: Seq<char>) -> Option<Seq<Seq<char>>> {
    let f = trim_start(filename, '/');
    let parts = split_slash(f);
    if f.len() == 0 || seq_contains(f, ".."@) || exists|k: int|
        0 <= k < parts.len() && bad_component(#[trigger] parts[k]) {
        None
    } else {
        Some(seq![models_dir, "huggingface"@, model.owner@, model.repo@] + parts)
    }
}

proof fn lemma_split_len(s: Seq<char>)
    ensures
        split_slash(s).len() >= 1,
    decreases s.len(),
{
    if s.len() > 0 {
        lemma_split_len(s.drop_last());
    }
}

/// The parts of `cs` split at `/`.
fn split_on_slash(cs: &[char]) -> (r: Vec<Vec<char>>)
    ensures
        r@.len() == split_slash(cs@).len(),
        forall|k: int| 0 <= k < r@.len() ==> (#[trigger] r@[k])@ == split_slash(cs@)[k],
{
    let mut parts: Vec<Vec<char>> = Vec::new();
    let mut cur: Vec<char> = Vec::new();
    let mut i: usize = 0;
    while i < cs.len()
        invariant
            i <= cs@.len(),
            parts@.len() + 1 == split_slash(cs@.take(i as int)).len(),
            forall|k: int| 0 <= k < parts@.len() ==> (#[trigger] parts@[k])@ == split_slash(cs@.take(i as int))[k],
            cur@ == split_slash(cs@.take(i as int)).last(),
        decreases cs@.len() - i,
    {
        proof {
            lemma_split_len(cs@.take(i as int));
            assert(cs@.take(i + 1).drop_last() =~= cs@.take(i as int));
        }
        if cs[i] == '/' {
            parts.push(cur);
            cur = Vec::new();
            proof {
                assert(cur@ =~= Seq::<char>::empty());
            }
        } else {
            cur.push(cs[i]);
        }
        i = i + 1;
    }
    assert(cs@.take(i as int) =~= cs@);
    proof {
        lemma_split_len(cs@);
    }
    parts.push(cur);
    parts
}

/// Whether a part is empty, `.` or `..`.
fn is_bad_component(c: &[char]) -> (r: bool)
    ensures
        r == bad_component(c@),
{
    proof {
        reveal_strlit(".");
        reveal_strlit("..");
    }
    if c.len() == 0 {
        return true;
    }
    if c.len() == 1 {
        assert(c@ == "."@ <==> c@[0] == '.') by {
            if c@[0] == '.' {
                assert(c@ =~= "."@);
            }
        }
        return c[0] == '.';
    }
    if c.len() == 2 {
        assert(c@ == ".."@ <==> (c@[0] == '.' && c@[1] == '.')) by {
            if c@[0] == '.' && c@[1] == '.' {
                assert(c@ =~= ".."@);
            }
        }
        return c[0] == '.' && c[1] == '.';
    }
    false
}

/// The destination path of a downloaded file, as components: the models
/// directory, `huggingface`, owner, repository, then the parts of the file
/// name. Names that are empty, contain `..` or have empty or `.` parts are
/// refused.
pub fn local_model_path(models_dir: &str, model: &HuggingFaceModelRef, filename: &str) -> (r: Result<Vec<String>, HfError>)
    ensures
        match destination_of(models_dir@, *model, filename@) {
            Some(comps) => r matches Ok(v) && v@.len() == comps.len() && forall|k: int|
                0 <= k < comps.len() ==> (#[trigger] v@[k])@ == comps[k],
            None => r matches Err(HfError::InvalidFilename { filename: f }) && f@ == trim_start(
                filename@,
                '/',
            ),
        },
{
    let f = trim_start_char(filename, '/');
    let dots = chars_of("..");
    if f.len() == 0 || contains_chars(&f, &dots) {
        return Err(HfError::InvalidFilename { filename: string_from_chars(&f) });
    }
    let parts = split_on_slash(&f);
    let mut out: Vec<String> = Vec::new();
    let mut dir = String::new();
    push_str(&mut dir, models_dir);
    out.push(dir);
    let mut hf = String::new();
    push_str(&mut hf, "huggingface");
    out.push(hf);
    let mut owner = String::new();
    push_str(&mut owner, model.owner.as_str());
    out.push(owner);
    let mut repo = String::new();
    push_str(&mut repo, model.repo.as_str());
    out.push(repo);
    let ghost head = seq![models_dir@, "huggingface"@, model.owner@, model.repo@];
    let mut k: usize = 0;
    while k < parts.len()
        invariant
            f@ == trim_start(filename@, '/'),
            f@.len() > 0,
            !seq_contains(f@, ".."@),
            head == seq![models_dir@, "huggingface"@, model.owner@, model.repo@],
            k <= parts@.len(),
            parts@.len() == split_slash(f@).len(),
            forall|j: int| 0 <= j < parts@.len() ==> (#[trigger] parts@[j])@ == split_slash(f@)[j],
            forall|j: int| 0 <= j < k ==> !bad_component(#[trigger] split_slash(f@)[j]),
            out@.len() == 4 + k,
            forall|j: int| 0 <= j < 4 ==> (#[trigger] out@[j])@ == head[j],
            forall|j: int| 4 <= j < 4 + k ==> (#[trigger] out@[j])@ == split_slash(f@)[j - 4],
        decreases parts@.len() - k,
    {
        if is_bad_component(&parts[k]) {
            proof {
                assert(0 <= k < split_slash(f@).len() && bad_component(split_slash(f@)[k as int]));
                assert(destination_of(models_dir@, *model, filename@) is None);
            }
            return Err(HfError::InvalidFilename { filename: string_from_chars(&f) });
        }
        out.push(string_from_chars(&parts[k]));
        k = k + 1;
    }
    proof {
        let comps = seq![models_dir@, "huggingface"@, model.owner@, model.repo@] + split_slash(f@);
        assert(!(exists|j: int|
            0 <= j < split_slash(f@).len() && bad_component(#[trigger] split_slash(f@)[j])));
        assert(destination_of(models_dir@, *model, filename@) == Some(comps));
        assert forall|j: int| 0 <= j < comps.len() implies (#[trigger] out@[j])@ == comps[j] by {
            if j < 4 {
                assert(out@[j]@ == head[j]);
            }
        }
    }
    Ok(out)
}

/// A Hugging Face endpoint: the site and its API base URL.
#[derive(Debug, Clone)]
pub struct HuggingFaceClient {
    pub base_url: String,
    pub api_url: String,
}

impl HuggingFaceClient {
    /// A client for the site at `base_url` (trailing slashes dropped); the
    /// API lives under `/api`.
    pub fn new(base_url: &str) -> (r: Self)
        ensures
            r.base_url@ == trim_end(base_url@, '/'),
            r.api_url@ == trim_end(base_url@, '/') + "/api"@,
    {
        let trimmed = trim_end_char(base_url, '/');
        let base = string_from_chars(&trimmed);
        let mut api = string_from_chars(&trimmed);
        push_str(&mut api, "/api");
        HuggingFaceClient { base_url: base, api_url: api }
    }

    /// The client for huggingface.co.
    pub fn default_site() -> (r: Self)
        ensures
            r.base_url@ == "https://huggingface.co"@,
            r.api_url@ == "https://huggingface.co"@ + "/api"@,
    {
        let mut base = String::new();
        push_str(&mut base, "https://huggingface.co");
        let mut api = String::new();
        push_str(&mut api, "https://huggingface.co");
        push_str(&mut api, "/api");
        HuggingFaceClient { base_url: base, api_url: api }
    }

    /// The web search page for GGUF models matching `query`.
    pub fn search_url(&self, query: &str) -> (r: String)
        ensures
            r@ == self.base_url@ + "/models?search="@ + percent_encoded(query.spec_bytes())
                + "&library=gguf&sort=downloads"@,
    {
        let encoded = url_encode(query);
        let mut s = String::new();
        push_str(&mut s, self.base_url.as_str());
        push_str(&mut s, "/models?search=");
        push_str(&mut s, encoded.as_str());
        push_str(&mut s, "&library=gguf&sort=downloads");
        s
    }

    /// The API query for up to `limit` (clamped to 1..=100) GGUF models
    /// matching `query`, most downloaded first.
    pub fn search_api_url(&self, query: &str, limit: usize) -> (r: String)
        ensures
            r@ == self.api_url@ + "/models?search="@ + percent_encoded(query.spec_bytes())
                + "&filter=gguf&sort=downloads&direction=-1&limit="@ + dec(
                if limit < 1 {
                    1nat
                } else if limit > 100 {
                    100nat
                } else {
                    limit as nat
                },
            ),
    {
        let clamped: u64 = if limit < 1 {
            1
        } else if limit > 100 {
            100
        } else {
            limit as u64
        };
        let encoded = url_encode(query);
        let mut s = String::new();
        push_str(&mut s, self.api_url.as_str());
        push_str(&mut s, "/models?search=");
        push_str(&mut s, encoded.as_str());
        push_str(&mut s, "&filter=gguf&sort=downloads&direction=-1&limit=");
        let n = dec_string(clamped);
        push_str(&mut s, n.as_str());
        s
    }

    /// The API address of a model's metadata.
    pub fn model_api_url(&self, model: &HuggingFaceModelRef) -> (r: String)
        ensures
            r@ == self.api_url@ + "/models/"@ + model.owner@ + "/"@ + model.repo@,
    {
        let mut s = String::new();
        push_str(&mut s, self.api_url.as_str());
        push_str(&mut s, "/models/");
        let id = model.id();
        push_str(&mut s, id.as_str());
        s
    }

    /// Choose the file to download: the requested one, else the first file
    /// with the best preferred quantization, else the first file.
    pub fn choose_gguf_file<'a>(&self, files: &'a [HuggingFaceFile], requested: Option<&str>) -> (r: Result<&'a HuggingFaceFile, HfError>)
        ensures
            match r {
                Ok(f) => exists|i: int| chosen_at(files@, opt_view(requested), i) && *f == files@[i],
                Err(HfError::FileNotFound { requested: q }) => requested matches Some(name) && q@ == name@
                    && forall|i: int| 0 <= i < files@.len() ==> files@[i].rfilename@ != name@,
                Err(HfError::NoGgufFiles) => requested is None && files@.len() == 0,
                Err(_) => false,
            },
    {
        match requested {
            Some(name) => {
                let mut i: usize = 0;
                while i < files.len()
                    invariant
                        requested == Some(name),
                        i <= files@.len(),
                        forall|j: int| 0 <= j < i ==> files@[j].rfilename@ != name@,
                    decreases files@.len() - i,
                {
                    if str_eq(files[i].rfilename.as_str(), name) {
                        assert(files@[i as int].rfilename@ == name@);
                        assert(first_named(files@, name@, i as int));
                        assert(opt_view(requested) == Some(name@));
                        assert(chosen_at(files@, opt_view(requested), i as int));
                        return Ok(&files[i]);
                    }
                    i = i + 1;
                }
                let mut q = String::new();
                push_str(&mut q, name);
                Err(HfError::FileNotFound { requested: q })
            },
            None => {
                let mut p: usize = 0;
                while p < PREFERRED_QUANT_COUNT
                    invariant
                        requested is None,
                        p <= PREFERRED_QUANT_COUNT,
                        forall|k: int| 0 <= k < p ==> !any_containing(files@, preferred_quant(k)),
                    decreases PREFERRED_QUANT_COUNT - p,
                {
                    let quant = chars_of(preferred_quant_str(p));
                    let mut i: usize = 0;
                    while i < files.len()
                        invariant
                            requested is None,
                            forall|k: int| 0 <= k < p ==> !any_containing(files@, preferred_quant(k)),
                            i <= files@.len(),
                            p < PREFERRED_QUANT_COUNT,
                            quant@ == preferred_quant(p as int),
                            forall|j: int| 0 <= j < i ==> !seq_contains(files@[j].rfilename@, quant@),
                        decreases files@.len() - i,
                    {
                        let name = chars_of(files[i].rfilename.as_str());
                        if contains_chars(&name, &quant) {
                            assert(seq_contains(files@[i as int].rfilename@, preferred_quant(p as int)));
                            assert(any_containing(files@, preferred_quant(p as int)));
                            assert(first_preferred(files@, p as int));
                            assert(first_containing(files@, preferred_quant(p as int), i as int));
                            assert(chosen_at(files@, opt_view(requested), i as int));
                            return Ok(&files[i]);
                        }
                        i = i + 1;
                    }
                    p = p + 1;
                }
                if files.len() > 0 {
                    assert(chosen_at(files@, opt_view(requested), 0));
                    Ok(&files[0])
                } else {
                    Err(HfError::NoGgufFiles)
                }
            },
        }
    }

    /// The download URL of `filename` (leading slashes dropped) in the model's
    /// main branch.
    pub fn gguf_download_url(&self, model: &HuggingFaceModelRef, filename: &str) -> (r: String)
        ensures
            r@ == self.base_url@ + "/"@ + model.owner@ + "/"@ + model.repo@ + "/resolve/main/"@
                + trim_start(filename@, '/'),
    {
        let f = trim_start_char(filename, '/');
        let mut s = String::new();
        push_str(&mut s, self.base_url.as_str());
        push_str(&mut s, "/");
        push_str(&mut s, model.owner.as_str());
        push_str(&mut s, "/");
        push_str(&mut s, model.repo.as_str());
        push_str(&mut s, "/resolve/main/");
        let fs = string_from_chars(&f);
        push_str(&mut s, fs.as_str());
        s
    }
}

impl SortKey for HuggingFaceFile {
    open spec fn le_spec(&self, other: &Self) -> bool {
        lex_le(self.rfilename@, other.rfilename@)
    }

    proof fn lemma_le_total(a: &Self, b: &Self) {
        lemma_lex_total(a.rfilename@, b.rfilename@);
    }

    proof fn lemma_le_trans(a: &Self, b: &Self, c: &Self) {
        lemma_lex_trans(a.rfilename@, b.rfilename@, c.rfilename@);
    }

    fn key_le(&self, other: &Self) -> (r: bool) {
        str_lex_le(self.rfilename.as_str(), other.rfilename.as_str())
    }
}

/// A repository file is a GGUF file when its lower-cased name ends in `.gguf`.
pub open spec fn is_gguf_name(f: HuggingFaceFile) -> bool {
    seq_ends_with(lowercase(f.rfilename@), ".gguf"@)
}

/// The GGUF files among `files`, in order.
pub open spec fn gguf_only(files: Seq<HuggingFaceFile>) -> Seq<HuggingFaceFile>
    decreases files.len(),
{
    if files.len() == 0 {
        Seq::empty()
    } else if is_gguf_name(files.last()) {
        gguf_only(files.drop_last()).push(files.last())
    } else {
        gguf_only(files.drop_last())
    }
}

/// The GGUF files of a repository listing, ordered by name.
pub fn gguf_files(siblings: Vec<HuggingFaceFile>) -> (r: Vec<HuggingFaceFile>)
    ensures
        r@ == sort_spec(gguf_only(siblings@)),
{
    let ghost orig = siblings@;
    let suffix = chars_of(".gguf");
    let mut rest = siblings;
    let mut kept: Vec<HuggingFaceFile> = Vec::new();
    let mut k: usize = 0;
    let n = rest.len();
    assert(orig.take(0) =~= Seq::<HuggingFaceFile>::empty());
    assert(orig.skip(0) =~= orig);
    while rest.len() > 0
        invariant
            suffix@ == ".gguf"@,
            k + rest@.len() == orig.len(),
            orig.len() == n,
            rest@ == orig.skip(k as int),
            kept@ == gguf_only(orig.take(k as int)),
        decreases rest@.len(),
    {
        let f = rest.remove(0);
        let lower = to_lowercase(f.rfilename.as_str());
        let name = chars_of(lower.as_str());
        let keep = ends_with_chars(&name, &suffix);
        proof {
            assert(orig.take(k + 1).drop_last() =~= orig.take(k as int));
            assert(orig.take(k + 1).last() == f);
            assert(rest@ =~= orig.skip(k + 1));
        }
        if keep {
            kept.push(f);
        }
        k = k + 1;
    }
    assert(orig.take(k as int) =~= orig);
    stable_sort(kept)
}

/// Why a model name could not be resolved to a repository.
#[derive(Debug, Clone, PartialEq, Eq)]
pub enum ResolveError {
    /// The search for the name found no GGUF model.
    NoModelsFound { query: String },
    /// The search hit's id is not of the form `owner/repo`.
    InvalidModelId { id: String },
}

/// How a model name is resolved: the repository it names when it is of the
/// form `owner/repo`, otherwise by a search for it.
pub enum ModelResolution {
    Named(HuggingFaceModelRef),
    Search,
}

/// Whether a model name names a repository or has to be searched for.
pub fn model_resolution(name: &str) -> (r: ModelResolution)
    ensures
        match parsed_repo_id(name@) {
            Some((owner, repo)) => r matches ModelResolution::Named(m) && m.owner@ == owner
                && m.repo@ == repo,
            None => r is Search,
        },
{
    match HuggingFaceModelRef::parse_ref(name) {
        Ok(m) => ModelResolution::Named(m),
        Err(_) => ModelResolution::Search,
    }
}

/// The repository a search for `name` resolves to: the last hit (the search
/// asks for one), whose id must be `owner/repo`.
pub fn model_from_hits(name: &str, hits: &[HuggingFaceModel]) -> (r: Result<HuggingFaceModelRef, ResolveError>)
    ensures
        hits@.len() == 0 ==> (r matches Err(ResolveError::NoModelsFound { query }) && query@ == name@),
        hits@.len() > 0 ==> (match parsed_repo_id(hits@.last().id@) {
            Some((owner, repo)) => r matches Ok(m) && m.owner@ == owner && m.repo@ == repo,
            None => r matches Err(ResolveError::InvalidModelId { id }) && id@ == hits@.last().id@,
        }),
{
    if hits.len() == 0 {
        let mut query = String::new();
        push_str(&mut query, name);
        return Err(ResolveError::NoModelsFound { query });
    }
    let id = hits[hits.len() - 1].id.as_str();
    match HuggingFaceModelRef::parse_ref(id) {
        Ok(m) => Ok(m),
        Err(_) => {
            let mut copy = String::new();
            push_str(&mut copy, id);
            Err(ResolveError::InvalidModelId { id: copy })
        },
    }
}

} // verus!
