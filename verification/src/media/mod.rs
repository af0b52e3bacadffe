//! Media-explorer helpers: report value conversions, the text UI's tree of
//! nodes and its flattening into visible lines, and text fitting.
use vstd::prelude::*;

pub mod tui;

use std::collections::BTreeSet;

use crate::sort::{lemma_lex_total, lemma_lex_trans, lex_le, sort_spec, stable_sort, str_lex_le, SortKey};
use crate::paths::{extension_of, last_part, name_extension, plain_path};
use crate::text::{
    eq_ascii_nocase, eq_ignore_ascii_case,
    chars_of, dec, dec_string, push_char, push_str, str_eq, string_from_chars, trim_chars, trim_space,
};

verus! {

broadcast use vstd::seq_lib::group_to_multiset_ensures;

/// A strictly positive 64-bit count; zero and negative values mean unknown.
pub fn to_u64(value: i64) -> (r: Option<u64>)
    ensures
        r == if value <= 0 {
            None
        } else {
            Some(value as u64)
        },
{
    if value <= 0 {
        None
    } else {
        Some(value as u64)
    }
}

/// A strictly positive 32-bit count; zero and negative values mean unknown.
pub fn to_u32(value: i32) -> (r: Option<u32>)
    ensures
        r == if value <= 0 {
            None
        } else {
            Some(value as u32)
        },
{
    if value <= 0 {
        None
    } else {
        Some(value as u32)
    }
}

/// A count, or `unknown` when there is none.
pub fn display_optional_count(value: Option<u64>) -> (r: String)
    ensures
        r@ == match value {
            Some(v) => dec(v as nat),
            None => "unknown"@,
        },
{
    match value {
        Some(v) => dec_string(v),
        None => {
            let mut s = String::new();
            push_str(&mut s, "unknown");
            s
        },
    }
}

/// An extension of a media file that the catalog probes, in any ASCII case.
pub open spec fn is_media_extension(e: Seq<char>) -> bool {
    eq_ascii_nocase(e, "mp4"@) || eq_ascii_nocase(e, "mkv"@) || eq_ascii_nocase(e, "mov"@)
        || eq_ascii_nocase(e, "avi"@) || eq_ascii_nocase(e, "webm"@) || eq_ascii_nocase(e, "mp3"@)
        || eq_ascii_nocase(e, "flac"@) || eq_ascii_nocase(e, "wav"@) || eq_ascii_nocase(e, "ogg"@)
        || eq_ascii_nocase(e, "m4a"@) || eq_ascii_nocase(e, "aac"@) || eq_ascii_nocase(e, "opus"@)
}

fn nocase_is(cs: &Vec<char>, text: &str) -> (r: bool)
    ensures
        r == eq_ascii_nocase(cs@, text@),
{
    let t = chars_of(text);
    eq_ignore_ascii_case(cs, &t)
}

/// Whether an extension marks a media file.
pub fn media_extension(ext: &Option<String>) -> (r: bool)
    ensures
        r == (ext matches Some(e) && is_media_extension(e@)),
{
    match ext {
        Some(e) => {
            let cs = chars_of(e.as_str());
            nocase_is(&cs, "mp4") || nocase_is(&cs, "mkv") || nocase_is(&cs, "mov") || nocase_is(&cs, "avi")
                || nocase_is(&cs, "webm") || nocase_is(&cs, "mp3") || nocase_is(&cs, "flac")
                || nocase_is(&cs, "wav") || nocase_is(&cs, "ogg") || nocase_is(&cs, "m4a")
                || nocase_is(&cs, "aac") || nocase_is(&cs, "opus")
        },
        None => false,
    }
}

/// Whether the path names a media file, by its extension; the extension
/// itself comes from the platform's path syntax.
pub fn is_media_file(path: &str) -> (r: bool)
    ensures
        plain_path(path@) ==> r == (name_extension(last_part(path@)) matches Some(e)
            && is_media_extension(e)),
        path@.len() == 0 ==> !r,
{
    let ext = extension_of(path);
    media_extension(&ext)
}

/// FFmpeg's media type codes (`AVMEDIA_TYPE_*`).
#[derive(Debug, Clone, Copy, PartialEq, Eq, Structural)]
pub enum AVMediaType {
    Unknown,
    Video,
    Audio,
    Data,
    Subtitle,
    Attachment,
    Nb,
}

/// The stream kind of an FFmpeg media type; the count marker and unknown
/// codes are `Unknown`.
pub open spec fn media_type_of(t: AVMediaType) -> MediaType {
    match t {
        AVMediaType::Video => MediaType::Video,
        AVMediaType::Audio => MediaType::Audio,
        AVMediaType::Data => MediaType::Data,
        AVMediaType::Subtitle => MediaType::Subtitle,
        AVMediaType::Attachment => MediaType::Attachment,
        _ => MediaType::Unknown,
    }
}

impl From<AVMediaType> for MediaType {
    fn from(t: AVMediaType) -> (r: MediaType) {
        match t {
            AVMediaType::Video => MediaType::Video,
            AVMediaType::Audio => MediaType::Audio,
            AVMediaType::Data => MediaType::Data,
            AVMediaType::Subtitle => MediaType::Subtitle,
            AVMediaType::Attachment => MediaType::Attachment,
            _ => MediaType::Unknown,
        }
    }
}

impl vstd::std_specs::convert::FromSpecImpl<AVMediaType> for MediaType {
    open spec fn obeys_from_spec() -> bool {
        true
    }

    open spec fn from_spec(v: AVMediaType) -> MediaType {
        media_type_of(v)
    }
}

/// The kind of a media stream.
#[derive(Debug, Clone, Copy, PartialEq, Eq, Structural)]
pub enum MediaType {
    Unknown,
    Video,
    Audio,
    Data,
    Subtitle,
    Attachment,
}

pub open spec fn media_type_text(t: MediaType) -> Seq<char> {
    match t {
        MediaType::Unknown => "unknown"@,
        MediaType::Video => "video"@,
        MediaType::Audio => "audio"@,
        MediaType::Data => "data"@,
        MediaType::Subtitle => "subtitle"@,
        MediaType::Attachment => "attachment"@,
    }
}

/// The lower-case name of a stream kind.
pub fn media_type_name(media_type: MediaType) -> (r: &'static str)
    ensures
        r@ == media_type_text(media_type),
{
    match media_type {
        MediaType::Unknown => "unknown",
        MediaType::Video => "video",
        MediaType::Audio => "audio",
        MediaType::Data => "data",
        MediaType::Subtitle => "subtitle",
        MediaType::Attachment => "attachment",
    }
}

/// `n` dots.
pub open spec fn dots(n: nat) -> Seq<char>
    decreases n,
{
    if n == 0 {
        Seq::empty()
    } else {
        dots((n - 1) as nat).push('.')
    }
}

/// `text` cut to `width` characters: unchanged when it fits; else, for
/// widths above three, the first `width - 3` characters and `...`; else
/// `width` dots.
pub open spec fn truncated(text: Seq<char>, width: nat) -> Seq<char> {
    if width == 0 {
        Seq::empty()
    } else if text.len() <= width {
        text
    } else if width <= 3 {
        dots(width)
    } else {
        text.take(width - 3) + "..."@
    }
}

/// Fit `text` into `width` characters.
pub fn truncate_for_width(text: &str, width: usize) -> (r: String)
    ensures
        r@ == truncated(text@, width as nat),
        r@.len() <= width,
{
    proof {
        reveal_strlit("...");
    }
    if width == 0 {
        return String::new();
    }
    let chars = chars_of(text);
    if chars.len() <= width {
        return string_from_chars(&chars);
    }
    if width <= 3 {
        let mut out = String::new();
        let mut i: usize = 0;
        while i < width
            invariant
                i <= width,
                out@ == dots(i as nat),
            decreases width - i,
        {
            push_char(&mut out, '.');
            i = i + 1;
        }
        proof {
            lemma_dots_len(width as nat);
        }
        return out;
    }
    let mut out = String::new();
    let mut i: usize = 0;
    while i < width - 3
        invariant
            width > 3,
            chars@.len() > width,
            i <= width - 3,
            out@ == chars@.take(i as int),
        decreases width - 3 - i,
    {
        push_char(&mut out, chars[i]);
        i = i + 1;
        assert(out@ =~= chars@.take(i as int));
    }
    push_str(&mut out, "...");
    out
}

proof fn lemma_dots_len(n: nat)
    ensures
        dots(n).len() == n,
    decreases n,
{
    if n > 0 {
        lemma_dots_len((n - 1) as nat);
    }
}

/// A node of the text UI's tree.
#[derive(Debug)]
pub struct TreeNode {
    pub id: usize,
    pub label: String,
    pub children: Vec<TreeNode>,
}

/// One visible line of the flattened tree.
#[derive(Debug, Clone)]
pub struct FlatLine {
    pub node_id: usize,
    pub label: String,
    pub depth: usize,
    pub has_children: bool,
    pub expanded: bool,
}

/// The content of a visible line: id, label, depth, whether the node has
/// children and whether it is expanded.
pub open spec fn line_model(l: FlatLine) -> (usize, Seq<char>, nat, bool, bool) {
    (l.node_id, l.label@, l.depth as nat, l.has_children, l.expanded)
}

pub open spec fn lines_model(ls: Seq<FlatLine>) -> Seq<(usize, Seq<char>, nat, bool, bool)> {
    ls.map_values(|l: FlatLine| line_model(l))
}

/// The visible lines of a subtree at `depth`: the node itself, then, when it
/// has children and is expanded, each child's lines one level deeper.
pub open spec fn flattened(node: TreeNode, expanded: Set<usize>, depth: nat) -> Seq<(usize, Seq<char>, nat, bool, bool)>
    decreases node,
{
    let has = node.children@.len() > 0;
    let open = expanded.contains(node.id);
    seq![(node.id, node.label@, depth, has, open)] + if has && open {
        flattened_all(node.children@, expanded, depth + 1)
    } else {
        Seq::empty()
    }
}

/// The visible lines of several sibling subtrees, in order.
pub open spec fn flattened_all(nodes: Seq<TreeNode>, expanded: Set<usize>, depth: nat) -> Seq<(usize, Seq<char>, nat, bool, bool)>
    decreases nodes,
{
    if nodes.len() == 0 {
        Seq::empty()
    } else {
        flattened_all(nodes.drop_last(), expanded, depth) + flattened(nodes.last(), expanded, depth)
    }
}

/// The depth of the deepest node below (a leaf has height zero).
pub open spec fn height(node: TreeNode) -> nat
    decreases node,
{
    if node.children@.len() == 0 {
        0
    } else {
        1 + heights(node.children@)
    }
}

pub open spec fn heights(nodes: Seq<TreeNode>) -> nat
    decreases nodes,
{
    if nodes.len() == 0 {
        0
    } else {
        let a = heights(nodes.drop_last());
        let b = height(nodes.last());
        if a >= b {
            a
        } else {
            b
        }
    }
}

proof fn lemma_heights(nodes: Seq<TreeNode>, i: int)
    requires
        0 <= i < nodes.len(),
    ensures
        height(nodes[i]) <= heights(nodes),
    decreases nodes.len(),
{
    if i < nodes.len() - 1 {
        lemma_heights(nodes.drop_last(), i);
        assert(nodes.drop_last()[i] == nodes[i]);
    }
}

/// Append the visible lines of `node` (at `depth`) to `out`.
pub fn flatten_tree(node: &TreeNode, expanded_ids: &BTreeSet<usize>, depth: usize, out: &mut Vec<FlatLine>)
    requires
        depth + height(*node) <= usize::MAX,
    ensures
        lines_model(final(out)@) == lines_model(old(out)@) + flattened(*node, expanded_ids@, depth as nat),
    decreases node,
{
    broadcast use vstd::std_specs::btree::group_btree_axioms;
    let has_children = node.children.len() > 0;
    let expanded = expanded_ids.contains(&node.id);
    let ghost start = lines_model(out@);
    let label = node.label.clone();
    out.push(FlatLine { node_id: node.id, label, depth, has_children, expanded });
    let ghost head = seq![(node.id, node.label@, depth as nat, has_children, expanded)];
    assert(lines_model(out@) =~= start + head);
    if has_children && expanded {
        let mut i: usize = 0;
        while i < node.children.len()
            invariant
                i <= node.children@.len(),
                node.children@.len() > 0,
                depth + height(*node) <= usize::MAX,
                lines_model(out@) == start + head + flattened_all(
                    node.children@.take(i as int),
                    expanded_ids@,
                    (depth + 1) as nat,
                ),
            decreases node.children@.len() - i,
        {
            proof {
                lemma_heights(node.children@, i as int);
                assert(node.children@.take(i + 1).drop_last() =~= node.children@.take(i as int));
                assert(decreases_to!(*node => node.children@[i as int]));
            }
            let ghost before = lines_model(out@);
            flatten_tree(&node.children[i], expanded_ids, depth + 1, out);
            i = i + 1;
            proof {
                assert(lines_model(out@) =~= start + head + flattened_all(
                    node.children@.take(i as int),
                    expanded_ids@,
                    (depth + 1) as nat,
                ));
            }
        }
        assert(node.children@.take(i as int) =~= node.children@);
    }
}

/// `j` holds the nearest line above `current` that is one level shallower.
pub open spec fn parent_line(lines: Seq<FlatLine>, current: int, j: int) -> bool {
    0 <= j < current < lines.len() && lines[j].depth + 1 == lines[current].depth && forall|k: int|
        j < k < current ==> lines[k].depth + 1 != lines[current].depth
}

/// The index of the line holding the parent of line `current_idx`: the
/// nearest line above it that is one level shallower. None for top-level
/// lines, positions past the end, and lines with no such line above.
pub fn find_parent_index(lines: &[FlatLine], current_idx: usize) -> (r: Option<usize>)
    ensures
        match r {
            Some(j) => parent_line(lines@, current_idx as int, j as int),
            None => current_idx >= lines@.len() || lines@[current_idx as int].depth == 0 || forall|j: int|
                0 <= j < current_idx ==> !parent_line(lines@, current_idx as int, j),
        },
{
    if current_idx >= lines.len() {
        return None;
    }
    let current_depth = lines[current_idx].depth;
    if current_depth == 0 {
        return None;
    }
    let mut idx = current_idx;
    while idx > 0
        invariant
            idx <= current_idx < lines@.len(),
            current_depth == lines@[current_idx as int].depth,
            current_depth > 0,
            forall|k: int| idx <= k < current_idx ==> lines@[k].depth + 1 != current_depth,
        decreases idx,
    {
        idx = idx - 1;
        if lines[idx].depth == current_depth - 1 {
            return Some(idx);
        }
    }
    None
}

/// A new tree node with the next id; the id counter moves on.
pub fn new_node(next_id: &mut usize, label: String, children: Vec<TreeNode>) -> (r: TreeNode)
    requires
        *old(next_id) < usize::MAX,
    ensures
        r.id == *old(next_id),
        r.label@ == label@,
        r.children@ == children@,
        *final(next_id) == *old(next_id) + 1,
{
    let node = TreeNode { id: *next_id, label, children };
    *next_id = *next_id + 1;
    node
}

/// A name and how often it occurred.
#[derive(Debug, Clone)]
pub struct NameCount {
    pub name: String,
    pub count: usize,
}

impl SortKey for NameCount {
    /// Higher counts first; equal counts by name.
    open spec fn le_spec(&self, other: &Self) -> bool {
        self.count > other.count || (self.count == other.count && lex_le(self.name@, other.name@))
    }

    proof fn lemma_le_total(a: &Self, b: &Self) {
        lemma_lex_total(a.name@, b.name@);
    }

    proof fn lemma_le_trans(a: &Self, b: &Self, c: &Self) {
        if a.count == b.count && b.count == c.count {
            lemma_lex_trans(a.name@, b.name@, c.name@);
        }
    }

    fn key_le(&self, other: &Self) -> (r: bool) {
        self.count > other.count || (self.count == other.count && str_lex_le(
            self.name.as_str(),
            other.name.as_str(),
        ))
    }
}

/// How often `x` occurs in `names`.
pub open spec fn occurrences(names: Seq<Seq<char>>, x: Seq<char>) -> nat
    decreases names.len(),
{
    if names.len() == 0 {
        0
    } else {
        occurrences(names.drop_last(), x) + if names.last() == x {
            1nat
        } else {
            0nat
        }
    }
}

/// `counts` tallies `names`: one entry per distinct name, with its number
/// of occurrences.
pub open spec fn tallies(counts: Seq<NameCount>, names: Seq<Seq<char>>) -> bool {
    &&& forall|i: int, j: int| 0 <= i < j < counts.len() ==> counts[i].name@ != counts[j].name@
    &&& forall|i: int| 0 <= i < counts.len() ==> counts[i].count == occurrences(names, counts[i].name@)
    &&& forall|i: int| 0 <= i < counts.len() ==> counts[i].count > 0
    &&& forall|k: int| 0 <= k < names.len() ==> #[trigger] has_name(counts, names[k])
}

/// Some entry of `counts` has the name `x`.
pub open spec fn has_name(counts: Seq<NameCount>, x: Seq<char>) -> bool {
    exists|i: int| 0 <= i < counts.len() && #[trigger] counts[i].name@ == x
}

pub open spec fn names_view(names: Seq<String>) -> Seq<Seq<char>> {
    names.map_values(|n: String| n@)
}

proof fn lemma_occurrences_push(names: Seq<Seq<char>>, x: Seq<char>, y: Seq<char>)
    ensures
        occurrences(names.push(x), y) == occurrences(names, y) + if x == y {
            1nat
        } else {
            0nat
        },
        occurrences(names, y) <= names.len(),
    decreases names.len(),
{
    assert(names.push(x).drop_last() =~= names);
    if names.len() > 0 {
        lemma_occurrences_push(names.drop_last(), names.last(), y);
    }
}

proof fn lemma_occurrences_present(names: Seq<Seq<char>>, x: Seq<char>)
    requires
        occurrences(names, x) > 0,
    ensures
        exists|k: int| 0 <= k < names.len() && names[k] == x,
    decreases names.len(),
{
    if names.last() != x {
        lemma_occurrences_present(names.drop_last(), x);
        let k = choose|k: int| 0 <= k < names.drop_last().len() && names.drop_last()[k] == x;
        assert(names[k] == x);
    } else {
        assert(names[names.len() - 1] == x);
    }
}

/// A copy of a string.
fn copy_string(s: &String) -> (r: String)
    ensures
        r@ == s@,
{
    let mut r = String::new();
    push_str(&mut r, s.as_str());
    r
}

/// Count how often each name occurs.
pub fn tally(names: &[String]) -> (r: Vec<NameCount>)
    ensures
        tallies(r@, names_view(names@)),
{
    let ghost all = names_view(names@);
    let mut counts: Vec<NameCount> = Vec::new();
    let mut k: usize = 0;
    while k < names.len()
        invariant
            k <= names@.len(),
            all == names_view(names@),
            tallies(counts@, all.take(k as int)),
            counts@.len() <= k,
        decreases names@.len() - k,
    {
        let ghost seen = all.take(k as int);
        let ghost next = all.take(k + 1);
        let ghost x = names@[k as int]@;
        proof {
            assert(next =~= seen.push(x));
            assert forall|y: Seq<char>| #![auto]
                occurrences(next, y) == occurrences(seen, y) + if x == y {
                    1nat
                } else {
                    0nat
                } by {
                lemma_occurrences_push(seen, x, y);
            }
        }
        let name = &names[k];
        let mut j: usize = 0;
        while j < counts.len() && !str_eq(counts[j].name.as_str(), name.as_str())
            invariant
                j <= counts@.len(),
                forall|i: int| 0 <= i < j ==> counts@[i].name@ != name@,
            decreases counts@.len() - j,
        {
            j = j + 1;
        }
        let ghost before = counts@;
        if j < counts.len() {
            let old_count = counts[j].count;
            proof {
                lemma_occurrences_push(seen, x, x);
            }
            let entry = NameCount { name: copy_string(&counts[j].name), count: old_count + 1 };
            counts.set(j, entry);
            proof {
                assert forall|i: int| 0 <= i < counts@.len() && i != j implies counts@[i].name@ != x by {
                    if i < j {
                        assert(before[i].name@ != before[j as int].name@);
                    } else {
                        assert(before[j as int].name@ != before[i].name@);
                    }
                }
                assert forall|kk: int| 0 <= kk < next.len() implies #[trigger] has_name(counts@, next[kk]) by {
                    if kk < k {
                        assert(next[kk] == seen[kk]);
                        assert(has_name(before, seen[kk]));
                        let i = choose|i: int| 0 <= i < before.len() && #[trigger] before[i].name@ == seen[kk];
                        assert(counts@[i].name@ == next[kk]);
                    } else {
                        assert(counts@[j as int].name@ == next[kk]);
                    }
                }
            }
        } else {
            proof {
                if occurrences(seen, x) > 0 {
                    lemma_occurrences_present(seen, x);
                    let kk = choose|kk: int| 0 <= kk < seen.len() && seen[kk] == x;
                    assert(has_name(before, seen[kk]));
                    let i = choose|i: int| 0 <= i < before.len() && #[trigger] before[i].name@ == seen[kk];
                    assert(false);
                }
            }
            counts.push(NameCount { name: copy_string(name), count: 1 });
            proof {
                assert forall|kk: int| 0 <= kk < next.len() implies #[trigger] has_name(counts@, next[kk]) by {
                    if kk < k {
                        assert(next[kk] == seen[kk]);
                        assert(has_name(before, seen[kk]));
                        let i = choose|i: int| 0 <= i < before.len() && #[trigger] before[i].name@ == seen[kk];
                        assert(counts@[i].name@ == next[kk]);
                    } else {
                        assert(counts@[before.len() as int].name@ == next[kk]);
                    }
                }
            }
        }
        k = k + 1;
    }
    assert(all.take(k as int) =~= all);
    counts
}

/// The primary name of a container format list (`mov,mp4,...`): the first
/// entry, without surrounding white space.
pub open spec fn primary_format_spec(format_name: Seq<char>) -> Seq<char> {
    if exists|i: int| 0 <= i < format_name.len() && format_name[i] == ',' {
        trim_space(format_name.take(choose|i: int| 0 <= i < format_name.len() && format_name[i] == ','
            && forall|j: int| 0 <= j < i ==> format_name[j] != ','))
    } else {
        trim_space(format_name)
    }
}

/// The primary name of a container format list.
pub fn primary_format(format_name: &str) -> (r: String)
    ensures
        r@ == primary_format_spec(format_name@),
{
    let cs = chars_of(format_name);
    let mut i: usize = 0;
    while i < cs.len() && cs[i] != ','
        invariant
            cs@ == format_name@,
            i <= cs@.len(),
            forall|j: int| 0 <= j < i ==> cs@[j] != ',',
        decreases cs@.len() - i,
    {
        i = i + 1;
    }
    let mut first: Vec<char> = Vec::new();
    let mut k: usize = 0;
    while k < i
        invariant
            k <= i <= cs@.len(),
            first@ == cs@.take(k as int),
        decreases i - k,
    {
        first.push(cs[k]);
        k = k + 1;
        assert(first@ =~= cs@.take(k as int));
    }
    proof {
        if i < cs@.len() {
            let c = choose|c: int| 0 <= c < format_name@.len() && format_name@[c] == ','
                && forall|j: int| 0 <= j < c ==> format_name@[j] != ',';
            assert(0 <= i < format_name@.len() && format_name@[i as int] == ',');
            if c < i {
                assert(cs@[c] != ',');
            }
            if c > i {
                assert(format_name@[i as int] != ',');
            }
        } else {
            assert(first@ =~= format_name@);
        }
    }
    let trimmed = trim_chars(&first);
    string_from_chars(&trimmed)
}

/// Order counts by count (highest first), then by name.
pub fn sort_counts(counts: Vec<NameCount>) -> (r: Vec<NameCount>)
    ensures
        r@ == sort_spec(counts@),
        crate::sort::sorted(r@),
        r@.to_multiset() == counts@.to_multiset(),
{
    stable_sort(counts)
}

/// The container and codec tallies of a catalog: the primary container
/// names of the reports that have a format, and the codec names of their
/// streams, each counted and ordered by count, then name.
pub fn catalog_counts(format_names: &[Option<String>], codec_names: &[Option<String>]) -> (r: (Vec<NameCount>, Vec<NameCount>))
    ensures
        crate::sort::sorted(r.0@),
        crate::sort::sorted(r.1@),
        tallies(r.0@, primaries(format_names@)),
        tallies(r.1@, present(codec_names@)),
{
    let mut containers: Vec<String> = Vec::new();
    let mut i: usize = 0;
    while i < format_names.len()
        invariant
            i <= format_names@.len(),
            names_view(containers@) == primaries(format_names@.take(i as int)),
        decreases format_names@.len() - i,
    {
        proof {
            assert(format_names@.take(i + 1).drop_last() =~= format_names@.take(i as int));
        }
        match &format_names[i] {
            Some(f) => {
                let p = primary_format(f.as_str());
                containers.push(p);
                assert(names_view(containers@) =~= primaries(format_names@.take(i + 1)));
            },
            None => {
                assert(names_view(containers@) =~= primaries(format_names@.take(i + 1)));
            },
        }
        i = i + 1;
    }
    assert(format_names@.take(i as int) =~= format_names@);
    let mut codecs: Vec<String> = Vec::new();
    let mut j: usize = 0;
    while j < codec_names.len()
        invariant
            j <= codec_names@.len(),
            names_view(codecs@) == present(codec_names@.take(j as int)),
        decreases codec_names@.len() - j,
    {
        proof {
            assert(codec_names@.take(j + 1).drop_last() =~= codec_names@.take(j as int));
        }
        match &codec_names[j] {
            Some(c) => {
                let mut copy = String::new();
                push_str(&mut copy, c.as_str());
                codecs.push(copy);
                assert(names_view(codecs@) =~= present(codec_names@.take(j + 1)));
            },
            None => {
                assert(names_view(codecs@) =~= present(codec_names@.take(j + 1)));
            },
        }
        j = j + 1;
    }
    assert(codec_names@.take(j as int) =~= codec_names@);
    let c1 = tally(&containers);
    let c2 = tally(&codecs);
    let s1 = sort_counts(c1);
    let s2 = sort_counts(c2);
    proof {
        lemma_sorted_tally(c1@, s1@, names_view(containers@));
        lemma_sorted_tally(c2@, s2@, names_view(codecs@));
    }
    (s1, s2)
}

/// The primary container names of the formats that are present.
pub open spec fn primaries(fs: Seq<Option<String>>) -> Seq<Seq<char>>
    decreases fs.len(),
{
    if fs.len() == 0 {
        Seq::empty()
    } else {
        match fs.last() {
            Some(f) => primaries(fs.drop_last()).push(primary_format_spec(f@)),
            None => primaries(fs.drop_last()),
        }
    }
}

/// The names that are present.
pub open spec fn present(cs: Seq<Option<String>>) -> Seq<Seq<char>>
    decreases cs.len(),
{
    if cs.len() == 0 {
        Seq::empty()
    } else {
        match cs.last() {
            Some(c) => present(cs.drop_last()).push(c@),
            None => present(cs.drop_last()),
        }
    }
}

/// Reordering a tally keeps it a tally.
proof fn lemma_sorted_tally(a: Seq<NameCount>, b: Seq<NameCount>, names: Seq<Seq<char>>)
    requires
        tallies(a, names),
        a.to_multiset() == b.to_multiset(),
    ensures
        tallies(b, names),
{
    assert(a.len() == b.len()) by {
        vstd::seq_lib::to_multiset_len(a);
        vstd::seq_lib::to_multiset_len(b);
    }
    assert forall|i: int| 0 <= i < b.len() implies a.contains(#[trigger] b[i]) by {
        assert(b.to_multiset().count(b[i]) > 0);
        assert(a.to_multiset().count(b[i]) > 0);
    }
    assert forall|i: int| 0 <= i < a.len() implies b.contains(#[trigger] a[i]) by {
        assert(a.to_multiset().count(a[i]) > 0);
        assert(b.to_multiset().count(a[i]) > 0);
    }
    assert forall|i: int| 0 <= i < b.len() implies b[i].count == occurrences(names, b[i].name@)
        && b[i].count > 0 by {
        assert(a.contains(b[i]));
        let x = choose|x: int| 0 <= x < a.len() && a[x] == b[i];
        assert(a[x].count == occurrences(names, a[x].name@));
    }
    assert forall|i: int, j: int| 0 <= i < j < b.len() implies b[i].name@ != b[j].name@ by {
        let ii = choose|x: int| 0 <= x < a.len() && a[x] == b[i];
        let jj = choose|x: int| 0 <= x < a.len() && a[x] == b[j];
        if b[i].name@ == b[j].name@ {
            if ii == jj {
                assert(b[i] == b[j]);
                assert(b.to_multiset().count(b[i]) >= 2) by {
                    lemma_two_copies(b, i, j);
                }
                assert(a.to_multiset().count(a[ii]) <= 1) by {
                    lemma_distinct_count(a, ii);
                }
            } else if ii < jj {
                assert(a[ii].name@ != a[jj].name@);
            } else {
                assert(a[jj].name@ != a[ii].name@);
            }
        }
    }
    assert forall|k: int| 0 <= k < names.len() implies #[trigger] has_name(b, names[k]) by {
        assert(has_name(a, names[k]));
        let i = choose|i: int| 0 <= i < a.len() && #[trigger] a[i].name@ == names[k];
        assert(b.contains(a[i]));
        let x = choose|x: int| 0 <= x < b.len() && b[x] == a[i];
        assert(0 <= x < b.len() && b[x].name@ == names[k]);
    }
}

proof fn lemma_two_copies(s: Seq<NameCount>, i: int, j: int)
    requires
        0 <= i < j < s.len(),
        s[i] == s[j],
    ensures
        s.to_multiset().count(s[i]) >= 2,
    decreases s.len(),
{
    broadcast use vstd::seq_lib::group_to_multiset_ensures;
    let last = s.len() - 1;
    assert(s =~= s.drop_last().push(s.last()));
    vstd::seq_lib::to_multiset_build(s.drop_last(), s.last());
    if j < last {
        lemma_two_copies(s.drop_last(), i, j);
    } else {
        assert(s.drop_last()[i] == s[i]);
        assert(s.drop_last().contains(s[i]));
    }
}

proof fn lemma_distinct_count(s: Seq<NameCount>, k: int)
    requires
        0 <= k < s.len(),
        forall|i: int, j: int| 0 <= i < j < s.len() ==> s[i].name@ != s[j].name@,
    ensures
        s.to_multiset().count(s[k]) <= 1,
    decreases s.len(),
{
    broadcast use vstd::seq_lib::group_to_multiset_ensures;
    let last = s.len() - 1;
    assert(s =~= s.drop_last().push(s.last()));
    vstd::seq_lib::to_multiset_build(s.drop_last(), s.last());
    if k < last {
        lemma_distinct_count(s.drop_last(), k);
        assert(s.last() != s[k]) by {
            assert(s[k].name@ != s[last].name@);
        }
    } else {
        assert forall|i: int| 0 <= i < s.drop_last().len() implies s.drop_last()[i] != s[k] by {
            assert(s[i].name@ != s[k].name@);
        }
        assert(!s.drop_last().contains(s[k]));
    }
}

} // verus!
