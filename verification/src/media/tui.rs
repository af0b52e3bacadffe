//! The media explorer's text UI: the tree of nodes built from a probed file,
//! the colour of each line, the navigation state and how keys move it.
use vstd::prelude::*;

use std::collections::BTreeSet;

use super::{find_parent_index, media_type_name, media_type_text, new_node, parent_line, FlatLine, MediaType, TreeNode};
use crate::text::{
    chars_of, contains_chars, dec, dec_string, ends_with_chars, push_str, seq_contains, seq_ends_with,
    seq_starts_with, signed_dec, signed_string, starts_with_chars, str_eq, zero_pad, zero_padded,
};

verus! {

// ---------------------------------------------------------------------------
// Numbering: every node gets the next id after all of its children, in order.
// ---------------------------------------------------------------------------

/// The number of nodes in a subtree.
pub open spec fn size(n: TreeNode) -> nat
    decreases n,
{
    1 + sizes(n.children@)
}

/// The number of nodes in several sibling subtrees.
pub open spec fn sizes(ns: Seq<TreeNode>) -> nat
    decreases ns,
{
    if ns.len() == 0 {
        0
    } else {
        sizes(ns.drop_last()) + size(ns.last())
    }
}

/// The subtree's ids are `start, start + 1, ...` in post-order: each child's
/// subtree in turn, then the node itself.
pub open spec fn numbered(n: TreeNode, start: nat) -> bool
    decreases n,
{
    numbered_all(n.children@, start) && n.id == start + sizes(n.children@)
}

/// Sibling subtrees numbered one after the other from `start`.
pub open spec fn numbered_all(ns: Seq<TreeNode>, start: nat) -> bool
    decreases ns,
{
    if ns.len() == 0 {
        true
    } else {
        numbered_all(ns.drop_last(), start) && numbered(ns.last(), start + sizes(ns.drop_last()))
    }
}

/// Sibling subtrees numbered one after the other, the last id being `end - 1`.
pub open spec fn numbered_upto(ns: Seq<TreeNode>, end: nat) -> bool {
    sizes(ns) <= end && numbered_all(ns, (end - sizes(ns)) as nat)
}

proof fn lemma_upto_push(ns: Seq<TreeNode>, n: TreeNode, end: nat)
    requires
        numbered_upto(ns, end),
        numbered(n, end),
    ensures
        numbered_upto(ns.push(n), end + size(n)),
        sizes(ns.push(n)) == sizes(ns) + size(n),
{
    assert(ns.push(n).drop_last() =~= ns);
}

proof fn lemma_node_numbered(n: TreeNode, end: nat)
    requires
        numbered_upto(n.children@, end),
        n.id == end,
    ensures
        numbered(n, (end - sizes(n.children@)) as nat),
        size(n) == sizes(n.children@) + 1,
{
}

// ---------------------------------------------------------------------------
// Shapes: which labels the nodes carry.
// ---------------------------------------------------------------------------

/// A node with the given label and no children.
pub open spec fn is_leaf(n: TreeNode, label: Seq<char>) -> bool {
    n.label@ == label && n.children@.len() == 0
}

/// One leaf per label, in order.
pub open spec fn leaves(ns: Seq<TreeNode>, labels: Seq<Seq<char>>) -> bool {
    ns.len() == labels.len() && forall|i: int| 0 <= i < ns.len() ==> #[trigger] is_leaf(ns[i], labels[i])
}

proof fn lemma_leaves_push(ns: Seq<TreeNode>, labels: Seq<Seq<char>>, n: TreeNode, label: Seq<char>)
    requires
        leaves(ns, labels),
        is_leaf(n, label),
    ensures
        leaves(ns.push(n), labels.push(label)),
{
    assert forall|i: int| 0 <= i < ns.push(n).len() implies #[trigger] is_leaf(ns.push(n)[i], labels.push(label)[i]) by {
        if i < ns.len() {
            assert(is_leaf(ns[i], labels[i]));
        }
    }
}

/// The label of a key/value entry.
pub open spec fn pair_label(p: (String, String)) -> Seq<char> {
    p.0@ + ": "@ + p.1@
}

pub open spec fn pair_labels(ps: Seq<(String, String)>) -> Seq<Seq<char>> {
    Seq::new(ps.len(), |i: int| pair_label(ps[i]))
}

/// A node labelled `label` with one leaf per key/value entry.
pub open spec fn pairs_node(n: TreeNode, label: Seq<char>, pairs: Seq<(String, String)>) -> bool {
    n.label@ == label && leaves(n.children@, pair_labels(pairs))
}

/// Leaves with the given labels, then, when there are entries, a node
/// `label` that lists them.
pub open spec fn leaves_then_pairs(
    ns: Seq<TreeNode>,
    labels: Seq<Seq<char>>,
    label: Seq<char>,
    pairs: Seq<(String, String)>,
) -> bool {
    if pairs.len() == 0 {
        leaves(ns, labels)
    } else {
        &&& ns.len() == labels.len() + 1
        &&& leaves(ns.drop_last(), labels)
        &&& pairs_node(ns.last(), label, pairs)
    }
}

/// The number of nodes that a list of entries adds below its parent.
pub open spec fn pairs_size(pairs: Seq<(String, String)>) -> nat {
    if pairs.len() == 0 {
        0
    } else {
        pairs.len() + 1
    }
}

/// A one-element list when `o` holds a text, with `prefix` before it.
pub open spec fn opt_labels(prefix: Seq<char>, o: Option<String>) -> Seq<Seq<char>> {
    match o {
        Some(t) => seq![prefix + t@],
        None => Seq::empty(),
    }
}

/// A one-element list when `c` holds.
pub open spec fn cond_labels(c: bool, label: Seq<char>) -> Seq<Seq<char>> {
    if c {
        seq![label]
    } else {
        Seq::empty()
    }
}

/// The text, or `unknown` when there is none.
pub open spec fn or_unknown(o: Option<String>) -> Seq<char> {
    match o {
        Some(t) => t@,
        None => "unknown"@,
    }
}

/// What the tree shows of a probed file. The texts that come from measured
/// quantities (durations, sizes, bit rates, frame rates) arrive formatted.
pub struct ReportOverview {
    pub path: String,
    pub format_name: Option<String>,
    /// `HH:MM:SS (N.NNs)`.
    pub duration_text: Option<String>,
    pub size_text: Option<String>,
    pub bit_rate_text: Option<String>,
    /// Container tags, in key order.
    pub tags: Vec<(String, String)>,
}

/// What the tree shows of one stream.
pub struct StreamOverview {
    pub index: usize,
    pub media_type: MediaType,
    pub codec_name: Option<String>,
    pub width: i32,
    pub height: i32,
    /// The average frame rate with three decimals, when known.
    pub frame_rate_text: Option<String>,
    pub sample_rate: i32,
    pub channels: i32,
    pub bit_rate: i64,
    /// The bit rate as text (shown when the bit rate is positive).
    pub bit_rate_text: String,
    pub duration_text: Option<String>,
    /// Stream metadata, in key order.
    pub metadata: Vec<(String, String)>,
}

/// One demuxed packet.
#[derive(Debug, Clone, Copy, PartialEq, Eq, Structural)]
pub struct PacketReport {
    pub index: usize,
    pub stream_index: i32,
    pub pts: i64,
    pub dts: i64,
    pub duration: i64,
    pub size: i32,
    pub pos: i64,
    pub is_keyframe: bool,
}

/// The leaf labels under `container`, before the tags.
pub open spec fn container_labels(r: ReportOverview) -> Seq<Seq<char>> {
    seq!["format: "@ + or_unknown(r.format_name)] + opt_labels("duration: "@, r.duration_text)
        + opt_labels("size: "@, r.size_text) + opt_labels("bitrate: "@, r.bit_rate_text)
}

/// The `container` node: format, duration, size and bit rate, then the tags.
pub open spec fn container_ok(n: TreeNode, r: ReportOverview) -> bool {
    n.label@ == "container"@ && leaves_then_pairs(n.children@, container_labels(r), "tags"@, r.tags@)
}

pub open spec fn container_size(r: ReportOverview) -> nat {
    1 + container_labels(r).len() + pairs_size(r.tags@)
}

/// The title of a stream's node.
pub open spec fn stream_title(s: StreamOverview) -> Seq<char> {
    "stream #"@ + dec(s.index as nat) + " ["@ + media_type_text(s.media_type) + "] codec="@
        + or_unknown(s.codec_name)
}

/// The leaf labels under a stream, before its metadata.
pub open spec fn stream_labels(s: StreamOverview) -> Seq<Seq<char>> {
    cond_labels(
        s.width > 0 && s.height > 0,
        "resolution: "@ + dec(s.width as nat) + "x"@ + dec(s.height as nat),
    ) + match s.frame_rate_text {
        Some(t) => seq!["frame_rate: "@ + t@ + " fps"@],
        None => Seq::empty(),
    } + cond_labels(s.sample_rate > 0, "sample_rate: "@ + dec(s.sample_rate as nat) + " Hz"@)
        + cond_labels(s.channels > 0, "channels: "@ + dec(s.channels as nat)) + cond_labels(
        s.bit_rate > 0,
        "bitrate: "@ + s.bit_rate_text@,
    ) + opt_labels("duration: "@, s.duration_text)
}

/// A stream's node: its details, then its metadata.
pub open spec fn stream_ok(n: TreeNode, s: StreamOverview) -> bool {
    n.label@ == stream_title(s) && leaves_then_pairs(n.children@, stream_labels(s), "metadata"@, s.metadata@)
}

pub open spec fn stream_size(s: StreamOverview) -> nat {
    1 + stream_labels(s).len() + pairs_size(s.metadata@)
}

pub open spec fn streams_size(ss: Seq<StreamOverview>) -> nat
    decreases ss.len(),
{
    if ss.len() == 0 {
        0
    } else {
        streams_size(ss.drop_last()) + stream_size(ss.last())
    }
}

/// The `streams (N)` node: one child per stream, in order.
pub open spec fn streams_ok(n: TreeNode, ss: Seq<StreamOverview>) -> bool {
    &&& n.label@ == "streams ("@ + dec(ss.len()) + ")"@
    &&& n.children@.len() == ss.len()
    &&& forall|i: int| 0 <= i < ss.len() ==> #[trigger] stream_ok(n.children@[i], ss[i])
}

// ---------------------------------------------------------------------------
// Building the nodes.
// ---------------------------------------------------------------------------

/// A childless node with the next id.
fn leaf(next_id: &mut usize, label: String) -> (n: TreeNode)
    requires
        *old(next_id) < usize::MAX,
    ensures
        is_leaf(n, label@),
        numbered(n, *old(next_id) as nat),
        size(n) == 1,
        *final(next_id) == *old(next_id) + 1,
{
    let n = new_node(next_id, label, Vec::new());
    assert(n.children@.len() == 0);
    n
}

/// Append a leaf to a list of siblings.
fn push_leaf(
    list: &mut Vec<TreeNode>,
    next_id: &mut usize,
    label: String,
    Ghost(labels): Ghost<Seq<Seq<char>>>,
)
    requires
        *old(next_id) < usize::MAX,
        numbered_upto(old(list)@, *old(next_id) as nat),
        leaves(old(list)@, labels),
    ensures
        numbered_upto(final(list)@, *final(next_id) as nat),
        leaves(final(list)@, labels.push(label@)),
        sizes(final(list)@) == sizes(old(list)@) + 1,
        *final(next_id) == *old(next_id) + 1,
{
    let ghost l = label@;
    let ghost before = list@;
    let n = leaf(next_id, label);
    proof {
        lemma_upto_push(before, n, *old(next_id) as nat);
        lemma_leaves_push(before, labels, n, l);
    }
    list.push(n);
}

/// `key: value`.
fn pair_text(p: &(String, String)) -> (r: String)
    ensures
        r@ == pair_label(*p),
{
    let mut r = String::new();
    push_str(&mut r, p.0.as_str());
    push_str(&mut r, ": ");
    push_str(&mut r, p.1.as_str());
    r
}

/// A node `label` with one leaf per entry.
fn pairs_node_of(next_id: &mut usize, label: String, pairs: &Vec<(String, String)>) -> (n: TreeNode)
    requires
        *old(next_id) + pairs@.len() + 1 <= usize::MAX,
    ensures
        pairs_node(n, label@, pairs@),
        numbered(n, *old(next_id) as nat),
        size(n) == pairs@.len() + 1,
        *final(next_id) == *old(next_id) + size(n),
{
    let ghost start = *next_id as nat;
    let mut list: Vec<TreeNode> = Vec::new();
    let mut i: usize = 0;
    while i < pairs.len()
        invariant
            i <= pairs@.len(),
            start + pairs@.len() + 1 <= usize::MAX,
            *next_id == start + i,
            sizes(list@) == i,
            numbered_upto(list@, *next_id as nat),
            leaves(list@, pair_labels(pairs@).take(i as int)),
        decreases pairs@.len() - i,
    {
        let text = pair_text(&pairs[i]);
        let ghost before = list@;
        push_leaf(&mut list, next_id, text, Ghost(pair_labels(pairs@).take(i as int)));
        proof {
            assert(pair_labels(pairs@).take(i as int).push(pair_label(pairs@[i as int])) =~= pair_labels(
                pairs@,
            ).take(i + 1));
        }
        i = i + 1;
    }
    assert(pair_labels(pairs@).take(i as int) =~= pair_labels(pairs@));
    let ghost children = list@;
    let n = new_node(next_id, label, list);
    proof {
        lemma_node_numbered(n, (start + i) as nat);
    }
    n
}

/// A list that ends with a node for the entries, when there are any.
fn push_pairs(
    list: &mut Vec<TreeNode>,
    next_id: &mut usize,
    label: String,
    pairs: &Vec<(String, String)>,
    Ghost(labels): Ghost<Seq<Seq<char>>>,
)
    requires
        *old(next_id) + pairs_size(pairs@) <= usize::MAX,
        numbered_upto(old(list)@, *old(next_id) as nat),
        leaves(old(list)@, labels),
    ensures
        numbered_upto(final(list)@, *final(next_id) as nat),
        leaves_then_pairs(final(list)@, labels, label@, pairs@),
        sizes(final(list)@) == sizes(old(list)@) + pairs_size(pairs@),
        *final(next_id) == *old(next_id) + pairs_size(pairs@),
{
    if pairs.len() > 0 {
        let ghost before = list@;
        let ghost l = label@;
        let n = pairs_node_of(next_id, label, pairs);
        proof {
            lemma_upto_push(before, n, *old(next_id) as nat);
        }
        list.push(n);
        proof {
            assert(list@.drop_last() =~= before);
        }
    }
}

/// `prefix` followed by `text`.
fn prefixed(prefix: &str, text: &str) -> (r: String)
    ensures
        r@ == prefix@ + text@,
{
    let mut r = String::new();
    push_str(&mut r, prefix);
    push_str(&mut r, text);
    r
}

/// The `container` node of a report.
fn container_node(next_id: &mut usize, r: &ReportOverview) -> (n: TreeNode)
    requires
        *old(next_id) + container_size(*r) <= usize::MAX,
    ensures
        container_ok(n, *r),
        numbered(n, *old(next_id) as nat),
        size(n) == container_size(*r),
        *final(next_id) == *old(next_id) + size(n),
{
    let ghost start = *next_id as nat;
    let ghost mut labels: Seq<Seq<char>> = Seq::empty();
    let mut list: Vec<TreeNode> = Vec::new();
    assert(sizes(list@) == 0);
    let format = match &r.format_name {
        Some(f) => prefixed("format: ", f.as_str()),
        None => prefixed("format: ", "unknown"),
    };
    let ghost l0 = format@;
    push_leaf(&mut list, next_id, format, Ghost(labels));
    proof {
        labels = labels.push(l0);
    }
    if let Some(d) = &r.duration_text {
        let t = prefixed("duration: ", d.as_str());
        let ghost l = t@;
        push_leaf(&mut list, next_id, t, Ghost(labels));
        proof {
            labels = labels.push(l);
        }
    }
    if let Some(s) = &r.size_text {
        let t = prefixed("size: ", s.as_str());
        let ghost l = t@;
        push_leaf(&mut list, next_id, t, Ghost(labels));
        proof {
            labels = labels.push(l);
        }
    }
    if let Some(b) = &r.bit_rate_text {
        let t = prefixed("bitrate: ", b.as_str());
        let ghost l = t@;
        push_leaf(&mut list, next_id, t, Ghost(labels));
        proof {
            labels = labels.push(l);
        }
    }
    assert(labels =~= container_labels(*r));
    push_pairs(&mut list, next_id, "tags".to_string(), &r.tags, Ghost(labels));
    let n = new_node(next_id, "container".to_string(), list);
    proof {
        lemma_node_numbered(n, (start + container_size(*r) - 1) as nat);
    }
    n
}

/// `s` as text, or `unknown`.
fn text_or_unknown(o: &Option<String>) -> (r: &str)
    ensures
        r@ == or_unknown(*o),
{
    match o {
        Some(t) => t.as_str(),
        None => "unknown",
    }
}

/// The node of one stream.
#[verifier::rlimit(40)]
fn stream_node(next_id: &mut usize, s: &StreamOverview) -> (n: TreeNode)
    requires
        *old(next_id) + stream_size(*s) <= usize::MAX,
    ensures
        stream_ok(n, *s),
        numbered(n, *old(next_id) as nat),
        size(n) == stream_size(*s),
        *final(next_id) == *old(next_id) + size(n),
{
    let ghost start = *next_id as nat;
    let mut title = String::new();
    push_str(&mut title, "stream #");
    push_str(&mut title, dec_string(s.index as u64).as_str());
    push_str(&mut title, " [");
    push_str(&mut title, media_type_name(s.media_type));
    push_str(&mut title, "] codec=");
    push_str(&mut title, text_or_unknown(&s.codec_name));
    let ghost mut labels: Seq<Seq<char>> = Seq::empty();
    let mut list: Vec<TreeNode> = Vec::new();
    assert(sizes(list@) == 0);
    if s.width > 0 && s.height > 0 {
        let mut t = String::new();
        push_str(&mut t, "resolution: ");
        push_str(&mut t, dec_string(s.width as u64).as_str());
        push_str(&mut t, "x");
        push_str(&mut t, dec_string(s.height as u64).as_str());
        let ghost l = t@;
        push_leaf(&mut list, next_id, t, Ghost(labels));
        proof {
            labels = labels.push(l);
        }
    }
    if let Some(f) = &s.frame_rate_text {
        let mut t = String::new();
        push_str(&mut t, "frame_rate: ");
        push_str(&mut t, f.as_str());
        push_str(&mut t, " fps");
        let ghost l = t@;
        push_leaf(&mut list, next_id, t, Ghost(labels));
        proof {
            labels = labels.push(l);
        }
    }
    if s.sample_rate > 0 {
        let mut t = String::new();
        push_str(&mut t, "sample_rate: ");
        push_str(&mut t, dec_string(s.sample_rate as u64).as_str());
        push_str(&mut t, " Hz");
        let ghost l = t@;
        push_leaf(&mut list, next_id, t, Ghost(labels));
        proof {
            labels = labels.push(l);
        }
    }
    if s.channels > 0 {
        let t = prefixed("channels: ", dec_string(s.channels as u64).as_str());
        let ghost l = t@;
        push_leaf(&mut list, next_id, t, Ghost(labels));
        proof {
            labels = labels.push(l);
        }
    }
    if s.bit_rate > 0 {
        let t = prefixed("bitrate: ", s.bit_rate_text.as_str());
        let ghost l = t@;
        push_leaf(&mut list, next_id, t, Ghost(labels));
        proof {
            labels = labels.push(l);
        }
    }
    if let Some(d) = &s.duration_text {
        let t = prefixed("duration: ", d.as_str());
        let ghost l = t@;
        push_leaf(&mut list, next_id, t, Ghost(labels));
        proof {
            labels = labels.push(l);
        }
    }
    assert(labels =~= stream_labels(*s));
    push_pairs(&mut list, next_id, "metadata".to_string(), &s.metadata, Ghost(labels));
    let n = new_node(next_id, title, list);
    proof {
        lemma_node_numbered(n, (start + stream_size(*s) - 1) as nat);
    }
    n
}

/// The `streams (N)` node.
fn streams_node(next_id: &mut usize, ss: &[StreamOverview]) -> (n: TreeNode)
    requires
        *old(next_id) + streams_size(ss@) + 1 <= usize::MAX,
    ensures
        streams_ok(n, ss@),
        numbered(n, *old(next_id) as nat),
        size(n) == streams_size(ss@) + 1,
        *final(next_id) == *old(next_id) + size(n),
{
    let ghost start = *next_id as nat;
    let mut list: Vec<TreeNode> = Vec::new();
    let mut i: usize = 0;
    while i < ss.len()
        invariant
            i <= ss@.len(),
            start + streams_size(ss@) + 1 <= usize::MAX,
            *next_id == start + streams_size(ss@.take(i as int)),
            sizes(list@) == streams_size(ss@.take(i as int)),
            numbered_upto(list@, *next_id as nat),
            list@.len() == i,
            forall|j: int| 0 <= j < i ==> #[trigger] stream_ok(list@[j], ss@[j]),
        decreases ss@.len() - i,
    {
        proof {
            assert(ss@.take(i + 1).drop_last() =~= ss@.take(i as int));
            lemma_streams_size_prefix(ss@, i + 1);
        }
        let ghost before = list@;
        let ghost at = *next_id as nat;
        let n = stream_node(next_id, &ss[i]);
        proof {
            lemma_upto_push(before, n, at);
        }
        list.push(n);
        i = i + 1;
        proof {
            assert forall|j: int| 0 <= j < i implies #[trigger] stream_ok(list@[j], ss@[j]) by {
                if j < i - 1 {
                    assert(list@[j] == before[j]);
                }
            }
        }
    }
    assert(ss@.take(i as int) =~= ss@);
    let mut label = String::new();
    push_str(&mut label, "streams (");
    push_str(&mut label, dec_string(ss.len() as u64).as_str());
    push_str(&mut label, ")");
    let n = new_node(next_id, label, list);
    proof {
        lemma_node_numbered(n, (start + streams_size(ss@)) as nat);
    }
    n
}

proof fn lemma_streams_size_prefix(ss: Seq<StreamOverview>, k: int)
    requires
        0 <= k <= ss.len(),
    ensures
        streams_size(ss.take(k)) <= streams_size(ss),
    decreases ss.len(),
{
    if k < ss.len() {
        assert(ss.drop_last().take(k) =~= ss.take(k));
        lemma_streams_size_prefix(ss.drop_last(), k);
    } else {
        assert(ss.take(k) =~= ss);
    }
}

// ---------------------------------------------------------------------------
// Packets, grouped by stream.
// ---------------------------------------------------------------------------

pub open spec fn yes_no(b: bool) -> Seq<char> {
    if b {
        "yes"@
    } else {
        "no"@
    }
}

pub open spec fn bool_text(b: bool) -> Seq<char> {
    if b {
        "true"@
    } else {
        "false"@
    }
}

/// `packet #NNNNN size=S keyframe=yes|no`.
pub open spec fn packet_label(p: PacketReport) -> Seq<char> {
    "packet #"@ + zero_pad(dec(p.index as nat), 5) + " size="@ + signed_dec(p.size as int) + " keyframe="@
        + yes_no(p.is_keyframe)
}

/// The field leaves under a packet.
pub open spec fn packet_fields(p: PacketReport) -> Seq<Seq<char>> {
    seq![
        "stream_index: "@ + signed_dec(p.stream_index as int),
        "pts: "@ + signed_dec(p.pts as int),
        "dts: "@ + signed_dec(p.dts as int),
        "duration: "@ + signed_dec(p.duration as int),
        "size: "@ + signed_dec(p.size as int),
        "position: "@ + signed_dec(p.pos as int),
        "keyframe: "@ + bool_text(p.is_keyframe),
    ]
}

pub open spec fn packet_ok(n: TreeNode, p: PacketReport) -> bool {
    n.label@ == packet_label(p) && leaves(n.children@, packet_fields(p))
}

/// The packets of one stream, in order.
pub open spec fn in_stream(ps: Seq<PacketReport>, k: i32) -> Seq<PacketReport> {
    ps.filter(|p: PacketReport| p.stream_index == k)
}

/// The packets of any of the given streams, in order.
pub open spec fn in_keys(ps: Seq<PacketReport>, keys: Seq<i32>) -> Seq<PacketReport> {
    ps.filter(|p: PacketReport| keys.contains(p.stream_index))
}

/// Some packet belongs to stream `k`.
pub open spec fn has_stream(ps: Seq<PacketReport>, k: i32) -> bool {
    exists|m: int| 0 <= m < ps.len() && #[trigger] ps[m].stream_index == k
}

/// `keys` lists the streams that the packets belong to, each once, in
/// increasing order.
pub open spec fn stream_keys_ok(keys: Seq<i32>, ps: Seq<PacketReport>) -> bool {
    &&& forall|i: int, j: int| 0 <= i < j < keys.len() ==> keys[i] < keys[j]
    &&& forall|i: int| 0 <= i < keys.len() ==> #[trigger] has_stream(ps, keys[i])
    &&& forall|m: int| 0 <= m < ps.len() ==> keys.contains(#[trigger] ps[m].stream_index)
}

/// `stream K packets (N)`.
pub open spec fn group_label(k: i32, count: nat) -> Seq<char> {
    "stream "@ + signed_dec(k as int) + " packets ("@ + dec(count) + ")"@
}

/// The node of stream `k`'s packets: one child per packet, in order.
pub open spec fn group_ok(n: TreeNode, k: i32, ps: Seq<PacketReport>) -> bool {
    let q = in_stream(ps, k);
    &&& n.label@ == group_label(k, q.len())
    &&& n.children@.len() == q.len()
    &&& forall|j: int| 0 <= j < q.len() ==> #[trigger] packet_ok(n.children@[j], q[j])
}

/// The header of the packets node.
pub open spec fn packets_header(count: nat, truncated: bool, max_packets: nat) -> Seq<char> {
    if truncated {
        "packets captured "@ + dec(count) + " (truncated at "@ + dec(max_packets) + ")"@
    } else {
        "packets captured "@ + dec(count) + " (complete)"@
    }
}

/// The packets node: one group per stream, in increasing stream order.
pub open spec fn packets_ok(n: TreeNode, ps: Seq<PacketReport>, truncated: bool, max_packets: nat) -> bool {
    &&& n.label@ == packets_header(ps.len(), truncated, max_packets)
    &&& exists|keys: Seq<i32>|
        {
            &&& stream_keys_ok(keys, ps)
            &&& n.children@.len() == keys.len()
            &&& forall|k: int| 0 <= k < keys.len() ==> #[trigger] group_ok(n.children@[k], keys[k], ps)
        }
}

proof fn lemma_in_stream_step(ps: Seq<PacketReport>, k: i32, j: int)
    requires
        0 <= j < ps.len(),
    ensures
        in_stream(ps.take(j + 1), k) == if ps[j].stream_index == k {
            in_stream(ps.take(j), k).push(ps[j])
        } else {
            in_stream(ps.take(j), k)
        },
{
    reveal(Seq::filter);
    assert(ps.take(j + 1).drop_last() =~= ps.take(j));
    assert(ps.take(j + 1).last() == ps[j]);
}

proof fn lemma_in_stream_prefix(ps: Seq<PacketReport>, k: i32, j: int)
    requires
        0 <= j <= ps.len(),
    ensures
        in_stream(ps.take(j), k).len() <= in_stream(ps, k).len(),
    decreases ps.len(),
{
    reveal(Seq::filter);
    if j < ps.len() {
        assert(ps.drop_last().take(j) =~= ps.take(j));
        lemma_in_stream_prefix(ps.drop_last(), k, j);
    } else {
        assert(ps.take(j) =~= ps);
    }
}

proof fn lemma_has_stream_count(ps: Seq<PacketReport>, k: i32)
    requires
        has_stream(ps, k),
    ensures
        in_stream(ps, k).len() >= 1,
    decreases ps.len(),
{
    reveal(Seq::filter);
    if ps.last().stream_index != k {
        let m = choose|m: int| 0 <= m < ps.len() && #[trigger] ps[m].stream_index == k;
        assert(ps.drop_last()[m].stream_index == k);
        lemma_has_stream_count(ps.drop_last(), k);
    }
}

proof fn lemma_in_keys_bounds(ps: Seq<PacketReport>, keys: Seq<i32>)
    ensures
        in_keys(ps, keys).len() <= ps.len(),
        keys.len() == 0 ==> in_keys(ps, keys).len() == 0,
    decreases ps.len(),
{
    reveal(Seq::filter);
    if ps.len() > 0 {
        lemma_in_keys_bounds(ps.drop_last(), keys);
    }
}

proof fn lemma_split_keys(ps: Seq<PacketReport>, keys: Seq<i32>, k: i32)
    requires
        !keys.contains(k),
    ensures
        in_keys(ps, keys.push(k)).len() == in_keys(ps, keys).len() + in_stream(ps, k).len(),
    decreases ps.len(),
{
    reveal(Seq::filter);
    if ps.len() > 0 {
        lemma_split_keys(ps.drop_last(), keys, k);
        let x = ps.last().stream_index;
        if x == k {
            assert(keys.push(k)[keys.len() as int] == k);
        }
        if keys.contains(x) {
            let i = choose|i: int| 0 <= i < keys.len() && keys[i] == x;
            assert(keys.push(k)[i] == x);
        }
        if keys.push(k).contains(x) {
            let i = choose|i: int| 0 <= i < keys.len() + 1 && keys.push(k)[i] == x;
            if i < keys.len() {
                assert(keys[i] == x);
            }
        }
    }
}

/// The streams that the packets belong to, each once, in increasing order.
pub fn stream_keys(packets: &[PacketReport]) -> (keys: Vec<i32>)
    ensures
        stream_keys_ok(keys@, packets@),
{
    let mut keys: Vec<i32> = Vec::new();
    let mut j: usize = 0;
    while j < packets.len()
        invariant
            j <= packets@.len(),
            stream_keys_ok(keys@, packets@.take(j as int)),
        decreases packets@.len() - j,
    {
        let k = packets[j].stream_index;
        let ghost seen = packets@.take(j as int);
        let ghost next = packets@.take(j + 1);
        assert(forall|m: int| 0 <= m < seen.len() ==> next[m] == seen[m]);
        assert(next[j as int] == packets@[j as int]);
        let mut p: usize = 0;
        while p < keys.len() && keys[p] < k
            invariant
                p <= keys@.len(),
                forall|q: int| 0 <= q < p ==> keys@[q] < k,
            decreases keys@.len() - p,
        {
            p = p + 1;
        }
        let ghost before = keys@;
        if p < keys.len() && keys[p] == k {
            proof {
                assert forall|i: int| 0 <= i < keys@.len() implies #[trigger] has_stream(next, keys@[i]) by {
                    assert(has_stream(seen, keys@[i]));
                    let m = choose|m: int| 0 <= m < seen.len() && #[trigger] seen[m].stream_index == keys@[i];
                    assert(next[m].stream_index == keys@[i]);
                }
                assert forall|m: int| 0 <= m < next.len() implies keys@.contains(#[trigger] next[m].stream_index) by {
                    if m < j {
                        assert(next[m] == seen[m]);
                        assert(keys@.contains(seen[m].stream_index));
                    } else {
                        assert(keys@[p as int] == k);
                    }
                }
            }
        } else {
            proof {
                before.insert_ensures(p as int, k);
                if p < before.len() {
                    assert(before[p as int] > k) by {
                        assert(before[p as int] >= k);
                        assert(before[p as int] != k);
                    }
                }
            }
            keys.insert(p, k);
            proof {
                let after = keys@;
                assert forall|a: int, b: int| 0 <= a < b < after.len() implies after[a] < after[b] by {
                    if a < p && b < p {
                        assert(after[a] == before[a] && after[b] == before[b]);
                    } else if a < p && b == p {
                        assert(before[a] < k);
                    } else if a < p {
                        assert(after[b] == before[b - 1]);
                        assert(before[a] < k);
                        assert(before[p as int] > k);
                        assert(before[p as int] <= before[b - 1]);
                    } else if a == p {
                        assert(after[b] == before[b - 1]);
                        assert(before[p as int] > k);
                        assert(before[p as int] <= before[b - 1]);
                    } else {
                        assert(after[a] == before[a - 1] && after[b] == before[b - 1]);
                    }
                }
                assert forall|i: int| 0 <= i < after.len() implies #[trigger] has_stream(next, after[i]) by {
                    if i == p {
                        assert(next[j as int].stream_index == k);
                    } else {
                        let bi = if i < p {
                            i
                        } else {
                            i - 1
                        };
                        assert(after[i] == before[bi]);
                        assert(has_stream(seen, before[bi]));
                        let m = choose|m: int| 0 <= m < seen.len() && #[trigger] seen[m].stream_index == before[bi];
                        assert(next[m].stream_index == after[i]);
                    }
                }
                assert forall|m: int| 0 <= m < next.len() implies after.contains(#[trigger] next[m].stream_index) by {
                    if m < j {
                        assert(next[m] == seen[m]);
                        assert(before.contains(seen[m].stream_index));
                        let i = choose|i: int| 0 <= i < before.len() && before[i] == seen[m].stream_index;
                        if i < p {
                            assert(after[i] == before[i]);
                        } else {
                            assert(after[i + 1] == before[i]);
                        }
                    } else {
                        assert(after[p as int] == k);
                    }
                }
            }
        }
        j = j + 1;
    }
    assert(packets@.take(j as int) =~= packets@);
    keys
}

/// `prefix` followed by a signed number.
fn prefixed_number(prefix: &str, v: i64) -> (r: String)
    ensures
        r@ == prefix@ + signed_dec(v as int),
{
    prefixed(prefix, signed_string(v).as_str())
}

/// The node of one packet with its fields.
fn packet_node(next_id: &mut usize, p: &PacketReport) -> (n: TreeNode)
    requires
        *old(next_id) + 8 <= usize::MAX,
    ensures
        packet_ok(n, *p),
        numbered(n, *old(next_id) as nat),
        size(n) == 8,
        *final(next_id) == *old(next_id) + 8,
{
    let ghost start = *next_id as nat;
    let mut label = String::new();
    push_str(&mut label, "packet #");
    push_str(&mut label, zero_padded(p.index as u64, 5).as_str());
    push_str(&mut label, " size=");
    push_str(&mut label, signed_string(p.size as i64).as_str());
    push_str(&mut label, " keyframe=");
    push_str(&mut label, if p.is_keyframe { "yes" } else { "no" });
    let mut list: Vec<TreeNode> = Vec::new();
    assert(sizes(list@) == 0);
    let ghost mut labels: Seq<Seq<char>> = Seq::empty();
    let t = prefixed_number("stream_index: ", p.stream_index as i64);
    let ghost l = t@;
    push_leaf(&mut list, next_id, t, Ghost(labels));
    proof {
        labels = labels.push(l);
    }
    let t = prefixed_number("pts: ", p.pts);
    let ghost l = t@;
    push_leaf(&mut list, next_id, t, Ghost(labels));
    proof {
        labels = labels.push(l);
    }
    let t = prefixed_number("dts: ", p.dts);
    let ghost l = t@;
    push_leaf(&mut list, next_id, t, Ghost(labels));
    proof {
        labels = labels.push(l);
    }
    let t = prefixed_number("duration: ", p.duration);
    let ghost l = t@;
    push_leaf(&mut list, next_id, t, Ghost(labels));
    proof {
        labels = labels.push(l);
    }
    let t = prefixed_number("size: ", p.size as i64);
    let ghost l = t@;
    push_leaf(&mut list, next_id, t, Ghost(labels));
    proof {
        labels = labels.push(l);
    }
    let t = prefixed_number("position: ", p.pos);
    let ghost l = t@;
    push_leaf(&mut list, next_id, t, Ghost(labels));
    proof {
        labels = labels.push(l);
    }
    let t = prefixed("keyframe: ", if p.is_keyframe { "true" } else { "false" });
    let ghost l = t@;
    push_leaf(&mut list, next_id, t, Ghost(labels));
    proof {
        labels = labels.push(l);
    }
    assert(labels =~= packet_fields(*p));
    let n = new_node(next_id, label, list);
    proof {
        lemma_node_numbered(n, start + 7);
    }
    n
}

/// The node of stream `key`'s packets.
fn group_node(next_id: &mut usize, key: i32, ps: &[PacketReport]) -> (n: TreeNode)
    requires
        *old(next_id) + 1 + 8 * in_stream(ps@, key).len() <= usize::MAX,
    ensures
        group_ok(n, key, ps@),
        numbered(n, *old(next_id) as nat),
        size(n) == 1 + 8 * in_stream(ps@, key).len(),
        *final(next_id) == *old(next_id) + size(n),
{
    let ghost start = *next_id as nat;
    let ghost total = in_stream(ps@, key).len();
    let mut list: Vec<TreeNode> = Vec::new();
    let mut j: usize = 0;
    while j < ps.len()
        invariant
            j <= ps@.len(),
            total == in_stream(ps@, key).len(),
            start + 1 + 8 * total <= usize::MAX,
            list@.len() == in_stream(ps@.take(j as int), key).len(),
            forall|m: int| 0 <= m < list@.len() ==> #[trigger] packet_ok(list@[m], in_stream(ps@.take(j as int), key)[m]),
            sizes(list@) == 8 * list@.len(),
            *next_id == start + sizes(list@),
            numbered_upto(list@, *next_id as nat),
        decreases ps@.len() - j,
    {
        proof {
            lemma_in_stream_step(ps@, key, j as int);
            lemma_in_stream_prefix(ps@, key, j + 1);
        }
        if ps[j].stream_index == key {
            let ghost before = list@;
            let ghost at = *next_id as nat;
            let n = packet_node(next_id, &ps[j]);
            proof {
                lemma_upto_push(before, n, at);
            }
            list.push(n);
            proof {
                assert forall|m: int| 0 <= m < list@.len() implies #[trigger] packet_ok(
                    list@[m],
                    in_stream(ps@.take(j + 1), key)[m],
                ) by {
                    if m < before.len() {
                        assert(list@[m] == before[m]);
                    }
                }
            }
        }
        j = j + 1;
    }
    assert(ps@.take(j as int) =~= ps@);
    let label = {
        let mut t = String::new();
        push_str(&mut t, "stream ");
        push_str(&mut t, signed_string(key as i64).as_str());
        push_str(&mut t, " packets (");
        push_str(&mut t, dec_string(list.len() as u64).as_str());
        push_str(&mut t, ")");
        t
    };
    let n = new_node(next_id, label, list);
    proof {
        lemma_node_numbered(n, start + 8 * total);
    }
    n
}

/// The packets node: a header, then one group per stream in increasing
/// stream order.
fn packets_node(next_id: &mut usize, ps: &[PacketReport], truncated: bool, max_packets: usize) -> (n: TreeNode)
    requires
        *old(next_id) + 1 + 9 * ps@.len() <= usize::MAX,
    ensures
        packets_ok(n, ps@, truncated, max_packets as nat),
        numbered(n, *old(next_id) as nat),
        size(n) <= 1 + 9 * ps@.len(),
        *final(next_id) == *old(next_id) + size(n),
{
    let ghost start = *next_id as nat;
    let keys = stream_keys(ps);
    let mut list: Vec<TreeNode> = Vec::new();
    let mut k: usize = 0;
    proof {
        lemma_in_keys_bounds(ps@, keys@.take(0));
    }
    while k < keys.len()
        invariant
            k <= keys@.len(),
            stream_keys_ok(keys@, ps@),
            start + 1 + 9 * ps@.len() <= usize::MAX,
            k <= in_keys(ps@, keys@.take(k as int)).len() <= ps@.len(),
            list@.len() == k,
            forall|i: int| 0 <= i < k ==> #[trigger] group_ok(list@[i], keys@[i], ps@),
            sizes(list@) == k + 8 * in_keys(ps@, keys@.take(k as int)).len(),
            *next_id == start + sizes(list@),
            numbered_upto(list@, *next_id as nat),
        decreases keys@.len() - k,
    {
        let key = keys[k];
        proof {
            assert(keys@.take(k + 1) =~= keys@.take(k as int).push(key));
            assert(!keys@.take(k as int).contains(key)) by {
                if keys@.take(k as int).contains(key) {
                    let i = choose|i: int| 0 <= i < k && keys@.take(k as int)[i] == key;
                    assert(keys@[i] < keys@[k as int]);
                }
            }
            lemma_split_keys(ps@, keys@.take(k as int), key);
            lemma_in_keys_bounds(ps@, keys@.take(k + 1));
            assert(has_stream(ps@, keys@[k as int]));
            lemma_has_stream_count(ps@, key);
        }
        let ghost before = list@;
        let ghost at = *next_id as nat;
        let n = group_node(next_id, key, ps);
        proof {
            lemma_upto_push(before, n, at);
        }
        list.push(n);
        proof {
            assert forall|i: int| 0 <= i < k + 1 implies #[trigger] group_ok(list@[i], keys@[i], ps@) by {
                if i < k {
                    assert(list@[i] == before[i]);
                }
            }
        }
        k = k + 1;
    }
    assert(keys@.take(k as int) =~= keys@);
    let mut header = String::new();
    push_str(&mut header, "packets captured ");
    push_str(&mut header, dec_string(ps.len() as u64).as_str());
    if truncated {
        push_str(&mut header, " (truncated at ");
        push_str(&mut header, dec_string(max_packets as u64).as_str());
        push_str(&mut header, ")");
    } else {
        push_str(&mut header, " (complete)");
    }
    let ghost end = *next_id as nat;
    let n = new_node(next_id, header, list);
    proof {
        lemma_node_numbered(n, end);
        assert(stream_keys_ok(keys@, ps@) && n.children@.len() == keys@.len() && forall|i: int|
            0 <= i < keys@.len() ==> #[trigger] group_ok(n.children@[i], keys@[i], ps@));
    }
    n
}

// ---------------------------------------------------------------------------
// The whole tree.
// ---------------------------------------------------------------------------

/// An upper bound on the number of nodes of the tree.
pub open spec fn tree_size_bound(r: ReportOverview, ss: Seq<StreamOverview>, ps: Seq<PacketReport>) -> nat {
    container_size(r) + streams_size(ss) + 9 * ps.len() + 3
}

/// The tree of a probed file: `file PATH` over the container, the streams
/// and the captured packets.
pub open spec fn tui_tree_ok(
    root: TreeNode,
    r: ReportOverview,
    ss: Seq<StreamOverview>,
    ps: Seq<PacketReport>,
    truncated: bool,
    max_packets: nat,
) -> bool {
    &&& root.label@ == "file "@ + r.path@
    &&& root.children@.len() == 3
    &&& container_ok(root.children@[0], r)
    &&& streams_ok(root.children@[1], ss)
    &&& packets_ok(root.children@[2], ps, truncated, max_packets)
}

fn pairs_size_value(pairs: &Vec<(String, String)>) -> (r: Option<usize>)
    ensures
        r matches Some(n) ==> n == pairs_size(pairs@),
        r is None ==> pairs_size(pairs@) > usize::MAX,
{
    if pairs.len() == 0 {
        Some(0)
    } else {
        pairs.len().checked_add(1)
    }
}

fn container_size_value(r: &ReportOverview) -> (n: Option<usize>)
    ensures
        n matches Some(v) ==> v == container_size(*r),
        n is None ==> container_size(*r) > usize::MAX,
{
    let mut leaves: usize = 1;
    if r.duration_text.is_some() {
        leaves = leaves + 1;
    }
    if r.size_text.is_some() {
        leaves = leaves + 1;
    }
    if r.bit_rate_text.is_some() {
        leaves = leaves + 1;
    }
    assert(leaves == container_labels(*r).len());
    match pairs_size_value(&r.tags) {
        Some(p) => p.checked_add(leaves + 1),
        None => None,
    }
}

fn stream_size_value(s: &StreamOverview) -> (n: Option<usize>)
    ensures
        n matches Some(v) ==> v == stream_size(*s),
        n is None ==> stream_size(*s) > usize::MAX,
{
    let mut leaves: usize = 0;
    if s.width > 0 && s.height > 0 {
        leaves = leaves + 1;
    }
    if s.frame_rate_text.is_some() {
        leaves = leaves + 1;
    }
    if s.sample_rate > 0 {
        leaves = leaves + 1;
    }
    if s.channels > 0 {
        leaves = leaves + 1;
    }
    if s.bit_rate > 0 {
        leaves = leaves + 1;
    }
    if s.duration_text.is_some() {
        leaves = leaves + 1;
    }
    assert(leaves == stream_labels(*s).len());
    match pairs_size_value(&s.metadata) {
        Some(p) => p.checked_add(leaves + 1),
        None => None,
    }
}

/// The bound on the tree's nodes, when it fits in a `usize`.
pub fn tree_size_bound_value(report: &ReportOverview, streams: &[StreamOverview], packets: &[PacketReport]) -> (r:
    Option<usize>)
    ensures
        r matches Some(n) ==> n == tree_size_bound(*report, streams@, packets@),
        r is None ==> tree_size_bound(*report, streams@, packets@) > usize::MAX,
{
    let mut total: usize = match container_size_value(report) {
        Some(c) => c,
        None => return None,
    };
    let mut i: usize = 0;
    while i < streams.len()
        invariant
            i <= streams@.len(),
            total == container_size(*report) + streams_size(streams@.take(i as int)),
        decreases streams@.len() - i,
    {
        proof {
            assert(streams@.take(i + 1).drop_last() =~= streams@.take(i as int));
        }
        let s = match stream_size_value(&streams[i]) {
            Some(v) => v,
            None => {
                proof {
                    lemma_streams_size_prefix(streams@, i + 1);
                }
                return None;
            },
        };
        total = match total.checked_add(s) {
            Some(t) => t,
            None => {
                proof {
                    lemma_streams_size_prefix(streams@, i + 1);
                }
                return None;
            },
        };
        i = i + 1;
    }
    assert(streams@.take(i as int) =~= streams@);
    let packet_nodes = match packets.len().checked_mul(9) {
        Some(p) => p,
        None => return None,
    };
    match total.checked_add(packet_nodes) {
        Some(t) => t.checked_add(3),
        None => None,
    }
}

/// The tree that the text UI shows for a probed file; its ids count from
/// zero in post-order.
pub fn build_tui_tree(
    report: &ReportOverview,
    streams: &[StreamOverview],
    packets: &[PacketReport],
    truncated_packets: bool,
    max_packets: usize,
) -> (root: TreeNode)
    requires
        tree_size_bound(*report, streams@, packets@) <= usize::MAX,
    ensures
        tui_tree_ok(root, *report, streams@, packets@, truncated_packets, max_packets as nat),
        numbered(root, 0),
{
    let mut next_id: usize = 0;
    let mut list: Vec<TreeNode> = Vec::new();
    assert(numbered_upto(list@, 0));
    let container = container_node(&mut next_id, report);
    proof {
        lemma_upto_push(list@, container, 0);
    }
    list.push(container);
    let ghost at = next_id as nat;
    let streams_node = streams_node(&mut next_id, streams);
    proof {
        lemma_upto_push(list@, streams_node, at);
    }
    list.push(streams_node);
    let ghost at = next_id as nat;
    let packets_node = packets_node(&mut next_id, packets, truncated_packets, max_packets);
    proof {
        lemma_upto_push(list@, packets_node, at);
    }
    list.push(packets_node);
    let label = prefixed("file ", report.path.as_str());
    let ghost end = next_id as nat;
    let root = new_node(&mut next_id, label, list);
    proof {
        lemma_node_numbered(root, end);
    }
    root
}

// ---------------------------------------------------------------------------
// Line colours.
// ---------------------------------------------------------------------------

/// The colour of a line of the tree.
#[derive(Debug, Clone, Copy, PartialEq, Eq, Structural)]
pub enum LineColor {
    White,
    Magenta,
    Blue,
    DarkGreen,
    Green,
    Yellow,
    DarkYellow,
    Grey,
}

/// The colour of a line by what its label says: the file, container facts,
/// streams, packet groups, packets, tag lists, keyframe flags, the rest.
pub open spec fn line_color_of(l: Seq<char>) -> LineColor {
    if seq_starts_with(l, "file "@) {
        LineColor::White
    } else if l == "container"@ || seq_starts_with(l, "format: "@) || seq_starts_with(l, "duration: "@)
        || seq_starts_with(l, "size: "@) || seq_starts_with(l, "bitrate: "@) {
        LineColor::Magenta
    } else if seq_starts_with(l, "streams"@) || seq_starts_with(l, "stream #"@) {
        LineColor::Blue
    } else if seq_starts_with(l, "packets captured"@) || (seq_starts_with(l, "stream "@) && seq_contains(
        l,
        " packets"@,
    )) {
        LineColor::DarkGreen
    } else if seq_starts_with(l, "packet #"@) {
        LineColor::Green
    } else if l == "tags"@ || l == "metadata"@ {
        LineColor::Yellow
    } else if seq_starts_with(l, "keyframe: "@) {
        if seq_ends_with(l, "true"@) {
            LineColor::Green
        } else {
            LineColor::DarkYellow
        }
    } else {
        LineColor::Grey
    }
}

fn has_prefix(cs: &Vec<char>, prefix: &str) -> (r: bool)
    ensures
        r == seq_starts_with(cs@, prefix@),
{
    let p = chars_of(prefix);
    starts_with_chars(cs.as_slice(), p.as_slice())
}

/// The colour of a line of the tree.
pub fn line_color(label: &str) -> (c: LineColor)
    ensures
        c == line_color_of(label@),
{
    let l = chars_of(label);
    if has_prefix(&l, "file ") {
        LineColor::White
    } else if str_eq(label, "container") || has_prefix(&l, "format: ") || has_prefix(&l, "duration: ")
        || has_prefix(&l, "size: ") || has_prefix(&l, "bitrate: ") {
        LineColor::Magenta
    } else if has_prefix(&l, "streams") || has_prefix(&l, "stream #") {
        LineColor::Blue
    } else if has_prefix(&l, "packets captured") || (has_prefix(&l, "stream ") && contains_chars(
        l.as_slice(),
        chars_of(" packets").as_slice(),
    )) {
        LineColor::DarkGreen
    } else if has_prefix(&l, "packet #") {
        LineColor::Green
    } else if str_eq(label, "tags") || str_eq(label, "metadata") {
        LineColor::Yellow
    } else if has_prefix(&l, "keyframe: ") {
        if ends_with_chars(l.as_slice(), chars_of("true").as_slice()) {
            LineColor::Green
        } else {
            LineColor::DarkYellow
        }
    } else {
        LineColor::Grey
    }
}

// ---------------------------------------------------------------------------
// Navigation.
// ---------------------------------------------------------------------------

/// Where the cursor is, how far the view is scrolled and which nodes are
/// expanded.
#[derive(Debug)]
pub struct TreeState {
    pub selected: usize,
    pub scroll: usize,
    pub expanded: BTreeSet<usize>,
}

impl Default for TreeState {
    fn default() -> (s: Self)
        ensures
            s.selected == 0,
            s.scroll == 0,
            s.expanded@ == Set::<usize>::empty(),
    {
        TreeState { selected: 0, scroll: 0, expanded: BTreeSet::new() }
    }
}

/// The keys that the tree view reacts to.
#[derive(Debug, Clone, Copy, PartialEq, Eq, Structural)]
pub enum TreeKey {
    /// `q` or Escape.
    Quit,
    /// Down arrow or `j`.
    Down,
    /// Up arrow or `k`.
    Up,
    PageDown,
    PageUp,
    Home,
    End,
    /// Right arrow, Enter or `l`.
    Expand,
    /// Left arrow or `h`.
    Collapse,
    /// Space.
    Toggle,
    /// Anything else.
    Other,
}

/// What a key press leads to.
#[derive(Debug, Clone, Copy, PartialEq, Eq, Structural)]
pub enum KeyOutcome {
    Quit,
    /// Go on; `changed` tells whether the view must be drawn again.
    Continue { changed: bool },
}

/// The lines moved by one page.
pub const PAGE: usize = 10;

/// The nearest line above `cur` that is one level shallower, if any.
pub open spec fn parent_index(lines: Seq<FlatLine>, cur: int) -> Option<int> {
    if exists|j: int| parent_line(lines, cur, j) {
        Some(choose|j: int| parent_line(lines, cur, j))
    } else {
        None
    }
}

/// The cursor after a key.
pub open spec fn selection_after(sel: int, exp: Set<usize>, key: TreeKey, lines: Seq<FlatLine>) -> int {
    let last = lines.len() - 1;
    let line = lines[sel];
    match key {
        TreeKey::Down => if sel + 1 < lines.len() {
            sel + 1
        } else {
            sel
        },
        TreeKey::Up => if sel > 0 {
            sel - 1
        } else {
            0
        },
        TreeKey::PageDown => if sel + PAGE <= last {
            sel + PAGE
        } else {
            last
        },
        TreeKey::PageUp => if sel >= PAGE {
            sel - PAGE
        } else {
            0
        },
        TreeKey::Home => 0,
        TreeKey::End => last,
        TreeKey::Collapse => if line.has_children && exp.contains(line.node_id) && line.depth > 0 {
            sel
        } else {
            match parent_index(lines, sel) {
                Some(p) => p,
                None => sel,
            }
        },
        _ => sel,
    }
}

/// The expanded nodes after a key.
pub open spec fn expanded_after(sel: int, exp: Set<usize>, key: TreeKey, lines: Seq<FlatLine>) -> Set<usize> {
    let line = lines[sel];
    let open = exp.contains(line.node_id);
    match key {
        TreeKey::Expand => if line.has_children && !open {
            exp.insert(line.node_id)
        } else {
            exp
        },
        TreeKey::Collapse => if line.has_children && open && line.depth > 0 {
            exp.remove(line.node_id)
        } else {
            exp
        },
        TreeKey::Toggle => if line.has_children && open && line.depth > 0 {
            exp.remove(line.node_id)
        } else if line.has_children && !open {
            exp.insert(line.node_id)
        } else {
            exp
        },
        _ => exp,
    }
}

proof fn lemma_parent_unique(lines: Seq<FlatLine>, cur: int, a: int, b: int)
    requires
        parent_line(lines, cur, a),
        parent_line(lines, cur, b),
    ensures
        a == b,
{
    if a < b {
        assert(lines[b].depth + 1 == lines[cur].depth);
    } else if b < a {
        assert(lines[a].depth + 1 == lines[cur].depth);
    }
}

/// Every key leaves the cursor on one of the lines.
pub proof fn lemma_selection_stays_on_a_line(sel: int, exp: Set<usize>, key: TreeKey, lines: Seq<FlatLine>)
    requires
        0 <= sel < lines.len(),
    ensures
        0 <= selection_after(sel, exp, key, lines) < lines.len(),
{
    if key == TreeKey::Collapse {
        if let Some(p) = parent_index(lines, sel) {
            assert(parent_line(lines, sel, p));
        }
    }
}

/// Collapsing an expanded node below the root and expanding it again gives
/// back the same expanded nodes, and the cursor does not move.
pub proof fn lemma_collapse_then_expand(sel: int, exp: Set<usize>, lines: Seq<FlatLine>)
    requires
        0 <= sel < lines.len(),
        lines[sel].has_children,
        lines[sel].depth > 0,
        exp.contains(lines[sel].node_id),
    ensures
        selection_after(sel, exp, TreeKey::Collapse, lines) == sel,
        expanded_after(sel, expanded_after(sel, exp, TreeKey::Collapse, lines), TreeKey::Expand, lines) == exp,
{
    let collapsed = expanded_after(sel, exp, TreeKey::Collapse, lines);
    assert(collapsed == exp.remove(lines[sel].node_id));
    assert(collapsed.insert(lines[sel].node_id) =~= exp);
}

impl TreeState {
    /// The start state for a tree: the cursor on the root, the root and its
    /// children expanded.
    pub fn for_tree(tree: &TreeNode) -> (s: TreeState)
        ensures
            s.selected == 0,
            s.scroll == 0,
            s.expanded@ == Set::new(|id: usize| id == tree.id || exists|i: int| 0 <= i < tree.children@.len() && tree.children@[i].id == id),
    {
        broadcast use vstd::std_specs::btree::group_btree_axioms;
        let mut expanded: BTreeSet<usize> = BTreeSet::new();
        expanded.insert(tree.id);
        let mut i: usize = 0;
        while i < tree.children.len()
            invariant
                i <= tree.children@.len(),
                expanded@ == Set::new(|id: usize| id == tree.id || exists|k: int| 0 <= k < i && tree.children@[k].id == id),
            decreases tree.children@.len() - i,
        {
            let ghost before = expanded@;
            expanded.insert(tree.children[i].id);
            proof {
                let target = Set::new(|id: usize| id == tree.id || exists|k: int| 0 <= k < i + 1 && tree.children@[k].id == id);
                assert forall|id: usize| #[trigger] target.contains(id) == expanded@.contains(id) by {
                    if exists|k: int| 0 <= k < i + 1 && tree.children@[k].id == id {
                        let k = choose|k: int| 0 <= k < i + 1 && tree.children@[k].id == id;
                        if k < i {
                            assert(before.contains(id));
                        }
                    }
                    if before.contains(id) && id != tree.id {
                        let k = choose|k: int| 0 <= k < i && tree.children@[k].id == id;
                        assert(0 <= k < i + 1 && tree.children@[k].id == id);
                    }
                }
                assert(expanded@ =~= target);
            }
            i = i + 1;
        }
        TreeState { selected: 0, scroll: 0, expanded }
    }

    /// Keep the cursor on an existing line: past the end it moves to the last
    /// line (to the first when there are none).
    pub fn clamp_selection(&mut self, line_count: usize)
        ensures
            final(self).selected == if old(self).selected >= line_count {
                if line_count == 0 {
                    0
                } else {
                    line_count - 1
                }
            } else {
                old(self).selected as int
            },
            final(self).scroll == old(self).scroll,
            final(self).expanded@ == old(self).expanded@,
    {
        if self.selected >= line_count {
            self.selected = line_count.saturating_sub(1);
        }
    }

    /// Apply a key to the state, with the visible lines of the tree.
    pub fn handle_key(&mut self, key: TreeKey, lines: &[FlatLine]) -> (r: KeyOutcome)
        requires
            old(self).selected < lines@.len(),
        ensures
            final(self).scroll == old(self).scroll,
            key == TreeKey::Quit ==> r == KeyOutcome::Quit && final(self).selected == old(self).selected
                && final(self).expanded@ == old(self).expanded@,
            key != TreeKey::Quit ==> {
                let sel = selection_after(old(self).selected as int, old(self).expanded@, key, lines@);
                let exp = expanded_after(old(self).selected as int, old(self).expanded@, key, lines@);
                &&& final(self).selected == sel
                &&& final(self).expanded@ == exp
                &&& r == KeyOutcome::Continue { changed: sel != old(self).selected || exp != old(self).expanded@ }
            },
    {
        broadcast use vstd::std_specs::btree::group_btree_axioms;
        let len = lines.len();
        let sel = self.selected;
        let ghost exp0 = self.expanded@;
        match key {
            TreeKey::Quit => KeyOutcome::Quit,
            TreeKey::Down => {
                if sel + 1 < len {
                    self.selected = sel + 1;
                    KeyOutcome::Continue { changed: true }
                } else {
                    KeyOutcome::Continue { changed: false }
                }
            },
            TreeKey::Up => {
                self.selected = sel.saturating_sub(1);
                KeyOutcome::Continue { changed: self.selected != sel }
            },
            TreeKey::PageDown => {
                let last = len - 1;
                self.selected = if last - sel >= PAGE {
                    sel + PAGE
                } else {
                    last
                };
                KeyOutcome::Continue { changed: self.selected != sel }
            },
            TreeKey::PageUp => {
                self.selected = sel.saturating_sub(PAGE);
                KeyOutcome::Continue { changed: self.selected != sel }
            },
            TreeKey::Home => {
                if sel != 0 {
                    self.selected = 0;
                    KeyOutcome::Continue { changed: true }
                } else {
                    KeyOutcome::Continue { changed: false }
                }
            },
            TreeKey::End => {
                let last = len - 1;
                if sel != last {
                    self.selected = last;
                    KeyOutcome::Continue { changed: true }
                } else {
                    KeyOutcome::Continue { changed: false }
                }
            },
            TreeKey::Expand => {
                let line = &lines[sel];
                if line.has_children && !self.expanded.contains(&line.node_id) {
                    self.expanded.insert(line.node_id);
                    proof {
                        assert(self.expanded@.contains(line.node_id) && !exp0.contains(line.node_id));
                    }
                    KeyOutcome::Continue { changed: true }
                } else {
                    KeyOutcome::Continue { changed: false }
                }
            },
            TreeKey::Collapse => {
                let line = &lines[sel];
                if line.has_children && self.expanded.contains(&line.node_id) && line.depth > 0 {
                    self.expanded.remove(&line.node_id);
                    proof {
                        assert(!self.expanded@.contains(line.node_id) && exp0.contains(line.node_id));
                    }
                    KeyOutcome::Continue { changed: true }
                } else {
                    let parent = find_parent_index(lines, sel);
                    proof {
                        match parent {
                            Some(j) => {
                                lemma_parent_unique(lines@, sel as int, j as int, choose|k: int| parent_line(lines@, sel as int, k));
                            },
                            None => {},
                        }
                    }
                    match parent {
                        Some(p) => {
                            if p != sel {
                                self.selected = p;
                                KeyOutcome::Continue { changed: true }
                            } else {
                                KeyOutcome::Continue { changed: false }
                            }
                        },
                        None => KeyOutcome::Continue { changed: false },
                    }
                }
            },
            TreeKey::Toggle => {
                let line = &lines[sel];
                if line.has_children {
                    if self.expanded.contains(&line.node_id) && line.depth > 0 {
                        self.expanded.remove(&line.node_id);
                        proof {
                            assert(!self.expanded@.contains(line.node_id) && exp0.contains(line.node_id));
                        }
                        KeyOutcome::Continue { changed: true }
                    } else if !self.expanded.contains(&line.node_id) {
                        self.expanded.insert(line.node_id);
                        proof {
                            assert(self.expanded@.contains(line.node_id) && !exp0.contains(line.node_id));
                        }
                        KeyOutcome::Continue { changed: true }
                    } else {
                        KeyOutcome::Continue { changed: false }
                    }
                } else {
                    KeyOutcome::Continue { changed: false }
                }
            },
            TreeKey::Other => KeyOutcome::Continue { changed: false },
        }
    }
}

// ---------------------------------------------------------------------------
// Drawing decisions.
// ---------------------------------------------------------------------------

/// The rows left for the tree below the header and above the footer: the
/// terminal height less two, and at least one.
pub fn body_height(height: usize) -> (r: usize)
    ensures
        r == if height >= 3 {
            height - 2
        } else {
            1
        },
{
    let h = height.saturating_sub(2);
    if h < 1 {
        1
    } else {
        h
    }
}

/// `depth` levels of indentation, two spaces each.
pub open spec fn indent(depth: nat) -> Seq<char>
    decreases depth,
{
    if depth == 0 {
        Seq::empty()
    } else {
        indent((depth - 1) as nat) + "  "@
    }
}

/// The text of a row: a cursor marker, the indentation, the expansion
/// marker (`[-]`, `[+]`, or blanks for a leaf), a space and the label.
pub open spec fn row_text_of(line: FlatLine, selected: bool) -> Seq<char> {
    (if selected {
        ">"@
    } else {
        " "@
    }) + indent(line.depth as nat) + (if line.has_children {
        if line.expanded {
            "[-]"@
        } else {
            "[+]"@
        }
    } else {
        "   "@
    }) + " "@ + line.label@
}

/// The text of a row of the tree.
pub fn row_text(line: &FlatLine, selected: bool) -> (r: String)
    ensures
        r@ == row_text_of(*line, selected),
{
    let mut r = String::new();
    push_str(&mut r, if selected { ">" } else { " " });
    let ghost start = r@;
    let mut i: usize = 0;
    while i < line.depth
        invariant
            i <= line.depth,
            r@ == start + indent(i as nat),
        decreases line.depth - i,
    {
        push_str(&mut r, "  ");
        i = i + 1;
        assert(r@ =~= start + indent(i as nat));
    }
    let branch = if line.has_children {
        if line.expanded {
            "[-]"
        } else {
            "[+]"
        }
    } else {
        "   "
    };
    push_str(&mut r, branch);
    push_str(&mut r, " ");
    push_str(&mut r, line.label.as_str());
    r
}

/// `Node N of M`, N counting from one.
pub fn footer_text(selected: usize, line_count: usize) -> (r: String)
    ensures
        r@ == "Node "@ + dec(if selected < usize::MAX {
            selected + 1
        } else {
            selected as int
        } as nat) + " of "@ + dec(line_count as nat),
{
    let mut r = String::new();
    push_str(&mut r, "Node ");
    push_str(&mut r, dec_string(selected.saturating_add(1) as u64).as_str());
    push_str(&mut r, " of ");
    push_str(&mut r, dec_string(line_count as u64).as_str());
    r
}

impl TreeState {
    /// Scroll just enough for the cursor to be within the `rows` visible rows.
    pub fn scroll_into_view(&mut self, rows: usize)
        requires
            rows >= 1,
        ensures
            ({
                let sel = old(self).selected as int;
                let s1 = if sel < old(self).scroll {
                    sel
                } else {
                    old(self).scroll as int
                };
                final(self).scroll == if sel >= s1 + rows {
                    sel + 1 - rows
                } else {
                    s1
                }
            }),
            final(self).scroll <= final(self).selected < final(self).scroll + rows,
            final(self).selected == old(self).selected,
            final(self).expanded@ == old(self).expanded@,
    {
        if self.selected < self.scroll {
            self.scroll = self.selected;
        }
        if self.selected - self.scroll >= rows {
            self.scroll = self.selected - (rows - 1);
        }
    }
}

} // verus!
