//! The markdown viewer: CommonMark events (from pulldown-cmark) rendered as
//! plain text with light markup: `#` before headings, `*bold*`, `_italic_`,
//! indented code blocks, `` `code` ``, rules as `---`.
use vstd::prelude::*;

use pulldown_cmark::{Event, Parser, Tag};

use crate::text::{push_char, push_str};

verus! {

/// The element that an event opens or closes, as far as the viewer tells
/// elements apart.
#[derive(Debug, Clone, Copy, PartialEq, Eq, Structural)]
pub enum MdTag {
    /// A heading of the given level (1 to 6).
    Heading(u8),
    Strong,
    Emphasis,
    CodeBlock,
    Paragraph,
    Other,
}

/// A parsing event, as the viewer sees it.
#[derive(Debug, Clone, PartialEq, Eq)]
pub enum MdEvent {
    Start(MdTag),
    End(MdTag),
    Text(String),
    Code(String),
    SoftBreak,
    HardBreak,
    Rule,
    /// HTML, footnote references, task list markers.
    Other,
}

/// A parsing event as a mathematical value: texts as character sequences.
pub enum MdEventModel {
    Start(MdTag),
    End(MdTag),
    Text(Seq<char>),
    Code(Seq<char>),
    SoftBreak,
    HardBreak,
    Rule,
    Other,
}

impl View for MdEvent {
    type V = MdEventModel;

    open spec fn view(&self) -> MdEventModel {
        match self {
            MdEvent::Start(t) => MdEventModel::Start(*t),
            MdEvent::End(t) => MdEventModel::End(*t),
            MdEvent::Text(t) => MdEventModel::Text(t@),
            MdEvent::Code(t) => MdEventModel::Code(t@),
            MdEvent::SoftBreak => MdEventModel::SoftBreak,
            MdEvent::HardBreak => MdEventModel::HardBreak,
            MdEvent::Rule => MdEventModel::Rule,
            MdEvent::Other => MdEventModel::Other,
        }
    }
}

/// The viewer's events for a markdown text, as pulldown-cmark's parser with
/// its default options (`Parser::new`) produces them, in order.
pub uninterp spec fn md_events_of(input: Seq<char>) -> Seq<MdEventModel>;

/// Whether bold and italic markers are open.
#[derive(Debug, Clone, Copy, PartialEq, Eq, Structural)]
pub struct RenderState {
    pub in_bold: bool,
    pub in_italic: bool,
}

/// `n` hash signs.
pub open spec fn hashes(n: nat) -> Seq<char>
    decreases n,
{
    if n == 0 {
        Seq::empty()
    } else {
        hashes((n - 1) as nat).push('#')
    }
}

/// The text an event adds, and the state after it.
pub open spec fn render_step(s: RenderState, e: MdEventModel) -> (RenderState, Seq<char>) {
    match e {
        MdEventModel::Start(t) => match t {
            MdTag::Heading(level) => (s, hashes(level as nat)),
            MdTag::Strong => (RenderState { in_bold: true, ..s }, "*"@),
            MdTag::Emphasis => (RenderState { in_italic: true, ..s }, "_"@),
            MdTag::CodeBlock => (s, "    "@),
            _ => (s, Seq::empty()),
        },
        MdEventModel::End(t) => match t {
            MdTag::Heading(_) => (s, "\n"@),
            MdTag::Strong => if s.in_bold {
                (RenderState { in_bold: false, ..s }, "*"@)
            } else {
                (s, Seq::empty())
            },
            MdTag::Emphasis => if s.in_italic {
                (RenderState { in_italic: false, ..s }, "_"@)
            } else {
                (s, Seq::empty())
            },
            MdTag::CodeBlock => (s, "\n"@),
            MdTag::Paragraph => (s, "\n"@),
            MdTag::Other => (s, Seq::empty()),
        },
        MdEventModel::Text(t) => (s, t),
        MdEventModel::Code(t) => (s, "`"@ + t + "`"@),
        MdEventModel::SoftBreak => (s, " "@),
        MdEventModel::HardBreak => (s, "\n"@),
        MdEventModel::Rule => (s, "---\n"@),
        MdEventModel::Other => (s, Seq::empty()),
    }
}

/// The state and text after a run of events.
pub open spec fn render_run(s: RenderState, es: Seq<MdEventModel>) -> (RenderState, Seq<char>)
    decreases es.len(),
{
    if es.len() == 0 {
        (s, Seq::empty())
    } else {
        let (s1, t1) = render_run(s, es.drop_last());
        let (s2, t2) = render_step(s1, es.last());
        (s2, t1 + t2)
    }
}

/// The text of a document's events, starting with nothing open, and a final
/// newline.
pub open spec fn rendered(es: Seq<MdEventModel>) -> Seq<char> {
    render_run(RenderState { in_bold: false, in_italic: false }, es).1 + "\n"@
}

impl RenderState {
    /// Append the text of one event and move on.
    pub fn render(&mut self, e: &MdEvent, out: &mut String)
        ensures
            *final(self) == render_step(*old(self), e@).0,
            final(out)@ == old(out)@ + render_step(*old(self), e@).1,
    {
        match e {
            MdEvent::Start(t) => match t {
                MdTag::Heading(level) => {
                    let ghost start = out@;
                    let mut i: u8 = 0;
                    while i < *level
                        invariant
                            i <= *level,
                            out@ == start + hashes(i as nat),
                        decreases *level - i,
                    {
                        push_char(out, '#');
                        i = i + 1;
                    }
                },
                MdTag::Strong => {
                    push_str(out, "*");
                    self.in_bold = true;
                },
                MdTag::Emphasis => {
                    push_str(out, "_");
                    self.in_italic = true;
                },
                MdTag::CodeBlock => push_str(out, "    "),
                _ => {
                    assert(out@ =~= old(out)@ + Seq::<char>::empty());
                },
            },
            MdEvent::End(t) => match t {
                MdTag::Heading(_) => push_str(out, "\n"),
                MdTag::Strong => {
                    if self.in_bold {
                        push_str(out, "*");
                        self.in_bold = false;
                    } else {
                        assert(out@ =~= old(out)@ + Seq::<char>::empty());
                    }
                },
                MdTag::Emphasis => {
                    if self.in_italic {
                        push_str(out, "_");
                        self.in_italic = false;
                    } else {
                        assert(out@ =~= old(out)@ + Seq::<char>::empty());
                    }
                },
                MdTag::CodeBlock => push_str(out, "\n"),
                MdTag::Paragraph => push_str(out, "\n"),
                MdTag::Other => {
                    assert(out@ =~= old(out)@ + Seq::<char>::empty());
                },
            },
            MdEvent::Text(t) => push_str(out, t.as_str()),
            MdEvent::Code(t) => {
                push_str(out, "`");
                push_str(out, t.as_str());
                push_str(out, "`");
            },
            MdEvent::SoftBreak => push_str(out, " "),
            MdEvent::HardBreak => push_str(out, "\n"),
            MdEvent::Rule => push_str(out, "---\n"),
            MdEvent::Other => {
                assert(out@ =~= old(out)@ + Seq::<char>::empty());
            },
        }
    }
}

/// The text of a document's events.
pub fn render_events(events: &[MdEvent]) -> (r: String)
    ensures
        r@ == rendered(events@.map_values(|e: MdEvent| e@)),
{
    let ghost es = events@.map_values(|e: MdEvent| e@);
    let mut state = RenderState { in_bold: false, in_italic: false };
    let mut out = String::new();
    let mut i: usize = 0;
    while i < events.len()
        invariant
            i <= events@.len(),
            es == events@.map_values(|e: MdEvent| e@),
            (state, out@) == render_run(RenderState { in_bold: false, in_italic: false }, es.take(i as int)),
        decreases events@.len() - i,
    {
        proof {
            assert(es.take(i + 1).drop_last() =~= es.take(i as int));
            assert(es.take(i + 1).last() == events@[i as int]@);
        }
        state.render(&events[i], &mut out);
        i = i + 1;
    }
    assert(es.take(i as int) =~= es);
    push_str(&mut out, "\n");
    out
}

/// pulldown-cmark's `Parser::new(input)`, each event converted to the
/// viewer's form (the element of a start or end event, the text of a text or
/// inline code event). The result is named by `md_events_of`: a function of
/// the input alone, which takes the CommonMark grammar to state.
#[verifier::external_body]
fn markdown_event_list(input: &str) -> (r: Vec<MdEvent>)
    ensures
        r@.map_values(|e: MdEvent| e@) == md_events_of(input@),
{
    let tag = |t: Tag| match t {
        Tag::Heading(l, ..) => MdTag::Heading(l as u8), Tag::Strong => MdTag::Strong,
        Tag::Emphasis => MdTag::Emphasis, Tag::CodeBlock(_) => MdTag::CodeBlock,
        Tag::Paragraph => MdTag::Paragraph, _ => MdTag::Other,
    };
    Parser::new(input).map(|e| match e {
        Event::Start(t) => MdEvent::Start(tag(t)), Event::End(t) => MdEvent::End(tag(t)),
        Event::Text(t) => MdEvent::Text(t.to_string()), Event::Code(t) => MdEvent::Code(t.to_string()),
        Event::SoftBreak => MdEvent::SoftBreak, Event::HardBreak => MdEvent::HardBreak,
        Event::Rule => MdEvent::Rule, _ => MdEvent::Other,
    }).collect()
}

/// The viewer's events for a markdown text.
pub fn markdown_events(input: &str) -> (r: Vec<MdEvent>)
    ensures
        r@.map_values(|e: MdEvent| e@) == md_events_of(input@),
{
    markdown_event_list(input)
}

/// A markdown text rendered as plain text: its events rendered in order,
/// then a final newline.
pub fn render_markdown(input: &str) -> (r: String)
    ensures
        r@ == rendered(md_events_of(input@)),
{
    let events = markdown_events(input);
    render_events(&events)
}

} // verus!
