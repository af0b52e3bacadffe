//! Chat templates: turning a conversation into the prompt text a model
//! expects. ChatML, Llama-3 and a generic markdown-style fallback, and a
//! name-based choice between them.
use vstd::prelude::*;

use crate::text::{chars_of, contains_chars, lowercase, push_str, seq_contains, to_lowercase};

verus! {

/// The role of a participant in a conversation.
#[derive(Debug, Clone, PartialEq, Eq, Structural)]
pub enum Role {
    System,
    User,
    Assistant,
}

/// The lower-case name of a role.
pub open spec fn role_name(r: Role) -> Seq<char> {
    match r {
        Role::System => "system"@,
        Role::User => "user"@,
        Role::Assistant => "assistant"@,
    }
}

impl Role {
    /// The lower-case name of the role.
    pub fn as_str(&self) -> (r: &'static str)
        ensures
            r@ == role_name(*self),
    {
        match self {
            Role::System => "system",
            Role::User => "user",
            Role::Assistant => "assistant",
        }
    }

    /// The role as text, as it is displayed.
    pub fn to_string(&self) -> (r: String)
        ensures
            r@ == role_name(*self),
    {
        let mut s = String::new();
        push_str(&mut s, self.as_str());
        s
    }
}

/// One message of a conversation.
#[derive(Debug, Clone)]
pub struct ChatMessage {
    pub role: Role,
    pub content: String,
}

/// A chat template turns a conversation into one prompt string.
pub trait ChatTemplate {
    /// The prompt for the given messages.
    spec fn prompt(&self, messages: Seq<ChatMessage>) -> Seq<char>;

    /// The template's short identifier.
    spec fn name_spec(&self) -> Seq<char>;

    /// Format the messages into a prompt string.
    fn apply(&self, messages: &[ChatMessage]) -> (r: String)
        ensures
            r@ == self.prompt(messages@),
    ;

    /// A short identifier for this template format.
    fn name(&self) -> (r: &str)
        ensures
            r@ == self.name_spec(),
    ;
}

/// `<|im_start|>{role}\n{content}<|im_end|>\n` for each message.
pub open spec fn chatml_turns(ms: Seq<ChatMessage>) -> Seq<char>
    decreases ms.len(),
{
    if ms.len() == 0 {
        Seq::empty()
    } else {
        let m = ms.last();
        chatml_turns(ms.drop_last()) + "<|im_start|>"@ + role_name(m.role) + "\n"@ + m.content@
            + "<|im_end|>\n"@
    }
}

/// `<|start_header_id|>{role}<|end_header_id|>\n\n{content}<|eot_id|>` for each message.
pub open spec fn llama3_turns(ms: Seq<ChatMessage>) -> Seq<char>
    decreases ms.len(),
{
    if ms.len() == 0 {
        Seq::empty()
    } else {
        let m = ms.last();
        llama3_turns(ms.drop_last()) + "<|start_header_id|>"@ + role_name(m.role)
            + "<|end_header_id|>\n\n"@ + m.content@ + "<|eot_id|>"@
    }
}

/// The heading a message gets in the generic format: none for the system
/// prompt, `### User:` or `### Assistant:` otherwise.
pub open spec fn generic_heading(r: Role) -> Seq<char> {
    match r {
        Role::System => Seq::empty(),
        Role::User => "### User:\n"@,
        Role::Assistant => "### Assistant:\n"@,
    }
}

/// Heading, content and a blank line for each message.
pub open spec fn generic_turns(ms: Seq<ChatMessage>) -> Seq<char>
    decreases ms.len(),
{
    if ms.len() == 0 {
        Seq::empty()
    } else {
        let m = ms.last();
        generic_turns(ms.drop_last()) + generic_heading(m.role) + m.content@ + "\n\n"@
    }
}

proof fn lemma_take_last(ms: Seq<ChatMessage>, i: int)
    requires
        0 <= i < ms.len(),
    ensures
        ms.take(i + 1).drop_last() == ms.take(i),
        ms.take(i + 1).last() == ms[i],
        ms.take(i + 1).len() == i + 1,
{
    assert(ms.take(i + 1).drop_last() =~= ms.take(i));
}

/// The ChatML format, widely supported by fine-tuned models.
#[derive(Debug, Clone)]
pub struct ChatMLTemplate;

impl ChatTemplate for ChatMLTemplate {
    open spec fn prompt(&self, messages: Seq<ChatMessage>) -> Seq<char> {
        chatml_turns(messages) + "<|im_start|>assistant\n"@
    }

    open spec fn name_spec(&self) -> Seq<char> {
        "chatml"@
    }

    fn apply(&self, messages: &[ChatMessage]) -> (r: String) {
        let mut prompt = String::new();
        let mut i: usize = 0;
        while i < messages.len()
            invariant
                i <= messages@.len(),
                prompt@ == chatml_turns(messages@.take(i as int)),
            decreases messages@.len() - i,
        {
            let msg = &messages[i];
            push_str(&mut prompt, "<|im_start|>");
            push_str(&mut prompt, msg.role.as_str());
            push_str(&mut prompt, "\n");
            push_str(&mut prompt, msg.content.as_str());
            push_str(&mut prompt, "<|im_end|>\n");
            proof {
                lemma_take_last(messages@, i as int);
            }
            i = i + 1;
        }
        assert(messages@.take(i as int) =~= messages@);
        push_str(&mut prompt, "<|im_start|>assistant\n");
        prompt
    }

    fn name(&self) -> (r: &str) {
        "chatml"
    }
}

/// The Meta Llama-3 / Llama-3.1 format.
#[derive(Debug, Clone)]
pub struct Llama3Template;

impl ChatTemplate for Llama3Template {
    open spec fn prompt(&self, messages: Seq<ChatMessage>) -> Seq<char> {
        "<|begin_of_text|>"@ + llama3_turns(messages) + "<|start_header_id|>assistant<|end_header_id|>\n\n"@
    }

    open spec fn name_spec(&self) -> Seq<char> {
        "llama3"@
    }

    fn apply(&self, messages: &[ChatMessage]) -> (r: String) {
        let mut prompt = String::new();
        push_str(&mut prompt, "<|begin_of_text|>");
        let ghost head = prompt@;
        let mut i: usize = 0;
        while i < messages.len()
            invariant
                i <= messages@.len(),
                prompt@ == head + llama3_turns(messages@.take(i as int)),
            decreases messages@.len() - i,
        {
            let msg = &messages[i];
            push_str(&mut prompt, "<|start_header_id|>");
            push_str(&mut prompt, msg.role.as_str());
            push_str(&mut prompt, "<|end_header_id|>\n\n");
            push_str(&mut prompt, msg.content.as_str());
            push_str(&mut prompt, "<|eot_id|>");
            proof {
                lemma_take_last(messages@, i as int);
            }
            i = i + 1;
            assert(prompt@ =~= head + llama3_turns(messages@.take(i as int)));
        }
        assert(messages@.take(i as int) =~= messages@);
        push_str(&mut prompt, "<|start_header_id|>assistant<|end_header_id|>\n\n");
        prompt
    }

    fn name(&self) -> (r: &str) {
        "llama3"
    }
}

/// The generic prompt of a conversation with one more message: the earlier
/// turns, then the new message introduced by `### User:\n` or
/// `### Assistant:\n` (a system message stands bare) and followed by a blank
/// line, and last the opening of the assistant's reply. With no messages the
/// prompt is only that opening.
pub proof fn lemma_generic_turn(t: GenericTemplate, ms: Seq<ChatMessage>, m: ChatMessage)
    ensures
        t.prompt(Seq::empty()) == "### Assistant:\n"@,
        t.prompt(ms.push(m)) == generic_turns(ms) + match m.role {
            Role::System => m.content@,
            Role::User => "### User:\n"@ + m.content@,
            Role::Assistant => "### Assistant:\n"@ + m.content@,
        } + "\n\n"@ + "### Assistant:\n"@,
{
    assert(ms.push(m).drop_last() =~= ms);
    assert(Seq::<char>::empty() + "### Assistant:\n"@ =~= "### Assistant:\n"@);
    match m.role {
        Role::System => {
            assert(generic_turns(ms) + Seq::<char>::empty() + m.content@ =~= generic_turns(ms) + m.content@);
        },
        Role::User => {
            assert(generic_turns(ms) + "### User:\n"@ + m.content@ =~= generic_turns(ms) + ("### User:\n"@
                + m.content@));
        },
        Role::Assistant => {
            assert(generic_turns(ms) + "### Assistant:\n"@ + m.content@ =~= generic_turns(ms) + (
            "### Assistant:\n"@ + m.content@));
        },
    }
}

/// The ChatML prompt of a conversation with one more message: the earlier
/// turns, then `<|im_start|>` with the role's name (`system`, `user` or
/// `assistant`), a newline, the content and `<|im_end|>\n`, and last the
/// opening of the assistant's turn.
pub proof fn lemma_chatml_turn(t: ChatMLTemplate, ms: Seq<ChatMessage>, m: ChatMessage)
    ensures
        t.prompt(ms.push(m)) == chatml_turns(ms) + "<|im_start|>"@ + match m.role {
            Role::System => "system"@,
            Role::User => "user"@,
            Role::Assistant => "assistant"@,
        } + "\n"@ + m.content@ + "<|im_end|>\n"@ + "<|im_start|>assistant\n"@,
{
    assert(ms.push(m).drop_last() =~= ms);
}

/// The Llama-3 prompt of a conversation with one more message: the earlier
/// turns, then the role's name (`system`, `user` or `assistant`) between
/// `<|start_header_id|>` and `<|end_header_id|>`, a blank line, the content
/// and `<|eot_id|>`, all after `<|begin_of_text|>` and before the opening of
/// the assistant's turn.
pub proof fn lemma_llama3_turn(t: Llama3Template, ms: Seq<ChatMessage>, m: ChatMessage)
    ensures
        t.prompt(ms.push(m)) == "<|begin_of_text|>"@ + llama3_turns(ms) + "<|start_header_id|>"@
            + match m.role {
            Role::System => "system"@,
            Role::User => "user"@,
            Role::Assistant => "assistant"@,
        } + "<|end_header_id|>\n\n"@ + m.content@ + "<|eot_id|>"@
            + "<|start_header_id|>assistant<|end_header_id|>\n\n"@,
{
    assert(ms.push(m).drop_last() =~= ms);
    let head = "<|begin_of_text|>"@;
    let tail = "<|start_header_id|>assistant<|end_header_id|>\n\n"@;
    let turn = "<|start_header_id|>"@ + role_name(m.role) + "<|end_header_id|>\n\n"@ + m.content@
        + "<|eot_id|>"@;
    assert(llama3_turns(ms.push(m)) =~= llama3_turns(ms) + turn);
    assert(head + (llama3_turns(ms) + turn) + tail =~= head + llama3_turns(ms) + "<|start_header_id|>"@
        + role_name(m.role) + "<|end_header_id|>\n\n"@ + m.content@ + "<|eot_id|>"@ + tail);
}

/// A markdown-style fallback for models without a known chat format.
#[derive(Debug, Clone)]
pub struct GenericTemplate;

impl ChatTemplate for GenericTemplate {
    open spec fn prompt(&self, messages: Seq<ChatMessage>) -> Seq<char> {
        generic_turns(messages) + "### Assistant:\n"@
    }

    open spec fn name_spec(&self) -> Seq<char> {
        "generic"@
    }

    fn apply(&self, messages: &[ChatMessage]) -> (r: String) {
        let mut prompt = String::new();
        let mut i: usize = 0;
        while i < messages.len()
            invariant
                i <= messages@.len(),
                prompt@ == generic_turns(messages@.take(i as int)),
            decreases messages@.len() - i,
        {
            let msg = &messages[i];
            let ghost before = prompt@;
            match msg.role {
                Role::System => {
                    push_str(&mut prompt, msg.content.as_str());
                    push_str(&mut prompt, "\n\n");
                    assert(prompt@ =~= before + generic_heading(msg.role) + msg.content@ + "\n\n"@);
                },
                Role::User => {
                    push_str(&mut prompt, "### User:\n");
                    push_str(&mut prompt, msg.content.as_str());
                    push_str(&mut prompt, "\n\n");
                },
                Role::Assistant => {
                    push_str(&mut prompt, "### Assistant:\n");
                    push_str(&mut prompt, msg.content.as_str());
                    push_str(&mut prompt, "\n\n");
                },
            }
            proof {
                lemma_take_last(messages@, i as int);
            }
            i = i + 1;
        }
        assert(messages@.take(i as int) =~= messages@);
        push_str(&mut prompt, "### Assistant:\n");
        prompt
    }

    fn name(&self) -> (r: &str) {
        "generic"
    }
}

/// A lower-cased model name that asks for the Llama-3 format.
pub open spec fn names_llama3(lower: Seq<char>) -> bool {
    seq_contains(lower, "llama-3"@) || seq_contains(lower, "llama3"@)
}

/// The template formats `auto_detect` chooses between.
#[derive(Debug, Clone, Copy, PartialEq, Eq, Structural)]
pub enum TemplateKind {
    ChatML,
    Llama3,
}

/// The format for an already lower-cased model name: Llama-3 for names
/// containing `llama-3` or `llama3`, ChatML (the safe default) otherwise.
pub fn detect_kind(lower_name: &str) -> (k: TemplateKind)
    ensures
        k == if names_llama3(lower_name@) {
            TemplateKind::Llama3
        } else {
            TemplateKind::ChatML
        },
{
    let lower = chars_of(lower_name);
    let dash = chars_of("llama-3");
    let plain = chars_of("llama3");
    if contains_chars(&lower, &dash) || contains_chars(&lower, &plain) {
        TemplateKind::Llama3
    } else {
        TemplateKind::ChatML
    }
}

impl ChatTemplate for TemplateKind {
    open spec fn prompt(&self, messages: Seq<ChatMessage>) -> Seq<char> {
        match self {
            TemplateKind::ChatML => ChatMLTemplate.prompt(messages),
            TemplateKind::Llama3 => Llama3Template.prompt(messages),
        }
    }

    open spec fn name_spec(&self) -> Seq<char> {
        match self {
            TemplateKind::ChatML => "chatml"@,
            TemplateKind::Llama3 => "llama3"@,
        }
    }

    fn apply(&self, messages: &[ChatMessage]) -> (r: String) {
        match self {
            TemplateKind::ChatML => ChatMLTemplate.apply(messages),
            TemplateKind::Llama3 => Llama3Template.apply(messages),
        }
    }

    fn name(&self) -> (r: &str) {
        match self {
            TemplateKind::ChatML => "chatml",
            TemplateKind::Llama3 => "llama3",
        }
    }
}

/// Pick a template from the model name, case-insensitively: Llama-3 for
/// names containing `llama-3` or `llama3`, ChatML for everything else.
pub fn auto_detect(model_name: &str) -> (r: TemplateKind)
    ensures
        r == if names_llama3(lowercase(model_name@)) {
            TemplateKind::Llama3
        } else {
            TemplateKind::ChatML
        },
{
    let lower = to_lowercase(model_name);
    detect_kind(lower.as_str())
}

} // verus!
