//! The OpenAI-compatible chat server: its request settings, the messages it
//! answers with (whole completions, stream chunks, model lists, errors) and
//! the decisions of a generation run (context size, prompt checks, when to
//! stop and why).
use vstd::prelude::*;

use super::chat_template::{ChatMessage, Role};
use crate::text::push_str;

verus! {

/// Where the HTTP server listens, and the optional speech model it loads.
#[derive(Debug, Clone)]
pub struct ServerConfig {
    pub host: String,
    pub port: u16,
    pub whisper_model: Option<String>,
}

impl Default for ServerConfig {
    /// Local host, port 8080, no speech model.
    fn default() -> (c: Self)
        ensures
            c.host@ == "127.0.0.1"@,
            c.port == 8080,
            c.whisper_model is None,
    {
        ServerConfig { host: "127.0.0.1".to_string(), port: 8080, whisper_model: None }
    }
}

/// Token counts of one completion.
#[derive(Debug, Clone, Copy, PartialEq, Eq, Structural)]
pub struct Usage {
    pub prompt_tokens: u32,
    pub completion_tokens: u32,
    /// `prompt_tokens + completion_tokens`.
    pub total_tokens: u32,
}

/// The assistant message of a whole completion.
#[derive(Debug, Clone)]
pub struct ChatResponseMessage {
    pub role: Role,
    pub content: String,
}

/// One choice of a whole completion.
#[derive(Debug, Clone)]
pub struct ChatChoice {
    pub index: u32,
    pub message: ChatResponseMessage,
    /// `stop` or `length`.
    pub finish_reason: String,
}

/// A whole (non-streamed) chat completion.
#[derive(Debug, Clone)]
pub struct ChatCompletionResponse {
    pub id: String,
    /// Always `chat.completion`.
    pub object: String,
    pub created: i64,
    pub model: String,
    pub choices: Vec<ChatChoice>,
    pub usage: Usage,
}

/// The increment carried by one stream chunk.
#[derive(Debug, Clone)]
pub struct ChunkDelta {
    /// Only in the first chunk.
    pub role: Option<Role>,
    /// The next piece of text; none in the first and the final chunk.
    pub content: Option<String>,
}

/// One choice of a stream chunk.
#[derive(Debug, Clone)]
pub struct ChunkChoice {
    pub index: u32,
    pub delta: ChunkDelta,
    /// None while generating; `stop` or `length` in the final chunk.
    pub finish_reason: Option<String>,
}

/// One chunk of a streamed chat completion.
#[derive(Debug, Clone)]
pub struct ChatCompletionChunk {
    pub id: String,
    /// Always `chat.completion.chunk`.
    pub object: String,
    pub created: i64,
    pub model: String,
    pub choices: Vec<ChunkChoice>,
}

/// A model entry of the models list.
#[derive(Debug, Clone)]
pub struct ModelObject {
    pub id: String,
    /// Always `model`.
    pub object: String,
    pub created: i64,
    pub owned_by: String,
}

/// The models list.
#[derive(Debug, Clone)]
pub struct ModelListResponse {
    /// Always `list`.
    pub object: String,
    pub data: Vec<ModelObject>,
}

/// The body of an error answer.
#[derive(Debug, Clone)]
pub struct ErrorBody {
    pub message: String,
    pub error_type: String,
    pub code: Option<String>,
}

/// An error answer.
#[derive(Debug, Clone)]
pub struct ErrorResponse {
    pub error: ErrorBody,
}

/// Which model is loaded.
#[derive(Debug, Clone)]
pub struct LoadedModelInfo {
    pub model_id: String,
}

/// A request to load a model file.
#[derive(Debug, Clone)]
pub struct LoadModelRequest {
    pub model_id: String,
    pub path: String,
    pub context_size: Option<u32>,
}

/// A loaded model.
#[derive(Debug, Clone)]
pub struct ModelHandle {
    pub model_id: String,
}

/// A generation request on a ready prompt.
#[derive(Debug, Clone)]
pub struct GenerateRequest {
    pub prompt: String,
    pub max_tokens: u32,
    pub seed: Option<u32>,
}

/// A generation request on a conversation.
#[derive(Debug, Clone)]
pub struct ChatRequest {
    pub messages: Vec<ChatMessage>,
    pub max_tokens: u32,
    pub seed: Option<u32>,
}

/// What a generation produced.
#[derive(Debug, Clone)]
pub struct GenerateOutput {
    pub text: String,
    pub prompt_tokens: u32,
    pub generated_tokens: u32,
}

// ---------------------------------------------------------------------------
// Ids and clocks.
// ---------------------------------------------------------------------------

/// A lower-case hexadecimal digit.
pub open spec fn lower_hex_digit(c: char) -> bool {
    ('0' <= c <= '9') || ('a' <= c <= 'f')
}

/// The text of a version-4 UUID: 36 characters, hyphens at 8, 13, 18 and 23,
/// lower-case hex digits elsewhere, the version digit `4` at 14 and the
/// RFC 4122 variant digit (8, 9, a or b) at 19.
pub open spec fn uuid_shaped(s: Seq<char>) -> bool {
    &&& s.len() == 36
    &&& forall|i: int|
        0 <= i < 36 ==> if i == 8 || i == 13 || i == 18 || i == 23 {
            s[i] == '-'
        } else {
            lower_hex_digit(#[trigger] s[i])
        }
    &&& s[14] == '4'
    &&& s[19] == '8' || s[19] == '9' || s[19] == 'a' || s[19] == 'b'
}

/// A random version-4 UUID (uuid's `Uuid::new_v4`, which masks in the
/// version and variant bits) in its hyphenated lower-case text form (its
/// `Display`); the random digits themselves are not stated.
#[verifier::external_body]
fn random_uuid() -> (r: String)
    ensures
        uuid_shaped(r@),
{
    uuid::Uuid::new_v4().to_string()
}

/// A new completion id: `chatcmpl-` followed by a random UUID.
pub fn generate_completion_id() -> (r: String)
    ensures
        r@.len() == 45,
        r@.take(9) == "chatcmpl-"@,
        uuid_shaped(r@.skip(9)),
{
    proof {
        reveal_strlit("chatcmpl-");
    }
    let id = random_uuid();
    let mut r = String::new();
    push_str(&mut r, "chatcmpl-");
    push_str(&mut r, id.as_str());
    assert(r@.take(9) =~= "chatcmpl-"@);
    assert(r@.skip(9) =~= id@);
    r
}

#[verifier::external_type_specification]
#[verifier::external_body]
pub struct ExSystemTime(std::time::SystemTime);

/// std's `SystemTime::now()`: the system clock's reading, of which nothing
/// can be stated.
#[verifier::external_body]
fn system_now() -> std::time::SystemTime {
    std::time::SystemTime::now()
}

/// std's `SystemTime::duration_since(UNIX_EPOCH)`, as whole seconds and the
/// nanoseconds beyond them (under one second, as `Duration::subsec_nanos`
/// documents), or `None` for a time before the epoch. Which of the two a
/// reading gives is not stated: the time is opaque here.
#[verifier::external_body]
fn since_epoch(t: std::time::SystemTime) -> (r: Option<(u64, u32)>)
    ensures
        r matches Some(d) ==> d.1 < 1_000_000_000,
{
    match t.duration_since(std::time::UNIX_EPOCH) {
        Ok(d) => Some((d.as_secs(), d.subsec_nanos())),
        Err(_) => None,
    }
}

/// chrono's `DateTime::<Utc>::from_timestamp(secs, nanos)`, read back with
/// `timestamp()`. chrono documents the pair as a round trip, and the result
/// as `None` only for seconds outside its calendar (years beyond +262142) or
/// an invalid nanosecond count; what is stated here is the round trip and
/// success from the epoch up to 8e12 seconds (about the year 255,000).
#[verifier::external_body]
fn chrono_timestamp(secs: i64, nanos: u32) -> (r: Option<i64>)
    ensures
        r matches Some(t) ==> t == secs,
        0 <= secs < 8_000_000_000_000 && nanos < 1_000_000_000 ==> r is Some,
{
    match chrono::DateTime::from_timestamp(secs, nanos) {
        Some(t) => Some(t.timestamp()),
        None => None,
    }
}

/// The Unix time of a clock reading (seconds and nanoseconds since the epoch,
/// or `None` for a clock before the epoch), as chrono's UTC calendar gives it:
/// the whole seconds, for readings up to 8e12 seconds.
pub fn timestamp_from_clock(clock: Option<(u64, u32)>) -> (r: Option<i64>)
    ensures
        clock is None ==> r is None,
        clock matches Some(c) ==> (c.0 < 8_000_000_000_000 && c.1 < 1_000_000_000 ==> r == Some(
            c.0 as i64,
        )),
        r matches Some(t) ==> clock matches Some(c) && t == c.0,
{
    match clock {
        Some((secs, nanos)) => {
            if secs <= 0x7FFF_FFFF_FFFF_FFFF {
                chrono_timestamp(secs as i64, nanos)
            } else {
                None
            }
        },
        None => None,
    }
}

/// The current time in seconds since the Unix epoch, or `None` when the
/// system clock is set before the epoch (or beyond chrono's calendar).
pub fn unix_timestamp() -> (r: Option<i64>)
    ensures
        r matches Some(t) ==> t >= 0,
{
    timestamp_from_clock(since_epoch(system_now()))
}

// ---------------------------------------------------------------------------
// Requests.
// ---------------------------------------------------------------------------

/// The token limit when a request gives none.
pub const DEFAULT_MAX_TOKENS: u32 = 128;

/// The token limit and whether to stream: 128 tokens and no streaming
/// unless the request says otherwise.
pub fn request_settings(max_tokens: Option<u32>, stream: Option<bool>) -> (r: (u32, bool))
    ensures
        r.0 == match max_tokens {
            Some(m) => m,
            None => DEFAULT_MAX_TOKENS,
        },
        r.1 == match stream {
            Some(s) => s,
            None => false,
        },
{
    let m = match max_tokens {
        Some(m) => m,
        None => DEFAULT_MAX_TOKENS,
    };
    let s = match stream {
        Some(s) => s,
        None => false,
    };
    (m, s)
}

/// The model named in answers: the loaded model, else the one requested.
pub fn served_model_id(info: Option<LoadedModelInfo>, requested: &str) -> (r: String)
    ensures
        r@ == match info {
            Some(i) => i.model_id@,
            None => requested@,
        },
{
    match info {
        Some(i) => i.model_id,
        None => requested.to_string(),
    }
}

// ---------------------------------------------------------------------------
// Answers.
// ---------------------------------------------------------------------------

/// `length` when generation stopped at the token limit, else `stop`.
pub open spec fn finish_reason_text(generated_tokens: u32, max_tokens: u32) -> Seq<char> {
    if generated_tokens >= max_tokens {
        "length"@
    } else {
        "stop"@
    }
}

/// Why generation stopped.
pub fn finish_reason(generated_tokens: u32, max_tokens: u32) -> (r: &'static str)
    ensures
        r@ == finish_reason_text(generated_tokens, max_tokens),
{
    if generated_tokens >= max_tokens {
        "length"
    } else {
        "stop"
    }
}

/// Why a streamed generation stopped: `length` only when it finished and
/// reached the limit; `stop` also when it failed (`None`).
pub fn stream_finish_reason(generated_tokens: Option<u32>, max_tokens: u32) -> (r: &'static str)
    ensures
        r@ == match generated_tokens {
            Some(g) => finish_reason_text(g, max_tokens),
            None => "stop"@,
        },
{
    match generated_tokens {
        Some(g) => finish_reason(g, max_tokens),
        None => "stop",
    }
}

/// The token counts of a completion.
pub fn usage_of(prompt_tokens: u32, completion_tokens: u32) -> (u: Usage)
    requires
        prompt_tokens + completion_tokens <= u32::MAX,
    ensures
        u.prompt_tokens == prompt_tokens,
        u.completion_tokens == completion_tokens,
        u.total_tokens == prompt_tokens + completion_tokens,
{
    Usage { prompt_tokens, completion_tokens, total_tokens: prompt_tokens + completion_tokens }
}

/// The whole completion for a finished generation: one assistant choice
/// with the generated text, its finish reason and the token counts.
pub fn completion_response(id: String, created: i64, model: String, output: GenerateOutput, max_tokens: u32) -> (r:
    ChatCompletionResponse)
    requires
        output.prompt_tokens + output.generated_tokens <= u32::MAX,
    ensures
        r.id@ == id@,
        r.object@ == "chat.completion"@,
        r.created == created,
        r.model@ == model@,
        r.choices@.len() == 1,
        r.choices@[0].index == 0,
        r.choices@[0].message.role == Role::Assistant,
        r.choices@[0].message.content@ == output.text@,
        r.choices@[0].finish_reason@ == finish_reason_text(output.generated_tokens, max_tokens),
        r.usage.prompt_tokens == output.prompt_tokens,
        r.usage.completion_tokens == output.generated_tokens,
        r.usage.total_tokens == output.prompt_tokens + output.generated_tokens,
{
    let usage = usage_of(output.prompt_tokens, output.generated_tokens);
    let reason = finish_reason(output.generated_tokens, max_tokens).to_string();
    let choice = ChatChoice {
        index: 0,
        message: ChatResponseMessage { role: Role::Assistant, content: output.text },
        finish_reason: reason,
    };
    let mut choices = Vec::new();
    choices.push(choice);
    ChatCompletionResponse { id, object: "chat.completion".to_string(), created, model, choices, usage }
}

/// A stream chunk with one choice at index 0 carrying the given increment.
pub open spec fn chunk_ok(
    c: ChatCompletionChunk,
    id: Seq<char>,
    created: i64,
    model: Seq<char>,
    role: Option<Role>,
    content: Option<Seq<char>>,
    finish: Option<Seq<char>>,
) -> bool {
    &&& c.id@ == id
    &&& c.object@ == "chat.completion.chunk"@
    &&& c.created == created
    &&& c.model@ == model
    &&& c.choices@.len() == 1
    &&& c.choices@[0].index == 0
    &&& c.choices@[0].delta.role == role
    &&& match (c.choices@[0].delta.content, content) {
        (Some(a), Some(b)) => a@ == b,
        (None, None) => true,
        _ => false,
    }
    &&& match (c.choices@[0].finish_reason, finish) {
        (Some(a), Some(b)) => a@ == b,
        (None, None) => true,
        _ => false,
    }
}

fn chunk(id: &str, created: i64, model: &str, delta: ChunkDelta, finish_reason: Option<String>) -> (c:
    ChatCompletionChunk)
    ensures
        c.id@ == id@,
        c.object@ == "chat.completion.chunk"@,
        c.created == created,
        c.model@ == model@,
        c.choices@.len() == 1,
        c.choices@[0].index == 0,
        c.choices@[0].delta == delta,
        c.choices@[0].finish_reason == finish_reason,
{
    let mut choices = Vec::new();
    choices.push(ChunkChoice { index: 0, delta, finish_reason });
    ChatCompletionChunk {
        id: id.to_string(),
        object: "chat.completion.chunk".to_string(),
        created,
        model: model.to_string(),
        choices,
    }
}

/// The first chunk of a stream: it announces the assistant role, with no
/// text and no finish reason.
pub fn role_chunk(id: &str, created: i64, model: &str) -> (c: ChatCompletionChunk)
    ensures
        chunk_ok(c, id@, created, model@, Some(Role::Assistant), None, None),
{
    chunk(id, created, model, ChunkDelta { role: Some(Role::Assistant), content: None }, None)
}

/// A chunk with the next piece of generated text.
pub fn token_chunk(id: &str, created: i64, model: &str, piece: String) -> (c: ChatCompletionChunk)
    ensures
        chunk_ok(c, id@, created, model@, None, Some(piece@), None),
{
    chunk(id, created, model, ChunkDelta { role: None, content: Some(piece) }, None)
}

/// The final chunk: no role, no text, the finish reason.
pub fn final_chunk(id: &str, created: i64, model: &str, finish_reason: &str) -> (c: ChatCompletionChunk)
    ensures
        chunk_ok(c, id@, created, model@, None, None, Some(finish_reason@)),
{
    chunk(id, created, model, ChunkDelta { role: None, content: None }, Some(finish_reason.to_string()))
}

/// The event that ends a stream.
pub fn done_marker() -> (r: &'static str)
    ensures
        r@ == "[DONE]"@,
{
    "[DONE]"
}

/// An error answer of kind `server_error`, without a code.
pub fn error_response(message: &str) -> (r: ErrorResponse)
    ensures
        r.error.message@ == message@,
        r.error.error_type@ == "server_error"@,
        r.error.code is None,
{
    ErrorResponse {
        error: ErrorBody { message: message.to_string(), error_type: "server_error".to_string(), code: None },
    }
}

/// The models list: the loaded model, owned by `local`, or nothing.
pub fn model_list(info: Option<LoadedModelInfo>, created: i64) -> (r: ModelListResponse)
    ensures
        r.object@ == "list"@,
        r.data@.len() == if info is Some {
            1int
        } else {
            0
        },
        info matches Some(i) ==> {
            &&& r.data@[0].id@ == i.model_id@
            &&& r.data@[0].object@ == "model"@
            &&& r.data@[0].created == created
            &&& r.data@[0].owned_by@ == "local"@
        },
{
    let mut data = Vec::new();
    match info {
        Some(i) => {
            data.push(
                ModelObject {
                    id: i.model_id,
                    object: "model".to_string(),
                    created,
                    owned_by: "local".to_string(),
                },
            );
        },
        None => {},
    }
    ModelListResponse { object: "list".to_string(), data }
}

// ---------------------------------------------------------------------------
// Generation.
// ---------------------------------------------------------------------------

/// The context length used when a load request gives none (or zero).
pub const DEFAULT_CONTEXT_SIZE: u32 = 2048;

/// The context length for a load request.
pub fn context_size(requested: Option<u32>) -> (n: u32)
    ensures
        n == match requested {
            Some(c) => if c > 0 {
                c
            } else {
                DEFAULT_CONTEXT_SIZE
            },
            None => DEFAULT_CONTEXT_SIZE,
        },
{
    match requested {
        Some(c) => if c > 0 {
            c
        } else {
            DEFAULT_CONTEXT_SIZE
        },
        None => DEFAULT_CONTEXT_SIZE,
    }
}

/// Why a generation could not run.
#[derive(Debug, Clone, PartialEq, Eq, Structural)]
pub enum GenerateError {
    /// No model has been loaded.
    NoModelLoaded,
    /// The prompt gave no tokens.
    EmptyPrompt,
    /// Prompt and token limit together exceed the context.
    ContextExceeded { requested: usize, context: u32 },
}

/// The output of a request for zero tokens: no text, no tokens counted.
pub fn empty_output() -> (o: GenerateOutput)
    ensures
        o.text@ == Seq::<char>::empty(),
        o.prompt_tokens == 0,
        o.generated_tokens == 0,
{
    GenerateOutput { text: String::new(), prompt_tokens: 0, generated_tokens: 0 }
}

/// Whether a prompt of `prompt_tokens` tokens may be run for up to
/// `max_tokens` more in a context of `context` tokens.
pub fn check_prompt(prompt_tokens: usize, max_tokens: u32, context: u32) -> (r: Result<(), GenerateError>)
    requires
        prompt_tokens + max_tokens <= usize::MAX,
    ensures
        prompt_tokens == 0 ==> r == Err::<(), GenerateError>(GenerateError::EmptyPrompt),
        prompt_tokens > 0 && prompt_tokens + max_tokens > context ==> r == Err::<(), GenerateError>(
            GenerateError::ContextExceeded { requested: (prompt_tokens + max_tokens) as usize, context },
        ),
        prompt_tokens > 0 && prompt_tokens + max_tokens <= context ==> r is Ok,
{
    if prompt_tokens == 0 {
        return Err(GenerateError::EmptyPrompt);
    }
    let requested = prompt_tokens + max_tokens as usize;
    if requested > context as usize {
        return Err(GenerateError::ContextExceeded { requested, context });
    }
    Ok(())
}

/// The running state of a generation: the text so far and the tokens
/// counted against the limit.
#[derive(Debug)]
pub struct Generation {
    pub max_tokens: u32,
    pub generated_tokens: u32,
    pub text: String,
}

impl Generation {
    /// Nothing generated yet.
    pub fn new(max_tokens: u32) -> (g: Generation)
        ensures
            g.max_tokens == max_tokens,
            g.generated_tokens == 0,
            g.text@ == Seq::<char>::empty(),
    {
        Generation { max_tokens, generated_tokens: 0, text: String::new() }
    }

    /// Whether another token may be sampled: the limit is not reached.
    pub fn wants_token(&self) -> (r: bool)
        ensures
            r == (self.generated_tokens < self.max_tokens),
    {
        self.generated_tokens < self.max_tokens
    }

    /// Take the text of a sampled token that is not an end-of-generation
    /// token.
    pub fn accept(&mut self, piece: &str)
        requires
            old(self).generated_tokens < old(self).max_tokens,
        ensures
            final(self).max_tokens == old(self).max_tokens,
            final(self).generated_tokens == old(self).generated_tokens + 1,
            final(self).text@ == old(self).text@ + piece@,
    {
        push_str(&mut self.text, piece);
        self.generated_tokens = self.generated_tokens + 1;
    }

    /// The output of the finished generation.
    pub fn finish(self, prompt_tokens: u32) -> (o: GenerateOutput)
        ensures
            o.text@ == self.text@,
            o.prompt_tokens == prompt_tokens,
            o.generated_tokens == self.generated_tokens,
    {
        GenerateOutput { text: self.text, prompt_tokens, generated_tokens: self.generated_tokens }
    }
}

} // verus!
