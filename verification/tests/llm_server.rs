use emu_studio::llm::chat_template::Role;
use emu_studio::llm::server::{
    check_prompt, completion_response, context_size, done_marker, empty_output, error_response, final_chunk,
    finish_reason, model_list, request_settings, role_chunk, served_model_id, stream_finish_reason,
    token_chunk, usage_of, GenerateError, GenerateOutput, Generation, LoadedModelInfo, ServerConfig,
};

#[test]
fn builds_a_whole_completion() {
    let output = GenerateOutput { text: "Hello!".to_string(), prompt_tokens: 10, generated_tokens: 5 };
    let response = completion_response(
        "chatcmpl-test-id".to_string(),
        1_700_000_000,
        "test-model".to_string(),
        output,
        128,
    );
    assert_eq!(response.id, "chatcmpl-test-id");
    assert_eq!(response.object, "chat.completion");
    assert_eq!(response.created, 1_700_000_000);
    assert_eq!(response.model, "test-model");
    assert_eq!(response.choices.len(), 1);
    assert_eq!(response.choices[0].index, 0);
    assert_eq!(response.choices[0].message.role, Role::Assistant);
    assert_eq!(response.choices[0].message.content, "Hello!");
    assert_eq!(response.choices[0].finish_reason, "stop");
    assert_eq!(response.usage.prompt_tokens, 10);
    assert_eq!(response.usage.completion_tokens, 5);
    assert_eq!(response.usage.total_tokens, 15);
}

#[test]
fn reports_length_when_the_limit_is_reached() {
    assert_eq!(finish_reason(128, 128), "length");
    assert_eq!(finish_reason(127, 128), "stop");
    assert_eq!(finish_reason(0, 0), "length");
    assert_eq!(stream_finish_reason(Some(16), 16), "length");
    assert_eq!(stream_finish_reason(Some(3), 16), "stop");
    assert_eq!(stream_finish_reason(None, 16), "stop");
    let output = GenerateOutput { text: "abc".to_string(), prompt_tokens: 2, generated_tokens: 4 };
    let response = completion_response("id".to_string(), 0, "m".to_string(), output, 4);
    assert_eq!(response.choices[0].finish_reason, "length");
}

#[test]
fn totals_token_usage() {
    let u = usage_of(7, 9);
    assert_eq!(u.prompt_tokens, 7);
    assert_eq!(u.completion_tokens, 9);
    assert_eq!(u.total_tokens, 16);
}

#[test]
fn streams_role_then_tokens_then_finish() {
    let first = role_chunk("chatcmpl-stream-id", 1_700_000_000, "test-model");
    assert_eq!(first.object, "chat.completion.chunk");
    assert_eq!(first.id, "chatcmpl-stream-id");
    assert_eq!(first.created, 1_700_000_000);
    assert_eq!(first.model, "test-model");
    assert_eq!(first.choices[0].delta.role, Some(Role::Assistant));
    assert!(first.choices[0].delta.content.is_none());
    assert!(first.choices[0].finish_reason.is_none());

    let token = token_chunk("chatcmpl-stream-id", 1_700_000_000, "test-model", "Hi".to_string());
    assert!(token.choices[0].delta.role.is_none());
    assert_eq!(token.choices[0].delta.content.as_deref(), Some("Hi"));
    assert!(token.choices[0].finish_reason.is_none());

    let last = final_chunk("chatcmpl-stream-id", 1_700_000_000, "test-model", "stop");
    assert!(last.choices[0].delta.role.is_none());
    assert!(last.choices[0].delta.content.is_none());
    assert_eq!(last.choices[0].finish_reason.as_deref(), Some("stop"));
    assert_eq!(done_marker(), "[DONE]");
}

#[test]
fn answers_errors_as_server_errors() {
    let e = error_response("model crashed");
    assert_eq!(e.error.message, "model crashed");
    assert_eq!(e.error.error_type, "server_error");
    assert!(e.error.code.is_none());
}

#[test]
fn lists_the_loaded_model() {
    let list = model_list(Some(LoadedModelInfo { model_id: "tiny".to_string() }), 42);
    assert_eq!(list.object, "list");
    assert_eq!(list.data.len(), 1);
    assert_eq!(list.data[0].id, "tiny");
    assert_eq!(list.data[0].object, "model");
    assert_eq!(list.data[0].created, 42);
    assert_eq!(list.data[0].owned_by, "local");
    assert!(model_list(None, 42).data.is_empty());
}

#[test]
fn applies_request_defaults() {
    assert_eq!(request_settings(None, None), (128, false));
    assert_eq!(request_settings(Some(16), Some(true)), (16, true));
    assert_eq!(served_model_id(Some(LoadedModelInfo { model_id: "loaded".to_string() }), "asked"), "loaded");
    assert_eq!(served_model_id(None, "asked"), "asked");
}

#[test]
fn defaults_the_server_config() {
    let c = ServerConfig::default();
    assert_eq!(c.host, "127.0.0.1");
    assert_eq!(c.port, 8080);
    assert!(c.whisper_model.is_none());
}

#[test]
fn chooses_the_context_size() {
    assert_eq!(context_size(None), 2048);
    assert_eq!(context_size(Some(0)), 2048);
    assert_eq!(context_size(Some(4096)), 4096);
}

#[test]
fn checks_prompts_against_the_context() {
    assert_eq!(check_prompt(0, 16, 2048), Err(GenerateError::EmptyPrompt));
    assert_eq!(check_prompt(2000, 48, 2048), Ok(()));
    assert_eq!(
        check_prompt(2000, 49, 2048),
        Err(GenerateError::ContextExceeded { requested: 2049, context: 2048 })
    );
}

#[test]
fn accumulates_a_generation() {
    let mut g = Generation::new(2);
    assert!(g.wants_token());
    g.accept("Hel");
    assert!(g.wants_token());
    g.accept("lo");
    assert!(!g.wants_token());
    let out = g.finish(7);
    assert_eq!(out.text, "Hello");
    assert_eq!(out.prompt_tokens, 7);
    assert_eq!(out.generated_tokens, 2);
    let none = empty_output();
    assert_eq!(none.text, "");
    assert_eq!(none.generated_tokens, 0);
}

#[test]
fn test_generate_completion_id_prefix() {
    let id = emu_studio::llm::server::generate_completion_id();
    assert!(id.starts_with("chatcmpl-"), "id should start with 'chatcmpl-', got: {id}");
}

#[test]
fn completion_ids_carry_a_uuid() {
    let id = emu_studio::llm::server::generate_completion_id();
    assert_eq!(id.len(), 45);
    let uuid = &id[9..];
    assert_eq!(uuid.as_bytes()[8], b'-');
    assert_eq!(uuid.as_bytes()[23], b'-');
    assert_eq!(uuid.as_bytes()[14], b'4');
    assert!(matches!(uuid.as_bytes()[19], b'8' | b'9' | b'a' | b'b'));
    for (i, c) in uuid.bytes().enumerate() {
        if i == 8 || i == 13 || i == 18 || i == 23 {
            assert_eq!(c, b'-');
        } else {
            assert!(c.is_ascii_digit() || (b'a'..=b'f').contains(&c));
        }
    }
    assert_ne!(id, emu_studio::llm::server::generate_completion_id());
    assert!(emu_studio::llm::server::unix_timestamp().unwrap() > 1_600_000_000);
}

#[test]
fn clock_readings_become_whole_seconds() {
    assert_eq!(emu_studio::llm::server::timestamp_from_clock(Some((1_700_000_000, 999_999_999))), Some(1_700_000_000));
    assert_eq!(emu_studio::llm::server::timestamp_from_clock(Some((0, 0))), Some(0));
    assert_eq!(emu_studio::llm::server::timestamp_from_clock(None), None);
    assert_eq!(emu_studio::llm::server::timestamp_from_clock(Some((u64::MAX, 0))), None);
}
