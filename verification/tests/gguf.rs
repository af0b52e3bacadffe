use emu_studio::llm::gguf::{parse_gguf, GgmlType, ParserError, Value, ValueType};
use emu_studio::llm::gguf_text::key_matches;

fn push_string(data: &mut Vec<u8>, s: &str) {
    data.extend_from_slice(&(s.len() as u64).to_le_bytes());
    data.extend_from_slice(s.as_bytes());
}

#[test]
fn test_parse_gguf_mock() {
    let mut data = Vec::new();
    data.extend_from_slice(&0x46554747u32.to_le_bytes());
    data.extend_from_slice(&3u32.to_le_bytes());
    data.extend_from_slice(&1u64.to_le_bytes());
    data.extend_from_slice(&2u64.to_le_bytes());
    let key1 = "general.architecture";
    data.extend_from_slice(&(key1.len() as u64).to_le_bytes());
    data.extend_from_slice(key1.as_bytes());
    data.extend_from_slice(&8u32.to_le_bytes());
    let val1 = "llama";
    data.extend_from_slice(&(val1.len() as u64).to_le_bytes());
    data.extend_from_slice(val1.as_bytes());
    let key2 = "llama.context_length";
    data.extend_from_slice(&(key2.len() as u64).to_le_bytes());
    data.extend_from_slice(key2.as_bytes());
    data.extend_from_slice(&4u32.to_le_bytes());
    data.extend_from_slice(&2048u32.to_le_bytes());
    let t_name = "token_embd.weight";
    data.extend_from_slice(&(t_name.len() as u64).to_le_bytes());
    data.extend_from_slice(t_name.as_bytes());
    data.extend_from_slice(&2u32.to_le_bytes());
    data.extend_from_slice(&4096u64.to_le_bytes());
    data.extend_from_slice(&32000u64.to_le_bytes());
    data.extend_from_slice(&1u32.to_le_bytes());
    data.extend_from_slice(&0u64.to_le_bytes());

    let gguf = parse_gguf(&data).unwrap();
    assert_eq!(gguf.version, 3);
    assert_eq!(gguf.metadata.len(), 2);
    assert!(matches!(gguf.get("general.architecture"), Some(Value::String(s)) if s == "llama"));
    assert!(matches!(gguf.get("llama.context_length"), Some(Value::Uint32(2048))));
    assert_eq!(gguf.tensors.len(), 1);
    assert_eq!(gguf.tensors[0].name, "token_embd.weight");
    assert_eq!(gguf.tensors[0].dimensions, vec![4096, 32000]);
    assert_eq!(gguf.tensors[0].tensor_type, GgmlType::F16);
}

#[test]
fn gguf_rejects_bad_magic_version_and_truncation() {
    assert_eq!(
        parse_gguf(&[1, 2]).err(),
        Some(ParserError::UnexpectedEof { bytes: 4, offset: 0, len: 2 })
    );
    let mut data = Vec::new();
    data.extend_from_slice(&0x12345678u32.to_le_bytes());
    assert_eq!(parse_gguf(&data).err(), Some(ParserError::InvalidMagic(0x12345678)));
    let mut data = Vec::new();
    data.extend_from_slice(&0x46554747u32.to_le_bytes());
    data.extend_from_slice(&7u32.to_le_bytes());
    assert_eq!(parse_gguf(&data).err(), Some(ParserError::UnsupportedVersion(7)));
    let mut data = Vec::new();
    data.extend_from_slice(&0x46554747u32.to_le_bytes());
    data.extend_from_slice(&2u32.to_le_bytes());
    data.extend_from_slice(&0u64.to_le_bytes());
    data.extend_from_slice(&1u64.to_le_bytes());
    push_string(&mut data, "k");
    data.extend_from_slice(&99u32.to_le_bytes());
    assert_eq!(parse_gguf(&data).err(), Some(ParserError::UnknownValueType(99)));
}

#[test]
fn gguf_version_one_counts_and_arrays() {
    let mut data = Vec::new();
    data.extend_from_slice(&0x46554747u32.to_le_bytes());
    data.extend_from_slice(&1u32.to_le_bytes());
    data.extend_from_slice(&0u32.to_le_bytes());
    data.extend_from_slice(&2u32.to_le_bytes());
    push_string(&mut data, "a");
    data.extend_from_slice(&9u32.to_le_bytes());
    data.extend_from_slice(&3u32.to_le_bytes());
    data.extend_from_slice(&2u64.to_le_bytes());
    data.extend_from_slice(&(-5i16).to_le_bytes());
    data.extend_from_slice(&7i16.to_le_bytes());
    push_string(&mut data, "a");
    data.extend_from_slice(&6u32.to_le_bytes());
    data.extend_from_slice(&1.5f32.to_bits().to_le_bytes());
    let gguf = parse_gguf(&data).unwrap();
    assert_eq!(gguf.version, 1);
    assert_eq!(gguf.metadata.len(), 1);
    match gguf.get("a") {
        Some(Value::Float32(bits)) => assert_eq!(f32::from_bits(*bits), 1.5),
        _ => panic!("expected the later value for a repeated key"),
    }
    assert!(gguf.tensors.is_empty());
}

#[test]
fn gguf_array_elements_and_bad_tensor_type() {
    let mut data = Vec::new();
    data.extend_from_slice(&0x46554747u32.to_le_bytes());
    data.extend_from_slice(&3u32.to_le_bytes());
    data.extend_from_slice(&1u64.to_le_bytes());
    data.extend_from_slice(&1u64.to_le_bytes());
    push_string(&mut data, "tokens");
    data.extend_from_slice(&9u32.to_le_bytes());
    data.extend_from_slice(&8u32.to_le_bytes());
    data.extend_from_slice(&2u64.to_le_bytes());
    push_string(&mut data, "<s>");
    push_string(&mut data, "</s>");
    push_string(&mut data, "w");
    data.extend_from_slice(&1u32.to_le_bytes());
    data.extend_from_slice(&8u64.to_le_bytes());
    data.extend_from_slice(&4u32.to_le_bytes());
    assert_eq!(parse_gguf(&data).err(), Some(ParserError::UnknownGgmlType(4)));
    data.truncate(data.len() - 4);
    data.extend_from_slice(&8u32.to_le_bytes());
    data.extend_from_slice(&64u64.to_le_bytes());
    let gguf = parse_gguf(&data).unwrap();
    match gguf.get("tokens") {
        Some(Value::Array(ValueType::String, items)) => {
            assert_eq!(items.len(), 2);
            assert!(matches!(&items[1], Value::String(s) if s == "</s>"));
        },
        _ => panic!("expected a string array"),
    }
    assert_eq!(gguf.tensors[0].tensor_type, GgmlType::Q8_0);
    assert_eq!(gguf.tensors[0].tensor_type.name(), "Q8_0");
    assert_eq!(gguf.tensors[0].offset, 64);
}

#[test]
fn gguf_invalid_utf8_is_reported() {
    let mut data = Vec::new();
    data.extend_from_slice(&0x46554747u32.to_le_bytes());
    data.extend_from_slice(&3u32.to_le_bytes());
    data.extend_from_slice(&0u64.to_le_bytes());
    data.extend_from_slice(&1u64.to_le_bytes());
    data.extend_from_slice(&2u64.to_le_bytes());
    data.extend_from_slice(&[0xC3, 0x28]);
    assert_eq!(parse_gguf(&data).err(), Some(ParserError::InvalidUtf8));
}

#[test]
fn filters_metadata_keys_ignoring_case() {
    assert!(key_matches("general.architecture", "ARCH"));
    assert!(key_matches("Llama.Context_Length", "context"));
    assert!(!key_matches("general.name", "arch"));
    assert!(key_matches("anything", ""));
}

#[test]
fn describes_parse_errors() {
    assert_eq!(ParserError::InvalidMagic(0x12345678).message(), "invalid GGUF magic bytes: expected 0x46554747 ('GGUF'), found 0x12345678");
    assert_eq!(ParserError::UnsupportedVersion(9).message(), "unsupported GGUF version: 9");
    assert_eq!(
        ParserError::UnexpectedEof { bytes: 8, offset: 4, len: 10 }.message(),
        "unexpected end of file reading 8 bytes (offset: 4, len: 10)"
    );
    assert_eq!(ParserError::UnknownGgmlType(99).message(), "unknown GGML type ID 99");
}
