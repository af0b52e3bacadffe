//! The text of GGUF parse errors, and the metadata key filter of the
//! inspector.
use vstd::prelude::*;

use super::gguf::ParserError;
use crate::text::{
    chars_of, contains_chars, dec, dec_string, hex4, lowercase, push_hex4, push_str, seq_contains, to_lowercase,
};

verus! {

/// Whether a metadata key matches a query: the query's lower-case form
/// occurs in the key's.
pub fn key_matches(key: &str, query: &str) -> (r: bool)
    ensures
        r == seq_contains(lowercase(key@), lowercase(query@)),
{
    let k = to_lowercase(key);
    let q = to_lowercase(query);
    let kc = chars_of(k.as_str());
    let qc = chars_of(q.as_str());
    contains_chars(kc.as_slice(), qc.as_slice())
}

/// The message of a parse error.
pub open spec fn parser_error_text(e: ParserError) -> Seq<char> {
    match e {
        ParserError::UnexpectedEof { bytes, offset, len } => "unexpected end of file reading "@ + dec(bytes as nat)
            + " bytes (offset: "@ + dec(offset as nat) + ", len: "@ + dec(len as nat) + ")"@,
        ParserError::InvalidMagic(m) => "invalid GGUF magic bytes: expected 0x46554747 ('GGUF'), found 0x"@ + hex4(
            (m / 65536) as u16,
        ) + hex4((m % 65536) as u16),
        ParserError::UnsupportedVersion(v) => "unsupported GGUF version: "@ + dec(v as nat),
        ParserError::UnknownValueType(t) => "unknown value type ID "@ + dec(t as nat),
        ParserError::UnknownGgmlType(t) => "unknown GGML type ID "@ + dec(t as nat),
        ParserError::InvalidUtf8 => "invalid UTF-8 string"@,
    }
}

impl ParserError {
    /// The message of the error.
    pub fn message(&self) -> (r: String)
        ensures
            r@ == parser_error_text(*self),
    {
        let mut s = String::new();
        match self {
            ParserError::UnexpectedEof { bytes, offset, len } => {
                push_str(&mut s, "unexpected end of file reading ");
                push_str(&mut s, dec_string(*bytes as u64).as_str());
                push_str(&mut s, " bytes (offset: ");
                push_str(&mut s, dec_string(*offset as u64).as_str());
                push_str(&mut s, ", len: ");
                push_str(&mut s, dec_string(*len as u64).as_str());
                push_str(&mut s, ")");
            },
            ParserError::InvalidMagic(m) => {
                push_str(&mut s, "invalid GGUF magic bytes: expected 0x46554747 ('GGUF'), found 0x");
                push_hex4(&mut s, (*m / 65536) as u16);
                push_hex4(&mut s, (*m % 65536) as u16);
            },
            ParserError::UnsupportedVersion(v) => {
                push_str(&mut s, "unsupported GGUF version: ");
                push_str(&mut s, dec_string(*v as u64).as_str());
            },
            ParserError::UnknownValueType(t) => {
                push_str(&mut s, "unknown value type ID ");
                push_str(&mut s, dec_string(*t as u64).as_str());
            },
            ParserError::UnknownGgmlType(t) => {
                push_str(&mut s, "unknown GGML type ID ");
                push_str(&mut s, dec_string(*t as u64).as_str());
            },
            ParserError::InvalidUtf8 => push_str(&mut s, "invalid UTF-8 string"),
        }
        s
    }
}

} // verus!
