//! Parsing the header of a GGUF model file: magic, version, metadata
//! key-value pairs and tensor descriptions.
//!
//! Floating-point values are carried as their IEEE-754 bit patterns.
use vstd::prelude::*;
use vstd::utf8::{decode_utf8, valid_utf8};

use crate::nes_cpu::state::{from_le16, from_le32, from_le64, read_u16, read_u32, read_u64};
use crate::text::str_eq;

verus! {

/// Why a GGUF file could not be parsed.
#[derive(Debug, Clone, PartialEq, Eq, Structural)]
pub enum ParserError {
    /// Fewer than `bytes` bytes remain at `offset` in data of length `len`.
    UnexpectedEof { bytes: usize, offset: usize, len: usize },
    InvalidMagic(u32),
    UnsupportedVersion(u32),
    UnknownValueType(u32),
    UnknownGgmlType(u32),
    /// A string's bytes are not UTF-8.
    InvalidUtf8,
}

/// The type of a metadata value.
#[derive(Debug, Clone, Copy, PartialEq, Eq, Structural)]
pub enum ValueType {
    Uint8,
    Int8,
    Uint16,
    Int16,
    Uint32,
    Int32,
    Float32,
    Bool,
    String,
    Array,
    Uint64,
    Int64,
    Float64,
}

/// The value type with the given code.
pub open spec fn value_type_of(code: u32) -> Option<ValueType> {
    if code == 0 {
        Some(ValueType::Uint8)
    } else if code == 1 {
        Some(ValueType::Int8)
    } else if code == 2 {
        Some(ValueType::Uint16)
    } else if code == 3 {
        Some(ValueType::Int16)
    } else if code == 4 {
        Some(ValueType::Uint32)
    } else if code == 5 {
        Some(ValueType::Int32)
    } else if code == 6 {
        Some(ValueType::Float32)
    } else if code == 7 {
        Some(ValueType::Bool)
    } else if code == 8 {
        Some(ValueType::String)
    } else if code == 9 {
        Some(ValueType::Array)
    } else if code == 10 {
        Some(ValueType::Uint64)
    } else if code == 11 {
        Some(ValueType::Int64)
    } else if code == 12 {
        Some(ValueType::Float64)
    } else {
        None
    }
}

impl ValueType {
    /// The value type with the given code, or `UnknownValueType`.
    pub fn try_from_u32(code: u32) -> (r: Result<ValueType, ParserError>)
        ensures
            r == match value_type_of(code) {
                Some(t) => Ok(t),
                None => Err(ParserError::UnknownValueType(code)),
            },
    {
        match code {
            0 => Ok(ValueType::Uint8),
            1 => Ok(ValueType::Int8),
            2 => Ok(ValueType::Uint16),
            3 => Ok(ValueType::Int16),
            4 => Ok(ValueType::Uint32),
            5 => Ok(ValueType::Int32),
            6 => Ok(ValueType::Float32),
            7 => Ok(ValueType::Bool),
            8 => Ok(ValueType::String),
            9 => Ok(ValueType::Array),
            10 => Ok(ValueType::Uint64),
            11 => Ok(ValueType::Int64),
            12 => Ok(ValueType::Float64),
            _ => Err(ParserError::UnknownValueType(code)),
        }
    }
}

/// The GGML tensor element types.
#[derive(Debug, Clone, Copy, PartialEq, Eq, Structural)]
pub enum GgmlType {
    F32,
    F16,
    Q4_0,
    Q4_1,
    Q5_0,
    Q5_1,
    Q8_0,
    Q8_1,
    Q2_K,
    Q3_K,
    Q4_K,
    Q5_K,
    Q6_K,
    Q8_K,
    Iq2Xxs,
    Iq2Xs,
    Iq3Xxs,
    Iq1S,
    Iq4Nl,
    Iq3S,
    Iq2S,
    Iq4Xs,
    I8,
    I16,
    I32,
    I64,
    F64,
    Iq1M,
}

/// The GGML type with the given code (codes 4 and 5 are unused).
pub open spec fn ggml_type_of(code: u32) -> Option<GgmlType> {
    match code {
        0 => Some(GgmlType::F32),
        1 => Some(GgmlType::F16),
        2 => Some(GgmlType::Q4_0),
        3 => Some(GgmlType::Q4_1),
        6 => Some(GgmlType::Q5_0),
        7 => Some(GgmlType::Q5_1),
        8 => Some(GgmlType::Q8_0),
        9 => Some(GgmlType::Q8_1),
        10 => Some(GgmlType::Q2_K),
        11 => Some(GgmlType::Q3_K),
        12 => Some(GgmlType::Q4_K),
        13 => Some(GgmlType::Q5_K),
        14 => Some(GgmlType::Q6_K),
        15 => Some(GgmlType::Q8_K),
        16 => Some(GgmlType::Iq2Xxs),
        17 => Some(GgmlType::Iq2Xs),
        18 => Some(GgmlType::Iq3Xxs),
        19 => Some(GgmlType::Iq1S),
        20 => Some(GgmlType::Iq4Nl),
        21 => Some(GgmlType::Iq3S),
        22 => Some(GgmlType::Iq2S),
        23 => Some(GgmlType::Iq4Xs),
        24 => Some(GgmlType::I8),
        25 => Some(GgmlType::I16),
        26 => Some(GgmlType::I32),
        27 => Some(GgmlType::I64),
        28 => Some(GgmlType::F64),
        29 => Some(GgmlType::Iq1M),
        _ => None,
    }
}

/// The conventional name of a GGML type.
pub open spec fn ggml_name(t: GgmlType) -> Seq<char> {
    match t {
        GgmlType::F32 => "F32"@,
        GgmlType::F16 => "F16"@,
        GgmlType::Q4_0 => "Q4_0"@,
        GgmlType::Q4_1 => "Q4_1"@,
        GgmlType::Q5_0 => "Q5_0"@,
        GgmlType::Q5_1 => "Q5_1"@,
        GgmlType::Q8_0 => "Q8_0"@,
        GgmlType::Q8_1 => "Q8_1"@,
        GgmlType::Q2_K => "Q2_K"@,
        GgmlType::Q3_K => "Q3_K"@,
        GgmlType::Q4_K => "Q4_K"@,
        GgmlType::Q5_K => "Q5_K"@,
        GgmlType::Q6_K => "Q6_K"@,
        GgmlType::Q8_K => "Q8_K"@,
        GgmlType::Iq2Xxs => "IQ2_XXS"@,
        GgmlType::Iq2Xs => "IQ2_XS"@,
        GgmlType::Iq3Xxs => "IQ3_XXS"@,
        GgmlType::Iq1S => "IQ1_S"@,
        GgmlType::Iq4Nl => "IQ4_NL"@,
        GgmlType::Iq3S => "IQ3_S"@,
        GgmlType::Iq2S => "IQ2_S"@,
        GgmlType::Iq4Xs => "IQ4_XS"@,
        GgmlType::I8 => "I8"@,
        GgmlType::I16 => "I16"@,
        GgmlType::I32 => "I32"@,
        GgmlType::I64 => "I64"@,
        GgmlType::F64 => "F64"@,
        GgmlType::Iq1M => "IQ1_M"@,
    }
}

/// GGML's numbering of its types. The legacy quants: codes 2 and 3 are the
/// 4-bit Q4_0 and Q4_1, 6 and 7 the 5-bit Q5_0 and Q5_1, 8 and 9 the 8-bit
/// Q8_0 and Q8_1 (variant 0 at the even code). The K-quants: codes 10 to 14
/// are the 2- to 6-bit ones in order of width, 15 the 8-bit one. Codes 0, 1
/// and 28 are the 32-, 16- and 64-bit floats, 24 to 27 the 8- to 64-bit
/// integers; the i-quants take 16 to 23 and 29. Codes 4 and 5 and those above
/// 29 name no type, and no two codes name the same type.
pub proof fn lemma_ggml_codes(c: u32)
    ensures
        (2 <= c <= 3 || 6 <= c <= 9) ==> (ggml_type_of(c) matches Some(t) && ggml_name(t) == seq![
            'Q',
            if c <= 3 {
                '4'
            } else if c <= 7 {
                '5'
            } else {
                '8'
            },
            '_',
            (48 + c % 2) as char,
        ]),
        10 <= c <= 14 ==> (ggml_type_of(c) matches Some(t) && ggml_name(t) == seq![
            'Q',
            (40 + c) as char,
            '_',
            'K',
        ]),
        c == 15 ==> (ggml_type_of(c) matches Some(t) && ggml_name(t) == seq!['Q', '8', '_', 'K']),
        c == 0 ==> (ggml_type_of(c) matches Some(t) && ggml_name(t) == seq!['F', '3', '2']),
        c == 1 ==> (ggml_type_of(c) matches Some(t) && ggml_name(t) == seq!['F', '1', '6']),
        c == 28 ==> (ggml_type_of(c) matches Some(t) && ggml_name(t) == seq!['F', '6', '4']),
        c == 24 ==> (ggml_type_of(c) matches Some(t) && ggml_name(t) == seq!['I', '8']),
        c == 25 ==> (ggml_type_of(c) matches Some(t) && ggml_name(t) == seq!['I', '1', '6']),
        c == 26 ==> (ggml_type_of(c) matches Some(t) && ggml_name(t) == seq!['I', '3', '2']),
        c == 27 ==> (ggml_type_of(c) matches Some(t) && ggml_name(t) == seq!['I', '6', '4']),
        c == 16 ==> (ggml_type_of(c) matches Some(t) && ggml_name(t) == seq!['I', 'Q', '2', '_', 'X', 'X', 'S']),
        c == 17 ==> (ggml_type_of(c) matches Some(t) && ggml_name(t) == seq!['I', 'Q', '2', '_', 'X', 'S']),
        c == 18 ==> (ggml_type_of(c) matches Some(t) && ggml_name(t) == seq!['I', 'Q', '3', '_', 'X', 'X', 'S']),
        c == 19 ==> (ggml_type_of(c) matches Some(t) && ggml_name(t) == seq!['I', 'Q', '1', '_', 'S']),
        c == 20 ==> (ggml_type_of(c) matches Some(t) && ggml_name(t) == seq!['I', 'Q', '4', '_', 'N', 'L']),
        c == 21 ==> (ggml_type_of(c) matches Some(t) && ggml_name(t) == seq!['I', 'Q', '3', '_', 'S']),
        c == 22 ==> (ggml_type_of(c) matches Some(t) && ggml_name(t) == seq!['I', 'Q', '2', '_', 'S']),
        c == 23 ==> (ggml_type_of(c) matches Some(t) && ggml_name(t) == seq!['I', 'Q', '4', '_', 'X', 'S']),
        c == 29 ==> (ggml_type_of(c) matches Some(t) && ggml_name(t) == seq!['I', 'Q', '1', '_', 'M']),
        (c == 4 || c == 5 || c > 29) ==> ggml_type_of(c) is None,
        forall|d: u32| #[trigger] ggml_type_of(d) == ggml_type_of(c) && ggml_type_of(c) is Some ==> d == c,
{
    if c == 0 {
        reveal_strlit("F32");
    }
    if c == 1 {
        reveal_strlit("F16");
    }
    if c == 2 {
        reveal_strlit("Q4_0");
    }
    if c == 3 {
        reveal_strlit("Q4_1");
    }
    if c == 6 {
        reveal_strlit("Q5_0");
    }
    if c == 7 {
        reveal_strlit("Q5_1");
    }
    if c == 8 {
        reveal_strlit("Q8_0");
    }
    if c == 9 {
        reveal_strlit("Q8_1");
    }
    if c == 10 {
        reveal_strlit("Q2_K");
    }
    if c == 11 {
        reveal_strlit("Q3_K");
    }
    if c == 12 {
        reveal_strlit("Q4_K");
    }
    if c == 13 {
        reveal_strlit("Q5_K");
    }
    if c == 14 {
        reveal_strlit("Q6_K");
    }
    if c == 15 {
        reveal_strlit("Q8_K");
    }
    if c == 16 {
        reveal_strlit("IQ2_XXS");
    }
    if c == 17 {
        reveal_strlit("IQ2_XS");
    }
    if c == 18 {
        reveal_strlit("IQ3_XXS");
    }
    if c == 19 {
        reveal_strlit("IQ1_S");
    }
    if c == 20 {
        reveal_strlit("IQ4_NL");
    }
    if c == 21 {
        reveal_strlit("IQ3_S");
    }
    if c == 22 {
        reveal_strlit("IQ2_S");
    }
    if c == 23 {
        reveal_strlit("IQ4_XS");
    }
    if c == 24 {
        reveal_strlit("I8");
    }
    if c == 25 {
        reveal_strlit("I16");
    }
    if c == 26 {
        reveal_strlit("I32");
    }
    if c == 27 {
        reveal_strlit("I64");
    }
    if c == 28 {
        reveal_strlit("F64");
    }
    if c == 29 {
        reveal_strlit("IQ1_M");
    }
}

impl GgmlType {
    /// The GGML type with the given code, or `UnknownGgmlType`.
    pub fn try_from_u32(code: u32) -> (r: Result<GgmlType, ParserError>)
        ensures
            r == match ggml_type_of(code) {
                Some(t) => Ok(t),
                None => Err(ParserError::UnknownGgmlType(code)),
            },
    {
        match code {
            0 => Ok(GgmlType::F32),
            1 => Ok(GgmlType::F16),
            2 => Ok(GgmlType::Q4_0),
            3 => Ok(GgmlType::Q4_1),
            6 => Ok(GgmlType::Q5_0),
            7 => Ok(GgmlType::Q5_1),
            8 => Ok(GgmlType::Q8_0),
            9 => Ok(GgmlType::Q8_1),
            10 => Ok(GgmlType::Q2_K),
            11 => Ok(GgmlType::Q3_K),
            12 => Ok(GgmlType::Q4_K),
            13 => Ok(GgmlType::Q5_K),
            14 => Ok(GgmlType::Q6_K),
            15 => Ok(GgmlType::Q8_K),
            16 => Ok(GgmlType::Iq2Xxs),
            17 => Ok(GgmlType::Iq2Xs),
            18 => Ok(GgmlType::Iq3Xxs),
            19 => Ok(GgmlType::Iq1S),
            20 => Ok(GgmlType::Iq4Nl),
            21 => Ok(GgmlType::Iq3S),
            22 => Ok(GgmlType::Iq2S),
            23 => Ok(GgmlType::Iq4Xs),
            24 => Ok(GgmlType::I8),
            25 => Ok(GgmlType::I16),
            26 => Ok(GgmlType::I32),
            27 => Ok(GgmlType::I64),
            28 => Ok(GgmlType::F64),
            29 => Ok(GgmlType::Iq1M),
            _ => Err(ParserError::UnknownGgmlType(code)),
        }
    }

    /// The type's conventional name, as displayed.
    pub fn name(&self) -> (r: &'static str)
        ensures
            r@ == ggml_name(*self),
    {
        match self {
            GgmlType::F32 => "F32",
            GgmlType::F16 => "F16",
            GgmlType::Q4_0 => "Q4_0",
            GgmlType::Q4_1 => "Q4_1",
            GgmlType::Q5_0 => "Q5_0",
            GgmlType::Q5_1 => "Q5_1",
            GgmlType::Q8_0 => "Q8_0",
            GgmlType::Q8_1 => "Q8_1",
            GgmlType::Q2_K => "Q2_K",
            GgmlType::Q3_K => "Q3_K",
            GgmlType::Q4_K => "Q4_K",
            GgmlType::Q5_K => "Q5_K",
            GgmlType::Q6_K => "Q6_K",
            GgmlType::Q8_K => "Q8_K",
            GgmlType::Iq2Xxs => "IQ2_XXS",
            GgmlType::Iq2Xs => "IQ2_XS",
            GgmlType::Iq3Xxs => "IQ3_XXS",
            GgmlType::Iq1S => "IQ1_S",
            GgmlType::Iq4Nl => "IQ4_NL",
            GgmlType::Iq3S => "IQ3_S",
            GgmlType::Iq2S => "IQ2_S",
            GgmlType::Iq4Xs => "IQ4_XS",
            GgmlType::I8 => "I8",
            GgmlType::I16 => "I16",
            GgmlType::I32 => "I32",
            GgmlType::I64 => "I64",
            GgmlType::F64 => "F64",
            GgmlType::Iq1M => "IQ1_M",
        }
    }
}

/// A metadata value. Floating-point values hold their IEEE-754 bits.
#[derive(Debug)]
pub enum Value {
    Uint8(u8),
    Int8(i8),
    Uint16(u16),
    Int16(i16),
    Uint32(u32),
    Int32(i32),
    /// The bits of an `f32`.
    Float32(u32),
    Bool(bool),
    String(String),
    Array(ValueType, Vec<Value>),
    Uint64(u64),
    Int64(i64),
    /// The bits of an `f64`.
    Float64(u64),
}

/// The mathematical content of a metadata value.
pub enum ValueModel {
    Uint8(u8),
    Int8(i8),
    Uint16(u16),
    Int16(i16),
    Uint32(u32),
    Int32(i32),
    Float32(u32),
    Bool(bool),
    String(Seq<char>),
    Array(ValueType, Seq<ValueModel>),
    Uint64(u64),
    Int64(i64),
    Float64(u64),
}

/// The content of a value.
pub open spec fn model(v: Value) -> ValueModel
    decreases v,
{
    match v {
        Value::Uint8(x) => ValueModel::Uint8(x),
        Value::Int8(x) => ValueModel::Int8(x),
        Value::Uint16(x) => ValueModel::Uint16(x),
        Value::Int16(x) => ValueModel::Int16(x),
        Value::Uint32(x) => ValueModel::Uint32(x),
        Value::Int32(x) => ValueModel::Int32(x),
        Value::Float32(x) => ValueModel::Float32(x),
        Value::Bool(x) => ValueModel::Bool(x),
        Value::String(x) => ValueModel::String(x@),
        Value::Array(t, vs) => ValueModel::Array(t, models(vs@)),
        Value::Uint64(x) => ValueModel::Uint64(x),
        Value::Int64(x) => ValueModel::Int64(x),
        Value::Float64(x) => ValueModel::Float64(x),
    }
}

/// The contents of a sequence of values.
pub open spec fn models(vs: Seq<Value>) -> Seq<ValueModel>
    decreases vs,
{
    if vs.len() == 0 {
        Seq::empty()
    } else {
        models(vs.drop_last()).push(model(vs.last()))
    }
}

/// A tensor's name, shape, element type and data offset.
#[derive(Debug, Clone)]
pub struct TensorInfo {
    pub name: String,
    pub dimensions: Vec<u64>,
    pub tensor_type: GgmlType,
    pub offset: u64,
}

/// The content of a tensor description.
pub struct TensorModel {
    pub name: Seq<char>,
    pub dimensions: Seq<u64>,
    pub tensor_type: GgmlType,
    pub offset: u64,
}

pub open spec fn tensor_model(t: TensorInfo) -> TensorModel {
    TensorModel {
        name: t.name@,
        dimensions: t.dimensions@,
        tensor_type: t.tensor_type,
        offset: t.offset,
    }
}

/// A parsed GGUF header. Metadata keys are distinct; a key that occurs
/// again in the file replaces the earlier value in place.
#[derive(Debug)]
pub struct GgufFile {
    pub version: u32,
    pub metadata: Vec<(String, Value)>,
    pub tensors: Vec<TensorInfo>,
}

/// The content of a parsed header.
pub struct GgufModel {
    pub version: u32,
    pub metadata: Seq<(Seq<char>, ValueModel)>,
    pub tensors: Seq<TensorModel>,
}

pub open spec fn kv_model(p: (String, Value)) -> (Seq<char>, ValueModel) {
    (p.0@, model(p.1))
}

impl GgufFile {
    pub open spec fn view(&self) -> GgufModel {
        GgufModel {
            version: self.version,
            metadata: self.metadata@.map_values(|p: (String, Value)| kv_model(p)),
            tensors: self.tensors@.map_values(|t: TensorInfo| tensor_model(t)),
        }
    }
}

// ── The grammar, as spec functions over the bytes and an offset ───────────

/// Reading `n` bytes at `off` ran past the end.
pub open spec fn eof_at(data: Seq<u8>, off: int, n: int) -> ParserError {
    ParserError::UnexpectedEof { bytes: n as usize, offset: off as usize, len: data.len() as usize }
}

/// `n` bytes are available at `off`.
pub open spec fn fits(data: Seq<u8>, off: int, n: int) -> bool {
    0 <= off && 0 <= n && off + n <= data.len()
}

/// The bytes from `off` to the end.
pub open spec fn rest(data: Seq<u8>, off: int) -> Seq<u8> {
    data.subrange(off, data.len() as int)
}

/// A little-endian `u32` at `off`, and the offset after it.
pub open spec fn u32_at(data: Seq<u8>, off: int) -> Result<(u32, int), ParserError> {
    if fits(data, off, 4) {
        Ok((from_le32(rest(data, off)), off + 4))
    } else {
        Err(eof_at(data, off, 4))
    }
}

/// A little-endian `u64` at `off`, and the offset after it.
pub open spec fn u64_at(data: Seq<u8>, off: int) -> Result<(u64, int), ParserError> {
    if fits(data, off, 8) {
        Ok((from_le64(rest(data, off)), off + 8))
    } else {
        Err(eof_at(data, off, 8))
    }
}

/// A string at `off`: a `u64` byte length, then that many UTF-8 bytes.
pub open spec fn string_at(data: Seq<u8>, off: int) -> Result<(Seq<char>, int), ParserError> {
    match u64_at(data, off) {
        Err(e) => Err(e),
        Ok((n64, o1)) => {
            let n = (n64 as usize) as int;
            if fits(data, o1, n) {
                let b = data.subrange(o1, o1 + n);
                if valid_utf8(b) {
                    Ok((decode_utf8(b), o1 + n))
                } else {
                    Err(ParserError::InvalidUtf8)
                }
            } else {
                Err(eof_at(data, o1, n))
            }
        },
    }
}

/// A fixed-width scalar value of type `ty` (any type but string and array).
pub open spec fn scalar_at(data: Seq<u8>, off: int, ty: ValueType) -> Result<(ValueModel, int), ParserError> {
    let w: int = match ty {
        ValueType::Uint8 | ValueType::Int8 | ValueType::Bool => 1,
        ValueType::Uint16 | ValueType::Int16 => 2,
        ValueType::Uint32 | ValueType::Int32 | ValueType::Float32 => 4,
        _ => 8,
    };
    if !fits(data, off, w) {
        Err(eof_at(data, off, w))
    } else {
        let r = rest(data, off);
        let v = match ty {
            ValueType::Uint8 => ValueModel::Uint8(r[0]),
            ValueType::Int8 => ValueModel::Int8(r[0] as i8),
            ValueType::Bool => ValueModel::Bool(r[0] != 0),
            ValueType::Uint16 => ValueModel::Uint16(from_le16(r)),
            ValueType::Int16 => ValueModel::Int16(from_le16(r) as i16),
            ValueType::Uint32 => ValueModel::Uint32(from_le32(r)),
            ValueType::Int32 => ValueModel::Int32(from_le32(r) as i32),
            ValueType::Float32 => ValueModel::Float32(from_le32(r)),
            ValueType::Uint64 => ValueModel::Uint64(from_le64(r)),
            ValueType::Int64 => ValueModel::Int64(from_le64(r) as i64),
            _ => ValueModel::Float64(from_le64(r)),
        };
        Ok((v, off + w))
    }
}

/// A value of type `ty` at `off`; an array is an element type code, a
/// `u64` count and that many elements.
pub open spec fn value_at(data: Seq<u8>, off: int, ty: ValueType) -> Result<(ValueModel, int), ParserError>
    decreases data.len() - off, 0nat, 0nat,
{
    match ty {
        ValueType::String => match string_at(data, off) {
            Ok((s, e)) => Ok((ValueModel::String(s), e)),
            Err(x) => Err(x),
        },
        ValueType::Array => match u32_at(data, off) {
            Err(x) => Err(x),
            Ok((code, o1)) => match value_type_of(code) {
                None => Err(ParserError::UnknownValueType(code)),
                Some(et) => match u64_at(data, o1) {
                    Err(x) => Err(x),
                    Ok((n, o2)) => match elems_at(data, o2, et, (n as usize) as nat) {
                        Ok((es, e)) => Ok((ValueModel::Array(et, es), e)),
                        Err(x) => Err(x),
                    },
                },
            },
        },
        _ => scalar_at(data, off, ty),
    }
}

/// `n` values of type `ty` from `off`.
pub open spec fn elems_at(data: Seq<u8>, off: int, ty: ValueType, n: nat) -> Result<(Seq<ValueModel>, int), ParserError>
    decreases data.len() - off, 1nat, n,
{
    if n == 0 {
        Ok((Seq::empty(), off))
    } else {
        match value_at(data, off, ty) {
            Err(x) => Err(x),
            Ok((v, m)) => if off < m <= data.len() {
                prepend(seq![v], elems_at(data, m, ty, (n - 1) as nat))
            } else {
                Err(eof_at(data, m, 0))
            },
        }
    }
}

/// `pre` in front of a successful result.
pub open spec fn prepend<T>(pre: Seq<T>, r: Result<(Seq<T>, int), ParserError>) -> Result<(Seq<T>, int), ParserError> {
    match r {
        Ok((vs, e)) => Ok((pre + vs, e)),
        Err(x) => Err(x),
    }
}

/// A successful read moves forward and stays within the data.
pub proof fn lemma_value_progress(data: Seq<u8>, off: int, ty: ValueType)
    ensures
        value_at(data, off, ty) matches Ok((v, m)) ==> off < m <= data.len(),
    decreases data.len() - off, 0nat, 0nat,
{
    if let ValueType::Array = ty {
        if let Ok((code, o1)) = u32_at(data, off) {
            if let Some(et) = value_type_of(code) {
                if let Ok((n, o2)) = u64_at(data, o1) {
                    lemma_elems_progress(data, o2, et, (n as usize) as nat);
                }
            }
        }
    }
}

/// A successful read of several values does not move back and stays within
/// the data.
pub proof fn lemma_elems_progress(data: Seq<u8>, off: int, ty: ValueType, n: nat)
    requires
        0 <= off <= data.len(),
    ensures
        elems_at(data, off, ty, n) matches Ok((vs, e)) ==> off <= e <= data.len() && vs.len() == n,
    decreases data.len() - off, 1nat, n,
{
    if n > 0 {
        lemma_value_progress(data, off, ty);
        if let Ok((v, m)) = value_at(data, off, ty) {
            if off < m <= data.len() {
                lemma_elems_progress(data, m, ty, (n - 1) as nat);
            }
        }
    }
}

/// Metadata keys are pairwise distinct.
pub open spec fn distinct_keys(m: Seq<(Seq<char>, ValueModel)>) -> bool {
    forall|i: int, j: int| 0 <= i < j < m.len() ==> m[i].0 != m[j].0
}

/// `m` with `k` set to `v`: an existing entry for `k` is replaced in place,
/// otherwise the pair is appended.
pub open spec fn kv_insert(m: Seq<(Seq<char>, ValueModel)>, k: Seq<char>, v: ValueModel) -> Seq<(Seq<char>, ValueModel)> {
    if exists|i: int| 0 <= i < m.len() && m[i].0 == k {
        m.update(choose|i: int| 0 <= i < m.len() && m[i].0 == k, (k, v))
    } else {
        m.push((k, v))
    }
}

/// `n` key-value pairs from `off` (a string key, a value type code and a
/// value), set one after another into `m`.
pub open spec fn kvs_at(data: Seq<u8>, off: int, n: nat, m: Seq<(Seq<char>, ValueModel)>) -> Result<(Seq<(Seq<char>, ValueModel)>, int), ParserError>
    decreases n,
{
    if n == 0 {
        Ok((m, off))
    } else {
        match string_at(data, off) {
            Err(x) => Err(x),
            Ok((k, o1)) => match u32_at(data, o1) {
                Err(x) => Err(x),
                Ok((code, o2)) => match value_type_of(code) {
                    None => Err(ParserError::UnknownValueType(code)),
                    Some(t) => match value_at(data, o2, t) {
                        Err(x) => Err(x),
                        Ok((v, o3)) => kvs_at(data, o3, (n - 1) as nat, kv_insert(m, k, v)),
                    },
                },
            },
        }
    }
}

/// `n` little-endian `u64`s from `off`, appended to `acc`.
pub open spec fn dims_at(data: Seq<u8>, off: int, n: nat, acc: Seq<u64>) -> Result<(Seq<u64>, int), ParserError>
    decreases n,
{
    if n == 0 {
        Ok((acc, off))
    } else {
        match u64_at(data, off) {
            Err(x) => Err(x),
            Ok((d, o1)) => dims_at(data, o1, (n - 1) as nat, acc.push(d)),
        }
    }
}

/// The end of a tensor description after its dimensions: GGML type code
/// and data offset.
pub open spec fn tensor_tail(data: Seq<u8>, name: Seq<char>, dims: Seq<u64>, off: int) -> Result<(TensorModel, int), ParserError> {
    match u32_at(data, off) {
        Err(x) => Err(x),
        Ok((code, o1)) => match ggml_type_of(code) {
            None => Err(ParserError::UnknownGgmlType(code)),
            Some(tt) => match u64_at(data, o1) {
                Err(x) => Err(x),
                Ok((offset, o2)) => Ok(
                    (TensorModel { name, dimensions: dims, tensor_type: tt, offset }, o2),
                ),
            },
        },
    }
}

/// One tensor description at `off`: name, dimension count (`u32`),
/// dimensions, GGML type code and data offset.
pub open spec fn tensor_at(data: Seq<u8>, off: int) -> Result<(TensorModel, int), ParserError> {
    match string_at(data, off) {
        Err(x) => Err(x),
        Ok((name, o1)) => match u32_at(data, o1) {
            Err(x) => Err(x),
            Ok((nd, o2)) => match dims_at(data, o2, (nd as usize) as nat, Seq::empty()) {
                Err(x) => Err(x),
                Ok((dims, o3)) => tensor_tail(data, name, dims, o3),
            },
        },
    }
}

/// `n` tensor descriptions from `off`, appended to `acc`.
pub open spec fn tensors_at(data: Seq<u8>, off: int, n: nat, acc: Seq<TensorModel>) -> Result<(Seq<TensorModel>, int), ParserError>
    decreases n,
{
    if n == 0 {
        Ok((acc, off))
    } else {
        match tensor_at(data, off) {
            Err(x) => Err(x),
            Ok((t, o1)) => tensors_at(data, o1, (n - 1) as nat, acc.push(t)),
        }
    }
}

/// The tensor and metadata counts at `off`: two `u32`s in version 1, two
/// `u64`s after.
pub open spec fn counts_at(data: Seq<u8>, off: int, version: u32) -> Result<(u64, u64, int), ParserError> {
    if version == 1 {
        match u32_at(data, off) {
            Err(x) => Err(x),
            Ok((t, o1)) => match u32_at(data, o1) {
                Err(x) => Err(x),
                Ok((m, o2)) => Ok((t as u64, m as u64, o2)),
            },
        }
    } else {
        match u64_at(data, off) {
            Err(x) => Err(x),
            Ok((t, o1)) => match u64_at(data, o1) {
                Err(x) => Err(x),
                Ok((m, o2)) => Ok((t, m, o2)),
            },
        }
    }
}

/// The magic number of a GGUF file, `GGUF` read as a little-endian `u32`.
pub const GGUF_MAGIC: u32 = 0x46554747;

/// A GGUF header: magic, version (1 to 3), counts, then the metadata pairs
/// and the tensor descriptions.
pub open spec fn gguf_spec(data: Seq<u8>) -> Result<GgufModel, ParserError> {
    match u32_at(data, 0) {
        Err(x) => Err(x),
        Ok((magic, o1)) => if magic != GGUF_MAGIC {
            Err(ParserError::InvalidMagic(magic))
        } else {
            match u32_at(data, o1) {
                Err(x) => Err(x),
                Ok((version, o2)) => if version != 1 && version != 2 && version != 3 {
                    Err(ParserError::UnsupportedVersion(version))
                } else {
                    match counts_at(data, o2, version) {
                        Err(x) => Err(x),
                        Ok((tc, mc, o3)) => match kvs_at(data, o3, mc as nat, Seq::empty()) {
                            Err(x) => Err(x),
                            Ok((meta, o4)) => match tensors_at(data, o4, tc as nat, Seq::empty()) {
                                Err(x) => Err(x),
                                Ok((ts, o5)) => Ok(
                                    GgufModel { version, metadata: meta, tensors: ts },
                                ),
                            },
                        },
                    }
                },
            }
        },
    }
}

/// std's `String::from_utf8`: the string of the bytes when they are valid
/// UTF-8 (by vstd's definition of valid UTF-8 and its decoding), nothing
/// otherwise.
#[verifier::external_body]
fn utf8_string(bytes: &[u8]) -> (r: Option<String>)
    ensures
        match r {
            Some(s) => valid_utf8(bytes@) && s@ == decode_utf8(bytes@),
            None => !valid_utf8(bytes@),
        },
{
    match String::from_utf8(bytes.to_vec()) {
        Ok(s) => Some(s),
        Err(_) => None,
    }
}

/// A read position in the file's bytes.
struct Reader<'a> {
    data: &'a [u8],
    offset: usize,
}

impl<'a> Reader<'a> {
    spec fn wf(&self) -> bool {
        self.offset <= self.data@.len()
    }

    fn new(data: &'a [u8]) -> (r: Self)
        ensures
            r.data@ == data@,
            r.offset == 0,
            r.wf(),
    {
        Reader { data, offset: 0 }
    }

    fn eof(&self, n: usize) -> (r: ParserError)
        ensures
            r == eof_at(self.data@, self.offset as int, n as int),
    {
        ParserError::UnexpectedEof { bytes: n, offset: self.offset, len: self.data.len() }
    }

    /// The next `len` bytes.
    fn read_bytes(&mut self, len: usize) -> (r: Result<&'a [u8], ParserError>)
        requires
            old(self).wf(),
        ensures
            final(self).wf(),
            final(self).data == old(self).data,
            fits(old(self).data@, old(self).offset as int, len as int) ==> (r matches Ok(b) && b@
                == old(self).data@.subrange(old(self).offset as int, old(self).offset + len)
                && final(self).offset == old(self).offset + len),
            !fits(old(self).data@, old(self).offset as int, len as int) ==> r == Err::<
                &'a [u8],
                ParserError,
            >(eof_at(old(self).data@, old(self).offset as int, len as int)),
    {
        if len > self.data.len() - self.offset {
            return Err(self.eof(len));
        }
        let slice = &self.data[self.offset..self.offset + len];
        self.offset = self.offset + len;
        Ok(slice)
    }

    fn read_u8(&mut self) -> (r: Result<u8, ParserError>)
        requires
            old(self).wf(),
        ensures
            final(self).wf(),
            final(self).data == old(self).data,
            match scalar_at(old(self).data@, old(self).offset as int, ValueType::Uint8) {
                Ok((ValueModel::Uint8(v), e)) => r == Ok::<u8, ParserError>(v)
                    && final(self).offset == e,
                Ok(_) => false,
                Err(x) => r == Err::<u8, ParserError>(x),
            },
    {
        if self.data.len() - self.offset < 1 {
            return Err(self.eof(1));
        }
        let v = self.data[self.offset];
        self.offset = self.offset + 1;
        Ok(v)
    }

    fn read_u16(&mut self) -> (r: Result<u16, ParserError>)
        requires
            old(self).wf(),
        ensures
            final(self).wf(),
            final(self).data == old(self).data,
            match scalar_at(old(self).data@, old(self).offset as int, ValueType::Uint16) {
                Ok((ValueModel::Uint16(v), e)) => r == Ok::<u16, ParserError>(v)
                    && final(self).offset == e,
                Ok(_) => false,
                Err(x) => r == Err::<u16, ParserError>(x),
            },
    {
        if self.data.len() - self.offset < 2 {
            return Err(self.eof(2));
        }
        let mut cursor: &[u8] = &self.data[self.offset..self.data.len()];
        let v = read_u16(&mut cursor);
        self.offset = self.offset + 2;
        Ok(v)
    }

    fn read_u32(&mut self) -> (r: Result<u32, ParserError>)
        requires
            old(self).wf(),
        ensures
            final(self).wf(),
            final(self).data == old(self).data,
            match u32_at(old(self).data@, old(self).offset as int) {
                Ok((v, e)) => r == Ok::<u32, ParserError>(v) && final(self).offset == e,
                Err(x) => r == Err::<u32, ParserError>(x),
            },
    {
        if self.data.len() - self.offset < 4 {
            return Err(self.eof(4));
        }
        let mut cursor: &[u8] = &self.data[self.offset..self.data.len()];
        let v = read_u32(&mut cursor);
        self.offset = self.offset + 4;
        Ok(v)
    }

    fn read_u64(&mut self) -> (r: Result<u64, ParserError>)
        requires
            old(self).wf(),
        ensures
            final(self).wf(),
            final(self).data == old(self).data,
            match u64_at(old(self).data@, old(self).offset as int) {
                Ok((v, e)) => r == Ok::<u64, ParserError>(v) && final(self).offset == e,
                Err(x) => r == Err::<u64, ParserError>(x),
            },
    {
        if self.data.len() - self.offset < 8 {
            return Err(self.eof(8));
        }
        let mut cursor: &[u8] = &self.data[self.offset..self.data.len()];
        let v = read_u64(&mut cursor);
        self.offset = self.offset + 8;
        Ok(v)
    }

    /// A length-prefixed UTF-8 string.
    fn read_string(&mut self) -> (r: Result<String, ParserError>)
        requires
            old(self).wf(),
        ensures
            final(self).wf(),
            final(self).data == old(self).data,
            match string_at(old(self).data@, old(self).offset as int) {
                Ok((s, e)) => r matches Ok(x) && x@ == s && final(self).offset == e,
                Err(x) => r == Err::<String, ParserError>(x),
            },
    {
        let len = match self.read_u64() {
            Ok(n) => n as usize,
            Err(x) => return Err(x),
        };
        let bytes = match self.read_bytes(len) {
            Ok(b) => b,
            Err(x) => return Err(x),
        };
        match utf8_string(bytes) {
            Some(s) => Ok(s),
            None => Err(ParserError::InvalidUtf8),
        }
    }
}

impl<'a> Reader<'a> {
    /// A fixed-width scalar value (any type but string and array).
    fn read_scalar(&mut self, ty: ValueType) -> (r: Result<Value, ParserError>)
        requires
            old(self).wf(),
            ty != ValueType::String,
            ty != ValueType::Array,
        ensures
            final(self).wf(),
            final(self).data == old(self).data,
            match scalar_at(old(self).data@, old(self).offset as int, ty) {
                Ok((v, e)) => r matches Ok(x) && model(x) == v && final(self).offset == e,
                Err(x) => r matches Err(y) && y == x,
            },
    {
        match ty {
            ValueType::Uint8 => match self.read_u8() {
                Ok(v) => Ok(Value::Uint8(v)),
                Err(x) => Err(x),
            },
            ValueType::Int8 => match self.read_u8() {
                Ok(v) => Ok(Value::Int8(v as i8)),
                Err(x) => Err(x),
            },
            ValueType::Bool => match self.read_u8() {
                Ok(v) => Ok(Value::Bool(v != 0)),
                Err(x) => Err(x),
            },
            ValueType::Uint16 => match self.read_u16() {
                Ok(v) => Ok(Value::Uint16(v)),
                Err(x) => Err(x),
            },
            ValueType::Int16 => match self.read_u16() {
                Ok(v) => Ok(Value::Int16(v as i16)),
                Err(x) => Err(x),
            },
            ValueType::Uint32 => match self.read_u32() {
                Ok(v) => Ok(Value::Uint32(v)),
                Err(x) => Err(x),
            },
            ValueType::Int32 => match self.read_u32() {
                Ok(v) => Ok(Value::Int32(v as i32)),
                Err(x) => Err(x),
            },
            ValueType::Float32 => match self.read_u32() {
                Ok(v) => Ok(Value::Float32(v)),
                Err(x) => Err(x),
            },
            ValueType::Uint64 => match self.read_u64() {
                Ok(v) => Ok(Value::Uint64(v)),
                Err(x) => Err(x),
            },
            ValueType::Int64 => match self.read_u64() {
                Ok(v) => Ok(Value::Int64(v as i64)),
                Err(x) => Err(x),
            },
            _ => match self.read_u64() {
                Ok(v) => Ok(Value::Float64(v)),
                Err(x) => Err(x),
            },
        }
    }

    /// A value of the given type; arrays are read element by element.
    fn read_value(&mut self, val_type: ValueType) -> (r: Result<Value, ParserError>)
        requires
            old(self).wf(),
        ensures
            final(self).wf(),
            final(self).data == old(self).data,
            match value_at(old(self).data@, old(self).offset as int, val_type) {
                Ok((v, e)) => r matches Ok(x) && model(x) == v && final(self).offset == e,
                Err(x) => r matches Err(y) && y == x,
            },
        decreases old(self).data@.len() - old(self).offset,
    {
        match val_type {
            ValueType::String => match self.read_string() {
                Ok(s) => Ok(Value::String(s)),
                Err(x) => Err(x),
            },
            ValueType::Array => {
                let ghost data = self.data@;
                let ghost off0 = self.offset as int;
                let code = match self.read_u32() {
                    Ok(c) => c,
                    Err(x) => return Err(x),
                };
                let elem_type = match ValueType::try_from_u32(code) {
                    Ok(t) => t,
                    Err(x) => return Err(x),
                };
                let len = match self.read_u64() {
                    Ok(n) => n as usize,
                    Err(x) => return Err(x),
                };
                let ghost o2 = self.offset as int;
                let mut elements: Vec<Value> = Vec::new();
                let mut i: usize = 0;
                while i < len
                    invariant
                        self.wf(),
                        self.data == old(self).data,
                        data == old(self).data@,
                        off0 == old(self).offset,
                        self.data@ == data,
                        off0 + 12 == o2 <= self.offset,
                        val_type == ValueType::Array,
                        value_at(data, off0, ValueType::Array) == match elems_at(data, o2, elem_type, len as nat) {
                            Ok((es, e)) => Ok((ValueModel::Array(elem_type, es), e)),
                            Err(x) => Err::<(ValueModel, int), ParserError>(x),
                        },
                        i <= len,
                        elems_at(data, o2, elem_type, len as nat) == prepend(
                            models(elements@),
                            elems_at(data, self.offset as int, elem_type, (len - i) as nat),
                        ),
                    decreases len - i,
                {
                    proof {
                        lemma_value_progress(data, self.offset as int, elem_type);
                    }
                    let ghost here = self.offset as int;
                    match self.read_value(elem_type) {
                        Ok(v) => {
                            proof {
                                assert(models(elements@.push(v)) == models(elements@).push(model(v))) by {
                                    assert(elements@.push(v).drop_last() =~= elements@);
                                }
                                assert(models(elements@) + seq![model(v)] =~= models(elements@).push(model(v)));
                            }
                            elements.push(v);
                        },
                        Err(x) => {
                            assert(elems_at(data, here, elem_type, (len - i) as nat) == Err::<(Seq<ValueModel>, int), ParserError>(x));
                            return Err(x);
                        },
                    }
                    proof {
                        let tail = elems_at(data, self.offset as int, elem_type, (len - i - 1) as nat);
                        assert forall|pre: Seq<ValueModel>, q: Seq<ValueModel>| #![auto] prepend(pre, prepend(q, tail)) == prepend(pre + q, tail) by {
                            if let Ok((vs, e)) = tail {
                                assert(pre + (q + vs) =~= (pre + q) + vs);
                            }
                        }
                    }
                    i = i + 1;
                }
                proof {
                    assert(elems_at(data, self.offset as int, elem_type, 0) == Ok::<(Seq<ValueModel>, int), ParserError>((Seq::<ValueModel>::empty(), self.offset as int)));
                    assert(models(elements@) + Seq::<ValueModel>::empty() =~= models(elements@));
                }
                Ok(Value::Array(elem_type, elements))
            },
            _ => self.read_scalar(val_type),
        }
    }
}

/// The metadata pairs' contents.
pub open spec fn metadata_model(m: Seq<(String, Value)>) -> Seq<(Seq<char>, ValueModel)> {
    m.map_values(|p: (String, Value)| kv_model(p))
}

/// Set `key` to `val`: replace the value of an existing entry for the key in
/// place, or append the pair.
fn insert_kv(meta: &mut Vec<(String, Value)>, key: String, val: Value)
    requires
        distinct_keys(metadata_model(old(meta)@)),
    ensures
        metadata_model(final(meta)@) == kv_insert(metadata_model(old(meta)@), key@, model(val)),
        distinct_keys(metadata_model(final(meta)@)),
{
    let ghost m = metadata_model(meta@);
    let mut i: usize = 0;
    while i < meta.len()
        invariant
            i <= meta@.len(),
            m == metadata_model(meta@),
            m == metadata_model(old(meta)@),
            distinct_keys(m),
            forall|j: int| 0 <= j < i ==> m[j].0 != key@,
        decreases meta@.len() - i,
    {
        if str_eq(meta[i].0.as_str(), key.as_str()) {
            proof {
                assert(m[i as int].0 == key@);
                assert(exists|c: int| 0 <= c < m.len() && m[c].0 == key@);
                let c = choose|c: int| 0 <= c < m.len() && m[c].0 == key@;
                if c != i as int {
                    if c < i as int {
                        assert(m[c].0 != m[i as int].0);
                    } else {
                        assert(m[i as int].0 != m[c].0);
                    }
                }
                assert(c == i as int);
                assert(kv_insert(m, key@, model(val)) == m.update(i as int, (key@, model(val))));
            }
            let ghost k = key@;
            let ghost mv = model(val);
            meta.set(i, (key, val));
            proof {
                assert(metadata_model(meta@) =~= m.update(i as int, (k, mv)));
            }
            return;
        }
        i = i + 1;
    }
    meta.push((key, val));
    proof {
        assert(metadata_model(meta@) =~= m.push((key@, model(val))));
    }
}

impl<'a> Reader<'a> {
    /// One tensor description.
    fn read_tensor(&mut self) -> (r: Result<TensorInfo, ParserError>)
        requires
            old(self).wf(),
        ensures
            final(self).wf(),
            final(self).data == old(self).data,
            match tensor_at(old(self).data@, old(self).offset as int) {
                Ok((t, e)) => r matches Ok(x) && tensor_model(x) == t && final(self).offset == e,
                Err(x) => r matches Err(y) && y == x,
            },
    {
        let ghost data = self.data@;
        let ghost off0 = self.offset as int;
        let name = match self.read_string() {
            Ok(s) => s,
            Err(x) => return Err(x),
        };
        let dimensions_count = match self.read_u32() {
            Ok(n) => n as usize,
            Err(x) => return Err(x),
        };
        let ghost o2 = self.offset as int;
        let mut dimensions: Vec<u64> = Vec::new();
        let mut k: usize = 0;
        while k < dimensions_count
            invariant
                self.wf(),
                self.data == old(self).data,
                self.data@ == data,
                data == old(self).data@,
                off0 == old(self).offset,
                k <= dimensions_count,
                tensor_at(data, off0) == match dims_at(data, o2, dimensions_count as nat, Seq::empty()) {
                    Err(x) => Err::<(TensorModel, int), ParserError>(x),
                    Ok((dims, o3)) => tensor_tail(data, name@, dims, o3),
                },
                dims_at(data, o2, dimensions_count as nat, Seq::empty()) == dims_at(
                    data,
                    self.offset as int,
                    (dimensions_count - k) as nat,
                    dimensions@,
                ),
            decreases dimensions_count - k,
        {
            let ghost here = self.offset as int;
            let ghost acc = dimensions@;
            match self.read_u64() {
                Ok(d) => dimensions.push(d),
                Err(x) => {
                    assert(dims_at(data, here, (dimensions_count - k) as nat, acc) == Err::<
                        (Seq<u64>, int),
                        ParserError,
                    >(x));
                    return Err(x);
                },
            }
            k = k + 1;
        }
        let code = match self.read_u32() {
            Ok(c) => c,
            Err(x) => return Err(x),
        };
        let tensor_type = match GgmlType::try_from_u32(code) {
            Ok(t) => t,
            Err(x) => return Err(x),
        };
        let offset = match self.read_u64() {
            Ok(o) => o,
            Err(x) => return Err(x),
        };
        Ok(TensorInfo { name, dimensions, tensor_type, offset })
    }
}

/// The result of the header after its counts: metadata, then tensors.
pub open spec fn body_at(data: Seq<u8>, version: u32, tc: u64, mc: u64, off: int) -> Result<GgufModel, ParserError> {
    match kvs_at(data, off, mc as nat, Seq::empty()) {
        Err(x) => Err(x),
        Ok((meta, o1)) => tensors_body(data, version, meta, tc, o1),
    }
}

/// The result of the header after its metadata: the tensors.
pub open spec fn tensors_body(data: Seq<u8>, version: u32, meta: Seq<(Seq<char>, ValueModel)>, tc: u64, off: int) -> Result<GgufModel, ParserError> {
    match tensors_at(data, off, tc as nat, Seq::empty()) {
        Err(x) => Err(x),
        Ok((ts, o2)) => Ok(GgufModel { version, metadata: meta, tensors: ts }),
    }
}

proof fn lemma_gguf_body(data: Seq<u8>)
    ensures
        gguf_spec(data) == match u32_at(data, 0) {
            Err(x) => Err(x),
            Ok((magic, o1)) => if magic != GGUF_MAGIC {
                Err(ParserError::InvalidMagic(magic))
            } else {
                match u32_at(data, o1) {
                    Err(x) => Err(x),
                    Ok((version, o2)) => if version != 1 && version != 2 && version != 3 {
                        Err(ParserError::UnsupportedVersion(version))
                    } else {
                        match counts_at(data, o2, version) {
                            Err(x) => Err(x),
                            Ok((tc, mc, o3)) => body_at(data, version, tc, mc, o3),
                        }
                    },
                }
            },
        },
{
}

/// Parse the header of a GGUF file: magic, version (1, 2 or 3), counts,
/// metadata and tensor descriptions. The result is exactly what the GGUF
/// grammar gives for the bytes, including which error comes first.
pub fn parse_gguf(data: &[u8]) -> (r: Result<GgufFile, ParserError>)
    ensures
        match gguf_spec(data@) {
            Ok(m) => r matches Ok(f) && f.view() == m,
            Err(x) => r matches Err(y) && y == x,
        },
{
    proof {
        lemma_gguf_body(data@);
    }
    let mut reader = Reader::new(data);
    let magic = match reader.read_u32() {
        Ok(m) => m,
        Err(x) => return Err(x),
    };
    if magic != GGUF_MAGIC {
        return Err(ParserError::InvalidMagic(magic));
    }
    let version = match reader.read_u32() {
        Ok(v) => v,
        Err(x) => return Err(x),
    };
    if version != 1 && version != 2 && version != 3 {
        return Err(ParserError::UnsupportedVersion(version));
    }
    let (tensor_count, metadata_kv_count) = if version == 1 {
        let t = match reader.read_u32() {
            Ok(t) => t,
            Err(x) => return Err(x),
        };
        let m = match reader.read_u32() {
            Ok(m) => m,
            Err(x) => return Err(x),
        };
        (t as u64, m as u64)
    } else {
        let t = match reader.read_u64() {
            Ok(t) => t,
            Err(x) => return Err(x),
        };
        let m = match reader.read_u64() {
            Ok(m) => m,
            Err(x) => return Err(x),
        };
        (t, m)
    };
    let ghost d = data@;
    let ghost o3 = reader.offset as int;
    assert(gguf_spec(d) == body_at(d, version, tensor_count, metadata_kv_count, o3));
    let mut metadata: Vec<(String, Value)> = Vec::new();
    assert(metadata_model(metadata@) =~= Seq::empty());
    let mut n: u64 = 0;
    while n < metadata_kv_count
        invariant
            reader.wf(),
            reader.data@ == d,
            d == data@,
            gguf_spec(d) == body_at(d, version, tensor_count, metadata_kv_count, o3),
            n <= metadata_kv_count,
            distinct_keys(metadata_model(metadata@)),
            kvs_at(d, o3, metadata_kv_count as nat, Seq::empty()) == kvs_at(
                d,
                reader.offset as int,
                (metadata_kv_count - n) as nat,
                metadata_model(metadata@),
            ),
        decreases metadata_kv_count - n,
    {
        let ghost here = reader.offset as int;
        let ghost acc = metadata_model(metadata@);
        let ghost rem = (metadata_kv_count - n) as nat;
        let key = match reader.read_string() {
            Ok(k) => k,
            Err(x) => {
                assert(kvs_at(d, here, rem, acc) == Err::<(Seq<(Seq<char>, ValueModel)>, int), ParserError>(x));
                return Err(x);
            },
        };
        let code = match reader.read_u32() {
            Ok(c) => c,
            Err(x) => {
                assert(kvs_at(d, here, rem, acc) == Err::<(Seq<(Seq<char>, ValueModel)>, int), ParserError>(x));
                return Err(x);
            },
        };
        let val_type = match ValueType::try_from_u32(code) {
            Ok(t) => t,
            Err(x) => {
                assert(kvs_at(d, here, rem, acc) == Err::<(Seq<(Seq<char>, ValueModel)>, int), ParserError>(x));
                return Err(x);
            },
        };
        let val = match reader.read_value(val_type) {
            Ok(v) => v,
            Err(x) => {
                assert(kvs_at(d, here, rem, acc) == Err::<(Seq<(Seq<char>, ValueModel)>, int), ParserError>(x));
                return Err(x);
            },
        };
        insert_kv(&mut metadata, key, val);
        n = n + 1;
    }
    let ghost o4 = reader.offset as int;
    let ghost meta = metadata_model(metadata@);
    assert(gguf_spec(d) == tensors_body(d, version, meta, tensor_count, o4));
    let mut tensors: Vec<TensorInfo> = Vec::new();
    assert(tensors@.map_values(|x: TensorInfo| tensor_model(x)) =~= Seq::empty());
    let mut t: u64 = 0;
    while t < tensor_count
        invariant
            reader.wf(),
            reader.data@ == d,
            d == data@,
            gguf_spec(d) == tensors_body(d, version, meta, tensor_count, o4),
            t <= tensor_count,
            tensors_at(d, o4, tensor_count as nat, Seq::empty()) == tensors_at(
                d,
                reader.offset as int,
                (tensor_count - t) as nat,
                tensors@.map_values(|x: TensorInfo| tensor_model(x)),
            ),
        decreases tensor_count - t,
    {
        let ghost here = reader.offset as int;
        let ghost acc = tensors@.map_values(|x: TensorInfo| tensor_model(x));
        let ghost rem = (tensor_count - t) as nat;
        let info = match reader.read_tensor() {
            Ok(i) => i,
            Err(x) => {
                assert(tensors_at(d, here, rem, acc) == Err::<(Seq<TensorModel>, int), ParserError>(x));
                return Err(x);
            },
        };
        tensors.push(info);
        proof {
            assert(tensors@.map_values(|x: TensorInfo| tensor_model(x)) =~= acc.push(tensor_model(info)));
        }
        t = t + 1;
    }
    let file = GgufFile { version, metadata, tensors };
    assert(file.view().metadata == meta);
    assert(file.view().tensors == tensors@.map_values(|x: TensorInfo| tensor_model(x)));
    Ok(file)
}

impl GgufFile {
    /// The value stored for `key`, if any.
    pub fn get(&self, key: &str) -> (r: Option<&Value>)
        ensures
            match r {
                Some(v) => exists|i: int|
                    0 <= i < self.metadata@.len() && self.metadata@[i].0@ == key@
                        && self.metadata@[i].1 == *v,
                None => forall|i: int|
                    0 <= i < self.metadata@.len() ==> self.metadata@[i].0@ != key@,
            },
    {
        let mut i: usize = 0;
        while i < self.metadata.len()
            invariant
                i <= self.metadata@.len(),
                forall|j: int| 0 <= j < i ==> self.metadata@[j].0@ != key@,
            decreases self.metadata@.len() - i,
        {
            if str_eq(self.metadata[i].0.as_str(), key) {
                return Some(&self.metadata[i].1);
            }
            i = i + 1;
        }
        None
    }
}

} // verus!
