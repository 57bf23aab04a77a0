//! Turning ONNX descriptions into graph objects: element types, tensor
//! data, tensors, attributes, nodes and whole graphs.

use vstd::prelude::*;
use crate::graph::objects::{
    AttrView, Attributes, DataType, DataView, Node, NodeAttrValue, Tensor, TensorData, TensorView, opt_text,
};
use crate::graph::op_kind::{OpKind, known_op};
use crate::graph::proto::{
    AttributeProto, AttributeType, Dimension, DimensionValue, NodeProto, ProtoDataType, TensorProto,
    TensorShapeProto, TypeValue, ValueInfoProto, attribute_type_name, attribute_type_of,
    proto_data_type_name, proto_data_type_of,
};
use crate::utils::error::{ErrorView, OnnxOptError};
use crate::utils::text::{decimal, decimal_text, prefixed, string_from_utf8, utf8_error_text};

verus! {

/// The tensor element type of each supported wire element type.
pub open spec fn data_type_of(t: ProtoDataType) -> Option<DataType> {
    match t {
        ProtoDataType::Float => Some(DataType::Float32),
        ProtoDataType::Double => Some(DataType::Float64),
        ProtoDataType::Int32 => Some(DataType::Int32),
        ProtoDataType::Int64 => Some(DataType::Int64),
        ProtoDataType::Uint32 => Some(DataType::Uint32),
        ProtoDataType::Uint64 => Some(DataType::Uint64),
        ProtoDataType::Int8 => Some(DataType::Int8),
        ProtoDataType::Uint8 => Some(DataType::Uint8),
        ProtoDataType::Bool => Some(DataType::Bool),
        ProtoDataType::String => Some(DataType::String),
        _ => None,
    }
}

/// The error for an element type without a tensor element type.
pub open spec fn unsupported_type_error(t: ProtoDataType) -> ErrorView {
    ErrorView::UnsupportedOp("Unsupported data type: "@ + proto_data_type_name(t))
}

impl DataType {
    /// The tensor element type of a wire element type; the types without
    /// one are unsupported.
    pub fn from_proto_data_type(proto_type: ProtoDataType) -> (r: Result<DataType, OnnxOptError>)
        ensures
            match data_type_of(proto_type) {
                Some(d) => r == Ok::<DataType, OnnxOptError>(d),
                None => r matches Err(e) && e@ == unsupported_type_error(proto_type),
            },
    {
        match proto_type {
            ProtoDataType::Float => Ok(DataType::Float32),
            ProtoDataType::Double => Ok(DataType::Float64),
            ProtoDataType::Int32 => Ok(DataType::Int32),
            ProtoDataType::Int64 => Ok(DataType::Int64),
            ProtoDataType::Uint32 => Ok(DataType::Uint32),
            ProtoDataType::Uint64 => Ok(DataType::Uint64),
            ProtoDataType::Int8 => Ok(DataType::Int8),
            ProtoDataType::Uint8 => Ok(DataType::Uint8),
            ProtoDataType::Bool => Ok(DataType::Bool),
            ProtoDataType::String => Ok(DataType::String),
            _ => Err(OnnxOptError::UnsupportedOp(prefixed("Unsupported data type: ", proto_type.debug_name()))),
        }
    }
}

// ---------------------------------------------------------------------
// Little-endian decoding of raw tensor bytes.

/// The `k`-th 4-byte little-endian word of `b`.
pub open spec fn le_u32_at(b: Seq<u8>, k: int) -> u32 {
    (b[4 * k] as int + 256 * b[4 * k + 1] + 65536 * b[4 * k + 2] + 16777216 * b[4 * k + 3]) as u32
}

/// The `k`-th 8-byte little-endian word of `b`.
pub open spec fn le_u64_at(b: Seq<u8>, k: int) -> u64 {
    (b[8 * k] as int + 0x100 * b[8 * k + 1] + 0x1_0000 * b[8 * k + 2] + 0x100_0000 * b[8 * k + 3]
        + 0x1_0000_0000 * b[8 * k + 4] + 0x100_0000_0000 * b[8 * k + 5]
        + 0x1_0000_0000_0000 * b[8 * k + 6] + 0x100_0000_0000_0000 * b[8 * k + 7]) as u64
}

/// Raw bytes are read least significant byte first: byte `j` of word `k`
/// is byte `4 * k + j` of the raw data.
pub proof fn lemma_words32_little_endian(b: Seq<u8>, k: int)
    requires
        0 <= k < b.len() / 4,
    ensures
        le_words32(b).len() == b.len() / 4,
        le_words32(b)[k] % 256 == b[4 * k],
        (le_words32(b)[k] / 256) % 256 == b[4 * k + 1],
        (le_words32(b)[k] / 65536) % 256 == b[4 * k + 2],
        le_words32(b)[k] / 16777216 == b[4 * k + 3],
{
    let (b0, b1, b2, b3) = (b[4 * k], b[4 * k + 1], b[4 * k + 2], b[4 * k + 3]);
    let w: int = b0 as int + 256 * b1 + 65536 * b2 + 16777216 * b3;
    assert(0 <= w <= u32::MAX) by (nonlinear_arith)
        requires
            w == b0 as int + 256 * b1 + 65536 * b2 + 16777216 * b3,
            b0 <= 255, b1 <= 255, b2 <= 255, b3 <= 255;
    assert(le_words32(b)[k] == w);
    assert(w % 256 == b0 && (w / 256) % 256 == b1 && (w / 65536) % 256 == b2 && w / 16777216 == b3)
        by (nonlinear_arith)
        requires
            w == b0 as int + 256 * b1 + 65536 * b2 + 16777216 * b3,
            b0 <= 255, b1 <= 255, b2 <= 255, b3 <= 255;
}

/// Raw bytes are read least significant byte first for 8-byte words too:
/// byte `j` of word `k` is byte `8 * k + j` of the raw data.
pub proof fn lemma_words64_little_endian(b: Seq<u8>, k: int)
    requires
        0 <= k < b.len() / 8,
    ensures
        le_words64(b).len() == b.len() / 8,
        (le_words64(b)[k] / 1) % 256 == b[8 * k + 0],
        (le_words64(b)[k] / 256) % 256 == b[8 * k + 1],
        (le_words64(b)[k] / 65536) % 256 == b[8 * k + 2],
        (le_words64(b)[k] / 16777216) % 256 == b[8 * k + 3],
        (le_words64(b)[k] / 4294967296) % 256 == b[8 * k + 4],
        (le_words64(b)[k] / 1099511627776) % 256 == b[8 * k + 5],
        (le_words64(b)[k] / 281474976710656) % 256 == b[8 * k + 6],
        (le_words64(b)[k] / 72057594037927936) % 256 == b[8 * k + 7],
{
    let b0 = b[8 * k + 0];
    let b1 = b[8 * k + 1];
    let b2 = b[8 * k + 2];
    let b3 = b[8 * k + 3];
    let b4 = b[8 * k + 4];
    let b5 = b[8 * k + 5];
    let b6 = b[8 * k + 6];
    let b7 = b[8 * k + 7];
    let w: int = b0 as int + 256 * b1 + 65536 * b2 + 16777216 * b3 + 4294967296 * b4 + 1099511627776 * b5 + 281474976710656 * b6 + 72057594037927936 * b7;
    assert(le_words64(b)[k] == w);
    vstd::arithmetic::div_mod::lemma_fundamental_div_mod_converse(w, 1, b0 as int + 256 * b1 + 65536 * b2 + 16777216 * b3 + 4294967296 * b4 + 1099511627776 * b5 + 281474976710656 * b6 + 72057594037927936 * b7, 0int);
    vstd::arithmetic::div_mod::lemma_fundamental_div_mod_converse(b0 as int + 256 * b1 + 65536 * b2 + 16777216 * b3 + 4294967296 * b4 + 1099511627776 * b5 + 281474976710656 * b6 + 72057594037927936 * b7, 256, b1 as int + 256 * b2 + 65536 * b3 + 16777216 * b4 + 4294967296 * b5 + 1099511627776 * b6 + 281474976710656 * b7, b0 as int);
    vstd::arithmetic::div_mod::lemma_fundamental_div_mod_converse(w, 256, b1 as int + 256 * b2 + 65536 * b3 + 16777216 * b4 + 4294967296 * b5 + 1099511627776 * b6 + 281474976710656 * b7, b0 as int);
    vstd::arithmetic::div_mod::lemma_fundamental_div_mod_converse(b1 as int + 256 * b2 + 65536 * b3 + 16777216 * b4 + 4294967296 * b5 + 1099511627776 * b6 + 281474976710656 * b7, 256, b2 as int + 256 * b3 + 65536 * b4 + 16777216 * b5 + 4294967296 * b6 + 1099511627776 * b7, b1 as int);
    vstd::arithmetic::div_mod::lemma_fundamental_div_mod_converse(w, 65536, b2 as int + 256 * b3 + 65536 * b4 + 16777216 * b5 + 4294967296 * b6 + 1099511627776 * b7, b0 as int + 256 * b1);
    vstd::arithmetic::div_mod::lemma_fundamental_div_mod_converse(b2 as int + 256 * b3 + 65536 * b4 + 16777216 * b5 + 4294967296 * b6 + 1099511627776 * b7, 256, b3 as int + 256 * b4 + 65536 * b5 + 16777216 * b6 + 4294967296 * b7, b2 as int);
    vstd::arithmetic::div_mod::lemma_fundamental_div_mod_converse(w, 16777216, b3 as int + 256 * b4 + 65536 * b5 + 16777216 * b6 + 4294967296 * b7, b0 as int + 256 * b1 + 65536 * b2);
    vstd::arithmetic::div_mod::lemma_fundamental_div_mod_converse(b3 as int + 256 * b4 + 65536 * b5 + 16777216 * b6 + 4294967296 * b7, 256, b4 as int + 256 * b5 + 65536 * b6 + 16777216 * b7, b3 as int);
    vstd::arithmetic::div_mod::lemma_fundamental_div_mod_converse(w, 4294967296, b4 as int + 256 * b5 + 65536 * b6 + 16777216 * b7, b0 as int + 256 * b1 + 65536 * b2 + 16777216 * b3);
    vstd::arithmetic::div_mod::lemma_fundamental_div_mod_converse(b4 as int + 256 * b5 + 65536 * b6 + 16777216 * b7, 256, b5 as int + 256 * b6 + 65536 * b7, b4 as int);
    vstd::arithmetic::div_mod::lemma_fundamental_div_mod_converse(w, 1099511627776, b5 as int + 256 * b6 + 65536 * b7, b0 as int + 256 * b1 + 65536 * b2 + 16777216 * b3 + 4294967296 * b4);
    vstd::arithmetic::div_mod::lemma_fundamental_div_mod_converse(b5 as int + 256 * b6 + 65536 * b7, 256, b6 as int + 256 * b7, b5 as int);
    vstd::arithmetic::div_mod::lemma_fundamental_div_mod_converse(w, 281474976710656, b6 as int + 256 * b7, b0 as int + 256 * b1 + 65536 * b2 + 16777216 * b3 + 4294967296 * b4 + 1099511627776 * b5);
    vstd::arithmetic::div_mod::lemma_fundamental_div_mod_converse(b6 as int + 256 * b7, 256, b7 as int, b6 as int);
    vstd::arithmetic::div_mod::lemma_fundamental_div_mod_converse(w, 72057594037927936, b7 as int, b0 as int + 256 * b1 + 65536 * b2 + 16777216 * b3 + 4294967296 * b4 + 1099511627776 * b5 + 281474976710656 * b6);
    vstd::arithmetic::div_mod::lemma_fundamental_div_mod_converse(b7 as int, 256, 0int, b7 as int);
}

/// The complete 4-byte little-endian words of `b`.
pub open spec fn le_words32(b: Seq<u8>) -> Seq<u32> {
    Seq::new(b.len() / 4, |k: int| le_u32_at(b, k))
}

/// The complete 8-byte little-endian words of `b`.
pub open spec fn le_words64(b: Seq<u8>) -> Seq<u64> {
    Seq::new(b.len() / 8, |k: int| le_u64_at(b, k))
}

/// Decodes 4-byte little-endian words.
fn decode_words32(raw: &Vec<u8>) -> (w: Vec<u32>)
    ensures
        w@ == le_words32(raw@),
{
    let n = raw.len() / 4;
    let mut w: Vec<u32> = Vec::new();
    let mut k: usize = 0;
    while k < n
        invariant
            n == raw@.len() / 4,
            k <= n,
            w@.len() == k,
            forall|j: int| 0 <= j < k ==> w@[j] == le_u32_at(raw@, j),
        decreases n - k,
    {
        assert(4 * k + 4 <= raw.len()) by (nonlinear_arith)
            requires
                k < n,
                n == raw.len() / 4,
        ;
        let i = 4 * k;
        let word: u32 = raw[i] as u32 + (raw[i + 1] as u32) * 256 + (raw[i + 2] as u32) * 65536
            + (raw[i + 3] as u32) * 16777216;
        w.push(word);
        k = k + 1;
    }
    assert(w@ =~= le_words32(raw@));
    w
}

/// Decodes 8-byte little-endian words.
fn decode_words64(raw: &Vec<u8>) -> (w: Vec<u64>)
    ensures
        w@ == le_words64(raw@),
{
    let n = raw.len() / 8;
    let mut w: Vec<u64> = Vec::new();
    let mut k: usize = 0;
    while k < n
        invariant
            n == raw@.len() / 8,
            k <= n,
            w@.len() == k,
            forall|j: int| 0 <= j < k ==> w@[j] == le_u64_at(raw@, j),
        decreases n - k,
    {
        assert(8 * k + 8 <= raw.len()) by (nonlinear_arith)
            requires
                k < n,
                n == raw.len() / 8,
        ;
        let i = 8 * k;
        let word: u64 = raw[i] as u64 + (raw[i + 1] as u64) * 0x100 + (raw[i + 2] as u64) * 0x1_0000
            + (raw[i + 3] as u64) * 0x100_0000 + (raw[i + 4] as u64) * 0x1_0000_0000
            + (raw[i + 5] as u64) * 0x100_0000_0000 + (raw[i + 6] as u64) * 0x1_0000_0000_0000
            + (raw[i + 7] as u64) * 0x100_0000_0000_0000;
        w.push(word);
        k = k + 1;
    }
    assert(w@ =~= le_words64(raw@));
    w
}

// ---------------------------------------------------------------------
// Tensor data.

/// The raw bytes of a tensor description; none when absent.
pub open spec fn raw_bytes(tp: TensorProto) -> Seq<u8> {
    match tp.raw_data {
        Some(r) => r@,
        None => Seq::empty(),
    }
}

/// Whether a tensor description carries any data.
pub open spec fn has_any_data(tp: TensorProto) -> bool {
    ||| tp.float_data@.len() > 0
    ||| tp.double_data@.len() > 0
    ||| tp.int32_data@.len() > 0
    ||| tp.int64_data@.len() > 0
    ||| tp.uint64_data@.len() > 0
    ||| tp.string_data@.len() > 0
    ||| raw_bytes(tp).len() > 0
}

/// The error for raw bytes that are not a whole number of elements.
pub open spec fn raw_length_error(elem_name: Seq<char>, size: usize, len: usize) -> ErrorView {
    ErrorView::Conversion(
        "Invalid raw data length for "@ + elem_name + ": expected multiple of "@ + decimal_text(size)
            + ", got "@ + decimal_text(len),
    )
}

/// Elements of `size` bytes read from `raw`, which decode to `decoded`.
pub open spec fn from_raw(raw: Seq<u8>, elem_name: Seq<char>, size: usize, decoded: DataView) -> Result<Option<DataView>, ErrorView> {
    if raw.len() % (size as nat) != 0 {
        Err(raw_length_error(elem_name, size, raw.len() as usize))
    } else {
        Ok(Some(decoded))
    }
}

/// The typed elements when there are any, else the raw bytes' elements
/// when there are raw bytes, else no data.
pub open spec fn typed_or_raw(typed_len: nat, typed: DataView, raw: Seq<u8>, elem_name: Seq<char>, size: usize, decoded: DataView) -> Result<Option<DataView>, ErrorView> {
    if typed_len > 0 {
        Ok(Some(typed))
    } else if raw.len() > 0 {
        from_raw(raw, elem_name, size, decoded)
    } else {
        Ok(None)
    }
}

/// The decoded texts of byte strings, or the error of the first that is not
/// valid UTF-8.
pub open spec fn decode_all_utf8(ss: Seq<Seq<u8>>) -> Result<Seq<Seq<char>>, Seq<char>>
    decreases ss.len(),
{
    if ss.len() == 0 {
        Ok(Seq::empty())
    } else {
        match decode_all_utf8(ss.drop_last()) {
            Err(m) => Err(m),
            Ok(prefix) => if vstd::utf8::valid_utf8(ss.last()) {
                Ok(prefix.push(vstd::utf8::decode_utf8(ss.last())))
            } else {
                Err(utf8_error_text(ss.last()))
            },
        }
    }
}

/// The byte strings of a list of byte vectors.
pub open spec fn byte_strings(v: Seq<Vec<u8>>) -> Seq<Seq<u8>> {
    v.map_values(|b: Vec<u8>| b@)
}

/// What a tensor description's data converts to, by element type.
pub open spec fn typed_data(tp: TensorProto, t: ProtoDataType) -> Result<Option<DataView>, ErrorView> {
    let raw = raw_bytes(tp);
    match t {
        ProtoDataType::Float => typed_or_raw(tp.float_data@.len(), DataView::Float32(tp.float_data@), raw, "f32"@, 4,
            DataView::Float32(le_words32(raw))),
        ProtoDataType::Double => typed_or_raw(tp.double_data@.len(), DataView::Float64(tp.double_data@), raw, "f64"@, 8,
            DataView::Float64(le_words64(raw))),
        ProtoDataType::Int32 => typed_or_raw(tp.int32_data@.len(), DataView::Int32(tp.int32_data@), raw, "i32"@, 4,
            DataView::Int32(le_words32(raw).map_values(|x: u32| x as i32))),
        ProtoDataType::Int64 => typed_or_raw(tp.int64_data@.len(), DataView::Int64(tp.int64_data@), raw, "i64"@, 8,
            DataView::Int64(le_words64(raw).map_values(|x: u64| x as i64))),
        ProtoDataType::Uint32 => if tp.uint64_data@.len() > 0 {
            if forall|k: int| 0 <= k < tp.uint64_data@.len() ==> #[trigger] tp.uint64_data@[k] <= u32::MAX {
                Ok(Some(DataView::Uint32(tp.uint64_data@.map_values(|x: u64| x as u32))))
            } else {
                Err(ErrorView::Conversion("Uint64 value too large for uint32"@))
            }
        } else {
            from_raw(raw, "u32"@, 4, DataView::Uint32(le_words32(raw)))
        },
        ProtoDataType::Uint64 => typed_or_raw(tp.uint64_data@.len(), DataView::Uint64(tp.uint64_data@), raw, "u64"@, 8,
            DataView::Uint64(le_words64(raw))),
        ProtoDataType::Int8 => if tp.int32_data@.len() > 0 {
            if forall|k: int| 0 <= k < tp.int32_data@.len() ==> -128 <= #[trigger] tp.int32_data@[k] <= 127 {
                Ok(Some(DataView::Int8(tp.int32_data@.map_values(|x: i32| x as i8))))
            } else {
                Err(ErrorView::Conversion("Int32 value out of range for int8"@))
            }
        } else if raw.len() > 0 {
            Ok(Some(DataView::Int8(raw.map_values(|b: u8| b as i8))))
        } else {
            Ok(None)
        },
        ProtoDataType::Uint8 => if tp.int32_data@.len() > 0 {
            if forall|k: int| 0 <= k < tp.int32_data@.len() ==> 0 <= #[trigger] tp.int32_data@[k] <= 255 {
                Ok(Some(DataView::Uint8(tp.int32_data@.map_values(|x: i32| x as u8))))
            } else {
                Err(ErrorView::Conversion("Int32 value out of range for uint8"@))
            }
        } else if raw.len() > 0 {
            Ok(Some(DataView::Uint8(raw)))
        } else {
            Ok(None)
        },
        ProtoDataType::Bool => if tp.int32_data@.len() > 0 {
            Ok(Some(DataView::Bool(tp.int32_data@.map_values(|x: i32| x != 0))))
        } else if raw.len() > 0 {
            Ok(Some(DataView::Bool(raw.map_values(|b: u8| b != 0))))
        } else {
            Ok(None)
        },
        ProtoDataType::String => if tp.string_data@.len() > 0 {
            match decode_all_utf8(byte_strings(tp.string_data@)) {
                Ok(texts) => Ok(Some(DataView::String(texts))),
                Err(m) => Err(ErrorView::Conversion("Invalid UTF-8 in string data: "@ + m)),
            }
        } else {
            Ok(None)
        },
        _ => Err(ErrorView::UnsupportedOp(
            "Unsupported data type for tensor data extraction: "@ + proto_data_type_name(t),
        )),
    }
}

/// What a tensor description's data converts to: an invalid element type
/// is an error; no data at all gives none; otherwise it is read by type.
pub open spec fn tensor_data_outcome(tp: TensorProto) -> Result<Option<DataView>, ErrorView> {
    match proto_data_type_of(match tp.data_type { Some(c) => c, None => 0 }) {
        None => Err(ErrorView::Conversion("Invalid data type"@)),
        Some(t) => if !has_any_data(tp) {
            Ok(None)
        } else {
            typed_data(tp, t)
        },
    }
}

/// Whether data of view `d` holds elements of type `t`.
pub open spec fn view_has_type(d: DataView, t: DataType) -> bool {
    match d {
        DataView::Float32(_) => t == DataType::Float32,
        DataView::Float64(_) => t == DataType::Float64,
        DataView::Int32(_) => t == DataType::Int32,
        DataView::Int64(_) => t == DataType::Int64,
        DataView::Uint32(_) => t == DataType::Uint32,
        DataView::Uint64(_) => t == DataType::Uint64,
        DataView::Int8(_) => t == DataType::Int8,
        DataView::Uint8(_) => t == DataType::Uint8,
        DataView::Bool(_) => t == DataType::Bool,
        DataView::String(_) => t == DataType::String,
    }
}

/// Each supported wire element type becomes the tensor element type of the
/// same kind, signedness and width, and no two wire types become the same
/// one.
pub proof fn lemma_element_types()
    ensures
        data_type_of(ProtoDataType::Float) == Some(DataType::Float32),
        data_type_of(ProtoDataType::Double) == Some(DataType::Float64),
        data_type_of(ProtoDataType::Int32) == Some(DataType::Int32),
        data_type_of(ProtoDataType::Int64) == Some(DataType::Int64),
        data_type_of(ProtoDataType::Uint32) == Some(DataType::Uint32),
        data_type_of(ProtoDataType::Uint64) == Some(DataType::Uint64),
        data_type_of(ProtoDataType::Int8) == Some(DataType::Int8),
        data_type_of(ProtoDataType::Uint8) == Some(DataType::Uint8),
        data_type_of(ProtoDataType::Bool) == Some(DataType::Bool),
        data_type_of(ProtoDataType::String) == Some(DataType::String),
        forall|a: ProtoDataType, b: ProtoDataType|
            #[trigger] data_type_of(a) is Some && data_type_of(a) == #[trigger] data_type_of(b) ==> a == b,
{
}

/// A converted tensor's data holds elements of the tensor's own element
/// type.
pub proof fn lemma_data_matches_element_type(tp: TensorProto)
    ensures
        tensor_outcome(tp) matches Ok(v) ==> (v.data matches Some(d) ==> view_has_type(d, v.dtype)),
{
    match proto_data_type_of(match tp.data_type { Some(c) => c, None => 0 }) {
        Some(t) => {
            if has_any_data(tp) {
                match t {
                    ProtoDataType::String => {
                        match decode_all_utf8(byte_strings(tp.string_data@)) {
                            Ok(_) => {},
                            Err(_) => {},
                        }
                    },
                    _ => {},
                }
            }
        },
        None => {},
    }
}

/// The typed field of a description's element type: for each numeric type
/// the field that carries it.
pub open spec fn own_field_len(tp: TensorProto, t: ProtoDataType) -> nat {
    match t {
        ProtoDataType::Float => tp.float_data@.len(),
        ProtoDataType::Double => tp.double_data@.len(),
        ProtoDataType::Int32 | ProtoDataType::Int8 | ProtoDataType::Uint8 | ProtoDataType::Bool => tp.int32_data@.len(),
        ProtoDataType::Int64 => tp.int64_data@.len(),
        ProtoDataType::Uint32 | ProtoDataType::Uint64 => tp.uint64_data@.len(),
        ProtoDataType::String => tp.string_data@.len(),
        _ => 0,
    }
}

/// A non-empty typed field is the tensor's data, whatever its length; and a
/// description of a supported type that carries data of its type, in its
/// own field or (for a numeric type) as raw bytes, never converts to no
/// data.
pub proof fn lemma_typed_data_is_kept(tp: TensorProto)
    ensures
        tp.data_type == Some(1i32) && tp.float_data@.len() > 0
            ==> tensor_data_outcome(tp) == Ok::<Option<DataView>, ErrorView>(Some(DataView::Float32(tp.float_data@))),
        tp.data_type == Some(11i32) && tp.double_data@.len() > 0
            ==> tensor_data_outcome(tp) == Ok::<Option<DataView>, ErrorView>(Some(DataView::Float64(tp.double_data@))),
        tp.data_type == Some(6i32) && tp.int32_data@.len() > 0
            ==> tensor_data_outcome(tp) == Ok::<Option<DataView>, ErrorView>(Some(DataView::Int32(tp.int32_data@))),
        tp.data_type == Some(7i32) && tp.int64_data@.len() > 0
            ==> tensor_data_outcome(tp) == Ok::<Option<DataView>, ErrorView>(Some(DataView::Int64(tp.int64_data@))),
        tp.data_type == Some(13i32) && tp.uint64_data@.len() > 0
            ==> tensor_data_outcome(tp) == Ok::<Option<DataView>, ErrorView>(Some(DataView::Uint64(tp.uint64_data@))),
        tp.data_type == Some(9i32) && tp.int32_data@.len() > 0
            ==> tensor_data_outcome(tp) == Ok::<Option<DataView>, ErrorView>(
                Some(DataView::Bool(tp.int32_data@.map_values(|x: i32| x != 0))),
            ),
        forall|t: ProtoDataType|
            proto_data_type_of(match tp.data_type { Some(c) => c, None => 0 }) == Some(t)
                && #[trigger] data_type_of(t) is Some
                && (own_field_len(tp, t) > 0 || (t != ProtoDataType::String && raw_bytes(tp).len() > 0))
                ==> tensor_data_outcome(tp) != Ok::<Option<DataView>, ErrorView>(None),
{
}

/// A conversion result, seen through the views of its data and error.
pub open spec fn data_outcome_view(r: Result<Option<TensorData>, OnnxOptError>) -> Result<Option<DataView>, ErrorView> {
    match r {
        Ok(Some(d)) => Ok(Some(d@)),
        Ok(None) => Ok(None),
        Err(e) => Err(e@),
    }
}

/// The error for raw bytes that are not a whole number of elements.
fn raw_length_failure(elem_name: &str, size: usize, len: usize) -> (e: OnnxOptError)
    ensures
        e@ == raw_length_error(elem_name@, size, len),
{
    let mut s = prefixed("Invalid raw data length for ", elem_name);
    s.append(": expected multiple of ");
    let d = decimal(size);
    s.append(d.as_str());
    s.append(", got ");
    let l = decimal(len);
    s.append(l.as_str());
    OnnxOptError::Conversion(s)
}

/// A copy of a vector of plain values.
fn copy_vec<T: Copy>(v: &Vec<T>) -> (c: Vec<T>)
    ensures
        c@ == v@,
{
    let mut c: Vec<T> = Vec::new();
    let mut i: usize = 0;
    while i < v.len()
        invariant
            i <= v@.len(),
            c@ == v@.take(i as int),
        decreases v@.len() - i,
    {
        c.push(v[i]);
        i = i + 1;
        assert(c@ =~= v@.take(i as int));
    }
    assert(v@.take(v@.len() as int) =~= v@);
    c
}

/// Decodes every byte string as UTF-8; the error of the first invalid one
/// otherwise.
fn decode_strings(v: &Vec<Vec<u8>>) -> (r: Result<Vec<String>, String>)
    ensures
        match decode_all_utf8(byte_strings(v@)) {
            Ok(texts) => r matches Ok(out) && out@.map_values(|s: String| s@) == texts,
            Err(m) => r matches Err(e) && e@ == m,
        },
{
    let mut out: Vec<String> = Vec::new();
    let mut i: usize = 0;
    proof {
        assert(byte_strings(v@.take(0)) =~= Seq::<Seq<u8>>::empty());
        assert(out@.map_values(|s: String| s@) =~= Seq::<Seq<char>>::empty());
    }
    while i < v.len()
        invariant
            i <= v@.len(),
            decode_all_utf8(byte_strings(v@.take(i as int))) == Ok::<Seq<Seq<char>>, Seq<char>>(out@.map_values(|s: String| s@)),
        decreases v@.len() - i,
    {
        proof {
            assert(byte_strings(v@.take(i + 1)).drop_last() =~= byte_strings(v@.take(i as int)));
            assert(byte_strings(v@.take(i + 1)).last() == v@[i as int]@);
        }
        match string_from_utf8(&v[i]) {
            Ok(s) => {
                let ghost before = out@;
                out.push(s);
                proof {
                    assert(out@.map_values(|s: String| s@) =~= before.map_values(|s: String| s@).push(s@));
                }
            },
            Err(m) => {
                proof {
                    lemma_decode_all_utf8_error_persists(byte_strings(v@), i as int + 1);
                    assert(byte_strings(v@).take(i + 1) =~= byte_strings(v@.take(i + 1)));
                }
                return Err(m);
            },
        }
        i = i + 1;
    }
    proof {
        assert(v@.take(v@.len() as int) =~= v@);
    }
    Ok(out)
}

/// An error in a prefix is the error of the whole.
proof fn lemma_decode_all_utf8_error_persists(ss: Seq<Seq<u8>>, n: int)
    requires
        0 <= n <= ss.len(),
        decode_all_utf8(ss.take(n)) is Err,
    ensures
        decode_all_utf8(ss) == decode_all_utf8(ss.take(n)),
    decreases ss.len() - n,
{
    if n < ss.len() {
        assert(ss.take(n + 1).drop_last() =~= ss.take(n));
        lemma_decode_all_utf8_error_persists(ss, n + 1);
    } else {
        assert(ss.take(n) =~= ss);
    }
}

/// Checks that raw bytes are a whole number of `size`-byte elements.
fn check_raw_length(raw: &Vec<u8>, elem_name: &str, size: usize) -> (r: Result<(), OnnxOptError>)
    requires
        size > 0,
    ensures
        r is Ok <==> raw@.len() % (size as nat) == 0,
        r matches Err(e) ==> e@ == raw_length_error(elem_name@, size, raw@.len() as usize),
{
    if raw.len() % size != 0 {
        Err(raw_length_failure(elem_name, size, raw.len()))
    } else {
        Ok(())
    }
}

/// Each word read as a signed 32-bit integer.
fn words_as_i32(w: &Vec<u32>) -> (r: Vec<i32>)
    ensures
        r@ == w@.map_values(|x: u32| x as i32),
{
    let mut r: Vec<i32> = Vec::new();
    let mut i: usize = 0;
    while i < w.len()
        invariant
            i <= w@.len(),
            r@ == w@.take(i as int).map_values(|x: u32| x as i32),
        decreases w@.len() - i,
    {
        r.push(w[i] as i32);
        i = i + 1;
        assert(r@ =~= w@.take(i as int).map_values(|x: u32| x as i32));
    }
    assert(w@.take(w@.len() as int) =~= w@);
    r
}

/// Each word read as a signed 64-bit integer.
fn words_as_i64(w: &Vec<u64>) -> (r: Vec<i64>)
    ensures
        r@ == w@.map_values(|x: u64| x as i64),
{
    let mut r: Vec<i64> = Vec::new();
    let mut i: usize = 0;
    while i < w.len()
        invariant
            i <= w@.len(),
            r@ == w@.take(i as int).map_values(|x: u64| x as i64),
        decreases w@.len() - i,
    {
        r.push(w[i] as i64);
        i = i + 1;
        assert(r@ =~= w@.take(i as int).map_values(|x: u64| x as i64));
    }
    assert(w@.take(w@.len() as int) =~= w@);
    r
}

/// The values as 32-bit unsigned integers, when all of them fit.
fn narrow_to_u32(v: &Vec<u64>) -> (r: Option<Vec<u32>>)
    ensures
        r is Some <==> forall|k: int| 0 <= k < v@.len() ==> #[trigger] v@[k] <= u32::MAX,
        r matches Some(n) ==> n@ == v@.map_values(|x: u64| x as u32),
{
    let mut r: Vec<u32> = Vec::new();
    let mut i: usize = 0;
    while i < v.len()
        invariant
            i <= v@.len(),
            forall|k: int| 0 <= k < i ==> #[trigger] v@[k] <= u32::MAX,
            r@ == v@.take(i as int).map_values(|x: u64| x as u32),
        decreases v@.len() - i,
    {
        if v[i] > u32::MAX as u64 {
            return None;
        }
        r.push(v[i] as u32);
        i = i + 1;
        assert(r@ =~= v@.take(i as int).map_values(|x: u64| x as u32));
    }
    assert(v@.take(v@.len() as int) =~= v@);
    Some(r)
}

/// The values as signed bytes, when all of them fit.
fn narrow_to_i8(v: &Vec<i32>) -> (r: Option<Vec<i8>>)
    ensures
        r is Some <==> forall|k: int| 0 <= k < v@.len() ==> -128 <= #[trigger] v@[k] <= 127,
        r matches Some(n) ==> n@ == v@.map_values(|x: i32| x as i8),
{
    let mut r: Vec<i8> = Vec::new();
    let mut i: usize = 0;
    while i < v.len()
        invariant
            i <= v@.len(),
            forall|k: int| 0 <= k < i ==> -128 <= #[trigger] v@[k] <= 127,
            r@ == v@.take(i as int).map_values(|x: i32| x as i8),
        decreases v@.len() - i,
    {
        if v[i] < -128 || v[i] > 127 {
            return None;
        }
        r.push(v[i] as i8);
        i = i + 1;
        assert(r@ =~= v@.take(i as int).map_values(|x: i32| x as i8));
    }
    assert(v@.take(v@.len() as int) =~= v@);
    Some(r)
}

/// The values as bytes, when all of them fit.
fn narrow_to_u8(v: &Vec<i32>) -> (r: Option<Vec<u8>>)
    ensures
        r is Some <==> forall|k: int| 0 <= k < v@.len() ==> 0 <= #[trigger] v@[k] <= 255,
        r matches Some(n) ==> n@ == v@.map_values(|x: i32| x as u8),
{
    let mut r: Vec<u8> = Vec::new();
    let mut i: usize = 0;
    while i < v.len()
        invariant
            i <= v@.len(),
            forall|k: int| 0 <= k < i ==> 0 <= #[trigger] v@[k] <= 255,
            r@ == v@.take(i as int).map_values(|x: i32| x as u8),
        decreases v@.len() - i,
    {
        if v[i] < 0 || v[i] > 255 {
            return None;
        }
        r.push(v[i] as u8);
        i = i + 1;
        assert(r@ =~= v@.take(i as int).map_values(|x: i32| x as u8));
    }
    assert(v@.take(v@.len() as int) =~= v@);
    Some(r)
}

/// Each byte read as a signed byte.
fn bytes_as_i8(v: &Vec<u8>) -> (r: Vec<i8>)
    ensures
        r@ == v@.map_values(|b: u8| b as i8),
{
    let mut r: Vec<i8> = Vec::new();
    let mut i: usize = 0;
    while i < v.len()
        invariant
            i <= v@.len(),
            r@ == v@.take(i as int).map_values(|b: u8| b as i8),
        decreases v@.len() - i,
    {
        r.push(v[i] as i8);
        i = i + 1;
        assert(r@ =~= v@.take(i as int).map_values(|b: u8| b as i8));
    }
    assert(v@.take(v@.len() as int) =~= v@);
    r
}

/// Whether each integer is nonzero.
fn ints_nonzero(v: &Vec<i32>) -> (r: Vec<bool>)
    ensures
        r@ == v@.map_values(|x: i32| x != 0),
{
    let mut r: Vec<bool> = Vec::new();
    let mut i: usize = 0;
    while i < v.len()
        invariant
            i <= v@.len(),
            r@ == v@.take(i as int).map_values(|x: i32| x != 0),
        decreases v@.len() - i,
    {
        r.push(v[i] != 0);
        i = i + 1;
        assert(r@ =~= v@.take(i as int).map_values(|x: i32| x != 0));
    }
    assert(v@.take(v@.len() as int) =~= v@);
    r
}

/// Whether each byte is nonzero.
fn bytes_nonzero(v: &Vec<u8>) -> (r: Vec<bool>)
    ensures
        r@ == v@.map_values(|b: u8| b != 0),
{
    let mut r: Vec<bool> = Vec::new();
    let mut i: usize = 0;
    while i < v.len()
        invariant
            i <= v@.len(),
            r@ == v@.take(i as int).map_values(|b: u8| b != 0),
        decreases v@.len() - i,
    {
        r.push(v[i] != 0);
        i = i + 1;
        assert(r@ =~= v@.take(i as int).map_values(|b: u8| b != 0));
    }
    assert(v@.take(v@.len() as int) =~= v@);
    r
}

impl TensorData {
    /// The constant data a tensor description carries, read by its element
    /// type from the field for that type or from raw little-endian bytes.
    pub fn from_proto(tensor_proto: &TensorProto) -> (r: Result<Option<TensorData>, OnnxOptError>)
        ensures
            data_outcome_view(r) == tensor_data_outcome(*tensor_proto),
    {
        let code: i32 = match tensor_proto.data_type {
            Some(c) => c,
            None => 0,
        };
        let data_type = match ProtoDataType::from_code(code) {
            Some(t) => t,
            None => {
                return Err(OnnxOptError::Conversion("Invalid data type".to_string()));
            },
        };
        let empty: Vec<u8> = Vec::new();
        let raw: &Vec<u8> = match &tensor_proto.raw_data {
            Some(r) => r,
            None => &empty,
        };
        assert(raw@ == raw_bytes(*tensor_proto));
        let has_data = tensor_proto.float_data.len() > 0 || tensor_proto.double_data.len() > 0
            || tensor_proto.int32_data.len() > 0 || tensor_proto.int64_data.len() > 0
            || tensor_proto.uint64_data.len() > 0 || tensor_proto.string_data.len() > 0
            || raw.len() > 0;
        if !has_data {
            return Ok(None);
        }
        Self::typed_from_proto(tensor_proto, raw, data_type)
    }

    /// The data of a tensor description that carries some, by element type.
    fn typed_from_proto(tensor_proto: &TensorProto, raw: &Vec<u8>, data_type: ProtoDataType) -> (r: Result<Option<TensorData>, OnnxOptError>)
        requires
            raw@ == raw_bytes(*tensor_proto),
        ensures
            data_outcome_view(r) == typed_data(*tensor_proto, data_type),
    {
        match data_type {
            ProtoDataType::Float => {
                if tensor_proto.float_data.len() > 0 {
                    Ok(Some(TensorData::Float32(copy_vec(&tensor_proto.float_data))))
                } else if raw.len() > 0 {
                    match check_raw_length(raw, "f32", 4) {
                        Ok(()) => Ok(Some(TensorData::Float32(decode_words32(raw)))),
                        Err(e) => Err(e),
                    }
                } else {
                    Ok(None)
                }
            },
            ProtoDataType::Double => {
                if tensor_proto.double_data.len() > 0 {
                    Ok(Some(TensorData::Float64(copy_vec(&tensor_proto.double_data))))
                } else if raw.len() > 0 {
                    match check_raw_length(raw, "f64", 8) {
                        Ok(()) => Ok(Some(TensorData::Float64(decode_words64(raw)))),
                        Err(e) => Err(e),
                    }
                } else {
                    Ok(None)
                }
            },
            ProtoDataType::Int32 => {
                if tensor_proto.int32_data.len() > 0 {
                    Ok(Some(TensorData::Int32(copy_vec(&tensor_proto.int32_data))))
                } else if raw.len() > 0 {
                    match check_raw_length(raw, "i32", 4) {
                        Ok(()) => {
                            let w = decode_words32(raw);
                            Ok(Some(TensorData::Int32(words_as_i32(&w))))
                        },
                        Err(e) => Err(e),
                    }
                } else {
                    Ok(None)
                }
            },
            ProtoDataType::Int64 => {
                if tensor_proto.int64_data.len() > 0 {
                    Ok(Some(TensorData::Int64(copy_vec(&tensor_proto.int64_data))))
                } else if raw.len() > 0 {
                    match check_raw_length(raw, "i64", 8) {
                        Ok(()) => {
                            let w = decode_words64(raw);
                            Ok(Some(TensorData::Int64(words_as_i64(&w))))
                        },
                        Err(e) => Err(e),
                    }
                } else {
                    Ok(None)
                }
            },
            ProtoDataType::Uint32 => {
                if tensor_proto.uint64_data.len() > 0 {
                    match narrow_to_u32(&tensor_proto.uint64_data) {
                        Some(data) => Ok(Some(TensorData::Uint32(data))),
                        None => Err(OnnxOptError::Conversion("Uint64 value too large for uint32".to_string())),
                    }
                } else {
                    match check_raw_length(raw, "u32", 4) {
                        Ok(()) => Ok(Some(TensorData::Uint32(decode_words32(raw)))),
                        Err(e) => Err(e),
                    }
                }
            },
            ProtoDataType::Uint64 => {
                if tensor_proto.uint64_data.len() > 0 {
                    Ok(Some(TensorData::Uint64(copy_vec(&tensor_proto.uint64_data))))
                } else if raw.len() > 0 {
                    match check_raw_length(raw, "u64", 8) {
                        Ok(()) => Ok(Some(TensorData::Uint64(decode_words64(raw)))),
                        Err(e) => Err(e),
                    }
                } else {
                    Ok(None)
                }
            },
            ProtoDataType::Int8 => {
                if tensor_proto.int32_data.len() > 0 {
                    match narrow_to_i8(&tensor_proto.int32_data) {
                        Some(data) => Ok(Some(TensorData::Int8(data))),
                        None => Err(OnnxOptError::Conversion("Int32 value out of range for int8".to_string())),
                    }
                } else if raw.len() > 0 {
                    Ok(Some(TensorData::Int8(bytes_as_i8(raw))))
                } else {
                    Ok(None)
                }
            },
            ProtoDataType::Uint8 => {
                if tensor_proto.int32_data.len() > 0 {
                    match narrow_to_u8(&tensor_proto.int32_data) {
                        Some(data) => Ok(Some(TensorData::Uint8(data))),
                        None => Err(OnnxOptError::Conversion("Int32 value out of range for uint8".to_string())),
                    }
                } else if raw.len() > 0 {
                    Ok(Some(TensorData::Uint8(copy_vec(raw))))
                } else {
                    Ok(None)
                }
            },
            ProtoDataType::Bool => {
                if tensor_proto.int32_data.len() > 0 {
                    Ok(Some(TensorData::Bool(ints_nonzero(&tensor_proto.int32_data))))
                } else if raw.len() > 0 {
                    Ok(Some(TensorData::Bool(bytes_nonzero(raw))))
                } else {
                    Ok(None)
                }
            },
            ProtoDataType::String => {
                if tensor_proto.string_data.len() > 0 {
                    match decode_strings(&tensor_proto.string_data) {
                        Ok(data) => Ok(Some(TensorData::String(data))),
                        Err(m) => Err(OnnxOptError::Conversion(prefixed("Invalid UTF-8 in string data: ", m.as_str()))),
                    }
                } else {
                    Ok(None)
                }
            },
            _ => Err(OnnxOptError::UnsupportedOp(prefixed(
                "Unsupported data type for tensor data extraction: ",
                data_type.debug_name(),
            ))),
        }
    }
}

// ---------------------------------------------------------------------
// Tensors.

/// The shape that dimensions give: none for no dimensions.
pub open spec fn shape_of_dims(dims: Seq<i64>) -> Option<Seq<i64>> {
    if dims.len() == 0 {
        None
    } else {
        Some(dims)
    }
}

/// What a tensor description converts to.
pub open spec fn tensor_outcome(tp: TensorProto) -> Result<TensorView, ErrorView> {
    match proto_data_type_of(match tp.data_type { Some(c) => c, None => 0 }) {
        None => Err(ErrorView::Conversion("Invalid data type"@)),
        Some(t) => match data_type_of(t) {
            None => Err(unsupported_type_error(t)),
            Some(d) => match tensor_data_outcome(tp) {
                Err(e) => Err(e),
                Ok(data) => Ok(TensorView { name: opt_text(tp.name), shape: shape_of_dims(tp.dims@), dtype: d, data }),
            },
        },
    }
}

/// A tensor conversion result, seen through views.
pub open spec fn tensor_outcome_view(r: Result<Tensor, OnnxOptError>) -> Result<TensorView, ErrorView> {
    match r {
        Ok(t) => Ok(t@),
        Err(e) => Err(e@),
    }
}

/// The sizes among the dimensions, in order, skipping symbolic and
/// unspecified ones.
pub open spec fn known_dims(ds: Seq<Dimension>) -> Seq<i64>
    decreases ds.len(),
{
    if ds.len() == 0 {
        Seq::empty()
    } else {
        let prefix = known_dims(ds.drop_last());
        match ds.last().value {
            Some(DimensionValue::DimValue(v)) => prefix.push(v),
            _ => prefix,
        }
    }
}

/// The shape a shape description gives: none when it is absent or lists no
/// sizes.
pub open spec fn shape_of(shape: Option<TensorShapeProto>) -> Option<Seq<i64>> {
    match shape {
        None => None,
        Some(s) => shape_of_dims(known_dims(s.dim@)),
    }
}

/// The element type and shape a value description declares; a 32-bit
/// float of unknown shape when it declares no supported tensor type.
pub open spec fn value_info_type(vi: ValueInfoProto) -> (DataType, Option<Seq<i64>>) {
    let fallback = (DataType::Float32, None::<Seq<i64>>);
    match vi.value_type {
        Some(tp) => match tp.value {
            Some(TypeValue::TensorType(tt)) => match tt.elem_type {
                Some(e) => match proto_data_type_of(e) {
                    Some(pt) => match data_type_of(pt) {
                        Some(d) => (d, shape_of(tt.shape)),
                        None => fallback,
                    },
                    None => fallback,
                },
                None => fallback,
            },
            _ => fallback,
        },
        None => fallback,
    }
}

/// The tensor a value description gives: its name, declared type and
/// shape, and no data.
pub open spec fn value_info_tensor(vi: ValueInfoProto) -> TensorView {
    TensorView { name: opt_text(vi.name), shape: value_info_type(vi).1, dtype: value_info_type(vi).0, data: None }
}

/// A copy of an optional string.
fn copy_opt_string(s: &Option<String>) -> (r: Option<String>)
    ensures
        opt_text(r) == opt_text(*s),
{
    match s {
        Some(t) => Some(t.clone()),
        None => None,
    }
}

/// The sizes among the dimensions, in order.
fn collect_known_dims(ds: &Vec<Dimension>) -> (r: Vec<i64>)
    ensures
        r@ == known_dims(ds@),
{
    let mut r: Vec<i64> = Vec::new();
    let mut i: usize = 0;
    while i < ds.len()
        invariant
            i <= ds@.len(),
            r@ == known_dims(ds@.take(i as int)),
        decreases ds@.len() - i,
    {
        proof {
            assert(ds@.take(i + 1).drop_last() =~= ds@.take(i as int));
        }
        match &ds[i].value {
            Some(DimensionValue::DimValue(v)) => {
                r.push(*v);
            },
            _ => {},
        }
        i = i + 1;
    }
    assert(ds@.take(ds@.len() as int) =~= ds@);
    r
}

impl Tensor {
    /// The tensor a tensor description gives: its element type, shape (none
    /// when it lists no dimensions), name and data.
    pub fn from_proto(tensor_proto: &TensorProto) -> (r: Result<Tensor, OnnxOptError>)
        ensures
            tensor_outcome_view(r) == tensor_outcome(*tensor_proto),
    {
        let code: i32 = match tensor_proto.data_type {
            Some(c) => c,
            None => 0,
        };
        let proto_data_type = match ProtoDataType::from_code(code) {
            Some(t) => t,
            None => {
                return Err(OnnxOptError::Conversion("Invalid data type".to_string()));
            },
        };
        let dtype = match DataType::from_proto_data_type(proto_data_type) {
            Ok(d) => d,
            Err(e) => {
                return Err(e);
            },
        };
        let shape = if tensor_proto.dims.len() == 0 {
            None
        } else {
            Some(copy_vec(&tensor_proto.dims))
        };
        let name = copy_opt_string(&tensor_proto.name);
        let data = match TensorData::from_proto(tensor_proto) {
            Ok(d) => d,
            Err(e) => {
                return Err(e);
            },
        };
        let t = Tensor { name, shape, dtype, data };
        assert(t@.data == match tensor_data_outcome(*tensor_proto) { Ok(d) => d, Err(_) => None });
        Ok(t)
    }

    /// Create a tensor from a value description (used for graph inputs,
    /// outputs and intermediate values); it never fails.
    pub fn from_value_info_proto(value_info: &ValueInfoProto) -> (r: Result<Tensor, OnnxOptError>)
        ensures
            r matches Ok(t) && t@ == value_info_tensor(*value_info),
    {
        let name = copy_opt_string(&value_info.name);
        let fallback = (DataType::Float32, None);
        let (dtype, shape) = match &value_info.value_type {
            Some(type_proto) => match &type_proto.value {
                Some(TypeValue::TensorType(tensor_type)) => match tensor_type.elem_type {
                    Some(elem_type) => match ProtoDataType::from_code(elem_type) {
                        Some(proto_type) => match DataType::from_proto_data_type(proto_type) {
                            Ok(dtype) => {
                                let shape = match &tensor_type.shape {
                                    Some(shape_proto) => {
                                        let dims = collect_known_dims(&shape_proto.dim);
                                        if dims.len() == 0 {
                                            None
                                        } else {
                                            Some(dims)
                                        }
                                    },
                                    None => None,
                                };
                                (dtype, shape)
                            },
                            Err(_) => fallback,
                        },
                        None => fallback,
                    },
                    None => fallback,
                },
                _ => fallback,
            },
            None => fallback,
        };
        let t = Tensor { name, shape, dtype, data: None };
        Ok(t)
    }
}

// ---------------------------------------------------------------------
// Attributes and nodes.

/// The kind an attribute declares; undefined when absent or unknown.
pub open spec fn declared_kind(ap: AttributeProto) -> AttributeType {
    match ap.attr_type {
        Some(c) => match attribute_type_of(c) {
            Some(t) => t,
            None => AttributeType::Undefined,
        },
        None => AttributeType::Undefined,
    }
}

/// What an attribute description converts to, by its declared kind.
pub open spec fn attr_outcome(ap: AttributeProto) -> Result<AttrView, ErrorView> {
    let kind = declared_kind(ap);
    match kind {
        AttributeType::Float => match ap.f {
            Some(bits) => Ok(AttrView::Float(bits)),
            None => Err(ErrorView::Conversion("Float attribute has no value"@)),
        },
        AttributeType::Int => match ap.i {
            Some(i) => Ok(AttrView::Int(i)),
            None => Err(ErrorView::Conversion("Int attribute has no value"@)),
        },
        AttributeType::String => match ap.s {
            None => Err(ErrorView::Conversion("String attribute has no value"@)),
            Some(b) => if vstd::utf8::valid_utf8(b@) {
                Ok(AttrView::String(vstd::utf8::decode_utf8(b@)))
            } else {
                Err(ErrorView::Conversion("Invalid UTF-8 in string attribute: "@ + utf8_error_text(b@)))
            },
        },
        AttributeType::Tensor => match ap.t {
            None => Err(ErrorView::Conversion("Tensor attribute has no value"@)),
            Some(tp) => match tensor_outcome(tp) {
                Ok(t) => Ok(AttrView::Tensor(t)),
                Err(e) => Err(e),
            },
        },
        AttributeType::Floats => Ok(AttrView::Floats(ap.floats@)),
        AttributeType::Ints => Ok(AttrView::Ints(ap.ints@)),
        AttributeType::Strings => match decode_all_utf8(byte_strings(ap.strings@)) {
            Ok(texts) => Ok(AttrView::Strings(texts)),
            Err(m) => Err(ErrorView::Conversion("Invalid UTF-8 in strings attribute: "@ + m)),
        },
        AttributeType::Graph => Ok(AttrView::Graph(Seq::empty())),
        AttributeType::Tensors => if ap.tensors@.len() == 0 {
            Err(ErrorView::Conversion("Tensors attribute has no values"@))
        } else {
            match tensor_outcome(ap.tensors@[0]) {
                Ok(t) => Ok(AttrView::Tensor(t)),
                Err(e) => Err(e),
            }
        },
        _ => Err(ErrorView::UnsupportedOp("Unsupported attribute type: "@ + attribute_type_name(kind))),
    }
}

/// The attribute map a list of attribute descriptions converts to (a later
/// attribute of the same name replaces an earlier one), or the error of the
/// first that fails: one without a name, or one whose value fails.
pub open spec fn attrs_outcome(aps: Seq<AttributeProto>) -> Result<Map<Seq<char>, AttrView>, ErrorView>
    decreases aps.len(),
{
    if aps.len() == 0 {
        Ok(Map::empty())
    } else {
        match attrs_outcome(aps.drop_last()) {
            Err(e) => Err(e),
            Ok(m) => match aps.last().name {
                None => Err(ErrorView::Conversion("Missing name in AttributeProto"@)),
                Some(n) => match attr_outcome(aps.last()) {
                    Err(e) => Err(e),
                    Ok(v) => Ok(m.insert(n@, v)),
                },
            },
        }
    }
}

/// An attribute's value is the field that its declared ONNX code names:
/// FLOAT (1) its `f`, INT (2) its `i`, FLOATS (6) its `floats`, INTS (7)
/// its `ints`; and the attributes of a node are keyed by their names.
pub proof fn lemma_attribute_values_by_code(ap: AttributeProto)
    ensures
        ap.attr_type == Some(1i32) && ap.f is Some ==> attr_outcome(ap) == Ok::<AttrView, ErrorView>(AttrView::Float(ap.f->Some_0)),
        ap.attr_type == Some(2i32) && ap.i is Some ==> attr_outcome(ap) == Ok::<AttrView, ErrorView>(AttrView::Int(ap.i->Some_0)),
        ap.attr_type == Some(6i32) ==> attr_outcome(ap) == Ok::<AttrView, ErrorView>(AttrView::Floats(ap.floats@)),
        ap.attr_type == Some(7i32) ==> attr_outcome(ap) == Ok::<AttrView, ErrorView>(AttrView::Ints(ap.ints@)),
        ap.name is Some && attr_outcome(ap) is Ok
            ==> attrs_outcome(seq![ap]) == Ok::<Map<Seq<char>, AttrView>, ErrorView>(
                map![ap.name->Some_0@ => attr_outcome(ap)->Ok_0],
            ),
{
    let s = seq![ap];
    assert(s.drop_last() =~= Seq::<AttributeProto>::empty());
    assert(s.last() == ap);
    assert(attrs_outcome(Seq::<AttributeProto>::empty()) == Ok::<Map<Seq<char>, AttrView>, ErrorView>(Map::empty()));
    if ap.name is Some && attr_outcome(ap) is Ok {
        assert(Map::<Seq<char>, AttrView>::empty().insert(ap.name->Some_0@, attr_outcome(ap)->Ok_0)
            =~= map![ap.name->Some_0@ => attr_outcome(ap)->Ok_0]);
    }
}

/// The attribute map of a node, values seen through their views.
pub open spec fn attr_views(a: Attributes) -> Map<Seq<char>, AttrView> {
    a@.map_values(|v: NodeAttrValue| v@)
}

/// `k` is the kind named `op`: a named kind, or `Unknown` carrying `op`.
pub open spec fn kind_named(k: OpKind, op: Seq<char>) -> bool {
    match known_op(op) {
        Some(named) => k == named,
        None => k matches OpKind::Unknown(s) && s@ == op,
    }
}

/// The node a node description gives, with no inputs or outputs yet: an
/// error names a missing operator, or is the first attribute's error.
pub open spec fn node_outcome_holds(np: NodeProto, r: Result<Node, OnnxOptError>) -> bool {
    match np.op_type {
        None => r matches Err(e) && e@ == ErrorView::Conversion("Missing op_type in NodeProto"@),
        Some(op) => match attrs_outcome(np.attribute@) {
            Err(e) => r matches Err(x) && x@ == e,
            Ok(m) => r matches Ok(n) && {
                &&& opt_text(n.name) == opt_text(np.name)
                &&& kind_named(n.op_kind, op@)
                &&& n.inputs@.len() == 0
                &&& n.outputs@.len() == 0
                &&& attr_views(n.attributes) == m
            },
        },
    }
}

impl NodeAttrValue {
    /// The attribute value an attribute description gives, read by its
    /// declared kind.
    pub fn from_proto(attr_proto: &AttributeProto) -> (r: Result<NodeAttrValue, OnnxOptError>)
        ensures
            match attr_outcome(*attr_proto) {
                Ok(v) => r matches Ok(a) && a@ == v,
                Err(e) => r matches Err(x) && x@ == e,
            },
    {
        let attr_type = match attr_proto.attr_type {
            Some(c) => match AttributeType::from_code(c) {
                Some(t) => t,
                None => AttributeType::Undefined,
            },
            None => AttributeType::Undefined,
        };
        match attr_type {
            AttributeType::Float => match attr_proto.f {
                Some(bits) => Ok(NodeAttrValue::Float(bits)),
                None => Err(OnnxOptError::Conversion("Float attribute has no value".to_string())),
            },
            AttributeType::Int => match attr_proto.i {
                Some(i) => Ok(NodeAttrValue::Int(i)),
                None => Err(OnnxOptError::Conversion("Int attribute has no value".to_string())),
            },
            AttributeType::String => match &attr_proto.s {
                None => Err(OnnxOptError::Conversion("String attribute has no value".to_string())),
                Some(bytes) => match string_from_utf8(bytes) {
                    Ok(s) => Ok(NodeAttrValue::String(s)),
                    Err(m) => Err(OnnxOptError::Conversion(prefixed("Invalid UTF-8 in string attribute: ", m.as_str()))),
                },
            },
            AttributeType::Tensor => match &attr_proto.t {
                None => Err(OnnxOptError::Conversion("Tensor attribute has no value".to_string())),
                Some(tensor_proto) => match Tensor::from_proto(tensor_proto) {
                    Ok(t) => Ok(NodeAttrValue::Tensor(t)),
                    Err(e) => Err(e),
                },
            },
            AttributeType::Floats => Ok(NodeAttrValue::Floats(copy_vec(&attr_proto.floats))),
            AttributeType::Ints => Ok(NodeAttrValue::Ints(copy_vec(&attr_proto.ints))),
            AttributeType::Strings => match decode_strings(&attr_proto.strings) {
                Ok(texts) => Ok(NodeAttrValue::Strings(texts)),
                Err(m) => Err(OnnxOptError::Conversion(prefixed("Invalid UTF-8 in strings attribute: ", m.as_str()))),
            },
            AttributeType::Graph => Ok(NodeAttrValue::Graph(Vec::new())),
            AttributeType::Tensors => {
                if attr_proto.tensors.len() == 0 {
                    Err(OnnxOptError::Conversion("Tensors attribute has no values".to_string()))
                } else {
                    match Tensor::from_proto(&attr_proto.tensors[0]) {
                        Ok(t) => Ok(NodeAttrValue::Tensor(t)),
                        Err(e) => Err(e),
                    }
                }
            },
            _ => Err(OnnxOptError::UnsupportedOp(prefixed("Unsupported attribute type: ", attr_type.debug_name()))),
        }
    }
}

impl Node {
    /// The node a node description gives: its name, operator kind and
    /// attributes; inputs and outputs are resolved by the graph.
    pub fn from_node_proto(node_proto: &NodeProto) -> (r: Result<Node, OnnxOptError>)
        ensures
            node_outcome_holds(*node_proto, r),
    {
        let op_kind = match &node_proto.op_type {
            Some(op_type) => OpKind::from_onnx(op_type.as_str()),
            None => {
                return Err(OnnxOptError::Conversion("Missing op_type in NodeProto".to_string()));
            },
        };
        let mut attributes = Attributes::new();
        let mut i: usize = 0;
        proof {
            assert(attr_views(attributes) =~= Map::<Seq<char>, AttrView>::empty());
        }
        while i < node_proto.attribute.len()
            invariant
                node_proto.op_type is Some,
                i <= node_proto.attribute@.len(),
                attrs_outcome(node_proto.attribute@.take(i as int)) == Ok::<Map<Seq<char>, AttrView>, ErrorView>(attr_views(attributes)),
            decreases node_proto.attribute@.len() - i,
        {
            let attr_proto = &node_proto.attribute[i];
            proof {
                assert(node_proto.attribute@.take(i + 1).drop_last() =~= node_proto.attribute@.take(i as int));
                assert(node_proto.attribute@.take(i + 1).last() == *attr_proto);
            }
            let name = match &attr_proto.name {
                Some(n) => n.clone(),
                None => {
                    let e = OnnxOptError::Conversion("Missing name in AttributeProto".to_string());
                    proof {
                        assert(attrs_outcome(node_proto.attribute@.take(i + 1)) == Err::<Map<Seq<char>, AttrView>, ErrorView>(e@));
                        lemma_attrs_error_persists(node_proto.attribute@, i as int + 1);
                    }
                    return Err(e);
                },
            };
            let value = match NodeAttrValue::from_proto(attr_proto) {
                Ok(v) => v,
                Err(e) => {
                    proof {
                        assert(attrs_outcome(node_proto.attribute@.take(i + 1)) == Err::<Map<Seq<char>, AttrView>, ErrorView>(e@));
                        lemma_attrs_error_persists(node_proto.attribute@, i as int + 1);
                    }
                    return Err(e);
                },
            };
            let ghost before = attr_views(attributes);
            attributes.insert(name, value);
            proof {
                assert(attr_views(attributes) =~= before.insert(name@, value@));
            }
            i = i + 1;
        }
        proof {
            assert(node_proto.attribute@.take(node_proto.attribute@.len() as int) =~= node_proto.attribute@);
        }
        let name = copy_opt_string(&node_proto.name);
        Ok(Node { name, op_kind, inputs: Vec::new(), outputs: Vec::new(), attributes })
    }
}

/// An error in a prefix of the attribute list is the error of the whole.
proof fn lemma_attrs_error_persists(aps: Seq<AttributeProto>, n: int)
    requires
        0 <= n <= aps.len(),
        attrs_outcome(aps.take(n)) is Err,
    ensures
        attrs_outcome(aps) == attrs_outcome(aps.take(n)),
    decreases aps.len() - n,
{
    if n < aps.len() {
        assert(aps.take(n + 1).drop_last() =~= aps.take(n));
        lemma_attrs_error_persists(aps, n + 1);
    } else {
        assert(aps.take(n) =~= aps);
    }
}

} // verus!
