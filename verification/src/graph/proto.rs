//! Descriptions of an ONNX model, as read from its protobuf encoding:
//! tensors, attributes, nodes, value descriptions, graphs and models.
//!
//! Floating-point numbers are held as their IEEE-754 bit patterns.

use vstd::prelude::*;

verus! {

/// Element types a tensor description can declare, as numbered on the wire.
#[derive(Debug, Clone, Copy, PartialEq, Eq, Structural)]
pub enum ProtoDataType {
    Undefined,
    Float,
    Uint8,
    Int8,
    Uint16,
    Int16,
    Int32,
    Int64,
    String,
    Bool,
    Float16,
    Double,
    Uint32,
    Uint64,
    Complex64,
    Complex128,
    Bfloat16,
    Float8e4m3fn,
    Float8e4m3fnuz,
    Float8e5m2,
    Float8e5m2fnuz,
    Uint4,
    Int4,
    Float4e2m1,
}

/// The element type with wire code `code`, if there is one.
pub open spec fn proto_data_type_of(code: i32) -> Option<ProtoDataType> {
    match code {
        0i32 => Some(ProtoDataType::Undefined),
        1i32 => Some(ProtoDataType::Float),
        2i32 => Some(ProtoDataType::Uint8),
        3i32 => Some(ProtoDataType::Int8),
        4i32 => Some(ProtoDataType::Uint16),
        5i32 => Some(ProtoDataType::Int16),
        6i32 => Some(ProtoDataType::Int32),
        7i32 => Some(ProtoDataType::Int64),
        8i32 => Some(ProtoDataType::String),
        9i32 => Some(ProtoDataType::Bool),
        10i32 => Some(ProtoDataType::Float16),
        11i32 => Some(ProtoDataType::Double),
        12i32 => Some(ProtoDataType::Uint32),
        13i32 => Some(ProtoDataType::Uint64),
        14i32 => Some(ProtoDataType::Complex64),
        15i32 => Some(ProtoDataType::Complex128),
        16i32 => Some(ProtoDataType::Bfloat16),
        17i32 => Some(ProtoDataType::Float8e4m3fn),
        18i32 => Some(ProtoDataType::Float8e4m3fnuz),
        19i32 => Some(ProtoDataType::Float8e5m2),
        20i32 => Some(ProtoDataType::Float8e5m2fnuz),
        21i32 => Some(ProtoDataType::Uint4),
        22i32 => Some(ProtoDataType::Int4),
        23i32 => Some(ProtoDataType::Float4e2m1),
        _ => None,
    }
}

/// How `Debug` writes each variant: its name.
pub open spec fn proto_data_type_name(t: ProtoDataType) -> Seq<char> {
    match t {
        ProtoDataType::Undefined => "Undefined"@,
        ProtoDataType::Float => "Float"@,
        ProtoDataType::Uint8 => "Uint8"@,
        ProtoDataType::Int8 => "Int8"@,
        ProtoDataType::Uint16 => "Uint16"@,
        ProtoDataType::Int16 => "Int16"@,
        ProtoDataType::Int32 => "Int32"@,
        ProtoDataType::Int64 => "Int64"@,
        ProtoDataType::String => "String"@,
        ProtoDataType::Bool => "Bool"@,
        ProtoDataType::Float16 => "Float16"@,
        ProtoDataType::Double => "Double"@,
        ProtoDataType::Uint32 => "Uint32"@,
        ProtoDataType::Uint64 => "Uint64"@,
        ProtoDataType::Complex64 => "Complex64"@,
        ProtoDataType::Complex128 => "Complex128"@,
        ProtoDataType::Bfloat16 => "Bfloat16"@,
        ProtoDataType::Float8e4m3fn => "Float8e4m3fn"@,
        ProtoDataType::Float8e4m3fnuz => "Float8e4m3fnuz"@,
        ProtoDataType::Float8e5m2 => "Float8e5m2"@,
        ProtoDataType::Float8e5m2fnuz => "Float8e5m2fnuz"@,
        ProtoDataType::Uint4 => "Uint4"@,
        ProtoDataType::Int4 => "Int4"@,
        ProtoDataType::Float4e2m1 => "Float4e2m1"@,
    }
}

impl ProtoDataType {
    /// The variant with wire code `code`; `None` for a code without one.
    pub fn from_code(code: i32) -> (r: Option<ProtoDataType>)
        ensures
            r == proto_data_type_of(code),
    {
        match code {
            0 => Some(ProtoDataType::Undefined),
            1 => Some(ProtoDataType::Float),
            2 => Some(ProtoDataType::Uint8),
            3 => Some(ProtoDataType::Int8),
            4 => Some(ProtoDataType::Uint16),
            5 => Some(ProtoDataType::Int16),
            6 => Some(ProtoDataType::Int32),
            7 => Some(ProtoDataType::Int64),
            8 => Some(ProtoDataType::String),
            9 => Some(ProtoDataType::Bool),
            10 => Some(ProtoDataType::Float16),
            11 => Some(ProtoDataType::Double),
            12 => Some(ProtoDataType::Uint32),
            13 => Some(ProtoDataType::Uint64),
            14 => Some(ProtoDataType::Complex64),
            15 => Some(ProtoDataType::Complex128),
            16 => Some(ProtoDataType::Bfloat16),
            17 => Some(ProtoDataType::Float8e4m3fn),
            18 => Some(ProtoDataType::Float8e4m3fnuz),
            19 => Some(ProtoDataType::Float8e5m2),
            20 => Some(ProtoDataType::Float8e5m2fnuz),
            21 => Some(ProtoDataType::Uint4),
            22 => Some(ProtoDataType::Int4),
            23 => Some(ProtoDataType::Float4e2m1),
            _ => None,
        }
    }

    /// The variant's name, as `Debug` writes it.
    pub fn debug_name(&self) -> (s: &'static str)
        ensures
            s@ == proto_data_type_name(*self),
    {
        proof {
            reveal_strlit("Undefined");
            reveal_strlit("Float");
            reveal_strlit("Uint8");
            reveal_strlit("Int8");
            reveal_strlit("Uint16");
            reveal_strlit("Int16");
            reveal_strlit("Int32");
            reveal_strlit("Int64");
            reveal_strlit("String");
            reveal_strlit("Bool");
            reveal_strlit("Float16");
            reveal_strlit("Double");
            reveal_strlit("Uint32");
            reveal_strlit("Uint64");
            reveal_strlit("Complex64");
            reveal_strlit("Complex128");
            reveal_strlit("Bfloat16");
            reveal_strlit("Float8e4m3fn");
            reveal_strlit("Float8e4m3fnuz");
            reveal_strlit("Float8e5m2");
            reveal_strlit("Float8e5m2fnuz");
            reveal_strlit("Uint4");
            reveal_strlit("Int4");
            reveal_strlit("Float4e2m1");
        }
        match self {
            ProtoDataType::Undefined => "Undefined",
            ProtoDataType::Float => "Float",
            ProtoDataType::Uint8 => "Uint8",
            ProtoDataType::Int8 => "Int8",
            ProtoDataType::Uint16 => "Uint16",
            ProtoDataType::Int16 => "Int16",
            ProtoDataType::Int32 => "Int32",
            ProtoDataType::Int64 => "Int64",
            ProtoDataType::String => "String",
            ProtoDataType::Bool => "Bool",
            ProtoDataType::Float16 => "Float16",
            ProtoDataType::Double => "Double",
            ProtoDataType::Uint32 => "Uint32",
            ProtoDataType::Uint64 => "Uint64",
            ProtoDataType::Complex64 => "Complex64",
            ProtoDataType::Complex128 => "Complex128",
            ProtoDataType::Bfloat16 => "Bfloat16",
            ProtoDataType::Float8e4m3fn => "Float8e4m3fn",
            ProtoDataType::Float8e4m3fnuz => "Float8e4m3fnuz",
            ProtoDataType::Float8e5m2 => "Float8e5m2",
            ProtoDataType::Float8e5m2fnuz => "Float8e5m2fnuz",
            ProtoDataType::Uint4 => "Uint4",
            ProtoDataType::Int4 => "Int4",
            ProtoDataType::Float4e2m1 => "Float4e2m1",
        }
    }
}

/// Kinds of attribute value, as numbered on the wire.
#[derive(Debug, Clone, Copy, PartialEq, Eq, Structural)]
pub enum AttributeType {
    Undefined,
    Float,
    Int,
    String,
    Tensor,
    Graph,
    Floats,
    Ints,
    Strings,
    Tensors,
    Graphs,
    SparseTensor,
    SparseTensors,
    TypeProto,
    TypeProtos,
}

/// The attribute kind with wire code `code`, if there is one.
pub open spec fn attribute_type_of(code: i32) -> Option<AttributeType> {
    match code {
        0i32 => Some(AttributeType::Undefined),
        1i32 => Some(AttributeType::Float),
        2i32 => Some(AttributeType::Int),
        3i32 => Some(AttributeType::String),
        4i32 => Some(AttributeType::Tensor),
        5i32 => Some(AttributeType::Graph),
        6i32 => Some(AttributeType::Floats),
        7i32 => Some(AttributeType::Ints),
        8i32 => Some(AttributeType::Strings),
        9i32 => Some(AttributeType::Tensors),
        10i32 => Some(AttributeType::Graphs),
        11i32 => Some(AttributeType::SparseTensor),
        12i32 => Some(AttributeType::SparseTensors),
        13i32 => Some(AttributeType::TypeProto),
        14i32 => Some(AttributeType::TypeProtos),
        _ => None,
    }
}

/// How `Debug` writes each variant: its name.
pub open spec fn attribute_type_name(t: AttributeType) -> Seq<char> {
    match t {
        AttributeType::Undefined => "Undefined"@,
        AttributeType::Float => "Float"@,
        AttributeType::Int => "Int"@,
        AttributeType::String => "String"@,
        AttributeType::Tensor => "Tensor"@,
        AttributeType::Graph => "Graph"@,
        AttributeType::Floats => "Floats"@,
        AttributeType::Ints => "Ints"@,
        AttributeType::Strings => "Strings"@,
        AttributeType::Tensors => "Tensors"@,
        AttributeType::Graphs => "Graphs"@,
        AttributeType::SparseTensor => "SparseTensor"@,
        AttributeType::SparseTensors => "SparseTensors"@,
        AttributeType::TypeProto => "TypeProto"@,
        AttributeType::TypeProtos => "TypeProtos"@,
    }
}

impl AttributeType {
    /// The variant with wire code `code`; `None` for a code without one.
    pub fn from_code(code: i32) -> (r: Option<AttributeType>)
        ensures
            r == attribute_type_of(code),
    {
        match code {
            0 => Some(AttributeType::Undefined),
            1 => Some(AttributeType::Float),
            2 => Some(AttributeType::Int),
            3 => Some(AttributeType::String),
            4 => Some(AttributeType::Tensor),
            5 => Some(AttributeType::Graph),
            6 => Some(AttributeType::Floats),
            7 => Some(AttributeType::Ints),
            8 => Some(AttributeType::Strings),
            9 => Some(AttributeType::Tensors),
            10 => Some(AttributeType::Graphs),
            11 => Some(AttributeType::SparseTensor),
            12 => Some(AttributeType::SparseTensors),
            13 => Some(AttributeType::TypeProto),
            14 => Some(AttributeType::TypeProtos),
            _ => None,
        }
    }

    /// The variant's name, as `Debug` writes it.
    pub fn debug_name(&self) -> (s: &'static str)
        ensures
            s@ == attribute_type_name(*self),
    {
        proof {
            reveal_strlit("Undefined");
            reveal_strlit("Float");
            reveal_strlit("Int");
            reveal_strlit("String");
            reveal_strlit("Tensor");
            reveal_strlit("Graph");
            reveal_strlit("Floats");
            reveal_strlit("Ints");
            reveal_strlit("Strings");
            reveal_strlit("Tensors");
            reveal_strlit("Graphs");
            reveal_strlit("SparseTensor");
            reveal_strlit("SparseTensors");
            reveal_strlit("TypeProto");
            reveal_strlit("TypeProtos");
        }
        match self {
            AttributeType::Undefined => "Undefined",
            AttributeType::Float => "Float",
            AttributeType::Int => "Int",
            AttributeType::String => "String",
            AttributeType::Tensor => "Tensor",
            AttributeType::Graph => "Graph",
            AttributeType::Floats => "Floats",
            AttributeType::Ints => "Ints",
            AttributeType::Strings => "Strings",
            AttributeType::Tensors => "Tensors",
            AttributeType::Graphs => "Graphs",
            AttributeType::SparseTensor => "SparseTensor",
            AttributeType::SparseTensors => "SparseTensors",
            AttributeType::TypeProto => "TypeProto",
            AttributeType::TypeProtos => "TypeProtos",
        }
    }
}

/// A tensor: its shape, element type, name and data, stored in the field
/// for its type or as little-endian bytes.
#[derive(Debug, Clone)]
pub struct TensorProto {
    pub dims: Vec<i64>,
    /// Wire code of the element type.
    pub data_type: Option<i32>,
    /// Bit patterns of 32-bit floats.
    pub float_data: Vec<u32>,
    pub int32_data: Vec<i32>,
    pub string_data: Vec<Vec<u8>>,
    pub int64_data: Vec<i64>,
    pub name: Option<String>,
    pub raw_data: Option<Vec<u8>>,
    /// Bit patterns of 64-bit floats.
    pub double_data: Vec<u64>,
    pub uint64_data: Vec<u64>,
}

/// A named attribute of a node.
#[derive(Debug, Clone)]
pub struct AttributeProto {
    pub name: Option<String>,
    /// Wire code of the attribute kind.
    pub attr_type: Option<i32>,
    /// The float value, widened to a 64-bit float's bit pattern.
    pub f: Option<u64>,
    pub i: Option<i64>,
    pub s: Option<Vec<u8>>,
    pub t: Option<TensorProto>,
    /// The float values, each widened to a 64-bit float's bit pattern.
    pub floats: Vec<u64>,
    pub ints: Vec<i64>,
    pub strings: Vec<Vec<u8>>,
    pub tensors: Vec<TensorProto>,
}

/// A node: the operator, its named inputs and outputs, and attributes.
#[derive(Debug, Clone)]
pub struct NodeProto {
    pub input: Vec<String>,
    pub output: Vec<String>,
    pub name: Option<String>,
    pub op_type: Option<String>,
    pub domain: Option<String>,
    pub attribute: Vec<AttributeProto>,
}

/// One dimension of a shape: a size or a symbolic name.
#[derive(Debug, Clone)]
pub enum DimensionValue {
    DimValue(i64),
    DimParam(String),
}

/// One dimension of a shape, possibly unspecified.
#[derive(Debug, Clone)]
pub struct Dimension {
    pub value: Option<DimensionValue>,
}

/// The shape of a tensor type.
#[derive(Debug, Clone)]
pub struct TensorShapeProto {
    pub dim: Vec<Dimension>,
}

/// A tensor type: element type and shape.
#[derive(Debug, Clone)]
pub struct TensorTypeProto {
    /// Wire code of the element type.
    pub elem_type: Option<i32>,
    pub shape: Option<TensorShapeProto>,
}

/// The kind of a type: a tensor type, or another kind of type.
#[derive(Debug, Clone)]
pub enum TypeValue {
    TensorType(TensorTypeProto),
    /// A sequence, map, optional, sparse tensor or opaque type.
    NonTensor,
}

/// A type.
#[derive(Debug, Clone)]
pub struct TypeProto {
    pub value: Option<TypeValue>,
}

/// A named value and its type.
#[derive(Debug, Clone)]
pub struct ValueInfoProto {
    pub name: Option<String>,
    pub value_type: Option<TypeProto>,
}

/// A graph: nodes, constant initializers, inputs, outputs and
/// descriptions of intermediate values.
#[derive(Debug, Clone)]
pub struct GraphProto {
    pub node: Vec<NodeProto>,
    pub name: Option<String>,
    pub initializer: Vec<TensorProto>,
    pub input: Vec<ValueInfoProto>,
    pub output: Vec<ValueInfoProto>,
    pub value_info: Vec<ValueInfoProto>,
}

/// A model: its graph.
#[derive(Debug, Clone)]
pub struct ModelProto {
    pub graph: Option<GraphProto>,
}

/// The wire codes are those of the ONNX standard: FLOAT is 1, UINT8 2,
/// INT8 3, INT32 6, INT64 7, STRING 8, BOOL 9, DOUBLE 11, UINT32 12 and
/// UINT64 13; codes outside 0..=23 name no type, and no two codes name the
/// same type.
pub proof fn lemma_standard_element_codes()
    ensures
        proto_data_type_of(1i32) == Some(ProtoDataType::Float),
        proto_data_type_of(2i32) == Some(ProtoDataType::Uint8),
        proto_data_type_of(3i32) == Some(ProtoDataType::Int8),
        proto_data_type_of(6i32) == Some(ProtoDataType::Int32),
        proto_data_type_of(7i32) == Some(ProtoDataType::Int64),
        proto_data_type_of(8i32) == Some(ProtoDataType::String),
        proto_data_type_of(9i32) == Some(ProtoDataType::Bool),
        proto_data_type_of(11i32) == Some(ProtoDataType::Double),
        proto_data_type_of(12i32) == Some(ProtoDataType::Uint32),
        proto_data_type_of(13i32) == Some(ProtoDataType::Uint64),
        forall|c: i32| (c < 0 || c > 23) ==> #[trigger] proto_data_type_of(c) is None,
        forall|a: i32, b: i32|
            #[trigger] proto_data_type_of(a) is Some && proto_data_type_of(a) == #[trigger] proto_data_type_of(b) ==> a == b,
{
}

/// The attribute codes are those of the ONNX standard: FLOAT is 1, INT 2,
/// STRING 3, TENSOR 4, GRAPH 5, FLOATS 6, INTS 7, STRINGS 8; codes outside
/// 0..=14 name no type, and no two codes name the same type.
pub proof fn lemma_standard_attribute_codes()
    ensures
        attribute_type_of(1i32) == Some(AttributeType::Float),
        attribute_type_of(2i32) == Some(AttributeType::Int),
        attribute_type_of(3i32) == Some(AttributeType::String),
        attribute_type_of(4i32) == Some(AttributeType::Tensor),
        attribute_type_of(5i32) == Some(AttributeType::Graph),
        attribute_type_of(6i32) == Some(AttributeType::Floats),
        attribute_type_of(7i32) == Some(AttributeType::Ints),
        attribute_type_of(8i32) == Some(AttributeType::Strings),
        forall|c: i32| (c < 0 || c > 14) ==> #[trigger] attribute_type_of(c) is None,
        forall|a: i32, b: i32|
            #[trigger] attribute_type_of(a) is Some && attribute_type_of(a) == #[trigger] attribute_type_of(b) ==> a == b,
{
}

} // verus!
