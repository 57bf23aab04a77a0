//! The values a computation graph is made of: identifiers, tensors, node
//! attributes and nodes.

use vstd::prelude::*;
use crate::graph::op_kind::OpKind;
use crate::utils::arena::ArenaId;
use crate::utils::names::NameMap;

verus! {

/// Stable identifier for nodes in the graph.
#[derive(Debug, Clone, Copy, PartialEq, Eq, Structural, Hash)]
pub struct NodeId(pub u32);

/// Stable identifier for values (tensors) in the graph.
#[derive(Debug, Clone, Copy, PartialEq, Eq, Structural, Hash)]
pub struct ValueId(pub u32);

impl ArenaId for NodeId {
    open spec fn raw(self) -> u32 {
        self.0
    }

    fn from_u32(raw: u32) -> (id: Self) {
        NodeId(raw)
    }

    fn into_u32(self) -> (raw: u32) {
        self.0
    }
}

impl ArenaId for ValueId {
    open spec fn raw(self) -> u32 {
        self.0
    }

    fn from_u32(raw: u32) -> (id: Self) {
        ValueId(raw)
    }

    fn into_u32(self) -> (raw: u32) {
        self.0
    }
}

/// Supported data types for tensors.
#[derive(Debug, Clone, Copy, PartialEq, Eq, Structural)]
pub enum DataType {
    Float32,
    Float64,
    Int32,
    Int64,
    Uint32,
    Uint64,
    Int8,
    Uint8,
    Bool,
    String,
}

/// Container for tensor constant data. Floating-point elements are held as
/// their IEEE-754 bit patterns.
#[derive(Debug, Clone)]
pub enum TensorData {
    Float32(Vec<u32>),
    Float64(Vec<u64>),
    Int32(Vec<i32>),
    Int64(Vec<i64>),
    Uint32(Vec<u32>),
    Uint64(Vec<u64>),
    Int8(Vec<i8>),
    Uint8(Vec<u8>),
    Bool(Vec<bool>),
    String(Vec<String>),
}

/// What tensor data holds, element by element.
pub enum DataView {
    Float32(Seq<u32>),
    Float64(Seq<u64>),
    Int32(Seq<i32>),
    Int64(Seq<i64>),
    Uint32(Seq<u32>),
    Uint64(Seq<u64>),
    Int8(Seq<i8>),
    Uint8(Seq<u8>),
    Bool(Seq<bool>),
    String(Seq<Seq<char>>),
}

impl View for TensorData {
    type V = DataView;

    open spec fn view(&self) -> DataView {
        match self {
            TensorData::Float32(v) => DataView::Float32(v@),
            TensorData::Float64(v) => DataView::Float64(v@),
            TensorData::Int32(v) => DataView::Int32(v@),
            TensorData::Int64(v) => DataView::Int64(v@),
            TensorData::Uint32(v) => DataView::Uint32(v@),
            TensorData::Uint64(v) => DataView::Uint64(v@),
            TensorData::Int8(v) => DataView::Int8(v@),
            TensorData::Uint8(v) => DataView::Uint8(v@),
            TensorData::Bool(v) => DataView::Bool(v@),
            TensorData::String(v) => DataView::String(v@.map_values(|s: String| s@)),
        }
    }
}

/// Represents a tensor value in the computation graph.
#[derive(Debug, Clone)]
pub struct Tensor {
    /// Tensor name (optional)
    pub name: Option<String>,
    /// Shape of the tensor (None for unknown shape)
    pub shape: Option<Vec<i64>>,
    /// Data type of the tensor
    pub dtype: DataType,
    /// Optional constant data for initializers
    pub data: Option<TensorData>,
}

/// What a tensor holds: name, shape, element type and data.
pub struct TensorView {
    pub name: Option<Seq<char>>,
    pub shape: Option<Seq<i64>>,
    pub dtype: DataType,
    pub data: Option<DataView>,
}

/// The text of an optional string.
pub open spec fn opt_text(s: Option<String>) -> Option<Seq<char>> {
    match s {
        Some(t) => Some(t@),
        None => None,
    }
}

impl View for Tensor {
    type V = TensorView;

    open spec fn view(&self) -> TensorView {
        TensorView {
            name: opt_text(self.name),
            shape: match self.shape {
                Some(v) => Some(v@),
                None => None,
            },
            dtype: self.dtype,
            data: match self.data {
                Some(d) => Some(d@),
                None => None,
            },
        }
    }
}

impl Tensor {
    pub fn new(dtype: DataType) -> (t: Self)
        ensures
            t.name is None,
            t.shape is None,
            t.dtype == dtype,
            t.data is None,
    {
        Tensor { name: None, shape: None, dtype, data: None }
    }

    pub fn has_data(&self) -> (b: bool)
        ensures
            b == self.data is Some,
    {
        self.data.is_some()
    }

    pub fn with_name(self, name: String) -> (t: Self)
        ensures
            t.name == Some(name),
            t.shape == self.shape,
            t.dtype == self.dtype,
            t.data == self.data,
    {
        let mut t = self;
        t.name = Some(name);
        t
    }
}

/// Attribute values that can be stored in nodes. Floating-point values are
/// held as the IEEE-754 bit patterns of 64-bit floats.
#[derive(Debug, Clone)]
pub enum NodeAttrValue {
    Int(i64),
    Float(u64),
    String(String),
    Tensor(Tensor),
    /// For subgraphs
    Graph(Vec<NodeId>),
    Ints(Vec<i64>),
    Floats(Vec<u64>),
    Strings(Vec<String>),
}

/// What an attribute value holds.
pub enum AttrView {
    Int(i64),
    Float(u64),
    String(Seq<char>),
    Tensor(TensorView),
    Graph(Seq<NodeId>),
    Ints(Seq<i64>),
    Floats(Seq<u64>),
    Strings(Seq<Seq<char>>),
}

impl View for NodeAttrValue {
    type V = AttrView;

    open spec fn view(&self) -> AttrView {
        match self {
            NodeAttrValue::Int(i) => AttrView::Int(*i),
            NodeAttrValue::Float(f) => AttrView::Float(*f),
            NodeAttrValue::String(s) => AttrView::String(s@),
            NodeAttrValue::Tensor(t) => AttrView::Tensor(t@),
            NodeAttrValue::Graph(g) => AttrView::Graph(g@),
            NodeAttrValue::Ints(v) => AttrView::Ints(v@),
            NodeAttrValue::Floats(v) => AttrView::Floats(v@),
            NodeAttrValue::Strings(v) => AttrView::Strings(v@.map_values(|s: String| s@)),
        }
    }
}

/// The attributes of a node: a map from attribute names to values, each
/// name present at most once.
pub type Attributes = NameMap<NodeAttrValue>;


/// Represents a computation node in the graph.
#[derive(Debug, Clone)]
pub struct Node {
    /// Node name (optional)
    pub name: Option<String>,
    /// Operation kind
    pub op_kind: OpKind,
    /// Input tensor IDs
    pub inputs: Vec<ValueId>,
    /// Output tensor IDs
    pub outputs: Vec<ValueId>,
    /// Node attributes
    pub attributes: Attributes,
}

impl Node {
    pub fn new(op_kind: OpKind) -> (n: Self)
        ensures
            n.name is None,
            n.op_kind == op_kind,
            n.inputs@ == Seq::<ValueId>::empty(),
            n.outputs@ == Seq::<ValueId>::empty(),
            n.attributes@ == Map::<Seq<char>, NodeAttrValue>::empty(),
            n.attributes.names() == Seq::<Seq<char>>::empty(),
    {
        Node {
            name: None,
            op_kind,
            inputs: Vec::new(),
            outputs: Vec::new(),
            attributes: Attributes::new(),
        }
    }

    pub fn add_attribute(self, key: String, value: NodeAttrValue) -> (n: Self)
        ensures
            n.name == self.name,
            n.op_kind == self.op_kind,
            n.inputs == self.inputs,
            n.outputs == self.outputs,
            n.attributes@ == self.attributes@.insert(key@, value),
    {
        let mut n = self;
        n.attributes.insert(key, value);
        n
    }

    pub fn with_inputs(self, inputs: Vec<ValueId>) -> (n: Self)
        ensures
            n.name == self.name,
            n.op_kind == self.op_kind,
            n.inputs == inputs,
            n.outputs == self.outputs,
            n.attributes == self.attributes,
    {
        let mut n = self;
        n.inputs = inputs;
        n
    }

    pub fn with_outputs(self, outputs: Vec<ValueId>) -> (n: Self)
        ensures
            n.name == self.name,
            n.op_kind == self.op_kind,
            n.inputs == self.inputs,
            n.outputs == outputs,
            n.attributes == self.attributes,
    {
        let mut n = self;
        n.outputs = outputs;
        n
    }
}


} // verus!
