//! Verified core of an ONNX graph optimizer: slot arenas, the computation
//! graph and its construction from ONNX descriptions, graph rewriting
//! passes, and their orchestration to a fixed point.

pub mod executor;
pub mod graph;
pub mod passes;
pub mod utils;

pub use executor::composer::{ComposerConfig, OptimizationComposer, OptimizationStatistics};
pub use graph::error::GraphError;
pub use graph::proto::{
    AttributeProto, AttributeType, Dimension, DimensionValue, GraphProto, ModelProto, NodeProto,
    ProtoDataType, TensorProto, TensorShapeProto, TensorTypeProto, TypeProto, TypeValue,
    ValueInfoProto,
};
pub use graph::{DataType, Graph, Node, NodeAttrValue, NodeId, OpKind, Tensor, ValueId};
pub use passes::eliminations::{EliminateIdentity, EliminateNopConcat, EliminateNopTranspose};
pub use passes::manager::{Pass, PassManager};
pub use passes::traits::OptimizationPass;
pub use utils::config::{OptimizationConfig, OptimizationConfigBuilder};
pub use utils::error::OnnxOptError;
