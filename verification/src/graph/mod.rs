pub mod convert;
pub mod dependency;
pub mod error;
pub mod executor;
pub mod model;
pub mod objects;
pub mod op_kind;
pub mod proto;
pub mod store;
pub mod topology;
pub mod traits;

pub use objects::{DataType, Node, NodeAttrValue, NodeId, Tensor, TensorData, ValueId};
pub use op_kind::OpKind;
pub use store::Graph;
