//! The kinds of operation a graph node performs, and their ONNX names.

use vstd::prelude::*;
use crate::utils::text::str_eq;

verus! {

/// Enumeration of all supported operation types.
#[derive(Debug, Clone, PartialEq)]
pub enum OpKind {
    // Arithmetic operations
    Add,
    Sub,
    Mul,
    Div,

    // Neural network layers
    Conv,
    BatchNormalization,
    Relu,
    Sigmoid,
    Tanh,

    // Shape operations
    Reshape,
    Transpose,
    Concat,
    Split,

    // Pooling operations
    MaxPool,
    AveragePool,
    GlobalAveragePool,

    // Matrix operations
    MatMul,
    Gemm,

    // Utility operations
    Identity,
    Dropout,
    Constant,

    // Reduction operations
    ReduceSum,
    ReduceMean,
    ReduceMax,
    ReduceMin,

    // Logical operations
    And,
    Or,
    Not,

    // Comparison operations
    Equal,
    Greater,
    Less,

    /// Any operation without a variant of its own, by its ONNX name.
    Unknown(String),
}

/// The ONNX operator name of each named kind; `None` for `Unknown`.
pub open spec fn known_op_name(k: OpKind) -> Option<Seq<char>> {
    match k {
        OpKind::Add => Some("Add"@),
        OpKind::Sub => Some("Sub"@),
        OpKind::Mul => Some("Mul"@),
        OpKind::Div => Some("Div"@),
        OpKind::Conv => Some("Conv"@),
        OpKind::BatchNormalization => Some("BatchNormalization"@),
        OpKind::Relu => Some("Relu"@),
        OpKind::Sigmoid => Some("Sigmoid"@),
        OpKind::Tanh => Some("Tanh"@),
        OpKind::Reshape => Some("Reshape"@),
        OpKind::Transpose => Some("Transpose"@),
        OpKind::Concat => Some("Concat"@),
        OpKind::Split => Some("Split"@),
        OpKind::MaxPool => Some("MaxPool"@),
        OpKind::AveragePool => Some("AveragePool"@),
        OpKind::GlobalAveragePool => Some("GlobalAveragePool"@),
        OpKind::MatMul => Some("MatMul"@),
        OpKind::Gemm => Some("Gemm"@),
        OpKind::Identity => Some("Identity"@),
        OpKind::Dropout => Some("Dropout"@),
        OpKind::Constant => Some("Constant"@),
        OpKind::ReduceSum => Some("ReduceSum"@),
        OpKind::ReduceMean => Some("ReduceMean"@),
        OpKind::ReduceMax => Some("ReduceMax"@),
        OpKind::ReduceMin => Some("ReduceMin"@),
        OpKind::And => Some("And"@),
        OpKind::Or => Some("Or"@),
        OpKind::Not => Some("Not"@),
        OpKind::Equal => Some("Equal"@),
        OpKind::Greater => Some("Greater"@),
        OpKind::Less => Some("Less"@),
        OpKind::Unknown(_) => None,
    }
}

/// The ONNX operator name of a kind: its own name, or the name an unknown
/// kind carries.
pub open spec fn op_name(k: OpKind) -> Seq<char> {
    match k {
        OpKind::Unknown(s) => s@,
        _ => known_op_name(k)->Some_0,
    }
}

/// The named kind whose ONNX name is `s`, if there is one.
pub open spec fn known_op(s: Seq<char>) -> Option<OpKind> {
    if s == "Add"@ {
        Some(OpKind::Add)
    } else if s == "Sub"@ {
        Some(OpKind::Sub)
    } else if s == "Mul"@ {
        Some(OpKind::Mul)
    } else if s == "Div"@ {
        Some(OpKind::Div)
    } else if s == "Conv"@ {
        Some(OpKind::Conv)
    } else if s == "BatchNormalization"@ {
        Some(OpKind::BatchNormalization)
    } else if s == "Relu"@ {
        Some(OpKind::Relu)
    } else if s == "Sigmoid"@ {
        Some(OpKind::Sigmoid)
    } else if s == "Tanh"@ {
        Some(OpKind::Tanh)
    } else if s == "Reshape"@ {
        Some(OpKind::Reshape)
    } else if s == "Transpose"@ {
        Some(OpKind::Transpose)
    } else if s == "Concat"@ {
        Some(OpKind::Concat)
    } else if s == "Split"@ {
        Some(OpKind::Split)
    } else if s == "MaxPool"@ {
        Some(OpKind::MaxPool)
    } else if s == "AveragePool"@ {
        Some(OpKind::AveragePool)
    } else if s == "GlobalAveragePool"@ {
        Some(OpKind::GlobalAveragePool)
    } else if s == "MatMul"@ {
        Some(OpKind::MatMul)
    } else if s == "Gemm"@ {
        Some(OpKind::Gemm)
    } else if s == "Identity"@ {
        Some(OpKind::Identity)
    } else if s == "Dropout"@ {
        Some(OpKind::Dropout)
    } else if s == "Constant"@ {
        Some(OpKind::Constant)
    } else if s == "ReduceSum"@ {
        Some(OpKind::ReduceSum)
    } else if s == "ReduceMean"@ {
        Some(OpKind::ReduceMean)
    } else if s == "ReduceMax"@ {
        Some(OpKind::ReduceMax)
    } else if s == "ReduceMin"@ {
        Some(OpKind::ReduceMin)
    } else if s == "And"@ {
        Some(OpKind::And)
    } else if s == "Or"@ {
        Some(OpKind::Or)
    } else if s == "Not"@ {
        Some(OpKind::Not)
    } else if s == "Equal"@ {
        Some(OpKind::Equal)
    } else if s == "Greater"@ {
        Some(OpKind::Greater)
    } else if s == "Less"@ {
        Some(OpKind::Less)
    } else {
        None
    }
}

/// Every named kind is found again from its name.
pub proof fn lemma_known_op_name_roundtrip(k: OpKind)
    requires
        !(k is Unknown),
    ensures
        known_op(op_name(k)) == Some(k),
{
    match k {
        OpKind::Add => {
            reveal_strlit("Add");
        },
        OpKind::Sub => {
            reveal_strlit("Sub");
            reveal_strlit("Add");
            assert("Sub"@[0] != "Add"@[0]);
        },
        OpKind::Mul => {
            reveal_strlit("Mul");
            reveal_strlit("Add");
            assert("Mul"@[0] != "Add"@[0]);
            reveal_strlit("Sub");
            assert("Mul"@[0] != "Sub"@[0]);
        },
        OpKind::Div => {
            reveal_strlit("Div");
            reveal_strlit("Add");
            assert("Div"@[0] != "Add"@[0]);
            reveal_strlit("Sub");
            assert("Div"@[0] != "Sub"@[0]);
            reveal_strlit("Mul");
            assert("Div"@[0] != "Mul"@[0]);
        },
        OpKind::Conv => {
            reveal_strlit("Conv");
            reveal_strlit("Add");
            assert("Conv"@.len() != "Add"@.len());
            reveal_strlit("Sub");
            assert("Conv"@.len() != "Sub"@.len());
            reveal_strlit("Mul");
            assert("Conv"@.len() != "Mul"@.len());
            reveal_strlit("Div");
            assert("Conv"@.len() != "Div"@.len());
        },
        OpKind::BatchNormalization => {
            reveal_strlit("BatchNormalization");
            reveal_strlit("Add");
            assert("BatchNormalization"@.len() != "Add"@.len());
            reveal_strlit("Sub");
            assert("BatchNormalization"@.len() != "Sub"@.len());
            reveal_strlit("Mul");
            assert("BatchNormalization"@.len() != "Mul"@.len());
            reveal_strlit("Div");
            assert("BatchNormalization"@.len() != "Div"@.len());
            reveal_strlit("Conv");
            assert("BatchNormalization"@.len() != "Conv"@.len());
        },
        OpKind::Relu => {
            reveal_strlit("Relu");
            reveal_strlit("Add");
            assert("Relu"@.len() != "Add"@.len());
            reveal_strlit("Sub");
            assert("Relu"@.len() != "Sub"@.len());
            reveal_strlit("Mul");
            assert("Relu"@.len() != "Mul"@.len());
            reveal_strlit("Div");
            assert("Relu"@.len() != "Div"@.len());
            reveal_strlit("Conv");
            assert("Relu"@[0] != "Conv"@[0]);
            reveal_strlit("BatchNormalization");
            assert("Relu"@.len() != "BatchNormalization"@.len());
        },
        OpKind::Sigmoid => {
            reveal_strlit("Sigmoid");
            reveal_strlit("Add");
            assert("Sigmoid"@.len() != "Add"@.len());
            reveal_strlit("Sub");
            assert("Sigmoid"@.len() != "Sub"@.len());
            reveal_strlit("Mul");
            assert("Sigmoid"@.len() != "Mul"@.len());
            reveal_strlit("Div");
            assert("Sigmoid"@.len() != "Div"@.len());
            reveal_strlit("Conv");
            assert("Sigmoid"@.len() != "Conv"@.len());
            reveal_strlit("BatchNormalization");
            assert("Sigmoid"@.len() != "BatchNormalization"@.len());
            reveal_strlit("Relu");
            assert("Sigmoid"@.len() != "Relu"@.len());
        },
        OpKind::Tanh => {
            reveal_strlit("Tanh");
            reveal_strlit("Add");
            assert("Tanh"@.len() != "Add"@.len());
            reveal_strlit("Sub");
            assert("Tanh"@.len() != "Sub"@.len());
            reveal_strlit("Mul");
            assert("Tanh"@.len() != "Mul"@.len());
            reveal_strlit("Div");
            assert("Tanh"@.len() != "Div"@.len());
            reveal_strlit("Conv");
            assert("Tanh"@[0] != "Conv"@[0]);
            reveal_strlit("BatchNormalization");
            assert("Tanh"@.len() != "BatchNormalization"@.len());
            reveal_strlit("Relu");
            assert("Tanh"@[0] != "Relu"@[0]);
            reveal_strlit("Sigmoid");
            assert("Tanh"@.len() != "Sigmoid"@.len());
        },
        OpKind::Reshape => {
            reveal_strlit("Reshape");
            reveal_strlit("Add");
            assert("Reshape"@.len() != "Add"@.len());
            reveal_strlit("Sub");
            assert("Reshape"@.len() != "Sub"@.len());
            reveal_strlit("Mul");
            assert("Reshape"@.len() != "Mul"@.len());
            reveal_strlit("Div");
            assert("Reshape"@.len() != "Div"@.len());
            reveal_strlit("Conv");
            assert("Reshape"@.len() != "Conv"@.len());
            reveal_strlit("BatchNormalization");
            assert("Reshape"@.len() != "BatchNormalization"@.len());
            reveal_strlit("Relu");
            assert("Reshape"@.len() != "Relu"@.len());
            reveal_strlit("Sigmoid");
            assert("Reshape"@[0] != "Sigmoid"@[0]);
            reveal_strlit("Tanh");
            assert("Reshape"@.len() != "Tanh"@.len());
        },
        OpKind::Transpose => {
            reveal_strlit("Transpose");
            reveal_strlit("Add");
            assert("Transpose"@.len() != "Add"@.len());
            reveal_strlit("Sub");
            assert("Transpose"@.len() != "Sub"@.len());
            reveal_strlit("Mul");
            assert("Transpose"@.len() != "Mul"@.len());
            reveal_strlit("Div");
            assert("Transpose"@.len() != "Div"@.len());
            reveal_strlit("Conv");
            assert("Transpose"@.len() != "Conv"@.len());
            reveal_strlit("BatchNormalization");
            assert("Transpose"@.len() != "BatchNormalization"@.len());
            reveal_strlit("Relu");
            assert("Transpose"@.len() != "Relu"@.len());
            reveal_strlit("Sigmoid");
            assert("Transpose"@.len() != "Sigmoid"@.len());
            reveal_strlit("Tanh");
            assert("Transpose"@.len() != "Tanh"@.len());
            reveal_strlit("Reshape");
            assert("Transpose"@.len() != "Reshape"@.len());
        },
        OpKind::Concat => {
            reveal_strlit("Concat");
            reveal_strlit("Add");
            assert("Concat"@.len() != "Add"@.len());
            reveal_strlit("Sub");
            assert("Concat"@.len() != "Sub"@.len());
            reveal_strlit("Mul");
            assert("Concat"@.len() != "Mul"@.len());
            reveal_strlit("Div");
            assert("Concat"@.len() != "Div"@.len());
            reveal_strlit("Conv");
            assert("Concat"@.len() != "Conv"@.len());
            reveal_strlit("BatchNormalization");
            assert("Concat"@.len() != "BatchNormalization"@.len());
            reveal_strlit("Relu");
            assert("Concat"@.len() != "Relu"@.len());
            reveal_strlit("Sigmoid");
            assert("Concat"@.len() != "Sigmoid"@.len());
            reveal_strlit("Tanh");
            assert("Concat"@.len() != "Tanh"@.len());
            reveal_strlit("Reshape");
            assert("Concat"@.len() != "Reshape"@.len());
            reveal_strlit("Transpose");
            assert("Concat"@.len() != "Transpose"@.len());
        },
        OpKind::Split => {
            reveal_strlit("Split");
            reveal_strlit("Add");
            assert("Split"@.len() != "Add"@.len());
            reveal_strlit("Sub");
            assert("Split"@.len() != "Sub"@.len());
            reveal_strlit("Mul");
            assert("Split"@.len() != "Mul"@.len());
            reveal_strlit("Div");
            assert("Split"@.len() != "Div"@.len());
            reveal_strlit("Conv");
            assert("Split"@.len() != "Conv"@.len());
            reveal_strlit("BatchNormalization");
            assert("Split"@.len() != "BatchNormalization"@.len());
            reveal_strlit("Relu");
            assert("Split"@.len() != "Relu"@.len());
            reveal_strlit("Sigmoid");
            assert("Split"@.len() != "Sigmoid"@.len());
            reveal_strlit("Tanh");
            assert("Split"@.len() != "Tanh"@.len());
            reveal_strlit("Reshape");
            assert("Split"@.len() != "Reshape"@.len());
            reveal_strlit("Transpose");
            assert("Split"@.len() != "Transpose"@.len());
            reveal_strlit("Concat");
            assert("Split"@.len() != "Concat"@.len());
        },
        OpKind::MaxPool => {
            reveal_strlit("MaxPool");
            reveal_strlit("Add");
            assert("MaxPool"@.len() != "Add"@.len());
            reveal_strlit("Sub");
            assert("MaxPool"@.len() != "Sub"@.len());
            reveal_strlit("Mul");
            assert("MaxPool"@.len() != "Mul"@.len());
            reveal_strlit("Div");
            assert("MaxPool"@.len() != "Div"@.len());
            reveal_strlit("Conv");
            assert("MaxPool"@.len() != "Conv"@.len());
            reveal_strlit("BatchNormalization");
            assert("MaxPool"@.len() != "BatchNormalization"@.len());
            reveal_strlit("Relu");
            assert("MaxPool"@.len() != "Relu"@.len());
            reveal_strlit("Sigmoid");
            assert("MaxPool"@[0] != "Sigmoid"@[0]);
            reveal_strlit("Tanh");
            assert("MaxPool"@.len() != "Tanh"@.len());
            reveal_strlit("Reshape");
            assert("MaxPool"@[0] != "Reshape"@[0]);
            reveal_strlit("Transpose");
            assert("MaxPool"@.len() != "Transpose"@.len());
            reveal_strlit("Concat");
            assert("MaxPool"@.len() != "Concat"@.len());
            reveal_strlit("Split");
            assert("MaxPool"@.len() != "Split"@.len());
        },
        OpKind::AveragePool => {
            reveal_strlit("AveragePool");
            reveal_strlit("Add");
            assert("AveragePool"@.len() != "Add"@.len());
            reveal_strlit("Sub");
            assert("AveragePool"@.len() != "Sub"@.len());
            reveal_strlit("Mul");
            assert("AveragePool"@.len() != "Mul"@.len());
            reveal_strlit("Div");
            assert("AveragePool"@.len() != "Div"@.len());
            reveal_strlit("Conv");
            assert("AveragePool"@.len() != "Conv"@.len());
            reveal_strlit("BatchNormalization");
            assert("AveragePool"@.len() != "BatchNormalization"@.len());
            reveal_strlit("Relu");
            assert("AveragePool"@.len() != "Relu"@.len());
            reveal_strlit("Sigmoid");
            assert("AveragePool"@.len() != "Sigmoid"@.len());
            reveal_strlit("Tanh");
            assert("AveragePool"@.len() != "Tanh"@.len());
            reveal_strlit("Reshape");
            assert("AveragePool"@.len() != "Reshape"@.len());
            reveal_strlit("Transpose");
            assert("AveragePool"@.len() != "Transpose"@.len());
            reveal_strlit("Concat");
            assert("AveragePool"@.len() != "Concat"@.len());
            reveal_strlit("Split");
            assert("AveragePool"@.len() != "Split"@.len());
            reveal_strlit("MaxPool");
            assert("AveragePool"@.len() != "MaxPool"@.len());
        },
        OpKind::GlobalAveragePool => {
            reveal_strlit("GlobalAveragePool");
            reveal_strlit("Add");
            assert("GlobalAveragePool"@.len() != "Add"@.len());
            reveal_strlit("Sub");
            assert("GlobalAveragePool"@.len() != "Sub"@.len());
            reveal_strlit("Mul");
            assert("GlobalAveragePool"@.len() != "Mul"@.len());
            reveal_strlit("Div");
            assert("GlobalAveragePool"@.len() != "Div"@.len());
            reveal_strlit("Conv");
            assert("GlobalAveragePool"@.len() != "Conv"@.len());
            reveal_strlit("BatchNormalization");
            assert("GlobalAveragePool"@.len() != "BatchNormalization"@.len());
            reveal_strlit("Relu");
            assert("GlobalAveragePool"@.len() != "Relu"@.len());
            reveal_strlit("Sigmoid");
            assert("GlobalAveragePool"@.len() != "Sigmoid"@.len());
            reveal_strlit("Tanh");
            assert("GlobalAveragePool"@.len() != "Tanh"@.len());
            reveal_strlit("Reshape");
            assert("GlobalAveragePool"@.len() != "Reshape"@.len());
            reveal_strlit("Transpose");
            assert("GlobalAveragePool"@.len() != "Transpose"@.len());
            reveal_strlit("Concat");
            assert("GlobalAveragePool"@.len() != "Concat"@.len());
            reveal_strlit("Split");
            assert("GlobalAveragePool"@.len() != "Split"@.len());
            reveal_strlit("MaxPool");
            assert("GlobalAveragePool"@.len() != "MaxPool"@.len());
            reveal_strlit("AveragePool");
            assert("GlobalAveragePool"@.len() != "AveragePool"@.len());
        },
        OpKind::MatMul => {
            reveal_strlit("MatMul");
            reveal_strlit("Add");
            assert("MatMul"@.len() != "Add"@.len());
            reveal_strlit("Sub");
            assert("MatMul"@.len() != "Sub"@.len());
            reveal_strlit("Mul");
            assert("MatMul"@.len() != "Mul"@.len());
            reveal_strlit("Div");
            assert("MatMul"@.len() != "Div"@.len());
            reveal_strlit("Conv");
            assert("MatMul"@.len() != "Conv"@.len());
            reveal_strlit("BatchNormalization");
            assert("MatMul"@.len() != "BatchNormalization"@.len());
            reveal_strlit("Relu");
            assert("MatMul"@.len() != "Relu"@.len());
            reveal_strlit("Sigmoid");
            assert("MatMul"@.len() != "Sigmoid"@.len());
            reveal_strlit("Tanh");
            assert("MatMul"@.len() != "Tanh"@.len());
            reveal_strlit("Reshape");
            assert("MatMul"@.len() != "Reshape"@.len());
            reveal_strlit("Transpose");
            assert("MatMul"@.len() != "Transpose"@.len());
            reveal_strlit("Concat");
            assert("MatMul"@[0] != "Concat"@[0]);
            reveal_strlit("Split");
            assert("MatMul"@.len() != "Split"@.len());
            reveal_strlit("MaxPool");
            assert("MatMul"@.len() != "MaxPool"@.len());
            reveal_strlit("AveragePool");
            assert("MatMul"@.len() != "AveragePool"@.len());
            reveal_strlit("GlobalAveragePool");
            assert("MatMul"@.len() != "GlobalAveragePool"@.len());
        },
        OpKind::Gemm => {
            reveal_strlit("Gemm");
            reveal_strlit("Add");
            assert("Gemm"@.len() != "Add"@.len());
            reveal_strlit("Sub");
            assert("Gemm"@.len() != "Sub"@.len());
            reveal_strlit("Mul");
            assert("Gemm"@.len() != "Mul"@.len());
            reveal_strlit("Div");
            assert("Gemm"@.len() != "Div"@.len());
            reveal_strlit("Conv");
            assert("Gemm"@[0] != "Conv"@[0]);
            reveal_strlit("BatchNormalization");
            assert("Gemm"@.len() != "BatchNormalization"@.len());
            reveal_strlit("Relu");
            assert("Gemm"@[0] != "Relu"@[0]);
            reveal_strlit("Sigmoid");
            assert("Gemm"@.len() != "Sigmoid"@.len());
            reveal_strlit("Tanh");
            assert("Gemm"@[0] != "Tanh"@[0]);
            reveal_strlit("Reshape");
            assert("Gemm"@.len() != "Reshape"@.len());
            reveal_strlit("Transpose");
            assert("Gemm"@.len() != "Transpose"@.len());
            reveal_strlit("Concat");
            assert("Gemm"@.len() != "Concat"@.len());
            reveal_strlit("Split");
            assert("Gemm"@.len() != "Split"@.len());
            reveal_strlit("MaxPool");
            assert("Gemm"@.len() != "MaxPool"@.len());
            reveal_strlit("AveragePool");
            assert("Gemm"@.len() != "AveragePool"@.len());
            reveal_strlit("GlobalAveragePool");
            assert("Gemm"@.len() != "GlobalAveragePool"@.len());
            reveal_strlit("MatMul");
            assert("Gemm"@.len() != "MatMul"@.len());
        },
        OpKind::Identity => {
            reveal_strlit("Identity");
            reveal_strlit("Add");
            assert("Identity"@.len() != "Add"@.len());
            reveal_strlit("Sub");
            assert("Identity"@.len() != "Sub"@.len());
            reveal_strlit("Mul");
            assert("Identity"@.len() != "Mul"@.len());
            reveal_strlit("Div");
            assert("Identity"@.len() != "Div"@.len());
            reveal_strlit("Conv");
            assert("Identity"@.len() != "Conv"@.len());
            reveal_strlit("BatchNormalization");
            assert("Identity"@.len() != "BatchNormalization"@.len());
            reveal_strlit("Relu");
            assert("Identity"@.len() != "Relu"@.len());
            reveal_strlit("Sigmoid");
            assert("Identity"@.len() != "Sigmoid"@.len());
            reveal_strlit("Tanh");
            assert("Identity"@.len() != "Tanh"@.len());
            reveal_strlit("Reshape");
            assert("Identity"@.len() != "Reshape"@.len());
            reveal_strlit("Transpose");
            assert("Identity"@.len() != "Transpose"@.len());
            reveal_strlit("Concat");
            assert("Identity"@.len() != "Concat"@.len());
            reveal_strlit("Split");
            assert("Identity"@.len() != "Split"@.len());
            reveal_strlit("MaxPool");
            assert("Identity"@.len() != "MaxPool"@.len());
            reveal_strlit("AveragePool");
            assert("Identity"@.len() != "AveragePool"@.len());
            reveal_strlit("GlobalAveragePool");
            assert("Identity"@.len() != "GlobalAveragePool"@.len());
            reveal_strlit("MatMul");
            assert("Identity"@.len() != "MatMul"@.len());
            reveal_strlit("Gemm");
            assert("Identity"@.len() != "Gemm"@.len());
        },
        OpKind::Dropout => {
            reveal_strlit("Dropout");
            reveal_strlit("Add");
            assert("Dropout"@.len() != "Add"@.len());
            reveal_strlit("Sub");
            assert("Dropout"@.len() != "Sub"@.len());
            reveal_strlit("Mul");
            assert("Dropout"@.len() != "Mul"@.len());
            reveal_strlit("Div");
            assert("Dropout"@.len() != "Div"@.len());
            reveal_strlit("Conv");
            assert("Dropout"@.len() != "Conv"@.len());
            reveal_strlit("BatchNormalization");
            assert("Dropout"@.len() != "BatchNormalization"@.len());
            reveal_strlit("Relu");
            assert("Dropout"@.len() != "Relu"@.len());
            reveal_strlit("Sigmoid");
            assert("Dropout"@[0] != "Sigmoid"@[0]);
            reveal_strlit("Tanh");
            assert("Dropout"@.len() != "Tanh"@.len());
            reveal_strlit("Reshape");
            assert("Dropout"@[0] != "Reshape"@[0]);
            reveal_strlit("Transpose");
            assert("Dropout"@.len() != "Transpose"@.len());
            reveal_strlit("Concat");
            assert("Dropout"@.len() != "Concat"@.len());
            reveal_strlit("Split");
            assert("Dropout"@.len() != "Split"@.len());
            reveal_strlit("MaxPool");
            assert("Dropout"@[0] != "MaxPool"@[0]);
            reveal_strlit("AveragePool");
            assert("Dropout"@.len() != "AveragePool"@.len());
            reveal_strlit("GlobalAveragePool");
            assert("Dropout"@.len() != "GlobalAveragePool"@.len());
            reveal_strlit("MatMul");
            assert("Dropout"@.len() != "MatMul"@.len());
            reveal_strlit("Gemm");
            assert("Dropout"@.len() != "Gemm"@.len());
            reveal_strlit("Identity");
            assert("Dropout"@.len() != "Identity"@.len());
        },
        OpKind::Constant => {
            reveal_strlit("Constant");
            reveal_strlit("Add");
            assert("Constant"@.len() != "Add"@.len());
            reveal_strlit("Sub");
            assert("Constant"@.len() != "Sub"@.len());
            reveal_strlit("Mul");
            assert("Constant"@.len() != "Mul"@.len());
            reveal_strlit("Div");
            assert("Constant"@.len() != "Div"@.len());
            reveal_strlit("Conv");
            assert("Constant"@.len() != "Conv"@.len());
            reveal_strlit("BatchNormalization");
            assert("Constant"@.len() != "BatchNormalization"@.len());
            reveal_strlit("Relu");
            assert("Constant"@.len() != "Relu"@.len());
            reveal_strlit("Sigmoid");
            assert("Constant"@.len() != "Sigmoid"@.len());
            reveal_strlit("Tanh");
            assert("Constant"@.len() != "Tanh"@.len());
            reveal_strlit("Reshape");
            assert("Constant"@.len() != "Reshape"@.len());
            reveal_strlit("Transpose");
            assert("Constant"@.len() != "Transpose"@.len());
            reveal_strlit("Concat");
            assert("Constant"@.len() != "Concat"@.len());
            reveal_strlit("Split");
            assert("Constant"@.len() != "Split"@.len());
            reveal_strlit("MaxPool");
            assert("Constant"@.len() != "MaxPool"@.len());
            reveal_strlit("AveragePool");
            assert("Constant"@.len() != "AveragePool"@.len());
            reveal_strlit("GlobalAveragePool");
            assert("Constant"@.len() != "GlobalAveragePool"@.len());
            reveal_strlit("MatMul");
            assert("Constant"@.len() != "MatMul"@.len());
            reveal_strlit("Gemm");
            assert("Constant"@.len() != "Gemm"@.len());
            reveal_strlit("Identity");
            assert("Constant"@[0] != "Identity"@[0]);
            reveal_strlit("Dropout");
            assert("Constant"@.len() != "Dropout"@.len());
        },
        OpKind::ReduceSum => {
            reveal_strlit("ReduceSum");
            reveal_strlit("Add");
            assert("ReduceSum"@.len() != "Add"@.len());
            reveal_strlit("Sub");
            assert("ReduceSum"@.len() != "Sub"@.len());
            reveal_strlit("Mul");
            assert("ReduceSum"@.len() != "Mul"@.len());
            reveal_strlit("Div");
            assert("ReduceSum"@.len() != "Div"@.len());
            reveal_strlit("Conv");
            assert("ReduceSum"@.len() != "Conv"@.len());
            reveal_strlit("BatchNormalization");
            assert("ReduceSum"@.len() != "BatchNormalization"@.len());
            reveal_strlit("Relu");
            assert("ReduceSum"@.len() != "Relu"@.len());
            reveal_strlit("Sigmoid");
            assert("ReduceSum"@.len() != "Sigmoid"@.len());
            reveal_strlit("Tanh");
            assert("ReduceSum"@.len() != "Tanh"@.len());
            reveal_strlit("Reshape");
            assert("ReduceSum"@.len() != "Reshape"@.len());
            reveal_strlit("Transpose");
            assert("ReduceSum"@[0] != "Transpose"@[0]);
            reveal_strlit("Concat");
            assert("ReduceSum"@.len() != "Concat"@.len());
            reveal_strlit("Split");
            assert("ReduceSum"@.len() != "Split"@.len());
            reveal_strlit("MaxPool");
            assert("ReduceSum"@.len() != "MaxPool"@.len());
            reveal_strlit("AveragePool");
            assert("ReduceSum"@.len() != "AveragePool"@.len());
            reveal_strlit("GlobalAveragePool");
            assert("ReduceSum"@.len() != "GlobalAveragePool"@.len());
            reveal_strlit("MatMul");
            assert("ReduceSum"@.len() != "MatMul"@.len());
            reveal_strlit("Gemm");
            assert("ReduceSum"@.len() != "Gemm"@.len());
            reveal_strlit("Identity");
            assert("ReduceSum"@.len() != "Identity"@.len());
            reveal_strlit("Dropout");
            assert("ReduceSum"@.len() != "Dropout"@.len());
            reveal_strlit("Constant");
            assert("ReduceSum"@.len() != "Constant"@.len());
        },
        OpKind::ReduceMean => {
            reveal_strlit("ReduceMean");
            reveal_strlit("Add");
            assert("ReduceMean"@.len() != "Add"@.len());
            reveal_strlit("Sub");
            assert("ReduceMean"@.len() != "Sub"@.len());
            reveal_strlit("Mul");
            assert("ReduceMean"@.len() != "Mul"@.len());
            reveal_strlit("Div");
            assert("ReduceMean"@.len() != "Div"@.len());
            reveal_strlit("Conv");
            assert("ReduceMean"@.len() != "Conv"@.len());
            reveal_strlit("BatchNormalization");
            assert("ReduceMean"@.len() != "BatchNormalization"@.len());
            reveal_strlit("Relu");
            assert("ReduceMean"@.len() != "Relu"@.len());
            reveal_strlit("Sigmoid");
            assert("ReduceMean"@.len() != "Sigmoid"@.len());
            reveal_strlit("Tanh");
            assert("ReduceMean"@.len() != "Tanh"@.len());
            reveal_strlit("Reshape");
            assert("ReduceMean"@.len() != "Reshape"@.len());
            reveal_strlit("Transpose");
            assert("ReduceMean"@.len() != "Transpose"@.len());
            reveal_strlit("Concat");
            assert("ReduceMean"@.len() != "Concat"@.len());
            reveal_strlit("Split");
            assert("ReduceMean"@.len() != "Split"@.len());
            reveal_strlit("MaxPool");
            assert("ReduceMean"@.len() != "MaxPool"@.len());
            reveal_strlit("AveragePool");
            assert("ReduceMean"@.len() != "AveragePool"@.len());
            reveal_strlit("GlobalAveragePool");
            assert("ReduceMean"@.len() != "GlobalAveragePool"@.len());
            reveal_strlit("MatMul");
            assert("ReduceMean"@.len() != "MatMul"@.len());
            reveal_strlit("Gemm");
            assert("ReduceMean"@.len() != "Gemm"@.len());
            reveal_strlit("Identity");
            assert("ReduceMean"@.len() != "Identity"@.len());
            reveal_strlit("Dropout");
            assert("ReduceMean"@.len() != "Dropout"@.len());
            reveal_strlit("Constant");
            assert("ReduceMean"@.len() != "Constant"@.len());
            reveal_strlit("ReduceSum");
            assert("ReduceMean"@.len() != "ReduceSum"@.len());
        },
        OpKind::ReduceMax => {
            reveal_strlit("ReduceMax");
            reveal_strlit("Add");
            assert("ReduceMax"@.len() != "Add"@.len());
            reveal_strlit("Sub");
            assert("ReduceMax"@.len() != "Sub"@.len());
            reveal_strlit("Mul");
            assert("ReduceMax"@.len() != "Mul"@.len());
            reveal_strlit("Div");
            assert("ReduceMax"@.len() != "Div"@.len());
            reveal_strlit("Conv");
            assert("ReduceMax"@.len() != "Conv"@.len());
            reveal_strlit("BatchNormalization");
            assert("ReduceMax"@.len() != "BatchNormalization"@.len());
            reveal_strlit("Relu");
            assert("ReduceMax"@.len() != "Relu"@.len());
            reveal_strlit("Sigmoid");
            assert("ReduceMax"@.len() != "Sigmoid"@.len());
            reveal_strlit("Tanh");
            assert("ReduceMax"@.len() != "Tanh"@.len());
            reveal_strlit("Reshape");
            assert("ReduceMax"@.len() != "Reshape"@.len());
            reveal_strlit("Transpose");
            assert("ReduceMax"@[0] != "Transpose"@[0]);
            reveal_strlit("Concat");
            assert("ReduceMax"@.len() != "Concat"@.len());
            reveal_strlit("Split");
            assert("ReduceMax"@.len() != "Split"@.len());
            reveal_strlit("MaxPool");
            assert("ReduceMax"@.len() != "MaxPool"@.len());
            reveal_strlit("AveragePool");
            assert("ReduceMax"@.len() != "AveragePool"@.len());
            reveal_strlit("GlobalAveragePool");
            assert("ReduceMax"@.len() != "GlobalAveragePool"@.len());
            reveal_strlit("MatMul");
            assert("ReduceMax"@.len() != "MatMul"@.len());
            reveal_strlit("Gemm");
            assert("ReduceMax"@.len() != "Gemm"@.len());
            reveal_strlit("Identity");
            assert("ReduceMax"@.len() != "Identity"@.len());
            reveal_strlit("Dropout");
            assert("ReduceMax"@.len() != "Dropout"@.len());
            reveal_strlit("Constant");
            assert("ReduceMax"@.len() != "Constant"@.len());
            reveal_strlit("ReduceSum");
            assert("ReduceMax"@[6] != "ReduceSum"@[6]);
            reveal_strlit("ReduceMean");
            assert("ReduceMax"@.len() != "ReduceMean"@.len());
        },
        OpKind::ReduceMin => {
            reveal_strlit("ReduceMin");
            reveal_strlit("Add");
            assert("ReduceMin"@.len() != "Add"@.len());
            reveal_strlit("Sub");
            assert("ReduceMin"@.len() != "Sub"@.len());
            reveal_strlit("Mul");
            assert("ReduceMin"@.len() != "Mul"@.len());
            reveal_strlit("Div");
            assert("ReduceMin"@.len() != "Div"@.len());
            reveal_strlit("Conv");
            assert("ReduceMin"@.len() != "Conv"@.len());
            reveal_strlit("BatchNormalization");
            assert("ReduceMin"@.len() != "BatchNormalization"@.len());
            reveal_strlit("Relu");
            assert("ReduceMin"@.len() != "Relu"@.len());
            reveal_strlit("Sigmoid");
            assert("ReduceMin"@.len() != "Sigmoid"@.len());
            reveal_strlit("Tanh");
            assert("ReduceMin"@.len() != "Tanh"@.len());
            reveal_strlit("Reshape");
            assert("ReduceMin"@.len() != "Reshape"@.len());
            reveal_strlit("Transpose");
            assert("ReduceMin"@[0] != "Transpose"@[0]);
            reveal_strlit("Concat");
            assert("ReduceMin"@.len() != "Concat"@.len());
            reveal_strlit("Split");
            assert("ReduceMin"@.len() != "Split"@.len());
            reveal_strlit("MaxPool");
            assert("ReduceMin"@.len() != "MaxPool"@.len());
            reveal_strlit("AveragePool");
            assert("ReduceMin"@.len() != "AveragePool"@.len());
            reveal_strlit("GlobalAveragePool");
            assert("ReduceMin"@.len() != "GlobalAveragePool"@.len());
            reveal_strlit("MatMul");
            assert("ReduceMin"@.len() != "MatMul"@.len());
            reveal_strlit("Gemm");
            assert("ReduceMin"@.len() != "Gemm"@.len());
            reveal_strlit("Identity");
            assert("ReduceMin"@.len() != "Identity"@.len());
            reveal_strlit("Dropout");
            assert("ReduceMin"@.len() != "Dropout"@.len());
            reveal_strlit("Constant");
            assert("ReduceMin"@.len() != "Constant"@.len());
            reveal_strlit("ReduceSum");
            assert("ReduceMin"@[6] != "ReduceSum"@[6]);
            reveal_strlit("ReduceMean");
            assert("ReduceMin"@.len() != "ReduceMean"@.len());
            reveal_strlit("ReduceMax");
            assert("ReduceMin"@[7] != "ReduceMax"@[7]);
        },
        OpKind::And => {
            reveal_strlit("And");
            reveal_strlit("Add");
            assert("And"@[1] != "Add"@[1]);
            reveal_strlit("Sub");
            assert("And"@[0] != "Sub"@[0]);
            reveal_strlit("Mul");
            assert("And"@[0] != "Mul"@[0]);
            reveal_strlit("Div");
            assert("And"@[0] != "Div"@[0]);
            reveal_strlit("Conv");
            assert("And"@.len() != "Conv"@.len());
            reveal_strlit("BatchNormalization");
            assert("And"@.len() != "BatchNormalization"@.len());
            reveal_strlit("Relu");
            assert("And"@.len() != "Relu"@.len());
            reveal_strlit("Sigmoid");
            assert("And"@.len() != "Sigmoid"@.len());
            reveal_strlit("Tanh");
            assert("And"@.len() != "Tanh"@.len());
            reveal_strlit("Reshape");
            assert("And"@.len() != "Reshape"@.len());
            reveal_strlit("Transpose");
            assert("And"@.len() != "Transpose"@.len());
            reveal_strlit("Concat");
            assert("And"@.len() != "Concat"@.len());
            reveal_strlit("Split");
            assert("And"@.len() != "Split"@.len());
            reveal_strlit("MaxPool");
            assert("And"@.len() != "MaxPool"@.len());
            reveal_strlit("AveragePool");
            assert("And"@.len() != "AveragePool"@.len());
            reveal_strlit("GlobalAveragePool");
            assert("And"@.len() != "GlobalAveragePool"@.len());
            reveal_strlit("MatMul");
            assert("And"@.len() != "MatMul"@.len());
            reveal_strlit("Gemm");
            assert("And"@.len() != "Gemm"@.len());
            reveal_strlit("Identity");
            assert("And"@.len() != "Identity"@.len());
            reveal_strlit("Dropout");
            assert("And"@.len() != "Dropout"@.len());
            reveal_strlit("Constant");
            assert("And"@.len() != "Constant"@.len());
            reveal_strlit("ReduceSum");
            assert("And"@.len() != "ReduceSum"@.len());
            reveal_strlit("ReduceMean");
            assert("And"@.len() != "ReduceMean"@.len());
            reveal_strlit("ReduceMax");
            assert("And"@.len() != "ReduceMax"@.len());
            reveal_strlit("ReduceMin");
            assert("And"@.len() != "ReduceMin"@.len());
        },
        OpKind::Or => {
            reveal_strlit("Or");
            reveal_strlit("Add");
            assert("Or"@.len() != "Add"@.len());
            reveal_strlit("Sub");
            assert("Or"@.len() != "Sub"@.len());
            reveal_strlit("Mul");
            assert("Or"@.len() != "Mul"@.len());
            reveal_strlit("Div");
            assert("Or"@.len() != "Div"@.len());
            reveal_strlit("Conv");
            assert("Or"@.len() != "Conv"@.len());
            reveal_strlit("BatchNormalization");
            assert("Or"@.len() != "BatchNormalization"@.len());
            reveal_strlit("Relu");
            assert("Or"@.len() != "Relu"@.len());
            reveal_strlit("Sigmoid");
            assert("Or"@.len() != "Sigmoid"@.len());
            reveal_strlit("Tanh");
            assert("Or"@.len() != "Tanh"@.len());
            reveal_strlit("Reshape");
            assert("Or"@.len() != "Reshape"@.len());
            reveal_strlit("Transpose");
            assert("Or"@.len() != "Transpose"@.len());
            reveal_strlit("Concat");
            assert("Or"@.len() != "Concat"@.len());
            reveal_strlit("Split");
            assert("Or"@.len() != "Split"@.len());
            reveal_strlit("MaxPool");
            assert("Or"@.len() != "MaxPool"@.len());
            reveal_strlit("AveragePool");
            assert("Or"@.len() != "AveragePool"@.len());
            reveal_strlit("GlobalAveragePool");
            assert("Or"@.len() != "GlobalAveragePool"@.len());
            reveal_strlit("MatMul");
            assert("Or"@.len() != "MatMul"@.len());
            reveal_strlit("Gemm");
            assert("Or"@.len() != "Gemm"@.len());
            reveal_strlit("Identity");
            assert("Or"@.len() != "Identity"@.len());
            reveal_strlit("Dropout");
            assert("Or"@.len() != "Dropout"@.len());
            reveal_strlit("Constant");
            assert("Or"@.len() != "Constant"@.len());
            reveal_strlit("ReduceSum");
            assert("Or"@.len() != "ReduceSum"@.len());
            reveal_strlit("ReduceMean");
            assert("Or"@.len() != "ReduceMean"@.len());
            reveal_strlit("ReduceMax");
            assert("Or"@.len() != "ReduceMax"@.len());
            reveal_strlit("ReduceMin");
            assert("Or"@.len() != "ReduceMin"@.len());
            reveal_strlit("And");
            assert("Or"@.len() != "And"@.len());
        },
        OpKind::Not => {
            reveal_strlit("Not");
            reveal_strlit("Add");
            assert("Not"@[0] != "Add"@[0]);
            reveal_strlit("Sub");
            assert("Not"@[0] != "Sub"@[0]);
            reveal_strlit("Mul");
            assert("Not"@[0] != "Mul"@[0]);
            reveal_strlit("Div");
            assert("Not"@[0] != "Div"@[0]);
            reveal_strlit("Conv");
            assert("Not"@.len() != "Conv"@.len());
            reveal_strlit("BatchNormalization");
            assert("Not"@.len() != "BatchNormalization"@.len());
            reveal_strlit("Relu");
            assert("Not"@.len() != "Relu"@.len());
            reveal_strlit("Sigmoid");
            assert("Not"@.len() != "Sigmoid"@.len());
            reveal_strlit("Tanh");
            assert("Not"@.len() != "Tanh"@.len());
            reveal_strlit("Reshape");
            assert("Not"@.len() != "Reshape"@.len());
            reveal_strlit("Transpose");
            assert("Not"@.len() != "Transpose"@.len());
            reveal_strlit("Concat");
            assert("Not"@.len() != "Concat"@.len());
            reveal_strlit("Split");
            assert("Not"@.len() != "Split"@.len());
            reveal_strlit("MaxPool");
            assert("Not"@.len() != "MaxPool"@.len());
            reveal_strlit("AveragePool");
            assert("Not"@.len() != "AveragePool"@.len());
            reveal_strlit("GlobalAveragePool");
            assert("Not"@.len() != "GlobalAveragePool"@.len());
            reveal_strlit("MatMul");
            assert("Not"@.len() != "MatMul"@.len());
            reveal_strlit("Gemm");
            assert("Not"@.len() != "Gemm"@.len());
            reveal_strlit("Identity");
            assert("Not"@.len() != "Identity"@.len());
            reveal_strlit("Dropout");
            assert("Not"@.len() != "Dropout"@.len());
            reveal_strlit("Constant");
            assert("Not"@.len() != "Constant"@.len());
            reveal_strlit("ReduceSum");
            assert("Not"@.len() != "ReduceSum"@.len());
            reveal_strlit("ReduceMean");
            assert("Not"@.len() != "ReduceMean"@.len());
            reveal_strlit("ReduceMax");
            assert("Not"@.len() != "ReduceMax"@.len());
            reveal_strlit("ReduceMin");
            assert("Not"@.len() != "ReduceMin"@.len());
            reveal_strlit("And");
            assert("Not"@[0] != "And"@[0]);
            reveal_strlit("Or");
            assert("Not"@.len() != "Or"@.len());
        },
        OpKind::Equal => {
            reveal_strlit("Equal");
            reveal_strlit("Add");
            assert("Equal"@.len() != "Add"@.len());
            reveal_strlit("Sub");
            assert("Equal"@.len() != "Sub"@.len());
            reveal_strlit("Mul");
            assert("Equal"@.len() != "Mul"@.len());
            reveal_strlit("Div");
            assert("Equal"@.len() != "Div"@.len());
            reveal_strlit("Conv");
            assert("Equal"@.len() != "Conv"@.len());
            reveal_strlit("BatchNormalization");
            assert("Equal"@.len() != "BatchNormalization"@.len());
            reveal_strlit("Relu");
            assert("Equal"@.len() != "Relu"@.len());
            reveal_strlit("Sigmoid");
            assert("Equal"@.len() != "Sigmoid"@.len());
            reveal_strlit("Tanh");
            assert("Equal"@.len() != "Tanh"@.len());
            reveal_strlit("Reshape");
            assert("Equal"@.len() != "Reshape"@.len());
            reveal_strlit("Transpose");
            assert("Equal"@.len() != "Transpose"@.len());
            reveal_strlit("Concat");
            assert("Equal"@.len() != "Concat"@.len());
            reveal_strlit("Split");
            assert("Equal"@[0] != "Split"@[0]);
            reveal_strlit("MaxPool");
            assert("Equal"@.len() != "MaxPool"@.len());
            reveal_strlit("AveragePool");
            assert("Equal"@.len() != "AveragePool"@.len());
            reveal_strlit("GlobalAveragePool");
            assert("Equal"@.len() != "GlobalAveragePool"@.len());
            reveal_strlit("MatMul");
            assert("Equal"@.len() != "MatMul"@.len());
            reveal_strlit("Gemm");
            assert("Equal"@.len() != "Gemm"@.len());
            reveal_strlit("Identity");
            assert("Equal"@.len() != "Identity"@.len());
            reveal_strlit("Dropout");
            assert("Equal"@.len() != "Dropout"@.len());
            reveal_strlit("Constant");
            assert("Equal"@.len() != "Constant"@.len());
            reveal_strlit("ReduceSum");
            assert("Equal"@.len() != "ReduceSum"@.len());
            reveal_strlit("ReduceMean");
            assert("Equal"@.len() != "ReduceMean"@.len());
            reveal_strlit("ReduceMax");
            assert("Equal"@.len() != "ReduceMax"@.len());
            reveal_strlit("ReduceMin");
            assert("Equal"@.len() != "ReduceMin"@.len());
            reveal_strlit("And");
            assert("Equal"@.len() != "And"@.len());
            reveal_strlit("Or");
            assert("Equal"@.len() != "Or"@.len());
            reveal_strlit("Not");
            assert("Equal"@.len() != "Not"@.len());
        },
        OpKind::Greater => {
            reveal_strlit("Greater");
            reveal_strlit("Add");
            assert("Greater"@.len() != "Add"@.len());
            reveal_strlit("Sub");
            assert("Greater"@.len() != "Sub"@.len());
            reveal_strlit("Mul");
            assert("Greater"@.len() != "Mul"@.len());
            reveal_strlit("Div");
            assert("Greater"@.len() != "Div"@.len());
            reveal_strlit("Conv");
            assert("Greater"@.len() != "Conv"@.len());
            reveal_strlit("BatchNormalization");
            assert("Greater"@.len() != "BatchNormalization"@.len());
            reveal_strlit("Relu");
            assert("Greater"@.len() != "Relu"@.len());
            reveal_strlit("Sigmoid");
            assert("Greater"@[0] != "Sigmoid"@[0]);
            reveal_strlit("Tanh");
            assert("Greater"@.len() != "Tanh"@.len());
            reveal_strlit("Reshape");
            assert("Greater"@[0] != "Reshape"@[0]);
            reveal_strlit("Transpose");
            assert("Greater"@.len() != "Transpose"@.len());
            reveal_strlit("Concat");
            assert("Greater"@.len() != "Concat"@.len());
            reveal_strlit("Split");
            assert("Greater"@.len() != "Split"@.len());
            reveal_strlit("MaxPool");
            assert("Greater"@[0] != "MaxPool"@[0]);
            reveal_strlit("AveragePool");
            assert("Greater"@.len() != "AveragePool"@.len());
            reveal_strlit("GlobalAveragePool");
            assert("Greater"@.len() != "GlobalAveragePool"@.len());
            reveal_strlit("MatMul");
            assert("Greater"@.len() != "MatMul"@.len());
            reveal_strlit("Gemm");
            assert("Greater"@.len() != "Gemm"@.len());
            reveal_strlit("Identity");
            assert("Greater"@.len() != "Identity"@.len());
            reveal_strlit("Dropout");
            assert("Greater"@[0] != "Dropout"@[0]);
            reveal_strlit("Constant");
            assert("Greater"@.len() != "Constant"@.len());
            reveal_strlit("ReduceSum");
            assert("Greater"@.len() != "ReduceSum"@.len());
            reveal_strlit("ReduceMean");
            assert("Greater"@.len() != "ReduceMean"@.len());
            reveal_strlit("ReduceMax");
            assert("Greater"@.len() != "ReduceMax"@.len());
            reveal_strlit("ReduceMin");
            assert("Greater"@.len() != "ReduceMin"@.len());
            reveal_strlit("And");
            assert("Greater"@.len() != "And"@.len());
            reveal_strlit("Or");
            assert("Greater"@.len() != "Or"@.len());
            reveal_strlit("Not");
            assert("Greater"@.len() != "Not"@.len());
            reveal_strlit("Equal");
            assert("Greater"@.len() != "Equal"@.len());
        },
        OpKind::Less => {
            reveal_strlit("Less");
            reveal_strlit("Add");
            assert("Less"@.len() != "Add"@.len());
            reveal_strlit("Sub");
            assert("Less"@.len() != "Sub"@.len());
            reveal_strlit("Mul");
            assert("Less"@.len() != "Mul"@.len());
            reveal_strlit("Div");
            assert("Less"@.len() != "Div"@.len());
            reveal_strlit("Conv");
            assert("Less"@[0] != "Conv"@[0]);
            reveal_strlit("BatchNormalization");
            assert("Less"@.len() != "BatchNormalization"@.len());
            reveal_strlit("Relu");
            assert("Less"@[0] != "Relu"@[0]);
            reveal_strlit("Sigmoid");
            assert("Less"@.len() != "Sigmoid"@.len());
            reveal_strlit("Tanh");
            assert("Less"@[0] != "Tanh"@[0]);
            reveal_strlit("Reshape");
            assert("Less"@.len() != "Reshape"@.len());
            reveal_strlit("Transpose");
            assert("Less"@.len() != "Transpose"@.len());
            reveal_strlit("Concat");
            assert("Less"@.len() != "Concat"@.len());
            reveal_strlit("Split");
            assert("Less"@.len() != "Split"@.len());
            reveal_strlit("MaxPool");
            assert("Less"@.len() != "MaxPool"@.len());
            reveal_strlit("AveragePool");
            assert("Less"@.len() != "AveragePool"@.len());
            reveal_strlit("GlobalAveragePool");
            assert("Less"@.len() != "GlobalAveragePool"@.len());
            reveal_strlit("MatMul");
            assert("Less"@.len() != "MatMul"@.len());
            reveal_strlit("Gemm");
            assert("Less"@[0] != "Gemm"@[0]);
            reveal_strlit("Identity");
            assert("Less"@.len() != "Identity"@.len());
            reveal_strlit("Dropout");
            assert("Less"@.len() != "Dropout"@.len());
            reveal_strlit("Constant");
            assert("Less"@.len() != "Constant"@.len());
            reveal_strlit("ReduceSum");
            assert("Less"@.len() != "ReduceSum"@.len());
            reveal_strlit("ReduceMean");
            assert("Less"@.len() != "ReduceMean"@.len());
            reveal_strlit("ReduceMax");
            assert("Less"@.len() != "ReduceMax"@.len());
            reveal_strlit("ReduceMin");
            assert("Less"@.len() != "ReduceMin"@.len());
            reveal_strlit("And");
            assert("Less"@.len() != "And"@.len());
            reveal_strlit("Or");
            assert("Less"@.len() != "Or"@.len());
            reveal_strlit("Not");
            assert("Less"@.len() != "Not"@.len());
            reveal_strlit("Equal");
            assert("Less"@.len() != "Equal"@.len());
            reveal_strlit("Greater");
            assert("Less"@.len() != "Greater"@.len());
        },
        OpKind::Unknown(_) => {},
    }
}

/// A name that is found names the kind found.
pub proof fn lemma_known_op_has_name(s: Seq<char>)
    ensures
        known_op(s) matches Some(k) ==> !(k is Unknown) && op_name(k) == s,
{
}

impl OpKind {
    /// The kind named `op` in ONNX; a name without a variant of its own
    /// gives `Unknown(op)`.
    pub fn from_onnx(op: &str) -> (k: OpKind)
        ensures
            match known_op(op@) {
                Some(named) => k == named,
                None => k matches OpKind::Unknown(s) && s@ == op@,
            },
    {
        if str_eq(op, "Add") {
            return OpKind::Add;
        }
        if str_eq(op, "Sub") {
            return OpKind::Sub;
        }
        if str_eq(op, "Mul") {
            return OpKind::Mul;
        }
        if str_eq(op, "Div") {
            return OpKind::Div;
        }
        if str_eq(op, "Conv") {
            return OpKind::Conv;
        }
        if str_eq(op, "BatchNormalization") {
            return OpKind::BatchNormalization;
        }
        if str_eq(op, "Relu") {
            return OpKind::Relu;
        }
        if str_eq(op, "Sigmoid") {
            return OpKind::Sigmoid;
        }
        if str_eq(op, "Tanh") {
            return OpKind::Tanh;
        }
        if str_eq(op, "Reshape") {
            return OpKind::Reshape;
        }
        if str_eq(op, "Transpose") {
            return OpKind::Transpose;
        }
        if str_eq(op, "Concat") {
            return OpKind::Concat;
        }
        if str_eq(op, "Split") {
            return OpKind::Split;
        }
        if str_eq(op, "MaxPool") {
            return OpKind::MaxPool;
        }
        if str_eq(op, "AveragePool") {
            return OpKind::AveragePool;
        }
        if str_eq(op, "GlobalAveragePool") {
            return OpKind::GlobalAveragePool;
        }
        if str_eq(op, "MatMul") {
            return OpKind::MatMul;
        }
        if str_eq(op, "Gemm") {
            return OpKind::Gemm;
        }
        if str_eq(op, "Identity") {
            return OpKind::Identity;
        }
        if str_eq(op, "Dropout") {
            return OpKind::Dropout;
        }
        if str_eq(op, "Constant") {
            return OpKind::Constant;
        }
        if str_eq(op, "ReduceSum") {
            return OpKind::ReduceSum;
        }
        if str_eq(op, "ReduceMean") {
            return OpKind::ReduceMean;
        }
        if str_eq(op, "ReduceMax") {
            return OpKind::ReduceMax;
        }
        if str_eq(op, "ReduceMin") {
            return OpKind::ReduceMin;
        }
        if str_eq(op, "And") {
            return OpKind::And;
        }
        if str_eq(op, "Or") {
            return OpKind::Or;
        }
        if str_eq(op, "Not") {
            return OpKind::Not;
        }
        if str_eq(op, "Equal") {
            return OpKind::Equal;
        }
        if str_eq(op, "Greater") {
            return OpKind::Greater;
        }
        if str_eq(op, "Less") {
            return OpKind::Less;
        }
        OpKind::Unknown(op.to_string())
    }

    /// The ONNX name of this kind.
    pub fn as_onnx_str(&self) -> (s: &str)
        ensures
            s@ == op_name(*self),
    {
        match self {
            OpKind::Add => "Add",
            OpKind::Sub => "Sub",
            OpKind::Mul => "Mul",
            OpKind::Div => "Div",
            OpKind::Conv => "Conv",
            OpKind::BatchNormalization => "BatchNormalization",
            OpKind::Relu => "Relu",
            OpKind::Sigmoid => "Sigmoid",
            OpKind::Tanh => "Tanh",
            OpKind::Reshape => "Reshape",
            OpKind::Transpose => "Transpose",
            OpKind::Concat => "Concat",
            OpKind::Split => "Split",
            OpKind::MaxPool => "MaxPool",
            OpKind::AveragePool => "AveragePool",
            OpKind::GlobalAveragePool => "GlobalAveragePool",
            OpKind::MatMul => "MatMul",
            OpKind::Gemm => "Gemm",
            OpKind::Identity => "Identity",
            OpKind::Dropout => "Dropout",
            OpKind::Constant => "Constant",
            OpKind::ReduceSum => "ReduceSum",
            OpKind::ReduceMean => "ReduceMean",
            OpKind::ReduceMax => "ReduceMax",
            OpKind::ReduceMin => "ReduceMin",
            OpKind::And => "And",
            OpKind::Or => "Or",
            OpKind::Not => "Not",
            OpKind::Equal => "Equal",
            OpKind::Greater => "Greater",
            OpKind::Less => "Less",
            OpKind::Unknown(s) => s.as_str(),
        }
    }
}

/// Every named kind's ONNX name is the operator's own name, spelled as
/// its variant is, and reading that name gives the kind back.
pub proof fn lemma_onnx_operator_names()
    ensures
        op_name(OpKind::Add) == "Add"@ && known_op("Add"@) == Some(OpKind::Add),
        op_name(OpKind::Sub) == "Sub"@ && known_op("Sub"@) == Some(OpKind::Sub),
        op_name(OpKind::Mul) == "Mul"@ && known_op("Mul"@) == Some(OpKind::Mul),
        op_name(OpKind::Div) == "Div"@ && known_op("Div"@) == Some(OpKind::Div),
        op_name(OpKind::Conv) == "Conv"@ && known_op("Conv"@) == Some(OpKind::Conv),
        op_name(OpKind::BatchNormalization) == "BatchNormalization"@ && known_op("BatchNormalization"@) == Some(OpKind::BatchNormalization),
        op_name(OpKind::Relu) == "Relu"@ && known_op("Relu"@) == Some(OpKind::Relu),
        op_name(OpKind::Sigmoid) == "Sigmoid"@ && known_op("Sigmoid"@) == Some(OpKind::Sigmoid),
        op_name(OpKind::Tanh) == "Tanh"@ && known_op("Tanh"@) == Some(OpKind::Tanh),
        op_name(OpKind::Reshape) == "Reshape"@ && known_op("Reshape"@) == Some(OpKind::Reshape),
        op_name(OpKind::Transpose) == "Transpose"@ && known_op("Transpose"@) == Some(OpKind::Transpose),
        op_name(OpKind::Concat) == "Concat"@ && known_op("Concat"@) == Some(OpKind::Concat),
        op_name(OpKind::Split) == "Split"@ && known_op("Split"@) == Some(OpKind::Split),
        op_name(OpKind::MaxPool) == "MaxPool"@ && known_op("MaxPool"@) == Some(OpKind::MaxPool),
        op_name(OpKind::AveragePool) == "AveragePool"@ && known_op("AveragePool"@) == Some(OpKind::AveragePool),
        op_name(OpKind::GlobalAveragePool) == "GlobalAveragePool"@ && known_op("GlobalAveragePool"@) == Some(OpKind::GlobalAveragePool),
        op_name(OpKind::MatMul) == "MatMul"@ && known_op("MatMul"@) == Some(OpKind::MatMul),
        op_name(OpKind::Gemm) == "Gemm"@ && known_op("Gemm"@) == Some(OpKind::Gemm),
        op_name(OpKind::Identity) == "Identity"@ && known_op("Identity"@) == Some(OpKind::Identity),
        op_name(OpKind::Dropout) == "Dropout"@ && known_op("Dropout"@) == Some(OpKind::Dropout),
        op_name(OpKind::Constant) == "Constant"@ && known_op("Constant"@) == Some(OpKind::Constant),
        op_name(OpKind::ReduceSum) == "ReduceSum"@ && known_op("ReduceSum"@) == Some(OpKind::ReduceSum),
        op_name(OpKind::ReduceMean) == "ReduceMean"@ && known_op("ReduceMean"@) == Some(OpKind::ReduceMean),
        op_name(OpKind::ReduceMax) == "ReduceMax"@ && known_op("ReduceMax"@) == Some(OpKind::ReduceMax),
        op_name(OpKind::ReduceMin) == "ReduceMin"@ && known_op("ReduceMin"@) == Some(OpKind::ReduceMin),
        op_name(OpKind::And) == "And"@ && known_op("And"@) == Some(OpKind::And),
        op_name(OpKind::Or) == "Or"@ && known_op("Or"@) == Some(OpKind::Or),
        op_name(OpKind::Not) == "Not"@ && known_op("Not"@) == Some(OpKind::Not),
        op_name(OpKind::Equal) == "Equal"@ && known_op("Equal"@) == Some(OpKind::Equal),
        op_name(OpKind::Greater) == "Greater"@ && known_op("Greater"@) == Some(OpKind::Greater),
        op_name(OpKind::Less) == "Less"@ && known_op("Less"@) == Some(OpKind::Less),
{
    lemma_known_op_name_roundtrip(OpKind::Add);
    lemma_known_op_name_roundtrip(OpKind::Sub);
    lemma_known_op_name_roundtrip(OpKind::Mul);
    lemma_known_op_name_roundtrip(OpKind::Div);
    lemma_known_op_name_roundtrip(OpKind::Conv);
    lemma_known_op_name_roundtrip(OpKind::BatchNormalization);
    lemma_known_op_name_roundtrip(OpKind::Relu);
    lemma_known_op_name_roundtrip(OpKind::Sigmoid);
    lemma_known_op_name_roundtrip(OpKind::Tanh);
    lemma_known_op_name_roundtrip(OpKind::Reshape);
    lemma_known_op_name_roundtrip(OpKind::Transpose);
    lemma_known_op_name_roundtrip(OpKind::Concat);
    lemma_known_op_name_roundtrip(OpKind::Split);
    lemma_known_op_name_roundtrip(OpKind::MaxPool);
    lemma_known_op_name_roundtrip(OpKind::AveragePool);
    lemma_known_op_name_roundtrip(OpKind::GlobalAveragePool);
    lemma_known_op_name_roundtrip(OpKind::MatMul);
    lemma_known_op_name_roundtrip(OpKind::Gemm);
    lemma_known_op_name_roundtrip(OpKind::Identity);
    lemma_known_op_name_roundtrip(OpKind::Dropout);
    lemma_known_op_name_roundtrip(OpKind::Constant);
    lemma_known_op_name_roundtrip(OpKind::ReduceSum);
    lemma_known_op_name_roundtrip(OpKind::ReduceMean);
    lemma_known_op_name_roundtrip(OpKind::ReduceMax);
    lemma_known_op_name_roundtrip(OpKind::ReduceMin);
    lemma_known_op_name_roundtrip(OpKind::And);
    lemma_known_op_name_roundtrip(OpKind::Or);
    lemma_known_op_name_roundtrip(OpKind::Not);
    lemma_known_op_name_roundtrip(OpKind::Equal);
    lemma_known_op_name_roundtrip(OpKind::Greater);
    lemma_known_op_name_roundtrip(OpKind::Less);
}

/// Naming a kind and reading the name back gives the same kind, for every
/// kind but an `Unknown` that carries the name of a named kind.
pub proof fn lemma_onnx_name_roundtrip(k: OpKind)
    requires
        !(k is Unknown) || known_op(op_name(k)) is None,
    ensures
        match known_op(op_name(k)) {
            Some(named) => named == k,
            None => k is Unknown,
        },
{
    if !(k is Unknown) {
        lemma_known_op_name_roundtrip(k);
    }
}

/// Reading a kind from a name and naming it gives the name back, for every
/// name.
pub proof fn lemma_name_onnx_roundtrip(s: Seq<char>)
    ensures
        match known_op(s) {
            Some(named) => op_name(named) == s,
            None => true,
        },
{
    lemma_known_op_has_name(s);
}

} // verus!
