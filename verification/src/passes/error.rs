//! Errors of optimization passes.

use vstd::prelude::*;
use crate::utils::text::prefixed;

verus! {

/// Errors raised by optimization passes.
#[derive(Debug, Clone, PartialEq, Eq)]
pub enum PassError {
    PassNotApplicable(String),
    NotImplemented(String),
    GraphOperationFailed { details: String },
    ExecutionFailed { message: String },
    ConstantFoldingFailed { reason: String },
    DeadNodeEliminationFailed { reason: String },
}

impl PassError {
    /// The text describing this error.
    pub fn message(&self) -> (s: String)
        ensures
            s@ == match self {
                PassError::PassNotApplicable(m) => "Pass not applicable: "@ + m@,
                PassError::NotImplemented(m) => "Not implemented: "@ + m@,
                PassError::GraphOperationFailed { details } => "Graph operation failed: "@ + details@,
                PassError::ExecutionFailed { message } => "Pass execution failed: "@ + message@,
                PassError::ConstantFoldingFailed { reason } => "Constant folding failed: "@ + reason@,
                PassError::DeadNodeEliminationFailed { reason } => "Dead node elimination failed: "@
                    + reason@,
            },
    {
        match self {
            PassError::PassNotApplicable(m) => prefixed("Pass not applicable: ", m.as_str()),
            PassError::NotImplemented(m) => prefixed("Not implemented: ", m.as_str()),
            PassError::GraphOperationFailed { details } => prefixed("Graph operation failed: ", details.as_str()),
            PassError::ExecutionFailed { message } => prefixed("Pass execution failed: ", message.as_str()),
            PassError::ConstantFoldingFailed { reason } => prefixed("Constant folding failed: ", reason.as_str()),
            PassError::DeadNodeEliminationFailed { reason } => prefixed("Dead node elimination failed: ", reason.as_str()),
        }
    }
}

} // verus!
