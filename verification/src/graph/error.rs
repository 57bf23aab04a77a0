//! Errors of graph analysis.

use vstd::prelude::*;
use crate::utils::text::prefixed;

verus! {

/// Errors raised by graph analyses.
#[derive(Debug, Clone, Copy, PartialEq, Eq, Structural)]
pub enum GraphError {
    /// The graph's dependencies form a cycle.
    CyclicGraph,
}

impl GraphError {
    /// The text describing this error.
    pub fn message(&self) -> (s: String)
        ensures
            s@ == "Graph contains cycles"@,
    {
        "Graph contains cycles".to_string()
    }
}

/// Errors specific to executor operations.
#[derive(Debug, Clone, PartialEq, Eq)]
pub enum ExecutorError {
    CyclicGraph,
    InvalidOperation(String),
    ConstantFoldingError(String),
    ValidationError(String),
}

impl ExecutorError {
    /// The text describing this error.
    pub fn message(&self) -> (s: String)
        ensures
            s@ == match self {
                ExecutorError::CyclicGraph => "Graph contains cycles"@,
                ExecutorError::InvalidOperation(m) => "Invalid node operation: "@ + m@,
                ExecutorError::ConstantFoldingError(m) => "Constant folding failed: "@ + m@,
                ExecutorError::ValidationError(m) => "Graph validation failed: "@ + m@,
            },
    {
        match self {
            ExecutorError::CyclicGraph => "Graph contains cycles".to_string(),
            ExecutorError::InvalidOperation(m) => prefixed("Invalid node operation: ", m.as_str()),
            ExecutorError::ConstantFoldingError(m) => prefixed("Constant folding failed: ", m.as_str()),
            ExecutorError::ValidationError(m) => prefixed("Graph validation failed: ", m.as_str()),
        }
    }
}

} // verus!
