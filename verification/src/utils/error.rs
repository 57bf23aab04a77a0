//! Errors of model conversion.

use vstd::prelude::*;
use crate::utils::text::prefixed;

verus! {

/// Errors raised while turning an ONNX model description into a graph.
#[derive(Debug, Clone, PartialEq, Eq)]
pub enum OnnxOptError {
    InvalidModel(String),
    Conversion(String),
    UnsupportedOp(String),
}

/// What an error says: its kind and its text.
pub enum ErrorView {
    InvalidModel(Seq<char>),
    Conversion(Seq<char>),
    UnsupportedOp(Seq<char>),
}

impl View for OnnxOptError {
    type V = ErrorView;

    open spec fn view(&self) -> ErrorView {
        match self {
            OnnxOptError::InvalidModel(m) => ErrorView::InvalidModel(m@),
            OnnxOptError::Conversion(m) => ErrorView::Conversion(m@),
            OnnxOptError::UnsupportedOp(m) => ErrorView::UnsupportedOp(m@),
        }
    }
}

impl OnnxOptError {
    /// The text describing this error.
    pub fn message(&self) -> (s: String)
        ensures
            s@ == match self {
                OnnxOptError::InvalidModel(m) => "Invalid model: "@ + m@,
                OnnxOptError::Conversion(m) => "Conversion error: "@ + m@,
                OnnxOptError::UnsupportedOp(m) => "Unsupported operation: "@ + m@,
            },
    {
        match self {
            OnnxOptError::InvalidModel(m) => prefixed("Invalid model: ", m.as_str()),
            OnnxOptError::Conversion(m) => prefixed("Conversion error: ", m.as_str()),
            OnnxOptError::UnsupportedOp(m) => prefixed("Unsupported operation: ", m.as_str()),
        }
    }
}

} // verus!
