//! The ways in which generation fails.

use vstd::prelude::*;

use crate::types::{Type, TypeView};

verus! {

/// Why no module was generated for a graph.
#[derive(Debug, PartialEq, Eq)]
pub enum CodegenError {
    /// A declared input or output of the graph has a type that cannot be
    /// written in a signature.
    UndeclarableType { value: Type },
    /// The node at `position` takes its shape from a value that is neither a
    /// shape nor a tensor.
    InvalidShapeSource { position: usize, source: Type },
    /// The node at `position` reads a value that is no input of the graph and
    /// that no earlier node produces.
    ReadBeforeProduced { position: usize, value: Type },
}

/// Mathematical model of a [`CodegenError`].
pub enum CodegenErrorView {
    UndeclarableType { value: TypeView },
    InvalidShapeSource { position: usize, source: TypeView },
    ReadBeforeProduced { position: usize, value: TypeView },
}

impl View for CodegenError {
    type V = CodegenErrorView;

    open spec fn view(&self) -> CodegenErrorView {
        match self {
            CodegenError::UndeclarableType { value } => CodegenErrorView::UndeclarableType {
                value: value@,
            },
            CodegenError::InvalidShapeSource { position, source } => {
                CodegenErrorView::InvalidShapeSource { position: *position, source: source@ }
            },
            CodegenError::ReadBeforeProduced { position, value } => {
                CodegenErrorView::ReadBeforeProduced { position: *position, value: value@ }
            },
        }
    }
}

/// Why the inputs and outputs of a graph could not be declared.
#[derive(Clone, Copy, Debug, PartialEq, Eq, Structural)]
pub enum SignatureError {
    /// The graph has no node yet.
    EmptyGraph,
    /// No node reads a value with the name at `index` of the input names.
    InputNotFound { index: usize },
    /// No node produces a value with the name at `index` of the output names.
    OutputNotFound { index: usize },
}

} // verus!
