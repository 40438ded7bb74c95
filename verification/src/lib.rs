//! Graph intermediate representation and code generation for neural-network
//! models: typed values, read tracking, operator nodes, and the assembly of
//! one generated module per graph.

pub mod code;
pub mod error;
pub mod graph;
pub mod laws;
pub mod lower;
pub mod node;
pub mod reads;
pub mod render;
pub mod scope;
pub mod source;
pub mod tokens;
pub mod types;
pub mod words;
