//! Sea-of-Nodes Compiler Graph representation.
use vstd::prelude::*;

verus! {

/// A node of the compiler graph.
pub struct GraphNode {
    pub id: u32,
    pub op: OpCode,
}

/// The operations of graph nodes.
pub enum OpCode {
    Parameter,
    Add,
    Sub,
    Return,
}

/// An edge of the compiler graph, from one node to another.
pub struct GraphEdge {
    pub from: u32,
    pub to: u32,
}

} // verus!
