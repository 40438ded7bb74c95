//! The operator nodes of a graph. Each kind of operator is one variant; what a
//! node reads, what it produces and the statement it contributes are decided
//! by its variant.

pub mod binary;
pub mod constant;
pub mod expand;
pub mod unary;

use vstd::prelude::*;

use crate::code::{Field, FieldView, Statement, StatementView};
use crate::error::{CodegenError, CodegenErrorView};
use crate::node::binary::{BinaryNode, BinaryNodeView};
use crate::node::constant::{ConstantNode, ConstantNodeView};
use crate::node::expand::{ExpandNode, ExpandNodeView};
use crate::node::unary::{UnaryNode, UnaryNodeView};
use crate::scope::{can_use_all, use_all, Pending, Scope};
use crate::types::{names_of, types_view, Type, TypeView};

verus! {

/// One operator of a graph.
#[derive(Debug, PartialEq, Eq)]
pub enum Node {
    Constant(ConstantNode),
    Unary(UnaryNode),
    Binary(BinaryNode),
    Expand(ExpandNode),
}

/// Mathematical model of a [`Node`].
pub enum NodeView {
    Constant(ConstantNodeView),
    Unary(UnaryNodeView),
    Binary(BinaryNodeView),
    Expand(ExpandNodeView),
}

impl View for Node {
    type V = NodeView;

    open spec fn view(&self) -> NodeView {
        match self {
            Node::Constant(n) => NodeView::Constant(n@),
            Node::Unary(n) => NodeView::Unary(n@),
            Node::Binary(n) => NodeView::Binary(n@),
            Node::Expand(n) => NodeView::Expand(n@),
        }
    }
}

/// The models of a sequence of nodes, in order.
pub open spec fn nodes_view(nodes: Seq<Node>) -> Seq<NodeView> {
    Seq::new(nodes.len(), |i: int| nodes[i]@)
}

impl NodeView {
    /// The values the node reads, in the order in which it reads them.
    pub open spec fn input_types(self) -> Seq<TypeView> {
        match self {
            NodeView::Constant(n) => n.input_types(),
            NodeView::Unary(n) => n.input_types(),
            NodeView::Binary(n) => n.input_types(),
            NodeView::Expand(n) => n.input_types(),
        }
    }

    /// The values the node produces.
    pub open spec fn output_types(self) -> Seq<TypeView> {
        match self {
            NodeView::Constant(n) => n.output_types(),
            NodeView::Unary(n) => n.output_types(),
            NodeView::Binary(n) => n.output_types(),
            NodeView::Expand(n) => n.output_types(),
        }
    }

    /// The names the node reads, in order.
    pub open spec fn reads(self) -> Seq<Seq<char>> {
        names_of(self.input_types())
    }

    /// What is wrong with the node's configuration, if anything.
    pub open spec fn config_error(self, position: usize) -> Option<CodegenErrorView> {
        match self {
            NodeView::Expand(n) => n.config_error(position),
            _ => None,
        }
    }

    /// The statement the node contributes at `position`, given the reads that
    /// are pending when its turn comes.
    pub open spec fn statement(self, pending: Pending, position: usize) -> StatementView {
        match self {
            NodeView::Constant(n) => n.statement(),
            NodeView::Unary(n) => n.statement(pending, position),
            NodeView::Binary(n) => n.statement(pending, position),
            NodeView::Expand(n) => n.statement(pending, position),
        }
    }

    /// The slot of the module's state that the node needs, if it needs one.
    pub open spec fn field(self) -> Option<FieldView> {
        match self {
            NodeView::Constant(n) => Some(n.field()),
            _ => None,
        }
    }
}

impl Clone for Node {
    fn clone(&self) -> (node: Node)
        ensures
            node@ == self@,
    {
        match self {
            Node::Constant(n) => Node::Constant(n.clone()),
            Node::Unary(n) => Node::Unary(n.clone()),
            Node::Binary(n) => Node::Binary(n.clone()),
            Node::Expand(n) => Node::Expand(n.clone()),
        }
    }
}

/// What every kind of node offers to the graph that holds it.
pub trait NodeCodegen: Sized {
    /// The node as the graph sees it.
    spec fn node_view(&self) -> NodeView;

    /// The values the node reads, in the order in which it reads them.
    fn input_types(&self) -> (types: Vec<Type>)
        ensures
            types_view(types@) == self.node_view().input_types(),
    ;

    /// The values the node produces.
    fn output_types(&self) -> (types: Vec<Type>)
        ensures
            types_view(types@) == self.node_view().output_types(),
    ;

    /// The slot of the module's state that the node needs, if it needs one.
    fn field_type(&self) -> (field: Option<Field>)
        ensures
            match field {
                Some(f) => self.node_view().field() == Some(f@),
                None => self.node_view().field() is None,
            },
    ;

    /// The statement for this node at `node_position`. The reads of the node
    /// are taken from `scope`, in order. Fails, and leaves `scope` as it was,
    /// where the node's configuration is not one that code exists for.
    fn forward(&self, scope: &mut Scope, node_position: usize) -> (result: Result<
        Statement,
        CodegenError,
    >)
        requires
            old(scope).wf(),
            can_use_all(old(scope)@, self.node_view().reads(), node_position),
        ensures
            final(scope).wf(),
            match result {
                Ok(statement) => {
                    &&& self.node_view().config_error(node_position) is None
                    &&& statement@ == self.node_view().statement(old(scope)@, node_position)
                    &&& final(scope)@ == use_all(
                        old(scope)@,
                        self.node_view().reads(),
                        node_position,
                    )
                },
                Err(error) => {
                    &&& self.node_view().config_error(node_position) == Some(error@)
                    &&& final(scope)@ == old(scope)@
                },
            },
    ;

    /// This node as an entry of a graph.
    fn into_node(self) -> (node: Node)
        ensures
            node@ == self.node_view(),
    ;
}

impl NodeCodegen for Node {
    open spec fn node_view(&self) -> NodeView {
        self@
    }

    fn input_types(&self) -> (types: Vec<Type>) {
        match self {
            Node::Constant(n) => n.input_types(),
            Node::Unary(n) => n.input_types(),
            Node::Binary(n) => n.input_types(),
            Node::Expand(n) => n.input_types(),
        }
    }

    fn output_types(&self) -> (types: Vec<Type>) {
        match self {
            Node::Constant(n) => n.output_types(),
            Node::Unary(n) => n.output_types(),
            Node::Binary(n) => n.output_types(),
            Node::Expand(n) => n.output_types(),
        }
    }

    fn field_type(&self) -> (field: Option<Field>) {
        match self {
            Node::Constant(n) => n.field_type(),
            Node::Unary(n) => n.field_type(),
            Node::Binary(n) => n.field_type(),
            Node::Expand(n) => n.field_type(),
        }
    }

    fn forward(&self, scope: &mut Scope, node_position: usize) -> (result: Result<
        Statement,
        CodegenError,
    >) {
        match self {
            Node::Constant(n) => n.forward(scope, node_position),
            Node::Unary(n) => n.forward(scope, node_position),
            Node::Binary(n) => n.forward(scope, node_position),
            Node::Expand(n) => n.forward(scope, node_position),
        }
    }

    fn into_node(self) -> (node: Node) {
        self
    }
}

} // verus!
