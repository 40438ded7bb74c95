//! The node that applies an element-wise operation to two tensors.

use vstd::prelude::*;

use crate::code::{Field, BinaryKind, Operand, OperandView, Statement, StatementView};
use crate::error::CodegenError;
use crate::node::{Node, NodeCodegen, NodeView};
use crate::scope::{access_for, lemma_use_all_unfold, spec_use, Pending, Scope};
use crate::types::{names_of, types_view, TensorType, TensorTypeView, Type, TypeView};

verus! {

/// Applies `kind` to `lhs` and `rhs` and binds the result to `output`.
#[derive(Debug, PartialEq, Eq)]
pub struct BinaryNode {
    pub lhs: TensorType,
    pub rhs: TensorType,
    pub output: TensorType,
    pub kind: BinaryKind,
}

/// Mathematical model of a [`BinaryNode`].
pub struct BinaryNodeView {
    pub lhs: TensorTypeView,
    pub rhs: TensorTypeView,
    pub output: TensorTypeView,
    pub kind: BinaryKind,
}

impl View for BinaryNode {
    type V = BinaryNodeView;

    open spec fn view(&self) -> BinaryNodeView {
        BinaryNodeView { lhs: self.lhs@, rhs: self.rhs@, output: self.output@, kind: self.kind }
    }
}

impl BinaryNodeView {
    /// The values the node reads: the left operand, then the right one.
    pub open spec fn input_types(self) -> Seq<TypeView> {
        seq![TypeView::Tensor(self.lhs), TypeView::Tensor(self.rhs)]
    }

    /// The value the node produces.
    pub open spec fn output_types(self) -> Seq<TypeView> {
        seq![TypeView::Tensor(self.output)]
    }

    /// The names the node reads, in order.
    pub open spec fn reads(self) -> Seq<Seq<char>> {
        names_of(self.input_types())
    }

    /// The statement the node contributes at `position`, given the reads that
    /// are pending when its turn comes. The left operand is read first.
    pub open spec fn statement(self, pending: Pending, position: usize) -> StatementView {
        let after_lhs = spec_use(pending, self.lhs.name, position);
        let after_rhs = spec_use(after_lhs, self.rhs.name, position);
        StatementView::Binary {
            output: self.output.name,
            operator: self.kind,
            lhs: OperandView { name: self.lhs.name, access: access_for(after_lhs(self.lhs.name)) },
            rhs: OperandView { name: self.rhs.name, access: access_for(after_rhs(self.rhs.name)) },
        }
    }
}

impl Clone for BinaryNode {
    fn clone(&self) -> (node: BinaryNode)
        ensures
            node@ == self@,
    {
        BinaryNode {
            lhs: self.lhs.clone(),
            rhs: self.rhs.clone(),
            output: self.output.clone(),
            kind: self.kind,
        }
    }
}

impl BinaryNode {
    /// A node that applies `kind` to `lhs` and `rhs` and binds the result to
    /// `output`.
    pub fn new(lhs: TensorType, rhs: TensorType, output: TensorType, kind: BinaryKind) -> (node:
        BinaryNode)
        ensures
            node@ == (BinaryNodeView { lhs: lhs@, rhs: rhs@, output: output@, kind }),
    {
        BinaryNode { lhs, rhs, output, kind }
    }
}

impl NodeCodegen for BinaryNode {
    open spec fn node_view(&self) -> NodeView {
        NodeView::Binary(self@)
    }

    fn input_types(&self) -> (types: Vec<Type>) {
        let mut types: Vec<Type> = Vec::new();
        types.push(Type::Tensor(self.lhs.clone()));
        types.push(Type::Tensor(self.rhs.clone()));
        proof {
            assert(types_view(types@) =~= self@.input_types());
        }
        types
    }

    fn output_types(&self) -> (types: Vec<Type>) {
        let mut types: Vec<Type> = Vec::new();
        types.push(Type::Tensor(self.output.clone()));
        proof {
            assert(types_view(types@) =~= self@.output_types());
        }
        types
    }

    fn field_type(&self) -> (field: Option<Field>) {
        None
    }

    /// The left operand is read first.
    fn forward(&self, scope: &mut Scope, node_position: usize) -> (result: Result<
        Statement,
        CodegenError,
    >) {
        proof {
            lemma_use_all_unfold(old(scope)@, self@.reads(), node_position);
        }
        let lhs = scope.tensor_use_owned(&self.lhs, node_position);
        let rhs = scope.tensor_use_owned(&self.rhs, node_position);
        Ok(
            Statement::Binary {
                output: self.output.name.clone(),
                operator: self.kind,
                lhs: Operand { name: self.lhs.name.clone(), access: lhs },
                rhs: Operand { name: self.rhs.name.clone(), access: rhs },
            },
        )
    }

    fn into_node(self) -> (node: Node) {
        Node::Binary(self)
    }
}

} // verus!
