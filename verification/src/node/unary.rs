//! The node that applies an element-wise operation to one tensor.

use vstd::prelude::*;

use crate::code::{Field, Operand, OperandView, Statement, StatementView, UnaryKind};
use crate::error::CodegenError;
use crate::node::{Node, NodeCodegen, NodeView};
use crate::scope::{access_for, lemma_use_all_unfold, spec_use, Pending, Scope};
use crate::types::{names_of, types_view, TensorType, TensorTypeView, Type, TypeView};

verus! {

/// Applies `kind` to `input` and binds the result to `output`.
#[derive(Debug, PartialEq, Eq)]
pub struct UnaryNode {
    pub input: TensorType,
    pub output: TensorType,
    pub kind: UnaryKind,
}

/// Mathematical model of a [`UnaryNode`].
pub struct UnaryNodeView {
    pub input: TensorTypeView,
    pub output: TensorTypeView,
    pub kind: UnaryKind,
}

impl View for UnaryNode {
    type V = UnaryNodeView;

    open spec fn view(&self) -> UnaryNodeView {
        UnaryNodeView { input: self.input@, output: self.output@, kind: self.kind }
    }
}

impl UnaryNodeView {
    /// The value the node reads.
    pub open spec fn input_types(self) -> Seq<TypeView> {
        seq![TypeView::Tensor(self.input)]
    }

    /// The value the node produces.
    pub open spec fn output_types(self) -> Seq<TypeView> {
        seq![TypeView::Tensor(self.output)]
    }

    /// The names the node reads, in order.
    pub open spec fn reads(self) -> Seq<Seq<char>> {
        names_of(self.input_types())
    }

    /// The statement the node contributes at `position`, given the reads that
    /// are pending when its turn comes.
    pub open spec fn statement(self, pending: Pending, position: usize) -> StatementView {
        StatementView::Unary {
            output: self.output.name,
            function: self.kind,
            input: OperandView {
                name: self.input.name,
                access: access_for(spec_use(pending, self.input.name, position)(self.input.name)),
            },
        }
    }
}

impl Clone for UnaryNode {
    fn clone(&self) -> (node: UnaryNode)
        ensures
            node@ == self@,
    {
        UnaryNode { input: self.input.clone(), output: self.output.clone(), kind: self.kind }
    }
}

impl UnaryNode {
    /// A node that applies `kind` to `input` and binds the result to `output`.
    pub fn new(input: TensorType, output: TensorType, kind: UnaryKind) -> (node: UnaryNode)
        ensures
            node@ == (UnaryNodeView { input: input@, output: output@, kind }),
    {
        UnaryNode { input, output, kind }
    }
}

impl NodeCodegen for UnaryNode {
    open spec fn node_view(&self) -> NodeView {
        NodeView::Unary(self@)
    }

    fn input_types(&self) -> (types: Vec<Type>) {
        let mut types: Vec<Type> = Vec::new();
        types.push(Type::Tensor(self.input.clone()));
        proof {
            assert(types_view(types@) =~= self@.input_types());
        }
        types
    }

    fn output_types(&self) -> (types: Vec<Type>) {
        let mut types: Vec<Type> = Vec::new();
        types.push(Type::Tensor(self.output.clone()));
        proof {
            assert(types_view(types@) =~= self@.output_types());
        }
        types
    }

    fn field_type(&self) -> (field: Option<Field>) {
        None
    }

    fn forward(&self, scope: &mut Scope, node_position: usize) -> (result: Result<
        Statement,
        CodegenError,
    >) {
        proof {
            lemma_use_all_unfold(old(scope)@, self@.reads(), node_position);
        }
        let access = scope.tensor_use_owned(&self.input, node_position);
        Ok(
            Statement::Unary {
                output: self.output.name.clone(),
                function: self.kind,
                input: Operand { name: self.input.name.clone(), access },
            },
        )
    }

    fn into_node(self) -> (node: Node) {
        Node::Unary(self)
    }
}

} // verus!
