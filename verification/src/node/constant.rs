//! The node that produces a tensor held in the module's state.

use vstd::prelude::*;

use crate::code::{Field, FieldView, Statement, StatementView};
use crate::error::CodegenError;
use crate::node::{Node, NodeCodegen, NodeView};
use crate::scope::{lemma_use_all_unfold, Scope};
use crate::types::{types_view, TensorType, TensorTypeView, Type, TypeView};

verus! {

/// Binds the constant tensor held in the field `name` to `output`. The field
/// has the dimensions `dims`.
#[derive(Debug, PartialEq, Eq)]
pub struct ConstantNode {
    pub name: String,
    pub output: TensorType,
    pub dims: Vec<usize>,
}

/// Mathematical model of a [`ConstantNode`].
pub struct ConstantNodeView {
    pub name: Seq<char>,
    pub output: TensorTypeView,
    pub dims: Seq<usize>,
}

impl View for ConstantNode {
    type V = ConstantNodeView;

    open spec fn view(&self) -> ConstantNodeView {
        ConstantNodeView { name: self.name@, output: self.output@, dims: self.dims@ }
    }
}

impl ConstantNodeView {
    /// The node reads nothing.
    pub open spec fn input_types(self) -> Seq<TypeView> {
        Seq::empty()
    }

    /// The value the node produces.
    pub open spec fn output_types(self) -> Seq<TypeView> {
        seq![TypeView::Tensor(self.output)]
    }

    /// The slot of the module's state that holds the constant.
    pub open spec fn field(self) -> FieldView {
        FieldView { name: self.name, ty: self.output, dims: self.dims }
    }

    /// The statement the node contributes.
    pub open spec fn statement(self) -> StatementView {
        StatementView::Constant { output: self.output.name, field: self.name }
    }
}

fn copy_sizes(dims: &Vec<usize>) -> (copy: Vec<usize>)
    ensures
        copy@ == dims@,
{
    let mut copy: Vec<usize> = Vec::new();
    let mut i: usize = 0;
    while i < dims.len()
        invariant
            i <= dims@.len(),
            copy@ == dims@.take(i as int),
        decreases dims@.len() - i,
    {
        copy.push(dims[i]);
        i += 1;
    }
    copy
}

impl Clone for ConstantNode {
    fn clone(&self) -> (node: ConstantNode)
        ensures
            node@ == self@,
    {
        ConstantNode {
            name: self.name.clone(),
            output: self.output.clone(),
            dims: copy_sizes(&self.dims),
        }
    }
}

impl ConstantNode {
    /// A node that binds the constant held in the field `name` to `output`.
    pub fn new(name: &str, output: TensorType, dims: Vec<usize>) -> (node: ConstantNode)
        ensures
            node@ == (ConstantNodeView { name: name@, output: output@, dims: dims@ }),
    {
        ConstantNode { name: name.to_owned(), output, dims }
    }
}

impl NodeCodegen for ConstantNode {
    open spec fn node_view(&self) -> NodeView {
        NodeView::Constant(self@)
    }

    fn input_types(&self) -> (types: Vec<Type>) {
        let types: Vec<Type> = Vec::new();
        proof {
            assert(types_view(types@) =~= self@.input_types());
        }
        types
    }

    fn output_types(&self) -> (types: Vec<Type>) {
        let mut types: Vec<Type> = Vec::new();
        types.push(Type::Tensor(self.output.clone()));
        proof {
            assert(types_view(types@) =~= self@.output_types());
        }
        types
    }

    fn field_type(&self) -> (field: Option<Field>) {
        Some(
            Field { name: self.name.clone(), ty: self.output.clone(), dims: copy_sizes(&self.dims) },
        )
    }

    fn forward(&self, scope: &mut Scope, node_position: usize) -> (result: Result<
        Statement,
        CodegenError,
    >) {
        proof {
            lemma_use_all_unfold(old(scope)@, self.node_view().reads(), node_position);
        }
        Ok(Statement::Constant { output: self.output.name.clone(), field: self.name.clone() })
    }

    fn into_node(self) -> (node: Node) {
        Node::Constant(self)
    }
}

} // verus!
