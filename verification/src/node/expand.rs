//! The node that broadcasts a tensor to a shape.

use vstd::prelude::*;

use crate::code::{Field, Operand, OperandView, ShapeArg, ShapeArgView, Statement, StatementView};
use crate::error::{CodegenError, CodegenErrorView};
use crate::node::{Node, NodeCodegen, NodeView};
use crate::scope::{access_for, lemma_use_all_unfold, spec_use, Pending, Scope};
use crate::types::{names_of, types_view, TensorType, TensorTypeView, Type, TypeView};

verus! {

/// Where an expand node takes its target shape from.
#[derive(Debug, PartialEq, Eq)]
pub enum ExpandShape {
    /// The dimension sizes are known when the code is generated.
    Static(Vec<i64>),
    /// The dimension sizes are held by another value of the graph.
    Runtime(Type),
}

/// Mathematical model of an [`ExpandShape`].
pub enum ExpandShapeView {
    Static(Seq<i64>),
    Runtime(TypeView),
}

impl View for ExpandShape {
    type V = ExpandShapeView;

    open spec fn view(&self) -> ExpandShapeView {
        match self {
            ExpandShape::Static(dims) => ExpandShapeView::Static(dims@),
            ExpandShape::Runtime(source) => ExpandShapeView::Runtime(source@),
        }
    }
}

/// Broadcasts `input` to a shape and binds the result to `output`.
#[derive(Debug, PartialEq, Eq)]
pub struct ExpandNode {
    pub input: TensorType,
    pub output: TensorType,
    pub shape: ExpandShape,
}

/// Mathematical model of an [`ExpandNode`].
pub struct ExpandNodeView {
    pub input: TensorTypeView,
    pub output: TensorTypeView,
    pub shape: ExpandShapeView,
}

impl View for ExpandNode {
    type V = ExpandNodeView;

    open spec fn view(&self) -> ExpandNodeView {
        ExpandNodeView { input: self.input@, output: self.output@, shape: self.shape@ }
    }
}

impl ExpandNodeView {
    /// The values the node reads: the tensor, and after it the value that
    /// holds the shape where the shape is not known beforehand.
    pub open spec fn input_types(self) -> Seq<TypeView> {
        match self.shape {
            ExpandShapeView::Static(_) => seq![TypeView::Tensor(self.input)],
            ExpandShapeView::Runtime(source) => seq![TypeView::Tensor(self.input), source],
        }
    }

    /// The value the node produces.
    pub open spec fn output_types(self) -> Seq<TypeView> {
        seq![TypeView::Tensor(self.output)]
    }

    /// The names the node reads, in order.
    pub open spec fn reads(self) -> Seq<Seq<char>> {
        names_of(self.input_types())
    }

    /// What is wrong with the node's configuration, if anything: a shape
    /// taken from a value that is neither a shape nor a tensor.
    pub open spec fn config_error(self, position: usize) -> Option<CodegenErrorView> {
        match self.shape {
            ExpandShapeView::Runtime(TypeView::Scalar(s)) => Some(
                CodegenErrorView::InvalidShapeSource { position, source: TypeView::Scalar(s) },
            ),
            ExpandShapeView::Runtime(TypeView::Other(o)) => Some(
                CodegenErrorView::InvalidShapeSource { position, source: TypeView::Other(o) },
            ),
            _ => None,
        }
    }

    /// The shape argument of the generated call, for a node whose
    /// configuration has no error. Dimension sizes are written out; a shape
    /// value is passed as it is; a tensor is converted on the host to an array
    /// with as many entries as the output has dimensions.
    pub open spec fn shape_arg(self) -> ShapeArgView {
        match self.shape {
            ExpandShapeView::Static(dims) => ShapeArgView::Literal(dims),
            ExpandShapeView::Runtime(TypeView::Tensor(t)) => ShapeArgView::FromTensor {
                name: t.name,
                rank: self.output.rank,
            },
            ExpandShapeView::Runtime(source) => ShapeArgView::Value(source.name()),
        }
    }

    /// The statement the node contributes at `position`, given the reads that
    /// are pending when its turn comes. The input tensor is handed over if
    /// this is its last pending read and duplicated otherwise.
    pub open spec fn statement(self, pending: Pending, position: usize) -> StatementView {
        StatementView::Expand {
            output: self.output.name,
            input: OperandView {
                name: self.input.name,
                access: access_for(spec_use(pending, self.input.name, position)(self.input.name)),
            },
            shape: self.shape_arg(),
        }
    }
}

/// A copy of `dims`.
pub(crate) fn copy_dims(dims: &Vec<i64>) -> (copy: Vec<i64>)
    ensures
        copy@ == dims@,
{
    let mut copy: Vec<i64> = Vec::new();
    let mut i: usize = 0;
    while i < dims.len()
        invariant
            i <= dims@.len(),
            copy@ == dims@.take(i as int),
        decreases dims@.len() - i,
    {
        copy.push(dims[i]);
        i += 1;
    }
    copy
}

impl Clone for ExpandShape {
    fn clone(&self) -> (shape: ExpandShape)
        ensures
            shape@ == self@,
    {
        match self {
            ExpandShape::Static(dims) => ExpandShape::Static(copy_dims(dims)),
            ExpandShape::Runtime(source) => ExpandShape::Runtime(source.clone()),
        }
    }
}

impl Clone for ExpandNode {
    fn clone(&self) -> (node: ExpandNode)
        ensures
            node@ == self@,
    {
        ExpandNode {
            input: self.input.clone(),
            output: self.output.clone(),
            shape: self.shape.clone(),
        }
    }
}

impl ExpandNode {
    /// A node that broadcasts `input` to `shape` and binds the result to
    /// `output`.
    pub fn new(input: TensorType, output: TensorType, shape: ExpandShape) -> (node: ExpandNode)
        ensures
            node@ == (ExpandNodeView { input: input@, output: output@, shape: shape@ }),
    {
        ExpandNode { input, output, shape }
    }
}

impl NodeCodegen for ExpandNode {
    open spec fn node_view(&self) -> NodeView {
        NodeView::Expand(self@)
    }

    fn output_types(&self) -> (types: Vec<Type>) {
        let mut types: Vec<Type> = Vec::new();
        types.push(Type::Tensor(self.output.clone()));
        proof {
            assert(types_view(types@) =~= self@.output_types());
        }
        types
    }

    /// With a shape known beforehand the node reads the tensor alone;
    /// otherwise the value that holds the shape comes second.
    fn input_types(&self) -> (types: Vec<Type>) {
        let mut types: Vec<Type> = Vec::new();
        types.push(Type::Tensor(self.input.clone()));
        match &self.shape {
            ExpandShape::Static(_) => {},
            ExpandShape::Runtime(source) => {
                types.push(source.clone());
            },
        }
        proof {
            assert(types_view(types@) =~= self@.input_types());
        }
        types
    }

    fn field_type(&self) -> (field: Option<Field>) {
        None
    }

    /// Fails where the shape comes from a value that is neither a shape nor a
    /// tensor.
    fn forward(&self, scope: &mut Scope, node_position: usize) -> (result: Result<
        Statement,
        CodegenError,
    >) {
        let shape = match &self.shape {
            ExpandShape::Static(dims) => ShapeArg::Literal(copy_dims(dims)),
            ExpandShape::Runtime(Type::Tensor(tensor)) => ShapeArg::FromTensor {
                name: tensor.name.clone(),
                rank: self.output.rank,
            },
            ExpandShape::Runtime(Type::Shape(shape)) => ShapeArg::Value(shape.name.clone()),
            ExpandShape::Runtime(source) => {
                return Err(
                    CodegenError::InvalidShapeSource {
                        position: node_position,
                        source: source.clone(),
                    },
                );
            },
        };
        proof {
            lemma_use_all_unfold(old(scope)@, self@.reads(), node_position);
        }
        let access = scope.tensor_use_owned(&self.input, node_position);
        match &self.shape {
            ExpandShape::Static(_) => {},
            ExpandShape::Runtime(source) => {
                // The value that holds the shape is read where it is: the
                // read is counted, the value is not taken.
                let _ = scope.use_owned(source.name().as_str(), node_position);
            },
        }
        Ok(
            Statement::Expand {
                output: self.output.name.clone(),
                input: Operand { name: self.input.name.clone(), access },
                shape,
            },
        )
    }

    fn into_node(self) -> (node: Node) {
        Node::Expand(self)
    }
}

} // verus!
