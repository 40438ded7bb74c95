//! From the operators that a front end describes to the nodes of a graph, and
//! from there to the generated module.

use vstd::prelude::*;

use crate::code::{BinaryKind, Module, ModuleView, UnaryKind};
use crate::error::{CodegenError, CodegenErrorView, SignatureError};
use crate::graph::{
    all_inputs, all_outputs, resolve, signature_error, strings_view, BurnGraph, GraphView,
};
use crate::node::binary::{BinaryNode, BinaryNodeView};
use crate::node::constant::{ConstantNode, ConstantNodeView};
use crate::node::expand::{
    copy_dims, ExpandNode, ExpandNodeView, ExpandShape, ExpandShapeView,
};
use crate::node::unary::{UnaryNode, UnaryNodeView};
use crate::node::{nodes_view, Node, NodeView};
use crate::types::{types_view, Type, TypeView};

verus! {

/// One operator as a front end describes it: its kind by name, the values it
/// reads and produces, and what it is configured with.
#[derive(Debug, PartialEq, Eq)]
pub struct Operator {
    /// The kind of operator, such as `Add` or `Expand`.
    pub kind: String,
    /// The name of the operator in its graph.
    pub name: String,
    /// The values the operator reads.
    pub inputs: Vec<Type>,
    /// The values the operator produces.
    pub outputs: Vec<Type>,
    /// Dimension sizes that are known beforehand, where the operator has any.
    pub dims: Option<Vec<i64>>,
}

/// Mathematical model of an [`Operator`].
pub struct OperatorView {
    pub kind: Seq<char>,
    pub name: Seq<char>,
    pub inputs: Seq<TypeView>,
    pub outputs: Seq<TypeView>,
    pub dims: Option<Seq<i64>>,
}

impl View for Operator {
    type V = OperatorView;

    open spec fn view(&self) -> OperatorView {
        OperatorView {
            kind: self.kind@,
            name: self.name@,
            inputs: types_view(self.inputs@),
            outputs: types_view(self.outputs@),
            dims: match self.dims {
                Some(dims) => Some(dims@),
                None => None,
            },
        }
    }
}

/// The models of a sequence of operators, in order.
pub open spec fn operators_view(operators: Seq<Operator>) -> Seq<OperatorView> {
    Seq::new(operators.len(), |i: int| operators[i]@)
}

/// Why an operator has no node.
#[derive(Debug, PartialEq, Eq)]
pub enum LoweringError {
    /// No node exists for operators of the kind of the operator at `position`.
    UnsupportedOperator { position: usize, kind: String },
    /// The operator at `position` does not have the inputs, outputs and
    /// dimension sizes that its kind asks for.
    MalformedOperator { position: usize },
}

/// Mathematical model of a [`LoweringError`].
pub enum LoweringErrorView {
    UnsupportedOperator { position: usize, kind: Seq<char> },
    MalformedOperator { position: usize },
}

impl View for LoweringError {
    type V = LoweringErrorView;

    open spec fn view(&self) -> LoweringErrorView {
        match self {
            LoweringError::UnsupportedOperator { position, kind } => {
                LoweringErrorView::UnsupportedOperator { position: *position, kind: kind@ }
            },
            LoweringError::MalformedOperator { position } => LoweringErrorView::MalformedOperator {
                position: *position,
            },
        }
    }
}

/// The element-wise operation on one tensor that `kind` names, if it names one.
pub open spec fn unary_kind(kind: Seq<char>) -> Option<UnaryKind> {
    if kind == "Abs"@ {
        Some(UnaryKind::Abs)
    } else if kind == "Neg"@ {
        Some(UnaryKind::Neg)
    } else if kind == "Exp"@ {
        Some(UnaryKind::Exp)
    } else if kind == "Log"@ {
        Some(UnaryKind::Log)
    } else {
        None
    }
}

/// The element-wise operation on two tensors that `kind` names, if it names
/// one.
pub open spec fn binary_kind(kind: Seq<char>) -> Option<BinaryKind> {
    if kind == "Add"@ {
        Some(BinaryKind::Add)
    } else if kind == "Sub"@ {
        Some(BinaryKind::Sub)
    } else if kind == "Mul"@ {
        Some(BinaryKind::Mul)
    } else if kind == "Div"@ {
        Some(BinaryKind::Div)
    } else {
        None
    }
}

/// Whether a node exists for operators of kind `kind`.
pub open spec fn recognized(kind: Seq<char>) -> bool {
    unary_kind(kind) is Some || binary_kind(kind) is Some || kind == "Expand"@ || kind
        == "Constant"@
}

/// Whether each of `dims` is a size.
pub open spec fn are_sizes(dims: Seq<i64>) -> bool {
    forall|i: int| 0 <= i < dims.len() ==> 0 <= #[trigger] dims[i] <= usize::MAX
}

/// `dims` as sizes.
pub open spec fn as_sizes(dims: Seq<i64>) -> Seq<usize> {
    Seq::new(dims.len(), |i: int| dims[i] as usize)
}

/// The node of a unary operator: it reads one tensor, produces one, and has
/// no dimension sizes.
pub open spec fn lowered_unary(operator: OperatorView, kind: UnaryKind) -> Option<NodeView> {
    if operator.inputs.len() == 1 && operator.outputs.len() == 1 && operator.dims is None {
        match (operator.inputs[0], operator.outputs[0]) {
            (TypeView::Tensor(input), TypeView::Tensor(output)) => Some(
                NodeView::Unary(UnaryNodeView { input, output, kind }),
            ),
            _ => None,
        }
    } else {
        None
    }
}

/// The node of a binary operator: it reads two tensors, produces one, and
/// has no dimension sizes.
pub open spec fn lowered_binary(operator: OperatorView, kind: BinaryKind) -> Option<NodeView> {
    if operator.inputs.len() == 2 && operator.outputs.len() == 1 && operator.dims is None {
        match (operator.inputs[0], operator.inputs[1], operator.outputs[0]) {
            (TypeView::Tensor(lhs), TypeView::Tensor(rhs), TypeView::Tensor(output)) => Some(
                NodeView::Binary(BinaryNodeView { lhs, rhs, output, kind }),
            ),
            _ => None,
        }
    } else {
        None
    }
}

/// The node of an expand operator: it produces one tensor, and reads either
/// one tensor, with the shape given by dimension sizes, or a tensor and the
/// value that holds the shape, without dimension sizes.
pub open spec fn lowered_expand(operator: OperatorView) -> Option<NodeView> {
    if operator.outputs.len() == 1 && 1 <= operator.inputs.len() <= 2 {
        match (operator.inputs[0], operator.outputs[0]) {
            (TypeView::Tensor(input), TypeView::Tensor(output)) => {
                if operator.inputs.len() == 1 {
                    match operator.dims {
                        Some(dims) => Some(
                            NodeView::Expand(
                                ExpandNodeView { input, output, shape: ExpandShapeView::Static(dims) },
                            ),
                        ),
                        None => None,
                    }
                } else {
                    match operator.dims {
                        Some(_) => None,
                        None => Some(
                            NodeView::Expand(
                                ExpandNodeView {
                                    input,
                                    output,
                                    shape: ExpandShapeView::Runtime(operator.inputs[1]),
                                },
                            ),
                        ),
                    }
                }
            },
            _ => None,
        }
    } else {
        None
    }
}

/// The node of a constant: it reads nothing and produces one tensor, held in
/// a slot under the operator's name, with the dimension sizes given.
pub open spec fn lowered_constant(operator: OperatorView) -> Option<NodeView> {
    if operator.inputs.len() == 0 && operator.outputs.len() == 1 {
        match (operator.outputs[0], operator.dims) {
            (TypeView::Tensor(output), Some(dims)) => if are_sizes(dims) {
                Some(
                    NodeView::Constant(
                        ConstantNodeView { name: operator.name, output, dims: as_sizes(dims) },
                    ),
                )
            } else {
                None
            },
            _ => None,
        }
    } else {
        None
    }
}

/// The node of `operator`, where its kind is recognized and it has what its
/// kind asks for.
pub open spec fn lowered(operator: OperatorView) -> Option<NodeView> {
    match unary_kind(operator.kind) {
        Some(kind) => lowered_unary(operator, kind),
        None => match binary_kind(operator.kind) {
            Some(kind) => lowered_binary(operator, kind),
            None => if operator.kind == "Expand"@ {
                lowered_expand(operator)
            } else if operator.kind == "Constant"@ {
                lowered_constant(operator)
            } else {
                None
            },
        },
    }
}

/// Why `operator`, at `position` of its list, has no node, if it has none.
pub open spec fn failure(operator: OperatorView, position: usize) -> Option<LoweringErrorView> {
    if !recognized(operator.kind) {
        Some(LoweringErrorView::UnsupportedOperator { position, kind: operator.kind })
    } else if lowered(operator) is None {
        Some(LoweringErrorView::MalformedOperator { position })
    } else {
        None
    }
}

/// The index of the first of the first `count` operators whose kind is not
/// recognized, if there is one.
pub open spec fn first_unsupported(operators: Seq<OperatorView>, count: int) -> Option<int>
    decreases count,
{
    if count <= 0 {
        None
    } else {
        match first_unsupported(operators, count - 1) {
            Some(i) => Some(i),
            None => if recognized(operators[count - 1].kind) {
                None
            } else {
                Some(count - 1)
            },
        }
    }
}

/// The index of the first of the first `count` operators that has no node,
/// if there is one.
pub open spec fn first_without_node(operators: Seq<OperatorView>, count: int) -> Option<int>
    decreases count,
{
    if count <= 0 {
        None
    } else {
        match first_without_node(operators, count - 1) {
            Some(i) => Some(i),
            None => if lowered(operators[count - 1]) is Some {
                None
            } else {
                Some(count - 1)
            },
        }
    }
}

/// Why `operators` have no nodes, if they have none. An operator of a kind
/// that is not recognized is reported before any other; of several, the
/// first.
pub open spec fn lowering_error(operators: Seq<OperatorView>) -> Option<LoweringErrorView> {
    match first_unsupported(operators, operators.len() as int) {
        Some(i) => Some(
            LoweringErrorView::UnsupportedOperator { position: i as usize, kind: operators[i].kind },
        ),
        None => match first_without_node(operators, operators.len() as int) {
            Some(i) => Some(LoweringErrorView::MalformedOperator { position: i as usize }),
            None => None,
        },
    }
}

/// The nodes of `operators`, in order.
pub open spec fn lowered_all(operators: Seq<OperatorView>) -> Seq<NodeView> {
    Seq::new(operators.len(), |i: int| lowered(operators[i])->0)
}

/// An operator of an unrecognized kind among the first `count` is the first
/// such operator of all, too.
pub proof fn lemma_first_unsupported_prefix(operators: Seq<OperatorView>, count: int)
    requires
        0 <= count <= operators.len(),
        first_unsupported(operators, count) is Some,
    ensures
        first_unsupported(operators, operators.len() as int) == first_unsupported(operators, count),
    decreases operators.len() - count,
{
    if count < operators.len() {
        lemma_first_unsupported_prefix(operators, count + 1);
    }
}

/// An operator without a node among the first `count` is the first such
/// operator of all, too.
pub proof fn lemma_first_without_node_prefix(operators: Seq<OperatorView>, count: int)
    requires
        0 <= count <= operators.len(),
        first_without_node(operators, count) is Some,
    ensures
        first_without_node(operators, operators.len() as int) == first_without_node(
            operators,
            count,
        ),
    decreases operators.len() - count,
{
    if count < operators.len() {
        lemma_first_without_node_prefix(operators, count + 1);
    }
}

fn is_kind(kind: &String, name: &str) -> (b: bool)
    ensures
        b == (kind@ == name@),
{
    *kind == name.to_owned()
}

fn unary_kind_of(kind: &String) -> (found: Option<UnaryKind>)
    ensures
        found == unary_kind(kind@),
{
    if is_kind(kind, "Abs") {
        Some(UnaryKind::Abs)
    } else if is_kind(kind, "Neg") {
        Some(UnaryKind::Neg)
    } else if is_kind(kind, "Exp") {
        Some(UnaryKind::Exp)
    } else if is_kind(kind, "Log") {
        Some(UnaryKind::Log)
    } else {
        None
    }
}

fn binary_kind_of(kind: &String) -> (found: Option<BinaryKind>)
    ensures
        found == binary_kind(kind@),
{
    if is_kind(kind, "Add") {
        Some(BinaryKind::Add)
    } else if is_kind(kind, "Sub") {
        Some(BinaryKind::Sub)
    } else if is_kind(kind, "Mul") {
        Some(BinaryKind::Mul)
    } else if is_kind(kind, "Div") {
        Some(BinaryKind::Div)
    } else {
        None
    }
}

fn sizes_of(dims: &Vec<i64>) -> (sizes: Option<Vec<usize>>)
    ensures
        match sizes {
            Some(sizes) => are_sizes(dims@) && sizes@ == as_sizes(dims@),
            None => !are_sizes(dims@),
        },
{
    let mut sizes: Vec<usize> = Vec::new();
    let mut i: usize = 0;
    while i < dims.len()
        invariant
            i <= dims@.len(),
            sizes@ == as_sizes(dims@.take(i as int)),
            are_sizes(dims@.take(i as int)),
        decreases dims@.len() - i,
    {
        let d = dims[i];
        if d < 0 || d as u64 > usize::MAX as u64 {
            return None;
        }
        sizes.push(d as usize);
        proof {
            assert(sizes@ =~= as_sizes(dims@.take(i + 1)));
        }
        i += 1;
    }
    proof {
        assert(dims@.take(dims@.len() as int) =~= dims@);
    }
    Some(sizes)
}

fn lower_unary(operator: &Operator, kind: UnaryKind) -> (node: Option<Node>)
    ensures
        match node {
            Some(node) => lowered_unary(operator@, kind) == Some(node@),
            None => lowered_unary(operator@, kind) is None,
        },
{
    if operator.inputs.len() == 1 && operator.outputs.len() == 1 && operator.dims.is_none() {
        match (&operator.inputs[0], &operator.outputs[0]) {
            (Type::Tensor(input), Type::Tensor(output)) => Some(
                Node::Unary(UnaryNode::new(input.clone(), output.clone(), kind)),
            ),
            _ => None,
        }
    } else {
        None
    }
}

fn lower_binary(operator: &Operator, kind: BinaryKind) -> (node: Option<Node>)
    ensures
        match node {
            Some(node) => lowered_binary(operator@, kind) == Some(node@),
            None => lowered_binary(operator@, kind) is None,
        },
{
    if operator.inputs.len() == 2 && operator.outputs.len() == 1 && operator.dims.is_none() {
        match (&operator.inputs[0], &operator.inputs[1], &operator.outputs[0]) {
            (Type::Tensor(lhs), Type::Tensor(rhs), Type::Tensor(output)) => Some(
                Node::Binary(BinaryNode::new(lhs.clone(), rhs.clone(), output.clone(), kind)),
            ),
            _ => None,
        }
    } else {
        None
    }
}

fn lower_expand(operator: &Operator) -> (node: Option<Node>)
    ensures
        match node {
            Some(node) => lowered_expand(operator@) == Some(node@),
            None => lowered_expand(operator@) is None,
        },
{
    if operator.outputs.len() == 1 && 1 <= operator.inputs.len() && operator.inputs.len() <= 2 {
        match (&operator.inputs[0], &operator.outputs[0]) {
            (Type::Tensor(input), Type::Tensor(output)) => {
                if operator.inputs.len() == 1 {
                    match &operator.dims {
                        Some(dims) => Some(
                            Node::Expand(
                                ExpandNode::new(
                                    input.clone(),
                                    output.clone(),
                                    ExpandShape::Static(copy_dims(dims)),
                                ),
                            ),
                        ),
                        None => None,
                    }
                } else {
                    match &operator.dims {
                        Some(_) => None,
                        None => Some(
                            Node::Expand(
                                ExpandNode::new(
                                    input.clone(),
                                    output.clone(),
                                    ExpandShape::Runtime(operator.inputs[1].clone()),
                                ),
                            ),
                        ),
                    }
                }
            },
            _ => None,
        }
    } else {
        None
    }
}

fn lower_constant(operator: &Operator) -> (node: Option<Node>)
    ensures
        match node {
            Some(node) => lowered_constant(operator@) == Some(node@),
            None => lowered_constant(operator@) is None,
        },
{
    if operator.inputs.len() == 0 && operator.outputs.len() == 1 {
        match (&operator.outputs[0], &operator.dims) {
            (Type::Tensor(output), Some(dims)) => match sizes_of(dims) {
                Some(sizes) => Some(
                    Node::Constant(ConstantNode::new(operator.name.as_str(), output.clone(), sizes)),
                ),
                None => None,
            },
            _ => None,
        }
    } else {
        None
    }
}

/// The node of the operator at `position` of its list; or why it has none.
pub fn lower_operator(operator: &Operator, position: usize) -> (result: Result<Node, LoweringError>)
    ensures
        match result {
            Ok(node) => failure(operator@, position) is None && lowered(operator@) == Some(node@),
            Err(error) => failure(operator@, position) == Some(error@),
        },
{
    let node = match unary_kind_of(&operator.kind) {
        Some(kind) => lower_unary(operator, kind),
        None => match binary_kind_of(&operator.kind) {
            Some(kind) => lower_binary(operator, kind),
            None => if is_kind(&operator.kind, "Expand") {
                lower_expand(operator)
            } else if is_kind(&operator.kind, "Constant") {
                lower_constant(operator)
            } else {
                return Err(
                    LoweringError::UnsupportedOperator { position, kind: operator.kind.clone() },
                );
            },
        },
    };
    match node {
        Some(node) => Ok(node),
        None => Err(LoweringError::MalformedOperator { position }),
    }
}

fn is_recognized(kind: &String) -> (b: bool)
    ensures
        b == recognized(kind@),
{
    unary_kind_of(kind).is_some() || binary_kind_of(kind).is_some() || is_kind(kind, "Expand")
        || is_kind(kind, "Constant")
}

/// The nodes of `operators`, in order; or why they have none. An operator of
/// a kind that is not recognized is reported before any other, with its
/// position and its kind.
pub fn lower(operators: &Vec<Operator>) -> (result: Result<Vec<Node>, LoweringError>)
    ensures
        match result {
            Ok(nodes) => {
                &&& lowering_error(operators_view(operators@)) is None
                &&& nodes_view(nodes@) == lowered_all(operators_view(operators@))
            },
            Err(error) => lowering_error(operators_view(operators@)) == Some(error@),
        },
{
    let ghost view = operators_view(operators@);
    let mut k: usize = 0;
    while k < operators.len()
        invariant
            k <= operators@.len(),
            view == operators_view(operators@),
            first_unsupported(view, k as int) is None,
        decreases operators@.len() - k,
    {
        if !is_recognized(&operators[k].kind) {
            proof {
                lemma_first_unsupported_prefix(view, k + 1);
            }
            return Err(
                LoweringError::UnsupportedOperator { position: k, kind: operators[k].kind.clone() },
            );
        }
        k += 1;
    }
    let mut nodes: Vec<Node> = Vec::new();
    let mut i: usize = 0;
    while i < operators.len()
        invariant
            i <= operators@.len(),
            view == operators_view(operators@),
            first_unsupported(view, operators@.len() as int) is None,
            first_without_node(view, i as int) is None,
            nodes@.len() == i,
            forall|j: int| 0 <= j < i ==> lowered(view[j]) == Some(#[trigger] nodes@[j]@),
        decreases operators@.len() - i,
    {
        match lower_operator(&operators[i], i) {
            Ok(node) => {
                nodes.push(node);
            },
            Err(_) => {
                proof {
                    lemma_first_without_node_prefix(view, i + 1);
                }
                return Err(LoweringError::MalformedOperator { position: i });
            },
        }
        i += 1;
    }
    proof {
        assert(nodes_view(nodes@) =~= lowered_all(view));
    }
    Ok(nodes)
}

/// Why no module was generated for a list of operators.
#[derive(Debug, PartialEq, Eq)]
pub enum GenerateError {
    /// An operator has no node.
    Lowering(LoweringError),
    /// The inputs and outputs could not be declared.
    Signature(SignatureError),
    /// The graph of the nodes has no module.
    Codegen(CodegenError),
}

/// Mathematical model of a [`GenerateError`].
pub enum GenerateErrorView {
    Lowering(LoweringErrorView),
    Signature(SignatureError),
    Codegen(CodegenErrorView),
}

impl View for GenerateError {
    type V = GenerateErrorView;

    open spec fn view(&self) -> GenerateErrorView {
        match self {
            GenerateError::Lowering(error) => GenerateErrorView::Lowering(error@),
            GenerateError::Signature(error) => GenerateErrorView::Signature(*error),
            GenerateError::Codegen(error) => GenerateErrorView::Codegen(error@),
        }
    }
}

/// The graph of the nodes of `operators`, with the inputs and outputs
/// declared by name.
pub open spec fn graph_of(
    operators: Seq<OperatorView>,
    inputs: Seq<Seq<char>>,
    outputs: Seq<Seq<char>>,
) -> GraphView {
    let nodes = lowered_all(operators);
    GraphView {
        nodes,
        inputs: resolve(all_inputs(nodes), inputs),
        outputs: resolve(all_outputs(nodes), outputs),
    }
}

/// What is generated for `operators`: the module of their graph; or why
/// there is none. The operators are lowered first, then the inputs and
/// outputs are declared, then the module is generated; the first step that
/// fails decides the error.
pub open spec fn generated(
    operators: Seq<OperatorView>,
    inputs: Seq<Seq<char>>,
    outputs: Seq<Seq<char>>,
) -> Result<ModuleView, GenerateErrorView> {
    match lowering_error(operators) {
        Some(error) => Err(GenerateErrorView::Lowering(error)),
        None => match signature_error(lowered_all(operators), inputs, outputs) {
            Some(error) => Err(GenerateErrorView::Signature(error)),
            None => match graph_of(operators, inputs, outputs).error() {
                Some(error) => Err(GenerateErrorView::Codegen(error)),
                None => Ok(graph_of(operators, inputs, outputs).module()),
            },
        },
    }
}

/// Generates the module for a list of operators, given in an order in which
/// every value is produced before it is read, with the inputs and outputs of
/// the whole declared by name. Nothing is generated where a step fails.
pub fn generate(operators: &Vec<Operator>, input_names: Vec<String>, output_names: Vec<String>) -> (result:
    Result<Module, GenerateError>)
    ensures
        match result {
            Ok(module) => generated(
                operators_view(operators@),
                strings_view(input_names@),
                strings_view(output_names@),
            ) == Ok::<ModuleView, GenerateErrorView>(module@),
            Err(error) => generated(
                operators_view(operators@),
                strings_view(input_names@),
                strings_view(output_names@),
            ) == Err::<ModuleView, GenerateErrorView>(error@),
        },
{
    let nodes = match lower(operators) {
        Ok(nodes) => nodes,
        Err(error) => {
            return Err(GenerateError::Lowering(error));
        },
    };
    let mut graph = BurnGraph::default();
    let mut i: usize = 0;
    proof {
        assert(nodes_view(nodes@).take(0) =~= Seq::<NodeView>::empty());
    }
    while i < nodes.len()
        invariant
            i <= nodes@.len(),
            graph@ == (GraphView {
                nodes: nodes_view(nodes@).take(i as int),
                inputs: Seq::empty(),
                outputs: Seq::empty(),
            }),
        decreases nodes@.len() - i,
    {
        graph.register(nodes[i].clone());
        proof {
            assert(nodes_view(nodes@).take(i as int).push(nodes@[i as int]@) =~= nodes_view(
                nodes@,
            ).take(i + 1));
        }
        i += 1;
    }
    proof {
        assert(nodes_view(nodes@).take(nodes@.len() as int) =~= nodes_view(nodes@));
    }
    match graph.register_input_output(input_names, output_names) {
        Ok(()) => {},
        Err(error) => {
            return Err(GenerateError::Signature(error));
        },
    }
    proof {
        let all = graph_of(
            operators_view(operators@),
            strings_view(input_names@),
            strings_view(output_names@),
        );
        assert(graph@.inputs =~= all.inputs);
        assert(graph@.outputs =~= all.outputs);
    }
    match graph.codegen() {
        Ok(module) => Ok(module),
        Err(error) => Err(GenerateError::Codegen(error)),
    }
}

} // verus!
