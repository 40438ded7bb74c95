use burn_import::code::{BinaryKind, Field, Operand, ShapeArg, Statement, UnaryKind};
use burn_import::error::CodegenError;
use burn_import::node::binary::BinaryNode;
use burn_import::node::constant::ConstantNode;
use burn_import::node::expand::{ExpandNode, ExpandShape};
use burn_import::node::unary::UnaryNode;
use burn_import::node::{Node, NodeCodegen};
use burn_import::scope::{Access, Scope};
use burn_import::types::{ElementKind, OtherType, ScalarType, ShapeType, TensorType, Type};

fn expand_with(shape: ExpandShape) -> ExpandNode {
    ExpandNode::new(TensorType::new_float("tensor1", 4), TensorType::new_float("tensor2", 4), shape)
}

fn scope_reading(names: &[&str], position: usize) -> Scope {
    let mut scope = Scope::new();
    for name in names {
        scope.register_future_use(name, position);
    }
    scope
}

#[test]
fn expand_with_static_shape_reads_one_value() {
    let node = expand_with(ExpandShape::Static(vec![4, 4, 4, 4]));
    assert_eq!(node.input_types(), vec![Type::Tensor(TensorType::new_float("tensor1", 4))]);
}

#[test]
fn expand_with_runtime_shape_reads_two_values() {
    let shape = Type::Shape(ShapeType::new("shape1", 4));
    let node = expand_with(ExpandShape::Runtime(shape.clone()));
    let inputs = node.input_types();
    assert_eq!(inputs.len(), 2);
    assert_eq!(inputs[0], Type::Tensor(TensorType::new_float("tensor1", 4)));
    assert_eq!(inputs[1], shape);

    let tensor = Type::Tensor(TensorType::new_int("tensor3", 1));
    let node = expand_with(ExpandShape::Runtime(tensor.clone()));
    assert_eq!(node.input_types()[1], tensor);
}

#[test]
fn reconfiguring_an_expand_node_changes_its_inputs() {
    let mut node = expand_with(ExpandShape::Static(vec![2, 3]));
    assert_eq!(node.input_types().len(), 1);
    node.shape = ExpandShape::Runtime(Type::Shape(ShapeType::new("s", 2)));
    assert_eq!(node.input_types().len(), 2);
    assert_eq!(node.input_types()[1], Type::Shape(ShapeType::new("s", 2)));
}

#[test]
fn expand_produces_its_output_tensor() {
    let node = expand_with(ExpandShape::Static(vec![1]));
    assert_eq!(node.output_types(), vec![Type::Tensor(TensorType::new_float("tensor2", 4))]);
    assert_eq!(node.field_type(), None);
}

#[test]
fn expand_static_statement_holds_the_dimensions() {
    let node = expand_with(ExpandShape::Static(vec![4, 4, 4, 4]));
    let mut scope = scope_reading(&["tensor1"], 0);
    assert_eq!(
        node.forward(&mut scope, 0),
        Ok(Statement::Expand {
            output: "tensor2".to_string(),
            input: Operand { name: "tensor1".to_string(), access: Access::Consume },
            shape: ShapeArg::Literal(vec![4, 4, 4, 4]),
        })
    );
}

#[test]
fn expand_shape_statement_passes_the_shape_by_name() {
    let node = expand_with(ExpandShape::Runtime(Type::Shape(ShapeType::new("shape1", 4))));
    let mut scope = scope_reading(&["tensor1", "shape1"], 0);
    assert_eq!(
        node.forward(&mut scope, 0),
        Ok(Statement::Expand {
            output: "tensor2".to_string(),
            input: Operand { name: "tensor1".to_string(), access: Access::Consume },
            shape: ShapeArg::Value("shape1".to_string()),
        })
    );
}

#[test]
fn expand_tensor_statement_converts_on_the_host() {
    let node = expand_with(ExpandShape::Runtime(Type::Tensor(TensorType::new_int("tensor3", 1))));
    let mut scope = scope_reading(&["tensor1", "tensor3"], 0);
    assert_eq!(
        node.forward(&mut scope, 0),
        Ok(Statement::Expand {
            output: "tensor2".to_string(),
            input: Operand { name: "tensor1".to_string(), access: Access::Consume },
            shape: ShapeArg::FromTensor { name: "tensor3".to_string(), rank: 4 },
        })
    );
}

#[test]
fn expand_counts_the_read_of_its_shape() {
    let node = expand_with(ExpandShape::Runtime(Type::Tensor(TensorType::new_int("tensor3", 1))));
    let mut scope = scope_reading(&["tensor1", "tensor3"], 0);
    scope.register_future_use("tensor3", 1);
    node.forward(&mut scope, 0).unwrap();
    // One read of the shape tensor is left: the one at position 1.
    assert_eq!(scope.use_owned("tensor3", 1), Access::Consume);
}

#[test]
fn expand_clones_an_input_that_is_read_again() {
    let node = expand_with(ExpandShape::Static(vec![2]));
    let mut scope = scope_reading(&["tensor1"], 0);
    scope.register_future_use("tensor1", 1);
    assert_eq!(
        node.forward(&mut scope, 0),
        Ok(Statement::Expand {
            output: "tensor2".to_string(),
            input: Operand { name: "tensor1".to_string(), access: Access::Clone },
            shape: ShapeArg::Literal(vec![2]),
        })
    );
}

#[test]
fn expand_rejects_a_scalar_as_shape() {
    let source = Type::Scalar(ScalarType::new("s", ElementKind::Int));
    let node = expand_with(ExpandShape::Runtime(source.clone()));
    let mut scope = scope_reading(&["tensor1", "s"], 7);
    assert_eq!(
        node.forward(&mut scope, 7),
        Err(CodegenError::InvalidShapeSource { position: 7, source })
    );
    // The scope is as it was: both reads are still pending.
    assert_eq!(scope.use_owned("tensor1", 7), Access::Consume);
    assert_eq!(scope.use_owned("s", 7), Access::Consume);
}

#[test]
fn expand_rejects_an_opaque_value_as_shape() {
    let source = Type::Other(OtherType::new("o"));
    let node = expand_with(ExpandShape::Runtime(source.clone()));
    let mut scope = scope_reading(&["tensor1", "o"], 0);
    assert_eq!(
        node.forward(&mut scope, 0),
        Err(CodegenError::InvalidShapeSource { position: 0, source })
    );
}

#[test]
fn expand_into_node_is_the_expand_variant() {
    let node = expand_with(ExpandShape::Static(vec![1, 2]));
    assert_eq!(node.clone().into_node(), Node::Expand(node));
}

#[test]
fn unary_node_reads_and_produces_one_tensor() {
    let node = UnaryNode::new(
        TensorType::new_float("x", 2),
        TensorType::new_float("y", 2),
        UnaryKind::Neg,
    );
    assert_eq!(node.input_types(), vec![Type::Tensor(TensorType::new_float("x", 2))]);
    assert_eq!(node.output_types(), vec![Type::Tensor(TensorType::new_float("y", 2))]);
    assert_eq!(node.field_type(), None);
    let mut scope = scope_reading(&["x"], 2);
    assert_eq!(
        node.forward(&mut scope, 2),
        Ok(Statement::Unary {
            output: "y".to_string(),
            function: UnaryKind::Neg,
            input: Operand { name: "x".to_string(), access: Access::Consume },
        })
    );
    assert_eq!(node.clone().into_node(), Node::Unary(node));
}

#[test]
fn binary_node_reads_left_then_right() {
    let node = BinaryNode::new(
        TensorType::new_float("a", 2),
        TensorType::new_float("b", 2),
        TensorType::new_float("c", 2),
        BinaryKind::Sub,
    );
    assert_eq!(
        node.input_types(),
        vec![
            Type::Tensor(TensorType::new_float("a", 2)),
            Type::Tensor(TensorType::new_float("b", 2)),
        ]
    );
    assert_eq!(node.output_types(), vec![Type::Tensor(TensorType::new_float("c", 2))]);
    let mut scope = scope_reading(&["a", "b"], 0);
    scope.register_future_use("b", 1);
    assert_eq!(
        node.forward(&mut scope, 0),
        Ok(Statement::Binary {
            output: "c".to_string(),
            operator: BinaryKind::Sub,
            lhs: Operand { name: "a".to_string(), access: Access::Consume },
            rhs: Operand { name: "b".to_string(), access: Access::Clone },
        })
    );
    assert_eq!(node.clone().into_node(), Node::Binary(node));
}

#[test]
fn binary_node_on_one_tensor_clones_then_consumes() {
    let node = BinaryNode::new(
        TensorType::new_float("a", 2),
        TensorType::new_float("a", 2),
        TensorType::new_float("c", 2),
        BinaryKind::Mul,
    );
    let mut scope = scope_reading(&["a", "a"], 0);
    assert_eq!(
        node.forward(&mut scope, 0),
        Ok(Statement::Binary {
            output: "c".to_string(),
            operator: BinaryKind::Mul,
            lhs: Operand { name: "a".to_string(), access: Access::Clone },
            rhs: Operand { name: "a".to_string(), access: Access::Consume },
        })
    );
}

#[test]
fn constant_node_reads_nothing_and_has_a_field() {
    let node = ConstantNode::new("weights", TensorType::new_float("w", 2), vec![3, 5]);
    assert_eq!(node.input_types(), vec![]);
    assert_eq!(node.output_types(), vec![Type::Tensor(TensorType::new_float("w", 2))]);
    assert_eq!(
        node.field_type(),
        Some(Field {
            name: "weights".to_string(),
            ty: TensorType::new_float("w", 2),
            dims: vec![3, 5],
        })
    );
    let mut scope = Scope::new();
    assert_eq!(
        node.forward(&mut scope, 0),
        Ok(Statement::Constant { output: "w".to_string(), field: "weights".to_string() })
    );
    assert_eq!(node.clone().into_node(), Node::Constant(node));
}

#[test]
fn a_node_entry_behaves_as_the_node_it_holds() {
    let expand = expand_with(ExpandShape::Runtime(Type::Shape(ShapeType::new("shape1", 4))));
    let entry = expand.clone().into_node();
    assert_eq!(entry.input_types(), expand.input_types());
    assert_eq!(entry.output_types(), expand.output_types());
    assert_eq!(entry.field_type(), expand.field_type());
    let mut first = scope_reading(&["tensor1", "shape1"], 0);
    let mut second = scope_reading(&["tensor1", "shape1"], 0);
    assert_eq!(entry.forward(&mut first, 0), expand.forward(&mut second, 0));
    assert_eq!(entry.clone().into_node(), entry);
}
