use burn_import::code::{BinaryKind, Operand, ShapeArg, Statement, UnaryKind};
use burn_import::error::{CodegenError, SignatureError};
use burn_import::lower::{generate, lower, lower_operator, GenerateError, LoweringError, Operator};
use burn_import::node::binary::BinaryNode;
use burn_import::node::constant::ConstantNode;
use burn_import::node::expand::{ExpandNode, ExpandShape};
use burn_import::node::unary::UnaryNode;
use burn_import::node::Node;
use burn_import::scope::Access;
use burn_import::types::{ElementKind, ScalarType, ShapeType, TensorType, Type};

fn tensor(name: &str) -> Type {
    Type::Tensor(TensorType::new_float(name, 2))
}

fn float(name: &str) -> TensorType {
    TensorType::new_float(name, 2)
}

fn operator(kind: &str, inputs: &[&str], outputs: &[&str], dims: Option<Vec<i64>>) -> Operator {
    Operator {
        kind: kind.to_string(),
        name: format!("{}_node", kind.to_lowercase()),
        inputs: inputs.iter().map(|name| tensor(name)).collect(),
        outputs: outputs.iter().map(|name| tensor(name)).collect(),
        dims,
    }
}

#[test]
fn unary_operators_are_lowered_by_kind() {
    for (kind, function) in [
        ("Abs", UnaryKind::Abs),
        ("Neg", UnaryKind::Neg),
        ("Exp", UnaryKind::Exp),
        ("Log", UnaryKind::Log),
    ] {
        assert_eq!(
            lower_operator(&operator(kind, &["x"], &["y"], None), 0),
            Ok(Node::Unary(UnaryNode::new(float("x"), float("y"), function)))
        );
    }
}

#[test]
fn binary_operators_are_lowered_by_kind() {
    for (kind, operation) in [
        ("Add", BinaryKind::Add),
        ("Sub", BinaryKind::Sub),
        ("Mul", BinaryKind::Mul),
        ("Div", BinaryKind::Div),
    ] {
        assert_eq!(
            lower_operator(&operator(kind, &["a", "b"], &["c"], None), 0),
            Ok(Node::Binary(BinaryNode::new(float("a"), float("b"), float("c"), operation)))
        );
    }
}

#[test]
fn expand_with_dimensions_is_static() {
    assert_eq!(
        lower_operator(&operator("Expand", &["x"], &["y"], Some(vec![4, 4, 4, 4])), 0),
        Ok(Node::Expand(ExpandNode::new(
            float("x"),
            float("y"),
            ExpandShape::Static(vec![4, 4, 4, 4])
        )))
    );
}

#[test]
fn expand_with_a_second_input_is_runtime() {
    let mut described = operator("Expand", &["x"], &["y"], None);
    described.inputs.push(Type::Shape(ShapeType::new("shape", 2)));
    assert_eq!(
        lower_operator(&described, 0),
        Ok(Node::Expand(ExpandNode::new(
            float("x"),
            float("y"),
            ExpandShape::Runtime(Type::Shape(ShapeType::new("shape", 2)))
        )))
    );
}

#[test]
fn constant_takes_its_name_and_sizes() {
    assert_eq!(
        lower_operator(&operator("Constant", &[], &["w"], Some(vec![3, 0, 5])), 0),
        Ok(Node::Constant(ConstantNode::new("constant_node", float("w"), vec![3, 0, 5])))
    );
}

#[test]
fn an_unknown_kind_is_reported_with_its_position() {
    assert_eq!(
        lower_operator(&operator("Conv2d", &["x"], &["y"], None), 5),
        Err(LoweringError::UnsupportedOperator { position: 5, kind: "Conv2d".to_string() })
    );
    // Kinds are told apart to the letter.
    for kind in ["abs", "ABS", "Abs ", "", "Expand2", "Constan"] {
        assert_eq!(
            lower_operator(&operator(kind, &["x"], &["y"], None), 0),
            Err(LoweringError::UnsupportedOperator { position: 0, kind: kind.to_string() })
        );
    }
}

#[test]
fn malformed_operators_are_reported_with_their_position() {
    let malformed = |described: Operator| {
        assert_eq!(
            lower_operator(&described, 3),
            Err(LoweringError::MalformedOperator { position: 3 })
        );
    };
    malformed(operator("Abs", &[], &["y"], None));
    malformed(operator("Abs", &["x", "x"], &["y"], None));
    malformed(operator("Abs", &["x"], &[], None));
    malformed(operator("Abs", &["x"], &["y"], Some(vec![1])));
    malformed(operator("Add", &["a"], &["c"], None));
    malformed(operator("Add", &["a", "b"], &["c", "d"], None));
    malformed(operator("Add", &["a", "b"], &["c"], Some(vec![])));
    malformed(operator("Expand", &["x"], &["y"], None));
    malformed(operator("Expand", &[], &["y"], Some(vec![1])));
    malformed(operator("Expand", &["x", "s"], &["y"], Some(vec![1])));
    malformed(operator("Expand", &["x", "s", "t"], &["y"], None));
    malformed(operator("Constant", &["x"], &["w"], Some(vec![1])));
    malformed(operator("Constant", &[], &["w"], None));
    malformed(operator("Constant", &[], &["w"], Some(vec![2, -1])));

    let mut scalar_in = operator("Neg", &[], &["y"], None);
    scalar_in.inputs.push(Type::Scalar(ScalarType::new("s", ElementKind::Float)));
    malformed(scalar_in);
    let mut shape_out = operator("Neg", &["x"], &[], None);
    shape_out.outputs.push(Type::Shape(ShapeType::new("s", 1)));
    malformed(shape_out);
}

#[test]
fn a_list_is_lowered_in_order() {
    let operators = vec![
        operator("Constant", &[], &["t1"], Some(vec![2, 2])),
        operator("Abs", &["t1"], &["t2"], None),
        operator("Add", &["t1", "t2"], &["t3"], None),
    ];
    assert_eq!(
        lower(&operators),
        Ok(vec![
            Node::Constant(ConstantNode::new("constant_node", float("t1"), vec![2, 2])),
            Node::Unary(UnaryNode::new(float("t1"), float("t2"), UnaryKind::Abs)),
            Node::Binary(BinaryNode::new(float("t1"), float("t2"), float("t3"), BinaryKind::Add)),
        ])
    );
    assert_eq!(lower(&vec![]), Ok(vec![]));
}

#[test]
fn one_unrecognized_operator_stops_the_generation() {
    for position in 0..4 {
        let mut operators = vec![
            operator("Constant", &[], &["t1"], Some(vec![2, 2])),
            operator("Abs", &["t1"], &["t2"], None),
            operator("Add", &["t1", "t2"], &["t3"], None),
        ];
        operators.insert(position, operator("Einsum", &["t1"], &["u"], None));
        let error = LoweringError::UnsupportedOperator { position, kind: "Einsum".to_string() };
        assert_eq!(lower(&operators), Err(error));
        let error = LoweringError::UnsupportedOperator { position, kind: "Einsum".to_string() };
        assert_eq!(
            generate(&operators, vec![], vec!["t3".to_string()]),
            Err(GenerateError::Lowering(error))
        );
    }
}

#[test]
fn an_unrecognized_kind_is_reported_before_a_malformed_operator() {
    let operators = vec![
        operator("Add", &["only_one"], &["c"], None),
        operator("Softmax", &["c"], &["d"], None),
        operator("Gelu", &["d"], &["e"], None),
    ];
    assert_eq!(
        lower(&operators),
        Err(LoweringError::UnsupportedOperator { position: 1, kind: "Softmax".to_string() })
    );
    // Without the unrecognized ones, the malformed operator is what is left.
    assert_eq!(
        lower(&vec![operator("Add", &["only_one"], &["c"], None)]),
        Err(LoweringError::MalformedOperator { position: 0 })
    );
}

#[test]
fn operators_are_generated_end_to_end() {
    let operators = vec![
        operator("Constant", &[], &["t1"], Some(vec![2, 2])),
        operator("Abs", &["t1"], &["t2"], None),
        operator("Expand", &["t2"], &["t3"], Some(vec![4, 2, 2])),
    ];
    let module = generate(&operators, vec![], vec!["t3".to_string()]).unwrap();
    assert_eq!(
        module.body,
        vec![
            Statement::Constant { output: "t1".to_string(), field: "constant_node".to_string() },
            Statement::Unary {
                output: "t2".to_string(),
                function: UnaryKind::Abs,
                input: Operand { name: "t1".to_string(), access: Access::Consume },
            },
            Statement::Expand {
                output: "t3".to_string(),
                input: Operand { name: "t2".to_string(), access: Access::Consume },
                shape: ShapeArg::Literal(vec![4, 2, 2]),
            },
        ]
    );
    assert_eq!(module.outputs, vec![tensor("t3")]);
}

#[test]
fn later_steps_report_their_own_errors() {
    let operators = vec![operator("Abs", &["x"], &["y"], None)];
    assert_eq!(
        generate(&operators, vec!["x".to_string()], vec!["z".to_string()]),
        Err(GenerateError::Signature(SignatureError::OutputNotFound { index: 0 }))
    );
    assert_eq!(
        generate(&operators, vec![], vec!["y".to_string()]),
        Err(GenerateError::Codegen(CodegenError::ReadBeforeProduced {
            position: 0,
            value: tensor("x"),
        }))
    );
    assert_eq!(
        generate(&vec![], vec![], vec![]),
        Err(GenerateError::Signature(SignatureError::EmptyGraph))
    );
}
