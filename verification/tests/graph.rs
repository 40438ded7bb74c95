use burn_import::code::{BinaryKind, Field, Module, Operand, ShapeArg, Statement, UnaryKind};
use burn_import::error::{CodegenError, SignatureError};
use burn_import::graph::BurnGraph;
use burn_import::node::binary::BinaryNode;
use burn_import::node::constant::ConstantNode;
use burn_import::node::expand::{ExpandNode, ExpandShape};
use burn_import::node::unary::UnaryNode;
use burn_import::node::NodeCodegen;
use burn_import::scope::Access;
use burn_import::types::{ElementKind, OtherType, ScalarType, ShapeType, TensorType, Type};

fn float(name: &str) -> TensorType {
    TensorType::new_float(name, 2)
}

fn names(list: &[&str]) -> Vec<String> {
    list.iter().map(|name| name.to_string()).collect()
}

fn operand(name: &str, access: Access) -> Operand {
    Operand { name: name.to_string(), access }
}

fn three_node_graph() -> BurnGraph {
    let mut graph = BurnGraph::default();
    graph.register(ConstantNode::new("weights", float("t1"), vec![2, 2]));
    graph.register(UnaryNode::new(float("t1"), float("t2"), UnaryKind::Abs));
    graph.register(BinaryNode::new(float("t1"), float("t2"), float("t3"), BinaryKind::Add));
    graph
}

#[test]
fn producer_and_two_consumers_clone_then_move() {
    let mut graph = three_node_graph();
    graph.register_input_output(vec![], names(&["t3"])).unwrap();

    let module = graph.codegen().unwrap();

    assert_eq!(
        module,
        Module {
            imports_bool: false,
            imports_int: false,
            fields: vec![Field { name: "weights".to_string(), ty: float("t1"), dims: vec![2, 2] }],
            inputs: vec![],
            outputs: vec![Type::Tensor(float("t3"))],
            body: vec![
                Statement::Constant { output: "t1".to_string(), field: "weights".to_string() },
                // Still needed by the last node: duplicated.
                Statement::Unary {
                    output: "t2".to_string(),
                    function: UnaryKind::Abs,
                    input: operand("t1", Access::Clone),
                },
                // Last reader of both: they are handed over.
                Statement::Binary {
                    output: "t3".to_string(),
                    operator: BinaryKind::Add,
                    lhs: operand("t1", Access::Consume),
                    rhs: operand("t2", Access::Consume),
                },
            ],
        }
    );
}

#[test]
fn a_declared_output_is_cloned_at_its_last_node() {
    let mut graph = three_node_graph();
    // t2 is returned as well, so the last node may not take it.
    graph.register_input_output(vec![], names(&["t2", "t3"])).unwrap();

    let module = graph.codegen().unwrap();

    assert_eq!(
        module.body[2],
        Statement::Binary {
            output: "t3".to_string(),
            operator: BinaryKind::Add,
            lhs: operand("t1", Access::Consume),
            rhs: operand("t2", Access::Clone),
        }
    );
    assert_eq!(module.outputs, vec![Type::Tensor(float("t2")), Type::Tensor(float("t3"))]);
}

#[test]
fn statements_follow_the_registration_order() {
    let mut graph = BurnGraph::default();
    graph.register(UnaryNode::new(float("x"), float("a"), UnaryKind::Exp));
    graph.register(UnaryNode::new(float("x"), float("b"), UnaryKind::Log));
    graph.register(UnaryNode::new(float("x"), float("c"), UnaryKind::Neg));
    graph.register_input_output(names(&["x"]), names(&["a", "b", "c"])).unwrap();

    let module = graph.codegen().unwrap();

    let expected: Vec<Statement> = [("a", UnaryKind::Exp, Access::Clone), ("b", UnaryKind::Log, Access::Clone), ("c", UnaryKind::Neg, Access::Consume)]
        .into_iter()
        .map(|(output, function, access)| Statement::Unary {
            output: output.to_string(),
            function,
            input: operand("x", access),
        })
        .collect();
    assert_eq!(module.body, expected);
}

#[test]
fn generation_depends_on_the_final_order_only() {
    let expand = ExpandNode::new(float("x"), float("y"), ExpandShape::Static(vec![2, 3]));
    let unary = UnaryNode::new(float("y"), float("z"), UnaryKind::Abs);

    // Nodes registered as they are, the signature declared in one call.
    let mut first = BurnGraph::default();
    first.register(expand.clone());
    first.register(unary.clone());
    first.register_input_output(names(&["x"]), names(&["z"])).unwrap();

    // Nodes registered as entries, the signature declared in two calls.
    let mut second = BurnGraph::default();
    second.register(expand.into_node());
    second.register(unary.into_node());
    second.register_input_output(names(&["x"]), vec![]).unwrap();
    second.register_input_output(vec![], names(&["z"])).unwrap();

    let first = first.codegen().unwrap();
    let second = second.codegen().unwrap();
    assert_eq!(first, second);
    assert_eq!(
        first.to_tokens().unwrap().to_string(),
        second.to_tokens().unwrap().to_string()
    );
}

#[test]
fn a_different_order_gives_different_accesses() {
    let reader = |output: &str| UnaryNode::new(float("x"), float(output), UnaryKind::Abs);
    let mut graph = BurnGraph::default();
    graph.register(reader("b"));
    graph.register(reader("a"));
    graph.register_input_output(names(&["x"]), names(&["a", "b"])).unwrap();
    let module = graph.codegen().unwrap();
    assert_eq!(
        module.body,
        vec![
            Statement::Unary {
                output: "b".to_string(),
                function: UnaryKind::Abs,
                input: operand("x", Access::Clone),
            },
            Statement::Unary {
                output: "a".to_string(),
                function: UnaryKind::Abs,
                input: operand("x", Access::Consume),
            },
        ]
    );
}

#[test]
fn signature_of_an_empty_graph_is_refused() {
    let mut graph = BurnGraph::default();
    assert_eq!(
        graph.register_input_output(names(&["x"]), names(&["y"])),
        Err(SignatureError::EmptyGraph)
    );
    assert_eq!(graph.register_input_output(vec![], vec![]), Err(SignatureError::EmptyGraph));
}

#[test]
fn unknown_input_name_is_reported_by_index() {
    let mut graph = three_node_graph();
    assert_eq!(
        graph.register_input_output(names(&["t1", "t2", "nope", "also_nope"]), names(&["t3"])),
        Err(SignatureError::InputNotFound { index: 2 })
    );
}

#[test]
fn unknown_output_name_is_reported_by_index() {
    let mut graph = three_node_graph();
    assert_eq!(
        graph.register_input_output(names(&["t1"]), names(&["t3", "nope"])),
        Err(SignatureError::OutputNotFound { index: 1 })
    );
}

#[test]
fn unknown_input_is_reported_before_unknown_output() {
    let mut graph = three_node_graph();
    assert_eq!(
        graph.register_input_output(names(&["nope"]), names(&["nope"])),
        Err(SignatureError::InputNotFound { index: 0 })
    );
}

#[test]
fn a_refused_signature_leaves_the_graph_unchanged() {
    let mut graph = BurnGraph::default();
    graph.register(UnaryNode::new(float("x"), float("y"), UnaryKind::Abs));
    assert!(graph.register_input_output(names(&["x"]), names(&["nope"])).is_err());
    graph.register_input_output(names(&["x"]), names(&["y"])).unwrap();
    let module = graph.codegen().unwrap();
    assert_eq!(module.inputs, vec![Type::Tensor(float("x"))]);
    assert_eq!(module.outputs, vec![Type::Tensor(float("y"))]);
}

#[test]
fn the_last_node_decides_the_type_of_a_name() {
    let mut graph = BurnGraph::default();
    graph.register(UnaryNode::new(
        TensorType::new_float("x", 2),
        TensorType::new_float("y", 2),
        UnaryKind::Abs,
    ));
    graph.register(UnaryNode::new(
        TensorType::new_int("x", 3),
        TensorType::new_int("z", 3),
        UnaryKind::Abs,
    ));
    graph.register_input_output(names(&["x"]), names(&["z"])).unwrap();
    let module = graph.codegen().unwrap();
    assert_eq!(module.inputs, vec![Type::Tensor(TensorType::new_int("x", 3))]);
    assert!(module.imports_int);
    assert!(!module.imports_bool);
}

#[test]
fn reading_a_value_that_does_not_exist_yet_is_refused() {
    let mut graph = BurnGraph::default();
    // The consumer of `y` comes before its producer.
    graph.register(UnaryNode::new(float("y"), float("z"), UnaryKind::Abs));
    graph.register(UnaryNode::new(float("x"), float("y"), UnaryKind::Abs));
    graph.register_input_output(names(&["x"]), names(&["z"])).unwrap();
    assert_eq!(
        graph.codegen(),
        Err(CodegenError::ReadBeforeProduced { position: 0, value: Type::Tensor(float("y")) })
    );
}

#[test]
fn a_value_that_is_no_declared_input_is_not_there() {
    let mut graph = BurnGraph::default();
    graph.register(BinaryNode::new(float("a"), float("b"), float("c"), BinaryKind::Add));
    graph.register_input_output(names(&["a"]), names(&["c"])).unwrap();
    assert_eq!(
        graph.codegen(),
        Err(CodegenError::ReadBeforeProduced { position: 0, value: Type::Tensor(float("b")) })
    );
}

#[test]
fn an_invalid_shape_source_stops_the_generation() {
    let source = Type::Scalar(ScalarType::new("s", ElementKind::Int));
    let mut graph = BurnGraph::default();
    graph.register(UnaryNode::new(float("x"), float("y"), UnaryKind::Abs));
    graph.register(ExpandNode::new(float("y"), float("z"), ExpandShape::Runtime(source.clone())));
    graph.register_input_output(names(&["x", "s"]), names(&["z"])).unwrap();
    assert_eq!(
        graph.codegen(),
        Err(CodegenError::InvalidShapeSource { position: 1, source })
    );
}

#[test]
fn a_missing_value_is_reported_before_the_configuration() {
    let source = Type::Scalar(ScalarType::new("s", ElementKind::Int));
    let mut graph = BurnGraph::default();
    graph.register(ExpandNode::new(float("x"), float("z"), ExpandShape::Runtime(source.clone())));
    graph.register_input_output(names(&["x"]), names(&["z"])).unwrap();
    assert_eq!(
        graph.codegen(),
        Err(CodegenError::ReadBeforeProduced { position: 0, value: source })
    );
}

#[test]
fn an_opaque_input_cannot_be_declared() {
    let source = Type::Other(OtherType::new("o"));
    let mut graph = BurnGraph::default();
    graph.register(ExpandNode::new(float("x"), float("z"), ExpandShape::Runtime(source.clone())));
    graph.register_input_output(names(&["x", "o"]), names(&["z"])).unwrap();
    assert_eq!(graph.codegen(), Err(CodegenError::UndeclarableType { value: source }));
}

#[test]
fn a_graph_without_signature_has_a_module_without_parameters() {
    let mut graph = BurnGraph::default();
    graph.register(ConstantNode::new("c", float("t"), vec![1]));
    let module = graph.codegen().unwrap();
    assert_eq!(module.inputs, vec![]);
    assert_eq!(module.outputs, vec![]);
    assert_eq!(
        module.body,
        vec![Statement::Constant { output: "t".to_string(), field: "c".to_string() }]
    );
}

#[test]
fn the_empty_graph_has_the_empty_module() {
    assert_eq!(
        BurnGraph::default().codegen(),
        Ok(Module {
            imports_bool: false,
            imports_int: false,
            fields: vec![],
            inputs: vec![],
            outputs: vec![],
            body: vec![],
        })
    );
}

#[test]
fn imports_follow_the_kinds_in_the_signature() {
    let mut graph = BurnGraph::default();
    graph.register(UnaryNode::new(
        TensorType::new_bool("mask", 2),
        TensorType::new_int("count", 2),
        UnaryKind::Abs,
    ));
    graph.register_input_output(names(&["mask"]), names(&["count"])).unwrap();
    let module = graph.codegen().unwrap();
    assert!(module.imports_bool);
    assert!(module.imports_int);
}

#[test]
fn a_shape_read_by_an_expand_node_is_an_input_of_its_own() {
    let mut graph = BurnGraph::default();
    graph.register(ExpandNode::new(
        float("x"),
        float("y"),
        ExpandShape::Runtime(Type::Shape(ShapeType::new("shape", 2))),
    ));
    graph.register_input_output(names(&["x", "shape"]), names(&["y"])).unwrap();
    let module = graph.codegen().unwrap();
    assert_eq!(
        module.inputs,
        vec![Type::Tensor(float("x")), Type::Shape(ShapeType::new("shape", 2))]
    );
    assert_eq!(
        module.body,
        vec![Statement::Expand {
            output: "y".to_string(),
            input: operand("x", Access::Consume),
            shape: ShapeArg::Value("shape".to_string()),
        }]
    );
}

#[test]
fn a_shape_tensor_that_is_read_later_is_taken_there() {
    let mut graph = BurnGraph::default();
    graph.register(ExpandNode::new(
        float("x"),
        float("y"),
        ExpandShape::Runtime(Type::Tensor(TensorType::new_int("dims", 1))),
    ));
    graph.register(UnaryNode::new(
        TensorType::new_int("dims", 1),
        TensorType::new_int("z", 1),
        UnaryKind::Abs,
    ));
    graph.register_input_output(names(&["x", "dims"]), names(&["y", "z"])).unwrap();
    let module = graph.codegen().unwrap();
    assert_eq!(
        module.body[1],
        Statement::Unary {
            output: "z".to_string(),
            function: UnaryKind::Abs,
            input: operand("dims", Access::Consume),
        }
    );
}

#[test]
fn the_scope_of_a_graph_holds_every_read() {
    let mut graph = three_node_graph();
    graph.register_input_output(vec![], names(&["t3"])).unwrap();
    let mut scope = graph.scope();
    // t1 is read by the nodes at 1 and 2, t2 by the node at 2.
    assert_eq!(scope.use_owned("t1", 1), Access::Clone);
    assert_eq!(scope.use_owned("t1", 2), Access::Consume);
    assert_eq!(scope.use_owned("t2", 2), Access::Consume);

    let mut graph = three_node_graph();
    graph.register_input_output(vec![], names(&["t2", "t3"])).unwrap();
    let mut scope = graph.scope();
    // The return reads t2 at the position after the last node.
    assert_eq!(scope.use_owned("t2", 2), Access::Clone);
    assert_eq!(scope.use_owned("t2", 3), Access::Consume);
    assert_eq!(scope.use_owned("t3", 3), Access::Consume);
}
