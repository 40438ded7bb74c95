use burn_import::code::{BinaryKind, Field, Module, Operand, ShapeArg, Statement, UnaryKind};
use burn_import::graph::BurnGraph;
use burn_import::node::binary::BinaryNode;
use burn_import::node::constant::ConstantNode;
use burn_import::node::expand::{ExpandNode, ExpandShape};
use burn_import::node::unary::UnaryNode;
use burn_import::scope::Access;
use burn_import::types::{ElementKind, OtherType, ScalarType, ShapeType, TensorType, Type};
use proc_macro2::{Delimiter, TokenStream, TokenTree};

/// The tokens of `stream` without the spacing of punctuation and without a
/// comma before a closing bracket.
fn flat_tokens(stream: TokenStream, flat: &mut Vec<String>) {
    for tree in stream {
        match tree {
            TokenTree::Group(group) => {
                let (open, close) = match group.delimiter() {
                    Delimiter::Parenthesis => ("(", ")"),
                    Delimiter::Brace => ("{", "}"),
                    Delimiter::Bracket => ("[", "]"),
                    Delimiter::None => ("", ""),
                };
                flat.push(format!("open {open}"));
                flat_tokens(group.stream(), flat);
                if flat.last().map(String::as_str) == Some("punct ,") {
                    flat.pop();
                }
                flat.push(format!("close {close}"));
            }
            TokenTree::Ident(ident) => flat.push(format!("ident {ident}")),
            TokenTree::Punct(punct) => flat.push(format!("punct {}", punct.as_char())),
            TokenTree::Literal(literal) => flat.push(format!("literal {literal}")),
        }
    }
}

fn assert_source(module: &Module, expected: &str) {
    let generated = module.to_tokens().unwrap();
    // What was generated is source that lexes to the same tokens again.
    let printed: TokenStream = generated.to_string().parse().unwrap();
    let expected: TokenStream = expected.parse().unwrap();
    let mut left = Vec::new();
    flat_tokens(generated, &mut left);
    let mut again = Vec::new();
    flat_tokens(printed, &mut again);
    let mut right = Vec::new();
    flat_tokens(expected, &mut right);
    assert_eq!(left, right);
    assert_eq!(again, right);
}

fn module_with(body: Vec<Statement>, inputs: Vec<Type>, outputs: Vec<Type>) -> Module {
    Module { imports_bool: false, imports_int: false, fields: vec![], inputs, outputs, body }
}

fn float(name: &str) -> TensorType {
    TensorType::new_float(name, 2)
}

const STATE: &str = "
    use burn::{
        module::Module,
        tensor::{backend::Backend, Tensor},
    };

    #[derive(Module, Debug)]
    pub struct Model<B: Backend> {
        phantom: core::marker::PhantomData<B>,
        device: burn::module::Ignored<B::Device>,
    }
";

const CONSTRUCTOR: &str = "
    #[allow(unused_variables)]
    pub fn new(device: &B::Device) -> Self {
        Self {
            phantom: core::marker::PhantomData,
            device: burn::module::Ignored(device.clone()),
        }
    }
";

fn with_forward(forward: &str) -> String {
    format!(
        "{STATE} impl<B: Backend> Model<B> {{ {CONSTRUCTOR}
            #[allow(clippy::let_and_return, clippy::approx_constant)]
            {forward}
        }}"
    )
}

#[test]
fn three_nodes_end_to_end() {
    let mut graph = BurnGraph::default();
    graph.register(ConstantNode::new("weights", float("t1"), vec![2, 3]));
    graph.register(UnaryNode::new(float("t1"), float("t2"), UnaryKind::Abs));
    graph.register(BinaryNode::new(float("t1"), float("t2"), float("t3"), BinaryKind::Add));
    graph.register_input_output(vec![], vec!["t3".to_string()]).unwrap();

    let expected = "
        use burn::{
            module::Module,
            tensor::{backend::Backend, Tensor},
        };

        #[derive(Module, Debug)]
        pub struct Model<B: Backend> {
            weights: burn::module::Param<Tensor<B, 2>>,
            phantom: core::marker::PhantomData<B>,
            device: burn::module::Ignored<B::Device>,
        }

        impl<B: Backend> Model<B> {
            #[allow(unused_variables)]
            pub fn new(device: &B::Device) -> Self {
                let weights: burn::module::Param<Tensor<B, 2>> = burn::module::Param::uninitialized(
                    burn::module::ParamId::new(),
                    move |device, _require_grad| Tensor::<B, 2>::zeros([2, 3], &device),
                    device.clone(),
                    false,
                );
                Self {
                    weights,
                    phantom: core::marker::PhantomData,
                    device: burn::module::Ignored(device.clone()),
                }
            }
            #[allow(clippy::let_and_return, clippy::approx_constant)]
            pub fn forward(&self) -> Tensor<B, 2> {
                let t1 = self.weights.val();
                let t2 = t1.clone().abs();
                let t3 = t1.add(t2);
                t3
            }
        }
    ";
    assert_source(&graph.codegen().unwrap(), expected);
}

#[test]
fn an_output_is_returned_without_a_clone() {
    let mut graph = BurnGraph::default();
    graph.register(UnaryNode::new(float("x"), float("y"), UnaryKind::Exp));
    graph.register(UnaryNode::new(float("y"), float("z"), UnaryKind::Log));
    graph
        .register_input_output(vec!["x".to_string()], vec!["y".to_string(), "z".to_string()])
        .unwrap();
    let expected = with_forward(
        "pub fn forward(&self, x: Tensor<B, 2>) -> (Tensor<B, 2>, Tensor<B, 2>) {
            let y = x.exp();
            let z = y.clone().log();
            (y, z)
        }",
    );
    assert_source(&graph.codegen().unwrap(), &expected);
}

#[test]
fn every_operation_has_its_method() {
    let unary = |function, name: &str| Statement::Unary {
        output: name.to_string(),
        function,
        input: Operand { name: "x".to_string(), access: Access::Clone },
    };
    let binary = |operator, name: &str| Statement::Binary {
        output: name.to_string(),
        operator,
        lhs: Operand { name: "x".to_string(), access: Access::Clone },
        rhs: Operand { name: "y".to_string(), access: Access::Consume },
    };
    let module = module_with(
        vec![
            unary(UnaryKind::Abs, "a"),
            unary(UnaryKind::Neg, "b"),
            unary(UnaryKind::Exp, "c"),
            unary(UnaryKind::Log, "d"),
            binary(BinaryKind::Add, "e"),
            binary(BinaryKind::Sub, "f"),
            binary(BinaryKind::Mul, "g"),
            binary(BinaryKind::Div, "h"),
        ],
        vec![],
        vec![Type::Tensor(float("h"))],
    );
    let expected = with_forward(
        "pub fn forward(&self) -> Tensor<B, 2> {
            let a = x.clone().abs();
            let b = x.clone().neg();
            let c = x.clone().exp();
            let d = x.clone().log();
            let e = x.clone().add(y);
            let f = x.clone().sub(y);
            let g = x.clone().mul(y);
            let h = x.clone().div(y);
            h
        }",
    );
    assert_source(&module, &expected);
}

#[test]
fn negative_and_extreme_dimensions_are_written_out() {
    let module = module_with(
        vec![Statement::Expand {
            output: "y".to_string(),
            input: Operand { name: "x".to_string(), access: Access::Consume },
            shape: ShapeArg::Literal(vec![-1, 0, 7, i64::MIN, i64::MAX]),
        }],
        vec![Type::Tensor(float("x"))],
        vec![Type::Tensor(float("y"))],
    );
    let expected = with_forward(
        "pub fn forward(&self, x: Tensor<B, 2>) -> Tensor<B, 2> {
            let y = x.expand([-1, 0, 7, -9223372036854775808, 9223372036854775807]);
            y
        }",
    );
    assert_source(&module, &expected);
}

#[test]
fn an_empty_shape_is_an_empty_array() {
    let module = module_with(
        vec![Statement::Expand {
            output: "y".to_string(),
            input: Operand { name: "x".to_string(), access: Access::Clone },
            shape: ShapeArg::Literal(vec![]),
        }],
        vec![],
        vec![],
    );
    let expected = with_forward(
        "pub fn forward(&self) -> () {
            let y = x.clone().expand([]);
            ()
        }",
    );
    assert_source(&module, &expected);
}

#[test]
fn scalars_and_shapes_are_declared_by_their_types() {
    let module = module_with(
        vec![],
        vec![
            Type::Scalar(ScalarType::new("alpha", ElementKind::Float)),
            Type::Scalar(ScalarType::new("count", ElementKind::Int)),
            Type::Scalar(ScalarType::new("flag", ElementKind::Bool)),
            Type::Shape(ShapeType::new("shape", 3)),
        ],
        vec![Type::Scalar(ScalarType::new("alpha", ElementKind::Float))],
    );
    let expected = with_forward(
        "pub fn forward(&self, alpha: f32, count: i64, flag: bool, shape: [usize; 3]) -> f32 {
            alpha
        }",
    );
    assert_source(&module, &expected);
}

#[test]
fn imports_of_element_kinds_come_first() {
    let module = Module {
        imports_bool: true,
        imports_int: true,
        fields: vec![Field {
            name: "table".to_string(),
            ty: TensorType::new_int("t", 1),
            dims: vec![10],
        }],
        inputs: vec![Type::Tensor(TensorType::new_bool("mask", 1))],
        outputs: vec![Type::Tensor(TensorType::new_int("t", 1))],
        body: vec![Statement::Constant { output: "t".to_string(), field: "table".to_string() }],
    };
    let expected = "
        use burn::tensor::Bool;
        use burn::tensor::Int;
        use burn::{
            module::Module,
            tensor::{backend::Backend, Tensor},
        };

        #[derive(Module, Debug)]
        pub struct Model<B: Backend> {
            table: burn::module::Param<Tensor<B, 1, Int>>,
            phantom: core::marker::PhantomData<B>,
            device: burn::module::Ignored<B::Device>,
        }

        impl<B: Backend> Model<B> {
            #[allow(unused_variables)]
            pub fn new(device: &B::Device) -> Self {
                let table: burn::module::Param<Tensor<B, 1, Int>> = burn::module::Param::uninitialized(
                    burn::module::ParamId::new(),
                    move |device, _require_grad| Tensor::<B, 1, Int>::zeros([10], &device),
                    device.clone(),
                    false,
                );
                Self {
                    table,
                    phantom: core::marker::PhantomData,
                    device: burn::module::Ignored(device.clone()),
                }
            }
            #[allow(clippy::let_and_return, clippy::approx_constant)]
            pub fn forward(&self, mask: Tensor<B, 1, Bool>) -> Tensor<B, 1, Int> {
                let t = self.table.val();
                t
            }
        }
    ";
    assert_source(&module, expected);
}

#[test]
fn the_tensor_conversion_uses_the_rank_of_the_output() {
    let mut graph = BurnGraph::default();
    graph.register(ExpandNode::new(
        TensorType::new_float("x", 1),
        TensorType::new_float("y", 3),
        ExpandShape::Runtime(Type::Tensor(TensorType::new_int("dims", 1))),
    ));
    graph
        .register_input_output(vec!["x".to_string(), "dims".to_string()], vec!["y".to_string()])
        .unwrap();
    let text = graph.codegen().unwrap().to_tokens().unwrap().to_string();
    assert!(text.contains("[B :: IntElem ; 3usize]"));
    assert!(text.contains("dims . to_data () . as_slice :: < B :: IntElem > () . unwrap ()"));
}

#[test]
fn joint_punctuation_prints_as_one_operator() {
    let module = module_with(vec![], vec![], vec![Type::Tensor(float("y"))]);
    let text = module.to_tokens().unwrap().to_string();
    assert!(text.contains("core :: marker :: PhantomData"));
    assert!(text.contains("-> Tensor < B , 2 >"));
    assert!(!text.contains(": :"));
    assert!(!text.contains("- >"));
}

#[test]
fn a_module_with_an_invalid_name_is_not_written() {
    let statement = |output: &str| Statement::Constant {
        output: output.to_string(),
        field: "field".to_string(),
    };
    assert!(module_with(vec![statement("ok")], vec![], vec![]).is_writable());
    for bad in ["", "1x", "a b", "x-y", "naïve"] {
        let module = module_with(vec![statement(bad)], vec![], vec![]);
        assert!(!module.is_writable());
        assert!(module.to_tokens().is_none());
    }
}

#[test]
fn every_name_of_a_module_is_looked_at() {
    let good = || Operand { name: "x".to_string(), access: Access::Consume };
    let bad = || Operand { name: "x y".to_string(), access: Access::Consume };
    let bodies = vec![
        Statement::Constant { output: "o".to_string(), field: "".to_string() },
        Statement::Unary { output: "o".to_string(), function: UnaryKind::Abs, input: bad() },
        Statement::Binary {
            output: "o".to_string(),
            operator: BinaryKind::Add,
            lhs: bad(),
            rhs: good(),
        },
        Statement::Binary {
            output: "o".to_string(),
            operator: BinaryKind::Add,
            lhs: good(),
            rhs: bad(),
        },
        Statement::Expand {
            output: "o".to_string(),
            input: bad(),
            shape: ShapeArg::Literal(vec![]),
        },
        Statement::Expand {
            output: "o".to_string(),
            input: good(),
            shape: ShapeArg::Value("".to_string()),
        },
        Statement::Expand {
            output: "o".to_string(),
            input: good(),
            shape: ShapeArg::FromTensor { name: "9".to_string(), rank: 1 },
        },
    ];
    for statement in bodies {
        assert!(!module_with(vec![statement], vec![], vec![]).is_writable());
    }
    let bad_type = Type::Tensor(TensorType::new_float("no good", 1));
    assert!(!module_with(vec![], vec![bad_type.clone()], vec![]).is_writable());
    assert!(!module_with(vec![], vec![], vec![bad_type]).is_writable());
    let mut module = module_with(vec![], vec![], vec![]);
    module.fields.push(Field { name: "".to_string(), ty: float("t"), dims: vec![] });
    assert!(!module.is_writable());
}

#[test]
fn an_opaque_value_in_the_signature_is_not_written() {
    let opaque = Type::Other(OtherType::new("o"));
    assert!(module_with(vec![], vec![opaque.clone()], vec![]).to_tokens().is_none());
    assert!(module_with(vec![], vec![], vec![opaque]).to_tokens().is_none());
}
