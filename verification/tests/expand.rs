use burn_import::graph::BurnGraph;
use burn_import::node::expand::{ExpandNode, ExpandShape};
use burn_import::types::{ShapeType, TensorType, Type};
use proc_macro2::{Delimiter, TokenStream, TokenTree};

/// The tokens of `stream` as a formatter sees them: without the spacing of
/// punctuation, and without a comma before a closing bracket.
fn flatten(stream: TokenStream, flat: &mut Vec<String>) {
    for tree in stream {
        match tree {
            TokenTree::Group(group) => {
                let (open, close) = match group.delimiter() {
                    Delimiter::Parenthesis => ("(", ")"),
                    Delimiter::Brace => ("{", "}"),
                    Delimiter::Bracket => ("[", "]"),
                    Delimiter::None => ("", ""),
                };
                flat.push(format!("open {open}"));
                flatten(group.stream(), flat);
                if flat.last().map(String::as_str) == Some("punct ,") {
                    flat.pop();
                }
                flat.push(format!("close {close}"));
            }
            TokenTree::Ident(ident) => flat.push(format!("ident {ident}")),
            TokenTree::Punct(punct) => flat.push(format!("punct {}", punct.as_char())),
            TokenTree::Literal(literal) => flat.push(format!("literal {literal}")),
        }
    }
}

fn assert_tokens(generated: TokenStream, expected: &str) {
    let expected: TokenStream = expected.parse().unwrap();
    let mut left = Vec::new();
    flatten(generated, &mut left);
    let mut right = Vec::new();
    flatten(expected, &mut right);
    assert_eq!(left, right);
}

#[test]
fn test_codegen_expand_static() {
    let mut graph = BurnGraph::default();

    graph.register(ExpandNode::new(
        TensorType::new_float("tensor1", 4),
        TensorType::new_float("tensor2", 4),
        ExpandShape::Static([4, 4, 4, 4].into()),
    ));

    graph
        .register_input_output(vec!["tensor1".to_string()], vec!["tensor2".to_string()])
        .unwrap();

    let expected = "
        use burn::{
            module::Module,
            tensor::{backend::Backend, Tensor},
        };

        #[derive(Module, Debug)]
        pub struct Model<B: Backend> {
            phantom: core::marker::PhantomData<B>,
            device: burn::module::Ignored<B::Device>,
        }

        impl<B: Backend> Model <B> {
            #[allow(unused_variables)]
            pub fn new(device: &B::Device) -> Self {
                Self {
                    phantom: core::marker::PhantomData,
                    device: burn::module::Ignored(device.clone()),
                }
            }
            #[allow(clippy::let_and_return, clippy::approx_constant)]
            pub fn forward(&self, tensor1: Tensor<B, 4>) -> Tensor<B, 4> {
                let tensor2 = tensor1.expand([4,4,4,4]);

                tensor2
            }
        }
    ";

    assert_tokens(graph.codegen().unwrap().to_tokens().unwrap(), expected);
}

#[test]
fn test_codegen_expand_shape() {
    let mut graph = BurnGraph::default();

    graph.register(ExpandNode::new(
        TensorType::new_float("tensor1", 4),
        TensorType::new_float("tensor2", 4),
        ExpandShape::Runtime(Type::Shape(ShapeType::new("shape1", 4))),
    ));

    graph
        .register_input_output(
            vec!["tensor1".to_string(), "shape1".to_string()],
            vec!["tensor2".to_string()],
        )
        .unwrap();

    let expected = "
        use burn::{
            module::Module,
            tensor::{backend::Backend, Tensor},
        };

        #[derive(Module, Debug)]
        pub struct Model<B: Backend> {
            phantom: core::marker::PhantomData<B>,
            device: burn::module::Ignored<B::Device>,
        }

        impl<B: Backend> Model <B> {
            #[allow(unused_variables)]
            pub fn new(device: &B::Device) -> Self {
                Self {
                    phantom: core::marker::PhantomData,
                    device: burn::module::Ignored(device.clone()),
                }
            }
            #[allow(clippy::let_and_return, clippy::approx_constant)]
            pub fn forward(
                &self,
                tensor1: Tensor<B, 4>,
                shape1: [usize; 4],
            ) -> Tensor<B, 4> {
                let tensor2 = tensor1.expand(shape1);

                tensor2
            }
        }
    ";

    assert_tokens(graph.codegen().unwrap().to_tokens().unwrap(), expected);
}

#[test]
fn test_codegen_expand_tensor() {
    let mut graph = BurnGraph::default();

    let shape_tensor_type = TensorType::new_int("tensor3", 4);

    graph.register(ExpandNode::new(
        TensorType::new_float("tensor1", 4),
        TensorType::new_float("tensor2", 4),
        ExpandShape::Runtime(Type::Tensor(shape_tensor_type)),
    ));

    graph
        .register_input_output(
            vec!["tensor1".to_string(), "tensor3".to_string()],
            vec!["tensor2".to_string()],
        )
        .unwrap();

    let expected = "
        use burn::tensor::Int;
        use burn::{
            module::Module,
            tensor::{backend::Backend, Tensor},
        };

        #[derive(Module, Debug)]
        pub struct Model<B: Backend> {
            phantom: core::marker::PhantomData<B>,
            device: burn::module::Ignored<B::Device>,
        }

        impl<B: Backend> Model <B> {
            #[allow(unused_variables)]
            pub fn new(device: &B::Device) -> Self {
                Self {
                    phantom: core::marker::PhantomData,
                    device: burn::module::Ignored(device.clone()),
                }
            }
            #[allow(clippy::let_and_return, clippy::approx_constant)]
            pub fn forward(
                &self,
                tensor1: Tensor<B, 4>,
                tensor3: Tensor<B, 4, Int>,
            ) -> Tensor<B, 4> {
                let tensor2 = tensor1.expand(
                    TryInto::<[B::IntElem; 4usize]>::try_into(tensor3.to_data().as_slice::<B::IntElem>().unwrap())
                        .unwrap(),
                );
                tensor2
            }
        }
    ";

    assert_tokens(graph.codegen().unwrap().to_tokens().unwrap(), expected);
}
