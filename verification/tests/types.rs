use burn_import::types::{
    is_valid_name, ElementKind, OtherType, ScalarType, ShapeType, TensorType, Type,
};

#[test]
fn tensor_constructors_set_name_rank_and_kind() {
    let float = TensorType::new_float("tensor1", 4);
    assert_eq!(float.name, "tensor1");
    assert_eq!(float.rank, 4);
    assert_eq!(float.kind, ElementKind::Float);

    assert_eq!(TensorType::new_int("t", 1).kind, ElementKind::Int);
    assert_eq!(TensorType::new_bool("t", 1).kind, ElementKind::Bool);
    assert_eq!(
        TensorType::new("t", 3, ElementKind::Int),
        TensorType { name: "t".to_string(), rank: 3, kind: ElementKind::Int }
    );
}

#[test]
fn type_name_is_the_name_of_the_value() {
    assert_eq!(Type::Tensor(TensorType::new_float("a", 2)).name(), "a");
    assert_eq!(Type::Scalar(ScalarType::new("b", ElementKind::Int)).name(), "b");
    assert_eq!(Type::Shape(ShapeType::new("c", 3)).name(), "c");
    assert_eq!(Type::Other(OtherType::new("d")).name(), "d");
}

#[test]
fn only_a_shape_is_a_host_array() {
    assert!(Type::Shape(ShapeType::new("s", 2)).is_host_array());
    assert!(!Type::Tensor(TensorType::new_float("t", 2)).is_host_array());
    assert!(!Type::Scalar(ScalarType::new("x", ElementKind::Float)).is_host_array());
    assert!(!Type::Other(OtherType::new("o")).is_host_array());
}

#[test]
fn only_a_tensor_needs_a_device_transfer() {
    assert!(Type::Tensor(TensorType::new_float("t", 2)).needs_device_transfer());
    assert!(!Type::Shape(ShapeType::new("s", 2)).needs_device_transfer());
    assert!(!Type::Scalar(ScalarType::new("x", ElementKind::Float)).needs_device_transfer());
    assert!(!Type::Other(OtherType::new("o")).needs_device_transfer());
}

#[test]
fn clone_keeps_the_type() {
    let ty = Type::Tensor(TensorType::new_bool("mask", 3));
    assert_eq!(ty.clone(), ty);
}

#[test]
fn declarations_are_written_by_kind() {
    let text = |ty: Type| ty.declaration().map(|tokens| tokens.to_string());
    assert_eq!(
        text(Type::Tensor(TensorType::new_float("t", 4))),
        Some("Tensor < B , 4 >".to_string())
    );
    assert_eq!(
        text(Type::Tensor(TensorType::new_int("t", 2))),
        Some("Tensor < B , 2 , Int >".to_string())
    );
    assert_eq!(
        text(Type::Tensor(TensorType::new_bool("t", 1))),
        Some("Tensor < B , 1 , Bool >".to_string())
    );
    assert_eq!(text(Type::Scalar(ScalarType::new("x", ElementKind::Float))), Some("f32".to_string()));
    assert_eq!(text(Type::Scalar(ScalarType::new("x", ElementKind::Int))), Some("i64".to_string()));
    assert_eq!(text(Type::Scalar(ScalarType::new("x", ElementKind::Bool))), Some("bool".to_string()));
    assert_eq!(text(Type::Shape(ShapeType::new("s", 4))), Some("[usize ; 4]".to_string()));
    assert_eq!(text(Type::Other(OtherType::new("o"))), None);
}

#[test]
fn valid_names_are_ascii_identifiers() {
    assert!(is_valid_name("tensor1"));
    assert!(is_valid_name("_x"));
    assert!(is_valid_name("A"));
    assert!(is_valid_name("conv2d_1_out"));
    assert!(!is_valid_name(""));
    assert!(!is_valid_name("1x"));
    assert!(!is_valid_name("a-b"));
    assert!(!is_valid_name("a b"));
    assert!(!is_valid_name("é"));
    assert!(!is_valid_name("x/y"));
}
