//! The static types of the values that flow through a graph.

use vstd::prelude::*;
use vstd::string::StrSliceExecFns;

verus! {

/// Whether `c` may start a value name.
pub open spec fn is_name_start(c: char) -> bool {
    c == '_' || ('a' <= c && c <= 'z') || ('A' <= c && c <= 'Z')
}

/// Whether `c` may follow the first character of a value name.
pub open spec fn is_name_continue(c: char) -> bool {
    is_name_start(c) || ('0' <= c && c <= '9')
}

/// A value name is a non-empty ASCII identifier.
pub open spec fn valid_name(s: Seq<char>) -> bool {
    &&& s.len() > 0
    &&& is_name_start(s[0])
    &&& forall|i: int| 0 < i < s.len() ==> is_name_continue(#[trigger] s[i])
}

fn name_start(c: char) -> (b: bool)
    ensures
        b == is_name_start(c),
{
    c == '_' || ('a' <= c && c <= 'z') || ('A' <= c && c <= 'Z')
}

fn name_continue(c: char) -> (b: bool)
    ensures
        b == is_name_continue(c),
{
    name_start(c) || ('0' <= c && c <= '9')
}

/// Whether `name` is a valid value name.
pub fn is_valid_name(name: &str) -> (b: bool)
    ensures
        b == valid_name(name@),
{
    let n = name.unicode_len();
    if n == 0 {
        return false;
    }
    if !name_start(name.get_char(0)) {
        return false;
    }
    let mut i: usize = 1;
    while i < n
        invariant
            1 <= i <= n,
            n == name@.len(),
            forall|j: int| 0 < j < i ==> is_name_continue(#[trigger] name@[j]),
        decreases n - i,
    {
        if !name_continue(name.get_char(i)) {
            return false;
        }
        i += 1;
    }
    true
}

/// Element kind of a tensor or scalar.
#[derive(Clone, Copy, Debug, PartialEq, Eq, Structural)]
pub enum ElementKind {
    Float,
    Int,
    Bool,
}

/// Mathematical model of a [`TensorType`].
pub struct TensorTypeView {
    pub name: Seq<char>,
    pub rank: nat,
    pub kind: ElementKind,
}

/// Mathematical model of a [`ScalarType`].
pub struct ScalarTypeView {
    pub name: Seq<char>,
    pub kind: ElementKind,
}

/// Mathematical model of a [`ShapeType`].
pub struct ShapeTypeView {
    pub name: Seq<char>,
    pub rank: nat,
}

/// Mathematical model of an [`OtherType`].
pub struct OtherTypeView {
    pub name: Seq<char>,
}

/// Mathematical model of a [`Type`].
pub enum TypeView {
    Tensor(TensorTypeView),
    Scalar(ScalarTypeView),
    Shape(ShapeTypeView),
    Other(OtherTypeView),
}

impl TypeView {
    /// The name of the value.
    pub open spec fn name(self) -> Seq<char> {
        match self {
            TypeView::Tensor(t) => t.name,
            TypeView::Scalar(s) => s.name,
            TypeView::Shape(s) => s.name,
            TypeView::Other(o) => o.name,
        }
    }

    /// Whether the value lives on the host as a fixed-size array that can be
    /// indexed directly.
    pub open spec fn is_host_array(self) -> bool {
        self is Shape
    }

    /// Whether reading the value's contents needs a transfer from the device.
    pub open spec fn needs_device_transfer(self) -> bool {
        self is Tensor
    }
}

/// A tensor of fixed rank and element kind.
#[derive(Debug, PartialEq, Eq)]
pub struct TensorType {
    pub name: String,
    pub rank: usize,
    pub kind: ElementKind,
}

/// A single element.
#[derive(Debug, PartialEq, Eq)]
pub struct ScalarType {
    pub name: String,
    pub kind: ElementKind,
}

/// A fixed-size array of dimension sizes.
#[derive(Debug, PartialEq, Eq)]
pub struct ShapeType {
    pub name: String,
    pub rank: usize,
}

/// A value the generator carries by name only.
#[derive(Debug, PartialEq, Eq)]
pub struct OtherType {
    pub name: String,
}

/// The type of a value that flows between nodes.
#[derive(Debug, PartialEq, Eq)]
pub enum Type {
    Tensor(TensorType),
    Scalar(ScalarType),
    Shape(ShapeType),
    Other(OtherType),
}

impl View for TensorType {
    type V = TensorTypeView;

    open spec fn view(&self) -> TensorTypeView {
        TensorTypeView { name: self.name@, rank: self.rank as nat, kind: self.kind }
    }
}

impl View for ScalarType {
    type V = ScalarTypeView;

    open spec fn view(&self) -> ScalarTypeView {
        ScalarTypeView { name: self.name@, kind: self.kind }
    }
}

impl View for ShapeType {
    type V = ShapeTypeView;

    open spec fn view(&self) -> ShapeTypeView {
        ShapeTypeView { name: self.name@, rank: self.rank as nat }
    }
}

impl View for OtherType {
    type V = OtherTypeView;

    open spec fn view(&self) -> OtherTypeView {
        OtherTypeView { name: self.name@ }
    }
}

impl View for Type {
    type V = TypeView;

    open spec fn view(&self) -> TypeView {
        match self {
            Type::Tensor(t) => TypeView::Tensor(t@),
            Type::Scalar(s) => TypeView::Scalar(s@),
            Type::Shape(s) => TypeView::Shape(s@),
            Type::Other(o) => TypeView::Other(o@),
        }
    }
}

/// The models of a sequence of types, in order.
pub open spec fn types_view(types: Seq<Type>) -> Seq<TypeView> {
    Seq::new(types.len(), |i: int| types[i]@)
}

/// The names of a sequence of types, in order.
pub open spec fn names_of(types: Seq<TypeView>) -> Seq<Seq<char>> {
    Seq::new(types.len(), |i: int| types[i].name())
}

impl TensorType {
    /// A tensor type with the given name, rank and element kind.
    pub fn new(name: &str, rank: usize, kind: ElementKind) -> (t: TensorType)
        ensures
            t@ == (TensorTypeView { name: name@, rank: rank as nat, kind }),
    {
        TensorType { name: name.to_owned(), rank, kind }
    }

    /// A tensor of floating-point elements.
    pub fn new_float(name: &str, rank: usize) -> (t: TensorType)
        ensures
            t@ == (TensorTypeView { name: name@, rank: rank as nat, kind: ElementKind::Float }),
    {
        TensorType::new(name, rank, ElementKind::Float)
    }

    /// A tensor of integer elements.
    pub fn new_int(name: &str, rank: usize) -> (t: TensorType)
        ensures
            t@ == (TensorTypeView { name: name@, rank: rank as nat, kind: ElementKind::Int }),
    {
        TensorType::new(name, rank, ElementKind::Int)
    }

    /// A tensor of boolean elements.
    pub fn new_bool(name: &str, rank: usize) -> (t: TensorType)
        ensures
            t@ == (TensorTypeView { name: name@, rank: rank as nat, kind: ElementKind::Bool }),
    {
        TensorType::new(name, rank, ElementKind::Bool)
    }
}

impl Clone for TensorType {
    fn clone(&self) -> (t: TensorType)
        ensures
            t@ == self@,
    {
        TensorType { name: self.name.clone(), rank: self.rank, kind: self.kind }
    }
}

impl ScalarType {
    /// A scalar type with the given name and element kind.
    pub fn new(name: &str, kind: ElementKind) -> (t: ScalarType)
        ensures
            t@ == (ScalarTypeView { name: name@, kind }),
    {
        ScalarType { name: name.to_owned(), kind }
    }
}

impl Clone for ScalarType {
    fn clone(&self) -> (t: ScalarType)
        ensures
            t@ == self@,
    {
        ScalarType { name: self.name.clone(), kind: self.kind }
    }
}

impl ShapeType {
    /// A shape type with the given name and number of dimensions.
    pub fn new(name: &str, rank: usize) -> (t: ShapeType)
        ensures
            t@ == (ShapeTypeView { name: name@, rank: rank as nat }),
    {
        ShapeType { name: name.to_owned(), rank }
    }
}

impl Clone for ShapeType {
    fn clone(&self) -> (t: ShapeType)
        ensures
            t@ == self@,
    {
        ShapeType { name: self.name.clone(), rank: self.rank }
    }
}

impl OtherType {
    /// An opaque type with the given name.
    pub fn new(name: &str) -> (t: OtherType)
        ensures
            t@ == (OtherTypeView { name: name@ }),
    {
        OtherType { name: name.to_owned() }
    }
}

impl Clone for OtherType {
    fn clone(&self) -> (t: OtherType)
        ensures
            t@ == self@,
    {
        OtherType { name: self.name.clone() }
    }
}

impl Type {
    /// The name of the value.
    pub fn name(&self) -> (name: &String)
        ensures
            name@ == self@.name(),
    {
        match self {
            Type::Tensor(t) => &t.name,
            Type::Scalar(s) => &s.name,
            Type::Shape(s) => &s.name,
            Type::Other(o) => &o.name,
        }
    }

    /// Whether the value is a host-side array that supports direct indexing.
    pub fn is_host_array(&self) -> (b: bool)
        ensures
            b == self@.is_host_array(),
    {
        match self {
            Type::Shape(_) => true,
            _ => false,
        }
    }

    /// Whether reading the value's contents needs a transfer from the device.
    pub fn needs_device_transfer(&self) -> (b: bool)
        ensures
            b == self@.needs_device_transfer(),
    {
        match self {
            Type::Tensor(_) => true,
            _ => false,
        }
    }
}

impl Clone for Type {
    fn clone(&self) -> (t: Type)
        ensures
            t@ == self@,
    {
        match self {
            Type::Tensor(t) => Type::Tensor(t.clone()),
            Type::Scalar(s) => Type::Scalar(s.clone()),
            Type::Shape(s) => Type::Shape(s.clone()),
            Type::Other(o) => Type::Other(o.clone()),
        }
    }
}

} // verus!
