//! The generated module in abstract form: its state, its inputs and outputs,
//! and one statement per node. Two modules are the same program exactly when
//! their models are equal.

use vstd::prelude::*;

use crate::scope::Access;
use crate::types::{types_view, TensorType, TensorTypeView, Type, TypeView};

verus! {

/// A tensor as an operation takes it: by name, handed over or duplicated.
#[derive(Debug, PartialEq, Eq)]
pub struct Operand {
    pub name: String,
    pub access: Access,
}

/// Mathematical model of an [`Operand`].
pub struct OperandView {
    pub name: Seq<char>,
    pub access: Access,
}

impl View for Operand {
    type V = OperandView;

    open spec fn view(&self) -> OperandView {
        OperandView { name: self.name@, access: self.access }
    }
}

/// The shape argument of an expand operation.
#[derive(Debug, PartialEq, Eq)]
pub enum ShapeArg {
    /// The dimension sizes, written out.
    Literal(Vec<i64>),
    /// A shape value, passed as it is.
    Value(String),
    /// A rank-one tensor, fetched to the host and converted to an array of
    /// `rank` indices before it is passed.
    FromTensor { name: String, rank: usize },
}

/// Mathematical model of a [`ShapeArg`].
pub enum ShapeArgView {
    Literal(Seq<i64>),
    Value(Seq<char>),
    FromTensor { name: Seq<char>, rank: nat },
}

impl View for ShapeArg {
    type V = ShapeArgView;

    open spec fn view(&self) -> ShapeArgView {
        match self {
            ShapeArg::Literal(dims) => ShapeArgView::Literal(dims@),
            ShapeArg::Value(name) => ShapeArgView::Value(name@),
            ShapeArg::FromTensor { name, rank } => ShapeArgView::FromTensor {
                name: name@,
                rank: *rank as nat,
            },
        }
    }
}

/// An element-wise operation on one tensor.
#[derive(Clone, Copy, Debug, PartialEq, Eq, Structural)]
pub enum UnaryKind {
    Abs,
    Neg,
    Exp,
    Log,
}

/// An element-wise operation on two tensors.
#[derive(Clone, Copy, Debug, PartialEq, Eq, Structural)]
pub enum BinaryKind {
    Add,
    Sub,
    Mul,
    Div,
}

/// The code one node contributes: a binding of its output.
#[derive(Debug, PartialEq, Eq)]
pub enum Statement {
    /// The output is the value held in a field of the module's state.
    Constant { output: String, field: String },
    /// The output is an element-wise operation applied to one tensor.
    Unary { output: String, function: UnaryKind, input: Operand },
    /// The output is an element-wise operation applied to two tensors.
    Binary { output: String, operator: BinaryKind, lhs: Operand, rhs: Operand },
    /// The output is the input broadcast to a shape.
    Expand { output: String, input: Operand, shape: ShapeArg },
}

/// Mathematical model of a [`Statement`].
pub enum StatementView {
    Constant { output: Seq<char>, field: Seq<char> },
    Unary { output: Seq<char>, function: UnaryKind, input: OperandView },
    Binary { output: Seq<char>, operator: BinaryKind, lhs: OperandView, rhs: OperandView },
    Expand { output: Seq<char>, input: OperandView, shape: ShapeArgView },
}

impl View for Statement {
    type V = StatementView;

    open spec fn view(&self) -> StatementView {
        match self {
            Statement::Constant { output, field } => StatementView::Constant {
                output: output@,
                field: field@,
            },
            Statement::Unary { output, function, input } => StatementView::Unary {
                output: output@,
                function: *function,
                input: input@,
            },
            Statement::Binary { output, operator, lhs, rhs } => StatementView::Binary {
                output: output@,
                operator: *operator,
                lhs: lhs@,
                rhs: rhs@,
            },
            Statement::Expand { output, input, shape } => StatementView::Expand {
                output: output@,
                input: input@,
                shape: shape@,
            },
        }
    }
}

/// The models of a sequence of statements, in order.
pub open spec fn statements_view(statements: Seq<Statement>) -> Seq<StatementView> {
    Seq::new(statements.len(), |i: int| statements[i]@)
}

/// A slot of the module's state that holds a constant tensor. The constructor
/// fills it with zeros of the given dimensions; stored weights replace them
/// when a record is loaded into the module.
#[derive(Debug, PartialEq, Eq)]
pub struct Field {
    pub name: String,
    pub ty: TensorType,
    pub dims: Vec<usize>,
}

/// Mathematical model of a [`Field`].
pub struct FieldView {
    pub name: Seq<char>,
    pub ty: TensorTypeView,
    pub dims: Seq<usize>,
}

impl View for Field {
    type V = FieldView;

    open spec fn view(&self) -> FieldView {
        FieldView { name: self.name@, ty: self.ty@, dims: self.dims@ }
    }
}

/// The models of a sequence of fields, in order.
pub open spec fn fields_view(fields: Seq<Field>) -> Seq<FieldView> {
    Seq::new(fields.len(), |i: int| fields[i]@)
}

/// One generated module: the state, and the forward function with its
/// signature and its body.
#[derive(Debug, PartialEq, Eq)]
pub struct Module {
    /// Whether the signature names boolean tensors.
    pub imports_bool: bool,
    /// Whether the signature names integer tensors.
    pub imports_int: bool,
    /// The state, one slot per node that carries a constant.
    pub fields: Vec<Field>,
    /// The parameters of the forward function.
    pub inputs: Vec<Type>,
    /// What the forward function returns.
    pub outputs: Vec<Type>,
    /// The body of the forward function, one statement per node.
    pub body: Vec<Statement>,
}

/// Mathematical model of a [`Module`].
pub struct ModuleView {
    pub imports_bool: bool,
    pub imports_int: bool,
    pub fields: Seq<FieldView>,
    pub inputs: Seq<TypeView>,
    pub outputs: Seq<TypeView>,
    pub body: Seq<StatementView>,
}

impl View for Module {
    type V = ModuleView;

    open spec fn view(&self) -> ModuleView {
        ModuleView {
            imports_bool: self.imports_bool,
            imports_int: self.imports_int,
            fields: fields_view(self.fields@),
            inputs: types_view(self.inputs@),
            outputs: types_view(self.outputs@),
            body: statements_view(self.body@),
        }
    }
}

} // verus!
