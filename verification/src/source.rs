//! The source of a generated module: its imports, the declaration of its
//! state, its constructor and its forward function.

use proc_macro2::TokenStream;
use vstd::prelude::*;

use crate::code::{
    fields_view, statements_view, BinaryKind, Field, FieldView, Module, ModuleView, Operand,
    OperandView, ShapeArg, ShapeArgView, Statement, StatementView, UnaryKind,
};
use crate::render::{
    declarable, is_declarable, put_arrow, put_attribute, put_call, put_group,
    put_int, put_long_path, put_name, put_number, put_path, put_path_sep, put_punct, put_suffixed,
    put_tensor_type, put_type, put_word, write_arrow, write_attribute, write_call, write_int,
    write_long_path, write_name, write_number, write_path, write_path_sep, write_punct,
    write_tensor_type, write_type,
};
use crate::scope::Access;
use crate::tokens::{empty_stream, push_group, push_usize_suffixed, stream_tokens, Bracketing, Token};
use crate::types::{is_valid_name, types_view, valid_name, TensorTypeView, Type, TypeView};
use crate::words::{push_word, Word};

verus! {

// Statements.

/// `tokens`, then a tensor as an operation takes it: its name, followed by
/// `. clone ( )` where it is duplicated.
pub open spec fn put_operand(tokens: Seq<Token>, operand: OperandView) -> Seq<Token> {
    match operand.access {
        Access::Consume => put_name(tokens, operand.name),
        Access::Clone => put_call(put_name(tokens, operand.name), Word::Clone, Seq::empty()),
    }
}

/// `tokens`, then each of `dims` followed by a comma.
pub open spec fn put_dims(tokens: Seq<Token>, dims: Seq<i64>) -> Seq<Token>
    decreases dims.len(),
{
    if dims.len() == 0 {
        tokens
    } else {
        put_punct(put_int(put_dims(tokens, dims.drop_last()), dims.last() as int), ',')
    }
}

/// `tokens`, then each of `sizes` followed by a comma.
pub open spec fn put_sizes(tokens: Seq<Token>, sizes: Seq<usize>) -> Seq<Token>
    decreases sizes.len(),
{
    if sizes.len() == 0 {
        tokens
    } else {
        put_punct(put_number(put_sizes(tokens, sizes.drop_last()), sizes.last() as nat), ',')
    }
}

/// `B :: IntElem`.
pub open spec fn int_elem() -> Seq<Token> {
    put_path(Seq::empty(), Word::B, Word::IntElem)
}

/// `tokens`, then the conversion of the rank-one tensor `name` to an array of
/// `rank` indices: the tensor's data are fetched to the host and viewed as a
/// slice, and the slice is converted with a check of its length.
///
/// `TryInto :: < [ B :: IntElem ; rank ] > :: try_into (
/// name . to_data ( ) . as_slice :: < B :: IntElem > ( ) . unwrap ( ) ) . unwrap ( )`
pub open spec fn put_array_from_tensor(tokens: Seq<Token>, name: Seq<char>, rank: nat) -> Seq<
    Token,
> {
    let array = put_group(
        Seq::empty(),
        Bracketing::Bracket,
        put_suffixed(put_punct(int_elem(), ';'), rank),
    );
    let target = put_punct(put_punct(put_path_sep(put_word(tokens, Word::TryInto)), '<') + array, '>');
    let data = put_call(put_name(Seq::empty(), name), Word::ToData, Seq::empty());
    let slice = put_group(
        put_punct(
            put_punct(put_path_sep(put_word(put_punct(data, '.'), Word::AsSlice)), '<') + int_elem(),
            '>',
        ),
        Bracketing::Parenthesis,
        Seq::empty(),
    );
    let argument = put_call(slice, Word::Unwrap, Seq::empty());
    put_call(
        put_group(put_word(put_path_sep(target), Word::TryIntoCall), Bracketing::Parenthesis, argument),
        Word::Unwrap,
        Seq::empty(),
    )
}

/// `tokens`, then the shape argument of an expand operation.
pub open spec fn put_shape(tokens: Seq<Token>, shape: ShapeArgView) -> Seq<Token> {
    match shape {
        ShapeArgView::Literal(dims) => put_group(
            tokens,
            Bracketing::Bracket,
            put_dims(Seq::empty(), dims),
        ),
        ShapeArgView::Value(name) => put_name(tokens, name),
        ShapeArgView::FromTensor { name, rank } => put_array_from_tensor(tokens, name, rank),
    }
}

/// The method that applies `function`.
pub open spec fn unary_word(function: UnaryKind) -> Word {
    match function {
        UnaryKind::Abs => Word::Abs,
        UnaryKind::Neg => Word::Neg,
        UnaryKind::Exp => Word::Exp,
        UnaryKind::Log => Word::Log,
    }
}

/// The method that applies `operator`.
pub open spec fn binary_word(operator: BinaryKind) -> Word {
    match operator {
        BinaryKind::Add => Word::Add,
        BinaryKind::Sub => Word::Sub,
        BinaryKind::Mul => Word::Mul,
        BinaryKind::Div => Word::Div,
    }
}

/// `tokens`, then `let output =`.
pub open spec fn put_binding(tokens: Seq<Token>, output: Seq<char>) -> Seq<Token> {
    put_punct(put_name(put_word(tokens, Word::Let), output), '=')
}

/// `tokens`, then the statement `statement`, closed by a semicolon.
pub open spec fn put_statement(tokens: Seq<Token>, statement: StatementView) -> Seq<Token> {
    match statement {
        StatementView::Constant { output, field } => put_punct(
            put_call(
                put_name(put_punct(put_word(put_binding(tokens, output), Word::SelfValue), '.'), field),
                Word::Val,
                Seq::empty(),
            ),
            ';',
        ),
        StatementView::Unary { output, function, input } => put_punct(
            put_call(put_operand(put_binding(tokens, output), input), unary_word(function), Seq::empty()),
            ';',
        ),
        StatementView::Binary { output, operator, lhs, rhs } => put_punct(
            put_call(
                put_operand(put_binding(tokens, output), lhs),
                binary_word(operator),
                put_operand(Seq::empty(), rhs),
            ),
            ';',
        ),
        StatementView::Expand { output, input, shape } => put_punct(
            put_call(
                put_operand(put_binding(tokens, output), input),
                Word::Expand,
                put_shape(Seq::empty(), shape),
            ),
            ';',
        ),
    }
}

/// `tokens`, then each of `statements`.
pub open spec fn put_statements(tokens: Seq<Token>, statements: Seq<StatementView>) -> Seq<Token>
    decreases statements.len(),
{
    if statements.len() == 0 {
        tokens
    } else {
        put_statement(put_statements(tokens, statements.drop_last()), statements.last())
    }
}

/// The names in `shape` are valid.
pub open spec fn shape_writable(shape: ShapeArgView) -> bool {
    match shape {
        ShapeArgView::Literal(_) => true,
        ShapeArgView::Value(name) => valid_name(name),
        ShapeArgView::FromTensor { name, rank } => valid_name(name),
    }
}

/// The names in `statement` are valid.
pub open spec fn statement_writable(statement: StatementView) -> bool {
    match statement {
        StatementView::Constant { output, field } => valid_name(output) && valid_name(field),
        StatementView::Unary { output, function, input } => valid_name(output) && valid_name(
            input.name,
        ),
        StatementView::Binary { output, operator, lhs, rhs } => valid_name(output) && valid_name(
            lhs.name,
        ) && valid_name(rhs.name),
        StatementView::Expand { output, input, shape } => valid_name(output) && valid_name(
            input.name,
        ) && shape_writable(shape),
    }
}

fn write_operand(stream: &mut TokenStream, operand: &Operand)
    requires
        valid_name(operand@.name),
    ensures
        stream_tokens(*final(stream)) == put_operand(stream_tokens(*old(stream)), operand@),
{
    write_name(stream, &operand.name);
    match operand.access {
        Access::Consume => {},
        Access::Clone => {
            write_call(stream, Word::Clone, empty_stream());
        },
    }
}

fn write_dims(stream: &mut TokenStream, dims: &Vec<i64>)
    ensures
        stream_tokens(*final(stream)) == put_dims(stream_tokens(*old(stream)), dims@),
{
    let mut i: usize = 0;
    while i < dims.len()
        invariant
            i <= dims@.len(),
            stream_tokens(*stream) == put_dims(stream_tokens(*old(stream)), dims@.take(i as int)),
        decreases dims@.len() - i,
    {
        proof {
            assert(dims@.take(i + 1).drop_last() =~= dims@.take(i as int));
        }
        write_int(stream, dims[i]);
        write_punct(stream, ',');
        i += 1;
    }
    proof {
        assert(dims@.take(dims@.len() as int) =~= dims@);
    }
}

fn write_sizes(stream: &mut TokenStream, sizes: &Vec<usize>)
    ensures
        stream_tokens(*final(stream)) == put_sizes(stream_tokens(*old(stream)), sizes@),
{
    let mut i: usize = 0;
    while i < sizes.len()
        invariant
            i <= sizes@.len(),
            stream_tokens(*stream) == put_sizes(stream_tokens(*old(stream)), sizes@.take(i as int)),
        decreases sizes@.len() - i,
    {
        proof {
            assert(sizes@.take(i + 1).drop_last() =~= sizes@.take(i as int));
        }
        write_number(stream, sizes[i]);
        write_punct(stream, ',');
        i += 1;
    }
    proof {
        assert(sizes@.take(sizes@.len() as int) =~= sizes@);
    }
}

fn write_int_elem(stream: &mut TokenStream)
    ensures
        stream_tokens(*final(stream)) == stream_tokens(*old(stream)) + int_elem(),
{
    write_path(stream, Word::B, Word::IntElem);
    proof {
        assert(stream_tokens(*stream) =~= stream_tokens(*old(stream)) + int_elem());
    }
}

fn write_array_from_tensor(stream: &mut TokenStream, name: &String, rank: usize)
    requires
        valid_name(name@),
    ensures
        stream_tokens(*final(stream)) == put_array_from_tensor(
            stream_tokens(*old(stream)),
            name@,
            rank as nat,
        ),
{
    let mut array_inner = empty_stream();
    write_int_elem(&mut array_inner);
    write_punct(&mut array_inner, ';');
    push_usize_suffixed(&mut array_inner, rank);
    proof {
        assert(stream_tokens(array_inner) =~= put_suffixed(put_punct(int_elem(), ';'), rank as nat));
    }
    push_word(stream, Word::TryInto);
    write_path_sep(stream);
    write_punct(stream, '<');
    let ghost opened = stream_tokens(*stream);
    push_group(stream, Bracketing::Bracket, array_inner);
    proof {
        assert(stream_tokens(*stream) =~= opened + put_group(
            Seq::empty(),
            Bracketing::Bracket,
            put_suffixed(put_punct(int_elem(), ';'), rank as nat),
        ));
    }
    write_punct(stream, '>');
    write_path_sep(stream);
    push_word(stream, Word::TryIntoCall);

    let mut argument = empty_stream();
    write_name(&mut argument, name);
    write_call(&mut argument, Word::ToData, empty_stream());
    write_punct(&mut argument, '.');
    push_word(&mut argument, Word::AsSlice);
    write_path_sep(&mut argument);
    write_punct(&mut argument, '<');
    write_int_elem(&mut argument);
    write_punct(&mut argument, '>');
    push_group(&mut argument, Bracketing::Parenthesis, empty_stream());
    write_call(&mut argument, Word::Unwrap, empty_stream());

    push_group(stream, Bracketing::Parenthesis, argument);
    write_call(stream, Word::Unwrap, empty_stream());
}

fn write_shape(stream: &mut TokenStream, shape: &ShapeArg)
    requires
        shape_writable(shape@),
    ensures
        stream_tokens(*final(stream)) == put_shape(stream_tokens(*old(stream)), shape@),
{
    match shape {
        ShapeArg::Literal(dims) => {
            let mut inner = empty_stream();
            write_dims(&mut inner, dims);
            push_group(stream, Bracketing::Bracket, inner);
        },
        ShapeArg::Value(name) => {
            write_name(stream, name);
        },
        ShapeArg::FromTensor { name, rank } => {
            write_array_from_tensor(stream, name, *rank);
        },
    }
}

fn write_binding(stream: &mut TokenStream, output: &String)
    requires
        valid_name(output@),
    ensures
        stream_tokens(*final(stream)) == put_binding(stream_tokens(*old(stream)), output@),
{
    push_word(stream, Word::Let);
    write_name(stream, output);
    write_punct(stream, '=');
}

fn write_statement(stream: &mut TokenStream, statement: &Statement)
    requires
        statement_writable(statement@),
    ensures
        stream_tokens(*final(stream)) == put_statement(stream_tokens(*old(stream)), statement@),
{
    match statement {
        Statement::Constant { output, field } => {
            write_binding(stream, output);
            push_word(stream, Word::SelfValue);
            write_punct(stream, '.');
            write_name(stream, field);
            write_call(stream, Word::Val, empty_stream());
        },
        Statement::Unary { output, function, input } => {
            write_binding(stream, output);
            write_operand(stream, input);
            let method = match function {
                UnaryKind::Abs => Word::Abs,
                UnaryKind::Neg => Word::Neg,
                UnaryKind::Exp => Word::Exp,
                UnaryKind::Log => Word::Log,
            };
            write_call(stream, method, empty_stream());
        },
        Statement::Binary { output, operator, lhs, rhs } => {
            write_binding(stream, output);
            write_operand(stream, lhs);
            let method = match operator {
                BinaryKind::Add => Word::Add,
                BinaryKind::Sub => Word::Sub,
                BinaryKind::Mul => Word::Mul,
                BinaryKind::Div => Word::Div,
            };
            let mut argument = empty_stream();
            write_operand(&mut argument, rhs);
            write_call(stream, method, argument);
        },
        Statement::Expand { output, input, shape } => {
            write_binding(stream, output);
            write_operand(stream, input);
            let mut argument = empty_stream();
            write_shape(&mut argument, shape);
            write_call(stream, Word::Expand, argument);
        },
    }
    write_punct(stream, ';');
}

fn is_statement_writable(statement: &Statement) -> (b: bool)
    ensures
        b == statement_writable(statement@),
{
    match statement {
        Statement::Constant { output, field } => is_valid_name(output.as_str()) && is_valid_name(
            field.as_str(),
        ),
        Statement::Unary { output, function, input } => is_valid_name(output.as_str())
            && is_valid_name(input.name.as_str()),
        Statement::Binary { output, operator, lhs, rhs } => is_valid_name(output.as_str())
            && is_valid_name(lhs.name.as_str()) && is_valid_name(rhs.name.as_str()),
        Statement::Expand { output, input, shape } => is_valid_name(output.as_str())
            && is_valid_name(input.name.as_str()) && match shape {
            ShapeArg::Literal(_) => true,
            ShapeArg::Value(name) => is_valid_name(name.as_str()),
            ShapeArg::FromTensor { name, rank } => is_valid_name(name.as_str()),
        },
    }
}

// Imports.

/// `tokens`, then `use burn :: tensor :: kind ;`.
pub open spec fn put_kind_import(tokens: Seq<Token>, kind: Word) -> Seq<Token> {
    put_punct(put_word(put_path_sep(put_path(put_word(tokens, Word::Use), Word::Burn, Word::TensorPath)), kind), ';')
}

/// `tokens`, then the import that every module has:
/// `use burn :: { module :: Module , tensor :: { backend :: Backend , Tensor } , } ;`
pub open spec fn put_common_import(tokens: Seq<Token>) -> Seq<Token> {
    let tensor = put_word(
        put_punct(put_path(Seq::empty(), Word::BackendPath, Word::Backend), ','),
        Word::Tensor,
    );
    let burn = put_punct(
        put_group(
            put_path_sep(
                put_word(
                    put_punct(put_path(Seq::empty(), Word::ModulePath, Word::Module), ','),
                    Word::TensorPath,
                ),
            ),
            Bracketing::Brace,
            tensor,
        ),
        ',',
    );
    put_punct(
        put_group(put_path_sep(put_word(put_word(tokens, Word::Use), Word::Burn)), Bracketing::Brace, burn),
        ';',
    )
}

/// `tokens`, then the imports of `module`: that of boolean tensors where the
/// signature names them, then that of integer tensors where it names them,
/// then the import that every module has.
pub open spec fn put_imports(tokens: Seq<Token>, module: ModuleView) -> Seq<Token> {
    let with_bool = if module.imports_bool {
        put_kind_import(tokens, Word::Bool)
    } else {
        tokens
    };
    let with_int = if module.imports_int {
        put_kind_import(with_bool, Word::Int)
    } else {
        with_bool
    };
    put_common_import(with_int)
}

fn write_kind_import(stream: &mut TokenStream, kind: Word)
    ensures
        stream_tokens(*final(stream)) == put_kind_import(stream_tokens(*old(stream)), kind),
{
    push_word(stream, Word::Use);
    write_path(stream, Word::Burn, Word::TensorPath);
    write_path_sep(stream);
    push_word(stream, kind);
    write_punct(stream, ';');
}

fn write_common_import(stream: &mut TokenStream)
    ensures
        stream_tokens(*final(stream)) == put_common_import(stream_tokens(*old(stream))),
{
    let mut tensor = empty_stream();
    write_path(&mut tensor, Word::BackendPath, Word::Backend);
    write_punct(&mut tensor, ',');
    push_word(&mut tensor, Word::Tensor);
    let mut burn = empty_stream();
    write_path(&mut burn, Word::ModulePath, Word::Module);
    write_punct(&mut burn, ',');
    push_word(&mut burn, Word::TensorPath);
    write_path_sep(&mut burn);
    push_group(&mut burn, Bracketing::Brace, tensor);
    write_punct(&mut burn, ',');
    push_word(stream, Word::Use);
    push_word(stream, Word::Burn);
    write_path_sep(stream);
    push_group(stream, Bracketing::Brace, burn);
    write_punct(stream, ';');
}

fn write_imports(stream: &mut TokenStream, module: &Module)
    ensures
        stream_tokens(*final(stream)) == put_imports(stream_tokens(*old(stream)), module@),
{
    if module.imports_bool {
        write_kind_import(stream, Word::Bool);
    }
    if module.imports_int {
        write_kind_import(stream, Word::Int);
    }
    write_common_import(stream);
}

// The state.

/// `tokens`, then the type of a slot that holds `tensor`:
/// `burn :: module :: Param < Tensor < .. > >`.
pub open spec fn put_slot_type(tokens: Seq<Token>, tensor: TensorTypeView) -> Seq<Token> {
    put_punct(
        put_tensor_type(
            put_punct(put_long_path(tokens, Word::Burn, Word::ModulePath, Word::Param), '<'),
            tensor,
            false,
        ),
        '>',
    )
}

/// `tokens`, then the declaration of the slot `field`, closed by a comma.
pub open spec fn put_field(tokens: Seq<Token>, field: FieldView) -> Seq<Token> {
    put_punct(put_slot_type(put_punct(put_name(tokens, field.name), ':'), field.ty), ',')
}

/// `tokens`, then the declaration of each of `fields`.
pub open spec fn put_fields(tokens: Seq<Token>, fields: Seq<FieldView>) -> Seq<Token>
    decreases fields.len(),
{
    if fields.len() == 0 {
        tokens
    } else {
        put_field(put_fields(tokens, fields.drop_last()), fields.last())
    }
}

/// `tokens`, then the two slots that every module has:
/// `phantom : core :: marker :: PhantomData < B > ,
/// device : burn :: module :: Ignored < B :: Device > ,`
pub open spec fn put_marker_fields(tokens: Seq<Token>) -> Seq<Token> {
    let phantom = put_punct(
        put_punct(
            put_word(
                put_punct(
                    put_long_path(
                        put_punct(put_word(tokens, Word::Phantom), ':'),
                        Word::Core,
                        Word::Marker,
                        Word::PhantomData,
                    ),
                    '<',
                ),
                Word::B,
            ),
            '>',
        ),
        ',',
    );
    put_punct(
        put_punct(
            put_path(
                put_punct(
                    put_long_path(
                        put_punct(put_word(phantom, Word::DeviceValue), ':'),
                        Word::Burn,
                        Word::ModulePath,
                        Word::Ignored,
                    ),
                    '<',
                ),
                Word::B,
                Word::Device,
            ),
            '>',
        ),
        ',',
    )
}

/// `tokens`, then `< B : Backend >`.
pub open spec fn put_generics(tokens: Seq<Token>) -> Seq<Token> {
    put_punct(put_word(put_punct(put_word(put_punct(tokens, '<'), Word::B), ':'), Word::Backend), '>')
}

/// `tokens`, then the declaration of the state:
/// `# [ derive ( Module , Debug ) ] pub struct Model < B : Backend > { .. }`
/// with the slots of `fields` and after them the two that every module has.
pub open spec fn put_state(tokens: Seq<Token>, fields: Seq<FieldView>) -> Seq<Token> {
    let derive = put_attribute(
        tokens,
        Word::Derive,
        put_word(put_punct(put_word(Seq::empty(), Word::Module), ','), Word::Debug),
    );
    put_group(
        put_generics(put_word(put_word(put_word(derive, Word::Pub), Word::Struct), Word::Model)),
        Bracketing::Brace,
        put_marker_fields(put_fields(Seq::empty(), fields)),
    )
}

/// The name of the slot is valid.
pub open spec fn field_writable(field: FieldView) -> bool {
    valid_name(field.name)
}

fn write_slot_type(stream: &mut TokenStream, field: &Field)
    ensures
        stream_tokens(*final(stream)) == put_slot_type(stream_tokens(*old(stream)), field@.ty),
{
    write_long_path(stream, Word::Burn, Word::ModulePath, Word::Param);
    write_punct(stream, '<');
    write_tensor_type(stream, &field.ty, false);
    write_punct(stream, '>');
}

fn write_fields(stream: &mut TokenStream, fields: &Vec<Field>)
    requires
        forall|i: int| 0 <= i < fields@.len() ==> field_writable(#[trigger] fields@[i]@),
    ensures
        stream_tokens(*final(stream)) == put_fields(
            stream_tokens(*old(stream)),
            fields_view(fields@),
        ),
{
    let ghost view = fields_view(fields@);
    let mut i: usize = 0;
    while i < fields.len()
        invariant
            i <= fields@.len(),
            view == fields_view(fields@),
            forall|i: int| 0 <= i < fields@.len() ==> field_writable(#[trigger] fields@[i]@),
            stream_tokens(*stream) == put_fields(stream_tokens(*old(stream)), view.take(i as int)),
        decreases fields@.len() - i,
    {
        proof {
            assert(view.take(i + 1).drop_last() =~= view.take(i as int));
            assert(view.take(i + 1).last() == fields@[i as int]@);
        }
        write_name(stream, &fields[i].name);
        write_punct(stream, ':');
        write_slot_type(stream, &fields[i]);
        write_punct(stream, ',');
        i += 1;
    }
    proof {
        assert(view.take(fields@.len() as int) =~= view);
    }
}

fn write_marker_fields(stream: &mut TokenStream)
    ensures
        stream_tokens(*final(stream)) == put_marker_fields(stream_tokens(*old(stream))),
{
    push_word(stream, Word::Phantom);
    write_punct(stream, ':');
    write_long_path(stream, Word::Core, Word::Marker, Word::PhantomData);
    write_punct(stream, '<');
    push_word(stream, Word::B);
    write_punct(stream, '>');
    write_punct(stream, ',');
    push_word(stream, Word::DeviceValue);
    write_punct(stream, ':');
    write_long_path(stream, Word::Burn, Word::ModulePath, Word::Ignored);
    write_punct(stream, '<');
    write_path(stream, Word::B, Word::Device);
    write_punct(stream, '>');
    write_punct(stream, ',');
}

fn write_generics(stream: &mut TokenStream)
    ensures
        stream_tokens(*final(stream)) == put_generics(stream_tokens(*old(stream))),
{
    write_punct(stream, '<');
    push_word(stream, Word::B);
    write_punct(stream, ':');
    push_word(stream, Word::Backend);
    write_punct(stream, '>');
}

fn write_state(stream: &mut TokenStream, fields: &Vec<Field>)
    requires
        forall|i: int| 0 <= i < fields@.len() ==> field_writable(#[trigger] fields@[i]@),
    ensures
        stream_tokens(*final(stream)) == put_state(
            stream_tokens(*old(stream)),
            fields_view(fields@),
        ),
{
    let mut derived = empty_stream();
    push_word(&mut derived, Word::Module);
    write_punct(&mut derived, ',');
    push_word(&mut derived, Word::Debug);
    write_attribute(stream, Word::Derive, derived);
    push_word(stream, Word::Pub);
    push_word(stream, Word::Struct);
    push_word(stream, Word::Model);
    write_generics(stream);
    let mut slots = empty_stream();
    write_fields(&mut slots, fields);
    write_marker_fields(&mut slots);
    push_group(stream, Bracketing::Brace, slots);
}

// The constructor.

/// `tokens`, then the statement that fills the slot `field` with zeros of
/// its dimensions:
/// `let name : burn :: module :: Param < Tensor < .. > > =
/// burn :: module :: Param :: uninitialized ( burn :: module :: ParamId :: new ( ) ,
/// move | device , _require_grad | Tensor :: < .. > :: zeros ( [ dims ] , & device ) ,
/// device . clone ( ) , false ) ;`
pub open spec fn put_field_init(tokens: Seq<Token>, field: FieldView) -> Seq<Token> {
    let declared = put_punct(
        put_slot_type(put_punct(put_name(put_word(tokens, Word::Let), field.name), ':'), field.ty),
        '=',
    );
    let id = put_group(
        put_word(
            put_path_sep(put_long_path(Seq::empty(), Word::Burn, Word::ModulePath, Word::ParamId)),
            Word::New,
        ),
        Bracketing::Parenthesis,
        Seq::empty(),
    );
    let closure = put_punct(
        put_word(
            put_punct(put_word(put_punct(put_word(put_punct(id, ','), Word::Move), '|'), Word::DeviceValue), ','),
            Word::RequireGrad,
        ),
        '|',
    );
    let zeros = put_group(
        put_word(put_path_sep(put_tensor_type(closure, field.ty, true)), Word::Zeros),
        Bracketing::Parenthesis,
        put_word(
            put_punct(
                put_punct(
                    put_group(Seq::empty(), Bracketing::Bracket, put_sizes(Seq::empty(), field.dims)),
                    ',',
                ),
                '&',
            ),
            Word::DeviceValue,
        ),
    );
    let arguments = put_word(
        put_punct(
            put_call(put_word(put_punct(zeros, ','), Word::DeviceValue), Word::Clone, Seq::empty()),
            ',',
        ),
        Word::False,
    );
    put_punct(
        put_group(
            put_word(
                put_path_sep(put_long_path(declared, Word::Burn, Word::ModulePath, Word::Param)),
                Word::Uninitialized,
            ),
            Bracketing::Parenthesis,
            arguments,
        ),
        ';',
    )
}

/// `tokens`, then the statements that fill each of `fields`.
pub open spec fn put_field_inits(tokens: Seq<Token>, fields: Seq<FieldView>) -> Seq<Token>
    decreases fields.len(),
{
    if fields.len() == 0 {
        tokens
    } else {
        put_field_init(put_field_inits(tokens, fields.drop_last()), fields.last())
    }
}

/// `tokens`, then the name of each of `fields` followed by a comma.
pub open spec fn put_field_names(tokens: Seq<Token>, fields: Seq<FieldView>) -> Seq<Token>
    decreases fields.len(),
{
    if fields.len() == 0 {
        tokens
    } else {
        put_punct(put_name(put_field_names(tokens, fields.drop_last()), fields.last().name), ',')
    }
}

/// `tokens`, then the values of the two slots that every module has:
/// `phantom : core :: marker :: PhantomData ,
/// device : burn :: module :: Ignored ( device . clone ( ) ) ,`
pub open spec fn put_marker_values(tokens: Seq<Token>) -> Seq<Token> {
    let phantom = put_punct(
        put_long_path(
            put_punct(put_word(tokens, Word::Phantom), ':'),
            Word::Core,
            Word::Marker,
            Word::PhantomData,
        ),
        ',',
    );
    put_punct(
        put_group(
            put_long_path(
                put_punct(put_word(phantom, Word::DeviceValue), ':'),
                Word::Burn,
                Word::ModulePath,
                Word::Ignored,
            ),
            Bracketing::Parenthesis,
            put_call(put_word(Seq::empty(), Word::DeviceValue), Word::Clone, Seq::empty()),
        ),
        ',',
    )
}

/// `tokens`, then `pub fn`.
pub open spec fn put_pub_fn(tokens: Seq<Token>) -> Seq<Token> {
    put_word(put_word(tokens, Word::Pub), Word::Fn)
}

/// `tokens`, then the constructor:
/// `# [ allow ( unused_variables ) ] pub fn new ( device : & B :: Device ) -> Self { .. }`.
/// Its body fills each of `fields` and ends in the state built from them.
pub open spec fn put_constructor(tokens: Seq<Token>, fields: Seq<FieldView>) -> Seq<Token> {
    let head = put_word(
        put_pub_fn(put_attribute(tokens, Word::Allow, put_word(Seq::empty(), Word::UnusedVariables))),
        Word::New,
    );
    let parameters = put_path(
        put_punct(put_punct(put_word(Seq::empty(), Word::DeviceValue), ':'), '&'),
        Word::B,
        Word::Device,
    );
    let state = put_group(
        put_word(put_field_inits(Seq::empty(), fields), Word::SelfType),
        Bracketing::Brace,
        put_marker_values(put_field_names(Seq::empty(), fields)),
    );
    put_group(
        put_word(put_arrow(put_group(head, Bracketing::Parenthesis, parameters)), Word::SelfType),
        Bracketing::Brace,
        state,
    )
}

fn write_field_init(stream: &mut TokenStream, field: &Field)
    requires
        field_writable(field@),
    ensures
        stream_tokens(*final(stream)) == put_field_init(stream_tokens(*old(stream)), field@),
{
    push_word(stream, Word::Let);
    write_name(stream, &field.name);
    write_punct(stream, ':');
    write_slot_type(stream, field);
    write_punct(stream, '=');
    let mut arguments = empty_stream();
    write_long_path(&mut arguments, Word::Burn, Word::ModulePath, Word::ParamId);
    write_path_sep(&mut arguments);
    push_word(&mut arguments, Word::New);
    push_group(&mut arguments, Bracketing::Parenthesis, empty_stream());
    write_punct(&mut arguments, ',');
    push_word(&mut arguments, Word::Move);
    write_punct(&mut arguments, '|');
    push_word(&mut arguments, Word::DeviceValue);
    write_punct(&mut arguments, ',');
    push_word(&mut arguments, Word::RequireGrad);
    write_punct(&mut arguments, '|');
    write_tensor_type(&mut arguments, &field.ty, true);
    write_path_sep(&mut arguments);
    push_word(&mut arguments, Word::Zeros);
    let mut sizes = empty_stream();
    write_sizes(&mut sizes, &field.dims);
    let mut zeros = empty_stream();
    push_group(&mut zeros, Bracketing::Bracket, sizes);
    write_punct(&mut zeros, ',');
    write_punct(&mut zeros, '&');
    push_word(&mut zeros, Word::DeviceValue);
    push_group(&mut arguments, Bracketing::Parenthesis, zeros);
    write_punct(&mut arguments, ',');
    push_word(&mut arguments, Word::DeviceValue);
    write_call(&mut arguments, Word::Clone, empty_stream());
    write_punct(&mut arguments, ',');
    push_word(&mut arguments, Word::False);
    write_long_path(stream, Word::Burn, Word::ModulePath, Word::Param);
    write_path_sep(stream);
    push_word(stream, Word::Uninitialized);
    push_group(stream, Bracketing::Parenthesis, arguments);
    write_punct(stream, ';');
}

fn write_field_inits(stream: &mut TokenStream, fields: &Vec<Field>)
    requires
        forall|i: int| 0 <= i < fields@.len() ==> field_writable(#[trigger] fields@[i]@),
    ensures
        stream_tokens(*final(stream)) == put_field_inits(
            stream_tokens(*old(stream)),
            fields_view(fields@),
        ),
{
    let ghost view = fields_view(fields@);
    let mut i: usize = 0;
    while i < fields.len()
        invariant
            i <= fields@.len(),
            view == fields_view(fields@),
            forall|i: int| 0 <= i < fields@.len() ==> field_writable(#[trigger] fields@[i]@),
            stream_tokens(*stream) == put_field_inits(
                stream_tokens(*old(stream)),
                view.take(i as int),
            ),
        decreases fields@.len() - i,
    {
        proof {
            assert(view.take(i + 1).drop_last() =~= view.take(i as int));
            assert(view.take(i + 1).last() == fields@[i as int]@);
        }
        write_field_init(stream, &fields[i]);
        i += 1;
    }
    proof {
        assert(view.take(fields@.len() as int) =~= view);
    }
}

fn write_field_names(stream: &mut TokenStream, fields: &Vec<Field>)
    requires
        forall|i: int| 0 <= i < fields@.len() ==> field_writable(#[trigger] fields@[i]@),
    ensures
        stream_tokens(*final(stream)) == put_field_names(
            stream_tokens(*old(stream)),
            fields_view(fields@),
        ),
{
    let ghost view = fields_view(fields@);
    let mut i: usize = 0;
    while i < fields.len()
        invariant
            i <= fields@.len(),
            view == fields_view(fields@),
            forall|i: int| 0 <= i < fields@.len() ==> field_writable(#[trigger] fields@[i]@),
            stream_tokens(*stream) == put_field_names(
                stream_tokens(*old(stream)),
                view.take(i as int),
            ),
        decreases fields@.len() - i,
    {
        proof {
            assert(view.take(i + 1).drop_last() =~= view.take(i as int));
            assert(view.take(i + 1).last() == fields@[i as int]@);
        }
        write_name(stream, &fields[i].name);
        write_punct(stream, ',');
        i += 1;
    }
    proof {
        assert(view.take(fields@.len() as int) =~= view);
    }
}

fn write_marker_values(stream: &mut TokenStream)
    ensures
        stream_tokens(*final(stream)) == put_marker_values(stream_tokens(*old(stream))),
{
    push_word(stream, Word::Phantom);
    write_punct(stream, ':');
    write_long_path(stream, Word::Core, Word::Marker, Word::PhantomData);
    write_punct(stream, ',');
    push_word(stream, Word::DeviceValue);
    write_punct(stream, ':');
    write_long_path(stream, Word::Burn, Word::ModulePath, Word::Ignored);
    let mut device = empty_stream();
    push_word(&mut device, Word::DeviceValue);
    write_call(&mut device, Word::Clone, empty_stream());
    push_group(stream, Bracketing::Parenthesis, device);
    write_punct(stream, ',');
}

fn write_constructor(stream: &mut TokenStream, fields: &Vec<Field>)
    requires
        forall|i: int| 0 <= i < fields@.len() ==> field_writable(#[trigger] fields@[i]@),
    ensures
        stream_tokens(*final(stream)) == put_constructor(
            stream_tokens(*old(stream)),
            fields_view(fields@),
        ),
{
    let mut lint = empty_stream();
    push_word(&mut lint, Word::UnusedVariables);
    write_attribute(stream, Word::Allow, lint);
    push_word(stream, Word::Pub);
    push_word(stream, Word::Fn);
    push_word(stream, Word::New);
    let mut parameters = empty_stream();
    push_word(&mut parameters, Word::DeviceValue);
    write_punct(&mut parameters, ':');
    write_punct(&mut parameters, '&');
    write_path(&mut parameters, Word::B, Word::Device);
    push_group(stream, Bracketing::Parenthesis, parameters);
    write_arrow(stream);
    push_word(stream, Word::SelfType);
    let mut values = empty_stream();
    write_field_names(&mut values, fields);
    write_marker_values(&mut values);
    let mut body = empty_stream();
    write_field_inits(&mut body, fields);
    push_word(&mut body, Word::SelfType);
    push_group(&mut body, Bracketing::Brace, values);
    push_group(stream, Bracketing::Brace, body);
}

// The forward function.

/// `tokens`, then each of `types` as a parameter: `name : type ,`.
pub open spec fn put_parameters(tokens: Seq<Token>, types: Seq<TypeView>) -> Seq<Token>
    decreases types.len(),
{
    if types.len() == 0 {
        tokens
    } else {
        put_punct(
            put_type(
                put_punct(put_name(put_parameters(tokens, types.drop_last()), types.last().name()), ':'),
                types.last(),
            ),
            ',',
        )
    }
}

/// `tokens`, then the type of each of `types` followed by a comma.
pub open spec fn put_types(tokens: Seq<Token>, types: Seq<TypeView>) -> Seq<Token>
    decreases types.len(),
{
    if types.len() == 0 {
        tokens
    } else {
        put_punct(put_type(put_types(tokens, types.drop_last()), types.last()), ',')
    }
}

/// `tokens`, then the name of each of `types` followed by a comma.
pub open spec fn put_names(tokens: Seq<Token>, types: Seq<TypeView>) -> Seq<Token>
    decreases types.len(),
{
    if types.len() == 0 {
        tokens
    } else {
        put_punct(put_name(put_names(tokens, types.drop_last()), types.last().name()), ',')
    }
}

/// `tokens`, then the type that the forward function returns: that of the
/// one output, or a tuple of the types of the outputs where there is not
/// exactly one.
pub open spec fn put_return_type(tokens: Seq<Token>, outputs: Seq<TypeView>) -> Seq<Token> {
    if outputs.len() == 1 {
        put_type(tokens, outputs[0])
    } else {
        put_group(tokens, Bracketing::Parenthesis, put_types(Seq::empty(), outputs))
    }
}

/// `tokens`, then the value that the forward function returns: the one
/// output by its name, or a tuple of the names of the outputs where there is
/// not exactly one. An output is never duplicated here.
pub open spec fn put_return_value(tokens: Seq<Token>, outputs: Seq<TypeView>) -> Seq<Token> {
    if outputs.len() == 1 {
        put_name(tokens, outputs[0].name())
    } else {
        put_group(tokens, Bracketing::Parenthesis, put_names(Seq::empty(), outputs))
    }
}

/// `tokens`, then the forward function:
/// `# [ allow ( clippy :: let_and_return , clippy :: approx_constant ) ]
/// pub fn forward ( & self , inputs ) -> outputs { statements outputs }`.
pub open spec fn put_forward(tokens: Seq<Token>, module: ModuleView) -> Seq<Token> {
    let lints = put_path(
        put_punct(put_path(Seq::empty(), Word::Clippy, Word::LetAndReturn), ','),
        Word::Clippy,
        Word::ApproxConstant,
    );
    let head = put_word(put_pub_fn(put_attribute(tokens, Word::Allow, lints)), Word::Forward);
    let parameters = put_parameters(
        put_punct(put_word(put_punct(Seq::empty(), '&'), Word::SelfValue), ','),
        module.inputs,
    );
    put_group(
        put_return_type(put_arrow(put_group(head, Bracketing::Parenthesis, parameters)), module.outputs),
        Bracketing::Brace,
        put_return_value(put_statements(Seq::empty(), module.body), module.outputs),
    )
}

/// `tokens`, then the functions of the module:
/// `impl < B : Backend > Model < B > { constructor forward }`.
pub open spec fn put_functions(tokens: Seq<Token>, module: ModuleView) -> Seq<Token> {
    put_group(
        put_punct(
            put_word(put_punct(put_word(put_generics(put_word(tokens, Word::Impl)), Word::Model), '<'), Word::B),
            '>',
        ),
        Bracketing::Brace,
        put_forward(put_constructor(Seq::empty(), module.fields), module),
    )
}

/// The tokens of the source of `module`: its imports, the declaration of its
/// state, and its functions.
pub open spec fn module_tokens(module: ModuleView) -> Seq<Token> {
    put_functions(put_state(put_imports(Seq::empty(), module), module.fields), module)
}

impl ModuleView {
    /// The source of the module can be written: every name in it is a valid
    /// name, and every input and output has a type that can be written.
    pub open spec fn writable(self) -> bool {
        &&& forall|i: int| 0 <= i < self.fields.len() ==> field_writable(#[trigger] self.fields[i])
        &&& forall|i: int| 0 <= i < self.inputs.len() ==> declarable(#[trigger] self.inputs[i])
        &&& forall|i: int| 0 <= i < self.outputs.len() ==> declarable(#[trigger] self.outputs[i])
        &&& forall|i: int| 0 <= i < self.body.len() ==> statement_writable(#[trigger] self.body[i])
    }
}

fn write_parameters(stream: &mut TokenStream, types: &Vec<Type>)
    requires
        forall|i: int| 0 <= i < types@.len() ==> declarable(#[trigger] types@[i]@),
    ensures
        stream_tokens(*final(stream)) == put_parameters(
            stream_tokens(*old(stream)),
            types_view(types@),
        ),
{
    let ghost view = types_view(types@);
    let mut i: usize = 0;
    while i < types.len()
        invariant
            i <= types@.len(),
            view == types_view(types@),
            forall|i: int| 0 <= i < types@.len() ==> declarable(#[trigger] types@[i]@),
            stream_tokens(*stream) == put_parameters(stream_tokens(*old(stream)), view.take(i as int)),
        decreases types@.len() - i,
    {
        proof {
            assert(view.take(i + 1).drop_last() =~= view.take(i as int));
            assert(view.take(i + 1).last() == types@[i as int]@);
        }
        write_name(stream, types[i].name());
        write_punct(stream, ':');
        write_type(stream, &types[i]);
        write_punct(stream, ',');
        i += 1;
    }
    proof {
        assert(view.take(types@.len() as int) =~= view);
    }
}

fn write_types(stream: &mut TokenStream, types: &Vec<Type>)
    ensures
        stream_tokens(*final(stream)) == put_types(stream_tokens(*old(stream)), types_view(types@)),
{
    let ghost view = types_view(types@);
    let mut i: usize = 0;
    while i < types.len()
        invariant
            i <= types@.len(),
            view == types_view(types@),
            stream_tokens(*stream) == put_types(stream_tokens(*old(stream)), view.take(i as int)),
        decreases types@.len() - i,
    {
        proof {
            assert(view.take(i + 1).drop_last() =~= view.take(i as int));
            assert(view.take(i + 1).last() == types@[i as int]@);
        }
        write_type(stream, &types[i]);
        write_punct(stream, ',');
        i += 1;
    }
    proof {
        assert(view.take(types@.len() as int) =~= view);
    }
}

fn write_names(stream: &mut TokenStream, types: &Vec<Type>)
    requires
        forall|i: int| 0 <= i < types@.len() ==> declarable(#[trigger] types@[i]@),
    ensures
        stream_tokens(*final(stream)) == put_names(stream_tokens(*old(stream)), types_view(types@)),
{
    let ghost view = types_view(types@);
    let mut i: usize = 0;
    while i < types.len()
        invariant
            i <= types@.len(),
            view == types_view(types@),
            forall|i: int| 0 <= i < types@.len() ==> declarable(#[trigger] types@[i]@),
            stream_tokens(*stream) == put_names(stream_tokens(*old(stream)), view.take(i as int)),
        decreases types@.len() - i,
    {
        proof {
            assert(view.take(i + 1).drop_last() =~= view.take(i as int));
            assert(view.take(i + 1).last() == types@[i as int]@);
        }
        write_name(stream, types[i].name());
        write_punct(stream, ',');
        i += 1;
    }
    proof {
        assert(view.take(types@.len() as int) =~= view);
    }
}

fn write_statements(stream: &mut TokenStream, statements: &Vec<Statement>)
    requires
        forall|i: int|
            0 <= i < statements@.len() ==> statement_writable(#[trigger] statements@[i]@),
    ensures
        stream_tokens(*final(stream)) == put_statements(
            stream_tokens(*old(stream)),
            statements_view(statements@),
        ),
{
    let ghost view = statements_view(statements@);
    let mut i: usize = 0;
    while i < statements.len()
        invariant
            i <= statements@.len(),
            view == statements_view(statements@),
            forall|i: int|
                0 <= i < statements@.len() ==> statement_writable(#[trigger] statements@[i]@),
            stream_tokens(*stream) == put_statements(stream_tokens(*old(stream)), view.take(i as int)),
        decreases statements@.len() - i,
    {
        proof {
            assert(view.take(i + 1).drop_last() =~= view.take(i as int));
            assert(view.take(i + 1).last() == statements@[i as int]@);
        }
        write_statement(stream, &statements[i]);
        i += 1;
    }
    proof {
        assert(view.take(statements@.len() as int) =~= view);
    }
}

fn write_forward(stream: &mut TokenStream, module: &Module)
    requires
        module@.writable(),
    ensures
        stream_tokens(*final(stream)) == put_forward(stream_tokens(*old(stream)), module@),
{
    proof {
        lemma_writable_parts(module);
    }
    let mut lints = empty_stream();
    write_path(&mut lints, Word::Clippy, Word::LetAndReturn);
    write_punct(&mut lints, ',');
    write_path(&mut lints, Word::Clippy, Word::ApproxConstant);
    write_attribute(stream, Word::Allow, lints);
    push_word(stream, Word::Pub);
    push_word(stream, Word::Fn);
    push_word(stream, Word::Forward);
    let mut parameters = empty_stream();
    write_punct(&mut parameters, '&');
    push_word(&mut parameters, Word::SelfValue);
    write_punct(&mut parameters, ',');
    write_parameters(&mut parameters, &module.inputs);
    push_group(stream, Bracketing::Parenthesis, parameters);
    write_arrow(stream);
    if module.outputs.len() == 1 {
        write_type(stream, &module.outputs[0]);
    } else {
        let mut types = empty_stream();
        write_types(&mut types, &module.outputs);
        push_group(stream, Bracketing::Parenthesis, types);
    }
    let mut body = empty_stream();
    write_statements(&mut body, &module.body);
    if module.outputs.len() == 1 {
        write_name(&mut body, module.outputs[0].name());
    } else {
        let mut names = empty_stream();
        write_names(&mut names, &module.outputs);
        push_group(&mut body, Bracketing::Parenthesis, names);
    }
    push_group(stream, Bracketing::Brace, body);
}

/// What `writable` says of the parts of a module.
proof fn lemma_writable_parts(module: &Module)
    requires
        module@.writable(),
    ensures
        forall|i: int| 0 <= i < module.fields@.len() ==> field_writable(#[trigger] module.fields@[i]@),
        forall|i: int| 0 <= i < module.inputs@.len() ==> declarable(#[trigger] module.inputs@[i]@),
        forall|i: int| 0 <= i < module.outputs@.len() ==> declarable(#[trigger] module.outputs@[i]@),
        forall|i: int|
            0 <= i < module.body@.len() ==> statement_writable(#[trigger] module.body@[i]@),
{
    assert forall|i: int| 0 <= i < module.fields@.len() implies field_writable(
        #[trigger] module.fields@[i]@,
    ) by {
        assert(module@.fields[i] == module.fields@[i]@);
    }
    assert forall|i: int| 0 <= i < module.inputs@.len() implies declarable(
        #[trigger] module.inputs@[i]@,
    ) by {
        assert(module@.inputs[i] == module.inputs@[i]@);
    }
    assert forall|i: int| 0 <= i < module.outputs@.len() implies declarable(
        #[trigger] module.outputs@[i]@,
    ) by {
        assert(module@.outputs[i] == module.outputs@[i]@);
    }
    assert forall|i: int| 0 <= i < module.body@.len() implies statement_writable(
        #[trigger] module.body@[i]@,
    ) by {
        assert(module@.body[i] == module.body@[i]@);
    }
}

fn all_declarable(types: &Vec<Type>) -> (b: bool)
    ensures
        b == forall|i: int| 0 <= i < types@.len() ==> declarable(#[trigger] types_view(types@)[i]),
{
    let mut i: usize = 0;
    while i < types.len()
        invariant
            i <= types@.len(),
            forall|j: int| 0 <= j < i ==> declarable(#[trigger] types_view(types@)[j]),
        decreases types@.len() - i,
    {
        if !is_declarable(&types[i]) {
            assert(!declarable(types_view(types@)[i as int]));
            return false;
        }
        i += 1;
    }
    true
}

impl Module {
    /// Whether the source of the module can be written.
    pub fn is_writable(&self) -> (b: bool)
        ensures
            b == self@.writable(),
    {
        let mut i: usize = 0;
        while i < self.fields.len()
            invariant
                i <= self.fields@.len(),
                forall|j: int| 0 <= j < i ==> field_writable(#[trigger] self@.fields[j]),
            decreases self.fields@.len() - i,
        {
            if !is_valid_name(self.fields[i].name.as_str()) {
                assert(!field_writable(self@.fields[i as int]));
                return false;
            }
            i += 1;
        }
        assert(self@.inputs.len() == self.inputs@.len());
        assert(self@.outputs.len() == self.outputs@.len());
        if !all_declarable(&self.inputs) {
            return false;
        }
        if !all_declarable(&self.outputs) {
            return false;
        }
        let mut k: usize = 0;
        while k < self.body.len()
            invariant
                k <= self.body@.len(),
                forall|j: int| 0 <= j < k ==> statement_writable(#[trigger] self@.body[j]),
            decreases self.body@.len() - k,
        {
            if !is_statement_writable(&self.body[k]) {
                assert(!statement_writable(self@.body[k as int]));
                return false;
            }
            k += 1;
        }
        true
    }

    /// The source of the module as a stream of tokens; none where the source
    /// cannot be written.
    pub fn to_tokens(&self) -> (result: Option<TokenStream>)
        ensures
            match result {
                Some(stream) => self@.writable() && stream_tokens(stream) == module_tokens(self@),
                None => !self@.writable(),
            },
    {
        if !self.is_writable() {
            return None;
        }
        proof {
            lemma_writable_parts(self);
        }
        let mut stream = empty_stream();
        write_imports(&mut stream, self);
        write_state(&mut stream, &self.fields);
        push_word(&mut stream, Word::Impl);
        write_generics(&mut stream);
        push_word(&mut stream, Word::Model);
        write_punct(&mut stream, '<');
        push_word(&mut stream, Word::B);
        write_punct(&mut stream, '>');
        let mut functions = empty_stream();
        write_constructor(&mut functions, &self.fields);
        write_forward(&mut functions, self);
        push_group(&mut stream, Bracketing::Brace, functions);
        Some(stream)
    }
}

} // verus!
