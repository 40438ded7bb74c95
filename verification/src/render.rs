//! The generated module as tokens of Rust source. What is written is stated
//! by functions that take the tokens written so far and give them back with
//! more at the end.

use proc_macro2::TokenStream;
use vstd::prelude::*;

use crate::tokens::{
    empty_stream, is_punct, push_group, push_ident, push_punct, push_unsuffixed, stream_tokens,
    Bracketing, Token,
};
use crate::types::{
    is_valid_name, valid_name, ElementKind, TensorType, TensorTypeView, Type, TypeView,
};
use crate::words::{push_word, Word};

verus! {

// Words, names, punctuation and numbers.

/// `tokens`, then the word `word`.
pub open spec fn put_word(tokens: Seq<Token>, word: Word) -> Seq<Token> {
    tokens.push(Token::Ident(word.text()))
}

/// `tokens`, then the name `name`.
pub open spec fn put_name(tokens: Seq<Token>, name: Seq<char>) -> Seq<Token> {
    tokens.push(Token::Ident(name))
}

/// `tokens`, then the punctuation character `ch`.
pub open spec fn put_punct(tokens: Seq<Token>, ch: char) -> Seq<Token> {
    tokens.push(Token::Punct { ch, joint: false })
}

/// `tokens`, then `::`.
pub open spec fn put_path_sep(tokens: Seq<Token>) -> Seq<Token> {
    tokens.push(Token::Punct { ch: ':', joint: true }).push(Token::Punct { ch: ':', joint: false })
}

/// `tokens`, then `->`.
pub open spec fn put_arrow(tokens: Seq<Token>) -> Seq<Token> {
    tokens.push(Token::Punct { ch: '-', joint: true }).push(Token::Punct { ch: '>', joint: false })
}

/// `tokens`, then the literal of `value`.
pub open spec fn put_number(tokens: Seq<Token>, value: nat) -> Seq<Token> {
    tokens.push(Token::Number { value, suffixed: false })
}

/// `tokens`, then the literal of `value` with the suffix `usize`.
pub open spec fn put_suffixed(tokens: Seq<Token>, value: nat) -> Seq<Token> {
    tokens.push(Token::Number { value, suffixed: true })
}

/// `tokens`, then `value`: a minus sign and the literal of the magnitude
/// where `value` is negative.
pub open spec fn put_int(tokens: Seq<Token>, value: int) -> Seq<Token> {
    if value < 0 {
        put_number(put_punct(tokens, '-'), (-value) as nat)
    } else {
        put_number(tokens, value as nat)
    }
}

/// `tokens`, then `inner` between brackets.
pub open spec fn put_group(tokens: Seq<Token>, bracketing: Bracketing, inner: Seq<Token>) -> Seq<
    Token,
> {
    tokens.push(Token::Group { bracketing, tokens: inner })
}

/// `tokens`, then `first :: second`.
pub open spec fn put_path(tokens: Seq<Token>, first: Word, second: Word) -> Seq<Token> {
    put_word(put_path_sep(put_word(tokens, first)), second)
}

/// `tokens`, then `first :: second :: third`.
pub open spec fn put_long_path(tokens: Seq<Token>, first: Word, second: Word, third: Word) -> Seq<
    Token,
> {
    put_word(put_path_sep(put_path(tokens, first, second)), third)
}

/// `tokens`, then `. method ( arguments )`.
pub open spec fn put_call(tokens: Seq<Token>, method: Word, arguments: Seq<Token>) -> Seq<Token> {
    put_group(put_word(put_punct(tokens, '.'), method), Bracketing::Parenthesis, arguments)
}

/// `tokens`, then `# [ name ( arguments ) ]`.
pub open spec fn put_attribute(tokens: Seq<Token>, name: Word, arguments: Seq<Token>) -> Seq<Token> {
    put_group(
        put_punct(tokens, '#'),
        Bracketing::Bracket,
        put_group(put_word(Seq::empty(), name), Bracketing::Parenthesis, arguments),
    )
}

pub(crate) fn write_name(stream: &mut TokenStream, name: &String)
    requires
        valid_name(name@),
    ensures
        stream_tokens(*final(stream)) == put_name(stream_tokens(*old(stream)), name@),
{
    push_ident(stream, name.as_str());
}

pub(crate) fn write_punct(stream: &mut TokenStream, ch: char)
    requires
        is_punct(ch),
    ensures
        stream_tokens(*final(stream)) == put_punct(stream_tokens(*old(stream)), ch),
{
    push_punct(stream, ch, false);
}

pub(crate) fn write_path_sep(stream: &mut TokenStream)
    ensures
        stream_tokens(*final(stream)) == put_path_sep(stream_tokens(*old(stream))),
{
    push_punct(stream, ':', true);
    push_punct(stream, ':', false);
}

pub(crate) fn write_arrow(stream: &mut TokenStream)
    ensures
        stream_tokens(*final(stream)) == put_arrow(stream_tokens(*old(stream))),
{
    push_punct(stream, '-', true);
    push_punct(stream, '>', false);
}

pub(crate) fn write_number(stream: &mut TokenStream, value: usize)
    ensures
        stream_tokens(*final(stream)) == put_number(stream_tokens(*old(stream)), value as nat),
{
    push_unsuffixed(stream, value as u64);
}

pub(crate) fn write_int(stream: &mut TokenStream, value: i64)
    ensures
        stream_tokens(*final(stream)) == put_int(stream_tokens(*old(stream)), value as int),
{
    if value < 0 {
        write_punct(stream, '-');
        let magnitude: u64 = if value == i64::MIN {
            9223372036854775808u64
        } else {
            (-value) as u64
        };
        push_unsuffixed(stream, magnitude);
    } else {
        push_unsuffixed(stream, value as u64);
    }
}

pub(crate) fn write_path(stream: &mut TokenStream, first: Word, second: Word)
    ensures
        stream_tokens(*final(stream)) == put_path(stream_tokens(*old(stream)), first, second),
{
    push_word(stream, first);
    write_path_sep(stream);
    push_word(stream, second);
}

pub(crate) fn write_long_path(stream: &mut TokenStream, first: Word, second: Word, third: Word)
    ensures
        stream_tokens(*final(stream)) == put_long_path(
            stream_tokens(*old(stream)),
            first,
            second,
            third,
        ),
{
    write_path(stream, first, second);
    write_path_sep(stream);
    push_word(stream, third);
}

pub(crate) fn write_call(stream: &mut TokenStream, method: Word, arguments: TokenStream)
    ensures
        stream_tokens(*final(stream)) == put_call(
            stream_tokens(*old(stream)),
            method,
            stream_tokens(arguments),
        ),
{
    write_punct(stream, '.');
    push_word(stream, method);
    push_group(stream, Bracketing::Parenthesis, arguments);
}

pub(crate) fn write_attribute(stream: &mut TokenStream, name: Word, arguments: TokenStream)
    ensures
        stream_tokens(*final(stream)) == put_attribute(
            stream_tokens(*old(stream)),
            name,
            stream_tokens(arguments),
        ),
{
    let mut inner = empty_stream();
    push_word(&mut inner, name);
    push_group(&mut inner, Bracketing::Parenthesis, arguments);
    write_punct(stream, '#');
    push_group(stream, Bracketing::Bracket, inner);
}

// Types.

/// `tokens`, then the type of a tensor: `Tensor < B , rank >`, with the
/// element kind after the rank where the elements are no floats, and with
/// `::` before `<` where the type stands in an expression.
pub open spec fn put_tensor_type(
    tokens: Seq<Token>,
    tensor: TensorTypeView,
    in_expression: bool,
) -> Seq<Token> {
    let named = put_word(tokens, Word::Tensor);
    let opened = put_punct(
        if in_expression {
            put_path_sep(named)
        } else {
            named
        },
        '<',
    );
    let ranked = put_number(put_punct(put_word(opened, Word::B), ','), tensor.rank);
    let kinded = match tensor.kind {
        ElementKind::Float => ranked,
        ElementKind::Int => put_word(put_punct(ranked, ','), Word::Int),
        ElementKind::Bool => put_word(put_punct(ranked, ','), Word::Bool),
    };
    put_punct(kinded, '>')
}

/// The type of a single element of kind `kind`.
pub open spec fn scalar_word(kind: ElementKind) -> Word {
    match kind {
        ElementKind::Float => Word::F32,
        ElementKind::Int => Word::I64,
        ElementKind::Bool => Word::BoolType,
    }
}

/// `tokens`, then the type under which a value of type `ty` is declared: a
/// tensor as by [`put_tensor_type`], a scalar by its element type, a shape as
/// `[ usize ; rank ]`. A value that is carried by name only has no such type.
pub open spec fn put_type(tokens: Seq<Token>, ty: TypeView) -> Seq<Token> {
    match ty {
        TypeView::Tensor(tensor) => put_tensor_type(tokens, tensor, false),
        TypeView::Scalar(scalar) => put_word(tokens, scalar_word(scalar.kind)),
        TypeView::Shape(shape) => put_group(
            tokens,
            Bracketing::Bracket,
            put_number(put_punct(put_word(Seq::empty(), Word::Usize), ';'), shape.rank),
        ),
        TypeView::Other(_) => tokens,
    }
}

/// A value of type `ty` can be declared: it has a valid name and a type that
/// can be written.
pub open spec fn declarable(ty: TypeView) -> bool {
    valid_name(ty.name()) && !(ty is Other)
}

pub(crate) fn write_tensor_type(stream: &mut TokenStream, tensor: &TensorType, in_expression: bool)
    ensures
        stream_tokens(*final(stream)) == put_tensor_type(
            stream_tokens(*old(stream)),
            tensor@,
            in_expression,
        ),
{
    push_word(stream, Word::Tensor);
    if in_expression {
        write_path_sep(stream);
    }
    write_punct(stream, '<');
    push_word(stream, Word::B);
    write_punct(stream, ',');
    write_number(stream, tensor.rank);
    match tensor.kind {
        ElementKind::Float => {},
        ElementKind::Int => {
            write_punct(stream, ',');
            push_word(stream, Word::Int);
        },
        ElementKind::Bool => {
            write_punct(stream, ',');
            push_word(stream, Word::Bool);
        },
    }
    write_punct(stream, '>');
}

pub(crate) fn write_type(stream: &mut TokenStream, ty: &Type)
    ensures
        stream_tokens(*final(stream)) == put_type(stream_tokens(*old(stream)), ty@),
{
    match ty {
        Type::Tensor(tensor) => write_tensor_type(stream, tensor, false),
        Type::Scalar(scalar) => {
            let word = match scalar.kind {
                ElementKind::Float => Word::F32,
                ElementKind::Int => Word::I64,
                ElementKind::Bool => Word::BoolType,
            };
            push_word(stream, word);
        },
        Type::Shape(shape) => {
            let mut inner = empty_stream();
            push_word(&mut inner, Word::Usize);
            write_punct(&mut inner, ';');
            write_number(&mut inner, shape.rank);
            push_group(stream, Bracketing::Bracket, inner);
        },
        Type::Other(_) => {},
    }
}

pub(crate) fn is_declarable(ty: &Type) -> (b: bool)
    ensures
        b == declarable(ty@),
{
    match ty {
        Type::Other(_) => false,
        _ => is_valid_name(ty.name().as_str()),
    }
}

impl Type {
    /// The type under which the value is declared in a signature, as tokens;
    /// none for a value that is carried by name only.
    pub fn declaration(&self) -> (result: Option<TokenStream>)
        ensures
            match result {
                Some(stream) => !(self@ is Other) && stream_tokens(stream) == put_type(
                    Seq::empty(),
                    self@,
                ),
                None => self@ is Other,
            },
    {
        match self {
            Type::Other(_) => None,
            _ => {
                let mut stream = empty_stream();
                write_type(&mut stream, self);
                Some(stream)
            },
        }
    }
}

} // verus!
