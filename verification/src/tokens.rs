//! Token streams of the `proc_macro2` crate, and what each call used here
//! does to the tokens that a stream holds.

use proc_macro2::{Delimiter, Group, Ident, Literal, Punct, Spacing, Span, TokenStream, TokenTree};
use vstd::prelude::*;

use crate::types::valid_name;

verus! {

/// The brackets around a group of tokens.
#[derive(Clone, Copy, Debug, PartialEq, Eq, Structural)]
pub enum Bracketing {
    Parenthesis,
    Brace,
    Bracket,
}

/// Mathematical model of one token tree.
pub enum Token {
    /// A word: an identifier or a keyword.
    Ident(Seq<char>),
    /// One punctuation character; `joint` where the next token is a
    /// punctuation character that forms one operator with it.
    Punct { ch: char, joint: bool },
    /// A decimal integer literal, with the suffix `usize` where `suffixed`.
    Number { value: nat, suffixed: bool },
    /// Tokens between brackets.
    Group { bracketing: Bracketing, tokens: Seq<Token> },
}

/// The punctuation characters that a token can hold.
pub open spec fn is_punct(ch: char) -> bool {
    ch == '!' || ch == '#' || ch == '$' || ch == '%' || ch == '&' || ch == '\'' || ch == '*' || ch
        == '+' || ch == ',' || ch == '-' || ch == '.' || ch == '/' || ch == ':' || ch == ';' || ch
        == '<' || ch == '=' || ch == '>' || ch == '?' || ch == '@' || ch == '^' || ch == '|' || ch
        == '~'
}

#[verifier::external_type_specification]
#[verifier::external_body]
pub struct ExTokenStream(TokenStream);

/// The token trees that a stream holds, in order.
pub uninterp spec fn stream_tokens(stream: TokenStream) -> Seq<Token>;

/// `TokenStream::new`: a stream that holds no token.
#[verifier::external_body]
pub(crate) fn empty_stream() -> (stream: TokenStream)
    ensures
        stream_tokens(stream) == Seq::<Token>::empty(),
{
    TokenStream::new()
}

/// `Ident::new` with the call-site span, appended with `extend`: the stream
/// gains one word with the text `name`. `Ident::new` accepts every string
/// that starts with a letter or `_` and goes on with letters, digits and `_`.
#[verifier::external_body]
pub(crate) fn push_ident(stream: &mut TokenStream, name: &str)
    requires
        valid_name(name@),
    ensures
        stream_tokens(*final(stream)) == stream_tokens(*old(stream)).push(Token::Ident(name@)),
{
    stream.extend([TokenTree::Ident(Ident::new(name, Span::call_site()))]);
}

/// `Punct::new`, appended with `extend`: the stream gains the punctuation
/// character `ch`, with joint spacing where `joint`. `Punct::new` accepts the
/// characters of [`is_punct`].
#[verifier::external_body]
pub(crate) fn push_punct(stream: &mut TokenStream, ch: char, joint: bool)
    requires
        is_punct(ch),
    ensures
        stream_tokens(*final(stream)) == stream_tokens(*old(stream)).push(
            Token::Punct { ch, joint },
        ),
{
    let spacing = if joint { Spacing::Joint } else { Spacing::Alone };
    stream.extend([TokenTree::Punct(Punct::new(ch, spacing))]);
}

/// `Literal::u64_unsuffixed`, appended with `extend`: the stream gains the
/// decimal literal of `value`, without a suffix.
#[verifier::external_body]
pub(crate) fn push_unsuffixed(stream: &mut TokenStream, value: u64)
    ensures
        stream_tokens(*final(stream)) == stream_tokens(*old(stream)).push(
            Token::Number { value: value as nat, suffixed: false },
        ),
{
    stream.extend([TokenTree::Literal(Literal::u64_unsuffixed(value))]);
}

/// `Literal::usize_suffixed`, appended with `extend`: the stream gains the
/// decimal literal of `value` with the suffix `usize`.
#[verifier::external_body]
pub(crate) fn push_usize_suffixed(stream: &mut TokenStream, value: usize)
    ensures
        stream_tokens(*final(stream)) == stream_tokens(*old(stream)).push(
            Token::Number { value: value as nat, suffixed: true },
        ),
{
    stream.extend([TokenTree::Literal(Literal::usize_suffixed(value))]);
}

/// `Group::new`, appended with `extend`: the stream gains one group that holds
/// the tokens of `inner` between the brackets of `bracketing`.
#[verifier::external_body]
pub(crate) fn push_group(stream: &mut TokenStream, bracketing: Bracketing, inner: TokenStream)
    ensures
        stream_tokens(*final(stream)) == stream_tokens(*old(stream)).push(
            Token::Group { bracketing, tokens: stream_tokens(inner) },
        ),
{
    let delimiter = match bracketing {
        Bracketing::Parenthesis => Delimiter::Parenthesis,
        Bracketing::Brace => Delimiter::Brace,
        Bracketing::Bracket => Delimiter::Bracket,
    };
    stream.extend([TokenTree::Group(Group::new(delimiter, inner))]);
}

} // verus!
