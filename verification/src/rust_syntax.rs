//! What is a Rust expression, an operator, an integer literal, an identifier:
//! questions that only a parser of Rust can answer. They are put to `syn`,
//! which answers each of them for every text: a literal that it does not know
//! it takes as it stands. It parses by recursion, one level for each level of
//! nesting in the text, and so needs stack in proportion to that depth.

use vstd::prelude::*;
use quote::ToTokens;
use syn::parse::Parser;
use syn::punctuated::Punctuated;

verus! {

#[verifier::external_type_specification]
#[verifier::external_body]
pub struct ExSynError(syn::Error);

/// The texts of a list as mathematical values.
pub open spec fn texts(strings: Seq<String>) -> Seq<Seq<char>> {
    strings.map_values(|text: String| text@)
}

/// Whether `syn` reads the whole text as one Rust expression.
pub uninterp spec fn parses_as_expression(text: Seq<char>) -> bool;

/// What `syn` reads from a text as expressions separated by commas: the
/// expressions, each written out again token by token, and whether a comma
/// follows the last one. `None` where the text is no such list.
pub uninterp spec fn parsed_expression_list(text: Seq<char>) -> Option<(Seq<Seq<char>>, bool)>;

/// Whether `syn` reads the whole text as one binary operator of Rust: an
/// operator of arithmetic, of logic or of comparison, or one of them with an
/// assignment.
pub uninterp spec fn parses_as_binary_operator(text: Seq<char>) -> bool;

/// Whether `syn` reads the whole text as one integer literal, with or
/// without a minus sign in front.
pub uninterp spec fn parses_as_integer_literal(text: Seq<char>) -> bool;

/// Whether `syn` reads the whole text as one identifier: one word that is
/// neither `_` nor among the words that `syn` refuses as keywords.
pub uninterp spec fn parses_as_identifier(text: Seq<char>) -> bool;

/// `syn::parse_str::<syn::Expr>`. The contract says that success is a
/// function of the text, named `parses_as_expression`, and nothing else.
#[verifier::external_body]
fn syn_expression(text: &str) -> (result: Result<(), syn::Error>)
    ensures
        result is Ok == parses_as_expression(text@),
{
    syn::parse_str::<syn::Expr>(text).map(|_| ())
}

/// `Punctuated::<Expr, Comma>::parse_terminated` of `syn`, run on a text by
/// `Parser::parse_str`; each expression is handed back as the text of its
/// tokens (`ToTokens::to_token_stream` of `quote`), together with
/// `Punctuated::trailing_punct`. The contract says that this result is a
/// function of the text, named `parsed_expression_list`, and nothing else.
#[verifier::external_body]
fn syn_expression_list(text: &str) -> (result: Result<(Vec<String>, bool), syn::Error>)
    ensures
        match result {
            Ok(list) => parsed_expression_list(text@) == Some((texts(list.0@), list.1)),
            Err(_) => parsed_expression_list(text@) is None,
        },
{
    let list = Punctuated::<syn::Expr, syn::token::Comma>::parse_terminated.parse_str(text)?;
    Ok((list.iter().map(|e| e.to_token_stream().to_string()).collect(), list.trailing_punct()))
}

/// `syn::parse_str::<syn::BinOp>`. The contract says that success is a
/// function of the text, named `parses_as_binary_operator`, and nothing else.
#[verifier::external_body]
fn syn_binary_operator(text: &str) -> (result: Result<(), syn::Error>)
    ensures
        result is Ok == parses_as_binary_operator(text@),
{
    syn::parse_str::<syn::BinOp>(text).map(|_| ())
}

/// `syn::parse_str::<syn::LitInt>`. The contract says that success is a
/// function of the text, named `parses_as_integer_literal`, and nothing else.
#[verifier::external_body]
fn syn_integer_literal(text: &str) -> (result: Result<(), syn::Error>)
    ensures
        result is Ok == parses_as_integer_literal(text@),
{
    syn::parse_str::<syn::LitInt>(text).map(|_| ())
}

/// `syn::parse_str::<syn::Ident>`. The contract says that success is a
/// function of the text, named `parses_as_identifier`, and nothing else.
#[verifier::external_body]
fn syn_identifier(text: &str) -> (result: Result<(), syn::Error>)
    ensures
        result is Ok == parses_as_identifier(text@),
{
    syn::parse_str::<syn::Ident>(text).map(|_| ())
}

/// Whether the whole text is one Rust expression.
pub fn is_expression(text: &str) -> (accepted: bool)
    ensures
        accepted == parses_as_expression(text@),
{
    match syn_expression(text) {
        Ok(_) => true,
        Err(_) => false,
    }
}

/// Reads a text as expressions separated by commas. Gives the expressions
/// and whether a comma follows the last one, or `None` where the text is no
/// such list.
pub fn expression_list(text: &str) -> (list: Option<(Vec<String>, bool)>)
    ensures
        match list {
            Some(list) => parsed_expression_list(text@) == Some((texts(list.0@), list.1)),
            None => parsed_expression_list(text@) is None,
        },
{
    match syn_expression_list(text) {
        Ok(list) => Some(list),
        Err(_) => None,
    }
}

/// Whether the whole text is one binary operator of Rust.
pub fn is_binary_operator(text: &str) -> (accepted: bool)
    ensures
        accepted == parses_as_binary_operator(text@),
{
    match syn_binary_operator(text) {
        Ok(_) => true,
        Err(_) => false,
    }
}

/// Whether the whole text is one integer literal.
pub fn is_integer_literal(text: &str) -> (accepted: bool)
    ensures
        accepted == parses_as_integer_literal(text@),
{
    match syn_integer_literal(text) {
        Ok(_) => true,
        Err(_) => false,
    }
}

/// Whether the whole text is one identifier.
pub fn is_identifier(text: &str) -> (accepted: bool)
    ensures
        accepted == parses_as_identifier(text@),
{
    match syn_identifier(text) {
        Ok(_) => true,
        Err(_) => false,
    }
}

} // verus!
