//! The count in front of an `exactly` comparison: `n of {...}`.

use vstd::prelude::*;
use vstd::string::StringExecFns;
use crate::comparison::ComparisonExpression;
use crate::comparison::ComparisonExpressionView;
use crate::error::ParseError;
use crate::input::ParseInput;
use crate::rust_syntax::is_identifier;
use crate::rust_syntax::is_integer_literal;
use crate::rust_syntax::parses_as_identifier;
use crate::rust_syntax::parses_as_integer_literal;
use crate::token::lexed;
use crate::token::Lexeme;
use crate::token::TokenKind;

verus! {

/// How many comparisons are to hold: an integer literal, or a name that
/// stands for an integer where the comparison is written.
#[derive(Clone, Debug)]
pub enum Number {
    Literal(String),
    Identifier(String),
}

/// A count as a mathematical value.
pub enum NumberView {
    Literal(Seq<char>),
    Identifier(Seq<char>),
}

impl View for Number {
    type V = NumberView;

    open spec fn view(&self) -> NumberView {
        match self {
            Number::Literal(text) => NumberView::Literal(text@),
            Number::Identifier(text) => NumberView::Identifier(text@),
        }
    }
}

impl NumberView {
    /// The count as written.
    pub open spec fn text(self) -> Seq<char> {
        match self {
            NumberView::Literal(text) => text,
            NumberView::Identifier(text) => text,
        }
    }
}

/// What the answers of the Rust parser make of the tokens at the head: an
/// integer literal with a minus sign, one without, an identifier, or none of
/// these. With each stands the number of tokens that it takes.
pub open spec fn number_from(
    rest: Seq<Lexeme>,
    negative_literal: bool,
    literal: bool,
    identifier: bool,
) -> Result<(NumberView, nat), ParseError> {
    if Number::begins_with_minus(rest) && negative_literal {
        Ok((NumberView::Literal("-"@ + rest[1].text), 2nat))
    } else if rest.len() > 0 && rest[0].kind == TokenKind::Literal && literal {
        Ok((NumberView::Literal(rest[0].text), 1nat))
    } else if rest.len() > 0 && rest[0].kind == TokenKind::Ident && identifier {
        Ok((NumberView::Identifier(rest[0].text), 1nat))
    } else {
        Err(ParseError::ExpectedNumber)
    }
}

impl Number {
    /// A minus sign with a literal behind it stands at the head of the
    /// tokens.
    pub open spec fn begins_with_minus(rest: Seq<Lexeme>) -> bool {
        rest.len() > 1 && rest[0].kind.spec_is_punct() && rest[0].text == "-"@ && rest[1].kind
            == TokenKind::Literal
    }

    /// The count at the head of the tokens and the number of tokens that it
    /// takes: an integer literal, with a minus sign or without, or else an
    /// identifier. The Rust parser is asked about a literal whether it is an
    /// integer, and about a word whether it is an identifier; about no other
    /// token.
    pub open spec fn recognized(rest: Seq<Lexeme>) -> Result<(NumberView, nat), ParseError> {
        number_from(
            rest,
            Self::begins_with_minus(rest) && parses_as_integer_literal("-"@ + rest[1].text),
            rest.len() > 0 && rest[0].kind == TokenKind::Literal && parses_as_integer_literal(
                rest[0].text,
            ),
            rest.len() > 0 && rest[0].kind == TokenKind::Ident && parses_as_identifier(
                rest[0].text,
            ),
        )
    }

    /// The count as written.
    pub fn text(&self) -> (text: &String)
        ensures
            text@ == self@.text(),
    {
        match self {
            Number::Literal(text) => text,
            Number::Identifier(text) => text,
        }
    }

    /// Takes the count at the position, given what the Rust parser answers
    /// on the tokens at the head.
    pub fn given(
        input: &ParseInput,
        negative_literal: bool,
        literal: bool,
        identifier: bool,
    ) -> (result: Result<(Number, usize), ParseError>)
        requires
            input.wf(),
        ensures
            match result {
                Ok((number, count)) => number_from(
                    input.rest(),
                    negative_literal,
                    literal,
                    identifier,
                ) == Ok::<(NumberView, nat), ParseError>((number@, count as nat)),
                Err(error) => number_from(input.rest(), negative_literal, literal, identifier)
                    == Err::<(NumberView, nat), ParseError>(error),
            },
    {
        if Number::starts_with_minus(input) && negative_literal {
            let mut text = "-".to_owned();
            text.append(input.peek(1).text.as_str());
            Ok((Number::Literal(text), 2))
        } else if input.remaining() > 0 && input.peek(0).kind == TokenKind::Literal && literal {
            Ok((Number::Literal(input.peek(0).text.clone()), 1))
        } else if input.remaining() > 0 && input.peek(0).kind == TokenKind::Ident && identifier {
            Ok((Number::Identifier(input.peek(0).text.clone()), 1))
        } else {
            Err(ParseError::ExpectedNumber)
        }
    }

    /// Whether a minus sign with a literal behind it stands at the position.
    pub fn starts_with_minus(input: &ParseInput) -> (minus: bool)
        requires
            input.wf(),
        ensures
            minus == Self::begins_with_minus(input.rest()),
    {
        input.remaining() > 1 && input.peek(0).kind.is_punct() && input.peek(0).text
            == "-".to_owned() && input.peek(1).kind == TokenKind::Literal
    }

    /// Reads the count. Nothing is read where there is none.
    pub fn parse(input: &mut ParseInput) -> (result: Result<Number, ParseError>)
        requires
            old(input).wf(),
        ensures
            final(input).wf(),
            match result {
                Ok(number) => Self::recognized(old(input).rest()) matches Ok((view, count))
                    && number@ == view && *final(input) == old(input).advanced(count),
                Err(error) => Self::recognized(old(input).rest()) == Err::<
                    (NumberView, nat),
                    ParseError,
                >(error) && *final(input) == *old(input),
            },
    {
        let negative_literal = if Number::starts_with_minus(input) {
            let mut text = "-".to_owned();
            text.append(input.peek(1).text.as_str());
            is_integer_literal(text.as_str())
        } else {
            false
        };
        let literal = input.remaining() > 0 && input.peek(0).kind == TokenKind::Literal
            && is_integer_literal(input.peek(0).text.as_str());
        let identifier = input.remaining() > 0 && input.peek(0).kind == TokenKind::Ident
            && is_identifier(input.peek(0).text.as_str());
        let (number, count) = Number::given(input, negative_literal, literal, identifier)?;
        input.advance(count);
        Ok(number)
    }
}

/// A count and the word `of` behind it.
#[derive(Clone, Debug)]
pub struct NumberOf {
    /// The count.
    pub n: Number,
}

impl View for NumberOf {
    type V = NumberView;

    open spec fn view(&self) -> NumberView {
        self.n@
    }
}

impl NumberOf {
    /// The count at the head of the tokens, with the word `of` behind it, and
    /// the number of tokens that both take.
    pub open spec fn recognized(rest: Seq<Lexeme>) -> Result<(NumberView, nat), ParseError> {
        match Number::recognized(rest) {
            Err(error) => Err(error),
            Ok((number, count)) => if rest.len() > count && rest[count as int].is(
                TokenKind::Ident,
                "of"@,
            ) {
                Ok((number, count + 1))
            } else {
                Err(ParseError::ExpectedOf)
            },
        }
    }

    /// Reads the count and the word `of`. Nothing is read where one of them
    /// is missing.
    pub fn parse(input: &mut ParseInput) -> (result: Result<NumberOf, ParseError>)
        requires
            old(input).wf(),
        ensures
            final(input).wf(),
            match result {
                Ok(number_of) => Self::recognized(old(input).rest()) matches Ok((view, count))
                    && number_of@ == view && *final(input) == old(input).advanced(count),
                Err(error) => Self::recognized(old(input).rest()) == Err::<
                    (NumberView, nat),
                    ParseError,
                >(error) && *final(input) == *old(input),
            },
    {
        let start = input.position;
        let ghost begin = *input;
        let n = Number::parse(input)?;
        proof {
            let count = Number::recognized(begin.rest())->Ok_0.1;
            begin.advanced_rest(count);
        }
        if input.remaining() > 0 && input.peek(0).is(TokenKind::Ident, "of") {
            input.advance(1);
            Ok(NumberOf { n })
        } else {
            input.position = start;
            Err(ParseError::ExpectedOf)
        }
    }
}

/// What stands between the parentheses of `exactly!`: a count, the word
/// `of`, and a fluent comparison.
#[derive(Clone, Debug)]
pub struct ExactlyMacroPat {
    pub number_of: NumberOf,
    pub comparison_expr: ComparisonExpression,
}

/// An `exactly` pattern as a mathematical value.
pub struct ExactlyMacroPatView {
    pub number: NumberView,
    pub comparison_expr: ComparisonExpressionView,
}

impl View for ExactlyMacroPat {
    type V = ExactlyMacroPatView;

    open spec fn view(&self) -> ExactlyMacroPatView {
        ExactlyMacroPatView { number: self.number_of@, comparison_expr: self.comparison_expr@ }
    }
}

impl ExactlyMacroPat {
    /// The pattern that the tokens are, all of them.
    pub open spec fn recognized(rest: Seq<Lexeme>) -> Result<ExactlyMacroPatView, ParseError> {
        match NumberOf::recognized(rest) {
            Err(error) => Err(error),
            Ok((number, count)) => match ComparisonExpression::recognized(rest.skip(count as int)) {
                Err(error) => Err(error),
                Ok(comparison_expr) => Ok(ExactlyMacroPatView { number, comparison_expr }),
            },
        }
    }

    /// The pattern that a text is.
    pub open spec fn read(source: Seq<char>) -> Result<ExactlyMacroPatView, ParseError> {
        match lexed(source) {
            None => Err(ParseError::InvalidTokens),
            Some(tokens) => Self::recognized(tokens),
        }
    }

    /// Reads a text as a count, the word `of` and a fluent comparison.
    pub fn from_source(source: &str) -> (result: Result<ExactlyMacroPat, ParseError>)
        ensures
            match result {
                Ok(pattern) => Self::read(source@) == Ok::<ExactlyMacroPatView, ParseError>(
                    pattern@,
                ),
                Err(error) => Self::read(source@) == Err::<ExactlyMacroPatView, ParseError>(error),
            },
    {
        let mut input = ParseInput::from_source(source)?;
        ExactlyMacroPat::parse(&mut input)
    }

    /// Reads the pattern from the position to the end of the tokens. Nothing
    /// is read where they are none.
    pub fn parse(input: &mut ParseInput) -> (result: Result<ExactlyMacroPat, ParseError>)
        requires
            old(input).wf(),
        ensures
            final(input).wf(),
            match result {
                Ok(pattern) => Self::recognized(old(input).rest()) == Ok::<
                    ExactlyMacroPatView,
                    ParseError,
                >(pattern@) && *final(input) == old(input).advanced(old(input).rest().len()),
                Err(error) => Self::recognized(old(input).rest()) == Err::<
                    ExactlyMacroPatView,
                    ParseError,
                >(error) && *final(input) == *old(input),
            },
    {
        let start = input.position;
        let ghost begin = *input;
        let number_of = NumberOf::parse(input)?;
        proof {
            let count = NumberOf::recognized(begin.rest())->Ok_0.1;
            begin.advanced_rest(count);
            input.advanced_rest(0);
        }
        let comparison_expr = match ComparisonExpression::parse(input) {
            Ok(comparison_expr) => comparison_expr,
            Err(error) => {
                input.position = start;
                return Err(error);
            },
        };
        Ok(ExactlyMacroPat { number_of, comparison_expr })
    }
}

} // verus!
