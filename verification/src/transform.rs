//! The transformation clause: `.map(f)`, `.satisfy(f)`, or nothing.

use vstd::prelude::*;
use crate::error::ParseError;
use crate::input::ParseInput;
use crate::token::Lexeme;
use crate::token::TokenKind;

verus! {

/// The word that names the transformation.
#[derive(Clone, Copy, Debug, PartialEq, Eq, Structural)]
pub enum TransformKind {
    Mapped,
    Satisfy,
}

/// The transformation clause as written.
#[derive(Clone, Debug)]
pub enum TransformCall {
    /// No clause.
    Identity,
    /// `.map(f)`, with the tokens of `f`.
    Mapped(String),
    /// `.satisfy(f)`, with the tokens of `f`.
    Satisfy(String),
}

/// A transformation clause as a mathematical value.
pub enum TransformCallView {
    Identity,
    Mapped(Seq<char>),
    Satisfy(Seq<char>),
}

impl View for TransformCall {
    type V = TransformCallView;

    open spec fn view(&self) -> TransformCallView {
        match self {
            TransformCall::Identity => TransformCallView::Identity,
            TransformCall::Mapped(f) => TransformCallView::Mapped(f@),
            TransformCall::Satisfy(f) => TransformCallView::Satisfy(f@),
        }
    }
}

/// The transformation that is applied to each operand before it is compared.
/// A predicate is a transformation too: `.satisfy(f)` stands for
/// `.map(f) == true`.
#[derive(Clone, Debug)]
pub enum Transform {
    /// The operands are compared as they are.
    Identity,
    /// Each operand is handed to the function first.
    Mapped(String),
}

/// A transformation as a mathematical value.
pub enum TransformView {
    Identity,
    Mapped(Seq<char>),
}

impl View for Transform {
    type V = TransformView;

    open spec fn view(&self) -> TransformView {
        match self {
            Transform::Identity => TransformView::Identity,
            Transform::Mapped(f) => TransformView::Mapped(f@),
        }
    }
}

impl TransformCallView {
    /// The transformation that the clause asks for.
    pub open spec fn transform(self) -> TransformView {
        match self {
            TransformCallView::Identity => TransformView::Identity,
            TransformCallView::Mapped(f) => TransformView::Mapped(f),
            TransformCallView::Satisfy(f) => TransformView::Mapped(f),
        }
    }
}

impl TransformKind {
    /// The word at the head of the tokens names a transformation: `map` or
    /// `satisfy`, and no other.
    pub open spec fn recognized(rest: Seq<Lexeme>) -> Result<TransformKind, ParseError> {
        if rest.len() > 0 && rest[0].is(TokenKind::Ident, "map"@) {
            Ok(TransformKind::Mapped)
        } else if rest.len() > 0 && rest[0].is(TokenKind::Ident, "satisfy"@) {
            Ok(TransformKind::Satisfy)
        } else {
            Err(ParseError::UnknownTransform)
        }
    }

    /// Reads the word that names the transformation. Nothing is read where
    /// the word is another one.
    pub fn parse(input: &mut ParseInput) -> (result: Result<TransformKind, ParseError>)
        requires
            old(input).wf(),
        ensures
            final(input).wf(),
            result == Self::recognized(old(input).rest()),
            *final(input) == old(input).advanced(
                if result is Ok {
                    1
                } else {
                    0
                },
            ),
    {
        proof {
            input.advanced_rest(0);
        }
        if input.remaining() > 0 && input.peek(0).is(TokenKind::Ident, "map") {
            input.advance(1);
            Ok(TransformKind::Mapped)
        } else if input.remaining() > 0 && input.peek(0).is(TokenKind::Ident, "satisfy") {
            input.advance(1);
            Ok(TransformKind::Satisfy)
        } else {
            Err(ParseError::UnknownTransform)
        }
    }
}

impl TransformCall {
    /// The clause at the head of the tokens and the number of tokens that it
    /// takes: none where no dot stands there; else the dot, the word `map` or
    /// `satisfy`, and a group in parentheses, whatever it holds.
    pub open spec fn recognized(rest: Seq<Lexeme>) -> Result<(TransformCallView, nat), ParseError> {
        if rest.len() > 0 && rest[0].kind.spec_is_punct() && rest[0].text == "."@ {
            match TransformKind::recognized(rest.skip(1)) {
                Err(error) => Err(error),
                Ok(kind) => if rest.len() > 2 && rest[2].kind == TokenKind::Parenthesized {
                    Ok(
                        (
                            match kind {
                                TransformKind::Mapped => TransformCallView::Mapped(rest[2].text),
                                TransformKind::Satisfy => TransformCallView::Satisfy(rest[2].text),
                            },
                            3nat,
                        ),
                    )
                } else {
                    Err(ParseError::ExpectedParentheses)
                },
            }
        } else {
            Ok((TransformCallView::Identity, 0nat))
        }
    }

    /// Reads the transformation clause, if one stands at the position.
    /// Nothing is read where it is malformed.
    pub fn parse(input: &mut ParseInput) -> (result: Result<TransformCall, ParseError>)
        requires
            old(input).wf(),
        ensures
            final(input).wf(),
            match result {
                Ok(call) => Self::recognized(old(input).rest()) matches Ok((view, count))
                    && call@ == view && *final(input) == old(input).advanced(count),
                Err(error) => Self::recognized(old(input).rest()) == Err::<
                    (TransformCallView, nat),
                    ParseError,
                >(error) && *final(input) == *old(input),
            },
    {
        if input.remaining() > 0 && input.peek(0).kind.is_punct() && input.peek(0).text
            == ".".to_owned() {
            let start = input.position;
            input.advance(1);
            let ghost dotted = *input;
            let kind = match TransformKind::parse(input) {
                Ok(kind) => {
                    proof {
                        dotted.advanced_rest(1);
                    }
                    kind
                },
                Err(error) => {
                    input.position = start;
                    return Err(error);
                },
            };
            if input.remaining() > 0 && input.peek(0).kind == TokenKind::Parenthesized {
                let transformation = input.peek(0).text.clone();
                input.advance(1);
                Ok(
                    match kind {
                        TransformKind::Mapped => TransformCall::Mapped(transformation),
                        TransformKind::Satisfy => TransformCall::Satisfy(transformation),
                    },
                )
            } else {
                input.position = start;
                Err(ParseError::ExpectedParentheses)
            }
        } else {
            Ok(TransformCall::Identity)
        }
    }

    /// The transformation that the clause asks for.
    pub fn transform(self) -> (transform: Transform)
        ensures
            transform@ == self@.transform(),
    {
        match self {
            TransformCall::Identity => Transform::Identity,
            TransformCall::Mapped(f) => Transform::Mapped(f),
            TransformCall::Satisfy(f) => Transform::Mapped(f),
        }
    }
}

} // verus!
