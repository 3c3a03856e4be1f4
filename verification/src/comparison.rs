//! The fluent comparison itself: a list of operands in curly braces, a
//! transformation clause or none, and the operator with its right-hand side.

use vstd::prelude::*;
use vstd::string::StringExecFns;
use crate::error::ParseError;
use crate::input::ParseInput;
use crate::operator::ComparisonOperator;
use crate::rust_syntax::expression_list;
use crate::rust_syntax::is_binary_operator;
use crate::rust_syntax::is_expression;
use crate::rust_syntax::parsed_expression_list;
use crate::rust_syntax::parses_as_binary_operator;
use crate::rust_syntax::parses_as_expression;
use crate::rust_syntax::texts;
use crate::token::lexed;
use crate::token::rendering;
use crate::token::Lexeme;
use crate::token::TokenKind;
use crate::transform::Transform;
use crate::transform::TransformCall;
use crate::transform::TransformCallView;
use crate::transform::TransformView;

verus! {

/// The operator that a spelling stands for: one of the six comparisons, or
/// an error for any other token.
pub open spec fn checked_operator(spelling: Seq<char>) -> Result<ComparisonOperator, ParseError> {
    if spelling == "=="@ {
        Ok(ComparisonOperator::Equal)
    } else if spelling == "!="@ {
        Ok(ComparisonOperator::NotEqual)
    } else if spelling == "<="@ {
        Ok(ComparisonOperator::LessOrEqual)
    } else if spelling == ">="@ {
        Ok(ComparisonOperator::GreaterOrEqual)
    } else if spelling == "<"@ {
        Ok(ComparisonOperator::Less)
    } else if spelling == ">"@ {
        Ok(ComparisonOperator::Greater)
    } else {
        Err(ParseError::InvalidOperator)
    }
}

/// Checks whether a token is an allowed comparison operator. Logical
/// operators, assignments and every other token are refused.
pub fn check_comparison_operator(spelling: &str) -> (result: Result<
    ComparisonOperator,
    ParseError,
>)
    ensures
        result == checked_operator(spelling@),
{
    let spelling = spelling.to_owned();
    if spelling == "==".to_owned() {
        Ok(ComparisonOperator::Equal)
    } else if spelling == "!=".to_owned() {
        Ok(ComparisonOperator::NotEqual)
    } else if spelling == "<=".to_owned() {
        Ok(ComparisonOperator::LessOrEqual)
    } else if spelling == ">=".to_owned() {
        Ok(ComparisonOperator::GreaterOrEqual)
    } else if spelling == "<".to_owned() {
        Ok(ComparisonOperator::Less)
    } else if spelling == ">".to_owned() {
        Ok(ComparisonOperator::Greater)
    } else {
        Err(ParseError::InvalidOperator)
    }
}

/// The first `count` tokens are punctuation characters, each joined to the
/// next: they are written side by side.
pub open spec fn glued(rest: Seq<Lexeme>, count: nat) -> bool {
    &&& 1 <= count <= rest.len()
    &&& forall|i: int| 0 <= i < count - 1 ==> (#[trigger] rest[i]).kind == TokenKind::Joint
    &&& rest[count - 1].kind.spec_is_punct()
}

/// The first `count` tokens, written side by side.
pub open spec fn spelling(rest: Seq<Lexeme>, count: nat) -> Seq<char>
    decreases count,
{
    if count == 0 {
        Seq::empty()
    } else {
        spelling(rest, (count - 1) as nat) + rest[count - 1].text
    }
}

/// The comparison operator at the head of the tokens and the number of tokens
/// that it takes, given for one, two and three tokens whether they spell a
/// binary operator of Rust. The operator token is the longest run of tokens
/// that stand side by side and spell one, so that a shift is refused and not
/// read as a `<` or `>` before something else; then it has to be one of the
/// six comparisons.
pub open spec fn operator_given(rest: Seq<Lexeme>, one: bool, two: bool, three: bool) -> Result<
    (ComparisonOperator, nat),
    ParseError,
> {
    let extent: nat = if glued(rest, 3) && three {
        3
    } else if glued(rest, 2) && two {
        2
    } else if glued(rest, 1) && one {
        1
    } else {
        0
    };
    if rest.len() == 0 {
        Err(ParseError::MissingComparison)
    } else if extent == 0 {
        Err(ParseError::InvalidOperator)
    } else {
        match checked_operator(spelling(rest, extent)) {
            Ok(op) => Ok((op, extent)),
            Err(error) => Err(error),
        }
    }
}

/// The comparison operator at the head of the tokens and the number of tokens
/// that it takes. No binary operator of Rust has more than three characters.
pub open spec fn leading_operator(rest: Seq<Lexeme>) -> Result<
    (ComparisonOperator, nat),
    ParseError,
> {
    operator_given(
        rest,
        parses_as_binary_operator(spelling(rest, 1)),
        parses_as_binary_operator(spelling(rest, 2)),
        parses_as_binary_operator(spelling(rest, 3)),
    )
}

/// Writes the first `count` tokens side by side, where they are punctuation
/// characters that stand so.
pub fn spell(input: &ParseInput, count: usize) -> (text: Option<String>)
    requires
        input.wf(),
    ensures
        match text {
            Some(text) => glued(input.rest(), count as nat) && text@ == spelling(
                input.rest(),
                count as nat,
            ),
            None => !glued(input.rest(), count as nat),
        },
{
    if count == 0 || input.remaining() < count {
        return None;
    }
    let mut text = String::new();
    let mut index: usize = 0;
    while index < count
        invariant
            input.wf(),
            index <= count <= input.rest().len(),
            text@ == spelling(input.rest(), index as nat),
            forall|i: int| 0 <= i < index ==> (#[trigger] input.rest()[i]).kind.spec_is_punct(),
            forall|i: int|
                0 <= i < index && i + 1 < count ==> (#[trigger] input.rest()[i]).kind
                    == TokenKind::Joint,
        decreases count - index,
    {
        let token = input.peek(index);
        if !token.kind.is_punct() {
            return None;
        }
        if index + 1 < count && token.kind != TokenKind::Joint {
            return None;
        }
        text.append(token.text.as_str());
        index = index + 1;
    }
    Some(text)
}

/// Finds the comparison operator at the position, given for one, two and
/// three tokens whether they spell a binary operator of Rust.
pub fn find_operator(input: &ParseInput, one: bool, two: bool, three: bool) -> (result: Result<
    (ComparisonOperator, usize),
    ParseError,
>)
    requires
        input.wf(),
    ensures
        match result {
            Ok((op, count)) => operator_given(input.rest(), one, two, three) == Ok::<
                (ComparisonOperator, nat),
                ParseError,
            >((op, count as nat)),
            Err(error) => operator_given(input.rest(), one, two, three) == Err::<
                (ComparisonOperator, nat),
                ParseError,
            >(error),
        },
{
    if input.remaining() == 0 {
        return Err(ParseError::MissingComparison);
    }
    if three {
        if let Some(text) = spell(input, 3) {
            return Ok((check_comparison_operator(text.as_str())?, 3));
        }
    }
    if two {
        if let Some(text) = spell(input, 2) {
            return Ok((check_comparison_operator(text.as_str())?, 2));
        }
    }
    if one {
        if let Some(text) = spell(input, 1) {
            return Ok((check_comparison_operator(text.as_str())?, 1));
        }
    }
    Err(ParseError::InvalidOperator)
}

/// Whether the first `count` tokens stand side by side and spell a binary
/// operator of Rust.
fn spells_operator(input: &ParseInput, count: usize) -> (accepted: bool)
    requires
        input.wf(),
    ensures
        accepted == (glued(input.rest(), count as nat) && parses_as_binary_operator(
            spelling(input.rest(), count as nat),
        )),
{
    match spell(input, count) {
        Some(text) => is_binary_operator(text.as_str()),
        None => false,
    }
}

/// Reads the comparison operator at the position. Nothing is read where
/// there is none.
pub fn parse_operator(input: &mut ParseInput) -> (result: Result<ComparisonOperator, ParseError>)
    requires
        old(input).wf(),
    ensures
        final(input).wf(),
        match result {
            Ok(op) => leading_operator(old(input).rest()) matches Ok((found, count)) && op == found
                && *final(input) == old(input).advanced(count),
            Err(error) => leading_operator(old(input).rest()) == Err::<
                (ComparisonOperator, nat),
                ParseError,
            >(error) && *final(input) == *old(input),
        },
{
    let one = spells_operator(input, 1);
    let two = spells_operator(input, 2);
    let three = spells_operator(input, 3);
    let (op, count) = find_operator(input, one, two, three)?;
    input.advance(count);
    Ok(op)
}

/// The operands that a listing of expressions gives: all of them, where there
/// is at least one and no comma follows the last.
pub open spec fn listed_operands(listing: Option<(Seq<Seq<char>>, bool)>) -> Result<
    Seq<Seq<char>>,
    ParseError,
> {
    match listing {
        None => Err(ParseError::InvalidOperand),
        Some((expressions, trailing_comma)) => if expressions.len() == 0 {
            Err(ParseError::EmptyOperandList)
        } else if trailing_comma {
            Err(ParseError::TrailingComma)
        } else {
            Ok(expressions)
        },
    }
}

/// Takes what `expression_list` has read between the curly braces and gives
/// the operands, or says why they are none.
pub fn operands_from(listing: Option<(Vec<String>, bool)>) -> (result: Result<
    Vec<String>,
    ParseError,
>)
    ensures
        match result {
            Ok(operands) => listing matches Some(list) && listed_operands(
                Some((texts(list.0@), list.1)),
            ) == Ok::<Seq<Seq<char>>, ParseError>(texts(operands@)) && operands == list.0,
            Err(error) => listed_operands(
                match listing {
                    Some(list) => Some((texts(list.0@), list.1)),
                    None => None,
                },
            ) == Err::<Seq<Seq<char>>, ParseError>(error),
        },
{
    match listing {
        None => Err(ParseError::InvalidOperand),
        Some((expressions, trailing_comma)) => {
            if expressions.len() == 0 {
                Err(ParseError::EmptyOperandList)
            } else if trailing_comma {
                Err(ParseError::TrailingComma)
            } else {
                Ok(expressions)
            }
        },
    }
}

/// The right-hand side that the tokens after the operator give: their text,
/// where there are any and they are an expression.
pub open spec fn right_hand_side(rest: Seq<Lexeme>, is_expression: bool) -> Result<
    Seq<char>,
    ParseError,
> {
    if rest.len() == 0 {
        Err(ParseError::MissingComparison)
    } else if !is_expression {
        Err(ParseError::InvalidRightHandSide)
    } else {
        Ok(rendering(rest))
    }
}

/// Takes the tokens from the position on as the right-hand side, given
/// whether their text is an expression.
pub fn take_right_hand_side(input: &ParseInput, is_expression: bool) -> (result: Result<
    String,
    ParseError,
>)
    requires
        input.wf(),
    ensures
        match result {
            Ok(text) => right_hand_side(input.rest(), is_expression) == Ok::<
                Seq<char>,
                ParseError,
            >(text@),
            Err(error) => right_hand_side(input.rest(), is_expression) == Err::<
                Seq<char>,
                ParseError,
            >(error),
        },
{
    if input.is_empty() {
        Err(ParseError::MissingComparison)
    } else if !is_expression {
        Err(ParseError::InvalidRightHandSide)
    } else {
        Ok(input.rest_text())
    }
}

/// A fluent comparison, read and checked: the operands, the transformation
/// that is applied to each, the operator and the right-hand side.
#[derive(Clone, Debug)]
pub struct ComparisonExpression {
    /// The expressions in the curly braces.
    pub exprs: Vec<String>,
    /// The transformation that is applied to each operand.
    pub transform: Transform,
    /// The comparison operator.
    pub op: ComparisonOperator,
    /// The right-hand side.
    pub rhs: String,
}

/// A fluent comparison as a mathematical value.
pub struct ComparisonExpressionView {
    pub exprs: Seq<Seq<char>>,
    pub transform: TransformView,
    pub op: ComparisonOperator,
    pub rhs: Seq<char>,
}

impl View for ComparisonExpression {
    type V = ComparisonExpressionView;

    open spec fn view(&self) -> ComparisonExpressionView {
        ComparisonExpressionView {
            exprs: texts(self.exprs@),
            transform: self.transform@,
            op: self.op,
            rhs: self.rhs@,
        }
    }
}

impl ComparisonExpression {
    /// What follows the operand list: the transformation clause, then the
    /// operator with the right-hand side, which a predicate stands in for.
    pub open spec fn completed(
        exprs: Seq<Seq<char>>,
        rest: Seq<Lexeme>,
    ) -> Result<ComparisonExpressionView, ParseError> {
        match TransformCall::recognized(rest) {
            Err(error) => Err(error),
            Ok((call, count)) => {
                let tail = rest.skip(count as int);
                match call {
                    TransformCallView::Satisfy(_) => if tail.len() > 0 {
                        Err(ParseError::UnexpectedTokensAfterSatisfy)
                    } else {
                        Ok(
                            ComparisonExpressionView {
                                exprs,
                                transform: call.transform(),
                                op: ComparisonOperator::Equal,
                                rhs: "true"@,
                            },
                        )
                    },
                    _ => match leading_operator(tail) {
                        Err(error) => Err(error),
                        Ok((op, used)) => {
                            let rhs = tail.skip(used as int);
                            match right_hand_side(rhs, parses_as_expression(rendering(rhs))) {
                                Err(error) => Err(error),
                                Ok(rhs) => Ok(
                                    ComparisonExpressionView {
                                        exprs,
                                        transform: call.transform(),
                                        op,
                                        rhs,
                                    },
                                ),
                            }
                        },
                    },
                }
            },
        }
    }

    /// The fluent comparison that the tokens are, all of them: a group in
    /// curly braces that holds the operands, then what `completed` asks for.
    pub open spec fn recognized(rest: Seq<Lexeme>) -> Result<ComparisonExpressionView, ParseError> {
        if rest.len() == 0 || rest[0].kind != TokenKind::Braced {
            Err(ParseError::ExpectedBraces)
        } else {
            match listed_operands(parsed_expression_list(rest[0].text)) {
                Err(error) => Err(error),
                Ok(exprs) => Self::completed(exprs, rest.skip(1)),
            }
        }
    }

    /// The fluent comparison that a text is.
    pub open spec fn read(source: Seq<char>) -> Result<ComparisonExpressionView, ParseError> {
        match lexed(source) {
            None => Err(ParseError::InvalidTokens),
            Some(tokens) => Self::recognized(tokens),
        }
    }

    /// Reads a text as a fluent comparison.
    pub fn from_source(source: &str) -> (result: Result<ComparisonExpression, ParseError>)
        ensures
            match result {
                Ok(expression) => Self::read(source@) == Ok::<ComparisonExpressionView, ParseError>(
                    expression@,
                ),
                Err(error) => Self::read(source@) == Err::<ComparisonExpressionView, ParseError>(
                    error,
                ),
            },
    {
        let mut input = ParseInput::from_source(source)?;
        ComparisonExpression::parse(&mut input)
    }

    /// Reads a fluent comparison from the position to the end of the tokens.
    /// Nothing is read where they are none.
    pub fn parse(input: &mut ParseInput) -> (result: Result<ComparisonExpression, ParseError>)
        requires
            old(input).wf(),
        ensures
            final(input).wf(),
            match result {
                Ok(expression) => Self::recognized(old(input).rest()) == Ok::<
                    ComparisonExpressionView,
                    ParseError,
                >(expression@) && *final(input) == old(input).advanced(old(input).rest().len()),
                Err(error) => Self::recognized(old(input).rest()) == Err::<
                    ComparisonExpressionView,
                    ParseError,
                >(error) && *final(input) == *old(input),
            },
    {
        let start = input.position;
        let ghost begin = *input;
        let ghost rest = input.rest();
        if input.remaining() == 0 || input.peek(0).kind != TokenKind::Braced {
            return Err(ParseError::ExpectedBraces);
        }
        let listing = expression_list(input.peek(0).text.as_str());
        let exprs = operands_from(listing)?;
        input.advance(1);
        let call = match TransformCall::parse(input) {
            Ok(call) => call,
            Err(error) => {
                input.position = start;
                return Err(error);
            },
        };
        let ghost after_call = *input;
        proof {
            begin.advanced_rest(1);
            let count = TransformCall::recognized(rest.skip(1))->Ok_0.1;
            begin.advanced(1).advanced_rest(count);
        }
        match call {
            TransformCall::Satisfy(_) => {
                if !input.is_empty() {
                    input.position = start;
                    return Err(ParseError::UnexpectedTokensAfterSatisfy);
                }
                proof {
                    after_call.advanced_rest(0);
                }
                Ok(
                    ComparisonExpression {
                        exprs,
                        transform: call.transform(),
                        op: ComparisonOperator::Equal,
                        rhs: "true".to_owned(),
                    },
                )
            },
            _ => {
                let op = match parse_operator(input) {
                    Ok(op) => op,
                    Err(error) => {
                        input.position = start;
                        return Err(error);
                    },
                };
                proof {
                    let used = leading_operator(after_call.rest())->Ok_0.1;
                    after_call.advanced_rest(used);
                    input.advanced_rest(0);
                }
                let accepted = is_expression(input.rest_text().as_str());
                let rhs = match take_right_hand_side(input, accepted) {
                    Ok(rhs) => rhs,
                    Err(error) => {
                        input.position = start;
                        return Err(error);
                    },
                };
                let remaining = input.remaining();
                input.advance(remaining);
                Ok(ComparisonExpression { exprs, transform: call.transform(), op, rhs })
            },
        }
    }
}

} // verus!
