//! What can be wrong with a fluent comparison.

use vstd::prelude::*;

verus! {

/// Why a text is no fluent comparison. None of these is recovered from: the
/// text is refused as a whole.
#[derive(Clone, Copy, Debug, PartialEq, Eq, Structural)]
pub enum ParseError {
    /// The text is no sequence of Rust tokens: a bracket is left open, or a
    /// literal has no end.
    InvalidTokens,
    /// The text does not begin with a list in curly braces.
    ExpectedBraces,
    /// There is nothing between the curly braces.
    EmptyOperandList,
    /// What stands between the curly braces is no list of expressions
    /// separated by commas.
    InvalidOperand,
    /// A comma follows the last operand.
    TrailingComma,
    /// The word after the dot is neither `map` nor `satisfy`.
    UnknownTransform,
    /// `map` or `satisfy` is not followed by its argument in parentheses.
    ExpectedParentheses,
    /// Operator and right-hand side are missing.
    MissingComparison,
    /// The operator is none of `==`, `!=`, `<=`, `>=`, `<`, `>`.
    InvalidOperator,
    /// What follows the operator is no expression.
    InvalidRightHandSide,
    /// Something follows `.satisfy(...)`.
    UnexpectedTokensAfterSatisfy,
    /// The count is neither an integer literal nor an identifier.
    ExpectedNumber,
    /// The count is not followed by the word `of`.
    ExpectedOf,
}

impl ParseError {
    /// The diagnostic for the error.
    pub open spec fn spec_message(self) -> Seq<char> {
        match self {
            ParseError::InvalidTokens => "cannot parse the input into tokens"@,
            ParseError::ExpectedBraces => "expected curly braces"@,
            ParseError::EmptyOperandList => "expected at least one expression in the curly braces"@,
            ParseError::InvalidOperand => "expected a list of expressions separated by commas"@,
            ParseError::TrailingComma => "unexpected comma after the last expression"@,
            ParseError::UnknownTransform => "Unknown transformation. Expected either `map` or `satisfy`"@,
            ParseError::ExpectedParentheses => "expected parentheses"@,
            ParseError::MissingComparison => "expected a comparison operator and a right hand side"@,
            ParseError::InvalidOperator => "Illegal comparison operator. The only allowed operators are ==, !=, <=, >=, <, >"@,
            ParseError::InvalidRightHandSide => "expected an expression on the right hand side"@,
            ParseError::UnexpectedTokensAfterSatisfy => "Unexpected tokens after .satisfy(...)"@,
            ParseError::ExpectedNumber => "expected integer literal or identifier"@,
            ParseError::ExpectedOf => "expected `of`"@,
        }
    }

    /// The diagnostic for the error.
    pub fn message(self) -> (text: &'static str)
        ensures
            text@ == self.spec_message(),
    {
        match self {
            ParseError::InvalidTokens => "cannot parse the input into tokens",
            ParseError::ExpectedBraces => "expected curly braces",
            ParseError::EmptyOperandList => "expected at least one expression in the curly braces",
            ParseError::InvalidOperand => "expected a list of expressions separated by commas",
            ParseError::TrailingComma => "unexpected comma after the last expression",
            ParseError::UnknownTransform => "Unknown transformation. Expected either `map` or `satisfy`",
            ParseError::ExpectedParentheses => "expected parentheses",
            ParseError::MissingComparison => "expected a comparison operator and a right hand side",
            ParseError::InvalidOperator => "Illegal comparison operator. The only allowed operators are ==, !=, <=, >=, <, >",
            ParseError::InvalidRightHandSide => "expected an expression on the right hand side",
            ParseError::UnexpectedTokensAfterSatisfy => "Unexpected tokens after .satisfy(...)",
            ParseError::ExpectedNumber => "expected integer literal or identifier",
            ParseError::ExpectedOf => "expected `of`",
        }
    }
}

} // verus!
