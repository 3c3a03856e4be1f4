//! The expansion: the Rust expression that a fluent comparison stands for,
//! a chain of single comparisons in a block.

use vstd::prelude::*;
use vstd::string::StringExecFns;
use crate::chain::compared;
use crate::chain::folded;
use crate::chain::Chain;
use crate::comparison::ComparisonExpression;
use crate::comparison::ComparisonExpressionView;
use crate::error::ParseError;
use crate::number::ExactlyMacroPat;
use crate::number::ExactlyMacroPatView;
use crate::quantifier::Quantifier;
use crate::transform::Transform;
use crate::transform::TransformView;

verus! {

/// A block around the chain, which binds the transformation to `map_func`
/// first where there is one.
pub open spec fn enclosed(expr: ComparisonExpressionView, chain: Seq<char>) -> Seq<char> {
    match expr.transform {
        TransformView::Identity => "{ "@ + chain + " }"@,
        TransformView::Mapped(function) => "{ let map_func = "@ + function + "; "@ + chain
            + " }"@,
    }
}

/// `(c1) || (c2) || ...`: true as soon as one comparison holds.
pub open spec fn any_of_expansion(expr: ComparisonExpressionView) -> Seq<char> {
    enclosed(expr, folded(Quantifier::AnyOf, expr.exprs.len()).written(expr))
}

/// `(c1) && (c2) && ...`: false as soon as one comparison fails.
pub open spec fn all_of_expansion(expr: ComparisonExpressionView) -> Seq<char> {
    enclosed(expr, folded(Quantifier::AllOf, expr.exprs.len()).written(expr))
}

/// `!(c1) && !(c2) && ...`: false as soon as one comparison holds.
pub open spec fn none_of_expansion(expr: ComparisonExpressionView) -> Seq<char> {
    enclosed(expr, folded(Quantifier::NoneOf, expr.exprs.len()).written(expr))
}

/// `0 + (if (c1) { 1 } else { 0 }) + ...` over the first `count` operands:
/// the number of comparisons that hold. A sum has no side that Rust leaves
/// out, so every comparison is performed.
pub open spec fn tallied(expr: ComparisonExpressionView, count: nat) -> Seq<char>
    decreases count,
{
    if count == 0 {
        "0"@
    } else {
        tallied(expr, (count - 1) as nat) + " + (if "@ + compared(expr, expr.exprs[count - 1])
            + " { 1 } else { 0 })"@
    }
}

/// `0 + (if (c1) { 1 } else { 0 }) + ... == n`: true when the count is the
/// one asked for.
pub open spec fn exactly_expansion(pattern: ExactlyMacroPatView) -> Seq<char> {
    let expr = pattern.comparison_expr;
    enclosed(expr, tallied(expr, expr.exprs.len()) + " == "@ + pattern.number.text())
}

fn compare(expr: &ComparisonExpression, index: usize) -> (text: String)
    requires
        index < expr.exprs@.len(),
    ensures
        text@ == compared(expr@, expr@.exprs[index as int]),
{
    let mut text = match expr.transform {
        Transform::Identity => "((".to_owned(),
        Transform::Mapped(_) => "(map_func(".to_owned(),
    };
    text.append(expr.exprs[index].as_str());
    text.append(") ");
    text.append(expr.op.spelling());
    text.append(" (");
    text.append(expr.rhs.as_str());
    text.append("))");
    text
}

fn chain(expr: &ComparisonExpression, quantifier: Quantifier) -> (text: String)
    requires
        !(quantifier is ExactlyOf),
    ensures
        text@ == folded(quantifier, expr.exprs@.len()).written(expr@),
{
    if expr.exprs.len() == 0 {
        return match quantifier {
            Quantifier::AnyOf => "false".to_owned(),
            _ => "true".to_owned(),
        };
    }
    let mut text = String::new();
    let mut index: usize = 0;
    while index < expr.exprs.len()
        invariant
            !(quantifier is ExactlyOf),
            index <= expr.exprs@.len(),
            index == 0 ==> text@ == Seq::<char>::empty(),
            index > 0 ==> text@ == folded(quantifier, index as nat).written(expr@),
        decreases expr.exprs@.len() - index,
    {
        proof {
            reveal_with_fuel(Chain::written, 3);
        }
        if index > 0 {
            match quantifier {
                Quantifier::AnyOf => text.append(" || "),
                _ => text.append(" && "),
            }
        }
        match quantifier {
            Quantifier::NoneOf => text.append("!"),
            _ => {},
        }
        let comparison = compare(expr, index);
        text.append(comparison.as_str());
        index = index + 1;
    }
    text
}

fn tally(expr: &ComparisonExpression) -> (text: String)
    ensures
        text@ == tallied(expr@, expr.exprs@.len()),
{
    let mut text = "0".to_owned();
    let mut index: usize = 0;
    while index < expr.exprs.len()
        invariant
            index <= expr.exprs@.len(),
            text@ == tallied(expr@, index as nat),
        decreases expr.exprs@.len() - index,
    {
        text.append(" + (if ");
        let comparison = compare(expr, index);
        text.append(comparison.as_str());
        text.append(" { 1 } else { 0 })");
        index = index + 1;
    }
    text
}

fn enclose(expr: &ComparisonExpression, chain: &str) -> (text: String)
    ensures
        text@ == enclosed(expr@, chain@),
{
    match &expr.transform {
        Transform::Identity => {
            let mut text = "{ ".to_owned();
            text.append(chain);
            text.append(" }");
            text
        },
        Transform::Mapped(function) => {
            let mut text = "{ let map_func = ".to_owned();
            text.append(function.as_str());
            text.append("; ");
            text.append(chain);
            text.append(" }");
            text
        },
    }
}

/// Writes the expression that `any_of` stands for.
pub fn expand_any_of(expr: &ComparisonExpression) -> (text: String)
    ensures
        text@ == any_of_expansion(expr@),
{
    let chain = chain(expr, Quantifier::AnyOf);
    enclose(expr, chain.as_str())
}

/// Writes the expression that `all_of` stands for.
pub fn expand_all_of(expr: &ComparisonExpression) -> (text: String)
    ensures
        text@ == all_of_expansion(expr@),
{
    let chain = chain(expr, Quantifier::AllOf);
    enclose(expr, chain.as_str())
}

/// Writes the expression that `none_of` stands for.
pub fn expand_none_of(expr: &ComparisonExpression) -> (text: String)
    ensures
        text@ == none_of_expansion(expr@),
{
    let chain = chain(expr, Quantifier::NoneOf);
    enclose(expr, chain.as_str())
}

/// Writes the expression that `exactly` stands for.
pub fn expand_exactly(pattern: &ExactlyMacroPat) -> (text: String)
    ensures
        text@ == exactly_expansion(pattern@),
{
    let expr = &pattern.comparison_expr;
    let mut count = tally(expr);
    count.append(" == ");
    count.append(pattern.number_of.n.text().as_str());
    enclose(expr, count.as_str())
}

/// What a text expands to under a rule of expansion: the expansion of the
/// fluent comparison that it is, or the reason why it is none.
pub open spec fn expanded(
    source: Seq<char>,
    rule: spec_fn(ComparisonExpressionView) -> Seq<char>,
    result: Result<String, ParseError>,
) -> bool {
    match result {
        Ok(text) => ComparisonExpression::read(source) matches Ok(expr) && text@ == rule(expr),
        Err(error) => ComparisonExpression::read(source) == Err::<
            ComparisonExpressionView,
            ParseError,
        >(error),
    }
}

/// Expands `{e1, ..., en} op rhs`, with or without a transformation clause,
/// to the expression that is true when the comparison holds for any operand.
pub fn any_of(source: &str) -> (result: Result<String, ParseError>)
    ensures
        expanded(source@, |expr: ComparisonExpressionView| any_of_expansion(expr), result),
{
    let expr = ComparisonExpression::from_source(source)?;
    Ok(expand_any_of(&expr))
}

/// Expands `{e1, ..., en} op rhs`, with or without a transformation clause,
/// to the expression that is true when the comparison holds for all operands.
pub fn all_of(source: &str) -> (result: Result<String, ParseError>)
    ensures
        expanded(source@, |expr: ComparisonExpressionView| all_of_expansion(expr), result),
{
    let expr = ComparisonExpression::from_source(source)?;
    Ok(expand_all_of(&expr))
}

/// Expands `{e1, ..., en} op rhs`, with or without a transformation clause,
/// to the expression that is true when the comparison holds for no operand.
pub fn none_of(source: &str) -> (result: Result<String, ParseError>)
    ensures
        expanded(source@, |expr: ComparisonExpressionView| none_of_expansion(expr), result),
{
    let expr = ComparisonExpression::from_source(source)?;
    Ok(expand_none_of(&expr))
}

/// Expands `n of {e1, ..., en} op rhs`, with or without a transformation
/// clause, to the expression that is true when the comparison holds for
/// exactly `n` operands.
pub fn exactly(source: &str) -> (result: Result<String, ParseError>)
    ensures
        match result {
            Ok(text) => ExactlyMacroPat::read(source@) matches Ok(pattern) && text@
                == exactly_expansion(pattern),
            Err(error) => ExactlyMacroPat::read(source@) == Err::<ExactlyMacroPatView, ParseError>(
                error,
            ),
        },
{
    let pattern = ExactlyMacroPat::from_source(source)?;
    Ok(expand_exactly(&pattern))
}

} // verus!
