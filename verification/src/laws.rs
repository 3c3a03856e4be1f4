//! What holds between the quantifiers, between a lazy evaluation and the
//! values that it evaluates, and between a predicate and the comparison that
//! it stands for.

use vstd::prelude::*;
use crate::comparison::spelling;
use crate::comparison::ComparisonExpression;
use crate::comparison::ComparisonExpressionView;
use crate::error::ParseError;
use crate::operator::comparable;
use crate::operator::complement_negates;
use crate::operator::ComparisonOperator;
use crate::quantifier::decided_by_the_last;
use crate::quantifier::images_of;
use crate::quantifier::outcomes;
use crate::quantifier::pair_outcomes;
use crate::quantifier::produced;
use crate::quantifier::quantified_lazy;
use crate::quantifier::quantified_map;
use crate::quantifier::satisfied;
use crate::quantifier::short_circuit_is_sound;
use crate::quantifier::Quantifier;
use crate::rust_syntax::is_binary_operator;
use crate::rust_syntax::is_expression;
use crate::rust_syntax::parses_as_binary_operator;
use crate::rust_syntax::parses_as_expression;
use crate::token::Lexeme;
use crate::token::TokenKind;
use crate::transform::TransformView;

verus! {

/// The number of outcomes that are true is at most their number; it is zero
/// exactly when none is true, and their number exactly when all are.
pub proof fn satisfied_range(outcomes: Seq<bool>)
    ensures
        satisfied(outcomes) <= outcomes.len(),
        satisfied(outcomes) == 0 <==> Quantifier::NoneOf.verdict(outcomes),
        satisfied(outcomes) == outcomes.len() <==> Quantifier::AllOf.verdict(outcomes),
        satisfied(outcomes) > 0 <==> Quantifier::AnyOf.verdict(outcomes),
    decreases outcomes.len(),
{
    if outcomes.len() > 0 {
        let front = outcomes.drop_last();
        satisfied_range(front);
        decided_by_the_last(Quantifier::AnyOf, outcomes);
        decided_by_the_last(Quantifier::AllOf, outcomes);
    }
}

/// None of the comparisons holds exactly when not any of them does.
pub proof fn none_is_not_any(outcomes: Seq<bool>)
    ensures
        Quantifier::NoneOf.verdict(outcomes) == !Quantifier::AnyOf.verdict(outcomes),
{
}

/// All operands satisfy an operator exactly when none satisfies its
/// complement: `all_of(L, <, r) == none_of(L, >=, r)`, and so for each of the
/// six operators.
pub proof fn all_is_none_of_complement<T: PartialOrd>(
    operands: Seq<T>,
    op: ComparisonOperator,
    rhs: T,
)
    requires
        forall|i: int| 0 <= i < operands.len() ==> comparable(#[trigger] operands[i], rhs),
    ensures
        Quantifier::AllOf.verdict(outcomes(operands, op, rhs)) == Quantifier::NoneOf.verdict(
            outcomes(operands, op.spec_complement(), rhs),
        ),
{
    let direct = outcomes(operands, op, rhs);
    let inverse = outcomes(operands, op.spec_complement(), rhs);
    assert forall|i: int| 0 <= i < operands.len() implies direct[i] == !inverse[i] by {
        complement_negates(op, operands[i], rhs);
    }
    if Quantifier::AllOf.verdict(direct) {
        assert forall|i: int| 0 <= i < inverse.len() implies !inverse[i] by {
            assert(direct[i]);
        }
    }
    if Quantifier::NoneOf.verdict(inverse) {
        assert forall|i: int| 0 <= i < direct.len() implies direct[i] by {
            assert(!inverse[i]);
        }
    }
}

/// Where there is an operand at all, what holds for all of them holds for
/// one: `all_of(L, <, r)` implies `any_of(L, <, r)`.
pub proof fn all_implies_any<T: PartialOrd>(operands: Seq<T>, op: ComparisonOperator, rhs: T)
    requires
        operands.len() > 0,
        Quantifier::AllOf.verdict(outcomes(operands, op, rhs)),
    ensures
        Quantifier::AnyOf.verdict(outcomes(operands, op, rhs)),
{
    assert(outcomes(operands, op, rhs)[0]);
}

/// Where there is an operand at all and none satisfies an operator, one
/// satisfies its complement: `none_of(L, >=, r)` implies `any_of(L, <, r)`.
pub proof fn none_implies_any_of_complement<T: PartialOrd>(
    operands: Seq<T>,
    op: ComparisonOperator,
    rhs: T,
)
    requires
        operands.len() > 0,
        comparable(operands[0], rhs),
        Quantifier::NoneOf.verdict(outcomes(operands, op, rhs)),
    ensures
        Quantifier::AnyOf.verdict(outcomes(operands, op.spec_complement(), rhs)),
{
    complement_negates(op, operands[0], rhs);
    assert(!outcomes(operands, op, rhs)[0]);
    assert(outcomes(operands, op.spec_complement(), rhs)[0]);
}

/// Exactly zero comparisons hold when none does; exactly as many as there are
/// operands when all do; and never a negative number, nor more than there are
/// operands.
pub proof fn exactly_at_the_ends(n: i64, outcomes: Seq<bool>)
    ensures
        Quantifier::ExactlyOf(0).verdict(outcomes) == Quantifier::NoneOf.verdict(outcomes),
        n == outcomes.len() ==> Quantifier::ExactlyOf(n).verdict(outcomes)
            == Quantifier::AllOf.verdict(outcomes),
        n > outcomes.len() ==> !Quantifier::ExactlyOf(n).verdict(outcomes),
        n < 0 ==> !Quantifier::ExactlyOf(n).verdict(outcomes),
{
    satisfied_range(outcomes);
}

/// Where the transformation computes the function `image`, the result of
/// `quantify_map` is the verdict on the images of all the operands.
pub proof fn map_of_function<S, T: PartialOrd, M: Fn(S) -> T>(
    quantifier: Quantifier,
    operands: Seq<S>,
    transform: M,
    image: spec_fn(S) -> T,
    op: ComparisonOperator,
    rhs: T,
    result: bool,
)
    requires
        quantified_map(quantifier, operands, transform, op, rhs, result),
        forall|operand: S, value: T| #[trigger]
            call_ensures(transform, (operand,), value) ==> value == image(operand),
    ensures
        result == quantifier.verdict(outcomes(operands.map_values(image), op, rhs)),
{
    let images = choose|images: Seq<T>|
        {
            &&& #[trigger] images_of(transform, operands, images)
            &&& quantifier.stops_at(operands.len(), outcomes(images, op, rhs))
            &&& result == quantifier.verdict(outcomes(images, op, rhs))
        };
    let seen = outcomes(images, op, rhs);
    let all = outcomes(operands.map_values(image), op, rhs);
    assert forall|i: int| 0 <= i < seen.len() implies seen[i] == all[i] by {
        assert(call_ensures(transform, (operands[i],), images[i]));
    }
    short_circuit_is_sound(quantifier, seen, all);
}

/// Where operand `i` always evaluates to `values[i]` and the right-hand side
/// always to `rhs_value`, the result of `quantify_lazy` is the verdict on the
/// comparisons of all the values.
pub proof fn lazy_of_values<T: PartialOrd, L: Fn(usize) -> T, R: Fn() -> T>(
    quantifier: Quantifier,
    values: Seq<T>,
    operand: L,
    op: ComparisonOperator,
    rhs: R,
    rhs_value: T,
    result: bool,
)
    requires
        values.len() <= usize::MAX,
        quantified_lazy(quantifier, values.len(), operand, op, rhs, result),
        forall|i: usize, value: T| #[trigger]
            call_ensures(operand, (i,), value) && i < values.len() ==> value == values[i as int],
        forall|value: T| #[trigger] call_ensures(rhs, (), value) ==> value == rhs_value,
    ensures
        result == quantifier.verdict(outcomes(values, op, rhs_value)),
{
    let pairs = choose|pairs: Seq<(T, T)>|
        {
            &&& #[trigger] produced(operand, rhs, pairs)
            &&& quantifier.stops_at(values.len(), pair_outcomes(pairs, op))
            &&& result == quantifier.verdict(pair_outcomes(pairs, op))
        };
    let seen = pair_outcomes(pairs, op);
    let all = outcomes(values, op, rhs_value);
    assert forall|i: int| 0 <= i < seen.len() implies seen[i] == all[i] by {
        assert(call_ensures(operand, (i as usize,), pairs[i].0));
        assert(call_ensures(rhs, (), pairs[i].1));
    }
    short_circuit_is_sound(quantifier, seen, all);
}

/// The tokens of `.satisfy(f)`.
pub open spec fn satisfy_clause(function: Seq<char>) -> Seq<Lexeme> {
    seq![
        Lexeme { kind: TokenKind::Alone, text: "."@ },
        Lexeme { kind: TokenKind::Ident, text: "satisfy"@ },
        Lexeme { kind: TokenKind::Parenthesized, text: function },
    ]
}

/// The tokens of `.map(f) == true`.
pub open spec fn map_clause_equal_true(function: Seq<char>) -> Seq<Lexeme> {
    seq![
        Lexeme { kind: TokenKind::Alone, text: "."@ },
        Lexeme { kind: TokenKind::Ident, text: "map"@ },
        Lexeme { kind: TokenKind::Parenthesized, text: function },
        Lexeme { kind: TokenKind::Joint, text: "="@ },
        Lexeme { kind: TokenKind::Alone, text: "="@ },
        Lexeme { kind: TokenKind::Ident, text: "true"@ },
    ]
}

/// Behind the same operands, `.satisfy(f)` is read as `.map(f) == true` is,
/// given only that Rust reads `==` as an operator and `true` as an
/// expression: the same transformation, the same operator, the same
/// right-hand side.
pub proof fn satisfy_reads_as_map_equal_true(exprs: Seq<Seq<char>>, function: Seq<char>)
    requires
        parses_as_binary_operator("=="@),
        parses_as_expression("true"@),
    ensures
        ComparisonExpression::completed(exprs, satisfy_clause(function))
            == ComparisonExpression::completed(exprs, map_clause_equal_true(function)),
        ComparisonExpression::completed(exprs, satisfy_clause(function)) == Ok::<
            ComparisonExpressionView,
            ParseError,
        >(
            ComparisonExpressionView {
                exprs,
                transform: TransformView::Mapped(function),
                op: ComparisonOperator::Equal,
                rhs: "true"@,
            },
        ),
{
    reveal_strlit("map");
    reveal_strlit("satisfy");
    reveal_strlit("=");
    reveal_strlit("==");
    reveal_strlit("true");
    reveal_strlit(".");
    assert("map"@.len() == 3 && "satisfy"@.len() == 7);
    reveal_with_fuel(spelling, 3);
    assert(spelling(map_clause_equal_true(function).skip(3), 2) =~= "=="@);
}

/// Asks the Rust parser whether it reads `==` as an operator and `true` as
/// an expression. Where it does, `.satisfy(f)` is read as `.map(f) == true`
/// is, behind any operands and for any `f`.
pub fn predicate_reads_as_comparison() -> (confirmed: bool)
    ensures
        confirmed == (parses_as_binary_operator("=="@) && parses_as_expression("true"@)),
        confirmed ==> forall|exprs: Seq<Seq<char>>, function: Seq<char>|
            #[trigger] ComparisonExpression::completed(exprs, satisfy_clause(function))
                == ComparisonExpression::completed(exprs, map_clause_equal_true(function)),
{
    let confirmed = is_binary_operator("==") && is_expression("true");
    proof {
        if confirmed {
            assert forall|exprs: Seq<Seq<char>>, function: Seq<char>|
                #[trigger] ComparisonExpression::completed(exprs, satisfy_clause(function))
                    == ComparisonExpression::completed(
                    exprs,
                    map_clause_equal_true(function),
                ) by {
                satisfy_reads_as_map_equal_true(exprs, function);
            }
        }
    }
    confirmed
}

} // verus!
