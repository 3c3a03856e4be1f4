//! The chain of comparisons that an expansion is, and how Rust evaluates it:
//! from left to right, and the right side of `||` and `&&` only where the
//! left side has not decided.

use vstd::prelude::*;
use crate::comparison::ComparisonExpressionView;
use crate::quantifier::short_circuit_is_sound;
use crate::quantifier::Quantifier;
use crate::transform::TransformView;

verus! {

/// A boolean expression over the comparisons of an expansion.
pub enum Chain {
    /// `true` or `false`.
    Constant(bool),
    /// The comparison of the operand with this index.
    Comparison(nat),
    /// `!c`.
    Negation(Box<Chain>),
    /// `a || b`.
    Either(Box<Chain>, Box<Chain>),
    /// `a && b`.
    Both(Box<Chain>, Box<Chain>),
}

/// What an evaluation gives: the value, and the comparisons that were
/// performed, in the order in which they were.
pub struct Run {
    pub value: bool,
    pub performed: Seq<nat>,
}

/// The comparison of one operand with the right-hand side, in parentheses.
/// The operand stands in parentheses of its own, or in those of the call of
/// `map_func`; the right-hand side is written out in each comparison, and so
/// is evaluated anew in each.
pub open spec fn compared(expr: ComparisonExpressionView, operand: Seq<char>) -> Seq<char> {
    match expr.transform {
        TransformView::Identity => "(("@ + operand + ") "@ + expr.op.spec_spelling() + " ("@
            + expr.rhs + "))"@,
        TransformView::Mapped(_) => "(map_func("@ + operand + ") "@ + expr.op.spec_spelling()
            + " ("@ + expr.rhs + "))"@,
    }
}

impl Chain {
    /// The evaluation of the chain as Rust evaluates it, where `outcomes[i]`
    /// is what the comparison of operand `i` gives.
    pub open spec fn run(self, outcomes: Seq<bool>) -> Run
        decreases self,
    {
        match self {
            Chain::Constant(value) => Run { value, performed: Seq::empty() },
            Chain::Comparison(index) => Run { value: outcomes[index as int], performed: seq![index] },
            Chain::Negation(inner) => {
                let inner = inner.run(outcomes);
                Run { value: !inner.value, performed: inner.performed }
            },
            Chain::Either(left, right) => {
                let left = left.run(outcomes);
                if left.value {
                    left
                } else {
                    let right = right.run(outcomes);
                    Run { value: right.value, performed: left.performed + right.performed }
                }
            },
            Chain::Both(left, right) => {
                let left = left.run(outcomes);
                if !left.value {
                    left
                } else {
                    let right = right.run(outcomes);
                    Run { value: right.value, performed: left.performed + right.performed }
                }
            },
        }
    }

    /// The chain in Rust, with the comparisons of `expr`. A chain that
    /// `folded` has built is read back from this text as it was built: `||`
    /// and `&&` take what stands on their left first, and each comparison
    /// stands in parentheses.
    pub open spec fn written(self, expr: ComparisonExpressionView) -> Seq<char>
        decreases self,
    {
        match self {
            Chain::Constant(value) => if value {
                "true"@
            } else {
                "false"@
            },
            Chain::Comparison(index) => compared(expr, expr.exprs[index as int]),
            Chain::Negation(inner) => "!"@ + inner.written(expr),
            Chain::Either(left, right) => left.written(expr) + " || "@ + right.written(expr),
            Chain::Both(left, right) => left.written(expr) + " && "@ + right.written(expr),
        }
    }
}

/// The link that one operand adds to the chain: its comparison, negated where
/// none is to hold.
pub open spec fn link(quantifier: Quantifier, index: nat) -> Chain {
    match quantifier {
        Quantifier::NoneOf => Chain::Negation(Box::new(Chain::Comparison(index))),
        _ => Chain::Comparison(index),
    }
}

/// The chain for the first `count` operands: a fold from the left, which
/// joins the chain so far and the link of the next operand with `||` where
/// any comparison is to hold, with `&&` where all or none are. Without an
/// operand it is the value from which the fold starts.
pub open spec fn folded(quantifier: Quantifier, count: nat) -> Chain
    decreases count,
{
    if count == 0 {
        Chain::Constant(quantifier != Quantifier::AnyOf)
    } else if count == 1 {
        link(quantifier, 0)
    } else {
        let front = Box::new(folded(quantifier, (count - 1) as nat));
        let last = Box::new(link(quantifier, (count - 1) as nat));
        match quantifier {
            Quantifier::AnyOf => Chain::Either(front, last),
            _ => Chain::Both(front, last),
        }
    }
}

/// The numbers from 0 up to `count`, in order.
pub open spec fn first(count: nat) -> Seq<nat> {
    Seq::new(count, |i: int| i as nat)
}

/// Rust evaluates the chain of `any_of`, `all_of` and `none_of` as the
/// quantifier asks: it performs the comparisons in the order of the operands,
/// stops at the first that decides, and its value is the verdict of the
/// quantifier on the outcomes of all the comparisons.
pub proof fn chain_runs_as_quantifier(quantifier: Quantifier, count: nat, outcomes: Seq<bool>)
    requires
        !(quantifier is ExactlyOf),
        count <= outcomes.len(),
    ensures
        ({
            let run = folded(quantifier, count).run(outcomes);
            let seen = outcomes.take(run.performed.len() as int);
            &&& run.performed.len() <= count
            &&& run.performed == first(run.performed.len())
            &&& quantifier.stops_at(count, seen)
            &&& run.value == quantifier.verdict(seen)
            &&& run.value == quantifier.verdict(outcomes.take(count as int))
        }),
    decreases count,
{
    reveal_with_fuel(Chain::run, 3);
    let run = folded(quantifier, count).run(outcomes);
    let seen = outcomes.take(run.performed.len() as int);
    if count == 1 {
        assert(seen[0] == outcomes[0]);
    } else if count > 1 {
        let before = (count - 1) as nat;
        chain_runs_as_quantifier(quantifier, before, outcomes);
        let front = folded(quantifier, before).run(outcomes);
        let front_seen = outcomes.take(front.performed.len() as int);
        // the fold goes on to the last operand where the chain before it has
        // not decided: then that chain has seen every operand but the last
        if front.value == (quantifier == Quantifier::AnyOf) {
            assert(quantifier.decided(front_seen));
        } else {
            assert(!quantifier.decided(front_seen));
            assert(seen[before as int] == outcomes[before as int]);
            assert(seen.drop_last() =~= front_seen);
        }
    }
    assert(forall|i: int| 0 <= i < seen.len() ==> seen[i] == outcomes.take(count as int)[i]);
    short_circuit_is_sound(quantifier, seen, outcomes.take(count as int));
}

} // verus!
