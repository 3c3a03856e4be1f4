//! An operand that can be evaluated only where the operand before it has not
//! decided.

use vstd::prelude::*;
use crate::laws::lazy_of_values;
use crate::operator::ComparisonOperator;
use crate::quantifier::outcomes;
use crate::quantifier::pair_outcomes;
use crate::quantifier::produced;
use crate::quantifier::quantify_lazy;
use crate::quantifier::Quantifier;

verus! {

/// Evaluates `any_of!({d == 0, 10 / d > 3} == true)`. The division is an
/// operand of its own behind the test for zero: for `d == 0` the first
/// comparison decides, and the division is not performed.
pub fn zero_or_small(d: u32) -> (result: bool)
    ensures
        result == (d == 0 || 10u32 / d > 3),
{
    let operand = |i: usize| -> (value: bool)
        requires
            i == 0 || d != 0,
        ensures
            value == if i == 0 {
                d == 0
            } else {
                10u32 / d > 3
            },
        {
            if i == 0 {
                d == 0
            } else {
                10u32 / d > 3
            }
        };
    let rhs = || -> (value: bool)
        ensures
            value,
        { true };
    assert forall|pairs: Seq<(bool, bool)>|
        #[trigger] produced(operand, rhs, pairs) && pairs.len() < 2 && !Quantifier::AnyOf.decided(
            pair_outcomes(pairs, ComparisonOperator::Equal),
        ) implies call_requires(operand, (pairs.len() as usize,)) && call_requires(rhs, ()) by {
        if pairs.len() == 1 {
            // the test for zero has failed
            assert(call_ensures(operand, (0usize,), pairs[0].0));
            assert(!pair_outcomes(pairs, ComparisonOperator::Equal)[0]);
        }
    }
    let result = quantify_lazy(Quantifier::AnyOf, 2, operand, ComparisonOperator::Equal, rhs);
    proof {
        let values = seq![d == 0, 10u32 / d > 3];
        lazy_of_values(
            Quantifier::AnyOf,
            values,
            operand,
            ComparisonOperator::Equal,
            rhs,
            true,
            result,
        );
        let all = outcomes(values, ComparisonOperator::Equal, true);
        assert(all[0] == (d == 0) && all[1] == (10u32 / d > 3));
    }
    result
}

} // verus!
