//! `none_of` with a transformation and with a predicate.

use vstd::prelude::*;
use crate::laws::map_of_function;
use crate::operator::ComparisonOperator;
use crate::quantifier::outcomes;
use crate::quantifier::quantify_map;
use crate::quantifier::quantify_satisfy;
use crate::quantifier::Quantifier;

verus! {

/// Something with a length.
#[derive(Clone, Copy)]
pub struct Dummy {
    pub length: usize,
}

/// Evaluates `none_of!({1,2,3}.map(|x| x*x) < 4)`, then
/// `none_of!({1,2,3}.satisfy(is_even))`, then, for `d1` of length 2 and `d2` of
/// length 3, `none_of!({d1,d2}.map(|d| d.length*2) == d1.length)` and
/// `none_of!({d1,d2}.satisfy(|d| d.length == 2))`.
pub fn something() -> (conditions: (bool, bool, bool, bool))
    ensures
        conditions == (false, false, true, false),
{
    let numbers: [i32; 3] = [1, 2, 3];
    let square = |x: i32| -> (y: i32)
        requires
            -1000 <= x <= 1000,
        ensures
            y == x * x,
        {
            assert(-1000000 <= x * x <= 1000000) by (nonlinear_arith)
                requires
                    -1000 <= x <= 1000,
            ;
            x * x
        };
    let cond1 = quantify_map(
        Quantifier::NoneOf,
        numbers.as_slice(),
        square,
        ComparisonOperator::Less,
        &4,
    );
    proof {
        let image = |x: i32| (x * x) as i32;
        map_of_function(
            Quantifier::NoneOf,
            numbers@,
            square,
            image,
            ComparisonOperator::Less,
            4i32,
            cond1,
        );
        let all = outcomes(
            numbers@.map_values(image),
            ComparisonOperator::Less,
            4i32,
        );
        assert(all[0]);
    }

    let is_even = |x: i32| -> (even: bool)
        ensures
            even == (x % 2 == 0),
        { x % 2 == 0 };
    let cond2 = quantify_satisfy(Quantifier::NoneOf, numbers.as_slice(), is_even);
    proof {
        let image = |x: i32| x % 2 == 0;
        map_of_function(
            Quantifier::NoneOf,
            numbers@,
            is_even,
            image,
            ComparisonOperator::Equal,
            true,
            cond2,
        );
        let all = outcomes(
            numbers@.map_values(image),
            ComparisonOperator::Equal,
            true,
        );
        assert(all[1]);
    }

    let d1 = Dummy { length: 2 };
    let d2 = Dummy { length: 3 };
    let dummies: [Dummy; 2] = [d1, d2];
    let doubled = |d: Dummy| -> (n: usize)
        requires
            d.length <= 1000,
        ensures
            n == d.length * 2,
        { d.length * 2 };
    let cond3 = quantify_map(
        Quantifier::NoneOf,
        dummies.as_slice(),
        doubled,
        ComparisonOperator::Equal,
        &d1.length,
    );
    proof {
        let image = |d: Dummy| (d.length * 2) as usize;
        map_of_function(
            Quantifier::NoneOf,
            dummies@,
            doubled,
            image,
            ComparisonOperator::Equal,
            2usize,
            cond3,
        );
    }

    let has_two = |d: Dummy| -> (two: bool)
        ensures
            two == (d.length == 2),
        { d.length == 2 };
    let cond4 = quantify_satisfy(Quantifier::NoneOf, dummies.as_slice(), has_two);
    proof {
        let image = |d: Dummy| d.length == 2;
        map_of_function(
            Quantifier::NoneOf,
            dummies@,
            has_two,
            image,
            ComparisonOperator::Equal,
            true,
            cond4,
        );
        let all = outcomes(
            dummies@.map_values(image),
            ComparisonOperator::Equal,
            true,
        );
        assert(all[0]);
    }
    (cond1, cond2, cond3, cond4)
}

} // verus!
