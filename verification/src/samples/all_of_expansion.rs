//! `all_of` without a transformation.

use vstd::prelude::*;
use crate::operator::ComparisonOperator;
use crate::quantifier::all_of;

verus! {

/// Something with a length.
#[derive(Clone, Copy)]
pub struct Dummy {
    pub length: usize,
}

/// Evaluates `all_of!({1,2,3} < 4)`, then
/// `all_of!({v.length, 2*2, 3*4+1} == v.length)` for a `v` of length 2, then
/// `all_of!({4+4+1, square(7*2), 120*120} <= 8)`.
pub fn something() -> (conditions: (bool, bool, bool))
    ensures
        conditions == (true, false, false),
{
    let numbers: [i32; 3] = [1, 2, 3];
    let first = all_of(numbers.as_slice(), ComparisonOperator::Less, &4);

    let v = Dummy { length: 2 };
    let lengths: [usize; 3] = [v.length, 2 * 2, 3 * 4 + 1];
    let second = all_of(lengths.as_slice(), ComparisonOperator::Equal, &v.length);

    let square = |x: i32| -> (y: i32)
        requires
            -1000 <= x <= 1000,
        ensures
            y == x * x,
        {
            assert(-1000000 <= x * x <= 1000000) by (nonlinear_arith)
                requires
                    -1000 <= x <= 1000,
            ;
            x * x
        };
    let squares: [i32; 3] = [4 + 4 + 1, square(7 * 2), 120 * 120];
    let third = all_of(squares.as_slice(), ComparisonOperator::LessOrEqual, &8);
    (first, second, third)
}

} // verus!
