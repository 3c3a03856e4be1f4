use fluent_comparisons::operator::ComparisonOperator;
use fluent_comparisons::operator::ComparisonOperator::{
    Equal, Greater, GreaterOrEqual, Less, LessOrEqual, NotEqual,
};
use fluent_comparisons::quantifier::{
    all_of, any_of, evaluate, exactly_of, none_of, quantify, quantify_lazy, quantify_map,
    quantify_satisfy, Quantifier,
};
use std::cell::Cell;

const OPERATORS: [ComparisonOperator; 6] =
    [Equal, NotEqual, Less, LessOrEqual, Greater, GreaterOrEqual];

// the verdict and the number of comparisons that were performed
fn run(quantifier: Quantifier, outcomes: &[bool]) -> (bool, usize) {
    let performed = Cell::new(0);
    let verdict = evaluate(quantifier, outcomes.len(), |i| {
        assert_eq!(i, performed.get(), "comparisons are performed in their order");
        performed.set(performed.get() + 1);
        outcomes[i]
    });
    (verdict, performed.get())
}

#[test]
fn the_documented_results() {
    assert_eq!(all_of(&[1, 2, 3], Less, &4), true);
    assert_eq!(all_of(&[4, 2], Equal, &4), false);
    assert_eq!(any_of(&[4, 2], Equal, &4), true);
    assert_eq!(none_of(&[1, 6, 4], Equal, &6), false);
    assert_eq!(none_of(&[1, 5, 4], Equal, &6), true);
    assert_eq!(exactly_of(1, &[1, 2, 2, 4], Equal, &2), false);
    assert_eq!(exactly_of(2, &[1, 2, 2, 4], Equal, &2), true);
    assert_eq!(none_of(&[1, 2, 3], Greater, &4), true);
    assert_eq!(quantify_map(Quantifier::AnyOf, &[1, 2, 3], |x| x % 2, Equal, &0), true);
}

#[test]
fn each_operator_compares_as_rust_does() {
    for op in OPERATORS {
        for lhs in -2..3 {
            for rhs in -2..3 {
                let expected = match op {
                    Equal => lhs == rhs,
                    NotEqual => lhs != rhs,
                    Less => lhs < rhs,
                    LessOrEqual => lhs <= rhs,
                    Greater => lhs > rhs,
                    GreaterOrEqual => lhs >= rhs,
                };
                assert_eq!(op.compare(&lhs, &rhs), expected);
                assert_eq!(op.complement().compare(&lhs, &rhs), !expected);
            }
        }
    }
    assert!(LessOrEqual.compare(&"abc", &"abd"));
    assert!(NotEqual.compare(&1.5, &2.5));
    assert!(!Less.compare(&f64::NAN, &1.0));
    assert!(!GreaterOrEqual.compare(&f64::NAN, &1.0));
}

#[test]
fn any_of_stops_at_the_first_comparison_that_holds() {
    assert_eq!(run(Quantifier::AnyOf, &[false, false, true, false, true]), (true, 3));
    assert_eq!(run(Quantifier::AnyOf, &[true, true]), (true, 1));
    assert_eq!(run(Quantifier::AnyOf, &[false, false, false]), (false, 3));
    assert_eq!(run(Quantifier::AnyOf, &[false, true]), (true, 2));
    assert_eq!(run(Quantifier::AnyOf, &[]), (false, 0));
}

#[test]
fn all_of_stops_at_the_first_comparison_that_fails() {
    assert_eq!(run(Quantifier::AllOf, &[true, true, false, true, false]), (false, 3));
    assert_eq!(run(Quantifier::AllOf, &[false, false]), (false, 1));
    assert_eq!(run(Quantifier::AllOf, &[true, true, true]), (true, 3));
    assert_eq!(run(Quantifier::AllOf, &[true, false]), (false, 2));
    assert_eq!(run(Quantifier::AllOf, &[]), (true, 0));
}

#[test]
fn none_of_stops_at_the_first_comparison_that_holds() {
    assert_eq!(run(Quantifier::NoneOf, &[false, false, true, false, true]), (false, 3));
    assert_eq!(run(Quantifier::NoneOf, &[true, true]), (false, 1));
    assert_eq!(run(Quantifier::NoneOf, &[false, false, false]), (true, 3));
    assert_eq!(run(Quantifier::NoneOf, &[]), (true, 0));
}

#[test]
fn exactly_of_performs_every_comparison() {
    assert_eq!(run(Quantifier::ExactlyOf(1), &[true, true, false, true]), (false, 4));
    assert_eq!(run(Quantifier::ExactlyOf(3), &[true, true, false, true]), (true, 4));
    assert_eq!(run(Quantifier::ExactlyOf(0), &[true, false, false]), (false, 3));
    assert_eq!(run(Quantifier::ExactlyOf(0), &[false, false, false]), (true, 3));
    assert_eq!(run(Quantifier::ExactlyOf(0), &[]), (true, 0));
    assert_eq!(run(Quantifier::ExactlyOf(1), &[]), (false, 0));
}

#[test]
fn exactly_of_at_the_ends_of_the_range() {
    let lists: [&[i32]; 5] = [&[], &[3], &[1, 2, 3], &[5, 5, 5], &[1, 9, 1, 9]];
    for operands in lists {
        for op in OPERATORS {
            for rhs in [0, 3, 5, 9] {
                let count = operands.iter().filter(|v| op.compare(*v, &rhs)).count() as i64;
                // the count and no other number
                for n in -2..7 {
                    assert_eq!(exactly_of(n, operands, op, &rhs), n == count);
                }
                // zero: none of them
                assert_eq!(exactly_of(0, operands, op, &rhs), none_of(operands, op, &rhs));
                // as many as there are: all of them
                assert_eq!(
                    exactly_of(operands.len() as i64, operands, op, &rhs),
                    all_of(operands, op, &rhs)
                );
                // more than there are, or less than none: never
                assert!(!exactly_of(operands.len() as i64 + 1, operands, op, &rhs));
                assert!(!exactly_of(i64::MAX, operands, op, &rhs));
                assert!(!exactly_of(-1, operands, op, &rhs));
                assert!(!exactly_of(i64::MIN, operands, op, &rhs));
            }
        }
    }
}

#[test]
fn the_quantifiers_agree_with_each_other() {
    let lists: [&[i32]; 6] = [&[3], &[1, 2, 3], &[5, 5, 5], &[1, 9, 1, 9], &[-4, 0], &[7, 6, 5, 4]];
    for operands in lists {
        for op in OPERATORS {
            for rhs in -5..10 {
                let all = all_of(operands, op, &rhs);
                let any = any_of(operands, op, &rhs);
                let none = none_of(operands, op, &rhs);
                assert_eq!(none, !any);
                assert_eq!(all, none_of(operands, op.complement(), &rhs));
                assert_eq!(none, all_of(operands, op.complement(), &rhs));
                if all {
                    assert!(any);
                }
                if none {
                    assert!(any_of(operands, op.complement(), &rhs));
                }
                assert_eq!(all, quantify(Quantifier::AllOf, operands, op, &rhs));
                assert_eq!(any, quantify(Quantifier::AnyOf, operands, op, &rhs));
                assert_eq!(none, quantify(Quantifier::NoneOf, operands, op, &rhs));
            }
        }
    }
}

#[test]
fn an_empty_list_has_no_operand_that_fails_and_none_that_holds() {
    let nothing: [i32; 0] = [];
    assert!(all_of(&nothing, Less, &0));
    assert!(none_of(&nothing, Less, &0));
    assert!(!any_of(&nothing, Less, &0));
    assert!(exactly_of(0, &nothing, Less, &0));
}

#[test]
fn the_transformation_is_applied_to_no_operand_after_the_one_that_decides() {
    let applied = Cell::new(0);
    let double = |x: i32| {
        applied.set(applied.get() + 1);
        2 * x
    };
    assert!(quantify_map(Quantifier::AnyOf, &[1, 2, 3, 4], double, Equal, &4));
    assert_eq!(applied.get(), 2);
    applied.set(0);
    assert!(!quantify_map(Quantifier::AllOf, &[1, 2, 3, 4], double, Less, &6));
    assert_eq!(applied.get(), 3);
    applied.set(0);
    assert!(!quantify_map(Quantifier::NoneOf, &[1, 2, 3, 4], double, Greater, &1));
    assert_eq!(applied.get(), 1);
    applied.set(0);
    assert!(quantify_map(Quantifier::ExactlyOf(2), &[1, 2, 3, 4], double, Greater, &5));
    assert_eq!(applied.get(), 4);
    applied.set(0);
    assert!(quantify_map(Quantifier::NoneOf, &[1, 2, 3, 4], double, Greater, &8));
    assert_eq!(applied.get(), 4);
}

#[test]
fn the_predicate_is_applied_to_no_operand_after_the_one_that_decides() {
    let applied = Cell::new(0);
    let even = |x: i32| {
        applied.set(applied.get() + 1);
        x % 2 == 0
    };
    assert!(quantify_satisfy(Quantifier::AnyOf, &[1, 2, 3, 4], even));
    assert_eq!(applied.get(), 2);
    applied.set(0);
    assert!(!quantify_satisfy(Quantifier::AllOf, &[2, 4, 5, 6], even));
    assert_eq!(applied.get(), 3);
    applied.set(0);
    assert!(quantify_satisfy(Quantifier::ExactlyOf(3), &[2, 4, 5, 6], even));
    assert_eq!(applied.get(), 4);
}

#[test]
fn a_predicate_is_a_transformation_that_is_compared_with_true() {
    let lists: [&[i32]; 4] = [&[1], &[2, 4, 6], &[1, 3, 4], &[7, 7, 7, 7]];
    for operands in lists {
        for quantifier in [
            Quantifier::AnyOf,
            Quantifier::AllOf,
            Quantifier::NoneOf,
            Quantifier::ExactlyOf(0),
            Quantifier::ExactlyOf(1),
            Quantifier::ExactlyOf(3),
        ] {
            let even = |x: i32| x % 2 == 0;
            assert_eq!(
                quantify_satisfy(quantifier, operands, even),
                quantify_map(quantifier, operands, even, Equal, &true)
            );
        }
    }
}

#[test]
fn the_right_hand_side_is_evaluated_anew_for_each_comparison() {
    let operands = Cell::new(0);
    let right_hand_sides = Cell::new(0);
    let verdict = quantify_lazy(
        Quantifier::AllOf,
        5,
        |i| {
            assert_eq!(operands.get(), right_hand_sides.get(), "the operand comes first");
            operands.set(operands.get() + 1);
            i
        },
        Less,
        || {
            right_hand_sides.set(right_hand_sides.get() + 1);
            3
        },
    );
    assert!(!verdict);
    assert_eq!(operands.get(), 4);
    assert_eq!(right_hand_sides.get(), 4);

    // a right-hand side that changes is compared as it is each time
    let next = Cell::new(0);
    let verdict = quantify_lazy(
        Quantifier::ExactlyOf(3),
        3,
        |_| 2,
        Greater,
        || {
            next.set(next.get() + 1);
            next.get() - 2
        },
    );
    assert!(verdict);
    assert_eq!(next.get(), 3);
}

#[test]
fn lazily_evaluated_operands_give_what_a_list_gives() {
    let lists: [&[i32]; 4] = [&[3], &[1, 2, 3], &[5, 5, 5], &[1, 9, 1, 9]];
    for operands in lists {
        for op in OPERATORS {
            for rhs in [0, 3, 5, 9] {
                for quantifier in [
                    Quantifier::AnyOf,
                    Quantifier::AllOf,
                    Quantifier::NoneOf,
                    Quantifier::ExactlyOf(2),
                ] {
                    assert_eq!(
                        quantify_lazy(quantifier, operands.len(), |i| operands[i], op, || rhs),
                        quantify(quantifier, operands, op, &rhs)
                    );
                }
            }
        }
    }
}
