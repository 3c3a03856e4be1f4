use fluent_comparisons::operator::ComparisonOperator::{
    Equal, Greater, GreaterOrEqual, Less, LessOrEqual, NotEqual,
};
use fluent_comparisons::quantifier::{any_of, quantify_map, quantify_satisfy, Quantifier::AnyOf};
use rand::prelude::thread_rng;
use rand::prelude::Rng;

#[test]
fn any_of_with_map_any_of_with_map_comparisons_give_correct_result_for_operator_equal() {
    // very simple expressions
    assert_eq!(quantify_satisfy(AnyOf, &[3, 4, 5], |x| x % 2 == 0), true);
    assert_eq!(quantify_map(AnyOf, &[3, 4, 5], |x| x % 2, Equal, &0), true);
    assert_eq!(quantify_map(AnyOf, &[2], |x| x * x, Equal, &4), true);
    assert_eq!(quantify_map(AnyOf, &[2, 4], |x: i32| x.pow(10), Equal, &4), false);

    // more complicated expressions
    let v = vec![1, 2];
    assert_eq!(
        any_of(&[2f64.cos(), 3f64.sin(), 0f64.cos()], LessOrEqual, &-std::f64::EPSILON),
        true
    );
    assert_eq!(
        quantify_map(
            AnyOf,
            &[v.len(), 2_usize.pow(2), 3 * 4 + 1],
            |x: usize| -(x as i64),
            Equal,
            &-(v.len() as i64)
        ),
        true
    );
    assert_eq!(
        quantify_satisfy(AnyOf, &[v.len() / 2, v.len() - 1, v.len().pow(4)], |x| x == v.len()),
        false
    );
}

#[test]
// it should not matter which comparison operator is put in, but it is tested anyway
fn any_of_with_map_test_any_of_comparisons_for_other_comparison_operators() {
    let square = |x| x * x;
    // !=
    assert_eq!(quantify_map(AnyOf, &[2, 2, 2, 2], |x| x - 1, NotEqual, &2), true);
    assert_eq!(quantify_map(AnyOf, &[2, 1 + 1], square, NotEqual, &4), false);
    // <=
    assert_eq!(quantify_satisfy(AnyOf, &[square(3), 8, 120, 1], |x| x <= 8), true);
    assert_eq!(
        quantify_map(
            AnyOf,
            &[4 + 4 + 1, square(7 * 2), 120_i32.pow(2)],
            |x| x - 1,
            LessOrEqual,
            &8
        ),
        true
    );
    // >=
    assert_eq!(quantify_satisfy(AnyOf, &[-11, 3], |x| x >= 2), true);
    assert_eq!(quantify_map(AnyOf, &[40, 50], |x| x / 10, GreaterOrEqual, &10), false);
    // <
    assert_eq!(quantify_map(AnyOf, &[14, 20, 120, 30], |x| x / 2, Less, &8), true);
    assert_eq!(
        quantify_map(AnyOf, &[4 + 1, square(2), 2_i32.pow(2)], |x| x + 5, Less, &8),
        false
    );
    // >
    assert_eq!(quantify_satisfy(AnyOf, &[-11, 3], |x| x > -10), true);
    assert_eq!(quantify_map(AnyOf, &[-11, 5], |x| x - 1, Greater, &4), false);
}

#[test]
// random values: the result is compared with the one that the iterators of
// the standard library give
fn any_of_with_map_test_random_collection_of_values_behave_correctly() {
    let mut rng = thread_rng();

    for _ in 1..100000 {
        let a = rng.gen_range(-5..5);
        let b = rng.gen_range(-5..5);
        let c = rng.gen_range(-5..5);
        let d = rng.gen_range(-5..5);
        let rhs = rng.gen_range(-5..5);

        // the transformation truly maps and gives what the iterators give;
        // a predicate that says the same gives the same
        let mapped = quantify_map(AnyOf, &[a, b, c, d], |x| x * 2, Equal, &rhs);
        assert_eq!(mapped, quantify_satisfy(AnyOf, &[a, b, c, d], |x| x * 2 == rhs));
        assert_eq!(mapped, [a, b, c, d].iter().map(|x| x * 2).any(|v| v == rhs));

        let mapped = quantify_map(AnyOf, &[a, b, c, d], |x| x + 1, LessOrEqual, &rhs);
        assert_eq!(mapped, quantify_satisfy(AnyOf, &[a, b, c, d], |x| x + 1 <= rhs));
        assert_eq!(mapped, [a, b, c, d].iter().map(|x| x + 1).any(|v| v <= rhs));

        let mapped = quantify_map(AnyOf, &[a, b, c, d], |x| x - 1, GreaterOrEqual, &rhs);
        assert_eq!(mapped, quantify_satisfy(AnyOf, &[a, b, c, d], |x| x - 1 >= rhs));
        assert_eq!(mapped, [a, b, c, d].iter().map(|x| x - 1).any(|v| v >= rhs));

        let mapped = quantify_map(AnyOf, &[a, b, c, d], |x| x + 1, Greater, &rhs);
        assert_eq!(mapped, quantify_satisfy(AnyOf, &[a, b, c, d], |x| x + 1 > rhs));
        assert_eq!(mapped, [a, b, c, d].iter().map(|x| x + 1).any(|v| v > rhs));

        let mapped = quantify_map(AnyOf, &[a, b, c, d], |x| x + 1, Less, &rhs);
        assert_eq!(mapped, quantify_satisfy(AnyOf, &[a, b, c, d], |x| x + 1 < rhs));
        assert_eq!(mapped, [a, b, c, d].iter().map(|x| x + 1).any(|v| v < rhs));

        let mapped = quantify_map(AnyOf, &[a, b, c, d], |x| x + 1, NotEqual, &(rhs + 1));
        assert_eq!(mapped, quantify_satisfy(AnyOf, &[a, b, c, d], |x| x + 1 != rhs + 1));
        assert_eq!(mapped, [a, b, c, d].iter().map(|x| x + 1).any(|v| v != rhs + 1));
    }
}
