// The quantifiers are reached from outside the crate, and they can be chained
// and nested.

use fluent_comparisons::operator::ComparisonOperator::{
    Equal, Greater, GreaterOrEqual, Less, LessOrEqual,
};
use fluent_comparisons::quantifier::{
    all_of, any_of, none_of, quantify_map, quantify_satisfy, Quantifier,
};

#[test]
// chaining the expressions
fn test_chaining() {
    assert!(
        all_of(&[1, 2, 3], LessOrEqual, &4)
            && none_of(&[-1, 0, -100], Greater, &0)
            && any_of(&[-1, 2, 3], Equal, &2)
            && quantify_satisfy(Quantifier::AllOf, &[2, 4, 6], |x| x % 2 == 0)
            && quantify_map(Quantifier::NoneOf, &[2, 3, 4], |x| x - 1, GreaterOrEqual, &4)
            && quantify_map(Quantifier::AnyOf, &[1, 2, 3], |x| x - 2, Less, &0)
    );
}

#[test]
fn test_nesting() {
    assert!(quantify_map(
        Quantifier::AllOf,
        &[
            all_of(&[1, 2, 3], LessOrEqual, &4),
            none_of(&[-1, 0, -100], Greater, &0),
            any_of(&[-1, 2, 3], Equal, &2),
            quantify_satisfy(Quantifier::AllOf, &[2, 4, 6], |x| x % 2 == 0),
            quantify_map(Quantifier::NoneOf, &[2, 3, 4], |x| x - 1, GreaterOrEqual, &4),
            quantify_map(Quantifier::AnyOf, &[1, 2, 3], |x| x - 2, Less, &0)
        ],
        |b: bool| !b,
        Equal,
        &false
    ));
}
