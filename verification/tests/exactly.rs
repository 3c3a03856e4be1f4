use fluent_comparisons::expand::exactly;
use fluent_comparisons::operator::ComparisonOperator::LessOrEqual;
use fluent_comparisons::quantifier::{quantify_map, quantify_satisfy, Quantifier::ExactlyOf};

#[test]
fn test_exactly() {
    const FOUR: i32 = 2;
    assert_eq!(
        quantify_satisfy(ExactlyOf(FOUR as i64), &[1, 2, 2, 4], |x| x == 2),
        true
    );
    assert_eq!(quantify_satisfy(ExactlyOf(1), &[1, 2, 2, 4], |x| x == 2), false);
    assert_eq!(quantify_map(ExactlyOf(1), &[1, 2], |x| 2 * x, LessOrEqual, &2), true);
    assert_eq!(quantify_map(ExactlyOf(2), &[1, 2], |x| 2 * x, LessOrEqual, &2), false);

    // the four comparisons as they are written for the macro
    assert!(exactly("FOUR of {1,2,2,4}.satisfy(|x|x==2)").is_ok());
    assert!(exactly("1 of {1,2,2,4}.satisfy(|x|x==2)").is_ok());
    assert!(exactly("1 of {1,2}.map(|x|2*x) <= 2").is_ok());
    assert!(exactly("2 of {1,2}.map(|x|2*x) <= 2").is_ok());
}
