use fluent_comparisons::samples::all_of_expansion;
use fluent_comparisons::samples::guarded_operand::zero_or_small;
use fluent_comparisons::samples::none_of_with_map_or_satisfies_expansion;

#[test]
fn the_worked_examples_give_their_results() {
    assert_eq!(all_of_expansion::something(), (true, false, false));
    assert_eq!(
        none_of_with_map_or_satisfies_expansion::something(),
        (false, false, true, false)
    );
}

#[test]
fn a_dummy_is_copied() {
    let first = all_of_expansion::Dummy { length: 2 };
    let second = first;
    assert_eq!(first.length, second.clone().length);
    let first = none_of_with_map_or_satisfies_expansion::Dummy { length: 3 };
    let second = first.clone();
    assert_eq!(first.length, second.length);
}

#[test]
fn the_division_is_not_performed_behind_the_test_for_zero() {
    assert!(zero_or_small(0));
    assert!(zero_or_small(1));
    assert!(zero_or_small(2));
    assert!(!zero_or_small(3));
    assert!(!zero_or_small(11));
}
