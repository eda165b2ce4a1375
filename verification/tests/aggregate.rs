use rust_lib::aggregate::{checked_sum, index_values, max_or_zero, replace_even, sum};

#[test]
fn checked_sum_of_small_values() {
    assert_eq!(checked_sum(&[1, 2, 3]), Some(6));
    assert_eq!(checked_sum(&[-4, 4, 10]), Some(10));
}

#[test]
fn checked_sum_of_nothing_is_zero() {
    assert_eq!(checked_sum(&[]), Some(0));
}

#[test]
fn checked_sum_refuses_a_sum_above_the_range() {
    assert_eq!(checked_sum(&[i32::MAX, 1]), None);
}

#[test]
fn checked_sum_refuses_a_sum_below_the_range() {
    assert_eq!(checked_sum(&[i32::MIN, -1]), None);
}

#[test]
fn checked_sum_accepts_the_ends_of_the_range() {
    assert_eq!(checked_sum(&[i32::MAX]), Some(i32::MAX));
    assert_eq!(checked_sum(&[i32::MIN]), Some(i32::MIN));
    assert_eq!(checked_sum(&[i32::MAX, i32::MIN]), Some(-1));
}

#[test]
fn checked_sum_looks_at_the_whole_sum_only() {
    assert_eq!(checked_sum(&[i32::MAX, 1, -5]), Some(i32::MAX - 4));
    assert_eq!(checked_sum(&[i32::MAX, i32::MAX, i32::MIN, i32::MIN]), Some(-2));
}

#[test]
fn sum_matches_the_iterator_sum() {
    let values = [7, -3, 12, 0, 5, -20, 41];
    let expected: i32 = values.iter().sum();
    assert_eq!(sum(&values), expected);
    assert_eq!(sum(&values), 42);
}

#[test]
fn sum_of_nothing_is_zero() {
    assert_eq!(sum(&[]), 0);
}

#[test]
fn max_matches_the_iterator_max() {
    let values = [7, -3, 12, 0, 5, -20, 41, 41, 2];
    assert_eq!(max_or_zero(&values), *values.iter().max().unwrap());
    assert_eq!(max_or_zero(&values), 41);
}

#[test]
fn max_of_negative_values_is_negative() {
    assert_eq!(max_or_zero(&[-5, -3, -9]), -3);
}

#[test]
fn max_of_one_value_is_that_value() {
    assert_eq!(max_or_zero(&[i32::MIN]), i32::MIN);
}

#[test]
fn max_of_nothing_is_zero() {
    assert_eq!(max_or_zero(&[]), 0);
}

#[test]
fn max_is_found_at_either_end() {
    assert_eq!(max_or_zero(&[9, 1, 2]), 9);
    assert_eq!(max_or_zero(&[1, 2, 9]), 9);
}

#[test]
fn index_values_count_up_from_zero() {
    assert_eq!(index_values(5), vec![0, 1, 2, 3, 4]);
    assert_eq!(index_values(1), vec![0]);
}

#[test]
fn index_values_of_length_zero_are_empty() {
    assert_eq!(index_values(0), Vec::<i32>::new());
}

#[test]
fn index_values_hold_their_index_at_every_place() {
    let values = index_values(1000);
    assert_eq!(values.len(), 1000);
    for (i, value) in values.iter().enumerate() {
        assert_eq!(*value, i as i32);
    }
}

#[test]
fn replace_even_overwrites_even_values_only() {
    let mut values = [1, 2, 3, 4, 0, -2, -3, i32::MIN, i32::MAX];
    replace_even(&mut values);
    assert_eq!(values, [1, -1, 3, -1, -1, -1, -3, -1, i32::MAX]);
}

#[test]
fn replace_even_leaves_odd_values_alone() {
    let mut values = [1, 3, 5, -7];
    replace_even(&mut values);
    assert_eq!(values, [1, 3, 5, -7]);
}

#[test]
fn replace_even_on_nothing_does_nothing() {
    let mut values: [i32; 0] = [];
    replace_even(&mut values);
    assert_eq!(values.len(), 0);
}
