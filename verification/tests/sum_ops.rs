use token_card::sums::returning_sum_of_array;

#[test]
fn sums_one_through_five() {
    let arr = [1, 2, 3, 4, 5];
    assert_eq!(returning_sum_of_array(&arr), 15);
}

#[test]
fn sums_the_empty_slice_to_zero() {
    let arr: [i32; 0] = [];
    assert_eq!(returning_sum_of_array(&arr), 0);
}

#[test]
fn sums_mixed_signs() {
    let arr = [10, -4, 3, -9];
    assert_eq!(returning_sum_of_array(&arr), 0);
}
