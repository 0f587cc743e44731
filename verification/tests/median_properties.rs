use flux_aggregator::median::{calculate_median, EmptyArrayError, Sample};

#[test]
fn median_of_one_entry_is_that_entry() {
    let mut entries = vec![42_u128];
    assert_eq!(calculate_median(&mut entries), Ok(42));
    assert_eq!(entries, vec![42]);
}

#[test]
fn median_of_odd_count_is_middle_of_sorted() {
    let mut entries = vec![9_u128, 1, 7, 3, 5];
    assert_eq!(calculate_median(&mut entries), Ok(5));
    let mut entries = vec![10_u128, 10, 2];
    assert_eq!(calculate_median(&mut entries), Ok(10));
}

#[test]
fn median_of_even_count_is_floor_of_mean_of_middle_two() {
    let mut entries = vec![100_u128, 200];
    assert_eq!(calculate_median(&mut entries), Ok(150));
    // (2 + 5) / 2 rounds down
    let mut entries = vec![5_u128, 1, 2, 9];
    assert_eq!(calculate_median(&mut entries), Ok(3));
    let mut entries = vec![7_u128, 7, 7, 7];
    assert_eq!(calculate_median(&mut entries), Ok(7));
}

#[test]
fn median_sorts_the_entries_in_place() {
    let mut entries = vec![3_u128, 1, 2, 3, 0];
    calculate_median(&mut entries).unwrap();
    assert_eq!(entries, vec![0, 1, 2, 3, 3]);
}

#[test]
fn median_does_not_depend_on_order() {
    let orders: Vec<Vec<u128>> = vec![
        vec![1, 2, 3, 4],
        vec![4, 3, 2, 1],
        vec![2, 4, 1, 3],
        vec![3, 1, 4, 2],
    ];
    for mut entries in orders {
        assert_eq!(calculate_median(&mut entries), Ok(2));
    }
    let orders: Vec<Vec<u128>> = vec![vec![8, 6, 7], vec![6, 7, 8], vec![7, 8, 6]];
    for mut entries in orders {
        assert_eq!(calculate_median(&mut entries), Ok(7));
    }
}

#[test]
fn median_of_the_largest_values_does_not_overflow() {
    let mut entries = vec![u128::MAX, u128::MAX];
    assert_eq!(calculate_median(&mut entries), Ok(u128::MAX));
    let mut entries = vec![u128::MAX, u128::MAX - 1];
    assert_eq!(calculate_median(&mut entries), Ok(u128::MAX - 1));
    let mut entries = vec![u128::MAX, 0];
    assert_eq!(calculate_median(&mut entries), Ok(u128::MAX / 2));
}

#[test]
fn median_of_no_entries_fails() {
    let mut entries: Vec<u128> = Vec::new();
    assert_eq!(calculate_median(&mut entries), Err(EmptyArrayError));
    assert!(entries.is_empty());
}

#[test]
fn median_of_every_width() {
    assert_eq!(calculate_median(&mut [255_u8, 254]), Ok(254));
    assert_eq!(calculate_median(&mut [65535_u16, 1, 65535]), Ok(65535));
    assert_eq!(calculate_median(&mut [u32::MAX, u32::MAX - 2]), Ok(u32::MAX - 1));
    assert_eq!(calculate_median(&mut [u64::MAX, 0, 1, u64::MAX]), Ok(u64::MAX / 2 + 1));
    assert_eq!(calculate_median(&mut [3_usize, 1, 2]), Ok(2));
    assert_eq!(calculate_median::<u64>(&mut []), Err(EmptyArrayError));
}

#[test]
fn samples_compare_and_average_as_numbers() {
    assert!(3_u8.at_most(3));
    assert!(3_u32.at_most(4));
    assert!(!5_u128.at_most(4));
    assert_eq!(3_u8.midpoint(4), 3);
    assert_eq!(3_u16.midpoint(5), 4);
    assert_eq!(0_u32.midpoint(u32::MAX), u32::MAX / 2);
    assert_eq!(u64::MAX.midpoint(u64::MAX), u64::MAX);
    assert_eq!(7_u128.midpoint(7), 7);
    assert_eq!(10_usize.midpoint(21), 15);
}
