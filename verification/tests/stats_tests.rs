use data_utils::stats::find_max;

#[test]
fn max_of_empty_is_none() {
    let empty: [i32; 0] = [];
    assert_eq!(find_max(&empty), None);
}

#[test]
fn max_of_single_element() {
    assert_eq!(find_max(&[7]), Some(7));
}

#[test]
fn max_in_the_middle() {
    assert_eq!(find_max(&[3, 9, 2, 8]), Some(9));
}

#[test]
fn max_of_negatives() {
    assert_eq!(find_max(&[-5, -1, -9]), Some(-1));
}

#[test]
fn max_with_duplicates() {
    assert_eq!(find_max(&[4, 4, 4]), Some(4));
}

#[test]
fn max_at_extremes() {
    assert_eq!(find_max(&[i32::MIN, 0, i32::MAX]), Some(i32::MAX));
    assert_eq!(find_max(&[i32::MIN]), Some(i32::MIN));
}
