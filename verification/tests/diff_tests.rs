use reference_finder::diff::calculate_percent_diff;

fn lines(v: &[&str]) -> Vec<String> {
    v.iter().map(|s| s.to_string()).collect()
}

#[test]
fn identical_files_yield_zero() {
    let a = lines(&["alpha", "beta", "gamma"]);
    let b = lines(&["alpha", "beta", "gamma"]);
    let r = calculate_percent_diff(&a, &b);
    assert_eq!(r.unique_to_first, 0);
    assert_eq!(r.total, 4);
    let percent = r.unique_to_first as f64 / r.total as f64 * 100.0;
    assert_eq!(percent, 0.0);
}

#[test]
fn disjoint_equal_length_files_blend_to_two_thirds() {
    let a = lines(&["a", "b"]);
    let b = lines(&["c", "d"]);
    let r = calculate_percent_diff(&a, &b);
    assert_eq!(r.unique_to_first, 2);
    assert_eq!(r.total, 3);
    let percent = r.unique_to_first as f64 / r.total as f64 * 100.0;
    assert!((percent - 66.67).abs() < 0.005);
}

#[test]
fn metric_is_asymmetric() {
    // every line of a also occurs in b, but not the other way round
    let a = lines(&["shared"]);
    let b = lines(&["shared", "extra"]);
    let forward = calculate_percent_diff(&a, &b);
    assert_eq!(forward.unique_to_first, 0);
    assert_eq!(forward.total, 2);
    let backward = calculate_percent_diff(&b, &a);
    assert_eq!(backward.unique_to_first, 1);
    assert_eq!(backward.total, 2);
    assert_ne!(
        forward.unique_to_first * backward.total,
        backward.unique_to_first * forward.total
    );
}

#[test]
fn percent_stays_within_bounds_for_pathological_inputs() {
    // a large file with no overlap against a single line: the worst case
    let a = lines(&["l1", "l2", "l3", "l4", "l5", "l6", "l7", "l8", "l9", "l10"]);
    let b = lines(&["other"]);
    let r = calculate_percent_diff(&a, &b);
    assert_eq!(r.unique_to_first, 10);
    assert_eq!(r.total, 10);
    let percent = r.unique_to_first as f64 / r.total as f64 * 100.0;
    assert_eq!(percent, 100.0);
    assert!(r.unique_to_first <= r.total);
}

#[test]
fn duplicate_lines_collapse_to_one() {
    let a = lines(&["dup", "dup", "dup"]);
    let b = lines(&[]);
    let r = calculate_percent_diff(&a, &b);
    assert_eq!(r.unique_to_first, 1);
    assert_eq!(r.total, 3);
}

#[test]
fn empty_first_file_has_no_unique_lines() {
    let a = lines(&[]);
    let b = lines(&["x", "y"]);
    let r = calculate_percent_diff(&a, &b);
    assert_eq!(r.unique_to_first, 0);
    assert_eq!(r.total, 1);
}

#[test]
fn two_empty_files_yield_the_zero_total() {
    let a = lines(&[]);
    let b = lines(&[]);
    let r = calculate_percent_diff(&a, &b);
    assert_eq!(r.unique_to_first, 0);
    assert_eq!(r.total, 0);
}

#[test]
fn second_file_line_count_is_halved_rounding_down() {
    let a = lines(&["p", "q", "r"]);
    let b = lines(&["p", "s", "t", "u", "v"]);
    let r = calculate_percent_diff(&a, &b);
    // q and r are unique to the first file; 3 + 5 / 2 = 5
    assert_eq!(r.unique_to_first, 2);
    assert_eq!(r.total, 5);
}
