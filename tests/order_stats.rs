use robust_scaler::{median_positions, quantile_bracket};

fn median_of(values: &[f64]) -> f64 {
    let mut sorted = values.to_vec();
    sorted.sort_by(|a, b| a.partial_cmp(b).unwrap());
    let (lo, hi) = median_positions(sorted.len());
    (sorted[lo] + sorted[hi]) / 2.0
}

fn quantile_of(values: &[f64], q: f64) -> f64 {
    let mut sorted = values.to_vec();
    sorted.sort_by(|a, b| a.partial_cmp(b).unwrap());
    let index = q * (sorted.len() as f64 - 1.0);
    let i = index.floor() as usize;
    let t = index - i as f64;
    let (lo, hi) = quantile_bracket(sorted.len(), i);
    sorted[lo] + t * (sorted[hi] - sorted[lo])
}

#[test]
fn median_positions_odd_count() {
    assert_eq!(median_positions(1), (0, 0));
    assert_eq!(median_positions(3), (1, 1));
    assert_eq!(median_positions(7), (3, 3));
}

#[test]
fn median_positions_even_count() {
    assert_eq!(median_positions(2), (0, 1));
    assert_eq!(median_positions(4), (1, 2));
    assert_eq!(median_positions(10), (4, 5));
}

#[test]
fn median_positions_largest_count() {
    assert_eq!(median_positions(usize::MAX), (usize::MAX / 2, usize::MAX / 2));
}

#[test]
fn median_of_odd_and_even_examples() {
    assert_eq!(median_of(&[1.0, 3.0, 2.0]), 2.0);
    assert_eq!(median_of(&[1.0, 2.0, 3.0, 4.0]), 2.5);
}

#[test]
fn quantile_bracket_inside() {
    assert_eq!(quantile_bracket(5, 0), (0, 1));
    assert_eq!(quantile_bracket(5, 2), (2, 3));
    assert_eq!(quantile_bracket(5, 3), (3, 4));
}

#[test]
fn quantile_bracket_at_and_past_last() {
    assert_eq!(quantile_bracket(5, 4), (4, 4));
    assert_eq!(quantile_bracket(5, 9), (4, 4));
    assert_eq!(quantile_bracket(1, 0), (0, 0));
}

#[test]
fn quantile_ends_are_min_and_max() {
    let x = [4.0, -2.0, 7.5, 1.0];
    assert_eq!(quantile_of(&x, 0.0), -2.0);
    assert_eq!(quantile_of(&x, 1.0), 7.5);
}

#[test]
fn quantile_half_is_median() {
    let odd = [5.0, 1.0, 3.0];
    let even = [8.0, 2.0, 4.0, 6.0];
    assert_eq!(quantile_of(&odd, 0.5), median_of(&odd));
    assert_eq!(quantile_of(&even, 0.5), median_of(&even));
}

#[test]
fn quartiles_of_three_values() {
    let column = [1.0, 3.0, 5.0];
    assert_eq!(median_of(&column), 3.0);
    assert_eq!(quantile_of(&column, 0.25), 2.0);
    assert_eq!(quantile_of(&column, 0.75), 4.0);
}
