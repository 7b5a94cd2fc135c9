use onmf::{Array, ShapeAsTuple};

fn counting(rows: usize, cols: usize) -> Array {
    let words: Vec<u64> = (0..(rows * cols) as u64).map(|k| 100 + k).collect();
    let mut a = Array::zeros(rows, cols);
    a.fill_from(&words, 0);
    a
}

#[test]
fn zeros_has_the_shape_asked_for() {
    let a = Array::zeros(3, 5);
    assert_eq!(a.nrows(), 3);
    assert_eq!(a.ncols(), 5);
    assert_eq!(a.shape_as_tuple(), (3, 5));
    for i in 0..3 {
        for j in 0..5 {
            assert_eq!(a.get(i, j), 0);
        }
    }
}

#[test]
fn zeros_may_have_an_empty_axis() {
    assert_eq!(Array::zeros(0, 4).shape_as_tuple(), (0, 4));
    assert_eq!(Array::zeros(4, 0).shape_as_tuple(), (4, 0));
    assert_eq!(Array::zeros(0, 0).shape_as_tuple(), (0, 0));
}

#[test]
fn set_changes_one_cell_only() {
    let mut a = counting(3, 4);
    a.set(1, 2, 7);
    for i in 0..3 {
        for j in 0..4 {
            let expected = if (i, j) == (1, 2) { 7 } else { 100 + (i * 4 + j) as u64 };
            assert_eq!(a.get(i, j), expected);
        }
    }
    assert_eq!(a.shape_as_tuple(), (3, 4));
}

#[test]
fn rows_and_columns_are_not_swapped() {
    let mut a = Array::zeros(2, 3);
    a.set(0, 2, 5);
    a.set(1, 0, 9);
    assert_eq!(a.get(0, 2), 5);
    assert_eq!(a.get(1, 0), 9);
    assert_eq!(a.get(0, 0), 0);
    assert_eq!(a.get(1, 2), 0);
}

#[test]
fn fill_from_goes_row_after_row() {
    let a = counting(2, 3);
    assert_eq!(a.get(0, 0), 100);
    assert_eq!(a.get(0, 1), 101);
    assert_eq!(a.get(0, 2), 102);
    assert_eq!(a.get(1, 0), 103);
    assert_eq!(a.get(1, 1), 104);
    assert_eq!(a.get(1, 2), 105);
}

#[test]
fn fill_from_starts_where_it_is_told() {
    let words: Vec<u64> = vec![1, 2, 3, 4, 5, 6, 7];
    let mut a = Array::zeros(2, 2);
    a.fill_from(&words, 3);
    assert_eq!(a.get(0, 0), 4);
    assert_eq!(a.get(0, 1), 5);
    assert_eq!(a.get(1, 0), 6);
    assert_eq!(a.get(1, 1), 7);
}

#[test]
fn fill_from_an_empty_array_reads_nothing() {
    let words: Vec<u64> = Vec::new();
    let mut a = Array::zeros(0, 3);
    a.fill_from(&words, 0);
    assert_eq!(a.shape_as_tuple(), (0, 3));
}

#[test]
fn avoid_zeros_replaces_zeros_and_keeps_the_rest() {
    let mut a = Array::zeros(2, 2);
    a.set(0, 0, 0.0f64.to_bits());
    a.set(0, 1, (-0.0f64).to_bits());
    a.set(1, 0, 0.25f64.to_bits());
    a.set(1, 1, f64::NAN.to_bits());
    a.avoid_zeros();
    assert_eq!(f64::from_bits(a.get(0, 0)), f64::MIN_POSITIVE);
    assert_eq!(f64::from_bits(a.get(0, 1)), f64::MIN_POSITIVE);
    assert_eq!(f64::from_bits(a.get(1, 0)), 0.25);
    assert_eq!(a.get(1, 1), f64::NAN.to_bits());
    assert_eq!(a.shape_as_tuple(), (2, 2));
}
