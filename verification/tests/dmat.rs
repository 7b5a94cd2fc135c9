use onmf::{DMat, ShapeAsTuple};

fn counting_matrix(rows: usize, cols: usize) -> DMat {
    let mut m = DMat::new_zeros(rows, cols);
    for i in 0..rows {
        for j in 0..cols {
            m.set(i, j, 100 + (i * cols + j) as u64);
        }
    }
    m
}

#[test]
fn new_zeros_has_the_shape_asked_for() {
    let m = DMat::new_zeros(4, 2);
    assert_eq!(m.nrows(), 4);
    assert_eq!(m.ncols(), 2);
    assert_eq!(m.shape_as_tuple(), (4, 2));
    for i in 0..4 {
        for j in 0..2 {
            assert_eq!(m.get(i, j), 0);
        }
    }
}

#[test]
fn new_zeros_may_have_an_empty_axis() {
    assert_eq!(DMat::new_zeros(0, 2).shape_as_tuple(), (0, 2));
    assert_eq!(DMat::new_zeros(2, 0).shape_as_tuple(), (2, 0));
}

#[test]
fn dmat_set_changes_one_cell_only() {
    let mut m = counting_matrix(3, 4);
    m.set(2, 1, 7);
    for i in 0..3 {
        for j in 0..4 {
            let expected = if (i, j) == (2, 1) { 7 } else { 100 + (i * 4 + j) as u64 };
            assert_eq!(m.get(i, j), expected);
        }
    }
}

#[test]
fn dmat_rows_and_columns_are_not_swapped() {
    let mut m = DMat::new_zeros(2, 3);
    m.set(0, 2, 5);
    m.set(1, 0, 9);
    assert_eq!(m.get(0, 2), 5);
    assert_eq!(m.get(1, 0), 9);
    assert_eq!(m.get(0, 0), 0);
    assert_eq!(m.get(1, 2), 0);
}

#[test]
fn append_rows_keeps_the_old_rows_and_fills_the_new() {
    let mut m = counting_matrix(2, 3);
    m.append_rows(3, 42);
    assert_eq!(m.shape_as_tuple(), (5, 3));
    for i in 0..5 {
        for j in 0..3 {
            let expected = if i < 2 { 100 + (i * 3 + j) as u64 } else { 42 };
            assert_eq!(m.get(i, j), expected, "cell ({i}, {j})");
        }
    }
}

#[test]
fn append_rows_to_a_matrix_without_rows() {
    let mut m = DMat::new_zeros(0, 2);
    m.append_rows(2, 9);
    assert_eq!(m.shape_as_tuple(), (2, 2));
    for i in 0..2 {
        for j in 0..2 {
            assert_eq!(m.get(i, j), 9);
        }
    }
}

#[test]
fn append_no_rows_changes_nothing() {
    let mut m = counting_matrix(2, 2);
    m.append_rows(0, 1);
    assert_eq!(m.shape_as_tuple(), (2, 2));
    assert_eq!(m.get(0, 0), 100);
    assert_eq!(m.get(1, 1), 103);
}

#[test]
fn append_rows_to_a_matrix_without_columns() {
    let mut m = DMat::new_zeros(1, 0);
    m.append_rows(2, 5);
    assert_eq!(m.shape_as_tuple(), (3, 0));
}

#[test]
fn dmat_avoid_zeros_replaces_zeros_and_keeps_the_rest() {
    let mut m = DMat::new_zeros(2, 2);
    m.set(0, 1, (-0.0f64).to_bits());
    m.set(1, 0, 3.5f64.to_bits());
    m.set(1, 1, (-2.0f64).to_bits());
    m.avoid_zeros();
    assert_eq!(f64::from_bits(m.get(0, 0)), f64::MIN_POSITIVE);
    assert_eq!(f64::from_bits(m.get(0, 1)), f64::MIN_POSITIVE);
    assert_eq!(f64::from_bits(m.get(1, 0)), 3.5);
    assert_eq!(f64::from_bits(m.get(1, 1)), -2.0);
}
