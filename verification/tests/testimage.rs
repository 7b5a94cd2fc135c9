use onmf::testimage::{horizontal_line, vertical_line, SIDE};
use onmf::DMat;

fn ones(m: &DMat) -> Vec<(usize, usize)> {
    let mut out = Vec::new();
    for i in 0..m.nrows() {
        for j in 0..m.ncols() {
            let x = f64::from_bits(m.get(i, j));
            assert!(x == 0.0 || x == 1.0);
            if x == 1.0 {
                out.push((i, j));
            }
        }
    }
    out
}

#[test]
fn images_are_ten_by_ten() {
    assert_eq!(SIDE, 10);
    let h = horizontal_line(0, 0, 10);
    let v = vertical_line(0, 10, 0);
    assert_eq!((h.nrows(), h.ncols()), (10, 10));
    assert_eq!((v.nrows(), v.ncols()), (10, 10));
}

#[test]
fn horizontal_line_lies_in_its_row() {
    assert_eq!(ones(&horizontal_line(9, 0, 5)), vec![(9, 0), (9, 1), (9, 2), (9, 3), (9, 4)]);
    assert_eq!(ones(&horizontal_line(3, 7, 10)), vec![(3, 7), (3, 8), (3, 9)]);
}

#[test]
fn vertical_line_lies_in_its_column() {
    assert_eq!(ones(&vertical_line(5, 10, 0)), vec![(5, 0), (6, 0), (7, 0), (8, 0), (9, 0)]);
    assert_eq!(ones(&vertical_line(0, 2, 4)), vec![(0, 4), (1, 4)]);
}

#[test]
fn a_line_without_cells_is_all_zero() {
    assert_eq!(ones(&horizontal_line(2, 4, 4)), vec![]);
    assert_eq!(ones(&vertical_line(6, 3, 1)), vec![]);
    assert_eq!(ones(&horizontal_line(12, 5, 5)), vec![]);
}

#[test]
fn full_lines_have_ten_ones() {
    for k in 0..10 {
        assert_eq!(ones(&horizontal_line(k, 0, 10)).len(), 10);
        assert_eq!(ones(&vertical_line(0, 10, k)).len(), 10);
    }
}

#[test]
fn a_vertical_line_is_a_horizontal_line_transposed() {
    let h = horizontal_line(4, 2, 7);
    let v = vertical_line(2, 7, 4);
    for i in 0..10 {
        for j in 0..10 {
            assert_eq!(h.get(i, j), v.get(j, i));
        }
    }
}
