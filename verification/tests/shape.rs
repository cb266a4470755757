use lgbm::{Float32, Float64, MatShape};

#[test]
fn shape_keeps_what_it_was_given() {
    let shape = MatShape::<Float64>::new(3, 5, false);
    assert_eq!(shape.nrow, 3);
    assert_eq!(shape.ncol, 5);
    assert!(!shape.row_major);
}

#[test]
fn element_count_is_rows_times_columns() {
    assert_eq!(MatShape::<Float32>::new(4, 2, true).element_count(), Some(8));
    assert_eq!(MatShape::<Float32>::new(0, 7, true).element_count(), Some(0));
    assert_eq!(MatShape::<Float64>::new(1, usize::MAX, false).element_count(), Some(usize::MAX));
}

#[test]
fn element_count_beyond_memory_is_none() {
    assert_eq!(MatShape::<Float32>::new(2, usize::MAX, true).element_count(), None);
    assert_eq!(MatShape::<Float32>::new(usize::MAX, usize::MAX, true).element_count(), None);
}
