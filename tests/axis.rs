use muscle::Axis;

#[test]
fn axis_indices() {
    assert_eq!(Axis::X.index(), 0);
    assert_eq!(Axis::Y.index(), 1);
    assert_eq!(Axis::Z.index(), 2);
}

#[test]
fn axis_equality() {
    assert_eq!(Axis::Y, Axis::Y);
    assert_ne!(Axis::X, Axis::Z);
}

#[test]
fn row_delta_both_directions() {
    assert_eq!(muscle::row_delta(0, 10), 10);
    assert_eq!(muscle::row_delta(10, 0), -10);
    assert_eq!(muscle::row_delta(-5, 5), 10);
    assert_eq!(muscle::row_delta(7, 7), 0);
}

#[test]
fn row_delta_at_range_ends() {
    assert_eq!(muscle::row_delta(0, i16::MAX), i16::MAX);
    assert_eq!(muscle::row_delta(i16::MIN, -1), i16::MAX);
    assert_eq!(muscle::row_delta(0, i16::MIN), i16::MIN);
    assert_eq!(muscle::row_delta(i16::MAX, 0), -i16::MAX);
}
