use web_server::sensor::almost_equal;

#[test]
fn close_readings_are_almost_equal() {
    assert!(almost_equal(5, 7, 3));
    assert!(almost_equal(7, 5, 3));
    assert!(almost_equal(100, 100, 1));
    assert!(almost_equal(-4, -6, 3));
}

#[test]
fn distant_readings_are_not_almost_equal() {
    assert!(!almost_equal(5, 9, 3));
    assert!(!almost_equal(0, 5, 5));
    assert!(!almost_equal(-10, 10, 20));
}

#[test]
fn tolerance_sign_does_not_matter() {
    assert!(almost_equal(5, 7, -3));
    assert!(!almost_equal(5, 9, -3));
}

#[test]
fn zero_tolerance_matches_nothing() {
    assert!(!almost_equal(3, 3, 0));
}
