use rover_core::input::AxisTransformation;

#[test]
fn linear_returns_input_unchanged() {
    assert_eq!(AxisTransformation::Linear.transform(500), 500);
    assert_eq!(AxisTransformation::Linear.transform(-300), -300);
    assert_eq!(AxisTransformation::Linear.transform(0), 0);
    assert_eq!(AxisTransformation::Linear.transform(1000), 1000);
    assert_eq!(AxisTransformation::Linear.transform(-1000), -1000);
}

#[test]
fn square_computes_signed_square() {
    // 0.5 squared is 0.25
    assert_eq!(AxisTransformation::Square.transform(500), 250);
    // -0.3 squared, sign kept: -0.09
    assert_eq!(AxisTransformation::Square.transform(-300), -90);
    assert_eq!(AxisTransformation::Square.transform(0), 0);
    assert_eq!(AxisTransformation::Square.transform(1000), 1000);
    assert_eq!(AxisTransformation::Square.transform(-1000), -1000);
    // 0.023 is the smallest magnitude whose square rounds to a step of its
    // own; 23 * 23 = 529, which rounds to 1
    assert_eq!(AxisTransformation::Square.transform(23), 1);
    assert_eq!(AxisTransformation::Square.transform(-23), -1);
}

#[test]
fn square_preserves_sign_for_every_nonzero_input() {
    // A nonzero input whose square would round to zero is held at the
    // smallest step instead, so the sign survives
    assert_eq!(AxisTransformation::Square.transform(1), 1);
    assert_eq!(AxisTransformation::Square.transform(-1), -1);
    assert_eq!(AxisTransformation::Square.transform(10), 1);
    assert_eq!(AxisTransformation::Square.transform(-10), -1);
    assert_eq!(AxisTransformation::Square.transform(22), 1);
    for x in (-1000..=1000).filter(|x| *x != 0) {
        let r = AxisTransformation::Square.transform(x);
        assert_eq!(r.signum(), x.signum());
    }
}

#[test]
fn square_magnitude_never_exceeds_input_magnitude() {
    for x in [-1000, -999, -501, -23, -1, 0, 1, 22, 500, 999, 1000] {
        let r = AxisTransformation::Square.transform(x);
        assert!(r.abs() <= x.abs());
    }
}

#[test]
fn default_transformation_is_linear() {
    assert_eq!(AxisTransformation::default(), AxisTransformation::Linear);
}
