use chartistry::bounds::Bounds;
use chartistry::projection::Projection;
use chartistry::ratio::Ratio;

fn assert_coords(p: &Projection, (pos_x, pos_y): (i64, i64), (svg_x, svg_y): (i64, i64)) {
    let px = Ratio::from_int(pos_x);
    let py = Ratio::from_int(pos_y);
    let (sx, sy) = p.position_to_svg(&px, &py);
    assert!(sx.eq_int(svg_x));
    assert!(sy.eq_int(svg_y));
    let (bx, by) = p.svg_to_position(&sx, &sy);
    assert!(bx.eq_int(pos_x));
    assert!(by.eq_int(pos_y));
}

#[test]
fn test_projection() {
    let range = Bounds::from_points(0, 0, 100, 100);
    let bounds = Bounds::from_points(10, 10, 90, 90);
    let p = Projection::new(bounds, range);

    // Data range -> view bounds
    assert_coords(&p, (0, 0), (10, 90)); // Bottom left
    assert_coords(&p, (100, 0), (90, 90)); // Bottom right
    assert_coords(&p, (0, 100), (10, 10)); // Top left
    assert_coords(&p, (100, 100), (90, 10)); // Top right
    assert_coords(&p, (50, 50), (50, 50)); // Centre
}

#[test]
fn test_incl_zero() {
    let bounds = Bounds::from_points(10, 10, 90, 90);
    let range = Bounds::from_points(0, 0, 200, 200);
    let p = Projection::new(bounds, range);

    // Data range (0, 0) to (200, 200) -> view bounds
    assert_coords(&p, (0, 0), (10, 90)); // Bottom left
    assert_coords(&p, (200, 0), (90, 90)); // Bottom right
    assert_coords(&p, (0, 200), (10, 10)); // Top left
    assert_coords(&p, (200, 200), (90, 10)); // Top right
    assert_coords(&p, (100, 100), (50, 50)); // Centre
}

#[test]
fn test_partial_eq() {
    let bounds = Bounds::from_points(10, 10, 90, 90);
    let p = Projection::new(bounds, bounds);
    assert_eq!(p, p.clone());
}

#[test]
fn projections_from_equal_inputs_are_equal() {
    let bounds = Bounds::from_points(10, 10, 90, 90);
    let range = Bounds::from_points(0, 0, 100, 100);
    let a = Projection::new(bounds, range);
    let b = Projection::new(bounds, range);
    assert_eq!(a, b);
}

#[test]
fn zero_extent_range_does_not_fault() {
    let bounds = Bounds::from_points(10, 10, 90, 90);
    let range = Bounds::from_points(5, 5, 5, 5);
    let p = Projection::new(bounds, range);
    // The degenerate axis scales by surface extent / 1 instead of dividing
    // by the zero data extent.
    let (sx, sy) = p.position_to_svg(&Ratio::from_int(5), &Ratio::from_int(5));
    assert!(sx.eq_int(10));
    assert!(sy.eq_int(90));
    let (sx2, sy2) = p.position_to_svg(&Ratio::from_int(6), &Ratio::from_int(5));
    // One data unit moves a full surface width: 10 + (6 - 5) * 80.
    assert!(sx2.eq_int(90));
    assert!(sy2.eq_int(90));
}

#[test]
fn round_trip_fractional_point() {
    let bounds = Bounds::from_points(10, 10, 90, 90);
    let range = Bounds::from_points(0, 0, 100, 100);
    let p = Projection::new(bounds, range);
    let px = Ratio::new(1, 3);
    let py = Ratio::new(7, 2);
    let (sx, sy) = p.position_to_svg(&px, &py);
    let (bx, by) = p.svg_to_position(&sx, &sy);
    assert!(bx.eqv(&px));
    assert!(by.eqv(&py));
}

#[test]
fn ratio_equivalence() {
    assert!(Ratio::new(1, 2).eqv(&Ratio::new(2, 4)));
    assert!(!Ratio::new(1, 2).eqv(&Ratio::new(2, 3)));
    assert!(Ratio::new(14, 7).eq_int(2));
    assert!(!Ratio::new(15, 7).eq_int(2));
    assert!(Ratio::from_int(-3).eq_int(-3));
}
