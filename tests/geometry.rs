use unsvg::{get_end_coordinates, get_end_coordinates_precise, normalize_direction, quantize};

const FINE_PER_GRID: i64 = 1 << 22;

#[test]
fn normalize_keeps_range() {
    assert_eq!(normalize_direction(0), 0);
    assert_eq!(normalize_direction(359), 359);
    assert_eq!(normalize_direction(360), 0);
    assert_eq!(normalize_direction(725), 5);
    assert_eq!(normalize_direction(-90), 270);
    assert_eq!(normalize_direction(-1), 359);
    assert_eq!(normalize_direction(-360), 0);
    assert_eq!(normalize_direction(i32::MIN), 232);
    assert_eq!(normalize_direction(i32::MAX), 127);
}

#[test]
fn normalize_ignores_whole_turns() {
    for d in [-1000, -90, -1, 0, 45, 359, 1000] {
        for k in [-3, -1, 1, 2] {
            assert_eq!(normalize_direction(d), normalize_direction(d + 360 * k));
        }
    }
}

#[test]
fn quantize_snaps_to_nearest_cell() {
    assert_eq!(quantize(0), 0);
    assert_eq!(quantize(5 * FINE_PER_GRID), 5);
    assert_eq!(quantize(FINE_PER_GRID / 2 - 1), 0);
    assert_eq!(quantize(FINE_PER_GRID / 2), 1);
    assert_eq!(quantize(-FINE_PER_GRID / 2), -1);
    assert_eq!(quantize(-FINE_PER_GRID / 2 + 1), 0);
    assert_eq!(quantize(3 * FINE_PER_GRID + 1), 3);
    assert_eq!(quantize(i64::MAX), 2199023255552);
    assert_eq!(quantize(i64::MIN), -2199023255552);
}

#[test]
fn quantize_is_idempotent() {
    for v in [0, 1, -1, 12345678901, -98765432123, FINE_PER_GRID / 2, i64::MAX / 4, i64::MIN / 4] {
        let q = quantize(v);
        assert_eq!(quantize(q * FINE_PER_GRID), q);
    }
}

#[test]
fn compass_points_are_exact() {
    for l in [0, 1, 37, 100, -20, 1000000] {
        assert_eq!(get_end_coordinates(0, 0, 0, l), (0, -l));
        assert_eq!(get_end_coordinates(0, 0, 90, l), (l, 0));
        assert_eq!(get_end_coordinates(0, 0, 180, l), (0, l));
        assert_eq!(get_end_coordinates(0, 0, 270, l), (-l, 0));
        assert_eq!(get_end_coordinates_precise(0, 0, 90, l), (l as i64 * 256, 0));
    }
}

#[test]
fn end_coordinates_at_other_angles() {
    assert_eq!(get_end_coordinates_precise(10, 10, 120, 100), (24730, 15360));
    assert_eq!(get_end_coordinates(10, 10, 120, 100), (97, 60));
    assert_eq!(get_end_coordinates(97, 60, 240, 100), (10, 110));
    assert_eq!(get_end_coordinates(0, 0, 45, 100), (71, -71));
    assert_eq!(get_end_coordinates(100, 100, 225, 37), (74, 126));
    assert_eq!(get_end_coordinates_precise(0, 0, 1, 1000), (4468, -255961));
    assert_eq!(get_end_coordinates(0, 0, 1, 1000), (17, -1000));
}

#[test]
fn negative_direction_and_length() {
    assert_eq!(get_end_coordinates(0, 0, -90, 50), (-50, 0));
    assert_eq!(get_end_coordinates(5, 5, 30, -20), (-5, 22));
    assert_eq!(get_end_coordinates(5, 5, 210, 20), (-5, 22));
}

#[test]
fn end_coordinates_are_deterministic() {
    let a = get_end_coordinates(3, -7, 1234, 321);
    let b = get_end_coordinates(3, -7, 1234, 321);
    assert_eq!(a, b);
    assert_eq!(get_end_coordinates(3, -7, 1234 - 3 * 360, 321), a);
}

#[test]
fn chained_points_stay_on_grid() {
    let (x1, y1) = get_end_coordinates(10, 10, 120, 100);
    let (x2, y2) = get_end_coordinates(x1, y1, 240, 100);
    let (x3, y3) = get_end_coordinates(x2, y2, 0, 100);
    assert_eq!((x3, y3), (10, 10));
    for v in [x1, y1, x2, y2, x3, y3] {
        let grid = v as i64 * 256;
        assert_eq!(quantize(grid * FINE_PER_GRID), grid);
    }
    let (gx, gy) = get_end_coordinates_precise(x1, y1, 240, 100);
    assert_eq!((gx, gy), (2662, 28160));
}

#[test]
fn largest_coordinates() {
    assert_eq!(get_end_coordinates(i32::MAX, i32::MIN, 90, 0), (i32::MAX, i32::MIN));
    assert_eq!(get_end_coordinates(i32::MAX - 5, 0, 90, 5), (i32::MAX, 0));
    assert_eq!(
        get_end_coordinates_precise(i32::MAX, 0, 90, i32::MAX),
        (2 * (i32::MAX as i64) * 256, 0)
    );
}
