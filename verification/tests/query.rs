use point_editor::point::Point;
use point_editor::query::find_nearest;

fn pts(coords: &[(i32, i32)]) -> Vec<Point> {
    coords.iter().map(|&(x, y)| Point::new(x, y)).collect()
}

#[test]
fn distance_squared_is_sum_of_squares() {
    let a = Point::new(3, -4);
    let b = Point::new(0, 0);
    assert_eq!(a.distance_squared_to(&b), 25);
    assert_eq!(b.distance_squared_to(&a), 25);
    assert_eq!(a.distance_squared_to(&a), 0);
    assert_eq!(Point::new(-7, 2).distance_squared_to(&Point::new(5, -3)), 144 + 25);
}

#[test]
fn distance_squared_fits_at_the_corners_of_the_plane() {
    let low = Point::new(i32::MIN, i32::MIN);
    let high = Point::new(i32::MAX, i32::MAX);
    let side: u128 = u32::MAX as u128;
    assert_eq!(low.distance_squared_to(&high), 2 * side * side);
    assert_eq!(high.distance_squared_to(&low), 2 * side * side);
}

#[test]
fn empty_store_has_no_nearest_point() {
    let points: Vec<Point> = Vec::new();
    assert_eq!(find_nearest(&points, Point::new(0, 0), 20), None);
    assert_eq!(find_nearest(&points, Point::new(0, 0), u32::MAX), None);
}

#[test]
fn nearest_of_two_points_with_radius_twenty() {
    let points = pts(&[(0, 0), (100, 0)]);
    assert_eq!(find_nearest(&points, Point::new(5, 0), 20), Some(0));
    assert_eq!(find_nearest(&points, Point::new(50, 0), 20), None);
    assert_eq!(find_nearest(&points, Point::new(98, 0), 20), Some(1));
}

#[test]
fn query_twice_gives_the_same_answer() {
    let points = pts(&[(4, 4), (-3, 9), (10, 10), (4, 5)]);
    for &(x, y) in &[(0, 0), (4, 4), (9, 9), (1000, 1000), (-3, 8)] {
        let q = Point::new(x, y);
        let first = find_nearest(&points, q, 20);
        let second = find_nearest(&points, q, 20);
        assert_eq!(first, second);
    }
}

#[test]
fn tie_goes_to_the_lower_index() {
    let points = pts(&[(10, 0), (-10, 0)]);
    assert_eq!(find_nearest(&points, Point::new(0, 0), 20), Some(0));
    let swapped = pts(&[(-10, 0), (10, 0)]);
    assert_eq!(find_nearest(&swapped, Point::new(0, 0), 20), Some(0));
}

#[test]
fn tie_among_later_points_goes_to_the_first_of_them() {
    let points = pts(&[(15, 0), (0, 5), (5, 0), (0, -5), (-5, 0)]);
    assert_eq!(find_nearest(&points, Point::new(0, 0), 20), Some(1));
}

#[test]
fn duplicate_positions_pick_the_first() {
    let points = pts(&[(7, 7), (7, 7), (7, 7)]);
    assert_eq!(find_nearest(&points, Point::new(7, 7), 0), Some(0));
    assert_eq!(find_nearest(&points, Point::new(8, 7), 20), Some(0));
}

#[test]
fn closer_point_wins_whatever_its_index() {
    let points = pts(&[(10, 0), (3, 0), (6, 0)]);
    assert_eq!(find_nearest(&points, Point::new(0, 0), 20), Some(1));
    assert_eq!(find_nearest(&points, Point::new(11, 0), 20), Some(0));
    assert_eq!(find_nearest(&points, Point::new(7, 0), 20), Some(2));
}

#[test]
fn point_at_exactly_the_radius_is_included() {
    let points = pts(&[(20, 0)]);
    assert_eq!(find_nearest(&points, Point::new(0, 0), 20), Some(0));
    let diagonal = pts(&[(12, 16)]);
    assert_eq!(find_nearest(&diagonal, Point::new(0, 0), 20), Some(0));
    let negative = pts(&[(-12, -16)]);
    assert_eq!(find_nearest(&negative, Point::new(0, 0), 20), Some(0));
}

#[test]
fn point_just_beyond_the_radius_is_excluded() {
    let points = pts(&[(21, 0)]);
    assert_eq!(find_nearest(&points, Point::new(0, 0), 20), None);
    let off_axis = pts(&[(20, 1)]);
    assert_eq!(find_nearest(&off_axis, Point::new(0, 0), 20), None);
    let diagonal = pts(&[(15, 14)]);
    assert_eq!(find_nearest(&diagonal, Point::new(0, 0), 20), None);
}

#[test]
fn far_points_do_not_hide_a_near_one() {
    let points = pts(&[(500, 500), (-500, 2), (1, 1), (21, 0)]);
    assert_eq!(find_nearest(&points, Point::new(0, 0), 20), Some(2));
}

#[test]
fn radius_zero_finds_only_the_exact_position() {
    let points = pts(&[(1, 0), (0, 0)]);
    assert_eq!(find_nearest(&points, Point::new(0, 0), 0), Some(1));
    assert_eq!(find_nearest(&points, Point::new(0, 1), 0), None);
}

#[test]
fn largest_radius_reaches_most_of_the_plane() {
    let points = pts(&[(i32::MAX, 0), (i32::MIN, 0)]);
    assert_eq!(find_nearest(&points, Point::new(0, 0), u32::MAX), Some(0));
    assert_eq!(find_nearest(&points, Point::new(-1, 0), u32::MAX), Some(1));
    let corners = pts(&[(i32::MAX, i32::MAX)]);
    assert_eq!(find_nearest(&corners, Point::new(i32::MIN, i32::MIN), u32::MAX), None);
    let side = pts(&[(i32::MAX, i32::MIN)]);
    assert_eq!(find_nearest(&side, Point::new(i32::MIN, i32::MIN), u32::MAX), Some(0));
}
