use bevy_ui_nav::focus_node::FocusNode;
use bevy_ui_nav::types::UiNavDirection;
use bevy_ui_nav::utils::{
    distance_between_aabbs, distance_equal, distance_sq_between_aabbs, f32_equal, f32_lerp,
    floor_sqrt, overlap_between_aabbs, Aabb2d, Vec2, UNITS_PER_PIXEL,
};

fn units(pixels: f64) -> i32 {
    (pixels * UNITS_PER_PIXEL as f64).round() as i32
}

fn node(x: f64, y: f64, w: f64, h: f64) -> FocusNode {
    FocusNode {
        menu: None,
        size: Vec2::new(units(w), units(h)),
        position: Vec2::new(units(x), units(y)),
        is_priority: false,
    }
}

#[test]
fn f32_lerp_works() {
    assert_eq!(f32_lerp(units(0.0) as i64, units(1.0) as i64, 1, 2), units(0.5) as i64);
    assert_eq!(f32_lerp(units(1.0) as i64, units(0.0) as i64, 1, 2), units(0.5) as i64);
    assert_eq!(f32_lerp(units(-2.0) as i64, units(-1.0) as i64, 1, 2), units(-1.5) as i64);
}

#[test]
fn f32_lerp_hits_both_ends_and_rounds_down() {
    assert_eq!(f32_lerp(500_000, 100_000, 0, 1_000_000), 500_000);
    assert_eq!(f32_lerp(500_000, 100_000, 1_000_000, 1_000_000), 100_000);
    assert_eq!(f32_lerp(500_000, 100_000, 250_000, 1_000_000), 400_000);
    assert_eq!(f32_lerp(0, 1, 1, 2), 0);
    assert_eq!(f32_lerp(0, -1, 1, 2), -1);
    assert_eq!(f32_lerp(-7, 8, 1, 3), -2);
}

#[test]
fn f32_equal_works() {
    assert!(f32_equal(units(0.0) as i64, units(0.0) as i64));
    assert!(f32_equal(units(0.00000001) as i64, units(0.00000002) as i64));
}

#[test]
fn f32_equal_tells_lattice_points_apart() {
    assert!(!f32_equal(0, 1));
    assert!(!f32_equal(1, 0));
    assert!(!f32_equal(i64::MIN, i64::MAX));
    assert!(f32_equal(-5, -5));
}

#[test]
fn distance_between_aabbs_works() {
    //           *---------*
    //           |  aabb1  |
    //           *---------*
    //           | <-- distance = spacer
    // *---------*
    // |  aabb2  |
    // *---------*
    let half_size = Vec2::new(units(50.), units(10.));
    let aabb1 = Aabb2d::new(Vec2::new(0, 0), half_size);
    let aabb2 = Aabb2d::new(
        Vec2::new(half_size.x * 2, half_size.y * 2 + units(10.)),
        half_size,
    );
    let distance = distance_between_aabbs(&aabb1, &aabb2);
    assert_eq!(distance, units(10.) as u64);
}

#[test]
fn overlap_between_aabbs_works() {
    // spacer
    // |
    // v  *---------*
    //    |  aabb1  |
    //    *---------*
    //    [      ] <---- overlap.x
    // *---------*
    // |  aabb2  |
    // *---------*
    let half_size = Vec2::new(units(50.), units(10.));
    let spacer = units(10.);
    let aabb1 = Aabb2d::new(Vec2::new(0, 0), half_size);
    let aabb2 = Aabb2d::new(Vec2::new(spacer, half_size.y * 2 + spacer), half_size);
    let overlap = overlap_between_aabbs(&aabb1, &aabb2);
    assert_eq!(overlap.x, (half_size.x * 2 - spacer) as i64);
    assert_eq!(overlap.y, -spacer as i64);
}

#[test]
fn distance_is_between_nearest_corners() {
    // a: x in [0, 80], y in [0, 20]; b: x in [100, 180], y in [5, 25].
    let a = Aabb2d::new(Vec2::new(40, 10), Vec2::new(40, 10));
    let b = Aabb2d::new(Vec2::new(140, 15), Vec2::new(40, 10));
    assert_eq!(distance_sq_between_aabbs(&a, &b), 20 * 20 + 5 * 5);
    assert_eq!(distance_between_aabbs(&a, &b), 20);
}

#[test]
fn distance_is_symmetric() {
    let a = Aabb2d::new(Vec2::new(-7, 12), Vec2::new(3, 9));
    let b = Aabb2d::new(Vec2::new(120, -40), Vec2::new(15, 2));
    assert_eq!(distance_sq_between_aabbs(&a, &b), distance_sq_between_aabbs(&b, &a));
    assert_eq!(overlap_between_aabbs(&a, &b), overlap_between_aabbs(&b, &a));
    let n = node(0., 0., 80., 30.);
    let m = node(100., 50., 60., 20.);
    assert_eq!(n.distance_to(&m).total, m.distance_to(&n).total);
}

#[test]
fn distance_at_the_ends_of_the_lattice() {
    let a = Aabb2d::new(Vec2::new(i32::MIN, i32::MIN), Vec2::new(i32::MAX, i32::MAX));
    let b = Aabb2d::new(Vec2::new(i32::MAX, i32::MAX), Vec2::new(i32::MIN, i32::MIN));
    let d = distance_sq_between_aabbs(&a, &b);
    let r = distance_between_aabbs(&a, &b) as u128;
    assert!(r * r <= d && d < (r + 1) * (r + 1));
}

#[test]
fn floor_sqrt_rounds_down() {
    assert_eq!(floor_sqrt(0), 0);
    assert_eq!(floor_sqrt(1), 1);
    assert_eq!(floor_sqrt(3), 1);
    assert_eq!(floor_sqrt(4), 2);
    assert_eq!(floor_sqrt(99), 9);
    assert_eq!(floor_sqrt(100), 10);
    assert_eq!(floor_sqrt(10_000_000_000), 100_000);
    assert_eq!(floor_sqrt(0x8_0000_0000_0000_0000), 12_148_001_999);
    assert_eq!(floor_sqrt(u128::MAX), u64::MAX);
    assert_eq!(floor_sqrt((u64::MAX as u128) * (u64::MAX as u128) - 1), u64::MAX - 1);
}

#[test]
fn distance_equal_compares_roots() {
    // sqrt(100) = 10 and sqrt(119) = 10.9..: less than one apart.
    assert!(distance_equal(100, 119));
    assert!(distance_equal(119, 100));
    // sqrt(100) = 10 and sqrt(121) = 11: exactly one apart.
    assert!(!distance_equal(100, 121));
    assert!(distance_equal(0, 0));
    assert!(!distance_equal(0, 4));
    assert!(!distance_equal(0, 0x8_0000_0000_0000_0000));
    assert!(distance_equal(u128::MAX, u128::MAX - 1));
    assert!(!distance_equal(u128::MAX, 0));
    // sqrt(10_000) = 100 and sqrt(10_200) = 100.99..
    assert!(distance_equal(10_000, 10_200));
    assert!(!distance_equal(10_000, 10_201));
}

#[test]
fn distance_equal_at_the_smallest_distances() {
    // sqrt(1) - sqrt(0) = 1 is not less than one.
    assert!(!distance_equal(0, 1));
    assert!(!distance_equal(1, 0));
    // sqrt(2) - sqrt(1) = 0.41..
    assert!(distance_equal(1, 2));
    // sqrt(4) - sqrt(1) = 1.
    assert!(!distance_equal(1, 4));
    assert!(distance_equal(1, 3));
}

#[test]
fn node_to_the_right_is_right_only() {
    let a = node(0., 0., 80., 30.);
    let b = node(100., 0., 80., 30.);
    let d = a.distance_to(&b);
    assert!(d.is_right);
    assert!(!d.is_left);
    assert!(!d.is_up);
    assert!(!d.is_down);
    assert!(!d.is_overlap_x);
    assert!(d.is_overlap_y);
    assert_eq!(d.overlap_y, units(30.) as i64);
    assert_eq!(d.overlap_x, -(units(20.) as i64));
    assert!(d.is_in_direction(UiNavDirection::Right));
    assert!(!d.is_in_direction(UiNavDirection::Left));
    assert!(!d.is_in_direction(UiNavDirection::UpRight));
    assert!(d.is_along_axis(UiNavDirection::Left));
    assert!(!d.is_along_axis(UiNavDirection::Up));
    let back = b.distance_to(&a);
    assert!(back.is_left);
    assert!(!back.is_right);
}

#[test]
fn node_below_and_right_is_down_right() {
    let a = node(0., 0., 80., 30.);
    let b = node(100., 50., 80., 30.);
    let d = a.distance_to(&b);
    assert!(d.is_right && d.is_down && !d.is_left && !d.is_up);
    assert!(d.is_in_direction(UiNavDirection::DownRight));
    assert!(!d.is_in_direction(UiNavDirection::DownLeft));
    assert!(d.is_along_axis(UiNavDirection::UpLeft));
    assert!(!d.is_along_axis(UiNavDirection::UpRight));
    assert_eq!(d.total, (units(20.) as u128).pow(2) * 2);
}

#[test]
fn aabb_of_node_halves_size_toward_zero() {
    let n = FocusNode {
        menu: None,
        size: Vec2::new(7, -7),
        position: Vec2::new(10, 20),
        is_priority: false,
    };
    let aabb = n.get_aabb();
    assert_eq!(aabb.half_size, Vec2::new(3, -3));
    assert_eq!(aabb.center, Vec2::new(10, 20));
    assert_eq!((aabb.left(), aabb.right(), aabb.top(), aabb.bottom()), (7, 13, 23, 17));
}
