use pong::{Rectangle, SpriteSize, Vec2};

#[test]
fn vectors_hold_their_coordinates() {
    let v = Vec2::new(3, -4);
    assert_eq!(v.x, 3);
    assert_eq!(v.y, -4);
    assert_eq!(Vec2::zero(), Vec2::new(0, 0));
}

#[test]
fn sprite_size_holds_its_pixels() {
    let s = SpriteSize::new(16, 96);
    assert_eq!(s.width, 16);
    assert_eq!(s.height, 96);
}

#[test]
fn rectangle_intersects_itself_and_what_it_contains() {
    let base = Rectangle::new(2_000, 2_000, 4_000, 4_000);
    let inner = Rectangle::new(2_500, 2_500, 2_000, 2_000);
    assert!(base.intersects(&base));
    assert!(base.intersects(&inner));
    assert!(inner.intersects(&base));
}

#[test]
fn rectangle_intersects_a_partial_overlap() {
    let base = Rectangle::new(2_000, 2_000, 4_000, 4_000);
    let overlapping = Rectangle::new(3_000, 3_000, 4_000, 4_000);
    assert!(base.intersects(&overlapping));
    assert!(overlapping.intersects(&base));
}

#[test]
fn rectangle_does_not_intersect_a_distant_one() {
    let base = Rectangle::new(2_000, 2_000, 4_000, 4_000);
    let separate = Rectangle::new(20_000, 20_000, 4_000, 4_000);
    assert!(!base.intersects(&separate));
    assert!(!separate.intersects(&base));
}

#[test]
fn rectangles_that_share_an_edge_do_not_intersect() {
    let base = Rectangle::new(2_000, 2_000, 4_000, 4_000);
    let right = Rectangle::new(6_000, 2_000, 4_000, 4_000);
    let below = Rectangle::new(2_000, 6_000, 4_000, 4_000);
    assert!(!base.intersects(&right));
    assert!(!right.intersects(&base));
    assert!(!base.intersects(&below));
    assert!(!below.intersects(&base));
}

#[test]
fn rectangles_one_unit_into_each_other_intersect() {
    let base = Rectangle::new(2_000, 2_000, 4_000, 4_000);
    let right = Rectangle::new(5_999, 2_000, 4_000, 4_000);
    assert!(base.intersects(&right));
}

#[test]
fn rectangles_overlapping_on_one_axis_only_do_not_intersect() {
    let base = Rectangle::new(0, 0, 10_000, 10_000);
    let beside = Rectangle::new(5_000, 50_000, 10_000, 10_000);
    assert!(!base.intersects(&beside));
}

#[test]
fn rectangle_edges_beyond_the_stored_range_are_exact() {
    let far = Rectangle::new(i32::MAX, i32::MAX, i32::MAX, i32::MAX);
    let near = Rectangle::new(i32::MAX - 10, i32::MAX - 10, 5, 5);
    let touching = Rectangle::new(i32::MAX - 10, i32::MAX - 10, 11, 11);
    assert!(far.intersects(&far));
    assert!(!far.intersects(&near));
    assert!(far.intersects(&touching));
}
