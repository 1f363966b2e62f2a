use skirmish::geometry::{within, Rect2, Size2, Vector2};

#[test]
fn rect_holds_left_and_top_edges_only() {
    let rect = Rect2::new(Vector2::new(-5000, -5000), Size2::new(10000, 10000));
    assert!(rect.contains(Vector2::new(0, 0)));
    assert!(rect.contains(Vector2::new(-5000, -5000)));
    assert!(!rect.contains(Vector2::new(5000, 0)));
    assert!(!rect.contains(Vector2::new(0, 5000)));
    assert!(!rect.contains(Vector2::new(100000, 100000)));
}

#[test]
fn centered_rect_rounds_half_towards_zero() {
    let rect = Rect2::centered(Vector2::new(0, 0), Size2::new(7, -7));
    assert_eq!(rect.origin, Vector2::new(-3, 3));
    let far = Rect2::centered(Vector2::new(i32::MIN, i32::MAX), Size2::new(10, -10));
    assert_eq!(far.origin, Vector2::new(i32::MIN, i32::MAX));
}

#[test]
fn within_compares_squared_distance() {
    let a = Vector2::new(0, 0);
    assert!(within(a, Vector2::new(3, 4), 6));
    assert!(!within(a, Vector2::new(3, 4), 5));
    assert!(!within(a, Vector2::new(3, 4), 0));
    assert!(!within(Vector2::new(i32::MIN, i32::MIN), Vector2::new(i32::MAX, i32::MAX), i32::MAX));
    assert!(within(Vector2::new(i32::MIN, 0), Vector2::new(i32::MIN + 1, 0), 2));
}
