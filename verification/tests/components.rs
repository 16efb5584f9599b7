use rogue_turns::components::{FieldOfView, Position};

#[test]
fn dist_is_the_larger_of_the_two_differences() {
    let a = Position { x: 3, y: 4 };
    assert_eq!(a.dist(&Position { x: 3, y: 4 }), 0);
    assert_eq!(a.dist(&Position { x: 5, y: 5 }), 2);
    assert_eq!(a.dist(&Position { x: 4, y: -6 }), 10);
    assert_eq!(a.dist(&Position { x: -7, y: 4 }), 10);
    assert_eq!(Position { x: 5, y: 5 }.dist(&a), 2);
}

#[test]
fn dist_at_the_limits() {
    let a = Position { x: 0, y: 0 };
    assert_eq!(a.dist(&Position { x: i32::MAX, y: 0 }), i32::MAX);
    assert_eq!(a.dist(&Position { x: 0, y: -i32::MAX }), i32::MAX);
}

#[test]
fn span_covers_every_pair_of_cells() {
    let a = Position { x: i32::MIN, y: i32::MIN };
    let b = Position { x: i32::MAX, y: 0 };
    assert_eq!(a.span(&b), u32::MAX);
    assert_eq!(b.span(&a), u32::MAX);
    assert_eq!(a.span(&a), 0);
    assert_eq!(Position { x: 1, y: 9 }.span(&Position { x: 4, y: 7 }), 3);
}

#[test]
fn position_to_and_from_pair() {
    let pos = Position { x: -2, y: 9 };
    let pair: (i32, i32) = (&pos).into();
    assert_eq!(pair, (-2, 9));
    assert_eq!(Position::from((7, -1)), Position { x: 7, y: -1 });
}

#[test]
fn new_field_of_view_is_empty_and_dirty() {
    let fov = FieldOfView::new(8);
    assert!(fov.tiles.is_empty());
    assert_eq!(fov.range, 8);
    assert!(fov.dirty);
    assert!(!fov.mark);
}
