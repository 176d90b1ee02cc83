use slingshot::frame::Frame;
use slingshot::position::Position;
use slingshot::rational::Q;

fn p(x: i64, y: i64) -> Position {
    Position::new(Q::from_int(x), Q::from_int(y))
}

#[test]
fn test_inverse() {
    let pos = p(0, 0);

    let frame = Frame::new(pos);

    let (x, y) = frame.from_units_to_px(pos).unwrap();
    let pos2 = frame.from_px_to_units(x, y).unwrap();

    assert_eq!(pos, pos2);
}

#[test]
fn pixel_world_round_trip_off_origin() {
    let frame = Frame::new(p(-80, -80));
    // pixel -> world -> pixel recovers the pixel, at a corner and inside
    for (x, y) in [(0u32, 160u32), (25, 40), (160, 0), (7, 160)] {
        let world = frame.from_px_to_units(x, y).unwrap();
        assert_eq!(frame.from_units_to_px(world).unwrap(), (x, y));
    }
}

#[test]
fn drawing_coords_requires_overlap() {
    let frame = Frame::new(p(0, 0));
    let bbox = slingshot::level_object::Rect::new(Q::from_int(8), Q::from_int(8));
    // a body inside the viewport is given pixel coordinates
    let inside = p(40, 20);
    assert_eq!(frame.drawing_coords(inside, bbox), Some((40, 140)));
    // a body far outside the viewport is reported not visible
    let outside = p(500, 20);
    assert_eq!(frame.drawing_coords(outside, bbox), None);
}

#[test]
fn frame_moves_by_offset() {
    let mut frame = Frame::new(p(0, 0));
    let moved = frame.mv(slingshot::vector::Vector::new(Q::from_int(3), Q::from_int(-2)));
    assert!(moved);
    assert_eq!(frame.get_position(), p(3, -2));
}
