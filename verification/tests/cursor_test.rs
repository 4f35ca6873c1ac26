use transformation_cage::cursor::{get_cursor, resize_cursor, MouseCursorIcon};
use transformation_cage::handles::handle_anchors;
use transformation_cage::edges::Anchor;
use transformation_cage::hit::{AxisExcursion, AxisProximity, EdgeProximity, RingProximity};

fn away() -> AxisProximity {
    AxisProximity { reaches_low: true, reaches_high: true, near_low: false, near_high: false, thin: false, flat: false }
}

fn at_low() -> AxisProximity {
    AxisProximity { near_low: true, ..away() }
}

fn at_high() -> AxisProximity {
    AxisProximity { near_high: true, ..away() }
}

fn inside() -> AxisExcursion {
    AxisExcursion { before_low: false, beyond_high: false, reaches_low: true, reaches_high: true }
}

fn just_past() -> AxisExcursion {
    AxisExcursion { beyond_high: true, ..inside() }
}

fn far_past() -> AxisExcursion {
    AxisExcursion { beyond_high: true, reaches_high: false, ..inside() }
}

fn no_ring() -> RingProximity {
    RingProximity { x: inside(), y: inside() }
}

fn in_ring() -> RingProximity {
    RingProximity { x: just_past(), y: inside() }
}

fn no_edges() -> EdgeProximity {
    EdgeProximity { x: away(), y: away() }
}

#[test]
fn single_axis_edges_get_the_axis_cursor() {
    assert_eq!(resize_cursor((true, false, false, false)), MouseCursorIcon::NSResize);
    assert_eq!(resize_cursor((false, true, false, false)), MouseCursorIcon::NSResize);
    assert_eq!(resize_cursor((true, true, false, false)), MouseCursorIcon::NSResize);
    assert_eq!(resize_cursor((false, false, true, false)), MouseCursorIcon::EWResize);
    assert_eq!(resize_cursor((false, false, false, true)), MouseCursorIcon::EWResize);
    assert_eq!(resize_cursor((false, false, true, true)), MouseCursorIcon::EWResize);
}

#[test]
fn corners_get_their_diagonal() {
    assert_eq!(resize_cursor((true, false, true, false)), MouseCursorIcon::NWSEResize);
    assert_eq!(resize_cursor((false, true, false, true)), MouseCursorIcon::NWSEResize);
    assert_eq!(resize_cursor((true, false, false, true)), MouseCursorIcon::NESWResize);
    assert_eq!(resize_cursor((false, true, true, false)), MouseCursorIcon::NESWResize);
}

#[test]
fn crowded_edges_take_the_first_diagonal_that_fits() {
    assert_eq!(resize_cursor((true, true, true, false)), MouseCursorIcon::NWSEResize);
    assert_eq!(resize_cursor((true, true, false, true)), MouseCursorIcon::NWSEResize);
    assert_eq!(resize_cursor((true, false, true, true)), MouseCursorIcon::NWSEResize);
    assert_eq!(resize_cursor((false, true, true, true)), MouseCursorIcon::NWSEResize);
    assert_eq!(resize_cursor((true, true, true, true)), MouseCursorIcon::NWSEResize);
}

#[test]
fn no_edge_gets_the_default_cursor() {
    assert_eq!(resize_cursor((false, false, false, false)), MouseCursorIcon::Default);
    for word in 1u32..16 {
        let directions = (word & 1 != 0, word & 2 != 0, word & 4 != 0, word & 8 != 0);
        let icon = resize_cursor(directions);
        assert_ne!(icon, MouseCursorIcon::Default);
        assert_ne!(icon, MouseCursorIcon::Rotate);
    }
}

#[test]
fn cursor_table_reads_top_to_bottom() {
    for word in 0u32..16 {
        let (top, bottom, left, right) = (word & 1 != 0, word & 2 != 0, word & 4 != 0, word & 8 != 0);
        let expected = if (top || bottom) && !left && !right {
            MouseCursorIcon::NSResize
        } else if !top && !bottom && (left || right) {
            MouseCursorIcon::EWResize
        } else if (top && left) || (bottom && right) {
            MouseCursorIcon::NWSEResize
        } else if (top && right) || (bottom && left) {
            MouseCursorIcon::NESWResize
        } else {
            MouseCursorIcon::Default
        };
        assert_eq!(resize_cursor((top, bottom, left, right)), expected);
    }
}

#[test]
fn resize_comes_before_rotate() {
    let corner = EdgeProximity { x: at_low(), y: at_low() };
    assert_eq!(get_cursor(&corner, &in_ring(), true), MouseCursorIcon::NWSEResize);
    assert_eq!(get_cursor(&corner, &in_ring(), false), MouseCursorIcon::NWSEResize);
    let side = EdgeProximity { x: at_high(), y: away() };
    assert_eq!(get_cursor(&side, &in_ring(), true), MouseCursorIcon::EWResize);
    let end = EdgeProximity { x: away(), y: at_high() };
    assert_eq!(get_cursor(&end, &no_ring(), true), MouseCursorIcon::NSResize);
    let other_corner = EdgeProximity { x: at_high(), y: at_low() };
    assert_eq!(get_cursor(&other_corner, &no_ring(), false), MouseCursorIcon::NESWResize);
}

#[test]
fn rotate_shows_only_where_it_is_allowed() {
    assert_eq!(get_cursor(&no_edges(), &in_ring(), true), MouseCursorIcon::Rotate);
    assert_eq!(get_cursor(&no_edges(), &in_ring(), false), MouseCursorIcon::Default);
    assert_eq!(get_cursor(&no_edges(), &no_ring(), true), MouseCursorIcon::Default);
    let beyond = RingProximity { x: far_past(), y: inside() };
    assert_eq!(get_cursor(&no_edges(), &beyond, true), MouseCursorIcon::Default);
}

#[test]
fn suppressed_edges_fall_through_to_rotate() {
    let flat = AxisProximity { near_low: true, near_high: true, thin: true, flat: true, ..away() };
    let point = EdgeProximity { x: flat, y: flat };
    assert_eq!(point.check_selected_edges(), None);
    assert_eq!(get_cursor(&point, &in_ring(), true), MouseCursorIcon::Rotate);
    assert_eq!(get_cursor(&point, &in_ring(), false), MouseCursorIcon::Default);
}

#[test]
fn handles_come_in_drawing_order() {
    let handles = handle_anchors();
    assert_eq!(
        handles,
        [
            (Anchor::Near, Anchor::Near),
            (Anchor::Near, Anchor::Middle),
            (Anchor::Near, Anchor::Far),
            (Anchor::Middle, Anchor::Near),
            (Anchor::Middle, Anchor::Far),
            (Anchor::Far, Anchor::Near),
            (Anchor::Far, Anchor::Middle),
            (Anchor::Far, Anchor::Far),
        ]
    );
}

#[test]
fn handles_are_distinct_and_skip_the_centre() {
    let handles = handle_anchors();
    for (i, first) in handles.iter().enumerate() {
        assert_ne!(*first, (Anchor::Middle, Anchor::Middle));
        for second in handles.iter().skip(i + 1) {
            assert_ne!(first, second);
        }
    }
}
