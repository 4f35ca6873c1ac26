//! The cursor to show over the cage.

use vstd::prelude::*;
use crate::edges::Constraint;
use crate::edges::SelectedEdges;
use crate::hit::EdgeProximity;
use crate::hit::RingProximity;

verus! {

/// The cursors that the cage asks for.
#[derive(Clone, Copy, Debug, PartialEq, Eq, Structural)]
pub enum MouseCursorIcon {
    Default,
    /// Resize along the vertical: the top or the bottom edge.
    NSResize,
    /// Resize along the horizontal: the left or the right edge.
    EWResize,
    /// Resize along the diagonal from top left to bottom right.
    NWSEResize,
    /// Resize along the diagonal from top right to bottom left.
    NESWResize,
    Rotate,
}

impl MouseCursorIcon {
    /// One of the four resize cursors.
    pub open spec fn is_resize(&self) -> bool {
        *self == MouseCursorIcon::NSResize || *self == MouseCursorIcon::EWResize
            || *self == MouseCursorIcon::NWSEResize || *self == MouseCursorIcon::NESWResize
    }
}

/// The cursor for a set of edges, given in the order top, bottom, left,
/// right. Edges of one axis only give that axis's cursor. Edges of both axes
/// give a diagonal: the one through the top left and bottom right corners
/// where top meets left or bottom meets right, else the other one.
pub open spec fn spec_resize_cursor(directions: (bool, bool, bool, bool)) -> MouseCursorIcon {
    let (top, bottom, left, right) = directions;
    if !(top || bottom) && !(left || right) {
        MouseCursorIcon::Default
    } else if !(left || right) {
        MouseCursorIcon::NSResize
    } else if !(top || bottom) {
        MouseCursorIcon::EWResize
    } else if (top && left) || (bottom && right) {
        MouseCursorIcon::NWSEResize
    } else {
        MouseCursorIcon::NESWResize
    }
}

/// The cursor over the cage: resizing comes before rotating, and rotating
/// only where it is allowed.
pub open spec fn spec_get_cursor(
    edges: &EdgeProximity,
    ring: &RingProximity,
    rotate: bool,
) -> MouseCursorIcon {
    match edges.spec_check_selected_edges() {
        Some(directions) => spec_resize_cursor(directions),
        None => if rotate && ring.spec_check_rotate() {
            MouseCursorIcon::Rotate
        } else {
            MouseCursorIcon::Default
        },
    }
}

/// Picks the resize cursor for the edges in `directions` (top, bottom, left,
/// right), and the default cursor where no edge is set.
#[verifier::when_used_as_spec(spec_resize_cursor)]
pub fn resize_cursor(directions: (bool, bool, bool, bool)) -> (icon: MouseCursorIcon)
    ensures
        icon == spec_resize_cursor(directions),
        icon != MouseCursorIcon::Rotate,
        icon == MouseCursorIcon::Default <==> !(directions.0 || directions.1 || directions.2
            || directions.3),
{
    match directions {
        (true, _, false, false) | (_, true, false, false) => MouseCursorIcon::NSResize,
        (false, false, true, _) | (false, false, _, true) => MouseCursorIcon::EWResize,
        (true, _, true, _) | (_, true, _, true) => MouseCursorIcon::NWSEResize,
        (true, _, _, true) | (_, true, true, _) => MouseCursorIcon::NESWResize,
        _ => MouseCursorIcon::Default,
    }
}

/// The resize cursor shows what the drag of the same edges does: along one
/// axis where an aspect lock keeps that axis's side, along a diagonal where a
/// corner is dragged, and nothing where no edge is. Where one edge of each
/// axis is dragged, the diagonal is the one on which the pivot lies across
/// from the dragged corner.
pub proof fn lemma_cursor_shows_the_drag(edges: SelectedEdges)
    ensures
        ({
            let icon = spec_resize_cursor((edges.top, edges.bottom, edges.left, edges.right));
            let pivot = edges.spec_calculate_pivot();
            &&& edges.spec_constraint() == Constraint::Free <==> icon == MouseCursorIcon::Default
            &&& edges.spec_constraint() == Constraint::WidthFromHeight <==> icon
                == MouseCursorIcon::NSResize
            &&& edges.spec_constraint() == Constraint::HeightFromWidth <==> icon
                == MouseCursorIcon::EWResize
            &&& edges.spec_constraint() == Constraint::Corner <==> icon
                == MouseCursorIcon::NWSEResize || icon == MouseCursorIcon::NESWResize
            &&& edges.top != edges.bottom && edges.left != edges.right ==> (icon
                == MouseCursorIcon::NWSEResize <==> pivot.0 == pivot.1)
        }),
{
}

/// Resolves the cursor for one pointer position from its two readings.
///
/// Where the pointer has hold of an edge, the cursor is that of the edges,
/// and always one of the four resize cursors. Else, where `rotate` is set and
/// the pointer sits in the rotate ring, it is the rotate cursor. Else it is
/// the default one.
#[verifier::when_used_as_spec(spec_get_cursor)]
pub fn get_cursor(edges: &EdgeProximity, ring: &RingProximity, rotate: bool) -> (icon:
    MouseCursorIcon)
    ensures
        icon == spec_get_cursor(edges, ring, rotate),
        icon.is_resize() <==> edges.spec_check_selected_edges() is Some,
        icon == MouseCursorIcon::Rotate <==> edges.spec_check_selected_edges() is None && rotate
            && ring.spec_check_rotate(),
{
    if let Some(directions) = edges.check_selected_edges() {
        resize_cursor(directions)
    } else if rotate && ring.check_rotate() {
        MouseCursorIcon::Rotate
    } else {
        MouseCursorIcon::Default
    }
}

} // verus!
