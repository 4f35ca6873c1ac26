//! The edges that a resize gesture has hold of, and what follows from them.

use vstd::prelude::*;

verus! {

/// The edge of one axis that a resize gesture drags.
#[derive(Clone, Copy, Debug, PartialEq, Eq, Structural)]
pub enum AxisDrag {
    /// No edge of this axis is dragged.
    Idle,
    /// The edge through the box's first corner (top or left).
    Near,
    /// The edge through the box's second corner (bottom or right).
    Far,
}

/// A place along one axis of a box, named by the box's own corners: the
/// corners are taken as stored and are not ordered, so that a box dragged
/// past its opposite edge stays representable.
#[derive(Clone, Copy, Debug, PartialEq, Eq, Structural)]
pub enum Anchor {
    /// The first corner's coordinate.
    Near,
    /// Halfway between the two corners' coordinates.
    Middle,
    /// The second corner's coordinate.
    Far,
}

/// How an aspect lock derives the size of the resized box.
#[derive(Clone, Copy, Debug, PartialEq, Eq, Structural)]
pub enum Constraint {
    /// No edge is dragged: the size stays as it is.
    Free,
    /// A corner is dragged: of the two sizes that keep the ratio, one matching
    /// the width and one matching the height, each side takes the larger
    /// magnitude and keeps its own sign.
    Corner,
    /// Only the top or the bottom edge is dragged: the height is kept and the
    /// width follows from it.
    WidthFromHeight,
    /// Only the left or the right edge is dragged: the width is kept and the
    /// height follows from it.
    HeightFromWidth,
}

/// The edge dragged on one axis, given which of its two edges are active.
/// Where both are, the near edge is the one that moves.
pub open spec fn dragged(near: bool, far: bool) -> AxisDrag {
    if near {
        AxisDrag::Near
    } else if far {
        AxisDrag::Far
    } else {
        AxisDrag::Idle
    }
}

/// The place that stays fixed on an axis while `drag` moves: the edge across
/// from the dragged one, or the middle where nothing is dragged.
pub open spec fn opposite(drag: AxisDrag) -> Anchor {
    match drag {
        AxisDrag::Near => Anchor::Far,
        AxisDrag::Far => Anchor::Near,
        AxisDrag::Idle => Anchor::Middle,
    }
}

/// The edges of the box that one resize gesture drags. Made once when the
/// gesture begins, from the edges that the hit test found, and read until it
/// ends.
#[derive(Clone, Copy, Debug, PartialEq, Eq, Structural)]
pub struct SelectedEdges {
    pub top: bool,
    pub bottom: bool,
    pub left: bool,
    pub right: bool,
}

impl SelectedEdges {
    /// Whether any edge at all is dragged.
    pub open spec fn any(&self) -> bool {
        self.top || self.bottom || self.left || self.right
    }

    pub open spec fn spec_horizontal(&self) -> AxisDrag {
        dragged(self.left, self.right)
    }

    pub open spec fn spec_vertical(&self) -> AxisDrag {
        dragged(self.top, self.bottom)
    }

    pub open spec fn spec_calculate_pivot(&self) -> (Anchor, Anchor) {
        (opposite(self.spec_horizontal()), opposite(self.spec_vertical()))
    }

    pub open spec fn spec_constraint(&self) -> Constraint {
        if self.spec_vertical() != AxisDrag::Idle && self.spec_horizontal() != AxisDrag::Idle {
            Constraint::Corner
        } else if self.spec_vertical() != AxisDrag::Idle {
            Constraint::WidthFromHeight
        } else if self.spec_horizontal() != AxisDrag::Idle {
            Constraint::HeightFromWidth
        } else {
            Constraint::Free
        }
    }

    /// Records the edges in drag.
    pub fn new(top: bool, bottom: bool, left: bool, right: bool) -> (edges: Self)
        ensures
            edges == (SelectedEdges { top, bottom, left, right }),
    {
        SelectedEdges { top, bottom, left, right }
    }

    /// The corner coordinate that follows the pointer on the x axis: the
    /// first corner's for the left edge, the second corner's for the right
    /// edge. The left edge wins where both are set.
    #[verifier::when_used_as_spec(spec_horizontal)]
    pub fn horizontal(&self) -> (drag: AxisDrag)
        ensures
            drag == self.spec_horizontal(),
            drag == AxisDrag::Idle <==> !self.left && !self.right,
    {
        if self.left {
            AxisDrag::Near
        } else if self.right {
            AxisDrag::Far
        } else {
            AxisDrag::Idle
        }
    }

    /// The corner coordinate that follows the pointer on the y axis: the
    /// first corner's for the top edge, the second corner's for the bottom
    /// edge. The top edge wins where both are set.
    #[verifier::when_used_as_spec(spec_vertical)]
    pub fn vertical(&self) -> (drag: AxisDrag)
        ensures
            drag == self.spec_vertical(),
            drag == AxisDrag::Idle <==> !self.top && !self.bottom,
    {
        if self.top {
            AxisDrag::Near
        } else if self.bottom {
            AxisDrag::Far
        } else {
            AxisDrag::Idle
        }
    }

    /// The pivot of the resize, as a place on the x axis and one on the y
    /// axis of the box: the point across from the dragged edges, which an
    /// ordinary resize leaves where it is.
    #[verifier::when_used_as_spec(spec_calculate_pivot)]
    pub fn calculate_pivot(&self) -> (pivot: (Anchor, Anchor))
        ensures
            pivot == self.spec_calculate_pivot(),
            pivot.0 == Anchor::Middle <==> !self.left && !self.right,
            pivot.1 == Anchor::Middle <==> !self.top && !self.bottom,
            self.left ==> pivot.0 == Anchor::Far,
            self.top ==> pivot.1 == Anchor::Far,
    {
        let x = if self.left {
            Anchor::Far
        } else if self.right {
            Anchor::Near
        } else {
            Anchor::Middle
        };
        let y = if self.top {
            Anchor::Far
        } else if self.bottom {
            Anchor::Near
        } else {
            Anchor::Middle
        };
        (x, y)
    }

    /// How an aspect lock applies to this gesture.
    #[verifier::when_used_as_spec(spec_constraint)]
    pub fn constraint(&self) -> (mode: Constraint)
        ensures
            mode == self.spec_constraint(),
            mode == Constraint::Free <==> !self.any(),
    {
        match (self.top || self.bottom, self.left || self.right) {
            (true, true) => Constraint::Corner,
            (true, false) => Constraint::WidthFromHeight,
            (false, true) => Constraint::HeightFromWidth,
            _ => Constraint::Free,
        }
    }
}

impl Default for SelectedEdges {
    /// No edge in drag.
    fn default() -> (edges: Self)
        ensures
            edges == (SelectedEdges { top: false, bottom: false, left: false, right: false }),
    {
        SelectedEdges { top: false, bottom: false, left: false, right: false }
    }
}

} // verus!
