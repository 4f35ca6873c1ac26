//! Hit tests of the cage: which edges the pointer has hold of, and whether
//! it sits in the ring around the box from which the selection is rotated.
//!
//! A reading holds, for one pointer position, the outcomes of comparing the
//! pointer's local coordinate with the box along each axis. `low` and `high`
//! are the smaller and the larger of the two corner coordinates on that axis,
//! and the margin is the hit distance in local units. A comparison in which
//! an operand is not a number comes in as `false`, as it evaluates.

use vstd::prelude::*;
use crate::edges::Anchor;
use crate::edges::Constraint;
use crate::edges::SelectedEdges;

verus! {

/// The pointer against the box along one axis, for the resize margin.
#[derive(Clone, Copy, Debug, PartialEq, Eq, Structural)]
pub struct AxisProximity {
    /// `low - pointer < margin`: the pointer is not a margin or more short of
    /// the low edge.
    pub reaches_low: bool,
    /// `pointer - high < margin`: the pointer is not a margin or more past the
    /// high edge.
    pub reaches_high: bool,
    /// `|pointer - low| < margin`: the pointer is at the low edge.
    pub near_low: bool,
    /// `|high - pointer| < margin`: the pointer is at the high edge.
    pub near_high: bool,
    /// `(pointer - low) + (high - pointer) < 2 * margin`: the box's extent on
    /// this axis lies within the hit margin.
    pub thin: bool,
    /// `high - low` is below a thousand machine epsilons: the box has no
    /// extent on this axis.
    pub flat: bool,
}

/// The pointer against the box on both axes, for the resize margin. On the x
/// axis the low edge is the left one, on the y axis the top one.
#[derive(Clone, Copy, Debug, PartialEq, Eq, Structural)]
pub struct EdgeProximity {
    pub x: AxisProximity,
    pub y: AxisProximity,
}

/// The pointer against the box along one axis, for the rotate margin.
#[derive(Clone, Copy, Debug, PartialEq, Eq, Structural)]
pub struct AxisExcursion {
    /// `low > pointer`: the pointer is short of the box.
    pub before_low: bool,
    /// `pointer > high`: the pointer is past the box.
    pub beyond_high: bool,
    /// `low - pointer < margin`.
    pub reaches_low: bool,
    /// `pointer - high < margin`.
    pub reaches_high: bool,
}

/// The pointer against the box on both axes, for the rotate margin.
#[derive(Clone, Copy, Debug, PartialEq, Eq, Structural)]
pub struct RingProximity {
    pub x: AxisExcursion,
    pub y: AxisExcursion,
}

impl EdgeProximity {
    /// The pointer lies in the box grown by the margin on every side.
    pub open spec fn within(&self) -> bool {
        self.x.reaches_low && self.y.reaches_low && self.x.reaches_high && self.y.reaches_high
    }

    /// The top and bottom edges stay in play: they give way to the left or
    /// right edge where the box is thin in height and the pointer is at one
    /// of those.
    pub open spec fn keeps_vertical(&self) -> bool {
        !(self.y.thin && (self.x.near_low || self.x.near_high))
    }

    /// The left and right edges stay in play: they give way where the box is
    /// thin in width and the pointer is at a top or bottom edge that is itself
    /// still in play.
    pub open spec fn keeps_horizontal(&self) -> bool {
        !(self.x.thin && (self.y.near_low || self.y.near_high) && self.keeps_vertical())
    }

    pub open spec fn top(&self) -> bool {
        self.y.near_low && self.keeps_vertical() && !self.y.flat
    }

    pub open spec fn bottom(&self) -> bool {
        self.y.near_high && self.keeps_vertical() && !self.y.flat
    }

    pub open spec fn left(&self) -> bool {
        self.x.near_low && self.keeps_horizontal() && !self.x.flat
    }

    pub open spec fn right(&self) -> bool {
        self.x.near_high && self.keeps_horizontal() && !self.x.flat
    }

    /// The edges that the pointer has hold of, in the order top, bottom,
    /// left, right; `None` where it has hold of none.
    pub open spec fn spec_check_selected_edges(&self) -> Option<(bool, bool, bool, bool)> {
        if self.within() && (self.top() || self.bottom() || self.left() || self.right()) {
            Some((self.top(), self.bottom(), self.left(), self.right()))
        } else {
            None
        }
    }

    /// Resolves the reading into the edges to drag, in the order top, bottom,
    /// left, right.
    ///
    /// Outside the box grown by the margin there is no hit. Inside it, each
    /// edge that the pointer is at counts, with two corrections. On a box
    /// thinner than the margin allows, a corner would be ambiguous: where the
    /// height is thin and the pointer is at the left or right edge, top and
    /// bottom are dropped; after that, where the width is thin and the pointer
    /// is at a top or bottom edge that was not dropped, left and right are. On
    /// an axis without extent no edge counts. A reading that leaves no edge is
    /// no hit.
    #[verifier::when_used_as_spec(spec_check_selected_edges)]
    pub fn check_selected_edges(&self) -> (hit: Option<(bool, bool, bool, bool)>)
        ensures
            hit == self.spec_check_selected_edges(),
            hit is Some ==> self.within(),
            hit matches Some(e) ==> e.0 || e.1 || e.2 || e.3,
            hit matches Some(e) ==> (self.y.flat ==> !e.0 && !e.1) && (self.x.flat ==> !e.2 && !e.3),
            hit matches Some(e) ==> (self.y.thin && (e.2 || e.3) ==> !e.0 && !e.1),
            hit matches Some(e) ==> (self.x.thin && (e.0 || e.1) ==> !e.2 && !e.3),
    {
        if self.x.reaches_low && self.y.reaches_low && self.x.reaches_high && self.y.reaches_high {
            let mut top = self.y.near_low;
            let mut bottom = self.y.near_high;
            let mut left = self.x.near_low;
            let mut right = self.x.near_high;

            if self.y.thin && (left || right) {
                top = false;
                bottom = false;
            }
            if self.x.thin && (top || bottom) {
                left = false;
                right = false;
            }
            if self.x.flat {
                left = false;
                right = false;
            }
            if self.y.flat {
                top = false;
                bottom = false;
            }
            if top || bottom || left || right {
                return Some((top, bottom, left, right));
            }
        }
        None
    }
}

/// A hit always starts a drag that has something to go by: it names at least
/// one edge, so the pivot of the resize is not the centre of the box, and an
/// aspect lock finds a side to derive the other from.
pub proof fn lemma_hit_starts_a_drag(reading: EdgeProximity)
    requires
        reading.spec_check_selected_edges() is Some,
    ensures
        ({
            let hit = reading.spec_check_selected_edges()->0;
            let edges = SelectedEdges { top: hit.0, bottom: hit.1, left: hit.2, right: hit.3 };
            &&& edges.any()
            &&& edges.spec_constraint() != Constraint::Free
            &&& edges.spec_calculate_pivot() != (Anchor::Middle, Anchor::Middle)
        }),
{
}

impl RingProximity {
    /// The pointer lies outside the box on at least one axis.
    pub open spec fn outside(&self) -> bool {
        self.x.before_low || self.x.beyond_high || self.y.before_low || self.y.beyond_high
    }

    /// The pointer lies in the box grown by the rotate margin on every side.
    pub open spec fn within(&self) -> bool {
        self.x.reaches_low && self.y.reaches_low && self.x.reaches_high && self.y.reaches_high
    }

    pub open spec fn spec_check_rotate(&self) -> bool {
        self.outside() && self.within()
    }

    /// Whether the pointer sits in the rotate ring: outside the box on at
    /// least one axis, and less than the rotate margin away from it on both.
    #[verifier::when_used_as_spec(spec_check_rotate)]
    pub fn check_rotate(&self) -> (rotating: bool)
        ensures
            rotating == self.spec_check_rotate(),
            !self.outside() ==> !rotating,
            !self.within() ==> !rotating,
    {
        let outside_bounds = (self.x.before_low || self.x.beyond_high) || (self.y.before_low
            || self.y.beyond_high);
        let inside_extended_bounds = self.x.reaches_low && self.y.reaches_low
            && self.x.reaches_high && self.y.reaches_high;
        outside_bounds && inside_extended_bounds
    }
}

} // verus!
