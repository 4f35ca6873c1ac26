//! The eight handles of the cage.

use vstd::prelude::*;
use crate::edges::Anchor;

verus! {

/// The handles in the order in which they are drawn and looked up, each as
/// its place on the x axis and its place on the y axis of the box: top left,
/// left middle, bottom left, top middle, bottom middle, top right, right
/// middle, bottom right.
pub open spec fn handle_order() -> Seq<(Anchor, Anchor)> {
    seq![
        (Anchor::Near, Anchor::Near),
        (Anchor::Near, Anchor::Middle),
        (Anchor::Near, Anchor::Far),
        (Anchor::Middle, Anchor::Near),
        (Anchor::Middle, Anchor::Far),
        (Anchor::Far, Anchor::Near),
        (Anchor::Far, Anchor::Middle),
        (Anchor::Far, Anchor::Far),
    ]
}

/// The rank of a place along an axis: near, middle, far.
pub open spec fn rank(anchor: Anchor) -> int {
    match anchor {
        Anchor::Near => 0,
        Anchor::Middle => 1,
        Anchor::Far => 2,
    }
}

/// Lays out the eight handles: the four corners and the four edge midpoints
/// of the box, column by column from the first corner's side and down each
/// column. The centre of the box holds no handle.
pub fn handle_anchors() -> (handles: [(Anchor, Anchor); 8])
    ensures
        handles@ == handle_order(),
        forall|i: int| 0 <= i < 8 ==> #[trigger] handles@[i] != (Anchor::Middle, Anchor::Middle),
        forall|i: int, j: int|
            0 <= i < j < 8 ==> 3 * rank(#[trigger] handles@[i].0) + rank(handles@[i].1) < 3 * rank(
                #[trigger] handles@[j].0,
            ) + rank(handles@[j].1),
{
    let handles = [
        (Anchor::Near, Anchor::Near),
        (Anchor::Near, Anchor::Middle),
        (Anchor::Near, Anchor::Far),
        (Anchor::Middle, Anchor::Near),
        (Anchor::Middle, Anchor::Far),
        (Anchor::Far, Anchor::Near),
        (Anchor::Far, Anchor::Middle),
        (Anchor::Far, Anchor::Far),
    ];
    assert(handles@ =~= handle_order());
    handles
}

} // verus!
