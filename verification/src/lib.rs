//! Decision core of an on-canvas transformation cage: the bounding box with
//! eight handles by which a selection is resized and rotated.
//!
//! Everything here works on exact values. The host measures: it maps the
//! pointer into the box's local space, compares coordinates against the box
//! and its hit margins, and hands the outcomes in as readings. The library
//! decides: which edges a pointer has hold of, whether it sits in the rotate
//! ring, which cursor to show, which corner coordinate a drag moves, where
//! the pivot of a resize lies, how an aspect lock derives one side from the
//! other, and in which order the handles are laid out.

pub mod cursor;
pub mod edges;
pub mod handles;
pub mod hit;
