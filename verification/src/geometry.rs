//! Plain geometry values used by layout queries.
//!
//! Coordinates are held in app units (`Au`), a fixed-point integer measure,
//! so that geometry can be compared and reasoned about exactly.

use vstd::prelude::*;

verus! {

/// One app unit: a fixed-point length measure (a fraction of a CSS pixel).
#[derive(Clone, Copy, PartialEq, Eq, Structural, Debug)]
pub struct Au(pub i64);

/// A point in page coordinates, in app units.
#[derive(Clone, Copy, PartialEq, Eq, Structural, Debug)]
pub struct Point2D {
    pub x: Au,
    pub y: Au,
}

/// Extent of a box, in app units.
#[derive(Clone, Copy, PartialEq, Eq, Structural, Debug)]
pub struct Size2D {
    pub width: Au,
    pub height: Au,
}

/// An axis-aligned rectangle, in app units.
#[derive(Clone, Copy, PartialEq, Eq, Structural, Debug)]
pub struct Rect {
    pub origin: Point2D,
    pub size: Size2D,
}

} // verus!
