//! Where a detection sits on the page.
//!
//! Geometry belongs to the analysis and is carried along with the value it
//! describes; no projection reads or reshapes it.

use vstd::prelude::*;
use crate::number::Number;

verus! {

/// An axis-aligned box, each side a fraction of the page's dimensions.
#[derive(Clone, Copy, Debug, PartialEq, Eq, Structural)]
pub struct BoundingBox {
    pub height: Number,
    pub left: Number,
    pub top: Number,
    pub width: Number,
}

/// One corner of the region that encloses a detection.
#[derive(Clone, Copy, Debug, PartialEq, Eq, Structural)]
pub struct Polygon {
    pub x: Number,
    pub y: Number,
}

/// The box around a detection and the corners of its enclosing region.
#[derive(Clone, Debug, PartialEq, Eq)]
pub struct Geometry {
    pub bounding_box: BoundingBox,
    pub polygon: Vec<Polygon>,
}

/// What a [`Geometry`] holds.
pub struct GeometryView {
    pub bounding_box: BoundingBox,
    pub polygon: Seq<Polygon>,
}

impl View for Geometry {
    type V = GeometryView;

    open spec fn view(&self) -> GeometryView {
        GeometryView { bounding_box: self.bounding_box, polygon: self.polygon@ }
    }
}

impl DeepView for Geometry {
    type V = GeometryView;

    open spec fn deep_view(&self) -> GeometryView {
        self@
    }
}

} // verus!
