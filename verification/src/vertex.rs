use vstd::prelude::*;

use crate::color::Color;

verus! {

/// One normalized-device coordinate, kept exact as the rational
/// `num / den`.
///
/// The graphics pipeline consumes positions on the `[-1, 1]` scale. A pixel
/// coordinate converted against a canvas extent `max` lands on a rational
/// with denominator `max`, so the library stores that rational exactly and
/// leaves the lossy move to floating point to the GPU-facing layer.
#[derive(Clone, Copy, Debug, PartialEq, Eq, Structural)]
pub struct Ndc {
    /// Numerator; negative values lie left of (or above) the canvas center.
    pub num: i64,
    /// Denominator: the canvas extent the coordinate was converted against.
    pub den: u32,
}

impl Ndc {
    /// The coordinate equals the integer `v` exactly.
    pub open spec fn is_value(self, v: int) -> bool {
        self.den > 0 && self.num == v * self.den
    }

    /// The coordinate lies on the `[-1, 1]` scale the rasterizer keeps.
    pub open spec fn in_range(self) -> bool {
        self.den > 0 && -(self.den as int) <= self.num <= self.den as int
    }
}

/// A vertex: a position in normalized device coordinates plus a color.
///
/// Vertices are immutable values; the batcher copies them into its shared
/// vertex sequence and never reorders or removes them.
#[derive(Clone, Copy, Debug, PartialEq, Eq, Structural)]
pub struct Vertex {
    /// Horizontal position.
    pub x: Ndc,
    /// Vertical position.
    pub y: Ndc,
    /// The vertex color.
    pub color: Color,
}

/// A draw request carried from the producer context to the render loop.
///
/// Each event holds the vertices of exactly one primitive; the renderer
/// consumes it once and unpacks it into the vertex stream.
#[derive(Clone, Copy, Debug, PartialEq, Eq, Structural)]
pub enum DrawEvent {
    /// Draw a single point.
    Point(Vertex),
    /// Draw a line between two endpoints.
    Line(Vertex, Vertex),
    /// Draw a triangle over three corners.
    Triangle(Vertex, Vertex, Vertex),
}

/// A two-dimensional point in normalized device coordinates.
#[derive(Clone, Copy, Debug, PartialEq, Eq, Structural)]
pub struct Point {
    /// Horizontal position.
    pub x: Ndc,
    /// Vertical position.
    pub y: Ndc,
}

} // verus!
