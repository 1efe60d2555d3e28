//! Vertices: an exact anchor, an offset and a colour.

use vstd::prelude::*;
use crate::color::Color;
use crate::ndc::{NdcPoint, NdcPosition};
use crate::ratio::{Ratio, Rational};

verus! {

/// On which side of its anchor a vertex of a thick line lies.
#[derive(Clone, Copy, Debug, PartialEq, Eq, Structural)]
pub enum Side {
    /// Against the normal of the line.
    Minus,
    /// Along the normal of the line.
    Plus,
}

/// The mathematical value of an [`Offset`].
pub enum Displacement {
    /// No displacement.
    Zero,
    /// `reach` times the unit normal of the direction `(dx, dy)`; against
    /// it on the minus side. The normal of `(dx, dy)` is `(-dy, dx)`, a
    /// quarter turn counter-clockwise in device space.
    Normal { dx: Rational, dy: Rational, reach: Rational, side: Side },
    /// `reach * (cos t, sin t)` at the angle `t = 2 * pi * step / steps`.
    Polar { reach: Rational, step: int, steps: int },
}

impl Displacement {
    /// The displacement is a number: its direction has a length to divide
    /// by, and its angle a full turn to divide by.
    pub open spec fn defined(self) -> bool {
        match self {
            Displacement::Zero => true,
            Displacement::Normal { dx, dy, reach, side } => dx.num != 0 || dy.num != 0,
            Displacement::Polar { reach, step, steps } => 0 <= step <= steps && 0 < steps,
        }
    }
}

/// Where a vertex lies relative to its anchor.
///
/// The corners of triangles and rectangles are exact fractions and need no
/// offset. The corners of a thick line lie along a unit normal and the
/// points of a circle on a cosine and a sine, which no fraction can hold:
/// they are described here and turned into numbers only when the vertex is
/// uploaded.
#[derive(Clone, Copy, Debug, PartialEq, Eq, Structural)]
pub enum Offset {
    /// The vertex lies on its anchor.
    Zero,
    /// The vertex lies `reach` away from its anchor, along the unit normal
    /// of the direction `(dx, dy)` or against it.
    Normal { dx: Ratio, dy: Ratio, reach: Ratio, side: Side },
    /// The vertex lies `reach` away from its anchor at the angle
    /// `2 * pi * step / steps`.
    Polar { reach: Ratio, step: u16, steps: u16 },
}

impl View for Offset {
    type V = Displacement;

    open spec fn view(&self) -> Displacement {
        match *self {
            Offset::Zero => Displacement::Zero,
            Offset::Normal { dx, dy, reach, side } => Displacement::Normal {
                dx: dx@,
                dy: dy@,
                reach: reach@,
                side,
            },
            Offset::Polar { reach, step, steps } => Displacement::Polar {
                reach: reach@,
                step: step as int,
                steps: steps as int,
            },
        }
    }
}

impl Offset {
    /// Whether the offset can be turned into a number: see
    /// [`Displacement::defined`].
    pub fn is_defined(&self) -> (d: bool)
        ensures
            d == self@.defined(),
    {
        match *self {
            Offset::Zero => true,
            Offset::Normal { dx, dy, reach, side } => dx.numerator() != 0 || dy.numerator() != 0,
            Offset::Polar { reach, step, steps } => step <= steps && 0 < steps,
        }
    }
}

/// The mathematical value of a [`Vertex`].
pub struct VertexGeometry {
    pub anchor: NdcPosition,
    pub offset: Displacement,
    pub color: Color,
}

/// A coloured vertex in normalized device coordinates.
///
/// A vertex never changes once it is made, and its offset is always
/// defined: turning a vertex into numbers never divides by zero.
#[derive(Clone, Copy, Debug, PartialEq, Eq, Structural)]
pub struct Vertex {
    anchor: NdcPoint,
    offset: Offset,
    color: Color,
}

impl View for Vertex {
    type V = VertexGeometry;

    closed spec fn view(&self) -> VertexGeometry {
        VertexGeometry { anchor: self.anchor@, offset: self.offset@, color: self.color }
    }
}

impl Vertex {
    #[verifier::type_invariant]
    closed spec fn offset_defined(self) -> bool {
        self.offset@.defined()
    }

    /// The vertex at the device position `(x, y)` with the colour `color`.
    pub fn new(x: Ratio, y: Ratio, color: Color) -> (v: Vertex)
        ensures
            v@ == (VertexGeometry {
                anchor: NdcPosition { x: x@, y: y@ },
                offset: Displacement::Zero,
                color,
            }),
    {
        Vertex { anchor: NdcPoint { x, y }, offset: Offset::Zero, color }
    }

    /// The vertex that lies `offset` away from `anchor`, or `None` when the
    /// offset is not defined.
    pub fn displaced(anchor: NdcPoint, offset: Offset, color: Color) -> (v: Option<Vertex>)
        ensures
            offset@.defined() <==> v is Some,
            v matches Some(w) ==> w@ == (VertexGeometry { anchor: anchor@, offset: offset@, color }),
    {
        if offset.is_defined() {
            Some(Vertex { anchor, offset, color })
        } else {
            None
        }
    }

    /// The vertex that lies `offset` away from `anchor`, for an offset that is
    /// known to be defined.
    pub(crate) fn with_offset(anchor: NdcPoint, offset: Offset, color: Color) -> (v: Vertex)
        requires
            offset@.defined(),
        ensures
            v@ == (VertexGeometry { anchor: anchor@, offset: offset@, color }),
    {
        Vertex { anchor, offset, color }
    }

    /// The anchor of the vertex.
    pub fn anchor(&self) -> (p: NdcPoint)
        ensures
            p@ == self@.anchor,
    {
        self.anchor
    }

    /// The offset of the vertex from its anchor, which is defined.
    pub fn offset(&self) -> (o: Offset)
        ensures
            o@ == self@.offset,
            o@.defined(),
    {
        proof {
            use_type_invariant(self);
        }
        self.offset
    }

    /// The colour of the vertex.
    pub fn color(&self) -> (c: Color)
        ensures
            c == self@.color,
    {
        self.color
    }
}

} // verus!
