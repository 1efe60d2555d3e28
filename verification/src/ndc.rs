//! The coordinate transformer: from screen-space pixels to normalized
//! device coordinates.
//!
//! Screen space has its origin at the top-left corner and grows to the right
//! and downwards. Device space has its origin at the centre of the surface,
//! grows to the right and upwards, and spans `-1 ..= 1` on both axes. A point
//! `(x, y)` on a surface of `width` by `height` pixels maps to
//!
//! ```text
//! ndc.x =   (x / width)  * 2 - 1   = (2x - width) / width
//! ndc.y = -((y / height) * 2 - 1)  = (height - 2y) / height
//! ```
//!
//! Both results are kept as exact fractions over `width` and `height`.
//! Positions are measured in half pixels wherever the centre of a shape and
//! half of its size have to be added, so that no half is ever rounded.

use vstd::prelude::*;
use vstd::arithmetic::div_mod::lemma_div_multiples_vanish;
use crate::ratio::{Ratio, Rational};
use crate::surface::SurfaceSize;

verus! {

/// A position in screen space, in whole pixels.
#[derive(Clone, Copy, Debug, PartialEq, Eq, Structural)]
pub struct Point {
    pub x: i32,
    pub y: i32,
}

impl Point {
    /// The point `(x, y)`.
    pub fn new(x: i32, y: i32) -> (p: Point)
        ensures
            p == (Point { x, y }),
    {
        Point { x, y }
    }
}

/// The full extents of an axis-aligned box, in whole pixels.
#[derive(Clone, Copy, Debug, PartialEq, Eq, Structural)]
pub struct Extent {
    pub width: i32,
    pub height: i32,
}

impl Extent {
    /// The extents `width` by `height`.
    pub fn new(width: i32, height: i32) -> (e: Extent)
        ensures
            e == (Extent { width, height }),
    {
        Extent { width, height }
    }
}

/// The mathematical value of an [`NdcPoint`].
pub struct NdcPosition {
    pub x: Rational,
    pub y: Rational,
}

/// A position in normalized device coordinates, as two exact fractions.
#[derive(Clone, Copy, Debug, PartialEq, Eq, Structural)]
pub struct NdcPoint {
    pub x: Ratio,
    pub y: Ratio,
}

impl View for NdcPoint {
    type V = NdcPosition;

    open spec fn view(&self) -> NdcPosition {
        NdcPosition { x: self.x@, y: self.y@ }
    }
}

/// The device x coordinate of the screen position `half_x / 2` on a surface
/// `width` pixels wide.
pub open spec fn ndc_x(half_x: int, width: int) -> Rational {
    Rational { num: half_x - width, den: width }
}

/// The device y coordinate of the screen position `half_y / 2` on a surface
/// `height` pixels high. The axis is flipped: the top of the screen is `1`.
pub open spec fn ndc_y(half_y: int, height: int) -> Rational {
    Rational { num: height - half_y, den: height }
}

/// The device position of the screen position `(half_x / 2, half_y / 2)`.
pub open spec fn ndc_at(half_x: int, half_y: int, size: SurfaceSize) -> NdcPosition {
    NdcPosition { x: ndc_x(half_x, size.width as int), y: ndc_y(half_y, size.height as int) }
}

/// The device position of a point given in whole pixels.
pub open spec fn ndc_of(point: Point, size: SurfaceSize) -> NdcPosition {
    ndc_at(2 * point.x, 2 * point.y, size)
}

/// The device length of the screen length `half_len / 2`. Lengths are
/// always normalised by the width of the surface, whichever way they point:
/// on a surface that is not square, a radius is as long along y as along x in
/// device space, not on screen.
pub open spec fn ndc_length(half_len: int, size: SurfaceSize) -> Rational {
    Rational { num: half_len, den: size.width as int }
}

/// The screen x coordinate, in half pixels, that the device coordinate
/// `x` stands for on a surface `width` pixels wide: `(x + 1) * width`.
pub open spec fn screen_half_x(x: Rational, width: int) -> int {
    ((x.num + x.den) * width) / x.den
}

/// The screen y coordinate, in half pixels, that the device coordinate
/// `y` stands for on a surface `height` pixels high: `(1 - y) * height`.
pub open spec fn screen_half_y(y: Rational, height: int) -> int {
    ((y.den - y.num) * height) / y.den
}

/// Maps a point in whole pixels to normalized device coordinates.
///
/// A surface without area has no device space: the caller has to leave such
/// a surface out.
pub fn to_ndc(point: Point, size: SurfaceSize) -> (p: NdcPoint)
    requires
        size.presentable(),
    ensures
        p@ == ndc_of(point, size),
{
    let x: i64 = 2 * (point.x as i64);
    let y: i64 = 2 * (point.y as i64);
    half_pixels_to_ndc(x, y, size)
}

/// Maps the screen position `(half_x / 2, half_y / 2)` to normalized device
/// coordinates.
pub fn half_pixels_to_ndc(half_x: i64, half_y: i64, size: SurfaceSize) -> (p: NdcPoint)
    requires
        size.presentable(),
        -0x4000_0000_0000_0000 <= half_x <= 0x4000_0000_0000_0000,
        -0x4000_0000_0000_0000 <= half_y <= 0x4000_0000_0000_0000,
    ensures
        p@ == ndc_at(half_x as int, half_y as int, size),
{
    let x = Ratio::over(half_x - (size.width as i64), size.width);
    let y = Ratio::over((size.height as i64) - half_y, size.height);
    NdcPoint { x, y }
}

/// Maps a length in whole pixels to a length in device space:
/// `len / width * 2`.
pub fn to_ndc_length(len: i32, size: SurfaceSize) -> (r: Ratio)
    requires
        size.presentable(),
    ensures
        r@ == ndc_length(2 * len, size),
{
    half_pixels_to_ndc_length(2 * (len as i64), size)
}

/// Maps the screen length `half_len / 2` to a length in device space.
pub fn half_pixels_to_ndc_length(half_len: i64, size: SurfaceSize) -> (r: Ratio)
    requires
        size.presentable(),
    ensures
        r@ == ndc_length(half_len as int, size),
{
    Ratio::over(half_len, size.width)
}

/// The left edge of the surface maps to `-1` and the right edge to `1`,
/// exactly, whatever the size of the surface.
pub proof fn horizontal_edges_map_to_unit(point: Point, size: SurfaceSize)
    requires
        size.presentable(),
    ensures
        point.x == 0 ==> ndc_of(point, size).x.is_integer(-1),
        point.x == size.width ==> ndc_of(point, size).x.is_integer(1),
{
}

/// The top edge of the surface maps to `1` and the bottom edge to `-1`:
/// the y axis is flipped.
pub proof fn vertical_edges_map_to_unit(point: Point, size: SurfaceSize)
    requires
        size.presentable(),
    ensures
        point.y == 0 ==> ndc_of(point, size).y.is_integer(1),
        point.y == size.height ==> ndc_of(point, size).y.is_integer(-1),
{
}

/// Every point on the surface, its edges included, maps into the square
/// from `-1` to `1`.
pub proof fn surface_maps_into_unit_square(point: Point, size: SurfaceSize)
    requires
        size.presentable(),
        0 <= point.x <= size.width,
        0 <= point.y <= size.height,
    ensures
        -ndc_of(point, size).x.den <= ndc_of(point, size).x.num <= ndc_of(point, size).x.den,
        -ndc_of(point, size).y.den <= ndc_of(point, size).y.num <= ndc_of(point, size).y.den,
{
}

/// Mapping a screen position to device space and back gives the position
/// again.
pub proof fn ndc_round_trip(half_x: int, half_y: int, size: SurfaceSize)
    requires
        size.presentable(),
    ensures
        screen_half_x(ndc_at(half_x, half_y, size).x, size.width as int) == half_x,
        screen_half_y(ndc_at(half_x, half_y, size).y, size.height as int) == half_y,
{
    let w = size.width as int;
    let h = size.height as int;
    assert((half_x - w + w) * w == w * half_x) by (nonlinear_arith);
    assert((h - (h - half_y)) * h == h * half_y) by (nonlinear_arith);
    lemma_div_multiples_vanish(half_x, w);
    lemma_div_multiples_vanish(half_y, h);
}

} // verus!
