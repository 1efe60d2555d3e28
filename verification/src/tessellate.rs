//! The shape tessellator: from a shape in screen space to a draw command
//! in normalized device coordinates.
//!
//! Every function here is pure. Each takes the size of the surface it
//! tessellates for, which must have area, and gives back geometry that is
//! already in device space.

use vstd::prelude::*;
use crate::color::Color;
use crate::command::{geometry, DrawCommand, Mesh};
use crate::ndc::{
    half_pixels_to_ndc, half_pixels_to_ndc_length, ndc_at, ndc_length, ndc_of, screen_half_x,
    screen_half_y, ndc_round_trip, to_ndc, to_ndc_length, Extent, NdcPosition, Point,
};
use crate::ratio::{Ratio, Rational};
use crate::surface::SurfaceSize;
use crate::vertex::{Displacement, Offset, Side, Vertex, VertexGeometry};

verus! {

/// The least number of segments that make a circle.
pub const MIN_SEGMENTS: u16 = 3;

/// The greatest number of segments whose vertices 16-bit indices can name:
/// the fan has two vertices more than segments.
pub const MAX_SEGMENTS: u16 = 0xFFFE;

/// Why a shape gave no geometry.
#[derive(Clone, Copy, Debug, PartialEq, Eq, Structural)]
pub enum DrawError {
    /// The surface has no area, so there is no device space to draw in.
    SurfaceNotPresentable,
    /// The line starts where it ends and so has no direction.
    ZeroLengthLine,
    /// The circle was asked for with fewer than [`MIN_SEGMENTS`] segments.
    TooFewSegments,
    /// The circle was asked for with more than [`MAX_SEGMENTS`] segments.
    TooManySegments,
}

/// The vertex that lies exactly at `anchor`.
pub open spec fn corner_at(anchor: NdcPosition, color: Color) -> VertexGeometry {
    VertexGeometry { anchor, offset: Displacement::Zero, color }
}

/// The two triangles `0 1 2` and `1 3 2` that cover a quad whose corners are
/// listed row by row.
pub open spec fn quad_indices() -> Seq<u16> {
    seq![0u16, 1u16, 2u16, 1u16, 3u16, 2u16]
}

/// The triangle at `pos`: its apex `size` pixels below `pos` on screen, the
/// two corners of its base `size` pixels above `pos` and `size` pixels to
/// its left and to its right.
pub open spec fn triangle_mesh(pos: Point, size: int, color: Color, surface: SurfaceSize) -> Mesh {
    Mesh {
        vertices: seq![
            corner_at(ndc_at(2 * pos.x, 2 * (pos.y + size), surface), color),
            corner_at(ndc_at(2 * (pos.x - size), 2 * (pos.y - size), surface), color),
            corner_at(ndc_at(2 * (pos.x + size), 2 * (pos.y - size), surface), color),
        ],
        indices: seq![0u16, 1u16, 2u16],
    }
}

/// The axis-aligned box with its centre at `pos` and the full extents
/// `size`: top-left, top-right, bottom-left, bottom-right.
pub open spec fn rectangle_mesh(
    pos: Point,
    size: Extent,
    color: Color,
    surface: SurfaceSize,
) -> Mesh {
    Mesh {
        vertices: seq![
            corner_at(ndc_at(2 * pos.x - size.width, 2 * pos.y - size.height, surface), color),
            corner_at(ndc_at(2 * pos.x + size.width, 2 * pos.y - size.height, surface), color),
            corner_at(ndc_at(2 * pos.x - size.width, 2 * pos.y + size.height, surface), color),
            corner_at(ndc_at(2 * pos.x + size.width, 2 * pos.y + size.height, surface), color),
        ],
        indices: quad_indices(),
    }
}

/// The direction of the line from `start` to `end` in device space, as its
/// x and y components.
pub open spec fn line_direction(start: Point, end: Point, surface: SurfaceSize) -> (
    Rational,
    Rational,
) {
    (
        Rational { num: 2 * (end.x - start.x), den: surface.width as int },
        Rational { num: 2 * (start.y - end.y), den: surface.height as int },
    )
}

/// The corner of the line from `start` to `end` that lies half of `width`
/// away from `anchor`, on the given side.
pub open spec fn line_corner(
    anchor: Point,
    start: Point,
    end: Point,
    width: int,
    side: Side,
    color: Color,
    surface: SurfaceSize,
) -> VertexGeometry {
    VertexGeometry {
        anchor: ndc_of(anchor, surface),
        offset: Displacement::Normal {
            dx: line_direction(start, end, surface).0,
            dy: line_direction(start, end, surface).1,
            reach: ndc_length(width, surface),
            side,
        },
        color,
    }
}

/// The quad around the line from `start` to `end`: its long axis follows
/// the line, its short axis is the unit normal of the line in device space,
/// scaled by half of `width`. A line without length has no normal and gives
/// no geometry at all.
pub open spec fn line_mesh(
    start: Point,
    end: Point,
    width: int,
    color: Color,
    surface: SurfaceSize,
) -> Mesh {
    if start == end {
        Mesh::empty()
    } else {
        Mesh {
            vertices: seq![
                line_corner(start, start, end, width, Side::Minus, color, surface),
                line_corner(start, start, end, width, Side::Plus, color, surface),
                line_corner(end, start, end, width, Side::Minus, color, surface),
                line_corner(end, start, end, width, Side::Plus, color, surface),
            ],
            indices: quad_indices(),
        }
    }
}

/// Vertex `i` of the fan around `pos`: the centre first, then the points
/// of the perimeter at the angles `2 * pi * step / segments` for the steps
/// `0 ..= segments`. The last point repeats the first and closes the circle.
pub open spec fn circle_vertex(
    i: int,
    pos: Point,
    radius: int,
    color: Color,
    segments: int,
    surface: SurfaceSize,
) -> VertexGeometry {
    if i == 0 {
        corner_at(ndc_of(pos, surface), color)
    } else {
        VertexGeometry {
            anchor: ndc_of(pos, surface),
            offset: Displacement::Polar {
                reach: ndc_length(2 * radius, surface),
                step: i - 1,
                steps: segments,
            },
            color,
        }
    }
}

/// Index `j` of a fan: triangle `k` joins the centre to the points of the
/// perimeter at the steps `k` and `k + 1`.
pub open spec fn fan_index(j: int) -> u16 {
    if j % 3 == 0 {
        0u16
    } else if j % 3 == 1 {
        (j / 3 + 1) as u16
    } else {
        (j / 3 + 2) as u16
    }
}

/// The fan of `segments` triangles around `pos` that stands for the
/// circle of the given radius.
pub open spec fn circle_mesh(
    pos: Point,
    radius: int,
    color: Color,
    segments: int,
    surface: SurfaceSize,
) -> Mesh {
    Mesh {
        vertices: Seq::new(
            (segments + 2) as nat,
            |i: int| circle_vertex(i, pos, radius, color, segments, surface),
        ),
        indices: Seq::new((3 * segments) as nat, |j: int| fan_index(j)),
    }
}

/// Tessellates a circle as a fan of `segments` triangles.
///
/// A circle needs at least [`MIN_SEGMENTS`] segments, and 16-bit indices
/// allow at most [`MAX_SEGMENTS`]: any other number is rejected and gives
/// no geometry.
pub fn circle(pos: Point, radius: i32, color: Color, segments: u16, surface: SurfaceSize) -> (r:
    Result<DrawCommand, DrawError>)
    requires
        surface.presentable(),
    ensures
        segments < MIN_SEGMENTS <==> r == Err::<DrawCommand, DrawError>(DrawError::TooFewSegments),
        segments > MAX_SEGMENTS <==> r == Err::<DrawCommand, DrawError>(
            DrawError::TooManySegments,
        ),
        MIN_SEGMENTS <= segments <= MAX_SEGMENTS <==> r is Ok,
        r matches Ok(c) ==> c@ == circle_mesh(pos, radius as int, color, segments as int, surface)
            && c@.well_formed(),
{
    if segments < MIN_SEGMENTS {
        return Err(DrawError::TooFewSegments);
    }
    if segments > MAX_SEGMENTS {
        return Err(DrawError::TooManySegments);
    }
    let ghost mesh = circle_mesh(pos, radius as int, color, segments as int, surface);
    let center = to_ndc(pos, surface);
    let reach = to_ndc_length(radius, surface);
    let mut vertices: Vec<Vertex> = Vec::new();
    let mut indices: Vec<u16> = Vec::new();
    vertices.push(Vertex::new(center.x, center.y, color));
    let mut step: u16 = 0;
    while step <= segments
        invariant
            MIN_SEGMENTS <= segments <= MAX_SEGMENTS,
            step <= segments + 1,
            center@ == ndc_of(pos, surface),
            reach@ == ndc_length(2 * radius, surface),
            mesh == circle_mesh(pos, radius as int, color, segments as int, surface),
            vertices@.len() == step + 1,
            forall|i: int| 0 <= i < vertices@.len() ==> (#[trigger] vertices@[i])@ == mesh.vertices[i],
            indices@.len() == (if step == 0 { 0int } else { 3 * (step - 1) }),
            forall|j: int| 0 <= j < indices@.len() ==> #[trigger] indices@[j] == fan_index(j),
        decreases segments + 1 - step,
    {
        let offset = Offset::Polar { reach, step, steps: segments };
        vertices.push(Vertex::with_offset(center, offset, color));
        if step > 0 {
            let ghost base = indices@.len() as int;
            indices.push(0);
            indices.push(step);
            indices.push(step + 1);
            assert(base == 3 * (step - 1));
            assert(fan_index(base) == 0u16);
            assert(fan_index(base + 1) == step);
            assert(fan_index(base + 2) == step + 1);
        }
        step += 1;
    }
    assert(geometry(vertices@) =~= mesh.vertices);
    assert(indices@ =~= mesh.indices);
    proof {
        circle_mesh_is_well_formed(pos, radius as int, color, segments as int, surface);
    }
    Ok(DrawCommand::from_parts(vertices, indices))
}

/// Tessellates the line from `start` to `end` as a quad `width` pixels
/// thick.
///
/// A line that starts where it ends has no direction and no normal: it
/// gives the empty command, with no vertex and no index.
pub fn line(start: Point, end: Point, width: i32, color: Color, surface: SurfaceSize) -> (c:
    DrawCommand)
    requires
        surface.presentable(),
    ensures
        c@ == line_mesh(start, end, width as int, color, surface),
        c@.well_formed(),
        start == end ==> c@.vertices.len() == 0 && c@.indices.len() == 0,
        start != end ==> c@.vertices.len() == 4 && c@.indices.len() == 6,
{
    if start.x == end.x && start.y == end.y {
        return DrawCommand::empty();
    }
    let ghost mesh = line_mesh(start, end, width as int, color, surface);
    let from = to_ndc(start, surface);
    let to = to_ndc(end, surface);
    let dx = Ratio::over(2 * ((end.x as i64) - (start.x as i64)), surface.width);
    let dy = Ratio::over(2 * ((start.y as i64) - (end.y as i64)), surface.height);
    let reach = half_pixels_to_ndc_length(width as i64, surface);
    let minus = Offset::Normal { dx, dy, reach, side: Side::Minus };
    let plus = Offset::Normal { dx, dy, reach, side: Side::Plus };
    let mut vertices: Vec<Vertex> = Vec::new();
    vertices.push(Vertex::with_offset(from, minus, color));
    vertices.push(Vertex::with_offset(from, plus, color));
    vertices.push(Vertex::with_offset(to, minus, color));
    vertices.push(Vertex::with_offset(to, plus, color));
    let indices = quad();
    assert(geometry(vertices@) =~= mesh.vertices);
    DrawCommand::from_parts(vertices, indices)
}

/// Tessellates the axis-aligned box with its centre at `pos` and the full
/// extents `size`.
pub fn rectangle(pos: Point, size: Extent, color: Color, surface: SurfaceSize) -> (c: DrawCommand)
    requires
        surface.presentable(),
    ensures
        c@ == rectangle_mesh(pos, size, color, surface),
        c@.well_formed(),
{
    let ghost mesh = rectangle_mesh(pos, size, color, surface);
    let x: i64 = 2 * (pos.x as i64);
    let y: i64 = 2 * (pos.y as i64);
    let w: i64 = size.width as i64;
    let h: i64 = size.height as i64;
    let mut vertices: Vec<Vertex> = Vec::new();
    vertices.push(corner(x - w, y - h, color, surface));
    vertices.push(corner(x + w, y - h, color, surface));
    vertices.push(corner(x - w, y + h, color, surface));
    vertices.push(corner(x + w, y + h, color, surface));
    let indices = quad();
    assert(geometry(vertices@) =~= mesh.vertices);
    DrawCommand::from_parts(vertices, indices)
}

/// Tessellates the triangle at `pos` whose apex lies `size` pixels below
/// `pos` on screen and whose base lies `size` pixels above it, `size`
/// pixels to either side.
pub fn triangle(pos: Point, size: i32, color: Color, surface: SurfaceSize) -> (c: DrawCommand)
    requires
        surface.presentable(),
    ensures
        c@ == triangle_mesh(pos, size as int, color, surface),
        c@.well_formed(),
{
    let ghost mesh = triangle_mesh(pos, size as int, color, surface);
    let x: i64 = pos.x as i64;
    let y: i64 = pos.y as i64;
    let s: i64 = size as i64;
    let mut vertices: Vec<Vertex> = Vec::new();
    vertices.push(corner(2 * x, 2 * (y + s), color, surface));
    vertices.push(corner(2 * (x - s), 2 * (y - s), color, surface));
    vertices.push(corner(2 * (x + s), 2 * (y - s), color, surface));
    let mut indices: Vec<u16> = Vec::new();
    indices.push(0);
    indices.push(1);
    indices.push(2);
    assert(geometry(vertices@) =~= mesh.vertices);
    assert(indices@ =~= mesh.indices);
    DrawCommand::from_parts(vertices, indices)
}

/// The vertex that lies exactly at the screen position
/// `(half_x / 2, half_y / 2)`.
fn corner(half_x: i64, half_y: i64, color: Color, surface: SurfaceSize) -> (v: Vertex)
    requires
        surface.presentable(),
        -0x4000_0000_0000_0000 <= half_x <= 0x4000_0000_0000_0000,
        -0x4000_0000_0000_0000 <= half_y <= 0x4000_0000_0000_0000,
    ensures
        v@ == corner_at(ndc_at(half_x as int, half_y as int, surface), color),
{
    let position = half_pixels_to_ndc(half_x, half_y, surface);
    Vertex::new(position.x, position.y, color)
}

/// The indices of a quad, as a fresh list.
fn quad() -> (indices: Vec<u16>)
    ensures
        indices@ == quad_indices(),
{
    let mut indices: Vec<u16> = Vec::new();
    indices.push(0);
    indices.push(1);
    indices.push(2);
    indices.push(1);
    indices.push(3);
    indices.push(2);
    assert(indices@ =~= quad_indices());
    indices
}

/// Projected back to the screen, the four vertices of a rectangle are the
/// four corners of the box `pos - size / 2 ..= pos + size / 2`, in half
/// pixels: top-left, top-right, bottom-left, bottom-right. All four lie
/// exactly on their anchors and carry the colour of the rectangle.
pub proof fn rectangle_projects_back_to_its_box(
    pos: Point,
    size: Extent,
    color: Color,
    surface: SurfaceSize,
)
    requires
        surface.presentable(),
    ensures
        ({
            let mesh = rectangle_mesh(pos, size, color, surface);
            let w = surface.width as int;
            let h = surface.height as int;
            let left = 2 * pos.x - size.width;
            let right = 2 * pos.x + size.width;
            let top = 2 * pos.y - size.height;
            let bottom = 2 * pos.y + size.height;
            &&& mesh.vertices.len() == 4
            &&& forall|i: int|
                0 <= i < 4 ==> (#[trigger] mesh.vertices[i]).offset == Displacement::Zero
                    && mesh.vertices[i].color == color
            &&& screen_half_x(mesh.vertices[0].anchor.x, w) == left
            &&& screen_half_y(mesh.vertices[0].anchor.y, h) == top
            &&& screen_half_x(mesh.vertices[1].anchor.x, w) == right
            &&& screen_half_y(mesh.vertices[1].anchor.y, h) == top
            &&& screen_half_x(mesh.vertices[2].anchor.x, w) == left
            &&& screen_half_y(mesh.vertices[2].anchor.y, h) == bottom
            &&& screen_half_x(mesh.vertices[3].anchor.x, w) == right
            &&& screen_half_y(mesh.vertices[3].anchor.y, h) == bottom
            &&& mesh.well_formed()
        }),
{
    let left = 2 * pos.x - size.width;
    let right = 2 * pos.x + size.width;
    let top = 2 * pos.y - size.height;
    let bottom = 2 * pos.y + size.height;
    ndc_round_trip(left, top, surface);
    ndc_round_trip(right, top, surface);
    ndc_round_trip(left, bottom, surface);
    ndc_round_trip(right, bottom, surface);
}

/// A circle of `segments` segments has `segments + 2` vertices (the
/// centre, one point for each segment, and the first point once more to
/// close the circle) and `3 * segments` indices.
pub proof fn circle_counts(
    pos: Point,
    radius: int,
    color: Color,
    segments: int,
    surface: SurfaceSize,
)
    requires
        MIN_SEGMENTS <= segments <= MAX_SEGMENTS,
    ensures
        circle_mesh(pos, radius, color, segments, surface).vertices.len() == segments + 2,
        circle_mesh(pos, radius, color, segments, surface).indices.len() == 3 * segments,
        circle_mesh(pos, radius, color, segments, surface).triangles() == segments,
{
}

/// The triangles of a circle share the full turn among them without gap
/// or overlap: triangle `k` joins the centre to the points at the steps
/// `k` and `k + 1` of `segments`, so that it starts at the angle at which
/// triangle `k - 1` ends, the first starts at step zero and the last ends at
/// step `segments`, the full turn. All points lie at the same distance from
/// the same centre, and no triangle names a vertex twice.
pub proof fn circle_triangles_share_the_turn(
    pos: Point,
    radius: int,
    color: Color,
    segments: int,
    surface: SurfaceSize,
    k: int,
)
    requires
        MIN_SEGMENTS <= segments <= MAX_SEGMENTS,
        0 <= k < segments,
    ensures
        ({
            let mesh = circle_mesh(pos, radius, color, segments, surface);
            let center = ndc_of(pos, surface);
            let reach = ndc_length(2 * radius, surface);
            &&& mesh.indices[3 * k] == 0
            &&& mesh.indices[3 * k + 1] == k + 1
            &&& mesh.indices[3 * k + 2] == k + 2
            &&& mesh.corner(k, 0) == corner_at(center, color)
            &&& mesh.corner(k, 1) == (VertexGeometry {
                anchor: center,
                offset: Displacement::Polar { reach, step: k, steps: segments },
                color,
            })
            &&& mesh.corner(k, 2) == (VertexGeometry {
                anchor: center,
                offset: Displacement::Polar { reach, step: k + 1, steps: segments },
                color,
            })
        }),
{
    let mesh = circle_mesh(pos, radius, color, segments, surface);
    assert((3 * k) % 3 == 0 && (3 * k) / 3 == k);
    assert((3 * k + 1) % 3 == 1 && (3 * k + 1) / 3 == k);
    assert((3 * k + 2) % 3 == 2 && (3 * k + 2) / 3 == k);
}

/// Every point of the perimeter of a circle has an angle: its step lies
/// within the full turn, and the full turn has at least one step.
pub proof fn circle_points_have_an_angle(
    pos: Point,
    radius: int,
    color: Color,
    segments: int,
    surface: SurfaceSize,
)
    requires
        MIN_SEGMENTS <= segments <= MAX_SEGMENTS,
    ensures
        forall|i: int|
            0 <= i < segments + 2 ==> (#[trigger] circle_mesh(
                pos,
                radius,
                color,
                segments,
                surface,
            ).vertices[i]).offset.defined(),
{
}

/// A line that starts where it ends gives no vertex and no index.
pub proof fn line_without_length_is_empty(
    at: Point,
    width: int,
    color: Color,
    surface: SurfaceSize,
)
    ensures
        line_mesh(at, at, width, color, surface).vertices.len() == 0,
        line_mesh(at, at, width, color, surface).indices.len() == 0,
{
}

/// Every vertex of a line with length has a normal to lie along: its
/// direction is not zero.
pub proof fn line_with_length_has_a_normal(
    start: Point,
    end: Point,
    width: int,
    color: Color,
    surface: SurfaceSize,
)
    requires
        start != end,
    ensures
        ({
            let mesh = line_mesh(start, end, width, color, surface);
            &&& mesh.vertices.len() == 4
            &&& mesh.well_formed()
            &&& forall|i: int| 0 <= i < 4 ==> (#[trigger] mesh.vertices[i]).offset.defined()
        }),
{
}

/// The fan of a circle names only its own vertices, whatever the number of
/// segments: the last triangle ends at the last vertex.
pub proof fn circle_mesh_is_well_formed(
    pos: Point,
    radius: int,
    color: Color,
    segments: int,
    surface: SurfaceSize,
)
    requires
        MIN_SEGMENTS <= segments <= MAX_SEGMENTS,
    ensures
        circle_mesh(pos, radius, color, segments, surface).well_formed(),
{
    let mesh = circle_mesh(pos, radius, color, segments, surface);
    assert forall|j: int| 0 <= j < mesh.indices.len() implies (#[trigger] mesh.indices[j])
        < mesh.vertices.len() by {
        assert(0 <= j / 3 < segments);
    }
}

} // verus!
