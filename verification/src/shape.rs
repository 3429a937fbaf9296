//! The foreground shape and its triangle-list outline.

use vstd::prelude::*;
use crate::axis::Overlay;
use crate::units::{fan_offset, Length, Offset, Point, Rgba};

verus! {

/// The primitive drawn in the foreground.
#[derive(Clone, Copy, Debug, PartialEq, Eq, Structural)]
pub enum Shape {
    Triangle,
    Square,
    Circle,
}

/// Number of angular wedges that approximate a circle.
pub const CIRCLE_SEGMENTS: u32 = 64;

/// One vertex of the shape's outline, relative to the shape's centre.
#[derive(Clone, Copy, Debug, PartialEq, Eq, Structural)]
pub struct ShapeVertex {
    pub offset: Offset,
}

/// The corner `(dx, dy)` of an outline.
pub open spec fn corner(dx: int, dy: int) -> ShapeVertex {
    ShapeVertex {
        offset: Offset::Straight { dx: Length::whole(dx as i64), dy: Length::whole(dy as i64) },
    }
}

/// Vertex `k` of the circle's triangle list, a fan of sixty-four wedges.
pub open spec fn circle_vertex(size: u32, k: int) -> ShapeVertex {
    ShapeVertex {
        offset: fan_offset(
            CIRCLE_SEGMENTS,
            Length::whole(size as i64),
            Length::whole(size as i64),
            k,
        ),
    }
}

/// Number of vertices in the outline of a shape, whatever its size.
pub open spec fn outline_len(shape: Shape) -> nat {
    match shape {
        Shape::Triangle => 3,
        Shape::Square => 6,
        Shape::Circle => 3 * CIRCLE_SEGMENTS as nat,
    }
}

/// The triangle list that outlines `shape` at `size`, centred at the origin.
pub open spec fn outline(shape: Shape, size: u32) -> Seq<ShapeVertex> {
    let s = size as int;
    match shape {
        Shape::Triangle => seq![corner(-s, -s), corner(0, s), corner(s, -s)],
        Shape::Square => seq![
            corner(-s, -s),
            corner(s, -s),
            corner(s, s),
            corner(-s, -s),
            corner(s, s),
            corner(-s, s),
        ],
        Shape::Circle => Seq::new(
            3 * CIRCLE_SEGMENTS as nat,
            |k: int| circle_vertex(size, k),
        ),
    }
}

/// Everything a run of the viewer is configured with.
#[derive(Clone, Copy, Debug, PartialEq, Eq, Structural)]
pub struct ShapeConfig {
    pub shape: Shape,
    pub color: Rgba,
    /// Half-extent of the shape, in thousandths.
    pub size: u32,
    /// Where the shape's centre is drawn.
    pub position: Point,
    pub axis: bool,
    pub axis_grid: bool,
    /// Length of each axis arm, in thousandths.
    pub axis_arm_len: u32,
}

impl ShapeConfig {
    /// The configuration that a set of startup options stands for. The colour
    /// is looked up by name, with the palette's default for a name it does not
    /// hold. A position that was not given is the origin; an arm length that
    /// was not given is the size.
    pub open spec fn spec_from_options(
        shape: Shape,
        color_name: Seq<char>,
        size: u32,
        position: Option<Point>,
        axis: bool,
        axis_grid: bool,
        axis_arm_len: Option<u32>,
    ) -> ShapeConfig {
        ShapeConfig {
            shape,
            color: Rgba::named(color_name),
            size,
            position: match position {
                Some(p) => p,
                None => Point { x: 0, y: 0 },
            },
            axis,
            axis_grid,
            axis_arm_len: match axis_arm_len {
                Some(len) => len,
                None => size,
            },
        }
    }

    /// Builds the configuration from startup options, filling in what was
    /// left out.
    pub fn from_options(
        shape: Shape,
        color_name: &str,
        size: u32,
        position: Option<Point>,
        axis: bool,
        axis_grid: bool,
        axis_arm_len: Option<u32>,
    ) -> (config: ShapeConfig)
        ensures
            config == Self::spec_from_options(
                shape,
                color_name@,
                size,
                position,
                axis,
                axis_grid,
                axis_arm_len,
            ),
    {
        ShapeConfig {
            shape,
            color: Rgba::from_name(color_name),
            size,
            position: match position {
                Some(p) => p,
                None => Point { x: 0, y: 0 },
            },
            axis,
            axis_grid,
            axis_arm_len: match axis_arm_len {
                Some(len) => len,
                None => size,
            },
        }
    }

    /// The overlay that the two flags select; the grid flag implies the axes.
    pub open spec fn spec_overlay(&self) -> Overlay {
        if self.axis_grid {
            Overlay::AxisWithGrid
        } else if self.axis {
            Overlay::AxisOnly
        } else {
            Overlay::Off
        }
    }

    #[verifier::when_used_as_spec(spec_overlay)]
    pub fn overlay(&self) -> (mode: Overlay)
        ensures
            mode == self.spec_overlay(),
    {
        if self.axis_grid {
            Overlay::AxisWithGrid
        } else if self.axis {
            Overlay::AxisOnly
        } else {
            Overlay::Off
        }
    }

    /// The outline of the configured shape as a triangle list in local
    /// coordinates: no position is added and no aspect correction applied.
    pub fn vertices(&self) -> (out: Vec<ShapeVertex>)
        ensures
            out@ == outline(self.shape, self.size),
            out@.len() == outline_len(self.shape),
    {
        let s: i64 = self.size as i64;
        match self.shape {
            Shape::Triangle => {
                let mut v: Vec<ShapeVertex> = Vec::new();
                v.push(vertex_at(-s, -s));
                v.push(vertex_at(0, s));
                v.push(vertex_at(s, -s));
                assert(v@ =~= outline(self.shape, self.size));
                v
            },
            Shape::Square => {
                let mut v: Vec<ShapeVertex> = Vec::new();
                v.push(vertex_at(-s, -s));
                v.push(vertex_at(s, -s));
                v.push(vertex_at(s, s));
                v.push(vertex_at(-s, -s));
                v.push(vertex_at(s, s));
                v.push(vertex_at(-s, s));
                assert(v@ =~= outline(self.shape, self.size));
                v
            },
            Shape::Circle => {
                let size: u32 = self.size;
                let mut v: Vec<ShapeVertex> = Vec::with_capacity((3 * CIRCLE_SEGMENTS) as usize);
                let mut i: u32 = 0;
                while i < CIRCLE_SEGMENTS
                    invariant
                        i <= CIRCLE_SEGMENTS,
                        v@.len() == 3 * i,
                        forall|k: int| 0 <= k < 3 * i ==> v@[k] == circle_vertex(size, k),
                    decreases CIRCLE_SEGMENTS - i,
                {
                    v.push(vertex_at(0, 0));
                    v.push(rim_vertex(size, i));
                    v.push(rim_vertex(size, i + 1));
                    i = i + 1;
                }
                assert(v@ =~= outline(self.shape, self.size));
                v
            },
        }
    }
}

fn vertex_at(dx: i64, dy: i64) -> (v: ShapeVertex)
    ensures
        v == corner(dx as int, dy as int),
{
    ShapeVertex { offset: Offset::Straight { dx: Length::whole(dx), dy: Length::whole(dy) } }
}

fn rim_vertex(size: u32, step: u32) -> (v: ShapeVertex)
    ensures
        v.offset == (Offset::Polar {
            step,
            of: CIRCLE_SEGMENTS,
            rx: Length::whole(size as i64),
            ry: Length::whole(size as i64),
        }),
{
    let radius = Length::whole(size as i64);
    ShapeVertex { offset: Offset::Polar { step, of: CIRCLE_SEGMENTS, rx: radius, ry: radius } }
}

/// Whether `v` is the corner of the box `[-size, size]²` that lies towards
/// `(sx, sy)`, each of them `-1` or `1`.
pub open spec fn is_box_corner(v: ShapeVertex, size: u32, sx: int, sy: int) -> bool {
    v == corner(sx * size, sy * size)
}

/// An outline has as many vertices as `outline_len` says: three for a
/// triangle, six for a square, three for each wedge of a circle.
pub proof fn lemma_outline_len(shape: Shape, size: u32)
    ensures
        outline(shape, size).len() == outline_len(shape),
{
}

/// The triangle stands on its base with the apex up: the first and the last
/// vertex are the ends of the base at height `-size`, the middle one is the
/// apex above the centre at height `size`.
pub proof fn lemma_triangle_apex_up(size: u32)
    ensures
        outline(Shape::Triangle, size).len() == 3,
        outline(Shape::Triangle, size)[0] == corner(-size, -size),
        outline(Shape::Triangle, size)[1] == corner(0, size as int),
        outline(Shape::Triangle, size)[2] == corner(size as int, -size),
{
}

/// The square is the box `[-size, size]²` cut along the diagonal from its
/// lower left to its upper right corner: both triangles have that diagonal
/// as an edge, the first has the lower right corner besides, the second the
/// upper left. So every corner of the box is a vertex, and every vertex a
/// corner of the box.
pub proof fn lemma_square_covers_box(size: u32)
    ensures
        outline(Shape::Square, size).len() == 6,
        is_box_corner(outline(Shape::Square, size)[0], size, -1, -1),
        is_box_corner(outline(Shape::Square, size)[1], size, 1, -1),
        is_box_corner(outline(Shape::Square, size)[2], size, 1, 1),
        is_box_corner(outline(Shape::Square, size)[3], size, -1, -1),
        is_box_corner(outline(Shape::Square, size)[4], size, 1, 1),
        is_box_corner(outline(Shape::Square, size)[5], size, -1, 1),
{
}

/// In the circle every third vertex is the centre, and every other vertex
/// lies on the circle of radius `size` around it.
pub proof fn lemma_circle_vertices(size: u32, k: int)
    requires
        0 <= k < 3 * CIRCLE_SEGMENTS,
    ensures
        outline(Shape::Circle, size).len() == 3 * CIRCLE_SEGMENTS,
        k % 3 == 0 ==> outline(Shape::Circle, size)[k] == corner(0, 0),
        k % 3 != 0 ==> outline(Shape::Circle, size)[k].offset.on_circle(size),
{
}

/// The wedges of the circle follow one another around the centre: wedge `i`
/// reaches from step `i` to step `i + 1` of sixty-four, so each wedge begins
/// where the one before it ended, and the last ends on the full turn.
pub proof fn lemma_circle_wedges(size: u32, i: int)
    requires
        0 <= i < CIRCLE_SEGMENTS,
    ensures
        outline(Shape::Circle, size)[3 * i].offset == Offset::zero(),
        outline(Shape::Circle, size)[3 * i + 1].offset == (Offset::Polar {
            step: i as u32,
            of: CIRCLE_SEGMENTS,
            rx: Length::whole(size as i64),
            ry: Length::whole(size as i64),
        }),
        outline(Shape::Circle, size)[3 * i + 2].offset == (Offset::Polar {
            step: (i + 1) as u32,
            of: CIRCLE_SEGMENTS,
            rx: Length::whole(size as i64),
            ry: Length::whole(size as i64),
        }),
{
}

} // verus!
