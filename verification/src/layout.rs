//! The fixed layouts that the geometry and the graphics pipelines agree on:
//! how a vertex of either list is laid out in its buffer, and what each
//! uniform block holds.

use vstd::prelude::*;
use crate::aspect::Aspect;
use crate::units::{Point, Rgba};

verus! {

/// Bytes in one 32-bit float.
pub const FLOAT_BYTES: u64 = 4;

/// Floats in a vertex of the shape: its position.
pub const SHAPE_VERTEX_FLOATS: u64 = 2;

/// Floats in a vertex of the overlay: its position, then its colour.
pub const AXIS_VERTEX_FLOATS: u64 = 6;

/// The format of one vertex attribute.
#[derive(Clone, Copy, Debug, PartialEq, Eq, Structural)]
pub enum VertexFormat {
    /// Two 32-bit floats.
    Float32x2,
    /// Four 32-bit floats.
    Float32x4,
}

impl VertexFormat {
    /// Number of floats in an attribute of this format.
    pub open spec fn spec_floats(self) -> u64 {
        match self {
            VertexFormat::Float32x2 => 2,
            VertexFormat::Float32x4 => 4,
        }
    }

    #[verifier::when_used_as_spec(spec_floats)]
    pub fn floats(self) -> (n: u64)
        ensures
            n == self.spec_floats(),
    {
        match self {
            VertexFormat::Float32x2 => 2,
            VertexFormat::Float32x4 => 4,
        }
    }

    /// Number of bytes that an attribute of this format takes.
    pub open spec fn spec_size(self) -> u64 {
        (FLOAT_BYTES * self.spec_floats()) as u64
    }

    #[verifier::when_used_as_spec(spec_size)]
    pub fn size(self) -> (n: u64)
        ensures
            n == self.spec_size(),
    {
        FLOAT_BYTES * self.floats()
    }
}

/// One attribute of a vertex: where it starts within the vertex, which
/// shader input it feeds, and its format.
#[derive(Clone, Copy, Debug, PartialEq, Eq, Structural)]
pub struct VertexAttribute {
    pub offset: u64,
    pub shader_location: u32,
    pub format: VertexFormat,
}

/// The layout of one vertex buffer, stepped once per vertex.
#[derive(Debug)]
pub struct VertexLayout {
    pub array_stride: u64,
    pub attributes: Vec<VertexAttribute>,
}

/// Bytes taken by the first `n` attributes.
pub open spec fn bytes_before(attributes: Seq<VertexAttribute>, n: int) -> int
    decreases n,
{
    if n <= 0 {
        0
    } else {
        bytes_before(attributes, n - 1) + attributes[n - 1].format.spec_size()
    }
}

impl VertexLayout {
    /// The attributes follow one another without gaps, feed the shader
    /// inputs in their order, and fill the stride exactly.
    pub open spec fn packed(&self) -> bool {
        &&& forall|i: int|
            0 <= i < self.attributes@.len() ==> {
                &&& (#[trigger] self.attributes@[i]).offset == bytes_before(self.attributes@, i)
                &&& self.attributes@[i].shader_location == i
            }
        &&& self.array_stride == bytes_before(self.attributes@, self.attributes@.len() as int)
    }

    /// The layout of the shape's vertex buffer.
    pub open spec fn shape_spec(&self) -> bool {
        &&& self.array_stride == 8
        &&& self.attributes@ == seq![
            VertexAttribute { offset: 0, shader_location: 0, format: VertexFormat::Float32x2 },
        ]
    }

    /// The layout of the overlay's vertex buffer.
    pub open spec fn axis_spec(&self) -> bool {
        &&& self.array_stride == 24
        &&& self.attributes@ == seq![
            VertexAttribute { offset: 0, shader_location: 0, format: VertexFormat::Float32x2 },
            VertexAttribute { offset: 8, shader_location: 1, format: VertexFormat::Float32x4 },
        ]
    }

    /// The layout of the shape's vertex buffer: a position of two floats.
    pub fn shape() -> (layout: VertexLayout)
        ensures
            layout.shape_spec(),
            layout.packed(),
            layout.array_stride == FLOAT_BYTES * SHAPE_VERTEX_FLOATS,
    {
        let mut attributes: Vec<VertexAttribute> = Vec::new();
        attributes.push(
            VertexAttribute { offset: 0, shader_location: 0, format: VertexFormat::Float32x2 },
        );
        let layout = VertexLayout { array_stride: 8, attributes };
        proof {
            assert(layout.attributes@ =~= seq![
                VertexAttribute { offset: 0, shader_location: 0, format: VertexFormat::Float32x2 },
            ]);
            reveal_with_fuel(bytes_before, 3);
        }
        layout
    }

    /// The layout of the overlay's vertex buffer: a position of two floats,
    /// then a colour of four.
    pub fn axis() -> (layout: VertexLayout)
        ensures
            layout.axis_spec(),
            layout.packed(),
            layout.array_stride == FLOAT_BYTES * AXIS_VERTEX_FLOATS,
    {
        let mut attributes: Vec<VertexAttribute> = Vec::new();
        attributes.push(
            VertexAttribute { offset: 0, shader_location: 0, format: VertexFormat::Float32x2 },
        );
        attributes.push(
            VertexAttribute { offset: 8, shader_location: 1, format: VertexFormat::Float32x4 },
        );
        let layout = VertexLayout { array_stride: 24, attributes };
        proof {
            assert(layout.attributes@ =~= seq![
                VertexAttribute { offset: 0, shader_location: 0, format: VertexFormat::Float32x2 },
                VertexAttribute { offset: 8, shader_location: 1, format: VertexFormat::Float32x4 },
            ]);
            reveal_with_fuel(bytes_before, 3);
        }
        layout
    }
}

/// One 32-bit float of a uniform block, before it is evaluated.
#[derive(Clone, Copy, Debug, PartialEq, Eq, Structural)]
pub enum Scalar {
    /// A number of thousandths.
    Thousandths(i64),
    /// The quotient of an aspect's width by its height.
    Ratio(Aspect),
    /// Zero, written only to fill the block.
    Padding,
}

/// The colour block: red, green, blue and alpha.
pub open spec fn color_block_spec(color: Rgba) -> Seq<Scalar> {
    seq![
        Scalar::Thousandths(color.r as i64),
        Scalar::Thousandths(color.g as i64),
        Scalar::Thousandths(color.b as i64),
        Scalar::Thousandths(color.a as i64),
    ]
}

/// The aspect block: the ratio, then padding.
pub open spec fn aspect_block_spec(aspect: Aspect) -> Seq<Scalar> {
    seq![Scalar::Ratio(aspect), Scalar::Padding, Scalar::Padding, Scalar::Padding]
}

/// The position block: x and y, then padding.
pub open spec fn position_block_spec(position: Point) -> Seq<Scalar> {
    seq![
        Scalar::Thousandths(position.x),
        Scalar::Thousandths(position.y),
        Scalar::Padding,
        Scalar::Padding,
    ]
}

/// Lays out the colour uniform.
pub fn color_block(color: Rgba) -> (block: [Scalar; 4])
    ensures
        block@ == color_block_spec(color),
{
    [
        Scalar::Thousandths(color.r as i64),
        Scalar::Thousandths(color.g as i64),
        Scalar::Thousandths(color.b as i64),
        Scalar::Thousandths(color.a as i64),
    ]
}

/// Lays out the aspect uniform, of which only the first float is read.
pub fn aspect_block(aspect: Aspect) -> (block: [Scalar; 4])
    ensures
        block@ == aspect_block_spec(aspect),
{
    [Scalar::Ratio(aspect), Scalar::Padding, Scalar::Padding, Scalar::Padding]
}

/// Lays out the position uniform, of which only the first two floats are read.
pub fn position_block(position: Point) -> (block: [Scalar; 4])
    ensures
        block@ == position_block_spec(position),
{
    [
        Scalar::Thousandths(position.x),
        Scalar::Thousandths(position.y),
        Scalar::Padding,
        Scalar::Padding,
    ]
}

/// The uniform blocks of the shape pipeline.
#[derive(Clone, Copy, Debug, PartialEq, Eq, Structural)]
pub enum Uniform {
    Color,
    Aspect,
    Position,
}

/// The shader stage that reads a uniform block.
#[derive(Clone, Copy, Debug, PartialEq, Eq, Structural)]
pub enum Stage {
    Vertex,
    Fragment,
}

impl Uniform {
    /// The binding of this block within the shape pipeline's bind group.
    pub open spec fn spec_binding(self) -> u32 {
        match self {
            Uniform::Color => 0,
            Uniform::Aspect => 1,
            Uniform::Position => 2,
        }
    }

    #[verifier::when_used_as_spec(spec_binding)]
    pub fn binding(self) -> (b: u32)
        ensures
            b == self.spec_binding(),
    {
        match self {
            Uniform::Color => 0,
            Uniform::Aspect => 1,
            Uniform::Position => 2,
        }
    }

    /// The stage that reads this block: the colour is read where fragments
    /// are shaded, the other two where vertices are placed.
    pub open spec fn spec_stage(self) -> Stage {
        match self {
            Uniform::Color => Stage::Fragment,
            Uniform::Aspect => Stage::Vertex,
            Uniform::Position => Stage::Vertex,
        }
    }

    #[verifier::when_used_as_spec(spec_stage)]
    pub fn stage(self) -> (s: Stage)
        ensures
            s == self.spec_stage(),
    {
        match self {
            Uniform::Color => Stage::Fragment,
            Uniform::Aspect => Stage::Vertex,
            Uniform::Position => Stage::Vertex,
        }
    }

    /// Whether the block is rewritten after construction. Only the aspect is.
    pub open spec fn spec_is_rewritten(self) -> bool {
        self == Uniform::Aspect
    }

    #[verifier::when_used_as_spec(spec_is_rewritten)]
    pub fn is_rewritten(self) -> (rewritten: bool)
        ensures
            rewritten == self.spec_is_rewritten(),
    {
        match self {
            Uniform::Aspect => true,
            _ => false,
        }
    }
}

} // verus!
