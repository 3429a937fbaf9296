use shape_viewer::aspect::Aspect;
use shape_viewer::layout::{aspect_block, color_block, position_block};
use shape_viewer::layout::{Scalar, Stage, Uniform, VertexAttribute, VertexFormat, VertexLayout};
use shape_viewer::layout::{AXIS_VERTEX_FLOATS, FLOAT_BYTES, SHAPE_VERTEX_FLOATS};
use shape_viewer::units::{Point, Rgba};

#[test]
fn shape_vertices_are_two_floats() {
    let layout = VertexLayout::shape();
    assert_eq!(layout.array_stride, 8);
    assert_eq!(layout.array_stride, FLOAT_BYTES * SHAPE_VERTEX_FLOATS);
    assert_eq!(
        layout.attributes,
        vec![VertexAttribute { offset: 0, shader_location: 0, format: VertexFormat::Float32x2 }]
    );
}

#[test]
fn overlay_vertices_are_position_then_colour() {
    let layout = VertexLayout::axis();
    assert_eq!(layout.array_stride, 24);
    assert_eq!(layout.array_stride, FLOAT_BYTES * AXIS_VERTEX_FLOATS);
    assert_eq!(
        layout.attributes,
        vec![
            VertexAttribute { offset: 0, shader_location: 0, format: VertexFormat::Float32x2 },
            VertexAttribute { offset: 8, shader_location: 1, format: VertexFormat::Float32x4 },
        ]
    );
}

#[test]
fn layouts_are_packed() {
    for layout in [VertexLayout::shape(), VertexLayout::axis()] {
        let mut next = 0u64;
        for (i, attribute) in layout.attributes.iter().enumerate() {
            assert_eq!(attribute.offset, next);
            assert_eq!(attribute.shader_location as usize, i);
            next += attribute.format.size();
        }
        assert_eq!(layout.array_stride, next);
    }
}

#[test]
fn format_sizes() {
    assert_eq!(VertexFormat::Float32x2.floats(), 2);
    assert_eq!(VertexFormat::Float32x4.floats(), 4);
    assert_eq!(VertexFormat::Float32x2.size(), 8);
    assert_eq!(VertexFormat::Float32x4.size(), 16);
}

#[test]
fn colour_block_is_rgba() {
    let block = color_block(Rgba { r: 1000, g: 250, b: 0, a: 500 });
    assert_eq!(
        block,
        [
            Scalar::Thousandths(1000),
            Scalar::Thousandths(250),
            Scalar::Thousandths(0),
            Scalar::Thousandths(500),
        ]
    );
    assert_eq!(block.len(), 4);
}

#[test]
fn aspect_block_is_padded() {
    let aspect = Aspect { width: 4, height: 3 };
    assert_eq!(
        aspect_block(aspect),
        [Scalar::Ratio(aspect), Scalar::Padding, Scalar::Padding, Scalar::Padding]
    );
}

#[test]
fn position_block_is_padded() {
    assert_eq!(
        position_block(Point { x: -250, y: 400 }),
        [Scalar::Thousandths(-250), Scalar::Thousandths(400), Scalar::Padding, Scalar::Padding]
    );
}

#[test]
fn uniform_bindings_and_stages() {
    assert_eq!(Uniform::Color.binding(), 0);
    assert_eq!(Uniform::Aspect.binding(), 1);
    assert_eq!(Uniform::Position.binding(), 2);
    assert_eq!(Uniform::Color.stage(), Stage::Fragment);
    assert_eq!(Uniform::Aspect.stage(), Stage::Vertex);
    assert_eq!(Uniform::Position.stage(), Stage::Vertex);
}

#[test]
fn only_the_aspect_is_rewritten() {
    assert!(!Uniform::Color.is_rewritten());
    assert!(Uniform::Aspect.is_rewritten());
    assert!(!Uniform::Position.is_rewritten());
}
