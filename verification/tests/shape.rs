use shape_viewer::aspect::Aspect;
use shape_viewer::axis::Overlay;
use shape_viewer::shape::{Shape, ShapeConfig, ShapeVertex, CIRCLE_SEGMENTS};
use shape_viewer::units::{Length, Offset, Point, Rgba};

fn config(shape: Shape, size: u32) -> ShapeConfig {
    ShapeConfig {
        shape,
        color: Rgba { r: 1000, g: 0, b: 0, a: 1000 },
        size,
        position: Point { x: 0, y: 0 },
        axis: false,
        axis_grid: false,
        axis_arm_len: size,
    }
}

fn whole(n: i64) -> Length {
    Length { num: n, den: 1 }
}

fn at(dx: i64, dy: i64) -> ShapeVertex {
    ShapeVertex { offset: Offset::Straight { dx: whole(dx), dy: whole(dy) } }
}

#[test]
fn triangle_is_three_vertices_apex_up() {
    let v = config(Shape::Triangle, 500).vertices();
    assert_eq!(v, vec![at(-500, -500), at(0, 500), at(500, -500)]);
}

#[test]
fn square_is_two_triangles_over_the_box() {
    let v = config(Shape::Square, 250).vertices();
    assert_eq!(
        v,
        vec![
            at(-250, -250),
            at(250, -250),
            at(250, 250),
            at(-250, -250),
            at(250, 250),
            at(-250, 250),
        ]
    );
}

#[test]
fn square_touches_every_corner_of_the_box() {
    let v = config(Shape::Square, 7).vertices();
    for corner in [at(-7, -7), at(7, -7), at(7, 7), at(-7, 7)] {
        assert!(v.contains(&corner));
    }
    for vertex in &v {
        match vertex.offset {
            Offset::Straight { dx, dy } => {
                assert_eq!((dx.num.abs(), dx.den), (7, 1));
                assert_eq!((dy.num.abs(), dy.den), (7, 1));
            }
            Offset::Polar { .. } => panic!("a square has no rim points"),
        }
    }
}

#[test]
fn circle_has_three_vertices_for_each_wedge() {
    let v = config(Shape::Circle, 500).vertices();
    assert_eq!(CIRCLE_SEGMENTS, 64);
    assert_eq!(v.len(), 192);
}

#[test]
fn circle_wedges_share_the_centre_and_lie_on_the_rim() {
    let v = config(Shape::Circle, 300).vertices();
    for (k, vertex) in v.iter().enumerate() {
        let wedge = (k / 3) as u32;
        let expected = match k % 3 {
            0 => Offset::Straight { dx: whole(0), dy: whole(0) },
            1 => Offset::Polar { step: wedge, of: 64, rx: whole(300), ry: whole(300) },
            _ => Offset::Polar { step: wedge + 1, of: 64, rx: whole(300), ry: whole(300) },
        };
        assert_eq!(vertex.offset, expected);
    }
}

#[test]
fn circle_rim_is_at_distance_size_from_the_centre() {
    let size = 500u32;
    let v = config(Shape::Circle, size).vertices();
    for vertex in &v {
        if let Offset::Polar { step, of, rx, ry } = vertex.offset {
            let angle = 2.0 * std::f64::consts::PI * step as f64 / of as f64;
            let x = angle.cos() * rx.num as f64 / rx.den as f64;
            let y = angle.sin() * ry.num as f64 / ry.den as f64;
            assert!(((x * x + y * y).sqrt() - size as f64).abs() < 1e-9);
        }
    }
}

#[test]
fn circle_closes_on_the_full_turn() {
    let v = config(Shape::Circle, 10).vertices();
    assert_eq!(v[1].offset, Offset::Polar { step: 0, of: 64, rx: whole(10), ry: whole(10) });
    assert_eq!(v[191].offset, Offset::Polar { step: 64, of: 64, rx: whole(10), ry: whole(10) });
}

#[test]
fn size_zero_keeps_the_vertex_counts() {
    assert_eq!(config(Shape::Triangle, 0).vertices().len(), 3);
    assert_eq!(config(Shape::Square, 0).vertices().len(), 6);
    assert_eq!(config(Shape::Circle, 0).vertices().len(), 192);
}

#[test]
fn largest_size_does_not_wrap() {
    let v = config(Shape::Triangle, u32::MAX).vertices();
    assert_eq!(v[0], at(-4294967295, -4294967295));
    assert_eq!(v[1], at(0, 4294967295));
}

#[test]
fn outline_ignores_position_and_colour() {
    let mut moved = config(Shape::Square, 100);
    moved.position = Point { x: 400, y: -200 };
    moved.color = Rgba { r: 0, g: 0, b: 1000, a: 1000 };
    assert_eq!(moved.vertices(), config(Shape::Square, 100).vertices());
}

#[test]
fn options_default_arm_length_to_size_and_position_to_origin() {
    let c = ShapeConfig::from_options(Shape::Circle, "blue", 500, None, true, false, None);
    assert_eq!(c.shape, Shape::Circle);
    assert_eq!(c.color, Rgba { r: 0, g: 0, b: 1000, a: 1000 });
    assert_eq!(c.size, 500);
    assert_eq!(c.position, Point { x: 0, y: 0 });
    assert!(c.axis);
    assert!(!c.axis_grid);
    assert_eq!(c.axis_arm_len, 500);
}

#[test]
fn options_keep_what_was_given() {
    let c = ShapeConfig::from_options(
        Shape::Square,
        "green",
        250,
        Some(Point { x: -100, y: 300 }),
        false,
        true,
        Some(800),
    );
    assert_eq!(c.position, Point { x: -100, y: 300 });
    assert_eq!(c.axis_arm_len, 800);
    assert_eq!(c.color, Rgba { r: 0, g: 1000, b: 0, a: 1000 });
    assert!(c.axis_grid);
}

#[test]
fn palette_names() {
    assert_eq!(Rgba::from_name("red"), Rgba { r: 1000, g: 0, b: 0, a: 1000 });
    assert_eq!(Rgba::from_name("green"), Rgba { r: 0, g: 1000, b: 0, a: 1000 });
    assert_eq!(Rgba::from_name("blue"), Rgba { r: 0, g: 0, b: 1000, a: 1000 });
    assert_eq!(Rgba::from_name("yellow"), Rgba { r: 1000, g: 1000, b: 0, a: 1000 });
    assert_eq!(Rgba::from_name("cyan"), Rgba { r: 0, g: 1000, b: 1000, a: 1000 });
    assert_eq!(Rgba::from_name("magenta"), Rgba { r: 1000, g: 0, b: 1000, a: 1000 });
    assert_eq!(Rgba::from_name("black"), Rgba { r: 0, g: 0, b: 0, a: 1000 });
    assert_eq!(Rgba::from_name("white"), Rgba { r: 1000, g: 1000, b: 1000, a: 1000 });
}

#[test]
fn unknown_colour_name_falls_back_to_the_default() {
    let default = Rgba { r: 1000, g: 0, b: 0, a: 1000 };
    assert_eq!(Rgba::from_name("chartreuse"), default);
    assert_eq!(Rgba::from_name(""), default);
    assert_eq!(Rgba::from_name("Blue"), default);
}

#[test]
fn overlay_mode_follows_the_flags() {
    let mut c = config(Shape::Triangle, 500);
    assert_eq!(c.overlay(), Overlay::Off);
    c.axis = true;
    assert_eq!(c.overlay(), Overlay::AxisOnly);
    c.axis_grid = true;
    assert_eq!(c.overlay(), Overlay::AxisWithGrid);
    c.axis = false;
    assert_eq!(c.overlay(), Overlay::AxisWithGrid);
}

#[test]
fn fixed_colours() {
    assert_eq!(Rgba::dark_blue(), Rgba { r: 50, g: 150, b: 700, a: 1000 });
    assert_eq!(Rgba::grey(), Rgba { r: 600, g: 600, b: 600, a: 1000 });
    assert_eq!(Rgba::white(), Rgba { r: 1000, g: 1000, b: 1000, a: 1000 });
    assert_eq!(Offset::zero(), Offset::Straight { dx: whole(0), dy: whole(0) });
}

#[test]
fn whole_and_negated_lengths() {
    assert_eq!(Length::whole(-250), Length { num: -250, den: 1 });
    assert_eq!(Length::whole(7).negated(), Length { num: -7, den: 1 });
    assert_eq!(Length { num: 15, den: 4 }.negated(), Length { num: -15, den: 4 });
    assert_eq!(Length::whole(0).negated(), Length::whole(0));
}

#[test]
fn length_over_aspect_is_exact() {
    let wide = Aspect { width: 4, height: 3 };
    assert_eq!(Length::over_aspect(5, wide), Length { num: 15, den: 4 });
    assert_eq!(Length::over_aspect(7, Aspect { width: 1, height: 1 }), Length { num: 7, den: 1 });
    assert_eq!(Length::over_aspect(0, wide), Length { num: 0, den: 4 });
    let tall = Aspect { width: 9, height: 16 };
    let l = Length::over_aspect(3, tall);
    assert_eq!(l, Length { num: 48, den: 9 });
    assert_eq!(l.num * tall.width as i64, 3 * tall.height as i64 * l.den as i64);
    let extreme = Length::over_aspect(u16::MAX, Aspect { width: 1, height: u32::MAX });
    assert_eq!(extreme, Length { num: 65535 * 4294967295, den: 1 });
}
