use shape_viewer::aspect::Aspect;
use shape_viewer::axis::{generate_vertices, overlay_vertex_count, overlay_vertices, tick_count};
use shape_viewer::axis::{AxisVertex, Overlay};
use shape_viewer::axis::{AXIS_HALF_T, DOT_RADIUS, DOT_SEGMENTS, GRID_FULL_SPAN, GRID_HALF_T, TICK_SPACING};
use shape_viewer::units::{Length, Offset, Point, Rgba};

const WIDE: Aspect = Aspect { width: 4, height: 3 };
const SQUARE: Aspect = Aspect { width: 1, height: 1 };

fn dark_blue() -> Rgba {
    Rgba { r: 50, g: 150, b: 700, a: 1000 }
}

fn grey() -> Rgba {
    Rgba { r: 600, g: 600, b: 600, a: 1000 }
}

fn whole(n: i64) -> Length {
    Length { num: n, den: 1 }
}

/// A vertex of a horizontal stroke: displaced vertically by whole thousandths.
fn vert_h(x: i64, y: i64, dy: i64, color: Rgba) -> AxisVertex {
    AxisVertex {
        anchor: Point { x, y },
        offset: Offset::Straight { dx: whole(0), dy: whole(dy) },
        color,
    }
}

/// A vertex of a vertical stroke: displaced horizontally by `num / den`.
fn vert_v(x: i64, y: i64, num: i64, den: u32, color: Rgba) -> AxisVertex {
    AxisVertex {
        anchor: Point { x, y },
        offset: Offset::Straight { dx: Length { num, den }, dy: whole(0) },
        color,
    }
}

#[test]
fn constants_are_in_thousandths() {
    assert_eq!(TICK_SPACING, 100);
    assert_eq!(AXIS_HALF_T, 5);
    assert_eq!(GRID_HALF_T, 3);
    assert_eq!(DOT_RADIUS, 7);
    assert_eq!(DOT_SEGMENTS, 12);
    assert_eq!(GRID_FULL_SPAN, 1000);
}

#[test]
fn tick_count_rounds_to_nearest() {
    assert_eq!(tick_count(0), 0);
    assert_eq!(tick_count(49), 0);
    assert_eq!(tick_count(50), 1);
    assert_eq!(tick_count(100), 1);
    assert_eq!(tick_count(149), 1);
    assert_eq!(tick_count(150), 2);
    assert_eq!(tick_count(250), 3);
    assert_eq!(tick_count(500), 5);
    assert_eq!(tick_count(1000), 10);
    assert_eq!(tick_count(1049), 10);
}

#[test]
fn tick_count_of_the_largest_arm() {
    assert_eq!(tick_count(u32::MAX), 42949673);
    assert_eq!(tick_count(4294967249), 42949672);
    assert_eq!(tick_count(4294967250), 42949673);
}

#[test]
fn last_tick_is_within_half_a_spacing_of_the_arm() {
    for arm in 0..2000u32 {
        let reach = tick_count(arm) as i64 * 100;
        assert!((reach - arm as i64).abs() <= 50);
    }
}

#[test]
fn overlay_off_is_empty() {
    assert!(overlay_vertices(Overlay::Off, 1000, WIDE).is_empty());
    assert!(overlay_vertices(Overlay::Off, 0, SQUARE).is_empty());
}

#[test]
fn overlay_modes_match_the_generator() {
    assert_eq!(overlay_vertices(Overlay::AxisOnly, 700, WIDE), generate_vertices(700, false, WIDE));
    assert_eq!(overlay_vertices(Overlay::AxisWithGrid, 700, WIDE), generate_vertices(700, true, WIDE));
}

#[test]
fn axis_only_vertex_count_for_unit_arm() {
    let v = generate_vertices(1000, false, WIDE);
    assert_eq!(v.len(), 4 * 10 * (3 * 12) + 2 * 6);
    assert_eq!(v.len(), 1452);
}

#[test]
fn axis_only_has_four_dots_for_each_tick() {
    for arm in [0u32, 40, 50, 100, 333, 500, 1000, 1234] {
        let v = generate_vertices(arm, false, SQUARE);
        let dots = (v.len() - 12) / 36;
        assert_eq!((v.len() - 12) % 36, 0);
        assert_eq!(dots as u32, 4 * tick_count(arm));
    }
}

#[test]
fn grid_vertex_count() {
    let v = generate_vertices(1000, true, WIDE);
    assert_eq!(v.len(), 10 * 4 * 6 + 2 * 6 + 4 * 10 * 36);
    let short = generate_vertices(200, true, WIDE);
    assert_eq!(short.len(), 240 + 12 + 4 * 2 * 36);
}

#[test]
fn zero_arm_has_axes_and_no_dots() {
    let v = generate_vertices(0, false, WIDE);
    assert_eq!(v.len(), 12);
    for vertex in &v {
        assert_eq!(vertex.anchor, Point { x: 0, y: 0 });
    }
}

#[test]
fn axis_only_starts_with_the_x_axis_at_arm_length() {
    let v = generate_vertices(800, false, WIDE);
    let c = dark_blue();
    assert_eq!(
        &v[0..6],
        &[
            vert_h(-800, 0, -5, c),
            vert_h(800, 0, -5, c),
            vert_h(800, 0, 5, c),
            vert_h(-800, 0, -5, c),
            vert_h(800, 0, 5, c),
            vert_h(-800, 0, 5, c),
        ]
    );
}

#[test]
fn y_axis_follows_with_corrected_thickness() {
    let v = generate_vertices(800, false, WIDE);
    let c = dark_blue();
    assert_eq!(
        &v[6..12],
        &[
            vert_v(0, -800, -15, 4, c),
            vert_v(0, -800, 15, 4, c),
            vert_v(0, 800, 15, 4, c),
            vert_v(0, -800, -15, 4, c),
            vert_v(0, 800, 15, 4, c),
            vert_v(0, 800, -15, 4, c),
        ]
    );
}

#[test]
fn grid_begins_with_the_lines_of_the_first_tick() {
    let v = generate_vertices(500, true, WIDE);
    let g = grey();
    assert_eq!(
        &v[0..6],
        &[
            vert_h(-1000, 100, -3, g),
            vert_h(1000, 100, -3, g),
            vert_h(1000, 100, 3, g),
            vert_h(-1000, 100, -3, g),
            vert_h(1000, 100, 3, g),
            vert_h(-1000, 100, 3, g),
        ]
    );
    assert_eq!(v[6], vert_h(-1000, -100, -3, g));
    assert_eq!(
        &v[12..18],
        &[
            vert_v(100, -1000, -9, 4, g),
            vert_v(100, -1000, 9, 4, g),
            vert_v(100, 1000, 9, 4, g),
            vert_v(100, -1000, -9, 4, g),
            vert_v(100, 1000, 9, 4, g),
            vert_v(100, 1000, -9, 4, g),
        ]
    );
    assert_eq!(v[18], vert_v(-100, -1000, -9, 4, g));
}

#[test]
fn grid_reaches_the_edge_of_the_viewport() {
    let v = generate_vertices(500, true, WIDE);
    assert_eq!(v[9 * 24], vert_h(-1000, 1000, -3, grey()));
    assert_eq!(v[9 * 24 + 12], vert_v(1000, -1000, -9, 4, grey()));
}

#[test]
fn grid_mode_does_not_depend_on_arm_length_behind_the_dots() {
    let short = generate_vertices(100, true, WIDE);
    let long = generate_vertices(900, true, WIDE);
    assert_eq!(&short[0..252], &long[0..252]);
    assert!(short.len() < long.len());
}

#[test]
fn grid_mode_axes_span_the_viewport_like_the_grid() {
    let v = generate_vertices(300, true, WIDE);
    let c = dark_blue();
    assert_eq!(v[240], vert_h(-1000, 0, -5, c));
    assert_eq!(v[241], vert_h(1000, 0, -5, c));
    assert_eq!(v[246], vert_v(0, -1000, -15, 4, c));
    assert_eq!(v[248], vert_v(0, 1000, 15, 4, c));
    for vertex in &v[0..252] {
        let on_edge = vertex.anchor.x.abs() == 1000 || vertex.anchor.y.abs() == 1000;
        assert!(on_edge);
    }
}

#[test]
fn painter_order_is_grid_then_axes_then_dots() {
    let v = generate_vertices(300, true, SQUARE);
    for vertex in &v[0..240] {
        assert_eq!(vertex.color, grey());
        assert!(matches!(vertex.offset, Offset::Straight { .. }));
    }
    for vertex in &v[240..] {
        assert_eq!(vertex.color, dark_blue());
    }
    for (k, vertex) in v[252..].iter().enumerate() {
        if k % 3 != 0 {
            assert!(matches!(vertex.offset, Offset::Polar { .. }));
        } else {
            assert_eq!(vertex.offset, Offset::Straight { dx: whole(0), dy: whole(0) });
        }
    }
}

#[test]
fn dots_sit_on_every_tick_in_all_four_directions() {
    let v = generate_vertices(300, false, WIDE);
    let centers: Vec<Point> = v[12..].chunks(36).map(|dot| dot[0].anchor).collect();
    assert_eq!(
        centers,
        vec![
            Point { x: 100, y: 0 },
            Point { x: -100, y: 0 },
            Point { x: 0, y: 100 },
            Point { x: 0, y: -100 },
            Point { x: 200, y: 0 },
            Point { x: -200, y: 0 },
            Point { x: 0, y: 200 },
            Point { x: 0, y: -200 },
            Point { x: 300, y: 0 },
            Point { x: -300, y: 0 },
            Point { x: 0, y: 300 },
            Point { x: 0, y: -300 },
        ]
    );
}

#[test]
fn a_dot_is_a_fan_of_twelve_wedges() {
    let v = generate_vertices(100, false, WIDE);
    let dot = &v[12..48];
    for (k, vertex) in dot.iter().enumerate() {
        assert_eq!(vertex.anchor, Point { x: 100, y: 0 });
        let wedge = (k / 3) as u32;
        let rx = Length { num: 21, den: 4 };
        let ry = whole(7);
        let expected = match k % 3 {
            0 => Offset::Straight { dx: whole(0), dy: whole(0) },
            1 => Offset::Polar { step: wedge, of: 12, rx, ry },
            _ => Offset::Polar { step: wedge + 1, of: 12, rx, ry },
        };
        assert_eq!(vertex.offset, expected);
    }
}

#[test]
fn rounding_may_overshoot_the_arm() {
    let v = generate_vertices(260, false, SQUARE);
    assert_eq!(v.len(), 12 + 4 * 3 * 36);
    assert_eq!(v[12 + 8 * 36].anchor, Point { x: 300, y: 0 });
    assert_eq!(v[0].anchor, Point { x: -260, y: 0 });
}

#[test]
fn rounding_may_fall_short_of_the_arm() {
    let v = generate_vertices(240, false, SQUARE);
    assert_eq!(v.len(), 12 + 4 * 2 * 36);
    assert_eq!(v[1].anchor, Point { x: 240, y: 0 });
}

#[test]
fn horizontal_extents_are_divided_by_the_aspect() {
    for aspect in [WIDE, SQUARE, Aspect { width: 9, height: 16 }] {
        let v = generate_vertices(200, true, aspect);
        for vertex in &v {
            match vertex.offset {
                Offset::Straight { dx, dy } => {
                    assert_eq!(dy.den, 1);
                    if dx.num != 0 {
                        assert_eq!(dx.den, aspect.width);
                        assert_eq!(dx.num.abs() % aspect.height as i64, 0);
                        assert_eq!(dy.num, 0);
                    }
                }
                Offset::Polar { rx, ry, .. } => {
                    assert_eq!(ry, whole(7));
                    assert_eq!(rx, Length { num: 7 * aspect.height as i64, den: aspect.width });
                }
            }
        }
    }
}

#[test]
fn square_aspect_leaves_thickness_as_it_is() {
    let v = generate_vertices(500, false, SQUARE);
    assert_eq!(v[2].offset, Offset::Straight { dx: whole(0), dy: whole(5) });
    assert_eq!(v[7].offset, Offset::Straight { dx: whole(5), dy: whole(0) });
}

#[test]
fn vertical_strokes_look_as_wide_as_horizontal_ones_are_high() {
    let v = generate_vertices(500, false, WIDE);
    let aspect = WIDE.width as f32 / WIDE.height as f32;
    let thickness = |vertex: &AxisVertex| match vertex.offset {
        Offset::Straight { dx, dy } => (
            dx.num as f32 / dx.den as f32 / 1000.0,
            dy.num as f32 / dy.den as f32 / 1000.0,
        ),
        Offset::Polar { .. } => panic!("an axis has no rim points"),
    };
    let (_, high) = thickness(&v[2]);
    let (wide, _) = thickness(&v[7]);
    assert_eq!(high, 0.005);
    assert_eq!(wide, 0.00375);
    assert!((wide * aspect - high).abs() < 1e-9);
}

#[test]
fn geometry_differs_between_aspects() {
    assert_ne!(generate_vertices(500, true, WIDE), generate_vertices(500, true, SQUARE));
    assert_eq!(generate_vertices(500, true, WIDE).len(), generate_vertices(500, true, SQUARE).len());
}

#[test]
fn vertex_count_without_generating() {
    assert_eq!(overlay_vertex_count(Overlay::Off, 1000), 0);
    assert_eq!(overlay_vertex_count(Overlay::AxisOnly, 1000), 1452);
    assert_eq!(overlay_vertex_count(Overlay::AxisWithGrid, 1000), 1692);
    assert_eq!(overlay_vertex_count(Overlay::AxisOnly, u32::MAX), 12 + 144 * 42949673);
    for arm in [0u32, 70, 450, 990] {
        for mode in [Overlay::Off, Overlay::AxisOnly, Overlay::AxisWithGrid] {
            let generated = overlay_vertices(mode, arm, SQUARE).len() as u64;
            assert_eq!(overlay_vertex_count(mode, arm), generated);
        }
    }
}

#[test]
fn generation_is_repeatable() {
    assert_eq!(generate_vertices(730, true, WIDE), generate_vertices(730, true, WIDE));
}
