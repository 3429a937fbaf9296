//! The overlay drawn beneath the shape: grid lines, the two main axes and a
//! dot at every tick, as one triangle list.
//!
//! The list is emitted back to front. Nothing tests depth when it is drawn, so
//! the order alone puts the grid behind the axes and the axes behind the dots.

use vstd::prelude::*;
use crate::aspect::Aspect;
use crate::units::{fan_offset, Length, Offset, Point, Rgba};

verus! {

/// Distance between neighbouring ticks.
pub const TICK_SPACING: u32 = 100;

/// Half the thickness of the main axes.
pub const AXIS_HALF_T: u16 = 5;

/// Half the thickness of a grid line.
pub const GRID_HALF_T: u16 = 3;

/// Radius of a tick dot.
pub const DOT_RADIUS: u16 = 7;

/// Number of wedges that fill a tick dot.
pub const DOT_SEGMENTS: u32 = 12;

/// Grid lines reach from edge to edge of the viewport, whatever the arm length.
pub const GRID_FULL_SPAN: u32 = 1000;

/// Vertices in one quad: two triangles that share a diagonal.
pub const QUAD_VERTICES: u32 = 6;

/// Vertices in one tick dot.
pub const DOT_VERTICES: u32 = 36;

/// Which overlay is drawn beneath the shape.
#[derive(Clone, Copy, Debug, PartialEq, Eq, Structural)]
pub enum Overlay {
    /// No overlay at all.
    Off,
    /// The two main axes with their tick dots.
    AxisOnly,
    /// The axes and dots over a grid that fills the viewport.
    AxisWithGrid,
}

/// One vertex of the overlay: it stands at `anchor` displaced by `offset`.
#[derive(Clone, Copy, Debug, PartialEq, Eq, Structural)]
pub struct AxisVertex {
    pub anchor: Point,
    pub offset: Offset,
    pub color: Rgba,
}

/// The vertex at `(x, y)` displaced by `offset`.
pub open spec fn vert_at(x: int, y: int, offset: Offset, color: Rgba) -> AxisVertex {
    AxisVertex { anchor: Point { x: x as i64, y: y as i64 }, offset, color }
}

/// The vertex at `(x, y)` displaced by the plain vector `(dx, dy)`.
pub open spec fn vert_spec(x: int, y: int, dx: Length, dy: Length, color: Rgba) -> AxisVertex {
    vert_at(x, y, Offset::Straight { dx, dy }, color)
}

/// The horizontal stroke from `x0` to `x1` at height `y`, `ty` thick to
/// either side.
pub open spec fn h_quad_spec(x0: int, x1: int, y: int, ty: Length, color: Rgba) -> Seq<AxisVertex> {
    let none = Length::whole(0);
    seq![
        vert_spec(x0, y, none, ty.negated(), color),
        vert_spec(x1, y, none, ty.negated(), color),
        vert_spec(x1, y, none, ty, color),
        vert_spec(x0, y, none, ty.negated(), color),
        vert_spec(x1, y, none, ty, color),
        vert_spec(x0, y, none, ty, color),
    ]
}

/// The vertical stroke from `y0` to `y1` at `x`, `tx` thick to either side.
pub open spec fn v_quad_spec(x: int, y0: int, y1: int, tx: Length, color: Rgba) -> Seq<AxisVertex> {
    let none = Length::whole(0);
    seq![
        vert_spec(x, y0, tx.negated(), none, color),
        vert_spec(x, y0, tx, none, color),
        vert_spec(x, y1, tx, none, color),
        vert_spec(x, y0, tx.negated(), none, color),
        vert_spec(x, y1, tx, none, color),
        vert_spec(x, y1, tx.negated(), none, color),
    ]
}

/// The filled dot around `(cx, cy)`: a fan of twelve wedges.
pub open spec fn dot_spec(cx: int, cy: int, rx: Length, ry: Length, color: Rgba) -> Seq<AxisVertex> {
    Seq::new(
        DOT_VERTICES as nat,
        |k: int| vert_at(cx, cy, fan_offset(DOT_SEGMENTS, rx, ry, k), color),
    )
}

/// Number of ticks on each arm: the arm length divided by the tick spacing,
/// rounded to the nearest whole number, halves upwards.
pub open spec fn spec_tick_count(arm_len: u32) -> nat {
    ((arm_len + TICK_SPACING / 2) / (TICK_SPACING as int)) as nat
}

/// Computes the number of ticks on each arm. The last tick may fall short of
/// the end of the arm, or beyond it, by up to half a tick spacing.
pub fn tick_count(arm_len: u32) -> (steps: u32)
    ensures
        steps == spec_tick_count(arm_len),
        arm_len - TICK_SPACING / 2 < steps * TICK_SPACING <= arm_len + TICK_SPACING / 2,
{
    let whole: u32 = arm_len / TICK_SPACING;
    if arm_len % TICK_SPACING >= TICK_SPACING / 2 {
        whole + 1
    } else {
        whole
    }
}

/// The four grid lines at tick `i`: the horizontal ones above and below the
/// x axis, then the vertical ones right and left of the y axis. The vertical
/// ones have their thickness divided by the aspect.
pub open spec fn grid_lines_at(i: nat, aspect: Aspect) -> Seq<AxisVertex> {
    let t = i * TICK_SPACING;
    let s = GRID_FULL_SPAN as int;
    let ty = Length::whole(GRID_HALF_T as i64);
    let tx = Length::over_aspect(GRID_HALF_T, aspect);
    h_quad_spec(-s, s, t, ty, Rgba::grey()) + h_quad_spec(-s, s, -t, ty, Rgba::grey())
        + v_quad_spec(t, -s, s, tx, Rgba::grey()) + v_quad_spec(-t, -s, s, tx, Rgba::grey())
}

/// The grid lines at ticks `1..=n`, innermost first.
pub open spec fn grid(n: nat, aspect: Aspect) -> Seq<AxisVertex>
    decreases n,
{
    if n == 0 {
        Seq::empty()
    } else {
        grid((n - 1) as nat, aspect) + grid_lines_at(n, aspect)
    }
}

/// The two main axes, each reaching `span` to either side of the origin: the
/// x axis first. The y axis has its thickness divided by the aspect.
pub open spec fn axes(span: u32, aspect: Aspect) -> Seq<AxisVertex> {
    let s = span as int;
    let ty = Length::whole(AXIS_HALF_T as i64);
    let tx = Length::over_aspect(AXIS_HALF_T, aspect);
    h_quad_spec(-s, s, 0, ty, Rgba::dark_blue()) + v_quad_spec(0, -s, s, tx, Rgba::dark_blue())
}

/// The four dots at tick `i`: right and left on the x axis, then above and
/// below on the y axis. Each has its horizontal radius divided by the aspect.
pub open spec fn dots_at(i: nat, aspect: Aspect) -> Seq<AxisVertex> {
    let t = i * TICK_SPACING;
    let c = Rgba::dark_blue();
    let rx = Length::over_aspect(DOT_RADIUS, aspect);
    let ry = Length::whole(DOT_RADIUS as i64);
    dot_spec(t, 0, rx, ry, c) + dot_spec(-t, 0, rx, ry, c) + dot_spec(0, t, rx, ry, c) + dot_spec(
        0,
        -t,
        rx,
        ry,
        c,
    )
}

/// The dots at ticks `1..=n`, innermost first.
pub open spec fn dots(n: nat, aspect: Aspect) -> Seq<AxisVertex>
    decreases n,
{
    if n == 0 {
        Seq::empty()
    } else {
        dots((n - 1) as nat, aspect) + dots_at(n, aspect)
    }
}

/// How far the main axes reach: across the whole viewport with the grid, to
/// the end of the arm without it.
pub open spec fn axes_span(arm_len: u32, with_grid: bool) -> u32 {
    if with_grid {
        GRID_FULL_SPAN
    } else {
        arm_len
    }
}

/// The grid part of the overlay: every grid line of the viewport, or nothing.
pub open spec fn grid_part(with_grid: bool, aspect: Aspect) -> Seq<AxisVertex> {
    if with_grid {
        grid(spec_tick_count(GRID_FULL_SPAN), aspect)
    } else {
        Seq::empty()
    }
}

/// The whole overlay: grid lines, then the axes, then the tick dots.
pub open spec fn overlay(arm_len: u32, with_grid: bool, aspect: Aspect) -> Seq<AxisVertex> {
    grid_part(with_grid, aspect) + axes(axes_span(arm_len, with_grid), aspect) + dots(
        spec_tick_count(arm_len),
        aspect,
    )
}

/// What is generated for an overlay mode: nothing where the overlay is off.
pub open spec fn overlay_for(mode: Overlay, arm_len: u32, aspect: Aspect) -> Seq<AxisVertex> {
    match mode {
        Overlay::Off => Seq::empty(),
        Overlay::AxisOnly => overlay(arm_len, false, aspect),
        Overlay::AxisWithGrid => overlay(arm_len, true, aspect),
    }
}

/// Number of vertices generated for an overlay mode.
pub open spec fn overlay_len_for(mode: Overlay, arm_len: u32) -> nat {
    match mode {
        Overlay::Off => 0,
        Overlay::AxisOnly => overlay_len(arm_len, false),
        Overlay::AxisWithGrid => overlay_len(arm_len, true),
    }
}

/// Number of vertices in the overlay.
pub open spec fn overlay_len(arm_len: u32, with_grid: bool) -> nat {
    let grid_vertices = if with_grid {
        4 * QUAD_VERTICES * spec_tick_count(GRID_FULL_SPAN)
    } else {
        0
    };
    (grid_vertices + 2 * QUAD_VERTICES + 4 * DOT_VERTICES * spec_tick_count(arm_len)) as nat
}

fn vert(x: i64, y: i64, dx: Length, dy: Length, c: Rgba) -> (v: AxisVertex)
    ensures
        v == vert_spec(x as int, y as int, dx, dy, c),
{
    AxisVertex { anchor: Point { x, y }, offset: Offset::Straight { dx, dy }, color: c }
}

/// Appends the horizontal stroke from `x0` to `x1` at height `y`.
fn h_quad(v: &mut Vec<AxisVertex>, x0: i64, x1: i64, y: i64, ty: Length, c: Rgba)
    requires
        ty.num > i64::MIN,
    ensures
        final(v)@ == old(v)@ + h_quad_spec(x0 as int, x1 as int, y as int, ty, c),
{
    let none = Length::whole(0);
    v.push(vert(x0, y, none, ty.negated(), c));
    v.push(vert(x1, y, none, ty.negated(), c));
    v.push(vert(x1, y, none, ty, c));
    v.push(vert(x0, y, none, ty.negated(), c));
    v.push(vert(x1, y, none, ty, c));
    v.push(vert(x0, y, none, ty, c));
    assert(v@ =~= old(v)@ + h_quad_spec(x0 as int, x1 as int, y as int, ty, c));
}

/// Appends the vertical stroke from `y0` to `y1` at `x`. The thickness `tx`
/// is corrected for the aspect by the caller.
fn v_quad(v: &mut Vec<AxisVertex>, x: i64, y0: i64, y1: i64, tx: Length, c: Rgba)
    requires
        tx.num > i64::MIN,
    ensures
        final(v)@ == old(v)@ + v_quad_spec(x as int, y0 as int, y1 as int, tx, c),
{
    let none = Length::whole(0);
    v.push(vert(x, y0, tx.negated(), none, c));
    v.push(vert(x, y0, tx, none, c));
    v.push(vert(x, y1, tx, none, c));
    v.push(vert(x, y0, tx.negated(), none, c));
    v.push(vert(x, y1, tx, none, c));
    v.push(vert(x, y1, tx.negated(), none, c));
    assert(v@ =~= old(v)@ + v_quad_spec(x as int, y0 as int, y1 as int, tx, c));
}

/// Appends the filled dot around `(cx, cy)`. `rx` is the horizontal radius,
/// corrected for the aspect by the caller; `ry` is the vertical radius.
fn dot(v: &mut Vec<AxisVertex>, cx: i64, cy: i64, rx: Length, ry: Length, c: Rgba)
    ensures
        final(v)@ == old(v)@ + dot_spec(cx as int, cy as int, rx, ry, c),
{
    let ghost before = v@;
    let center = Point { x: cx, y: cy };
    let mut i: u32 = 0;
    while i < DOT_SEGMENTS
        invariant
            i <= DOT_SEGMENTS,
            center == (Point { x: cx, y: cy }),
            v@.len() == before.len() + 3 * i,
            forall|k: int| 0 <= k < before.len() ==> v@[k] == before[k],
            forall|k: int|
                0 <= k < 3 * i ==> v@[before.len() + k] == vert_at(
                    cx as int,
                    cy as int,
                    fan_offset(DOT_SEGMENTS, rx, ry, k),
                    c,
                ),
        decreases DOT_SEGMENTS - i,
    {
        v.push(AxisVertex { anchor: center, offset: Offset::zero(), color: c });
        v.push(
            AxisVertex {
                anchor: center,
                offset: Offset::Polar { step: i, of: DOT_SEGMENTS, rx, ry },
                color: c,
            },
        );
        v.push(
            AxisVertex {
                anchor: center,
                offset: Offset::Polar { step: i + 1, of: DOT_SEGMENTS, rx, ry },
                color: c,
            },
        );
        i = i + 1;
    }
    assert(v@ =~= before + dot_spec(cx as int, cy as int, rx, ry, c));
}

/// Generates the overlay as a triangle list: the grid lines if `grid` is set,
/// the two main axes, and a dot at every tick of both axes in both
/// directions.
///
/// With the grid the axes span the viewport as the grid lines do; without it
/// they reach `arm_len` to either side. `aspect` is the ratio of the
/// viewport's width to its height. Every vertical thickness and radius is
/// emitted as it is; every horizontal one is divided by `aspect`, so that
/// strokes and dots look uniform once the viewport has stretched them.
pub fn generate_vertices(arm_len: u32, grid: bool, aspect: Aspect) -> (out: Vec<AxisVertex>)
    requires
        aspect.wf(),
    ensures
        out@ == overlay(arm_len, grid, aspect),
        out@.len() == overlay_len(arm_len, grid),
{
    let mut v: Vec<AxisVertex> = Vec::new();
    let steps: u32 = tick_count(arm_len);
    let full: i64 = GRID_FULL_SPAN as i64;

    let axis_tx = Length::over_aspect(AXIS_HALF_T, aspect);
    let dot_rx = Length::over_aspect(DOT_RADIUS, aspect);
    let grid_tx = Length::over_aspect(GRID_HALF_T, aspect);
    let axis_ty = Length::whole(AXIS_HALF_T as i64);
    let dot_ry = Length::whole(DOT_RADIUS as i64);
    let grid_ty = Length::whole(GRID_HALF_T as i64);

    if grid {
        let grid_steps: u32 = tick_count(GRID_FULL_SPAN);
        let mut i: u32 = 1;
        while i <= grid_steps
            invariant
                1 <= i <= grid_steps + 1,
                grid_steps == spec_tick_count(GRID_FULL_SPAN),
                full == GRID_FULL_SPAN,
                grid_tx == Length::over_aspect(GRID_HALF_T, aspect),
                grid_tx.num >= 0,
                grid_ty == Length::whole(GRID_HALF_T as i64),
                v@ == self::grid((i - 1) as nat, aspect),
            decreases grid_steps + 1 - i,
        {
            let t: i64 = (i as i64) * (TICK_SPACING as i64);
            h_quad(&mut v, -full, full, t, grid_ty, Rgba::grey());
            h_quad(&mut v, -full, full, -t, grid_ty, Rgba::grey());
            v_quad(&mut v, t, -full, full, grid_tx, Rgba::grey());
            v_quad(&mut v, -t, -full, full, grid_tx, Rgba::grey());
            assert(v@ =~= self::grid(i as nat, aspect));
            i = i + 1;
        }
    }
    assert(v@ == grid_part(grid, aspect));

    let axes_span: i64 = if grid {
        full
    } else {
        arm_len as i64
    };
    h_quad(&mut v, -axes_span, axes_span, 0, axis_ty, Rgba::dark_blue());
    v_quad(&mut v, 0, -axes_span, axes_span, axis_tx, Rgba::dark_blue());
    let ghost behind = v@;
    assert(behind =~= grid_part(grid, aspect) + axes(self::axes_span(arm_len, grid), aspect));

    let mut i: u32 = 1;
    while i <= steps
        invariant
            1 <= i <= steps + 1,
            steps == spec_tick_count(arm_len),
            dot_rx == Length::over_aspect(DOT_RADIUS, aspect),
            dot_ry == Length::whole(DOT_RADIUS as i64),
            v@ == behind + dots((i - 1) as nat, aspect),
        decreases steps + 1 - i,
    {
        let t: i64 = (i as i64) * (TICK_SPACING as i64);
        dot(&mut v, t, 0, dot_rx, dot_ry, Rgba::dark_blue());
        dot(&mut v, -t, 0, dot_rx, dot_ry, Rgba::dark_blue());
        dot(&mut v, 0, t, dot_rx, dot_ry, Rgba::dark_blue());
        dot(&mut v, 0, -t, dot_rx, dot_ry, Rgba::dark_blue());
        assert(v@ =~= behind + dots(i as nat, aspect));
        i = i + 1;
    }
    proof {
        lemma_overlay_len(arm_len, grid, aspect);
    }
    v
}

/// Generates the overlay that `mode` asks for. Where the overlay is off,
/// nothing is generated and the list is empty.
pub fn overlay_vertices(mode: Overlay, arm_len: u32, aspect: Aspect) -> (out: Vec<AxisVertex>)
    requires
        aspect.wf(),
    ensures
        out@ == overlay_for(mode, arm_len, aspect),
        out@.len() == overlay_len_for(mode, arm_len),
        mode == Overlay::Off ==> out@.len() == 0,
{
    match mode {
        Overlay::Off => Vec::new(),
        Overlay::AxisOnly => generate_vertices(arm_len, false, aspect),
        Overlay::AxisWithGrid => generate_vertices(arm_len, true, aspect),
    }
}

/// Computes the number of vertices that `overlay_vertices` generates, without
/// generating them.
pub fn overlay_vertex_count(mode: Overlay, arm_len: u32) -> (count: u64)
    ensures
        count == overlay_len_for(mode, arm_len),
{
    let steps: u64 = tick_count(arm_len) as u64;
    let grid_steps: u64 = tick_count(GRID_FULL_SPAN) as u64;
    let per_tick: u64 = 4 * (DOT_VERTICES as u64);
    let per_line: u64 = 4 * (QUAD_VERTICES as u64);
    assert(per_tick * steps == 4 * DOT_VERTICES * spec_tick_count(arm_len)
        && per_tick * steps <= 144 * u32::MAX) by (nonlinear_arith)
        requires
            per_tick == 4 * DOT_VERTICES,
            per_tick == 144,
            steps == spec_tick_count(arm_len),
            steps <= u32::MAX,
    ;
    assert(per_line * grid_steps == 4 * QUAD_VERTICES * spec_tick_count(GRID_FULL_SPAN)
        && per_line * grid_steps <= 24 * u32::MAX) by (nonlinear_arith)
        requires
            per_line == 4 * QUAD_VERTICES,
            per_line == 24,
            grid_steps == spec_tick_count(GRID_FULL_SPAN),
            grid_steps <= u32::MAX,
    ;
    let axes: u64 = 2 * (QUAD_VERTICES as u64);
    let dots: u64 = per_tick * steps;
    match mode {
        Overlay::Off => 0,
        Overlay::AxisOnly => axes + dots,
        Overlay::AxisWithGrid => per_line * grid_steps + axes + dots,
    }
}

/// The grid lines at `n` ticks take four quads for each tick.
pub proof fn lemma_grid_len(n: nat, aspect: Aspect)
    ensures
        grid(n, aspect).len() == 4 * QUAD_VERTICES * n,
    decreases n,
{
    if n > 0 {
        lemma_grid_len((n - 1) as nat, aspect);
        assert(4 * QUAD_VERTICES * n == 4 * QUAD_VERTICES * (n - 1) + 4 * QUAD_VERTICES)
            by (nonlinear_arith);
    } else {
        assert(4 * QUAD_VERTICES * n == 0) by (nonlinear_arith)
            requires
                n == 0,
        ;
    }
}

/// The dots at `n` ticks take four dots for each tick.
pub proof fn lemma_dots_len(n: nat, aspect: Aspect)
    ensures
        dots(n, aspect).len() == 4 * DOT_VERTICES * n,
    decreases n,
{
    if n > 0 {
        lemma_dots_len((n - 1) as nat, aspect);
        assert(4 * DOT_VERTICES * n == 4 * DOT_VERTICES * (n - 1) + 4 * DOT_VERTICES)
            by (nonlinear_arith);
    } else {
        assert(4 * DOT_VERTICES * n == 0) by (nonlinear_arith)
            requires
                n == 0,
        ;
    }
}

/// The overlay has as many vertices as `overlay_len` says.
pub proof fn lemma_overlay_len(arm_len: u32, with_grid: bool, aspect: Aspect)
    ensures
        overlay(arm_len, with_grid, aspect).len() == overlay_len(arm_len, with_grid),
        grid_part(with_grid, aspect).len() == if with_grid {
            4 * QUAD_VERTICES * spec_tick_count(GRID_FULL_SPAN)
        } else {
            0
        },
{
    lemma_grid_len(spec_tick_count(GRID_FULL_SPAN), aspect);
    lemma_dots_len(spec_tick_count(arm_len), aspect);
}

/// The overlay is layered by order of emission alone: the grid lines come
/// first and so lie at the back, the twelve vertices of the axes follow, and
/// the dots come last and so lie in front. All of them are whole triangles.
pub proof fn lemma_painter_order(arm_len: u32, with_grid: bool, aspect: Aspect)
    ensures
        overlay(arm_len, with_grid, aspect).len() == grid_part(with_grid, aspect).len() + 2
            * QUAD_VERTICES + dots(spec_tick_count(arm_len), aspect).len(),
        overlay(arm_len, with_grid, aspect).subrange(
            0,
            grid_part(with_grid, aspect).len() as int,
        ) == grid_part(with_grid, aspect),
        overlay(arm_len, with_grid, aspect).subrange(
            grid_part(with_grid, aspect).len() as int,
            grid_part(with_grid, aspect).len() + 2 * QUAD_VERTICES,
        ) == axes(axes_span(arm_len, with_grid), aspect),
        overlay(arm_len, with_grid, aspect).subrange(
            grid_part(with_grid, aspect).len() + 2 * QUAD_VERTICES,
            overlay(arm_len, with_grid, aspect).len() as int,
        ) == dots(spec_tick_count(arm_len), aspect),
        grid_part(with_grid, aspect).len() % 3 == 0,
        dots(spec_tick_count(arm_len), aspect).len() % 3 == 0,
        overlay(arm_len, with_grid, aspect).len() % 3 == 0,
{
    let back = grid_part(with_grid, aspect);
    let middle = axes(axes_span(arm_len, with_grid), aspect);
    let front = dots(spec_tick_count(arm_len), aspect);
    let all = overlay(arm_len, with_grid, aspect);
    let n = spec_tick_count(arm_len);
    lemma_overlay_len(arm_len, with_grid, aspect);
    lemma_dots_len(n, aspect);
    assert(middle.len() == 12);
    assert(all.subrange(0, back.len() as int) =~= back);
    assert(all.subrange(back.len() as int, (back.len() + 12) as int) =~= middle);
    assert(all.subrange((back.len() + 12) as int, all.len() as int) =~= front);
    assert(spec_tick_count(GRID_FULL_SPAN) == 10);
    assert(front.len() == 3 * (48 * n)) by (nonlinear_arith)
        requires
            front.len() == 4 * DOT_VERTICES * n,
            DOT_VERTICES == 36,
    ;
}

/// Whether a vertex is anchored on an edge of the viewport.
pub open spec fn on_viewport_edge(v: AxisVertex) -> bool {
    ||| v.anchor.x == -(GRID_FULL_SPAN as int)
    ||| v.anchor.x == GRID_FULL_SPAN as int
    ||| v.anchor.y == -(GRID_FULL_SPAN as int)
    ||| v.anchor.y == GRID_FULL_SPAN as int
}

/// Every vertex of a grid line is anchored on an edge of the viewport: the
/// lines run from edge to edge.
pub proof fn lemma_grid_spans_viewport(n: nat, aspect: Aspect, k: int)
    requires
        0 <= k < grid(n, aspect).len(),
    ensures
        on_viewport_edge(grid(n, aspect)[k]),
    decreases n,
{
    if n > 0 {
        let inner = grid((n - 1) as nat, aspect);
        lemma_grid_len((n - 1) as nat, aspect);
        lemma_grid_len(n, aspect);
        if k < inner.len() {
            lemma_grid_spans_viewport((n - 1) as nat, aspect, k);
        } else {
            let j = k - inner.len();
            let t = n * TICK_SPACING;
            let s = GRID_FULL_SPAN as int;
            let ty = Length::whole(GRID_HALF_T as i64);
            let tx = Length::over_aspect(GRID_HALF_T, aspect);
            let a = h_quad_spec(-s, s, t, ty, Rgba::grey());
            let b = h_quad_spec(-s, s, -t, ty, Rgba::grey());
            let c = v_quad_spec(t, -s, s, tx, Rgba::grey());
            let d = v_quad_spec(-t, -s, s, tx, Rgba::grey());
            assert(grid_lines_at(n, aspect) == a + b + c + d);
            assert(grid(n, aspect)[k] == grid_lines_at(n, aspect)[j]);
            assert(4 * QUAD_VERTICES * n == 4 * QUAD_VERTICES * (n - 1) + 24) by (nonlinear_arith);
            if j < 6 {
                assert(grid_lines_at(n, aspect)[j] == a[j]);
            } else if j < 12 {
                assert(grid_lines_at(n, aspect)[j] == b[j - 6]);
            } else if j < 18 {
                assert(grid_lines_at(n, aspect)[j] == c[j - 12]);
            } else {
                assert(grid_lines_at(n, aspect)[j] == d[j - 18]);
            }
        }
    }
}

/// With the grid, what lies behind the dots does not depend on the arm
/// length: the overlay begins with every grid line of the viewport, followed
/// by the two axes at the full span of the grid, and each of these vertices
/// is anchored on an edge of the viewport. Axes and grid lines are equally
/// long.
pub proof fn lemma_grid_mode_ignores_arm_length(arm_len: u32, other_arm_len: u32, aspect: Aspect)
    ensures
        grid_part(true, aspect).len() == 4 * QUAD_VERTICES * (GRID_FULL_SPAN / TICK_SPACING),
        axes_span(arm_len, true) == GRID_FULL_SPAN,
        overlay(arm_len, true, aspect).subrange(0, 252) == grid_part(true, aspect) + axes(
            GRID_FULL_SPAN,
            aspect,
        ),
        overlay(arm_len, true, aspect).subrange(0, 252) == overlay(
            other_arm_len,
            true,
            aspect,
        ).subrange(0, 252),
        forall|k: int| 0 <= k < 252 ==> on_viewport_edge(#[trigger] overlay(arm_len, true, aspect)[k]),
{
    let behind = grid_part(true, aspect) + axes(GRID_FULL_SPAN, aspect);
    lemma_overlay_len(arm_len, true, aspect);
    lemma_overlay_len(other_arm_len, true, aspect);
    assert(spec_tick_count(GRID_FULL_SPAN) == GRID_FULL_SPAN / TICK_SPACING == 10);
    assert(grid_part(true, aspect).len() == 240);
    assert(axes(GRID_FULL_SPAN, aspect).len() == 12);
    assert(behind.len() == 252);
    assert(overlay(arm_len, true, aspect).subrange(0, 252) =~= behind);
    assert(overlay(other_arm_len, true, aspect).subrange(0, 252) =~= behind);
    assert forall|k: int| 0 <= k < 252 implies on_viewport_edge(
        #[trigger] overlay(arm_len, true, aspect)[k],
    ) by {
        assert(overlay(arm_len, true, aspect)[k] == behind[k]);
        if k < 240 {
            lemma_grid_spans_viewport(spec_tick_count(GRID_FULL_SPAN), aspect, k);
        } else {
            let s = GRID_FULL_SPAN as int;
            let x = h_quad_spec(-s, s, 0, Length::whole(AXIS_HALF_T as i64), Rgba::dark_blue());
            let y = v_quad_spec(
                0,
                -s,
                s,
                Length::over_aspect(AXIS_HALF_T, aspect),
                Rgba::dark_blue(),
            );
            assert(axes(GRID_FULL_SPAN, aspect) == x + y);
            assert(behind[k] == axes(GRID_FULL_SPAN, aspect)[k - 240]);
            if k < 246 {
                assert(axes(GRID_FULL_SPAN, aspect)[k - 240] == x[k - 240]);
            } else {
                assert(axes(GRID_FULL_SPAN, aspect)[k - 240] == y[k - 246]);
            }
        }
    }
}

/// Number of tick dots: one for each tick on each of the four arms.
pub open spec fn dot_count(arm_len: u32) -> nat {
    4 * spec_tick_count(arm_len)
}

/// The centre of tick dot `j`, counted in the order of emission: the dots of
/// tick `j / 4 + 1`, of which the first lies right of the origin, the second
/// left of it, the third above and the fourth below.
pub open spec fn dot_center(j: nat) -> Point {
    let t = (j / 4 + 1) * TICK_SPACING;
    if j % 4 == 0 {
        Point { x: t as i64, y: 0 }
    } else if j % 4 == 1 {
        Point { x: (-t) as i64, y: 0 }
    } else if j % 4 == 2 {
        Point { x: 0, y: t as i64 }
    } else {
        Point { x: 0, y: (-t) as i64 }
    }
}

/// Dot `j` of the dots at `n` ticks is a whole dot around `dot_center(j)`.
pub proof fn lemma_dot_at(n: nat, aspect: Aspect, j: nat)
    requires
        j < 4 * n,
    ensures
        dots(n, aspect).len() == 4 * DOT_VERTICES * n,
        dots(n, aspect).subrange(DOT_VERTICES * j, DOT_VERTICES * j + DOT_VERTICES) == dot_spec(
            dot_center(j).x as int,
            dot_center(j).y as int,
            Length::over_aspect(DOT_RADIUS, aspect),
            Length::whole(DOT_RADIUS as i64),
            Rgba::dark_blue(),
        ),
    decreases n,
{
    lemma_dots_len(n, aspect);
    lemma_dots_len((n - 1) as nat, aspect);
    let inner = dots((n - 1) as nat, aspect);
    let lo = DOT_VERTICES * j;
    assert(4 * DOT_VERTICES * n == 4 * DOT_VERTICES * (n - 1) + 144) by (nonlinear_arith);
    assert(inner.len() == 144 * (n - 1)) by (nonlinear_arith)
        requires
            inner.len() == 4 * DOT_VERTICES * (n - 1),
    ;
    if j < 4 * (n - 1) {
        lemma_dot_at((n - 1) as nat, aspect, j);
        assert(dots(n, aspect).subrange(lo, lo + 36) =~= inner.subrange(lo, lo + 36));
    } else {
        let m = j - 4 * (n - 1);
        let t = n * TICK_SPACING;
        let c = Rgba::dark_blue();
        let rx = Length::over_aspect(DOT_RADIUS, aspect);
        let ry = Length::whole(DOT_RADIUS as i64);
        let d0 = dot_spec(t, 0, rx, ry, c);
        let d1 = dot_spec(-t, 0, rx, ry, c);
        let d2 = dot_spec(0, t, rx, ry, c);
        let d3 = dot_spec(0, -t, rx, ry, c);
        assert(dots_at(n, aspect) == d0 + d1 + d2 + d3);
        assert(j / 4 == n - 1 && j % 4 == m);
        assert(lo == inner.len() + 36 * m);
        let piece = dots(n, aspect).subrange(lo, lo + 36);
        if m == 0 {
            assert(piece =~= d0);
        } else if m == 1 {
            assert(piece =~= d1);
        } else if m == 2 {
            assert(piece =~= d2);
        } else {
            assert(piece =~= d3);
        }
    }
}

/// Without the grid the overlay is the two axes at the arm length followed by
/// the tick dots, of which there are four for each tick: `dot_count` whole
/// dots of `DOT_VERTICES` vertices each.
pub proof fn lemma_axis_only_dot_count(arm_len: u32, aspect: Aspect)
    ensures
        overlay(arm_len, false, aspect) == axes(arm_len, aspect) + dots(
            spec_tick_count(arm_len),
            aspect,
        ),
        axes(arm_len, aspect).len() == 2 * QUAD_VERTICES,
        dots(spec_tick_count(arm_len), aspect).len() == DOT_VERTICES * dot_count(arm_len),
        overlay(arm_len, false, aspect).len() == 2 * QUAD_VERTICES + DOT_VERTICES * dot_count(
            arm_len,
        ),
{
    lemma_dots_len(spec_tick_count(arm_len), aspect);
    let n = spec_tick_count(arm_len);
    assert(4 * DOT_VERTICES * n == DOT_VERTICES * (4 * n)) by (nonlinear_arith);
    assert(overlay(arm_len, false, aspect) =~= axes(arm_len, aspect) + dots(n, aspect));
}

} // verus!
