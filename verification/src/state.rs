//! The render state: what the device holds for one run of the viewer, and how
//! it answers the window system.
//!
//! The state is a record of decisions. A host owns the device, the surface and
//! the buffers; it builds them from a fresh state, asks the state what to do
//! on every window event, and carries the answer out.

use vstd::prelude::*;
use crate::aspect::{Aspect, SurfaceSize};
use crate::aspect::lemma_same_proportions_same_aspect;
use crate::axis::{lemma_overlay_len, overlay_for, overlay_len_for, overlay_vertex_count};
use crate::axis::overlay_vertices;
use crate::axis::{AxisVertex, Overlay};
use crate::layout::{aspect_block, aspect_block_spec, color_block, color_block_spec};
use crate::layout::{position_block, position_block_spec, Scalar};
use crate::shape::{outline, outline_len, ShapeConfig, ShapeVertex};
use crate::units::{Point, Rgba};

verus! {

/// The two pipelines of the viewer.
#[derive(Clone, Copy, Debug, PartialEq, Eq, Structural)]
pub enum Pipeline {
    /// Draws the overlay; its vertices carry their own colour.
    Axis,
    /// Draws the shape with the colour, aspect and position uniforms.
    Shape,
}

/// One draw call: a pipeline, its vertex buffer from the first vertex on, and
/// the uniform bind group where the pipeline reads one.
#[derive(Clone, Copy, Debug, PartialEq, Eq, Structural)]
pub struct Draw {
    pub pipeline: Pipeline,
    pub uniforms: bool,
    pub vertex_count: u32,
    pub instance_count: u32,
}

/// One frame: a single render pass that clears to `clear` and then issues
/// `draws` in order. Nothing tests depth, so a later draw covers an earlier.
#[derive(Debug)]
pub struct Frame {
    pub clear: Rgba,
    pub draws: Vec<Draw>,
}

/// What the window system reports.
#[derive(Clone, Copy, Debug, PartialEq, Eq, Structural)]
pub enum WindowEvent {
    /// The user asked to close the window.
    CloseRequested,
    /// The escape key went down, which closes the window too.
    EscapePressed,
    /// The window is to be drawn again.
    RedrawRequested,
    /// The window has a new size in pixels.
    Resized(SurfaceSize),
    /// Anything else.
    Other,
}

/// What the host is to do about a window event.
#[derive(Debug)]
pub enum Reaction {
    /// Leave the event loop.
    Exit,
    /// Acquire the next frame, draw it as given, present it, and ask for the
    /// next redraw. A frame that cannot be acquired is fatal.
    Present(Frame),
    /// Configure the surface for this size and rewrite the aspect uniform.
    Reconfigure(SurfaceSize),
    /// Nothing.
    Idle,
}

/// The render state as contracts see it.
pub struct StateView {
    /// The size the surface is configured for.
    pub size: SurfaceSize,
    /// The value of the aspect uniform.
    pub aspect: Aspect,
    /// The value of the colour uniform.
    pub color: Rgba,
    /// The value of the position uniform.
    pub position: Point,
    /// The contents of the shape's vertex buffer.
    pub vertices: Seq<ShapeVertex>,
    /// The contents of the overlay's vertex buffer, where there is an overlay.
    pub axis_vertices: Option<Seq<AxisVertex>>,
}

impl StateView {
    /// What every reachable state satisfies: the surface has area, the aspect
    /// uniform holds the aspect of the surface, and both vertex counts fit
    /// the draw calls.
    pub open spec fn wf(self) -> bool {
        &&& !self.size.is_empty()
        &&& self.aspect == Aspect::of(self.size)
        &&& self.vertices.len() <= u32::MAX
        &&& self.axis_vertices matches Some(list) ==> list.len() <= u32::MAX
    }

    /// Number of vertices that the overlay's draw call covers.
    pub open spec fn axis_vertex_count(self) -> nat {
        match self.axis_vertices {
            Some(list) => list.len(),
            None => 0,
        }
    }

    /// The state right after construction for a surface of `size`.
    pub open spec fn initial(size: SurfaceSize, config: ShapeConfig) -> StateView {
        StateView {
            size,
            aspect: Aspect::of(size),
            color: config.color,
            position: config.position,
            vertices: outline(config.shape, config.size),
            axis_vertices: if config.overlay() == Overlay::Off {
                None
            } else {
                Some(overlay_for(config.overlay(), config.axis_arm_len, Aspect::of(size)))
            },
        }
    }

    /// The state after a resize to `new_size`: a size without area changes
    /// nothing; any other becomes the surface's size and sets the aspect
    /// uniform. The vertex buffers stay as they were built.
    pub open spec fn resized(self, new_size: SurfaceSize) -> StateView {
        if new_size.is_empty() {
            self
        } else {
            StateView { size: new_size, aspect: Aspect::of(new_size), ..self }
        }
    }

    /// The draw call for the overlay.
    pub open spec fn axis_draw(self) -> Draw {
        Draw {
            pipeline: Pipeline::Axis,
            uniforms: false,
            vertex_count: self.axis_vertex_count() as u32,
            instance_count: 1,
        }
    }

    /// The draw call for the shape.
    pub open spec fn shape_draw(self) -> Draw {
        Draw {
            pipeline: Pipeline::Shape,
            uniforms: true,
            vertex_count: self.vertices.len() as u32,
            instance_count: 1,
        }
    }

    /// The draw calls of a frame: the overlay, where there is one, and then
    /// the shape on top of it.
    pub open spec fn draws(self) -> Seq<Draw> {
        if self.axis_vertices is Some {
            seq![self.axis_draw(), self.shape_draw()]
        } else {
            seq![self.shape_draw()]
        }
    }
}

/// The surface's size together with the aspect derived from it. The two
/// change in one step.
#[derive(Clone, Copy, Debug)]
struct Viewport {
    size: SurfaceSize,
    aspect: Aspect,
}

/// The render state.
pub struct State {
    viewport: Viewport,
    color: Rgba,
    position: Point,
    vertices: Vec<ShapeVertex>,
    vertex_count: u32,
    axis_vertices: Option<Vec<AxisVertex>>,
    axis_vertex_count: u32,
}

impl View for State {
    type V = StateView;

    closed spec fn view(&self) -> StateView {
        StateView {
            size: self.viewport.size,
            aspect: self.viewport.aspect,
            color: self.color,
            position: self.position,
            vertices: self.vertices@,
            axis_vertices: match self.axis_vertices {
                Some(list) => Some(list@),
                None => None,
            },
        }
    }
}

impl State {
    #[verifier::type_invariant]
    spec fn inv(&self) -> bool {
        &&& self@.wf()
        &&& self.vertex_count == self.vertices@.len()
        &&& self.axis_vertex_count == self@.axis_vertex_count()
    }

    /// Picks the surface format among those the adapter offers, given how
    /// many there are: the first, or none where none is offered.
    pub fn choose_format(offered: usize) -> (choice: Option<usize>)
        ensures
            offered == 0 ==> choice is None,
            offered > 0 ==> choice == Some(0usize),
    {
        if offered == 0 {
            None
        } else {
            Some(0)
        }
    }

    /// Decides what the device holds for `config` on a surface of `size`: the
    /// shape's vertices, the three uniforms, and the overlay's vertices where
    /// the configuration asks for an overlay. The overlay is generated at the
    /// aspect of `size` and is not generated again.
    pub fn new(size: SurfaceSize, config: ShapeConfig) -> (state: State)
        requires
            Self::constructible(size, config),
        ensures
            state@ == StateView::initial(size, config),
            state@.wf(),
    {
        let aspect = Aspect::from_size(size);
        let vertices = config.vertices();
        assert(vertices@.len() <= 192) by {
            assert(outline(config.shape, config.size).len() <= 192);
        }
        let vertex_count: u32 = vertices.len() as u32;
        let mode = config.overlay();
        let (axis_vertices, axis_vertex_count) = match mode {
            Overlay::Off => (None, 0u32),
            _ => {
                let list = overlay_vertices(mode, config.axis_arm_len, aspect);
                let count: u32 = list.len() as u32;
                (Some(list), count)
            },
        };
        State {
            viewport: Viewport { size, aspect },
            color: config.color,
            position: config.position,
            vertices,
            vertex_count,
            axis_vertices,
            axis_vertex_count,
        }
    }

    /// Whether a state can be constructed: the surface has area, and the
    /// overlay has no more vertices than one draw call can cover.
    pub open spec fn constructible(size: SurfaceSize, config: ShapeConfig) -> bool {
        &&& !size.is_empty()
        &&& overlay_len_for(config.overlay(), config.axis_arm_len) <= u32::MAX
    }

    /// Constructs the state as `new` does wherever that is possible, and
    /// says where it is not.
    pub fn try_new(size: SurfaceSize, config: ShapeConfig) -> (state: Option<State>)
        ensures
            state is Some == Self::constructible(size, config),
            state matches Some(s) ==> s@ == StateView::initial(size, config) && s@.wf(),
    {
        if size.is_empty() {
            return None;
        }
        if overlay_vertex_count(config.overlay(), config.axis_arm_len) > u32::MAX as u64 {
            return None;
        }
        Some(State::new(size, config))
    }

    /// Takes a new surface size. A size without area is ignored: nothing
    /// changes and the surface must not be configured. Any other size becomes
    /// the surface's size and sets the aspect uniform; the vertex buffers
    /// keep what they were built with.
    pub fn resize(&mut self, new_size: SurfaceSize) -> (reconfigured: bool)
        ensures
            reconfigured == !new_size.is_empty(),
            final(self)@ == old(self)@.resized(new_size),
            final(self)@.wf(),
    {
        proof {
            use_type_invariant(&*self);
        }
        if new_size.is_empty() {
            return false;
        }
        let aspect = Aspect::from_size(new_size);
        self.viewport = Viewport { size: new_size, aspect };
        true
    }

    /// Plans one frame: one pass that clears to white, draws the overlay if
    /// there is one, and draws the shape last so that it lies on top.
    pub fn render(&self) -> (frame: Frame)
        ensures
            frame.clear == Rgba::white(),
            frame.draws@ == self@.draws(),
    {
        proof {
            use_type_invariant(self);
        }
        let mut draws: Vec<Draw> = Vec::new();
        if self.axis_vertices.is_some() {
            draws.push(
                Draw {
                    pipeline: Pipeline::Axis,
                    uniforms: false,
                    vertex_count: self.axis_vertex_count,
                    instance_count: 1,
                },
            );
        }
        draws.push(
            Draw {
                pipeline: Pipeline::Shape,
                uniforms: true,
                vertex_count: self.vertex_count,
                instance_count: 1,
            },
        );
        assert(draws@ =~= self@.draws());
        Frame { clear: Rgba::white(), draws }
    }

    /// Answers one window event. A close request or the escape key ends the loop; a redraw
    /// request yields the frame to present; a resize is applied as `resize`
    /// does, and the host reconfigures only where it was applied.
    pub fn window_event(&mut self, event: WindowEvent) -> (reaction: Reaction)
        ensures
            final(self)@.wf(),
            match event {
                WindowEvent::CloseRequested => reaction is Exit && final(self)@ == old(self)@,
                WindowEvent::EscapePressed => reaction is Exit && final(self)@ == old(self)@,
                WindowEvent::RedrawRequested => {
                    &&& final(self)@ == old(self)@
                    &&& reaction matches Reaction::Present(frame)
                    &&& frame.clear == Rgba::white()
                    &&& frame.draws@ == old(self)@.draws()
                },
                WindowEvent::Resized(new_size) => {
                    &&& final(self)@ == old(self)@.resized(new_size)
                    &&& if new_size.is_empty() {
                        reaction is Idle
                    } else {
                        reaction matches Reaction::Reconfigure(size) && size == new_size
                    }
                },
                WindowEvent::Other => reaction is Idle && final(self)@ == old(self)@,
            },
    {
        proof {
            use_type_invariant(&*self);
        }
        match event {
            WindowEvent::CloseRequested => Reaction::Exit,
            WindowEvent::EscapePressed => Reaction::Exit,
            WindowEvent::RedrawRequested => Reaction::Present(self.render()),
            WindowEvent::Resized(new_size) => {
                if self.resize(new_size) {
                    Reaction::Reconfigure(new_size)
                } else {
                    Reaction::Idle
                }
            },
            WindowEvent::Other => Reaction::Idle,
        }
    }

    /// The size the surface is configured for.
    pub fn size(&self) -> (size: SurfaceSize)
        ensures
            size == self@.size,
            !size.is_empty(),
    {
        proof {
            use_type_invariant(self);
        }
        self.viewport.size
    }

    /// The aspect that the aspect uniform holds.
    pub fn aspect(&self) -> (aspect: Aspect)
        ensures
            aspect == self@.aspect,
            aspect == Aspect::of(self@.size),
    {
        proof {
            use_type_invariant(self);
        }
        self.viewport.aspect
    }

    /// The contents of the shape's vertex buffer.
    pub fn vertices(&self) -> (list: &Vec<ShapeVertex>)
        ensures
            list@ == self@.vertices,
    {
        &self.vertices
    }

    /// The number of vertices that the shape's draw call covers.
    pub fn vertex_count(&self) -> (count: u32)
        ensures
            count == self@.vertices.len(),
    {
        proof {
            use_type_invariant(self);
        }
        self.vertex_count
    }

    /// The contents of the overlay's vertex buffer, where there is an overlay.
    pub fn axis_vertices(&self) -> (list: Option<&Vec<AxisVertex>>)
        ensures
            list is Some == self@.axis_vertices is Some,
            list matches Some(v) ==> self@.axis_vertices == Some(v@),
    {
        self.axis_vertices.as_ref()
    }

    /// The number of vertices that the overlay's draw call covers; zero
    /// where there is no overlay.
    pub fn axis_vertex_count(&self) -> (count: u32)
        ensures
            count == self@.axis_vertex_count(),
    {
        proof {
            use_type_invariant(self);
        }
        self.axis_vertex_count
    }

    /// The colour uniform: written once, at construction.
    pub fn color_uniform(&self) -> (block: [Scalar; 4])
        ensures
            block@ == color_block_spec(self@.color),
    {
        color_block(self.color)
    }

    /// The aspect uniform: written at construction and again after every
    /// resize that was applied.
    pub fn aspect_uniform(&self) -> (block: [Scalar; 4])
        ensures
            block@ == aspect_block_spec(self@.aspect),
            block@ == aspect_block_spec(Aspect::of(self@.size)),
    {
        proof {
            use_type_invariant(self);
        }
        aspect_block(self.viewport.aspect)
    }

    /// The position uniform: written once, at construction.
    pub fn position_uniform(&self) -> (block: [Scalar; 4])
        ensures
            block@ == position_block_spec(self@.position),
    {
        position_block(self.position)
    }
}

/// The state after construction is well formed wherever the surface has area
/// and the overlay's vertex count fits a draw call.
pub proof fn lemma_initial_wf(size: SurfaceSize, config: ShapeConfig)
    requires
        !size.is_empty(),
        overlay_len_for(config.overlay(), config.axis_arm_len) <= u32::MAX,
    ensures
        StateView::initial(size, config).wf(),
        StateView::initial(size, config).vertices.len() == outline_len(config.shape),
        StateView::initial(size, config).axis_vertex_count() == overlay_len_for(
            config.overlay(),
            config.axis_arm_len,
        ),
        config.overlay() == Overlay::Off <==> StateView::initial(size, config).axis_vertices is None,
{
    let aspect = Aspect::of(size);
    lemma_overlay_len(config.axis_arm_len, false, aspect);
    lemma_overlay_len(config.axis_arm_len, true, aspect);
}

/// A resize keeps a state well formed and never touches the vertex buffers,
/// the colour or the position: it rewrites the size and the aspect uniform
/// alone, and the aspect uniform then holds the aspect of the new size.
pub proof fn lemma_resize_rewrites_aspect_only(state: StateView, new_size: SurfaceSize)
    requires
        state.wf(),
    ensures
        state.resized(new_size).wf(),
        state.resized(new_size).aspect == Aspect::of(state.resized(new_size).size),
        state.resized(new_size).vertices == state.vertices,
        state.resized(new_size).axis_vertices == state.axis_vertices,
        state.resized(new_size).color == state.color,
        state.resized(new_size).position == state.position,
        state.resized(new_size).draws() == state.draws(),
        !new_size.is_empty() ==> state.resized(new_size).size == new_size,
{
}

/// A resize to a width or a height of zero leaves the state as it is.
pub proof fn lemma_empty_resize_ignored(state: StateView, width: u32, height: u32)
    ensures
        state.resized(SurfaceSize { width: 0, height }) == state,
        state.resized(SurfaceSize { width, height: 0 }) == state,
{
}

/// The shape is always drawn, and drawn last, so that it lies on top: a frame
/// holds the shape's draw call alone, or the overlay's followed by the
/// shape's. Each covers its whole vertex buffer once.
pub proof fn lemma_shape_on_top(state: StateView)
    requires
        state.wf(),
    ensures
        state.draws().len() == if state.axis_vertices is Some {
            2nat
        } else {
            1nat
        },
        state.draws().last() == state.shape_draw(),
        state.draws().last().pipeline == Pipeline::Shape,
        state.draws().last().vertex_count == state.vertices.len(),
        forall|i: int|
            0 <= i < state.draws().len() - 1 ==> {
                &&& (#[trigger] state.draws()[i]).pipeline == Pipeline::Axis
                &&& state.draws()[i].vertex_count == state.axis_vertex_count()
            },
        forall|i: int| 0 <= i < state.draws().len() ==> (#[trigger] state.draws()[i]).instance_count == 1,
{
}

/// Generating the overlay again at the aspect that the aspect uniform holds
/// reproduces the overlay's vertex buffer, as long as the surface has the
/// proportions it was constructed with: after construction, and after any
/// resize to a size of the same proportions.
pub proof fn lemma_overlay_regenerated(size: SurfaceSize, new_size: SurfaceSize, config: ShapeConfig)
    requires
        !size.is_empty(),
        !new_size.is_empty(),
        size.width * new_size.height == new_size.width * size.height,
        config.overlay() != Overlay::Off,
    ensures
        StateView::initial(size, config).axis_vertices == Some(
            overlay_for(
                config.overlay(),
                config.axis_arm_len,
                StateView::initial(size, config).aspect,
            ),
        ),
        StateView::initial(size, config).resized(new_size).axis_vertices == Some(
            overlay_for(
                config.overlay(),
                config.axis_arm_len,
                StateView::initial(size, config).resized(new_size).aspect,
            ),
        ),
        StateView::initial(new_size, config).axis_vertices == StateView::initial(
            size,
            config,
        ).axis_vertices,
{
    lemma_same_proportions_same_aspect(size, new_size);
}

/// The colour is a uniform and no part of the geometry: two configurations
/// that differ in colour alone give the same vertex buffers, the same vertex
/// counts and the same draw calls.
pub proof fn lemma_color_not_in_geometry(size: SurfaceSize, config: ShapeConfig, color: Rgba)
    ensures
        StateView::initial(size, ShapeConfig { color, ..config }).vertices == StateView::initial(
            size,
            config,
        ).vertices,
        StateView::initial(size, ShapeConfig { color, ..config }).axis_vertices
            == StateView::initial(size, config).axis_vertices,
        StateView::initial(size, ShapeConfig { color, ..config }).axis_vertex_count()
            == StateView::initial(size, config).axis_vertex_count(),
        StateView::initial(size, ShapeConfig { color, ..config }).draws() == StateView::initial(
            size,
            config,
        ).draws(),
        StateView::initial(size, ShapeConfig { color, ..config }).color == color,
{
}

} // verus!
