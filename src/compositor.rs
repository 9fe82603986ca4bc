//! The compositor: the decisions of the present hook, one present call at a
//! time.
//!
//! A present call is a short exchange. The caller hands in `Event::Present`
//! with what it read this frame; the compositor answers with a `Command`: a
//! piece of GPU work to perform, after which the caller reports its outcome as
//! the next event, or `Command::CallOriginal`, which ends the call. GPU
//! objects live with the caller; the compositor keeps a model of which of
//! them exist and what they were made for.
use vstd::prelude::*;
use crate::frame::FrameDescriptor;

verus! {

/// What the caller read for one present call.
#[derive(Clone, Copy, Debug, PartialEq, Eq, Structural)]
pub struct FrameInput {
    /// Overlay rendering is switched on.
    pub rendering_enabled: bool,
    /// The device reports that it was removed.
    pub device_removed: bool,
    /// This frame's copy of the shared frame block.
    pub frame: FrameDescriptor,
    /// The backbuffer's own dimensions, queried from the backbuffer.
    pub backbuffer_width: u32,
    pub backbuffer_height: u32,
}

/// A viewport in pixels.
#[derive(Clone, Copy, Debug, PartialEq, Eq, Structural)]
pub struct Viewport {
    pub x: u32,
    pub y: u32,
    pub width: u32,
    pub height: u32,
}

/// The viewport covering a `width` by `height` target from its origin.
pub open spec fn full_viewport(width: u32, height: u32) -> Viewport {
    Viewport { x: 0, y: 0, width, height }
}

/// What the shared textures were imported from: both handles and the
/// source dimensions.
#[derive(Clone, Copy, Debug, PartialEq, Eq, Structural)]
pub struct SourceKey {
    pub handle_a: u64,
    pub handle_b: u64,
    pub width: u32,
    pub height: u32,
}

/// The source that a frame block names.
pub open spec fn source_of(f: FrameDescriptor) -> SourceKey {
    SourceKey { handle_a: f.handle_a, handle_b: f.handle_b, width: f.width, height: f.height }
}

/// Which of the overlay's device objects exist, and what for. Shaders,
/// sampler, blend state and buffers exist whenever the model does.
#[derive(Clone, Copy, Debug, PartialEq, Eq, Structural)]
pub struct OverlayState {
    /// The viewport of the render target; empty before the first resize.
    pub viewport: Viewport,
    /// A render-target view over the backbuffer exists.
    pub has_target: bool,
    /// Both shared textures and their views exist, imported from this source.
    pub source: Option<SourceKey>,
    /// The full-screen quad's vertex buffer exists.
    pub has_vertex_buffer: bool,
}

impl OverlayState {
    /// Records a render target recreated over a `width` by `height`
    /// backbuffer: the viewport becomes `(0, 0, width, height)`, and the target
    /// exists when its creation succeeded.
    pub fn resize(&mut self, width: u32, height: u32, created: bool)
        ensures
            *final(self) == (OverlayState {
                viewport: full_viewport(width, height),
                has_target: created,
                ..*old(self)
            }),
    {
        self.viewport = Viewport { x: 0, y: 0, width, height };
        self.has_target = created;
    }
}

/// The model right after all persistent objects were created.
pub open spec fn fresh_overlay(has_vertex_buffer: bool) -> OverlayState {
    OverlayState {
        viewport: full_viewport(0, 0),
        has_target: false,
        source: None,
        has_vertex_buffer,
    }
}

/// One overlay draw.
#[derive(Clone, Copy, Debug, PartialEq, Eq, Structural)]
pub struct DrawPlan {
    /// Which of the two imported textures to sample.
    pub slot: u32,
    pub viewport: Viewport,
    /// 6 for the quad in the vertex buffer, 3 for the screen-covering triangle.
    pub vertex_count: u32,
    /// The source dimensions, for the shader's texture scale.
    pub source_width: u32,
    pub source_height: u32,
}

/// The draw for `input` with the objects of `o`.
pub open spec fn draw_plan(o: OverlayState, input: FrameInput) -> DrawPlan {
    DrawPlan {
        slot: input.frame.active_index,
        viewport: o.viewport,
        vertex_count: if o.has_vertex_buffer {
            6
        } else {
            3
        },
        source_width: input.frame.width,
        source_height: input.frame.height,
    }
}

/// Work for the caller.
#[derive(Clone, Copy, Debug, PartialEq, Eq, Structural)]
pub enum Command {
    /// Release every overlay object and create all persistent ones anew
    /// (device and context, shaders, sampler, blend state, buffers); answer
    /// with `Event::Rebuilt`.
    Rebuild,
    /// Create a render-target view over the backbuffer and use this
    /// viewport; answer with `Event::TargetRecreated`.
    RecreateTarget(Viewport),
    /// Open both shared handles and build their views; answer with
    /// `Event::Imported`.
    ImportTextures(SourceKey),
    /// Save the host's pipeline state, bind the overlay's, draw, restore;
    /// answer with `Event::Drawn`.
    Draw(DrawPlan),
    /// Release every overlay object and notify the cleanup collaborator;
    /// answer with `Event::TornDown`.
    Teardown,
    /// Call the original entry point once and return its result; this ends
    /// the present call. `timed` asks for the frame's timing samples.
    CallOriginal { timed: bool },
}

/// What the caller reports.
#[derive(Clone, Copy, Debug, PartialEq, Eq, Structural)]
pub enum Event {
    /// A present call begins.
    Present(FrameInput),
    /// Outcome of `Command::Rebuild`; `vertex_buffer` tells whether the
    /// optional vertex buffer could be made.
    Rebuilt { ok: bool, vertex_buffer: bool },
    TargetRecreated(bool),
    Imported(bool),
    Drawn,
    TornDown,
}

/// Where the compositor stands within a present call.
#[derive(Clone, Copy, Debug, PartialEq, Eq, Structural)]
pub enum Phase {
    /// Between present calls.
    Idle,
    Rebuilding(FrameInput),
    Resizing(FrameInput),
    Importing(FrameInput),
    Drawing(FrameInput),
    TearingDown,
}

/// The overlay's state machine.
#[derive(Clone, Copy, Debug, PartialEq, Eq, Structural)]
pub struct Compositor {
    /// `None` before the first draw attempt and after a teardown.
    pub overlay: Option<OverlayState>,
    pub phase: Phase,
}

/// The present call ends, with `o` as the overlay.
pub open spec fn finish(o: Option<OverlayState>, timed: bool) -> (Compositor, Command) {
    (Compositor { overlay: o, phase: Phase::Idle }, Command::CallOriginal { timed })
}

/// After the target is in place: import when the views do not match the
/// frame block, draw otherwise.
pub open spec fn import_or_draw(o: OverlayState, input: FrameInput) -> (Compositor, Command) {
    if o.source != Some(source_of(input.frame)) {
        (
            Compositor { overlay: Some(o), phase: Phase::Importing(input) },
            Command::ImportTextures(source_of(input.frame)),
        )
    } else {
        (Compositor { overlay: Some(o), phase: Phase::Drawing(input) }, Command::Draw(draw_plan(o, input)))
    }
}

/// The frame block and the backbuffer allow compositing.
pub open spec fn usable(input: FrameInput) -> bool {
    input.frame.valid() && input.backbuffer_width != 0 && input.backbuffer_height != 0
}

/// The render target exists and covers the backbuffer.
pub open spec fn target_matches(o: OverlayState, input: FrameInput) -> bool {
    o.has_target && o.viewport == full_viewport(input.backbuffer_width, input.backbuffer_height)
}

/// With the persistent objects in place: skip a frame whose block or
/// backbuffer is unusable, resize when the target does not match the
/// backbuffer, and go on otherwise.
pub open spec fn advance(o: OverlayState, input: FrameInput) -> (Compositor, Command) {
    if !usable(input) {
        finish(Some(o), false)
    } else if !target_matches(o, input) {
        (
            Compositor { overlay: Some(o), phase: Phase::Resizing(input) },
            Command::RecreateTarget(full_viewport(input.backbuffer_width, input.backbuffer_height)),
        )
    } else {
        import_or_draw(o, input)
    }
}

impl Compositor {
    /// The event that the compositor waits for is `e`.
    pub open spec fn accepts(self, e: Event) -> bool {
        match self.phase {
            Phase::Idle => e is Present,
            Phase::Rebuilding(_) => e is Rebuilt,
            Phase::Resizing(_) => e is TargetRecreated,
            Phase::Importing(_) => e is Imported,
            Phase::Drawing(_) => e is Drawn,
            Phase::TearingDown => e is TornDown,
        }
    }

    /// The overlay exists exactly in the phases that use it; a call that is
    /// resizing has a usable frame block, and one that is importing or
    /// drawing also has a target matching the backbuffer; one that is
    /// drawing has views imported from the frame block's source.
    pub open spec fn wf(self) -> bool {
        match self.phase {
            Phase::Idle => true,
            Phase::Rebuilding(_) => self.overlay is None,
            Phase::TearingDown => self.overlay is None,
            Phase::Resizing(i) => self.overlay is Some && usable(i),
            Phase::Importing(i) => self.overlay is Some && usable(i) && target_matches(
                self.overlay->0,
                i,
            ),
            Phase::Drawing(i) => {
                &&& self.overlay is Some
                &&& usable(i)
                &&& target_matches(self.overlay->0, i)
                &&& self.overlay->0.source == Some(source_of(i.frame))
            },
        }
    }

    /// The state and command that follow event `e`.
    pub open spec fn next(self, e: Event) -> (Compositor, Command) {
        match (self.phase, e) {
            (Phase::Idle, Event::Present(input)) => {
                if !input.rendering_enabled {
                    finish(self.overlay, false)
                } else if self.overlay is None || input.device_removed {
                    (Compositor { overlay: None, phase: Phase::Rebuilding(input) }, Command::Rebuild)
                } else {
                    advance(self.overlay->0, input)
                }
            },
            (Phase::Rebuilding(input), Event::Rebuilt { ok, vertex_buffer }) => {
                if ok {
                    advance(fresh_overlay(vertex_buffer), input)
                } else {
                    finish(None, false)
                }
            },
            (Phase::Resizing(input), Event::TargetRecreated(ok)) => {
                let o = OverlayState {
                    viewport: full_viewport(input.backbuffer_width, input.backbuffer_height),
                    has_target: ok,
                    ..self.overlay->0
                };
                if ok {
                    import_or_draw(o, input)
                } else {
                    finish(Some(o), false)
                }
            },
            (Phase::Importing(input), Event::Imported(ok)) => {
                if ok {
                    let o = OverlayState { source: Some(source_of(input.frame)), ..self.overlay->0 };
                    (Compositor { overlay: Some(o), phase: Phase::Drawing(input) }, Command::Draw(draw_plan(o, input)))
                } else {
                    (Compositor { overlay: None, phase: Phase::TearingDown }, Command::Teardown)
                }
            },
            (Phase::Drawing(_), Event::Drawn) => finish(self.overlay, true),
            (Phase::TearingDown, Event::TornDown) => finish(None, false),
            _ => (self, Command::CallOriginal { timed: false }),
        }
    }
}

/// Ends the present call with `o` as the overlay.
fn end_call(o: Option<OverlayState>, timed: bool) -> (r: (Compositor, Command))
    ensures
        r == finish(o, timed),
{
    (Compositor { overlay: o, phase: Phase::Idle }, Command::CallOriginal { timed })
}

/// The draw for `input` with the objects of `o`.
fn make_draw_plan(o: &OverlayState, input: &FrameInput) -> (r: DrawPlan)
    ensures
        r == draw_plan(*o, *input),
{
    DrawPlan {
        slot: input.frame.active_index,
        viewport: o.viewport,
        vertex_count: if o.has_vertex_buffer {
            6
        } else {
            3
        },
        source_width: input.frame.width,
        source_height: input.frame.height,
    }
}

/// The source that a frame block names.
fn source_key(f: &FrameDescriptor) -> (r: SourceKey)
    ensures
        r == source_of(*f),
{
    SourceKey { handle_a: f.handle_a, handle_b: f.handle_b, width: f.width, height: f.height }
}

/// Imports when the views do not match the frame block, draws otherwise.
fn import_or_draw_step(o: OverlayState, input: FrameInput) -> (r: (Compositor, Command))
    ensures
        r == import_or_draw(o, input),
{
    let key = source_key(&input.frame);
    let current = match o.source {
        Some(k) => k == key,
        None => false,
    };
    if !current {
        (Compositor { overlay: Some(o), phase: Phase::Importing(input) }, Command::ImportTextures(key))
    } else {
        let plan = make_draw_plan(&o, &input);
        (Compositor { overlay: Some(o), phase: Phase::Drawing(input) }, Command::Draw(plan))
    }
}

/// Skips, resizes or goes on, once the persistent objects exist.
fn advance_step(o: OverlayState, input: FrameInput) -> (r: (Compositor, Command))
    ensures
        r == advance(o, input),
{
    let want = Viewport { x: 0, y: 0, width: input.backbuffer_width, height: input.backbuffer_height };
    if !input.frame.is_valid() || input.backbuffer_width == 0 || input.backbuffer_height == 0 {
        end_call(Some(o), false)
    } else if !o.has_target || o.viewport != want {
        (Compositor { overlay: Some(o), phase: Phase::Resizing(input) }, Command::RecreateTarget(want))
    } else {
        import_or_draw_step(o, input)
    }
}

impl Compositor {
    /// A compositor between present calls, with no overlay objects yet.
    pub fn new() -> (r: Compositor)
        ensures
            r.wf(),
            r.phase == Phase::Idle,
            r.overlay is None,
    {
        Compositor { overlay: None, phase: Phase::Idle }
    }

    /// Whether the compositor is between present calls.
    pub fn is_idle(&self) -> (r: bool)
        ensures
            r == (self.phase == Phase::Idle),
    {
        match self.phase {
            Phase::Idle => true,
            _ => false,
        }
    }

    /// Whether `e` is the event that the compositor waits for.
    pub fn accepts_event(&self, e: &Event) -> (r: bool)
        ensures
            r == self.accepts(*e),
    {
        match self.phase {
            Phase::Idle => matches!(e, Event::Present(_)),
            Phase::Rebuilding(_) => matches!(e, Event::Rebuilt { .. }),
            Phase::Resizing(_) => matches!(e, Event::TargetRecreated(_)),
            Phase::Importing(_) => matches!(e, Event::Imported(_)),
            Phase::Drawing(_) => matches!(e, Event::Drawn),
            Phase::TearingDown => matches!(e, Event::TornDown),
        }
    }

    /// Takes the next event of a present call and answers with the next
    /// command.
    pub fn step(&mut self, e: Event) -> (r: Command)
        requires
            old(self).wf(),
            old(self).accepts(e),
        ensures
            final(self).wf(),
            (*final(self), r) == old(self).next(e),
    {
        let (next, cmd) = match (self.phase, e) {
            (Phase::Idle, Event::Present(input)) => {
                if !input.rendering_enabled {
                    end_call(self.overlay, false)
                } else if self.overlay.is_none() || input.device_removed {
                    (Compositor { overlay: None, phase: Phase::Rebuilding(input) }, Command::Rebuild)
                } else {
                    advance_step(self.overlay.unwrap(), input)
                }
            },
            (Phase::Rebuilding(input), Event::Rebuilt { ok, vertex_buffer }) => {
                if ok {
                    let fresh = OverlayState {
                        viewport: Viewport { x: 0, y: 0, width: 0, height: 0 },
                        has_target: false,
                        source: None,
                        has_vertex_buffer: vertex_buffer,
                    };
                    advance_step(fresh, input)
                } else {
                    end_call(None, false)
                }
            },
            (Phase::Resizing(input), Event::TargetRecreated(ok)) => {
                let mut o = self.overlay.unwrap();
                o.resize(input.backbuffer_width, input.backbuffer_height, ok);
                if ok {
                    import_or_draw_step(o, input)
                } else {
                    end_call(Some(o), false)
                }
            },
            (Phase::Importing(input), Event::Imported(ok)) => {
                if ok {
                    let mut o = self.overlay.unwrap();
                    o.source = Some(source_key(&input.frame));
                    let plan = make_draw_plan(&o, &input);
                    (Compositor { overlay: Some(o), phase: Phase::Drawing(input) }, Command::Draw(plan))
                } else {
                    (Compositor { overlay: None, phase: Phase::TearingDown }, Command::Teardown)
                }
            },
            (Phase::Drawing(_), Event::Drawn) => end_call(self.overlay, true),
            (Phase::TearingDown, Event::TornDown) => end_call(None, false),
            _ => (*self, Command::CallOriginal { timed: false }),
        };
        *self = next;
        cmd
    }
}

} // verus!
