//! The host pipeline state around the overlay draw: what is saved before it,
//! what the draw binds, and what is put back after it.
use vstd::prelude::*;

verus! {

/// Triangle-list primitive topology.
pub const TOPOLOGY_TRIANGLE_LIST: u32 = 4;
/// Sample mask enabling every sample.
pub const ALL_SAMPLES: u32 = 0xffff_ffff;

/// The bindings saved before the overlay draw and restored after it. The
/// type parameters are the GPU object types of each binding.
#[derive(Clone, Debug, PartialEq, Eq)]
pub struct PipelineState<Rt, Ds, Bs, Vs, Ps, Srv, Smp> {
    pub render_target: Option<Rt>,
    pub depth_stencil: Option<Ds>,
    pub blend_state: Option<Bs>,
    /// Bit patterns of the four blend factors.
    pub blend_factor: [u32; 4],
    pub sample_mask: u32,
    pub vertex_shader: Option<Vs>,
    pub pixel_shader: Option<Ps>,
    /// Pixel-stage shader-resource slot 0.
    pub shader_resource: Option<Srv>,
    /// Pixel-stage sampler slot 0.
    pub sampler: Option<Smp>,
    pub topology: u32,
}

/// The overlay's own objects for one draw.
pub struct OverlayBindings<Rt, Bs, Vs, Ps, Srv, Smp> {
    pub render_target: Rt,
    pub blend_state: Bs,
    pub vertex_shader: Vs,
    pub pixel_shader: Ps,
    pub shader_resource: Srv,
    pub sampler: Smp,
}

/// The state that the overlay draw runs with: its own objects, no depth
/// stencil, zero blend factors, every sample, a triangle list.
pub open spec fn overlay_spec<Rt, Ds, Bs, Vs, Ps, Srv, Smp>(
    b: OverlayBindings<Rt, Bs, Vs, Ps, Srv, Smp>,
) -> PipelineState<Rt, Ds, Bs, Vs, Ps, Srv, Smp> {
    PipelineState {
        render_target: Some(b.render_target),
        depth_stencil: None,
        blend_state: Some(b.blend_state),
        blend_factor: [0u32, 0u32, 0u32, 0u32],
        sample_mask: ALL_SAMPLES,
        vertex_shader: Some(b.vertex_shader),
        pixel_shader: Some(b.pixel_shader),
        shader_resource: Some(b.shader_resource),
        sampler: Some(b.sampler),
        topology: TOPOLOGY_TRIANGLE_LIST,
    }
}

/// The state to bind for the overlay draw.
pub fn overlay_state<Rt, Ds, Bs, Vs, Ps, Srv, Smp>(
    b: OverlayBindings<Rt, Bs, Vs, Ps, Srv, Smp>,
) -> (r: PipelineState<Rt, Ds, Bs, Vs, Ps, Srv, Smp>)
    ensures
        r == overlay_spec::<Rt, Ds, Bs, Vs, Ps, Srv, Smp>(b),
{
    PipelineState {
        render_target: Some(b.render_target),
        depth_stencil: None,
        blend_state: Some(b.blend_state),
        blend_factor: [0u32, 0u32, 0u32, 0u32],
        sample_mask: ALL_SAMPLES,
        vertex_shader: Some(b.vertex_shader),
        pixel_shader: Some(b.pixel_shader),
        shader_resource: Some(b.shader_resource),
        sampler: Some(b.sampler),
        topology: TOPOLOGY_TRIANGLE_LIST,
    }
}

/// Holds the host's state from before the overlay draw until it is restored.
pub struct PipelineGuard<Rt, Ds, Bs, Vs, Ps, Srv, Smp> {
    saved: PipelineState<Rt, Ds, Bs, Vs, Ps, Srv, Smp>,
}

/// The guard that capturing `s` gives.
pub closed spec fn guard_of<Rt, Ds, Bs, Vs, Ps, Srv, Smp>(
    s: PipelineState<Rt, Ds, Bs, Vs, Ps, Srv, Smp>,
) -> PipelineGuard<Rt, Ds, Bs, Vs, Ps, Srv, Smp> {
    PipelineGuard { saved: s }
}

/// The state that restoring from `g` binds back.
pub closed spec fn restored<Rt, Ds, Bs, Vs, Ps, Srv, Smp>(
    g: PipelineGuard<Rt, Ds, Bs, Vs, Ps, Srv, Smp>,
) -> PipelineState<Rt, Ds, Bs, Vs, Ps, Srv, Smp> {
    g.saved
}

impl<Rt, Ds, Bs, Vs, Ps, Srv, Smp> PipelineGuard<Rt, Ds, Bs, Vs, Ps, Srv, Smp> {
    /// Keeps the host's current state.
    pub fn capture(current: PipelineState<Rt, Ds, Bs, Vs, Ps, Srv, Smp>) -> (r: Self)
        ensures
            r == guard_of(current),
    {
        PipelineGuard { saved: current }
    }

    /// The state to bind back after the draw.
    pub fn restore(self) -> (r: PipelineState<Rt, Ds, Bs, Vs, Ps, Srv, Smp>)
        ensures
            r == restored(self),
    {
        self.saved
    }
}

/// Capture and restore around the overlay draw leave every captured field
/// (render target, depth stencil, blend state, blend factor, sample mask,
/// vertex and pixel shader, pixel-stage resource and sampler slot 0,
/// topology) as it was before the capture, whatever the draw bound.
pub proof fn lemma_restore_undoes_overlay<Rt, Ds, Bs, Vs, Ps, Srv, Smp>(
    before: PipelineState<Rt, Ds, Bs, Vs, Ps, Srv, Smp>,
)
    ensures
        ({
            let after = restored(guard_of(before));
            &&& after.render_target == before.render_target
            &&& after.depth_stencil == before.depth_stencil
            &&& after.blend_state == before.blend_state
            &&& after.blend_factor == before.blend_factor
            &&& after.sample_mask == before.sample_mask
            &&& after.vertex_shader == before.vertex_shader
            &&& after.pixel_shader == before.pixel_shader
            &&& after.shader_resource == before.shader_resource
            &&& after.sampler == before.sampler
            &&& after.topology == before.topology
        }),
{
}

/// Blend factor: zero.
pub const BLEND_ZERO: u32 = 1;
/// Blend factor: one.
pub const BLEND_ONE: u32 = 2;
/// Blend factor: source alpha.
pub const BLEND_SRC_ALPHA: u32 = 5;
/// Blend factor: one minus source alpha.
pub const BLEND_INV_SRC_ALPHA: u32 = 6;
/// Blend operation: add.
pub const BLEND_OP_ADD: u32 = 1;
/// Write all four colour channels.
pub const COLOR_WRITE_ALL: u8 = 0x0f;

/// Blending of the first render target.
#[derive(Clone, Copy, Debug, PartialEq, Eq, Structural)]
pub struct BlendDesc {
    pub enable: bool,
    pub src_blend: u32,
    pub dest_blend: u32,
    pub blend_op: u32,
    pub src_blend_alpha: u32,
    pub dest_blend_alpha: u32,
    pub blend_op_alpha: u32,
    pub write_mask: u8,
}

/// Source-alpha-over blending: colour `srcAlpha * src + (1 - srcAlpha) * dst`,
/// alpha `1 * src + 0 * dst`, all channels written.
pub fn overlay_blend() -> (r: BlendDesc)
    ensures
        r.enable,
        r.src_blend == BLEND_SRC_ALPHA,
        r.dest_blend == BLEND_INV_SRC_ALPHA,
        r.blend_op == BLEND_OP_ADD,
        r.src_blend_alpha == BLEND_ONE,
        r.dest_blend_alpha == BLEND_ZERO,
        r.blend_op_alpha == BLEND_OP_ADD,
        r.write_mask == COLOR_WRITE_ALL,
{
    BlendDesc {
        enable: true,
        src_blend: BLEND_SRC_ALPHA,
        dest_blend: BLEND_INV_SRC_ALPHA,
        blend_op: BLEND_OP_ADD,
        src_blend_alpha: BLEND_ONE,
        dest_blend_alpha: BLEND_ZERO,
        blend_op_alpha: BLEND_OP_ADD,
        write_mask: COLOR_WRITE_ALL,
    }
}

} // verus!
