//! Fixed configuration of the one graphics pipeline and its render pass, and
//! the disc geometry it draws.
//!
//! The pipeline draws a filled disc as a triangle fan around a centre vertex,
//! takes one two-dimensional position attribute per vertex, and receives the
//! per-frame transform as a single push-constant matrix; viewport and scissor
//! are dynamic, so a resize never rebuilds the pipeline. These choices are
//! stated here as data with pinned-down contracts; the surrounding executable
//! translates them into the graphics API's creation calls.

use vstd::prelude::*;

verus! {

/// Bytes of one vertex: a two-dimensional single-precision position.
pub const VERTEX_STRIDE_BYTES: u32 = 8;

/// Bytes of the push-constant block: one four-by-four single-precision
/// matrix.
pub const PUSH_CONSTANT_BYTES: u32 = 64;

/// How many perimeter segments approximate the disc.
pub const DISC_SEGMENTS: u32 = 32;

/// How the pipeline assembles vertices into primitives.
#[derive(Clone, Copy, Debug, PartialEq, Eq, Structural)]
pub enum Topology {
    TriangleFan,
    TriangleList,
    TriangleStrip,
}

/// How the rasteriser fills primitives.
#[derive(Clone, Copy, Debug, PartialEq, Eq, Structural)]
pub enum PolygonMode {
    Fill,
    Line,
    Point,
}

/// Which faces the rasteriser discards.
#[derive(Clone, Copy, Debug, PartialEq, Eq, Structural)]
pub enum CullMode {
    NoCulling,
    Front,
    Back,
}

/// What a render-pass attachment does with its contents on load.
#[derive(Clone, Copy, Debug, PartialEq, Eq, Structural)]
pub enum LoadOp {
    Clear,
    Load,
    DontCare,
}

/// What a render-pass attachment does with its contents on store.
#[derive(Clone, Copy, Debug, PartialEq, Eq, Structural)]
pub enum StoreOp {
    Store,
    DontCare,
}

/// The image layouts the one colour attachment moves between.
#[derive(Clone, Copy, Debug, PartialEq, Eq, Structural)]
pub enum ImageLayout {
    Undefined,
    ColorAttachmentOptimal,
    PresentSource,
}

/// The fixed-function state of the one graphics pipeline.
#[derive(Clone, Copy, Debug, PartialEq, Eq, Structural)]
pub struct PipelineConfig {
    /// One vertex binding of this stride.
    pub vertex_stride: u32,
    /// One vertex attribute at this offset within the binding.
    pub attribute_offset: u32,
    /// One push-constant range of this size, visible to the vertex stage.
    pub push_constant_bytes: u32,
    pub topology: Topology,
    pub polygon_mode: PolygonMode,
    pub cull_mode: CullMode,
    /// Samples per pixel.
    pub sample_count: u32,
    /// Whether the colour attachment blends; opaque output does not.
    pub blending: bool,
    /// Viewport set per frame, not baked into the pipeline.
    pub dynamic_viewport: bool,
    /// Scissor set per frame, not baked into the pipeline.
    pub dynamic_scissor: bool,
}

/// The configuration of the single render pass: one colour attachment,
/// cleared on load, stored, and handed to the presentation engine.
#[derive(Clone, Copy, Debug, PartialEq, Eq, Structural)]
pub struct RenderPassConfig {
    pub load_op: LoadOp,
    pub store_op: StoreOp,
    pub initial_layout: ImageLayout,
    pub final_layout: ImageLayout,
    pub sample_count: u32,
    /// Index of the colour attachment within the subpass.
    pub color_attachment: u32,
}

/// The fixed pipeline policy: triangle-fan topology, fill rasterisation, no
/// culling, single-sample, no blending, dynamic viewport and scissor, one
/// eight-byte vertex and one matrix-sized push-constant range.
pub fn pipeline_config() -> (r: PipelineConfig)
    ensures
        r.vertex_stride == VERTEX_STRIDE_BYTES,
        r.attribute_offset == 0,
        r.push_constant_bytes == PUSH_CONSTANT_BYTES,
        r.topology == Topology::TriangleFan,
        r.polygon_mode == PolygonMode::Fill,
        r.cull_mode == CullMode::NoCulling,
        r.sample_count == 1,
        !r.blending,
        r.dynamic_viewport,
        r.dynamic_scissor,
{
    PipelineConfig {
        vertex_stride: VERTEX_STRIDE_BYTES,
        attribute_offset: 0,
        push_constant_bytes: PUSH_CONSTANT_BYTES,
        topology: Topology::TriangleFan,
        polygon_mode: PolygonMode::Fill,
        cull_mode: CullMode::NoCulling,
        sample_count: 1,
        blending: false,
        dynamic_viewport: true,
        dynamic_scissor: true,
    }
}

/// The fixed render-pass policy: a single single-sample colour attachment,
/// cleared when the pass begins, stored when it ends, entering undefined and
/// leaving ready for presentation.
pub fn render_pass_config() -> (r: RenderPassConfig)
    ensures
        r.load_op == LoadOp::Clear,
        r.store_op == StoreOp::Store,
        r.initial_layout == ImageLayout::Undefined,
        r.final_layout == ImageLayout::PresentSource,
        r.sample_count == 1,
        r.color_attachment == 0,
{
    RenderPassConfig {
        load_op: LoadOp::Clear,
        store_op: StoreOp::Store,
        initial_layout: ImageLayout::Undefined,
        final_layout: ImageLayout::PresentSource,
        sample_count: 1,
        color_attachment: 0,
    }
}

/// How many vertices a triangle-fan disc of `segments` perimeter segments
/// takes: the centre, one vertex per segment, and one closing vertex that
/// repeats the first perimeter sample.
pub fn disc_vertex_count(segments: u32) -> (r: u32)
    requires
        segments <= 0xfffffffd,
    ensures
        r == segments + 2,
{
    segments + 2
}

/// How many bytes the static vertex buffer takes for `vertex_count`
/// vertices of the pipeline's stride.
pub fn vertex_buffer_bytes(vertex_count: u32) -> (r: u64)
    ensures
        r == vertex_count * VERTEX_STRIDE_BYTES,
{
    vertex_count as u64 * 8
}

} // verus!
