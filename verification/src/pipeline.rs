//! The three immutable pass pipelines and their bind groups.
//!
//! The pipeline objects are created once at startup and never rebuilt; only
//! the bind groups that point them at the current texture instances are
//! rebuilt, strictly after every texture replacement.

use crate::texture::PixelFormat;
use crate::texture::TexturePair;
use vstd::prelude::*;

verus! {

/// How a fragment's color combines with the target.  Every pass of this
/// pipeline replaces the target outright.
#[derive(Clone, Copy, PartialEq, Eq, Structural, Debug)]
pub enum BlendMode {
    Replace,
    AlphaBlend,
}

/// Face culling of a render pipeline.  This pipeline culls nothing.
#[derive(Clone, Copy, PartialEq, Eq, Structural, Debug)]
pub enum CullSetting {
    NoCulling,
    CullBackFaces,
}

/// Primitive topology of a render pipeline.
#[derive(Clone, Copy, PartialEq, Eq, Structural, Debug)]
pub enum Topology {
    TriangleList,
    LineList,
}

/// Width of an index element.
#[derive(Clone, Copy, PartialEq, Eq, Structural, Debug)]
pub enum IndexKind {
    Uint16,
    Uint32,
}

/// Texel filtering of a sampler.
#[derive(Clone, Copy, PartialEq, Eq, Structural, Debug)]
pub enum FilterMode {
    Nearest,
    Linear,
}

/// Addressing of a sampler outside the unit square.
#[derive(Clone, Copy, PartialEq, Eq, Structural, Debug)]
pub enum AddressMode {
    ClampToEdge,
    Repeat,
}

/// Fixed-function state of a render pipeline (the rasterization and copy
/// passes share it).
#[derive(Clone, Copy, PartialEq, Eq, Structural, Debug)]
pub struct RenderPipelineDesc {
    pub blend: BlendMode,
    pub cull: CullSetting,
    pub topology: Topology,
    pub index_format: IndexKind,
    pub target_format: PixelFormat,
    pub has_depth_stencil: bool,
}

/// The read-only flags of the compute pipeline's three storage-image
/// slots.  Slots 0 and 1 are read-only inputs; slot 2 is the writable
/// output.
#[derive(Clone, Copy, PartialEq, Eq, Structural, Debug)]
pub struct ComputeLayoutDesc {
    pub slot0_read_only: bool,
    pub slot1_read_only: bool,
    pub slot2_read_only: bool,
}

/// The sampler configuration of the copy pass.
#[derive(Clone, Copy, PartialEq, Eq, Structural, Debug)]
pub struct SamplerDesc {
    pub filter: FilterMode,
    pub address: AddressMode,
}

/// The three pipeline objects, by their immutable descriptions.
#[derive(Clone, Copy, PartialEq, Eq, Structural, Debug)]
pub struct PipelineSet {
    pub raster: RenderPipelineDesc,
    pub compute_layout: ComputeLayoutDesc,
    pub copy: RenderPipelineDesc,
}

/// The one render state both render pipelines are built with: replace
/// blending, no culling, triangle-list topology, 16-bit indices, the fixed
/// BGRA sRGB target format, no depth or stencil.
pub open spec fn fixed_render_state() -> RenderPipelineDesc {
    RenderPipelineDesc {
        blend: BlendMode::Replace,
        cull: CullSetting::NoCulling,
        topology: Topology::TriangleList,
        index_format: IndexKind::Uint16,
        target_format: PixelFormat::Bgra8UnormSrgb,
        has_depth_stencil: false,
    }
}

/// The compute pipeline's layout contract: two read-only storage slots and
/// one writable one.
pub open spec fn fixed_compute_layout() -> ComputeLayoutDesc {
    ComputeLayoutDesc { slot0_read_only: true, slot1_read_only: true, slot2_read_only: false }
}

/// The copy pass's sampler: nearest-neighbor filtering, clamp-to-edge
/// addressing.
pub open spec fn fixed_sampler() -> SamplerDesc {
    SamplerDesc { filter: FilterMode::Nearest, address: AddressMode::ClampToEdge }
}

/// The full pipeline set as created at startup and kept for the
/// orchestrator's whole life.
pub open spec fn fixed_pipelines() -> PipelineSet {
    PipelineSet {
        raster: fixed_render_state(),
        compute_layout: fixed_compute_layout(),
        copy: fixed_render_state(),
    }
}

/// Build the three pipeline descriptions.  Called once at startup; a
/// resize never reaches this function.
pub fn build_pipelines() -> (pipelines: PipelineSet)
    ensures
        pipelines == fixed_pipelines(),
{
    let render_state = RenderPipelineDesc {
        blend: BlendMode::Replace,
        cull: CullSetting::NoCulling,
        topology: Topology::TriangleList,
        index_format: IndexKind::Uint16,
        target_format: PixelFormat::Bgra8UnormSrgb,
        has_depth_stencil: false,
    };
    PipelineSet {
        raster: render_state,
        compute_layout: ComputeLayoutDesc {
            slot0_read_only: true,
            slot1_read_only: true,
            slot2_read_only: false,
        },
        copy: render_state,
    }
}

/// The compute pass's bind group: slots 0 and 1 are read-only storage
/// views of the same "default" texture (two identical bindings are a
/// deliberate, fixed part of the layout contract the shader consumes),
/// slot 2 is the read-write view of the "processed" texture.
#[derive(Clone, Copy)]
pub struct ComputeBindGroup {
    /// Dimensions of the textures the views were taken from.
    pub tex_width: u32,
    pub tex_height: u32,
    /// Instance id of the texture bound at slot 0.
    pub slot0_tex: Ghost<nat>,
    /// Instance id of the texture bound at slot 1.
    pub slot1_tex: Ghost<nat>,
    /// Instance id of the texture bound at slot 2.
    pub slot2_tex: Ghost<nat>,
}

/// The copy pass's bind group: one sampled view of the "processed"
/// texture and the fixed sampler.
#[derive(Clone, Copy)]
pub struct CopyBindGroup {
    /// Dimensions of the texture the sampled view was taken from.
    pub tex_width: u32,
    pub tex_height: u32,
    /// Instance id of the sampled texture.
    pub sampled_tex: Ghost<nat>,
    pub sampler: SamplerDesc,
}

/// The compute bind group is valid for the pair: both read-only slots view
/// the live "default" instance, the writable slot views the live
/// "processed" instance, and the recorded dimensions are the pair's.
pub open spec fn compute_bind_ok(bind: ComputeBindGroup, pair: TexturePair) -> bool {
    &&& bind.slot0_tex@ == pair.default_tex.id@
    &&& bind.slot1_tex@ == pair.default_tex.id@
    &&& bind.slot2_tex@ == pair.processed_tex.id@
    &&& bind.tex_width == pair.default_tex.width
    &&& bind.tex_height == pair.default_tex.height
}

/// The copy bind group is valid for the pair: it samples the live
/// "processed" instance through the fixed sampler.
pub open spec fn copy_bind_ok(bind: CopyBindGroup, pair: TexturePair) -> bool {
    &&& bind.sampled_tex@ == pair.processed_tex.id@
    &&& bind.tex_width == pair.processed_tex.width
    &&& bind.tex_height == pair.processed_tex.height
    &&& bind.sampler == fixed_sampler()
}

/// Rebuild the compute pass's bind group against the current texture
/// instances.  Must run after every texture replacement, before the next
/// frame is encoded.
pub fn build_compute_bind_group(pair: &TexturePair) -> (bind: ComputeBindGroup)
    ensures
        compute_bind_ok(bind, *pair),
{
    ComputeBindGroup {
        tex_width: pair.default_tex.width,
        tex_height: pair.default_tex.height,
        slot0_tex: Ghost(pair.default_tex.id@),
        slot1_tex: Ghost(pair.default_tex.id@),
        slot2_tex: Ghost(pair.processed_tex.id@),
    }
}

/// Rebuild the copy pass's bind group against the current texture
/// instances.  Must run after every texture replacement, before the next
/// frame is encoded.
pub fn build_copy_bind_group(pair: &TexturePair) -> (bind: CopyBindGroup)
    ensures
        copy_bind_ok(bind, *pair),
{
    CopyBindGroup {
        tex_width: pair.processed_tex.width,
        tex_height: pair.processed_tex.height,
        sampled_tex: Ghost(pair.processed_tex.id@),
        sampler: SamplerDesc { filter: FilterMode::Nearest, address: AddressMode::ClampToEdge },
    }
}

} // verus!
