//! One frame's command buffer as a trace of recorded passes.
//!
//! A frame is ephemeral: assembled once per redraw trigger, submitted, and
//! never retained.  The recording order of its three passes is what
//! establishes the read-after-write dependency chain between them; the
//! device handles the intra-submission hazards, the orchestrator only owes
//! the order.

use crate::pipeline::ComputeBindGroup;
use crate::pipeline::CopyBindGroup;
use vstd::prelude::*;

verus! {

/// One recorded pass.
pub enum PassRecord {
    /// The rasterization pass: clears its target to black and draws the
    /// full-screen triangle pair synthesized by the vertex stage, with no
    /// vertex buffers.
    Raster {
        /// Instance id of the "default" texture it targets.
        target: Ghost<nat>,
        /// Dimensions of the target.
        width: u32,
        height: u32,
        clear_to_black: bool,
        vertex_count: u32,
        instance_count: u32,
    },
    /// The compute post-process pass: binds the compute bind group at slot
    /// 0 and dispatches the padded ceiling-division grid.
    Compute { bind: ComputeBindGroup, groups_x: u32, groups_y: u32, groups_z: u32 },
    /// The copy pass: clears the acquired swap-chain image to black and
    /// draws the full-screen triangle pair sampling the "processed"
    /// texture.
    CopyToSurface {
        bind: CopyBindGroup,
        /// The driver's token for the acquired presentable image.
        image: u64,
        clear_to_black: bool,
        vertex_count: u32,
        instance_count: u32,
    },
}

/// One frame's command buffer: the passes in recording order.
pub struct Frame {
    pub passes: Vec<PassRecord>,
}

/// The frame holds exactly the three passes in dependency order: the
/// rasterization pass finishes before the compute pass starts, which
/// starts before the copy pass.
pub open spec fn passes_in_order(f: Frame) -> bool {
    &&& f.passes@.len() == 3
    &&& f.passes@[0] is Raster
    &&& f.passes@[1] is Compute
    &&& f.passes@[2] is CopyToSurface
}

/// The recording order carries the data dependencies: the compute pass
/// reads (through both of its identical read-only slots) the very texture
/// instance the rasterization pass wrote, and the copy pass samples the
/// very instance the compute pass wrote.
pub open spec fn dependency_chain(f: Frame) -> bool {
    &&& (f.passes@[0] matches PassRecord::Raster { target, .. } && (
    f.passes@[1] matches PassRecord::Compute { bind, .. } && bind.slot0_tex@ == target@
        && bind.slot1_tex@ == target@))
    &&& (f.passes@[1] matches PassRecord::Compute { bind: compute_bind, .. } && (
    f.passes@[2] matches PassRecord::CopyToSurface { bind: copy_bind, .. }
        && copy_bind.sampled_tex@ == compute_bind.slot2_tex@))
}

} // verus!
