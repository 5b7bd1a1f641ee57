//! The frame orchestrator: one object owning the model of every GPU
//! resource, driven by the three event kinds the window loop delivers.
//!
//! A single logical thread calls `on_redraw`, `on_resize` and `on_close`;
//! no frame overlaps another, and a resize is only ever delivered between
//! frames.  Each redraw trigger runs the whole Idle -> Encoding ->
//! Submitted -> Idle cycle inside one `on_redraw` call.  The unverified
//! driver performs the recorded passes on the real device and reports the
//! acquisition and allocation outcomes back in as plain values.

use crate::dispatch::dispatch_count;
use crate::dispatch::dispatch_dim;
use crate::frame::dependency_chain;
use crate::frame::passes_in_order;
use crate::frame::Frame;
use crate::frame::PassRecord;
use crate::pipeline::build_compute_bind_group;
use crate::pipeline::build_copy_bind_group;
use crate::pipeline::build_pipelines;
use crate::pipeline::compute_bind_ok;
use crate::pipeline::copy_bind_ok;
use crate::pipeline::fixed_pipelines;
use crate::pipeline::ComputeBindGroup;
use crate::pipeline::CopyBindGroup;
use crate::pipeline::PipelineSet;
use crate::surface::configure_surface;
use crate::surface::resize_surface;
use crate::surface::surface_ok;
use crate::surface::SurfaceConfig;
use crate::texture::recreated;
use crate::texture::Texture;
use crate::texture::TexturePair;
use vstd::prelude::*;

verus! {

/// The error taxonomy of the render loop.
#[derive(Clone, Copy, PartialEq, Eq, Structural, Debug)]
pub enum RenderError {
    /// The presentable image could not be acquired (for instance a
    /// minimized window).  Recoverable: the frame is skipped and the next
    /// trigger is served as usual.
    SurfaceUnavailable,
    /// The device was invalidated.  Fatal to this core: handed to the
    /// embedder for full re-initialization, never retried here.
    DeviceLost,
    /// Allocation of a texture or swap chain failed.  Fatal at startup;
    /// on a resize the previous, still-valid resources are kept whole.
    ResourceCreationFailure,
}

/// What the driver's attempt to acquire the next presentable image
/// produced.
#[derive(Clone, Copy, PartialEq, Eq, Structural, Debug)]
pub enum Acquire {
    /// The image is ready; the value is the driver's token for it.
    Image(u64),
    /// The surface is currently unusable.
    Unavailable,
    /// The device itself was invalidated.
    Lost,
}

/// How a resize event was handled.
#[derive(Clone, Copy, PartialEq, Eq, Structural, Debug)]
pub enum ResizeOutcome {
    /// Swap chain, textures and bind groups were rebuilt at the new size.
    Applied,
    /// Allocation failed; the previous resources were kept whole.
    Refused,
    /// The orchestrator was already closed; the event was dropped.
    Ignored,
}

/// The orchestrator's owned state.
pub struct Orchestrator {
    /// False once a close request was handled; no further trigger is
    /// processed after that.
    pub running: bool,
    pub surface: SurfaceConfig,
    pub textures: TexturePair,
    pub compute_bind: ComputeBindGroup,
    pub copy_bind: CopyBindGroup,
    /// Created once at startup, never rebuilt.
    pub pipelines: PipelineSet,
    /// Ghost count of frames submitted so far.
    pub frames_submitted: Ghost<nat>,
    /// Ghost count of times the owned resources were released; never
    /// exceeds one.
    pub releases: Ghost<nat>,
}

impl Orchestrator {
    /// Well-formedness: the surface is live, both textures match its
    /// size, both bind groups were built against the live texture
    /// instances, the pipelines are the fixed set, and the resources have
    /// been released exactly when the orchestrator has stopped.
    pub open spec fn wf(self) -> bool {
        &&& surface_ok(self.surface)
        &&& self.textures.wf()
        &&& self.textures.default_tex.width == self.surface.width
        &&& self.textures.default_tex.height == self.surface.height
        &&& compute_bind_ok(self.compute_bind, self.textures)
        &&& copy_bind_ok(self.copy_bind, self.textures)
        &&& self.pipelines == fixed_pipelines()
        &&& (self.running ==> self.releases@ == 0)
        &&& (!self.running ==> self.releases@ == 1)
    }

    /// Build the startup state at the given window size: swap chain,
    /// fresh texture pair, bind groups against it, and the fixed
    /// pipelines.  `creation_ok` reports whether the driver could
    /// allocate the startup resources; a failure here is fatal and is
    /// returned to the embedder.
    pub fn new(width: u32, height: u32, creation_ok: bool) -> (r: Result<
        Orchestrator,
        RenderError,
    >)
        requires
            1 <= width,
            1 <= height,
        ensures
            creation_ok == (r is Ok),
            (r matches Ok(o) ==> {
                &&& o.wf()
                &&& o.running
                &&& o.surface.width == width
                &&& o.surface.height == height
                &&& o.frames_submitted@ == 0
                &&& o.releases@ == 0
            }),
            (r matches Err(e) ==> e == RenderError::ResourceCreationFailure),
    {
        if !creation_ok {
            return Err(RenderError::ResourceCreationFailure);
        }
        let textures = TexturePair::create(width, height);
        let compute_bind = build_compute_bind_group(&textures);
        let copy_bind = build_copy_bind_group(&textures);
        Ok(
            Orchestrator {
                running: true,
                surface: configure_surface(width, height),
                textures,
                compute_bind,
                copy_bind,
                pipelines: build_pipelines(),
                frames_submitted: Ghost(0),
                releases: Ghost(0),
            },
        )
    }

    /// Serve one redraw trigger.  A running orchestrator turns an
    /// acquired image into exactly the three-pass frame of `frame_for`;
    /// an unavailable surface skips the frame and leaves the state ready
    /// for the next trigger; a lost device is reported fatally; after a
    /// close request nothing is processed at all.
    pub fn on_redraw(&mut self, acquire: Acquire) -> (r: Result<Option<Frame>, RenderError>)
        requires
            old(self).wf(),
        ensures
            final(self).wf(),
            same_resources(*old(self), *final(self)),
            (!old(self).running ==> (r matches Ok(f) && f is None)
                && *final(self) == *old(self)),
            (old(self).running && acquire is Unavailable ==> (r matches Err(e) && e
                == RenderError::SurfaceUnavailable) && *final(self) == *old(self)),
            (old(self).running && acquire is Lost ==> (r matches Err(e) && e
                == RenderError::DeviceLost) && *final(self) == *old(self)),
            (old(self).running ==> (acquire matches Acquire::Image(img) ==> (r matches Ok(f)
                && f matches Some(frame) && frame_for(*old(self), img, frame)
                && final(self).frames_submitted@ == old(self).frames_submitted@ + 1))),
    {
        if !self.running {
            return Ok(None);
        }
        match acquire {
            Acquire::Unavailable => Err(RenderError::SurfaceUnavailable),
            Acquire::Lost => Err(RenderError::DeviceLost),
            Acquire::Image(img) => {
                let groups_x = dispatch_dim(self.surface.width);
                let groups_y = dispatch_dim(self.surface.height);
                let mut passes: Vec<PassRecord> = Vec::new();
                passes.push(
                    PassRecord::Raster {
                        target: Ghost(self.textures.default_tex.id@),
                        width: self.surface.width,
                        height: self.surface.height,
                        clear_to_black: true,
                        vertex_count: 6,
                        instance_count: 1,
                    },
                );
                passes.push(
                    PassRecord::Compute {
                        bind: self.compute_bind,
                        groups_x,
                        groups_y,
                        groups_z: 1,
                    },
                );
                passes.push(
                    PassRecord::CopyToSurface {
                        bind: self.copy_bind,
                        image: img,
                        clear_to_black: true,
                        vertex_count: 6,
                        instance_count: 1,
                    },
                );
                self.frames_submitted = Ghost(self.frames_submitted@ + 1);
                Ok(Some(Frame { passes }))
            },
        }
    }

    /// Handle a resize event, delivered only between frames.  On success
    /// the swap chain, the texture pair and both bind groups are rebuilt
    /// at the new size as one atomic unit, strictly in that order, before
    /// the next frame can be encoded.  `creation_ok` reports whether the
    /// driver could allocate the new resources; on failure the previous,
    /// still-valid resources are kept whole.  A closed orchestrator drops
    /// the event.
    pub fn on_resize(&mut self, width: u32, height: u32, creation_ok: bool) -> (r:
        ResizeOutcome)
        requires
            old(self).wf(),
            1 <= width,
            1 <= height,
        ensures
            final(self).wf(),
            (!old(self).running ==> r == ResizeOutcome::Ignored && *final(self) == *old(self)),
            (old(self).running && !creation_ok ==> r == ResizeOutcome::Refused && *final(self)
                == *old(self)),
            (old(self).running && creation_ok ==> r == ResizeOutcome::Applied && resize_applied(
                *old(self),
                *final(self),
                width as int,
                height as int,
            )),
    {
        if !self.running {
            return ResizeOutcome::Ignored;
        }
        if !creation_ok {
            return ResizeOutcome::Refused;
        }
        resize_surface(&mut self.surface, width, height);
        self.textures.recreate(width, height);
        self.compute_bind = build_compute_bind_group(&self.textures);
        self.copy_bind = build_copy_bind_group(&self.textures);
        ResizeOutcome::Applied
    }

    /// Handle a close request: stop accepting triggers and release the
    /// owned resources.  Releasing happens exactly once over the
    /// orchestrator's life; a second close request changes nothing and
    /// reports that nothing was released.
    pub fn on_close(&mut self) -> (released_now: bool)
        requires
            old(self).wf(),
        ensures
            final(self).wf(),
            !final(self).running,
            final(self).releases@ == 1,
            released_now == old(self).running,
            final(self).surface == old(self).surface,
            final(self).textures == old(self).textures,
            final(self).compute_bind == old(self).compute_bind,
            final(self).copy_bind == old(self).copy_bind,
            final(self).pipelines == old(self).pipelines,
            final(self).frames_submitted@ == old(self).frames_submitted@,
            (!old(self).running ==> *final(self) == *old(self)),
    {
        if !self.running {
            return false;
        }
        self.running = false;
        self.releases = Ghost(self.releases@ + 1);
        true
    }
}

/// Everything but the ghost frame counter is unchanged.
pub open spec fn same_resources(pre: Orchestrator, post: Orchestrator) -> bool {
    &&& post.running == pre.running
    &&& post.surface == pre.surface
    &&& post.textures == pre.textures
    &&& post.compute_bind == pre.compute_bind
    &&& post.copy_bind == pre.copy_bind
    &&& post.pipelines == pre.pipelines
    &&& post.releases@ == pre.releases@
}

/// The frame a running orchestrator in state `o` records for the acquired
/// image `img`: the rasterization pass into the live "default" texture,
/// the compute pass with the current bind group and the padded
/// ceiling-division dispatch grid, and the copy pass into `img` with the
/// current copy bind group, in exactly that order.
pub open spec fn frame_for(o: Orchestrator, img: u64, f: Frame) -> bool {
    &&& passes_in_order(f)
    &&& (f.passes@[0] matches PassRecord::Raster {
        target,
        width,
        height,
        clear_to_black,
        vertex_count,
        instance_count,
    } && target@ == o.textures.default_tex.id@ && width == o.surface.width && height
        == o.surface.height && clear_to_black && vertex_count == 6u32 && instance_count == 1u32)
    &&& (f.passes@[1] matches PassRecord::Compute { bind, groups_x, groups_y, groups_z } && bind
        == o.compute_bind && groups_x as int == dispatch_count(o.surface.width as int) && groups_y
        as int == dispatch_count(o.surface.height as int) && groups_z == 1u32)
    &&& (f.passes@[2] matches PassRecord::CopyToSurface {
        bind,
        image,
        clear_to_black,
        vertex_count,
        instance_count,
    } && bind == o.copy_bind && image == img && clear_to_black && vertex_count == 6u32
        && instance_count == 1u32)
}

/// `post` is the state `pre` turns into when a resize to the given size
/// is applied: the swap chain keeps its format and present mode at the
/// new dimensions, both textures are fresh instances of exactly that
/// size, both bind groups were rebuilt against the new instances, and the
/// pipelines are untouched.
pub open spec fn resize_applied(pre: Orchestrator, post: Orchestrator, width: int, height: int) -> bool {
    &&& post.running == pre.running
    &&& post.surface.width as int == width
    &&& post.surface.height as int == height
    &&& post.surface.format == pre.surface.format
    &&& post.surface.present_mode == pre.surface.present_mode
    &&& recreated(pre.textures, post.textures, width, height)
    &&& compute_bind_ok(post.compute_bind, post.textures)
    &&& copy_bind_ok(post.copy_bind, post.textures)
    &&& post.pipelines == pre.pipelines
    &&& post.frames_submitted@ == pre.frames_submitted@
    &&& post.releases@ == pre.releases@
}

/// Textures equivalent by content contract: same size, format and usage;
/// instance identity aside.
pub open spec fn texture_content_equiv(a: Texture, b: Texture) -> bool {
    &&& a.width == b.width
    &&& a.height == b.height
    &&& a.format == b.format
    &&& a.usage == b.usage
}

/// Orchestrators equivalent by content contract: identical in everything
/// observable except the ghost identities of the current texture
/// instances.
pub open spec fn content_equiv(x: Orchestrator, y: Orchestrator) -> bool {
    &&& x.running == y.running
    &&& x.surface == y.surface
    &&& x.pipelines == y.pipelines
    &&& texture_content_equiv(x.textures.default_tex, y.textures.default_tex)
    &&& texture_content_equiv(x.textures.processed_tex, y.textures.processed_tex)
    &&& x.compute_bind.tex_width == y.compute_bind.tex_width
    &&& x.compute_bind.tex_height == y.compute_bind.tex_height
    &&& x.copy_bind.tex_width == y.copy_bind.tex_width
    &&& x.copy_bind.tex_height == y.copy_bind.tex_height
    &&& x.copy_bind.sampler == y.copy_bind.sampler
}

/// Resize idempotence: applying the same resize twice in a row leaves the
/// orchestrator content-equivalent to applying it once.  The texture
/// instances themselves are fresh each time (a resize replaces, never
/// mutates), so the equivalence is by content contract: sizes,
/// configuration, usage and binding pattern.
pub proof fn lemma_resize_idempotent(
    a: Orchestrator,
    b: Orchestrator,
    c: Orchestrator,
    width: int,
    height: int,
)
    requires
        a.wf(),
        b.wf(),
        c.wf(),
        resize_applied(a, b, width, height),
        resize_applied(b, c, width, height),
    ensures
        content_equiv(b, c),
{
}

/// Ordering invariant: in any recorded frame the rasterization pass
/// precedes the compute pass, which precedes the copy pass, and the
/// recording order carries the read-after-write dependency chain between
/// the three.
pub proof fn lemma_frame_pass_order(o: Orchestrator, img: u64, f: Frame)
    requires
        o.wf(),
        frame_for(o, img, f),
    ensures
        passes_in_order(f),
        dependency_chain(f),
{
}

} // verus!
