//! The pair of same-sized offscreen color textures.
//!
//! The rasterization pass writes the "default" texture; the compute pass
//! reads it and writes the "processed" texture.  Both always have the
//! dimensions of the current presentation surface.  A resize replaces the
//! instances rather than mutating them, so every texture carries a ghost
//! instance id: bind groups record the ids of the instances they were built
//! against, and the well-formedness of the orchestrator ties those ids to
//! the live pair.

use vstd::prelude::*;

verus! {

/// Pixel format of a color target.  Every target of this pipeline uses
/// 8-bit BGRA with sRGB encoding.
#[derive(Clone, Copy, PartialEq, Eq, Structural, Debug)]
pub enum PixelFormat {
    Bgra8UnormSrgb,
    Rgba8Unorm,
}

/// The usage capabilities a texture is created with.
#[derive(Clone, Copy, PartialEq, Eq, Structural, Debug)]
pub struct TextureUsage {
    /// May be the color target of a render pass.
    pub render_attachment: bool,
    /// May be bound as a storage image.
    pub storage: bool,
    /// May be bound as a sampled texture.
    pub sampled: bool,
    /// May be the source of a copy.
    pub copy_src: bool,
    /// May be the destination of a copy.
    pub copy_dst: bool,
}

/// The one usage set every offscreen texture of this pipeline is created
/// with: simultaneously a render target, a storage image, a sampled image,
/// and a copy source and destination.
pub open spec fn full_usage() -> TextureUsage {
    TextureUsage {
        render_attachment: true,
        storage: true,
        sampled: true,
        copy_src: true,
        copy_dst: true,
    }
}

/// One offscreen color texture instance.
pub struct Texture {
    pub width: u32,
    pub height: u32,
    pub format: PixelFormat,
    pub usage: TextureUsage,
    /// Ghost identity of this instance; fresh for every creation.
    pub id: Ghost<nat>,
}

/// The texture has the given size, the fixed format, and the full usage set.
pub open spec fn texture_ok(t: Texture, width: int, height: int) -> bool {
    &&& t.width as int == width
    &&& t.height as int == height
    &&& t.format == PixelFormat::Bgra8UnormSrgb
    &&& t.usage == full_usage()
}

/// The two live offscreen textures, plus the ghost supply of fresh
/// instance ids.
pub struct TexturePair {
    /// Target of the rasterization pass, input of the compute pass.
    pub default_tex: Texture,
    /// Output of the compute pass, input of the copy pass.
    pub processed_tex: Texture,
    /// Every id ever handed to an instance is below this bound.
    pub next_id: Ghost<nat>,
}

impl TexturePair {
    /// Both textures are live, share their dimensions, carry the fixed
    /// format and full usage, and are distinct instances with ids below
    /// the supply bound.
    pub open spec fn wf(self) -> bool {
        &&& 1 <= self.default_tex.width
        &&& 1 <= self.default_tex.height
        &&& texture_ok(
            self.default_tex,
            self.default_tex.width as int,
            self.default_tex.height as int,
        )
        &&& texture_ok(
            self.processed_tex,
            self.default_tex.width as int,
            self.default_tex.height as int,
        )
        &&& self.default_tex.id@ != self.processed_tex.id@
        &&& self.default_tex.id@ < self.next_id@
        &&& self.processed_tex.id@ < self.next_id@
    }

    /// Allocate the startup pair at the given size.
    pub fn create(width: u32, height: u32) -> (pair: TexturePair)
        requires
            1 <= width,
            1 <= height,
        ensures
            pair.wf(),
            texture_ok(pair.default_tex, width as int, height as int),
            texture_ok(pair.processed_tex, width as int, height as int),
    {
        let usage = TextureUsage {
            render_attachment: true,
            storage: true,
            sampled: true,
            copy_src: true,
            copy_dst: true,
        };
        TexturePair {
            default_tex: Texture {
                width,
                height,
                format: PixelFormat::Bgra8UnormSrgb,
                usage,
                id: Ghost(0),
            },
            processed_tex: Texture {
                width,
                height,
                format: PixelFormat::Bgra8UnormSrgb,
                usage,
                id: Ghost(1),
            },
            next_id: Ghost(2),
        }
    }

    /// Replace both textures with fresh instances of the given size.  The
    /// old instances are dropped with the overwrite; nothing of them
    /// survives, and the new ids never collide with any id handed out
    /// before the call.
    pub fn recreate(&mut self, width: u32, height: u32)
        requires
            old(self).wf(),
            1 <= width,
            1 <= height,
        ensures
            final(self).wf(),
            recreated(*old(self), *final(self), width as int, height as int),
    {
        let ghost fresh = self.next_id@;
        let usage = TextureUsage {
            render_attachment: true,
            storage: true,
            sampled: true,
            copy_src: true,
            copy_dst: true,
        };
        self.default_tex = Texture {
            width,
            height,
            format: PixelFormat::Bgra8UnormSrgb,
            usage,
            id: Ghost(fresh),
        };
        self.processed_tex = Texture {
            width,
            height,
            format: PixelFormat::Bgra8UnormSrgb,
            usage,
            id: Ghost(fresh + 1),
        };
        self.next_id = Ghost(fresh + 2);
    }
}

/// `post` is the pair `pre` turns into when both textures are recreated at
/// the given size: both new instances have exactly that size, the fixed
/// format and the full usage, and their ids are fresh with respect to
/// everything `pre` ever allocated.
pub open spec fn recreated(pre: TexturePair, post: TexturePair, width: int, height: int) -> bool {
    &&& texture_ok(post.default_tex, width, height)
    &&& texture_ok(post.processed_tex, width, height)
    &&& post.default_tex.id@ != post.processed_tex.id@
    &&& pre.next_id@ <= post.default_tex.id@
    &&& pre.next_id@ <= post.processed_tex.id@
    &&& pre.next_id@ <= post.next_id@
}

} // verus!
