//! Owning wrappers for texture objects and their sampler bindings.
//!
//! A texture is created from an already-decoded image — decoding is the
//! image collaborator's job — and remembers the uniform location of the
//! sampler it feeds. A failed load is not fatal: the texture object is
//! still allocated, merely left uninitialized, and rendering degrades
//! visibly instead of aborting.

use vstd::prelude::*;

use crate::context::CtxView;
use crate::context::GlCommand;
use crate::context::GlContext;
use crate::context::uniform_write_effect;
use crate::program::Program;
use crate::uniform::Uniform1IParam;
use crate::uniform::UniformPackedParam;

verus! {

/// Texture format tag: three channels, red green blue.
pub const RGB: u32 = 0x1907;

/// Texture format tag: four channels, red green blue alpha.
pub const RGBA: u32 = 0x1908;

/// A decoded image as the image collaborator hands it over: dimensions,
/// channel count, and the pixel bytes.
pub struct ImageData {
    /// Width in pixels.
    pub width: u32,
    /// Height in pixels.
    pub height: u32,
    /// Channels per pixel.
    pub channels: u32,
    /// The decoded pixel bytes, row-major.
    pub pixels: Vec<u8>,
}

/// An owning wrapper for one texture object, remembering the uniform
/// location of the sampler it is bound to.
pub struct TextureDescriptor {
    texture_id: u32,
    texture_shader_handle: i32,
}

impl TextureDescriptor {
    /// The texture object's handle.
    pub closed spec fn spec_id(self) -> u32 {
        self.texture_id
    }

    /// The resolved location of the sampler uniform this texture feeds.
    pub closed spec fn spec_handle(self) -> i32 {
        self.texture_shader_handle
    }

    /// Allocates a texture object, resolves `shader_handle_name` against
    /// `bound_program`, and — when the image collaborator delivered one —
    /// uploads the image and generates its mipmaps. When the load failed
    /// (`None`), the texture stays allocated but uninitialized.
    pub fn new(
        ctx: &mut GlContext,
        bound_program: &Program,
        shader_handle_name: &str,
        image: &Option<ImageData>,
        format: u32,
    ) -> (t: TextureDescriptor)
        requires
            bound_program.wf(),
            old(ctx)@.next_handle < u32::MAX,
        ensures
            t.spec_id() == old(ctx)@.next_handle,
            t.spec_handle() == bound_program.spec_resolve(shader_handle_name@),
            image matches Some(img) ==> final(ctx)@ == (CtxView {
                next_handle: (old(ctx)@.next_handle + 1) as u32,
                texture_2d: t.spec_id(),
                log: old(ctx)@.log + seq![
                    GlCommand::BindTexture { texture: t.spec_id() },
                    GlCommand::TexImage2D { width: img.width, height: img.height, format },
                    GlCommand::GenerateMipmap,
                ],
                ..old(ctx)@
            }),
            image is None ==> final(ctx)@ == (CtxView {
                next_handle: (old(ctx)@.next_handle + 1) as u32,
                texture_2d: t.spec_id(),
                log: old(ctx)@.log + seq![GlCommand::BindTexture { texture: t.spec_id() }],
                ..old(ctx)@
            }),
    {
        let texture_shader_handle = bound_program.uniform_location(shader_handle_name);
        let texture_id = ctx.fresh_handle();
        let t = TextureDescriptor { texture_id, texture_shader_handle };
        ctx.bind_texture(texture_id);
        match image {
            Some(img) => {
                ctx.tex_image_2d(img.width, img.height, format);
                ctx.generate_mipmap();
                proof {
                    assert(ctx@.log =~= old(ctx)@.log + seq![
                        GlCommand::BindTexture { texture: t.spec_id() },
                        GlCommand::TexImage2D { width: img.width, height: img.height, format },
                        GlCommand::GenerateMipmap,
                    ]);
                    assert(ctx@ =~= CtxView {
                        next_handle: (old(ctx)@.next_handle + 1) as u32,
                        texture_2d: t.spec_id(),
                        log: ctx@.log,
                        ..old(ctx)@
                    });
                }
            },
            None => {
                proof {
                    assert(ctx@.log =~= old(ctx)@.log + seq![
                        GlCommand::BindTexture { texture: t.spec_id() },
                    ]);
                    assert(ctx@ =~= CtxView {
                        next_handle: (old(ctx)@.next_handle + 1) as u32,
                        texture_2d: t.spec_id(),
                        log: ctx@.log,
                        ..old(ctx)@
                    });
                }
            },
        }
        t
    }

    /// The texture handle, for callers outside the proof.
    pub fn id(&self) -> (r: u32)
        ensures
            r == self.spec_id(),
    {
        self.texture_id
    }

    /// The resolved sampler location, for callers outside the proof.
    pub fn sampler_location(&self) -> (r: i32)
        ensures
            r == self.spec_handle(),
    {
        self.texture_shader_handle
    }

    /// Binds this texture to texture unit `idx` and writes `idx` into
    /// its sampler uniform of the program currently in use. The write is
    /// dropped, as every sentinel write is, when the sampler name did
    /// not resolve.
    pub fn set_active_texture(&self, ctx: &mut GlContext, idx: u32)
        requires
            idx <= i32::MAX,
        ensures
            final(ctx)@ == uniform_write_effect(
                CtxView {
                    active_unit: idx,
                    texture_2d: self.spec_id(),
                    log: old(ctx)@.log + seq![
                        GlCommand::ActiveTexture { unit: idx },
                        GlCommand::BindTexture { texture: self.spec_id() },
                    ],
                    ..old(ctx)@
                },
                self.spec_handle(),
                UniformPackedParam::Uniform1I(Uniform1IParam(idx as i32)),
            ),
    {
        ctx.active_texture(idx);
        ctx.bind_texture(self.texture_id);
        let ghost mid = ctx@;
        proof {
            assert(mid =~= CtxView {
                active_unit: idx,
                texture_2d: self.spec_id(),
                log: old(ctx)@.log + seq![
                    GlCommand::ActiveTexture { unit: idx },
                    GlCommand::BindTexture { texture: self.spec_id() },
                ],
                ..old(ctx)@
            });
        }
        ctx.uniform_1i(self.texture_shader_handle, Uniform1IParam(idx as i32));
    }
}

} // verus!
