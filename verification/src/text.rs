//! Bitmap text rendering: a glyph cache and the per-glyph streaming
//! draw path.
//!
//! The font collaborator rasterizes each glyph of the fixed range
//! 0..128 into a bitmap with metrics; `init` uploads one texture per
//! glyph and caches handle and metrics. `render_text` walks a string of
//! cached codepoints and, for each one, binds its glyph texture,
//! streams one quad into the shared dynamic vertex buffer, and draws
//! it. The quad geometry itself — position and scale arithmetic — is
//! the embedder's float work; the verified layer owns the cache, the
//! ordering, and the exact command traffic.

use vstd::prelude::*;

use crate::context::BufferTarget;
use crate::context::CtxView;
use crate::context::GlCommand;
use crate::context::GlContext;
use crate::context::uniform_write_effect;
use crate::program::Program;
use crate::uniform::Uniform3FParam;
use crate::uniform::Uniform4FVMatrix;
use crate::uniform::UniformDescriptor;
use crate::uniform::UniformPackedParam;
use crate::vertex::FLOAT;

verus! {

/// Texture format tag for single-channel glyph bitmaps.
pub const RED: u32 = 0x1903;

/// How many codepoints the glyph cache covers.
pub const GLYPH_RANGE: u32 = 128;

/// One cached glyph: its texture and the metrics the layout needs.
#[derive(Clone, Copy, PartialEq, Eq, Debug)]
pub struct Character {
    /// The glyph texture's handle.
    pub texture_id: u32,
    /// Bitmap width in pixels.
    pub size_x: i32,
    /// Bitmap height in pixels.
    pub size_y: i32,
    /// Horizontal distance from the origin to the bitmap's left edge.
    pub bearing_x: i32,
    /// Vertical distance from the baseline to the bitmap's top edge.
    pub bearing_y: i32,
    /// Horizontal advance to the next origin, in 1/64 pixel units.
    pub advance: u32,
}

/// One rasterized glyph as the font collaborator hands it over.
pub struct GlyphBitmap {
    /// Bitmap width in pixels.
    pub width: u32,
    /// Bitmap height in pixels.
    pub rows: u32,
    /// Horizontal distance from the origin to the bitmap's left edge.
    pub bearing_x: i32,
    /// Vertical distance from the baseline to the bitmap's top edge.
    pub bearing_y: i32,
    /// Horizontal advance to the next origin, in 1/64 pixel units.
    pub advance: u32,
    /// The rasterized coverage bytes, row-major.
    pub bitmap: Vec<u8>,
}

/// The upload traffic of the first `n` glyphs: each gets a fresh
/// texture, bound and filled with its single-channel bitmap.
pub open spec fn spec_glyph_upload_commands(glyphs: Seq<GlyphBitmap>, first: u32, n: int) -> Seq<
    GlCommand,
>
    decreases n,
{
    if n <= 0 {
        Seq::empty()
    } else {
        spec_glyph_upload_commands(glyphs, first, n - 1) + seq![
            GlCommand::BindTexture { texture: (first + n - 1) as u32 },
            GlCommand::TexImage2D {
                width: glyphs[n - 1].width,
                height: glyphs[n - 1].rows,
                format: RED,
            },
        ]
    }
}

/// The cache entry glyph `i` yields when its texture got handle `t`.
pub open spec fn spec_character(glyph: GlyphBitmap, t: u32) -> Character {
    Character {
        texture_id: t,
        size_x: glyph.width as i32,
        size_y: glyph.rows as i32,
        bearing_x: glyph.bearing_x,
        bearing_y: glyph.bearing_y,
        advance: glyph.advance,
    }
}

/// The streaming traffic of the first `n` characters of `text`: bind
/// the glyph texture, replace the shared quad buffer's contents, and
/// draw the six quad vertices.
pub open spec fn spec_text_draw_commands(
    text: Seq<u8>,
    characters: Seq<Character>,
    vbo: u32,
    n: int,
) -> Seq<GlCommand>
    decreases n,
{
    if n <= 0 {
        Seq::empty()
    } else {
        spec_text_draw_commands(text, characters, vbo, n - 1) + seq![
            GlCommand::BindTexture { texture: characters[text[n - 1] as int].texture_id },
            GlCommand::BindBuffer { target: BufferTarget::Array, buffer: vbo },
            GlCommand::BufferSubData { target: BufferTarget::Array, words: 24usize },
            GlCommand::BindBuffer { target: BufferTarget::Array, buffer: 0u32 },
            GlCommand::DrawArrays { vertices: 6u32 },
        ]
    }
}

/// The text-rendering subsystem: its program, the two uniforms it
/// feeds, the glyph cache, and the shared quad streaming buffer.
pub struct TextManager {
    program: Program,
    text_uniform: UniformDescriptor,
    text_projection_uniform: UniformDescriptor,
    text_projection: Uniform4FVMatrix,
    characters: Vec<Character>,
    text_vao: u32,
    text_vbo: u32,
}

impl TextManager {
    /// The text program's handle.
    pub closed spec fn spec_program_id(self) -> u32 {
        self.program.spec_id()
    }

    /// The resolved location of the text colour uniform.
    pub closed spec fn spec_color_location(self) -> i32 {
        self.text_uniform.location()
    }

    /// The resolved location of the projection uniform.
    pub closed spec fn spec_projection_location(self) -> i32 {
        self.text_projection_uniform.location()
    }

    /// The projection matrix pushed at initialization.
    pub closed spec fn spec_projection(self) -> Uniform4FVMatrix {
        self.text_projection
    }

    /// The glyph cache, indexed by codepoint.
    pub closed spec fn spec_characters(self) -> Seq<Character> {
        self.characters@
    }

    /// The shared quad vertex-array object's handle.
    pub closed spec fn spec_vao(self) -> u32 {
        self.text_vao
    }

    /// The shared quad streaming buffer's handle.
    pub closed spec fn spec_vbo(self) -> u32 {
        self.text_vbo
    }

    /// The glyph cache, for callers outside the proof.
    pub fn characters_ref(&self) -> (r: &Vec<Character>)
        ensures
            r@ == self.spec_characters(),
    {
        &self.characters
    }

    /// The shared streaming buffer's handle, for callers outside the proof.
    pub fn vbo(&self) -> (r: u32)
        ensures
            r == self.spec_vbo(),
    {
        self.text_vbo
    }

    /// The text program's handle, for callers outside the proof.
    pub fn program_id(&self) -> (r: u32)
        ensures
            r == self.spec_program_id(),
    {
        self.program.id()
    }

    /// Takes ownership of the text `program`, resolves its colour and
    /// projection uniforms, and sets up the shared streaming buffer:
    /// one quad of six vertices, four float scalars each, configured as
    /// attribute slot 0 and left unbound.
    pub fn new(ctx: &mut GlContext, program: Program, projection: Uniform4FVMatrix) -> (tm:
        TextManager)
        requires
            program.wf(),
            old(ctx)@.next_handle + 2 <= u32::MAX,
        ensures
            tm.spec_program_id() == program.spec_id(),
            tm.spec_color_location() == program.spec_resolve("textColor"@),
            tm.spec_projection_location() == program.spec_resolve("projection"@),
            tm.spec_projection() == projection,
            tm.spec_characters() == Seq::<Character>::empty(),
            tm.spec_vao() == (old(ctx)@.next_handle + 1) as u32,
            tm.spec_vbo() == old(ctx)@.next_handle,
            final(ctx)@ == (CtxView {
                next_handle: (old(ctx)@.next_handle + 2) as u32,
                array_buffer: 0u32,
                vertex_array: 0u32,
                log: old(ctx)@.log + seq![
                    GlCommand::BindVertexArray { vertex_array: (old(ctx)@.next_handle + 1) as u32 },
                    GlCommand::BindBuffer {
                        target: BufferTarget::Array,
                        buffer: old(ctx)@.next_handle,
                    },
                    GlCommand::BufferData { target: BufferTarget::Array, words: 24usize },
                    GlCommand::EnableVertexAttribArray { index: 0u32 },
                    GlCommand::VertexAttribPointer {
                        index: 0u32,
                        components: 4u32,
                        scalar_type: FLOAT,
                        stride_bytes: 16u32,
                        offset_bytes: 0usize,
                    },
                    GlCommand::BindBuffer { target: BufferTarget::Array, buffer: 0u32 },
                    GlCommand::BindVertexArray { vertex_array: 0u32 },
                ],
                ..old(ctx)@
            }),
    {
        let text_uniform = UniformDescriptor::new(&program, "textColor");
        let text_proj_uniform = UniformDescriptor::new(&program, "projection");
        let text_vbo = ctx.fresh_handle();
        let text_vao = ctx.fresh_handle();
        ctx.bind_vertex_array(text_vao);
        ctx.bind_buffer(BufferTarget::Array, text_vbo);
        ctx.buffer_data(BufferTarget::Array, 24);
        ctx.enable_vertex_attrib_array(0);
        ctx.vertex_attrib_pointer(0, 4, FLOAT, 16, 0);
        ctx.bind_buffer(BufferTarget::Array, 0);
        ctx.bind_vertex_array(0);
        let tm = TextManager {
            program,
            text_uniform,
            text_projection_uniform: text_proj_uniform,
            text_projection: projection,
            characters: Vec::new(),
            text_vao,
            text_vbo,
        };
        proof {
            assert(tm.spec_characters() =~= Seq::<Character>::empty());
            assert(ctx@.log =~= old(ctx)@.log + seq![
                GlCommand::BindVertexArray { vertex_array: tm.spec_vao() },
                GlCommand::BindBuffer { target: BufferTarget::Array, buffer: tm.spec_vbo() },
                GlCommand::BufferData { target: BufferTarget::Array, words: 24usize },
                GlCommand::EnableVertexAttribArray { index: 0u32 },
                GlCommand::VertexAttribPointer {
                    index: 0u32,
                    components: 4u32,
                    scalar_type: FLOAT,
                    stride_bytes: 16u32,
                    offset_bytes: 0usize,
                },
                GlCommand::BindBuffer { target: BufferTarget::Array, buffer: 0u32 },
                GlCommand::BindVertexArray { vertex_array: 0u32 },
            ]);
            assert(ctx@ =~= CtxView {
                next_handle: (old(ctx)@.next_handle + 2) as u32,
                array_buffer: 0u32,
                vertex_array: 0u32,
                log: ctx@.log,
                ..old(ctx)@
            });
        }
        tm
    }

    /// Uploads one texture per rasterized glyph, caches handle and
    /// metrics per codepoint, then makes the text program current and
    /// pushes the projection matrix through its uniform.
    pub fn init(&mut self, ctx: &mut GlContext, glyphs: &Vec<GlyphBitmap>)
        requires
            glyphs@.len() == GLYPH_RANGE,
            old(ctx)@.next_handle + GLYPH_RANGE <= u32::MAX,
        ensures
            final(self).spec_program_id() == old(self).spec_program_id(),
            final(self).spec_color_location() == old(self).spec_color_location(),
            final(self).spec_projection_location() == old(self).spec_projection_location(),
            final(self).spec_projection() == old(self).spec_projection(),
            final(self).spec_vao() == old(self).spec_vao(),
            final(self).spec_vbo() == old(self).spec_vbo(),
            final(self).spec_characters().len() == GLYPH_RANGE,
            forall|i: int|
                0 <= i < GLYPH_RANGE ==> final(self).spec_characters()[i] == spec_character(
                    glyphs@[i],
                    (old(ctx)@.next_handle + i) as u32,
                ),
            final(ctx)@ == uniform_write_effect(
                CtxView {
                    next_handle: (old(ctx)@.next_handle + GLYPH_RANGE) as u32,
                    texture_2d: (old(ctx)@.next_handle + GLYPH_RANGE - 1) as u32,
                    program: old(self).spec_program_id(),
                    log: old(ctx)@.log + spec_glyph_upload_commands(
                        glyphs@,
                        old(ctx)@.next_handle,
                        GLYPH_RANGE as int,
                    ) + seq![GlCommand::UseProgram { program: old(self).spec_program_id() }],
                    ..old(ctx)@
                },
                old(self).spec_projection_location(),
                UniformPackedParam::UniformMatrix4FV(old(self).spec_projection()),
            ),
    {
        let ghost first = ctx@.next_handle;
        let mut cache: Vec<Character> = Vec::new();
        let mut c: u32 = 0;
        proof {
            assert(old(ctx)@.log + spec_glyph_upload_commands(glyphs@, first, 0) =~= old(ctx)@.log);
        }
        while c < GLYPH_RANGE
            invariant
                *self == *old(self),
                glyphs@.len() == GLYPH_RANGE,
                first == old(ctx)@.next_handle,
                first + GLYPH_RANGE <= u32::MAX,
                c <= GLYPH_RANGE,
                cache@.len() == c,
                forall|i: int|
                    0 <= i < c ==> cache@[i] == spec_character(glyphs@[i], (first + i) as u32),
                ctx@ == (CtxView {
                    next_handle: (first + c) as u32,
                    texture_2d: if c == 0 {
                        old(ctx)@.texture_2d
                    } else {
                        (first + c - 1) as u32
                    },
                    log: old(ctx)@.log + spec_glyph_upload_commands(glyphs@, first, c as int),
                    ..old(ctx)@
                }),
            decreases GLYPH_RANGE - c,
        {
            let texture = ctx.fresh_handle();
            ctx.bind_texture(texture);
            let glyph = &glyphs[c as usize];
            ctx.tex_image_2d(glyph.width, glyph.rows, RED);
            cache.push(
                Character {
                    texture_id: texture,
                    size_x: glyph.width as i32,
                    size_y: glyph.rows as i32,
                    bearing_x: glyph.bearing_x,
                    bearing_y: glyph.bearing_y,
                    advance: glyph.advance,
                },
            );
            proof {
                assert(glyph.width <= u32::MAX);
                assert(cache@[c as int] == spec_character(glyphs@[c as int], (first + c) as u32));
                assert(ctx@.log =~= old(ctx)@.log + spec_glyph_upload_commands(
                    glyphs@,
                    first,
                    c as int + 1,
                ));
                assert(ctx@ =~= CtxView {
                    next_handle: (first + c + 1) as u32,
                    texture_2d: (first + c) as u32,
                    log: old(ctx)@.log + spec_glyph_upload_commands(glyphs@, first, c as int + 1),
                    ..old(ctx)@
                });
            }
            c = c + 1;
        }
        self.characters = cache;
        self.use_text_program(ctx);
        let ghost mid = ctx@;
        proof {
            assert(mid =~= CtxView {
                next_handle: (old(ctx)@.next_handle + GLYPH_RANGE) as u32,
                texture_2d: (old(ctx)@.next_handle + GLYPH_RANGE - 1) as u32,
                program: old(self).spec_program_id(),
                log: old(ctx)@.log + spec_glyph_upload_commands(
                    glyphs@,
                    old(ctx)@.next_handle,
                    GLYPH_RANGE as int,
                ) + seq![GlCommand::UseProgram { program: old(self).spec_program_id() }],
                ..old(ctx)@
            });
        }
        let projection = self.text_projection;
        self.text_projection_uniform.update(
            ctx,
            UniformPackedParam::UniformMatrix4FV(projection),
        );
    }

    /// Makes the text program current.
    pub fn use_text_program(&self, ctx: &mut GlContext)
        ensures
            final(ctx)@ == (CtxView {
                program: self.spec_program_id(),
                log: old(ctx)@.log.push(
                    GlCommand::UseProgram { program: self.spec_program_id() },
                ),
                ..old(ctx)@
            }),
    {
        let p = self.program.id();
        ctx.use_program(p);
    }

    /// Draws `text` one glyph quad at a time: pushes the text colour,
    /// selects texture unit 0 and the shared quad vertex array, then
    /// for each codepoint binds its glyph texture, streams its quad
    /// into the shared buffer, and draws it; finally unbinds the vertex
    /// array and the texture. Every codepoint must be in the cached
    /// range. The quad geometry is streamed by the backend; the model
    /// records its size.
    pub fn render_text(&self, ctx: &mut GlContext, text: &Vec<u8>, color: Uniform3FParam)
        requires
            self.spec_characters().len() == GLYPH_RANGE,
            forall|i: int| 0 <= i < text@.len() ==> text@[i] < GLYPH_RANGE,
        ensures
            final(ctx)@ == (CtxView {
                active_unit: 0u32,
                texture_2d: 0u32,
                vertex_array: 0u32,
                array_buffer: if text@.len() == 0 {
                    old(ctx)@.array_buffer
                } else {
                    0u32
                },
                log: uniform_write_effect(
                    old(ctx)@,
                    self.spec_color_location(),
                    UniformPackedParam::Uniform3F(color),
                ).log + seq![
                    GlCommand::ActiveTexture { unit: 0u32 },
                    GlCommand::BindVertexArray { vertex_array: self.spec_vao() },
                ] + spec_text_draw_commands(
                    text@,
                    self.spec_characters(),
                    self.spec_vbo(),
                    text@.len() as int,
                ) + seq![
                    GlCommand::BindVertexArray { vertex_array: 0u32 },
                    GlCommand::BindTexture { texture: 0u32 },
                ],
                ..old(ctx)@
            }),
    {
        self.text_uniform.update(ctx, UniformPackedParam::Uniform3F(color));
        ctx.active_texture(0);
        ctx.bind_vertex_array(self.text_vao);
        let ghost prologue = ctx@;
        proof {
            assert(prologue.log =~= uniform_write_effect(
                old(ctx)@,
                self.spec_color_location(),
                UniformPackedParam::Uniform3F(color),
            ).log + seq![
                GlCommand::ActiveTexture { unit: 0u32 },
                GlCommand::BindVertexArray { vertex_array: self.spec_vao() },
            ]);
            assert(prologue.log + spec_text_draw_commands(
                text@,
                self.spec_characters(),
                self.spec_vbo(),
                0,
            ) =~= prologue.log);
        }
        let mut i: usize = 0;
        while i < text.len()
            invariant
                self.spec_characters().len() == GLYPH_RANGE,
                forall|j: int| 0 <= j < text@.len() ==> text@[j] < GLYPH_RANGE,
                i <= text@.len(),
                ctx@ == (CtxView {
                    active_unit: 0u32,
                    vertex_array: prologue.vertex_array,
                    texture_2d: if i == 0 {
                        prologue.texture_2d
                    } else {
                        self.spec_characters()[text@[i - 1] as int].texture_id
                    },
                    array_buffer: if i == 0 {
                        prologue.array_buffer
                    } else {
                        0u32
                    },
                    log: prologue.log + spec_text_draw_commands(
                        text@,
                        self.spec_characters(),
                        self.spec_vbo(),
                        i as int,
                    ),
                    ..prologue
                }),
            decreases text@.len() - i,
        {
            let code = text[i];
            let ch = self.characters[code as usize];
            ctx.bind_texture(ch.texture_id);
            ctx.bind_buffer(BufferTarget::Array, self.text_vbo);
            ctx.buffer_sub_data(BufferTarget::Array, 24);
            ctx.bind_buffer(BufferTarget::Array, 0);
            ctx.draw_arrays(6);
            proof {
                assert(ctx@.log =~= prologue.log + spec_text_draw_commands(
                    text@,
                    self.spec_characters(),
                    self.spec_vbo(),
                    i as int + 1,
                ));
                assert(ctx@ =~= CtxView {
                    active_unit: 0u32,
                    vertex_array: prologue.vertex_array,
                    texture_2d: self.spec_characters()[text@[i as int] as int].texture_id,
                    array_buffer: 0u32,
                    log: ctx@.log,
                    ..prologue
                });
            }
            i = i + 1;
        }
        ctx.bind_vertex_array(0);
        ctx.bind_texture(0);
        proof {
            assert(ctx@.log =~= prologue.log + spec_text_draw_commands(
                text@,
                self.spec_characters(),
                self.spec_vbo(),
                text@.len() as int,
            ) + seq![
                GlCommand::BindVertexArray { vertex_array: 0u32 },
                GlCommand::BindTexture { texture: 0u32 },
            ]);
            assert(ctx@ =~= CtxView {
                active_unit: 0u32,
                texture_2d: 0u32,
                vertex_array: 0u32,
                array_buffer: if text@.len() == 0 {
                    old(ctx)@.array_buffer
                } else {
                    0u32
                },
                log: ctx@.log,
                ..old(ctx)@
            });
        }
    }
}

} // verus!
