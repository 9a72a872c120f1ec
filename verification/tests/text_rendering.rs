use rust_opengl::context::{BufferTarget, GlCommand, GlContext};
use rust_opengl::program::{LinkOutcome, Program};
use rust_opengl::shader::{CompileOutcome, Shader, FRAGMENT_SHADER, VERTEX_SHADER};
use rust_opengl::text::{GlyphBitmap, TextManager, GLYPH_RANGE, RED};
use rust_opengl::uniform::{Uniform3FParam, Uniform4FVMatrix, UniformPackedParam};

fn linked_text_program(ctx: &mut GlContext) -> Program {
    let mut vert = Shader::new(ctx, "void main() {}".to_string(), VERTEX_SHADER);
    let mut frag = Shader::new(ctx, "void main() {}".to_string(), FRAGMENT_SHADER);
    vert.compile(CompileOutcome { success: true, info_log: String::new() }).unwrap();
    frag.compile(CompileOutcome { success: true, info_log: String::new() }).unwrap();
    let mut program = Program::new(ctx);
    program.add_shader(&vert);
    program.add_shader(&frag);
    program
        .link_shaders(LinkOutcome {
            success: true,
            info_log: String::new(),
            active_uniforms: vec!["textColor".to_string(), "projection".to_string()],
        })
        .unwrap();
    program
}

fn ascii_glyphs() -> Vec<GlyphBitmap> {
    (0..GLYPH_RANGE)
        .map(|c| GlyphBitmap {
            width: 1 + (c % 7),
            rows: 2,
            bearing_x: 0,
            bearing_y: 1,
            advance: 64 * (1 + (c % 7)),
            bitmap: vec![0u8; (2 * (1 + (c % 7))) as usize],
        })
        .collect()
}

fn identity_words() -> Uniform4FVMatrix {
    let mut words = [0u32; 16];
    let one = 1.0f32.to_bits();
    words[0] = one;
    words[5] = one;
    words[10] = one;
    words[15] = one;
    Uniform4FVMatrix(words)
}

#[test]
fn test_text_manager_new_configures_quad_buffer() {
    let mut ctx = GlContext::new();
    let program = linked_text_program(&mut ctx);
    let before = ctx.log_len();
    let tm = TextManager::new(&mut ctx, program, identity_words());
    assert_eq!(ctx.log_len(), before + 7);
    assert_eq!(
        ctx.command(before + 2),
        GlCommand::BufferData { target: BufferTarget::Array, words: 24 }
    );
    assert_eq!(ctx.command(before + 6), GlCommand::BindVertexArray { vertex_array: 0 });
    assert_eq!(tm.characters_ref().len(), 0);
}

#[test]
fn test_init_caches_one_texture_per_glyph() {
    let mut ctx = GlContext::new();
    let program = linked_text_program(&mut ctx);
    let program_id = program.id();
    let mut tm = TextManager::new(&mut ctx, program, identity_words());
    let glyphs = ascii_glyphs();
    tm.init(&mut ctx, &glyphs);

    let cache = tm.characters_ref();
    assert_eq!(cache.len(), GLYPH_RANGE as usize);
    for c in 0..GLYPH_RANGE as usize {
        assert_eq!(cache[c].size_x as u32, glyphs[c].width);
        assert_eq!(cache[c].size_y as u32, glyphs[c].rows);
        assert_eq!(cache[c].advance, glyphs[c].advance);
        if c > 0 {
            // Every glyph gets its own texture, allocated in order.
            assert_eq!(cache[c].texture_id, cache[c - 1].texture_id + 1);
        }
    }

    // The projection matrix ends up written through the program's
    // projection uniform.
    assert_eq!(
        ctx.last_uniform(program_id, 1),
        Some(UniformPackedParam::UniformMatrix4FV(identity_words()))
    );
}

#[test]
fn test_render_text_streams_one_quad_per_glyph() {
    let mut ctx = GlContext::new();
    let program = linked_text_program(&mut ctx);
    let program_id = program.id();
    let mut tm = TextManager::new(&mut ctx, program, identity_words());
    let glyphs = ascii_glyphs();
    tm.init(&mut ctx, &glyphs);
    tm.use_text_program(&mut ctx);

    let color = Uniform3FParam(0.5f32.to_bits(), 0.8f32.to_bits(), 0.2f32.to_bits());
    let text: Vec<u8> = b"Hi".to_vec();
    let before = ctx.log_len();
    tm.render_text(&mut ctx, &text, color);

    // Colour write, unit select, quad-array bind; five commands per
    // glyph; then the two unbinds.
    assert_eq!(ctx.log_len(), before + 3 + 5 * text.len() + 2);
    assert_eq!(
        ctx.command(before),
        GlCommand::Uniform {
            program: program_id,
            location: 0,
            value: UniformPackedParam::Uniform3F(color),
        }
    );
    assert_eq!(ctx.command(before + 1), GlCommand::ActiveTexture { unit: 0 });
    let h = tm.characters_ref()[b'H' as usize].texture_id;
    assert_eq!(ctx.command(before + 3), GlCommand::BindTexture { texture: h });
    assert_eq!(
        ctx.command(before + 5),
        GlCommand::BufferSubData { target: BufferTarget::Array, words: 24 }
    );
    assert_eq!(ctx.command(before + 7), GlCommand::DrawArrays { vertices: 6 });
    let i = tm.characters_ref()[b'i' as usize].texture_id;
    assert_eq!(ctx.command(before + 8), GlCommand::BindTexture { texture: i });
    let n = ctx.log_len();
    assert_eq!(ctx.command(n - 2), GlCommand::BindVertexArray { vertex_array: 0 });
    assert_eq!(ctx.command(n - 1), GlCommand::BindTexture { texture: 0 });
}

#[test]
fn test_render_empty_text_only_brackets() {
    let mut ctx = GlContext::new();
    let program = linked_text_program(&mut ctx);
    let mut tm = TextManager::new(&mut ctx, program, identity_words());
    let glyphs = ascii_glyphs();
    tm.init(&mut ctx, &glyphs);
    tm.use_text_program(&mut ctx);
    let before = ctx.log_len();
    tm.render_text(&mut ctx, &Vec::new(), Uniform3FParam(0, 0, 0));
    // Colour write, unit select, bind, and the two unbinds: no draws.
    assert_eq!(ctx.log_len(), before + 5);
}

#[test]
fn test_glyph_upload_uses_single_channel_format() {
    let mut ctx = GlContext::new();
    let program = linked_text_program(&mut ctx);
    let mut tm = TextManager::new(&mut ctx, program, identity_words());
    let before = ctx.log_len();
    let glyphs = ascii_glyphs();
    tm.init(&mut ctx, &glyphs);
    // First glyph: bind its fresh texture, then upload with the
    // single-channel format.
    assert_eq!(
        ctx.command(before + 1),
        GlCommand::TexImage2D { width: glyphs[0].width, height: glyphs[0].rows, format: RED }
    );
}
