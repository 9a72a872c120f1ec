use rust_opengl::context::GlContext;
use rust_opengl::program::{LinkOutcome, Program};
use rust_opengl::shader::{CompileOutcome, Shader, FRAGMENT_SHADER, VERTEX_SHADER};
use rust_opengl::texture::{ImageData, TextureDescriptor, RGB};
use rust_opengl::uniform::{
    Uniform1FParam, Uniform1IParam, Uniform3FParam, UniformDescriptor, UniformPackedParam,
};

fn linked_program(ctx: &mut GlContext, uniforms: &[&str]) -> Program {
    let mut vert = Shader::new(ctx, "void main() {}".to_string(), VERTEX_SHADER);
    let mut frag = Shader::new(ctx, "void main() {}".to_string(), FRAGMENT_SHADER);
    vert.compile(CompileOutcome { success: true, info_log: String::new() }).unwrap();
    frag.compile(CompileOutcome { success: true, info_log: String::new() }).unwrap();
    let mut program = Program::new(ctx);
    program.add_shader(&vert);
    program.add_shader(&frag);
    program
        .link_shaders(LinkOutcome {
            success: true,
            info_log: String::new(),
            active_uniforms: uniforms.iter().map(|u| u.to_string()).collect(),
        })
        .unwrap();
    program
}

#[test]
fn test_resolve_absent_name_returns_sentinel() {
    let mut ctx = GlContext::new();
    let program = linked_program(&mut ctx, &["color1"]);
    let slot = UniformDescriptor::new(&program, "mixvalue");
    assert_eq!(slot.location_value(), -1);
}

#[test]
fn test_sentinel_update_is_silent_noop() {
    let mut ctx = GlContext::new();
    let program = linked_program(&mut ctx, &["color1"]);
    ctx.use_program(program.id());
    let slot = UniformDescriptor::new(&program, "mixvalue");
    let before = ctx.log_len();
    slot.update(&mut ctx, UniformPackedParam::Uniform1F(Uniform1FParam(0.5f32.to_bits())));
    slot.update(&mut ctx, UniformPackedParam::Uniform1I(Uniform1IParam(7)));
    assert_eq!(ctx.log_len(), before);
    assert_eq!(ctx.last_uniform(program.id(), -1), None);
}

#[test]
fn test_resolve_on_unlinked_program_returns_sentinel() {
    let mut ctx = GlContext::new();
    let program = Program::new(&mut ctx);
    let slot = UniformDescriptor::new(&program, "color1");
    assert_eq!(slot.location_value(), -1);
}

#[test]
fn test_update_writes_through_resolved_slot() {
    let mut ctx = GlContext::new();
    let program = linked_program(&mut ctx, &["color1"]);
    ctx.use_program(program.id());
    let slot = UniformDescriptor::new(&program, "color1");
    assert_eq!(slot.location_value(), 0);
    let value = UniformPackedParam::Uniform3F(Uniform3FParam(
        1.0f32.to_bits(),
        0.5f32.to_bits(),
        0.0f32.to_bits(),
    ));
    slot.update(&mut ctx, value);
    assert_eq!(ctx.last_uniform(program.id(), 0), Some(value));
}

#[test]
fn test_update_without_program_in_use_is_dropped() {
    let mut ctx = GlContext::new();
    let program = linked_program(&mut ctx, &["color1"]);
    let slot = UniformDescriptor::new(&program, "color1");
    let before = ctx.log_len();
    slot.update(&mut ctx, UniformPackedParam::Uniform1I(Uniform1IParam(3)));
    assert_eq!(ctx.log_len(), before);
}

#[test]
fn test_last_uniform_sees_latest_write() {
    let mut ctx = GlContext::new();
    let program = linked_program(&mut ctx, &["mixvalue"]);
    ctx.use_program(program.id());
    let slot = UniformDescriptor::new(&program, "mixvalue");
    slot.update(&mut ctx, UniformPackedParam::Uniform1F(Uniform1FParam(0.25f32.to_bits())));
    slot.update(&mut ctx, UniformPackedParam::Uniform1F(Uniform1FParam(0.75f32.to_bits())));
    assert_eq!(
        ctx.last_uniform(program.id(), 0),
        Some(UniformPackedParam::Uniform1F(Uniform1FParam(0.75f32.to_bits())))
    );
}

#[test]
fn test_texture_unit_assignment_writes_sampler() {
    let mut ctx = GlContext::new();
    let program = linked_program(&mut ctx, &["texture1", "texture2"]);
    let image = ImageData { width: 2, height: 2, channels: 3, pixels: vec![0; 12] };
    let texture = TextureDescriptor::new(&mut ctx, &program, "texture2", &Some(image), RGB);
    ctx.use_program(program.id());
    texture.set_active_texture(&mut ctx, 1);
    assert_eq!(
        ctx.last_uniform(program.id(), texture.sampler_location()),
        Some(UniformPackedParam::Uniform1I(Uniform1IParam(1)))
    );
}

#[test]
fn test_texture_load_failure_uploads_nothing() {
    let mut ctx = GlContext::new();
    let program = linked_program(&mut ctx, &["texture1"]);
    let before = ctx.log_len();
    let texture = TextureDescriptor::new(&mut ctx, &program, "texture1", &None, RGB);
    // Only the bind of the fresh, uninitialized texture is issued.
    assert_eq!(ctx.log_len(), before + 1);
    assert_eq!(texture.sampler_location(), 0);
}
