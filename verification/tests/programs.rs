use rust_opengl::context::GlContext;
use rust_opengl::program::{LinkOutcome, Program};
use rust_opengl::shader::{CompileOutcome, Shader, FRAGMENT_SHADER, VERTEX_SHADER};

fn compiled_ok() -> CompileOutcome {
    CompileOutcome { success: true, info_log: String::new() }
}

fn link_ok(uniforms: &[&str]) -> LinkOutcome {
    LinkOutcome {
        success: true,
        info_log: String::new(),
        active_uniforms: uniforms.iter().map(|u| u.to_string()).collect(),
    }
}

#[test]
fn test_compile_success() {
    let mut ctx = GlContext::new();
    let mut shader = Shader::new(&mut ctx, "void main() {}".to_string(), VERTEX_SHADER);
    assert!(!shader.is_compiled());
    assert!(shader.compile(compiled_ok()).is_ok());
    assert!(shader.is_compiled());
}

#[test]
fn test_compile_failure_surfaces_log() {
    let mut ctx = GlContext::new();
    let mut shader = Shader::new(&mut ctx, "vod main() {}".to_string(), FRAGMENT_SHADER);
    let outcome = CompileOutcome {
        success: false,
        info_log: "0:1: error: unknown type name 'vod'".to_string(),
    };
    let result = shader.compile(outcome);
    assert_eq!(result.unwrap_err(), "0:1: error: unknown type name 'vod'");
    assert!(!shader.is_compiled());
}

#[test]
fn test_link_blocked_by_uncompiled_shader() {
    let mut ctx = GlContext::new();
    let shader = Shader::new(&mut ctx, "void main() {}".to_string(), VERTEX_SHADER);
    let mut program = Program::new(&mut ctx);
    program.add_shader(&shader);
    let result = program.link_shaders(link_ok(&[]));
    assert!(result.is_err());
    assert!(!program.is_linked());
}

#[test]
fn test_link_blocked_by_failed_shader() {
    let mut ctx = GlContext::new();
    let mut good = Shader::new(&mut ctx, "void main() {}".to_string(), VERTEX_SHADER);
    assert!(good.compile(compiled_ok()).is_ok());
    let mut bad = Shader::new(&mut ctx, "broken".to_string(), FRAGMENT_SHADER);
    assert!(bad.compile(CompileOutcome { success: false, info_log: "bad".to_string() }).is_err());

    let mut program = Program::new(&mut ctx);
    program.add_shader(&good);
    program.add_shader(&bad);
    // The blocked link leaves the program unlinked, so trying again is
    // possible and fails the same way.
    assert!(program.link_shaders(link_ok(&[])).is_err());
    assert!(!program.is_linked());
    assert!(program.link_shaders(link_ok(&[])).is_err());
    assert!(!program.is_linked());
}

#[test]
fn test_link_failure_surfaces_log() {
    let mut ctx = GlContext::new();
    let mut vert = Shader::new(&mut ctx, "void main() {}".to_string(), VERTEX_SHADER);
    let mut frag = Shader::new(&mut ctx, "void main() {}".to_string(), FRAGMENT_SHADER);
    assert!(vert.compile(compiled_ok()).is_ok());
    assert!(frag.compile(compiled_ok()).is_ok());
    let mut program = Program::new(&mut ctx);
    program.add_shader(&vert);
    program.add_shader(&frag);
    let outcome = LinkOutcome {
        success: false,
        info_log: "error: varying mismatch".to_string(),
        active_uniforms: Vec::new(),
    };
    let result = program.link_shaders(outcome);
    assert_eq!(result.unwrap_err(), "error: varying mismatch");
    assert!(!program.is_linked());
}

#[test]
fn test_link_success_fixes_active_uniforms() {
    let mut ctx = GlContext::new();
    let mut vert = Shader::new(&mut ctx, "void main() {}".to_string(), VERTEX_SHADER);
    let mut frag = Shader::new(&mut ctx, "void main() {}".to_string(), FRAGMENT_SHADER);
    assert!(vert.compile(compiled_ok()).is_ok());
    assert!(frag.compile(compiled_ok()).is_ok());
    let mut program = Program::new(&mut ctx);
    program.add_shader(&vert);
    program.add_shader(&frag);
    assert!(program.link_shaders(link_ok(&["color1", "projection"])).is_ok());
    assert!(program.is_linked());
    assert_eq!(program.uniform_location("color1"), 0);
    assert_eq!(program.uniform_location("projection"), 1);
    assert_eq!(program.uniform_location("look_at"), -1);
}

#[test]
fn test_fresh_handles_are_distinct() {
    let mut ctx = GlContext::new();
    let a = Shader::new(&mut ctx, String::new(), VERTEX_SHADER);
    let b = Shader::new(&mut ctx, String::new(), FRAGMENT_SHADER);
    let p = Program::new(&mut ctx);
    assert_ne!(a.id(), b.id());
    assert_ne!(b.id(), p.id());
    assert_ne!(a.id(), p.id());
}
