use rust_opengl::application::{
    handle_window_event, Application, InputState, KeyAction, KeyInput, MeshFrameState,
};
use rust_opengl::context::{GlCommand, GlContext};
use rust_opengl::program::{LinkOutcome, Program};
use rust_opengl::shader::{CompileOutcome, Shader, FRAGMENT_SHADER, VERTEX_SHADER};
use rust_opengl::texture::{ImageData, TextureDescriptor, RGB};
use rust_opengl::uniform::{Uniform1IParam, Uniform3FParam, UniformDescriptor, UniformPackedParam};
use rust_opengl::vertex::{AttributesDescriptor, Mesh, Model, FLOAT};

fn linked_program(ctx: &mut GlContext, uniforms: &[&str]) -> Program {
    let mut vert = Shader::new(ctx, "void main() {}".to_string(), VERTEX_SHADER);
    let mut frag = Shader::new(ctx, "void main() {}".to_string(), FRAGMENT_SHADER);
    vert.compile(CompileOutcome { success: true, info_log: String::new() }).unwrap();
    frag.compile(CompileOutcome { success: true, info_log: String::new() }).unwrap();
    let mut program = Program::new(ctx);
    program.add_shader(&vert);
    program.add_shader(&frag);
    program
        .link_shaders(LinkOutcome {
            success: true,
            info_log: String::new(),
            active_uniforms: uniforms.iter().map(|u| u.to_string()).collect(),
        })
        .unwrap();
    program
}

#[test]
fn test_use_program_at_index() {
    let mut ctx = GlContext::new();
    let p0 = linked_program(&mut ctx, &[]);
    let p1 = linked_program(&mut ctx, &[]);
    let mut app = Application::new();
    app.add_program(&p0);
    app.add_program(&p1);
    app.use_program_at_index(&mut ctx, 1);
    assert_eq!(ctx.current_program(), p1.id());
}

#[test]
fn test_render_models_frame_traffic() {
    let mut ctx = GlContext::new();
    let program = linked_program(&mut ctx, &["color1", "texture1"]);
    let vertices: Vec<u32> = vec![0; 25];
    let indices: Vec<u32> = vec![0, 1, 2, 1, 3, 2];
    let layout = AttributesDescriptor {
        component_groups: 2,
        component_nums: vec![3, 2],
        component_types: vec![FLOAT, FLOAT, FLOAT],
        component_offsets: vec![0, 3],
        component_strides: vec![5, 5],
    };
    let mut mesh = Mesh::new(&mut ctx, vertices, indices, layout).unwrap();
    // Handles run in allocation order: two shaders, the program, then
    // the mesh's buffer, vertex array and index buffer.
    let mesh_vao = 5;

    let color1 = UniformDescriptor::new(&program, "color1");
    mesh.add_uniform(color1);
    let image = ImageData { width: 1, height: 1, channels: 3, pixels: vec![0, 0, 0] };
    let texture = TextureDescriptor::new(&mut ctx, &program, "texture1", &Some(image), RGB);
    let texture_id = texture.id();
    mesh.add_texture(texture);

    let mut model = Model::new();
    model.add_mesh(mesh);
    model.attach_program(&program);
    let mut app = Application::new();
    app.add_model(model);

    let color = UniformPackedParam::Uniform3F(Uniform3FParam(
        1.0f32.to_bits(),
        0.5f32.to_bits(),
        0.0f32.to_bits(),
    ));
    let frame = vec![vec![MeshFrameState {
        uniform_updates: vec![(0, color)],
        texture_units: vec![(0, 1)],
    }]];

    let before = ctx.log_len();
    app.render_models(&mut ctx, &frame);
    let expected = vec![
        GlCommand::UseProgram { program: program.id() },
        GlCommand::Uniform { program: program.id(), location: 0, value: color },
        GlCommand::ActiveTexture { unit: 1 },
        GlCommand::BindTexture { texture: texture_id },
        GlCommand::Uniform {
            program: program.id(),
            location: 1,
            value: UniformPackedParam::Uniform1I(Uniform1IParam(1)),
        },
        GlCommand::BindVertexArray { vertex_array: mesh_vao },
        GlCommand::DrawElements { indices: 6 },
    ];
    assert_eq!(ctx.log_len(), before + expected.len());
    for (i, want) in expected.into_iter().enumerate() {
        assert_eq!(ctx.command(before + i), want);
    }
}

#[test]
fn test_render_models_drops_unresolved_uniform_writes() {
    let mut ctx = GlContext::new();
    let program = linked_program(&mut ctx, &[]);
    let vertices: Vec<u32> = vec![0; 15];
    let indices: Vec<u32> = vec![0, 1, 2];
    let layout = AttributesDescriptor {
        component_groups: 1,
        component_nums: vec![3],
        component_types: vec![FLOAT],
        component_offsets: vec![0],
        component_strides: vec![5],
    };
    let mut mesh = Mesh::new(&mut ctx, vertices, indices, layout).unwrap();
    let missing = UniformDescriptor::new(&program, "mixvalue");
    assert_eq!(missing.location_value(), -1);
    mesh.add_uniform(missing);
    let mut model = Model::new();
    model.add_mesh(mesh);
    model.attach_program(&program);
    let mut app = Application::new();
    app.add_model(model);

    let frame = vec![vec![MeshFrameState {
        uniform_updates: vec![(
            0,
            UniformPackedParam::Uniform3F(Uniform3FParam(0, 0, 0)),
        )],
        texture_units: vec![],
    }]];
    let before = ctx.log_len();
    app.render_models(&mut ctx, &frame);
    // Use, bind and draw — the unresolved write leaves no trace.
    assert_eq!(ctx.log_len(), before + 3);
    assert_eq!(ctx.command(before), GlCommand::UseProgram { program: program.id() });
    assert!(matches!(ctx.command(before + 1), GlCommand::BindVertexArray { .. }));
    assert_eq!(ctx.command(before + 2), GlCommand::DrawElements { indices: 3 });
}

#[test]
fn test_frame_valid_checks_shape_and_slots() {
    let mut ctx = GlContext::new();
    let program = linked_program(&mut ctx, &["color1"]);
    let vertices: Vec<u32> = vec![0; 15];
    let indices: Vec<u32> = vec![0, 1, 2];
    let layout = AttributesDescriptor {
        component_groups: 1,
        component_nums: vec![3],
        component_types: vec![FLOAT],
        component_offsets: vec![0],
        component_strides: vec![5],
    };
    let mut mesh = Mesh::new(&mut ctx, vertices, indices, layout).unwrap();
    mesh.add_uniform(UniformDescriptor::new(&program, "color1"));
    let mut model = Model::new();
    model.add_mesh(mesh);
    model.attach_program(&program);
    let mut app = Application::new();
    app.add_model(model);

    let good = vec![vec![MeshFrameState {
        uniform_updates: vec![(0, UniformPackedParam::Uniform3F(Uniform3FParam(0, 0, 0)))],
        texture_units: vec![],
    }]];
    assert!(app.frame_valid(&good));

    // One state list too few.
    let empty: Vec<Vec<MeshFrameState>> = Vec::new();
    assert!(!app.frame_valid(&empty));

    // A uniform slot the mesh does not have.
    let bad_slot = vec![vec![MeshFrameState {
        uniform_updates: vec![(1, UniformPackedParam::Uniform3F(Uniform3FParam(0, 0, 0)))],
        texture_units: vec![],
    }]];
    assert!(!app.frame_valid(&bad_slot));

    // A texture index the mesh does not have.
    let bad_texture = vec![vec![MeshFrameState {
        uniform_updates: vec![],
        texture_units: vec![(0, 0)],
    }]];
    assert!(!app.frame_valid(&bad_texture));
}

#[test]
fn test_input_press_and_release() {
    let mut state = InputState::new();
    assert!(!state.camera_moving_forwards);
    handle_window_event(&mut state, KeyInput::W, KeyAction::Press);
    assert!(state.camera_moving_forwards);
    handle_window_event(&mut state, KeyInput::W, KeyAction::Release);
    assert!(!state.camera_moving_forwards);

    handle_window_event(&mut state, KeyInput::Up, KeyAction::Press);
    handle_window_event(&mut state, KeyInput::Num3, KeyAction::Press);
    assert!(state.moving_up);
    assert!(state.mixvalue_grow);
    handle_window_event(&mut state, KeyInput::Up, KeyAction::Release);
    assert!(!state.moving_up);
    assert!(state.mixvalue_grow);
}

#[test]
fn test_input_escape_requests_close() {
    let mut state = InputState::new();
    handle_window_event(&mut state, KeyInput::Escape, KeyAction::Press);
    assert!(state.should_close);
}

#[test]
fn test_input_repeat_and_unbound_keys_change_nothing() {
    let mut state = InputState::new();
    handle_window_event(&mut state, KeyInput::W, KeyAction::Repeat);
    handle_window_event(&mut state, KeyInput::Other, KeyAction::Press);
    assert_eq!(state, InputState::new());
}

#[test]
fn test_input_fill_mode_latches() {
    let mut state = InputState::new();
    handle_window_event(&mut state, KeyInput::F, KeyAction::Press);
    assert!(state.fill_polygon_mode);
    handle_window_event(&mut state, KeyInput::F, KeyAction::Release);
    assert!(state.fill_polygon_mode);
}
