use rust_opengl::buffer::{BufferDescriptor, EboDescriptor, VaoDescriptor};
use rust_opengl::context::{BufferTarget, GlCommand, GlContext};
use rust_opengl::program::{LinkOutcome, Program};
use rust_opengl::shader::{CompileOutcome, Shader, FRAGMENT_SHADER, VERTEX_SHADER};
use rust_opengl::uniform::{Uniform3FParam, UniformDescriptor, UniformPackedParam};
use rust_opengl::vertex::{AttributesDescriptor, Mesh, Model, FLOAT};

fn linked_program(ctx: &mut GlContext, uniforms: &[&str]) -> Program {
    let mut vert = Shader::new(ctx, "void main() {}".to_string(), VERTEX_SHADER);
    let mut frag = Shader::new(ctx, "void main() {}".to_string(), FRAGMENT_SHADER);
    vert.compile(CompileOutcome { success: true, info_log: String::new() }).unwrap();
    frag.compile(CompileOutcome { success: true, info_log: String::new() }).unwrap();
    let mut program = Program::new(ctx);
    program.add_shader(&vert);
    program.add_shader(&frag);
    program
        .link_shaders(LinkOutcome {
            success: true,
            info_log: String::new(),
            active_uniforms: uniforms.iter().map(|u| u.to_string()).collect(),
        })
        .unwrap();
    program
}

fn five_scalar_layout() -> AttributesDescriptor {
    AttributesDescriptor {
        component_groups: 2,
        component_nums: vec![3, 2],
        component_types: vec![FLOAT, FLOAT, FLOAT],
        component_offsets: vec![0, 3],
        component_strides: vec![5, 5],
    }
}

fn two_triangle_mesh(ctx: &mut GlContext) -> Mesh {
    // Five vertices of five scalars each, six indices: two triangles.
    let vertices: Vec<u32> = vec![0; 25];
    let indices: Vec<u32> = vec![0, 1, 2, 1, 3, 2];
    Mesh::new(ctx, vertices, indices, five_scalar_layout()).unwrap()
}

#[test]
fn test_indexed_mesh_update_then_render_issues_one_draw() {
    let mut ctx = GlContext::new();
    let program = linked_program(&mut ctx, &["color1"]);
    let mut mesh = two_triangle_mesh(&mut ctx);
    let color1 = UniformDescriptor::new(&program, "color1");
    assert_eq!(color1.location_value(), 0);
    mesh.add_uniform(color1);

    ctx.use_program(program.id());
    mesh.bind_vao(&mut ctx);
    let color = UniformPackedParam::Uniform3F(Uniform3FParam(
        1.0f32.to_bits(),
        0.5f32.to_bits(),
        0.0f32.to_bits(),
    ));
    mesh.uniforms_ref()[0].update(&mut ctx, color);
    assert_eq!(ctx.last_uniform(program.id(), 0), Some(color));

    // The draw issues exactly one indexed draw call sized to the index
    // count, and rebinds nothing.
    let before = ctx.log_len();
    mesh.render(&mut ctx);
    assert_eq!(ctx.log_len(), before + 1);
    assert_eq!(ctx.command(before), GlCommand::DrawElements { indices: 6 });
}

#[test]
fn test_mesh_setup_traffic() {
    let mut ctx = GlContext::new();
    let mesh = two_triangle_mesh(&mut ctx);
    let _ = &mesh;
    // Handles are allocated in order: buffer, vertex array, index buffer.
    let expected = vec![
        GlCommand::BindBuffer { target: BufferTarget::Array, buffer: 1 },
        GlCommand::BufferData { target: BufferTarget::Array, words: 25 },
        GlCommand::BindVertexArray { vertex_array: 2 },
        GlCommand::BindBuffer { target: BufferTarget::Array, buffer: 1 },
        GlCommand::VertexAttribPointer {
            index: 0,
            components: 3,
            scalar_type: FLOAT,
            stride_bytes: 20,
            offset_bytes: 0,
        },
        GlCommand::EnableVertexAttribArray { index: 0 },
        GlCommand::VertexAttribPointer {
            index: 1,
            components: 2,
            scalar_type: FLOAT,
            stride_bytes: 20,
            offset_bytes: 12,
        },
        GlCommand::EnableVertexAttribArray { index: 1 },
        GlCommand::BindBuffer { target: BufferTarget::ElementArray, buffer: 3 },
        GlCommand::BufferData { target: BufferTarget::ElementArray, words: 6 },
        GlCommand::BindBuffer { target: BufferTarget::Array, buffer: 1 },
        GlCommand::BindVertexArray { vertex_array: 2 },
        GlCommand::BindBuffer { target: BufferTarget::ElementArray, buffer: 3 },
    ];
    assert_eq!(ctx.log_len(), expected.len());
    for (i, want) in expected.into_iter().enumerate() {
        assert_eq!(ctx.command(i), want);
    }
}

#[test]
fn test_mesh_new_rejects_invalid_component_type() {
    let mut ctx = GlContext::new();
    let vertices: Vec<u32> = vec![0; 25];
    let indices: Vec<u32> = vec![0, 1, 2];
    let layout = AttributesDescriptor {
        component_groups: 1,
        component_nums: vec![3],
        component_types: vec![0x1402],
        component_offsets: vec![0],
        component_strides: vec![3],
    };
    let result = Mesh::new(&mut ctx, vertices, indices, layout);
    assert!(result.is_err());
}

#[test]
fn test_model_renders_each_mesh_in_order() {
    let mut ctx = GlContext::new();
    let program = linked_program(&mut ctx, &[]);
    let first = two_triangle_mesh(&mut ctx);

    let vertices: Vec<u32> = vec![0; 15];
    let indices: Vec<u32> = vec![0, 1, 2];
    let second = Mesh::new(&mut ctx, vertices, indices, five_scalar_layout()).unwrap();

    let mut model = Model::new();
    model.add_mesh(first);
    model.add_mesh(second);
    model.attach_program(&program);

    model.use_program(&mut ctx);
    let before = ctx.log_len();
    model.render(&mut ctx);
    assert_eq!(ctx.log_len(), before + 2);
    assert_eq!(ctx.command(before), GlCommand::DrawElements { indices: 6 });
    assert_eq!(ctx.command(before + 1), GlCommand::DrawElements { indices: 3 });
}

#[test]
fn test_attach_ebo_binding_order() {
    let mut ctx = GlContext::new();
    let vertices: Vec<u32> = vec![0; 9];
    let buffer = BufferDescriptor::new(&mut ctx, &vertices);
    let mut vao = VaoDescriptor::new(&mut ctx, &buffer);
    let indices: Vec<u32> = vec![0, 1, 2];
    let ebo = EboDescriptor::new(&mut ctx, &indices);
    assert_eq!(ebo.num_elements(), 3);

    let before = ctx.log_len();
    vao.attach_ebo(&mut ctx, &ebo);
    // Buffer and vertex array are bound before the index buffer, so the
    // vertex array captures the binding while both are current.
    assert_eq!(ctx.log_len(), before + 3);
    assert_eq!(
        ctx.command(before),
        GlCommand::BindBuffer { target: BufferTarget::Array, buffer: buffer.id() }
    );
    assert_eq!(ctx.command(before + 1), GlCommand::BindVertexArray { vertex_array: vao.id() });
    assert_eq!(
        ctx.command(before + 2),
        GlCommand::BindBuffer { target: BufferTarget::ElementArray, buffer: ebo.id() }
    );
}
