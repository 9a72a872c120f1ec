use rust_opengl::buffer::{BufferDescriptor, VaoDescriptor};
use rust_opengl::context::{BufferTarget, GlCommand, GlContext};
use rust_opengl::vertex::{scalar_size, AttributesDescriptor, FLOAT, UNSIGNED_INT};

fn quad_layout() -> AttributesDescriptor {
    AttributesDescriptor {
        component_groups: 2,
        component_nums: vec![3, 2],
        component_types: vec![FLOAT, FLOAT, FLOAT],
        component_offsets: vec![0, 3],
        component_strides: vec![5, 5],
    }
}

#[test]
fn test_scalar_size_recognized_types() {
    assert_eq!(scalar_size(FLOAT), Some(4));
    assert_eq!(scalar_size(UNSIGNED_INT), Some(4));
    assert_eq!(scalar_size(0x1404), None);
    assert_eq!(scalar_size(0), None);
}

#[test]
fn test_set_attributes_byte_math() {
    let mut ctx = GlContext::new();
    let vertices: Vec<u32> = vec![0; 25];
    let buffer = BufferDescriptor::new(&mut ctx, &vertices);
    let mut vao = VaoDescriptor::new(&mut ctx, &buffer);
    let layout = quad_layout();
    assert!(layout.is_well_formed());
    let result = vao.set_attributes(&mut ctx, &layout);
    assert!(result.is_ok());

    assert_eq!(vao.slot_count(), 2);
    let s0 = vao.slot(0);
    assert_eq!(s0.index, 0);
    assert_eq!(s0.components, 3);
    assert_eq!(s0.scalar_type, FLOAT);
    assert_eq!(s0.stride_bytes, 5 * 4);
    assert_eq!(s0.offset_bytes, 0);
    let s1 = vao.slot(1);
    assert_eq!(s1.index, 1);
    assert_eq!(s1.components, 2);
    assert_eq!(s1.stride_bytes, 5 * 4);
    assert_eq!(s1.offset_bytes, 3 * 4);

    let n = ctx.log_len();
    assert_eq!(
        ctx.command(n - 4),
        GlCommand::VertexAttribPointer {
            index: 0,
            components: 3,
            scalar_type: FLOAT,
            stride_bytes: 20,
            offset_bytes: 0,
        }
    );
    assert_eq!(ctx.command(n - 3), GlCommand::EnableVertexAttribArray { index: 0 });
    assert_eq!(
        ctx.command(n - 2),
        GlCommand::VertexAttribPointer {
            index: 1,
            components: 2,
            scalar_type: FLOAT,
            stride_bytes: 20,
            offset_bytes: 12,
        }
    );
    assert_eq!(ctx.command(n - 1), GlCommand::EnableVertexAttribArray { index: 1 });
}

#[test]
fn test_set_attributes_unsigned_int_byte_math() {
    let mut ctx = GlContext::new();
    let vertices: Vec<u32> = vec![0; 8];
    let buffer = BufferDescriptor::new(&mut ctx, &vertices);
    let mut vao = VaoDescriptor::new(&mut ctx, &buffer);
    let layout = AttributesDescriptor {
        component_groups: 1,
        component_nums: vec![2],
        component_types: vec![UNSIGNED_INT],
        component_offsets: vec![1],
        component_strides: vec![4],
    };
    assert!(vao.set_attributes(&mut ctx, &layout).is_ok());
    let s0 = vao.slot(0);
    assert_eq!(s0.stride_bytes, 4 * 4);
    assert_eq!(s0.offset_bytes, 1 * 4);
}

#[test]
fn test_set_attributes_invalid_type_is_error_and_preserves_slots() {
    let mut ctx = GlContext::new();
    let vertices: Vec<u32> = vec![0; 25];
    let buffer = BufferDescriptor::new(&mut ctx, &vertices);
    let mut vao = VaoDescriptor::new(&mut ctx, &buffer);
    assert!(vao.set_attributes(&mut ctx, &quad_layout()).is_ok());
    let configured0 = vao.slot(0);
    let configured1 = vao.slot(1);
    let log_before = ctx.log_len();

    let bad = AttributesDescriptor {
        component_groups: 2,
        component_nums: vec![3, 2],
        component_types: vec![FLOAT, 0x1401],
        component_offsets: vec![0, 3],
        component_strides: vec![5, 5],
    };
    let result = vao.set_attributes(&mut ctx, &bad);
    assert!(result.is_err());
    assert_eq!(result.unwrap_err(), "Invalid component type!");

    assert_eq!(vao.slot_count(), 2);
    assert_eq!(vao.slot(0), configured0);
    assert_eq!(vao.slot(1), configured1);
    assert_eq!(ctx.log_len(), log_before);
}

#[test]
fn test_is_well_formed_rejects_short_tables() {
    let layout = AttributesDescriptor {
        component_groups: 3,
        component_nums: vec![3, 2],
        component_types: vec![FLOAT, FLOAT],
        component_offsets: vec![0, 3],
        component_strides: vec![5, 5],
    };
    assert!(!layout.is_well_formed());
}

#[test]
fn test_buffer_descriptor_traffic() {
    let mut ctx = GlContext::new();
    let vertices: Vec<u32> = vec![1, 2, 3];
    let buffer = BufferDescriptor::new(&mut ctx, &vertices);
    assert_eq!(ctx.log_len(), 2);
    assert_eq!(
        ctx.command(0),
        GlCommand::BindBuffer { target: BufferTarget::Array, buffer: buffer.id() }
    );
    assert_eq!(
        ctx.command(1),
        GlCommand::BufferData { target: BufferTarget::Array, words: 3 }
    );
}
