//! Vertex-attribute layouts, meshes, and models.
//!
//! An `AttributesDescriptor` enumerates, per attribute group, the
//! component count, the scalar type, and the stride and offset expressed
//! in units of that scalar type; the byte math that configures a layout
//! multiplies them with the scalar type's byte width. The recognized
//! scalar types form a small extensible set; a layout naming any other
//! type tag is rejected without touching previously configured state.
//!
//! A `Mesh` composes a vertex buffer, an index buffer and a vertex-array
//! object, wired together at construction; a `Model` groups meshes under
//! one shared program. Drawing never rebinds anything: a draw call
//! relies on the bindings the caller established.

use vstd::prelude::*;

use crate::buffer::BufferDescriptor;
use crate::buffer::EboDescriptor;
use crate::buffer::VaoDescriptor;
use crate::context::BufferTarget;
use crate::context::CtxView;
use crate::context::GlCommand;
use crate::context::GlContext;
use crate::program::Program;
use crate::texture::TextureDescriptor;
use crate::uniform::UniformDescriptor;

verus! {

/// Scalar component type tag: single-precision float scalars.
pub const FLOAT: u32 = 0x1406;

/// Scalar component type tag: unsigned 32-bit integer scalars.
pub const UNSIGNED_INT: u32 = 0x1405;

/// Whether `scalar_type` is one of the recognized scalar types.
pub open spec fn spec_type_valid(scalar_type: u32) -> bool {
    scalar_type == FLOAT || scalar_type == UNSIGNED_INT
}

/// Byte width of one scalar of a recognized component type; 0 for an
/// unrecognized tag.
pub open spec fn spec_scalar_size(scalar_type: u32) -> u32 {
    if scalar_type == FLOAT {
        4u32
    } else if scalar_type == UNSIGNED_INT {
        4u32
    } else {
        0u32
    }
}

/// Byte width of one scalar of the given component type, or `None` if
/// the type tag is not recognized.
pub fn scalar_size(scalar_type: u32) -> (r: Option<u32>)
    ensures
        r == if spec_type_valid(scalar_type) {
            Some(spec_scalar_size(scalar_type))
        } else {
            None::<u32>
        },
{
    if scalar_type == FLOAT {
        Some(4u32)
    } else if scalar_type == UNSIGNED_INT {
        Some(4u32)
    } else {
        None
    }
}

/// One configured attribute slot of a vertex-array object, with stride
/// and offset already converted to bytes.
#[derive(Clone, Copy, PartialEq, Eq, Debug)]
pub struct AttributeSlot {
    /// The slot index; slots are configured contiguously from 0.
    pub index: u32,
    /// Components per vertex in this group.
    pub components: u32,
    /// Scalar type tag of the group.
    pub scalar_type: u32,
    /// Distance between consecutive vertices, in bytes.
    pub stride_bytes: u32,
    /// Offset of the group's first scalar, in bytes.
    pub offset_bytes: usize,
}

/// Per-group layout of the vertex data in a buffer: for each of the
/// first `component_groups` slots, how many components the group has, of
/// which scalar type, and the stride and offset in scalar units.
pub struct AttributesDescriptor {
    /// How many attribute groups the layout has; slot indices run
    /// contiguously from 0 below this count.
    pub component_groups: u32,
    /// Components per group (position 3, texture 2, and so on).
    pub component_nums: Vec<u32>,
    /// Scalar type tag per group.
    pub component_types: Vec<u32>,
    /// Offset of the group's first scalar, in scalar units.
    pub component_offsets: Vec<usize>,
    /// Distance between consecutive vertices, in scalar units.
    pub component_strides: Vec<u32>,
}

impl AttributesDescriptor {
    /// Validity: every group has an entry in each table, and strides and
    /// offsets are small enough for the byte conversion not to overflow.
    pub open spec fn wf(self) -> bool {
        &&& self.component_groups <= self.component_nums@.len()
        &&& self.component_groups <= self.component_types@.len()
        &&& self.component_groups <= self.component_offsets@.len()
        &&& self.component_groups <= self.component_strides@.len()
        &&& forall|i: int|
            0 <= i < self.component_groups ==> (#[trigger] self.component_strides@[i])
                <= 0x3FFF_FFFFu32
        &&& forall|i: int|
            0 <= i < self.component_groups ==> (#[trigger] self.component_offsets@[i])
                <= usize::MAX / 4
    }

    /// Whether every group's scalar type is recognized.
    pub open spec fn types_valid(self) -> bool {
        forall|i: int|
            0 <= i < self.component_groups ==> spec_type_valid(
                #[trigger] self.component_types@[i],
            )
    }

    /// The configured slot that group `i` yields: stride and offset are
    /// converted from scalar units to bytes by multiplying with the byte
    /// width of the group's scalar type.
    pub open spec fn spec_slot(self, i: int) -> AttributeSlot {
        AttributeSlot {
            index: i as u32,
            components: self.component_nums@[i],
            scalar_type: self.component_types@[i],
            stride_bytes: (self.component_strides@[i] * spec_scalar_size(
                self.component_types@[i],
            )) as u32,
            offset_bytes: (self.component_offsets@[i] * spec_scalar_size(
                self.component_types@[i],
            )) as usize,
        }
    }

    /// The attribute-pointer command for group `i`.
    pub open spec fn spec_pointer_command(self, i: int) -> GlCommand {
        GlCommand::VertexAttribPointer {
            index: self.spec_slot(i).index,
            components: self.spec_slot(i).components,
            scalar_type: self.spec_slot(i).scalar_type,
            stride_bytes: self.spec_slot(i).stride_bytes,
            offset_bytes: self.spec_slot(i).offset_bytes,
        }
    }

    /// The command traffic that configures the first `n` groups: for
    /// each group, its attribute pointer followed by its enable.
    pub open spec fn spec_attrib_commands(self, n: int) -> Seq<GlCommand>
        decreases n,
    {
        if n <= 0 {
            Seq::empty()
        } else {
            self.spec_attrib_commands(n - 1) + seq![
                self.spec_pointer_command(n - 1),
                GlCommand::EnableVertexAttribArray { index: (n - 1) as u32 },
            ]
        }
    }

    /// The byte math of a configured slot: the stride and offset in
    /// bytes are exactly the declared scalar-unit values multiplied by
    /// the byte width of the group's scalar type.
    pub proof fn lemma_slot_byte_math(self, i: int)
        requires
            self.wf(),
            0 <= i < self.component_groups,
        ensures
            self.spec_slot(i).stride_bytes == self.component_strides@[i] * spec_scalar_size(
                self.component_types@[i],
            ),
            self.spec_slot(i).offset_bytes == self.component_offsets@[i] * spec_scalar_size(
                self.component_types@[i],
            ),
    {
        let size = spec_scalar_size(self.component_types@[i]);
        assert(size == 0 || size == 4);
        assert(self.component_strides@[i] * size == if size == 4 {
            self.component_strides@[i] * 4
        } else {
            0
        });
        assert(self.component_offsets@[i] * size == if size == 4 {
            self.component_offsets@[i] * 4
        } else {
            0
        });
        assert(self.component_strides@[i] * 4 <= u32::MAX);
        assert(self.component_offsets@[i] * 4 <= usize::MAX);
    }

    /// Checks `wf` at run time, for callers that assemble a descriptor
    /// from untrusted parts.
    pub fn is_well_formed(&self) -> (r: bool)
        ensures
            r == self.wf(),
    {
        let groups = self.component_groups as usize;
        if groups > self.component_nums.len() || groups > self.component_types.len() || groups
            > self.component_offsets.len() || groups > self.component_strides.len() {
            return false;
        }
        let mut i: usize = 0;
        while i < groups
            invariant
                groups == self.component_groups,
                groups <= self.component_nums@.len(),
                groups <= self.component_types@.len(),
                groups <= self.component_offsets@.len(),
                groups <= self.component_strides@.len(),
                i <= groups,
                forall|j: int|
                    0 <= j < i ==> (#[trigger] self.component_strides@[j]) <= 0x3FFF_FFFFu32,
                forall|j: int|
                    0 <= j < i ==> (#[trigger] self.component_offsets@[j]) <= usize::MAX / 4,
            decreases groups - i,
        {
            if self.component_strides[i] > 0x3FFF_FFFFu32 {
                return false;
            }
            if self.component_offsets[i] > usize::MAX / 4 {
                return false;
            }
            i = i + 1;
        }
        true
    }
}

/// The command traffic that builds one mesh: upload the vertex buffer,
/// configure the layout on the vertex-array object, upload the index
/// buffer, and capture it in the vertex-array object's binding state.
pub open spec fn spec_mesh_setup_commands(
    buffer: u32,
    vao: u32,
    ebo: u32,
    vertex_words: usize,
    index_words: usize,
    attr: AttributesDescriptor,
) -> Seq<GlCommand> {
    seq![
        GlCommand::BindBuffer { target: BufferTarget::Array, buffer },
        GlCommand::BufferData { target: BufferTarget::Array, words: vertex_words },
        GlCommand::BindVertexArray { vertex_array: vao },
        GlCommand::BindBuffer { target: BufferTarget::Array, buffer },
    ] + attr.spec_attrib_commands(attr.component_groups as int) + seq![
        GlCommand::BindBuffer { target: BufferTarget::ElementArray, buffer: ebo },
        GlCommand::BufferData { target: BufferTarget::ElementArray, words: index_words },
        GlCommand::BindBuffer { target: BufferTarget::Array, buffer },
        GlCommand::BindVertexArray { vertex_array: vao },
        GlCommand::BindBuffer { target: BufferTarget::ElementArray, buffer: ebo },
    ]
}

/// One drawable shape: a vertex buffer, an index buffer and a
/// vertex-array object wired together, with the textures and uniform
/// slots that feed its program.
pub struct Mesh {
    /// The vertex data, as 32-bit scalar words.
    pub vertices: Vec<u32>,
    /// The triangle indices.
    pub face_indices: Vec<u32>,
    /// The textures feeding the mesh's program.
    pub textures: Vec<TextureDescriptor>,
    /// The uniform slots updated each frame.
    pub uniforms: Vec<UniformDescriptor>,
    buffer: BufferDescriptor,
    vao: VaoDescriptor,
    ebo: EboDescriptor,
}

impl Mesh {
    /// The vertex data, as uploaded.
    pub closed spec fn spec_vertices(self) -> Seq<u32> {
        self.vertices@
    }

    /// The triangle indices, as uploaded.
    pub closed spec fn spec_indices(self) -> Seq<u32> {
        self.face_indices@
    }

    /// The attached textures.
    pub closed spec fn spec_textures(self) -> Seq<TextureDescriptor> {
        self.textures@
    }

    /// The attached uniform slots.
    pub closed spec fn spec_uniforms(self) -> Seq<UniformDescriptor> {
        self.uniforms@
    }

    /// The vertex buffer's handle.
    pub closed spec fn spec_buffer_id(self) -> u32 {
        self.buffer.spec_id()
    }

    /// The vertex-array object's handle.
    pub closed spec fn spec_vao_id(self) -> u32 {
        self.vao.spec_id()
    }

    /// The index buffer's handle.
    pub closed spec fn spec_ebo_id(self) -> u32 {
        self.ebo.spec_id()
    }

    /// The attribute slots configured on the vertex-array object.
    pub closed spec fn spec_slots(self) -> Seq<AttributeSlot> {
        self.vao.slots()
    }

    /// How many indices one draw of this mesh covers.
    pub closed spec fn index_count(self) -> u32 {
        self.ebo.spec_num_elements()
    }

    /// Composes a mesh: uploads `vertices` into a fresh buffer,
    /// configures `attributes` on a fresh vertex-array object, uploads
    /// `indices` into a fresh index buffer and captures it in the
    /// vertex-array object. A layout with an unrecognized scalar type
    /// fails after the vertex upload, before any slot is configured.
    pub fn new(
        ctx: &mut GlContext,
        vertices: Vec<u32>,
        indices: Vec<u32>,
        attributes: AttributesDescriptor,
    ) -> (r: Result<Mesh, String>)
        requires
            attributes.wf(),
            old(ctx)@.next_handle + 3 <= u32::MAX,
            indices@.len() <= u32::MAX,
        ensures
            attributes.types_valid() ==> (r matches Ok(m)
                && m.spec_vertices() == vertices@
                && m.spec_indices() == indices@
                && m.index_count() == indices@.len()
                && m.spec_textures() == Seq::<TextureDescriptor>::empty()
                && m.spec_uniforms() == Seq::<UniformDescriptor>::empty()
                && m.spec_buffer_id() == old(ctx)@.next_handle
                && m.spec_vao_id() == (old(ctx)@.next_handle + 1) as u32
                && m.spec_ebo_id() == (old(ctx)@.next_handle + 2) as u32
                && m.spec_slots() == Seq::new(
                    attributes.component_groups as nat,
                    |i: int| attributes.spec_slot(i),
                )
                && final(ctx)@ == (CtxView {
                    next_handle: (old(ctx)@.next_handle + 3) as u32,
                    array_buffer: old(ctx)@.next_handle,
                    element_array_buffer: (old(ctx)@.next_handle + 2) as u32,
                    vertex_array: (old(ctx)@.next_handle + 1) as u32,
                    log: old(ctx)@.log + spec_mesh_setup_commands(
                        old(ctx)@.next_handle,
                        (old(ctx)@.next_handle + 1) as u32,
                        (old(ctx)@.next_handle + 2) as u32,
                        vertices@.len() as usize,
                        indices@.len() as usize,
                        attributes,
                    ),
                    ..old(ctx)@
                })),
            !attributes.types_valid() ==> r is Err && final(ctx)@ == (CtxView {
                next_handle: (old(ctx)@.next_handle + 2) as u32,
                array_buffer: old(ctx)@.next_handle,
                log: old(ctx)@.log + seq![
                    GlCommand::BindBuffer {
                        target: BufferTarget::Array,
                        buffer: old(ctx)@.next_handle,
                    },
                    GlCommand::BufferData {
                        target: BufferTarget::Array,
                        words: vertices@.len() as usize,
                    },
                ],
                ..old(ctx)@
            }),
    {
        let buffer = BufferDescriptor::new(ctx, &vertices);
        let mut vao = VaoDescriptor::new(ctx, &buffer);
        let ghost after_vao = ctx@;
        match vao.set_attributes(ctx, &attributes) {
            Ok(()) => {},
            Err(e) => {
                proof {
                    assert(ctx@ =~= CtxView {
                        next_handle: (old(ctx)@.next_handle + 2) as u32,
                        array_buffer: old(ctx)@.next_handle,
                        log: old(ctx)@.log + seq![
                            GlCommand::BindBuffer {
                                target: BufferTarget::Array,
                                buffer: old(ctx)@.next_handle,
                            },
                            GlCommand::BufferData {
                                target: BufferTarget::Array,
                                words: vertices@.len() as usize,
                            },
                        ],
                        ..old(ctx)@
                    });
                }
                return Err(e);
            },
        }
        let ebo = EboDescriptor::new(ctx, &indices);
        vao.attach_ebo(ctx, &ebo);
        let m = Mesh {
            vertices,
            face_indices: indices,
            textures: Vec::new(),
            uniforms: Vec::new(),
            buffer,
            vao,
            ebo,
        };
        proof {
            assert(m.spec_textures() =~= Seq::<TextureDescriptor>::empty());
            assert(m.spec_uniforms() =~= Seq::<UniformDescriptor>::empty());
            assert(ctx@.log =~= old(ctx)@.log + spec_mesh_setup_commands(
                old(ctx)@.next_handle,
                (old(ctx)@.next_handle + 1) as u32,
                (old(ctx)@.next_handle + 2) as u32,
                m.vertices@.len() as usize,
                m.face_indices@.len() as usize,
                attributes,
            ));
            assert(ctx@ =~= CtxView {
                next_handle: (old(ctx)@.next_handle + 3) as u32,
                array_buffer: old(ctx)@.next_handle,
                element_array_buffer: (old(ctx)@.next_handle + 2) as u32,
                vertex_array: (old(ctx)@.next_handle + 1) as u32,
                log: ctx@.log,
                ..old(ctx)@
            });
        }
        Ok(m)
    }

    /// The attached uniform slots, for the frame pass.
    pub fn uniforms_ref(&self) -> (r: &Vec<UniformDescriptor>)
        ensures
            r@ == self.spec_uniforms(),
    {
        &self.uniforms
    }

    /// The attached textures, for the frame pass.
    pub fn textures_ref(&self) -> (r: &Vec<TextureDescriptor>)
        ensures
            r@ == self.spec_textures(),
    {
        &self.textures
    }

    /// Makes this mesh's vertex-array object current.
    pub fn bind_vao(&self, ctx: &mut GlContext)
        ensures
            final(ctx)@ == (CtxView {
                vertex_array: self.spec_vao_id(),
                log: old(ctx)@.log.push(
                    GlCommand::BindVertexArray { vertex_array: self.spec_vao_id() },
                ),
                ..old(ctx)@
            }),
    {
        self.vao.bind(ctx);
    }

    /// Attaches a uniform slot; slots are updated in attach order.
    pub fn add_uniform(&mut self, uniform: UniformDescriptor)
        ensures
            final(self).spec_uniforms() == old(self).spec_uniforms().push(uniform),
            final(self).spec_textures() == old(self).spec_textures(),
            final(self).spec_vertices() == old(self).spec_vertices(),
            final(self).spec_indices() == old(self).spec_indices(),
            final(self).spec_buffer_id() == old(self).spec_buffer_id(),
            final(self).spec_vao_id() == old(self).spec_vao_id(),
            final(self).spec_ebo_id() == old(self).spec_ebo_id(),
            final(self).spec_slots() == old(self).spec_slots(),
            final(self).index_count() == old(self).index_count(),
    {
        self.uniforms.push(uniform);
    }

    /// Attaches a texture binding.
    pub fn add_texture(&mut self, texture: TextureDescriptor)
        ensures
            final(self).spec_textures() == old(self).spec_textures().push(texture),
            final(self).spec_uniforms() == old(self).spec_uniforms(),
            final(self).spec_vertices() == old(self).spec_vertices(),
            final(self).spec_indices() == old(self).spec_indices(),
            final(self).spec_buffer_id() == old(self).spec_buffer_id(),
            final(self).spec_vao_id() == old(self).spec_vao_id(),
            final(self).spec_ebo_id() == old(self).spec_ebo_id(),
            final(self).spec_slots() == old(self).spec_slots(),
            final(self).index_count() == old(self).index_count(),
    {
        self.textures.push(texture);
    }

    /// Issues exactly one indexed triangle draw sized to this mesh's
    /// index count — and nothing else. The correct program and
    /// vertex-array object must already be bound by the caller; nothing
    /// is bound or rebound here.
    pub fn render(&self, ctx: &mut GlContext)
        ensures
            final(ctx)@ == (CtxView {
                log: old(ctx)@.log.push(GlCommand::DrawElements { indices: self.index_count() }),
                ..old(ctx)@
            }),
    {
        ctx.draw_elements(self.ebo.num_elements());
    }
}

/// The draw traffic of one model: one indexed draw per mesh, in order.
pub open spec fn spec_draw_commands(meshes: Seq<Mesh>) -> Seq<GlCommand> {
    Seq::new(meshes.len(), |i: int| GlCommand::DrawElements { indices: meshes[i].index_count() })
}

/// A drawable object: one or more meshes sharing one program.
pub struct Model {
    /// The meshes this model is made of.
    pub meshes: Vec<Mesh>,
    program_id: Option<u32>,
}

impl Model {
    /// The meshes, in registration order.
    pub closed spec fn spec_meshes(self) -> Seq<Mesh> {
        self.meshes@
    }

    /// The handle of the attached program, if one was attached.
    pub closed spec fn spec_program(self) -> Option<u32> {
        self.program_id
    }

    /// The meshes, for the frame pass.
    pub fn meshes_ref(&self) -> (r: &Vec<Mesh>)
        ensures
            r@ == self.spec_meshes(),
    {
        &self.meshes
    }

    /// Whether a program has been attached.
    pub fn has_program(&self) -> (r: bool)
        ensures
            r == (self.spec_program() is Some),
    {
        self.program_id.is_some()
    }

    /// An empty model with no program attached.
    pub fn new() -> (m: Model)
        ensures
            m.spec_meshes() == Seq::<Mesh>::empty(),
            m.spec_program() is None,
    {
        let m = Model { meshes: Vec::new(), program_id: None };
        proof {
            assert(m.spec_meshes() =~= Seq::<Mesh>::empty());
        }
        m
    }

    /// Adds a mesh to the model.
    pub fn add_mesh(&mut self, mesh: Mesh)
        ensures
            final(self).spec_meshes() == old(self).spec_meshes().push(mesh),
            final(self).spec_program() == old(self).spec_program(),
    {
        self.meshes.push(mesh);
    }

    /// Attaches the program all this model's meshes are drawn with.
    pub fn attach_program(&mut self, program: &Program)
        ensures
            final(self).spec_program() == Some(program.spec_id()),
            final(self).spec_meshes() == old(self).spec_meshes(),
    {
        self.program_id = Some(program.id());
    }

    /// Makes the attached program current.
    pub fn use_program(&self, ctx: &mut GlContext)
        requires
            self.spec_program() is Some,
        ensures
            final(ctx)@ == (CtxView {
                program: self.spec_program()->Some_0,
                log: old(ctx)@.log.push(
                    GlCommand::UseProgram { program: self.spec_program()->Some_0 },
                ),
                ..old(ctx)@
            }),
    {
        let p = self.program_id.unwrap();
        ctx.use_program(p);
    }

    /// Issues one indexed draw per mesh, in order, and nothing else.
    /// Program, vertex-array and uniform state must already have been
    /// established by the caller.
    pub fn render(&self, ctx: &mut GlContext)
        ensures
            final(ctx)@ == (CtxView {
                log: old(ctx)@.log + spec_draw_commands(self.spec_meshes()),
                ..old(ctx)@
            }),
    {
        let mut i: usize = 0;
        proof {
            assert(old(ctx)@.log + spec_draw_commands(self.spec_meshes().take(0)) =~= old(
                ctx,
            )@.log);
        }
        while i < self.meshes.len()
            invariant
                i <= self.meshes.len(),
                ctx@ == (CtxView {
                    log: old(ctx)@.log + spec_draw_commands(self.spec_meshes().take(i as int)),
                    ..old(ctx)@
                }),
            decreases self.meshes.len() - i,
        {
            self.meshes[i].render(ctx);
            proof {
                assert(ctx@.log =~= old(ctx)@.log + spec_draw_commands(
                    self.spec_meshes().take(i as int + 1),
                ));
                assert(ctx@ =~= CtxView {
                    log: old(ctx)@.log + spec_draw_commands(self.spec_meshes().take(i as int + 1)),
                    ..old(ctx)@
                });
            }
            i = i + 1;
        }
        proof {
            assert(self.spec_meshes().take(self.spec_meshes().len() as int) =~= self.spec_meshes());
            assert(ctx@ =~= CtxView {
                log: old(ctx)@.log + spec_draw_commands(self.spec_meshes()),
                ..old(ctx)@
            });
        }
    }
}

} // verus!
