//! Owning wrappers for the three buffer-side objects: vertex buffers,
//! index buffers, and vertex-array objects.
//!
//! Each wrapper allocates a fresh object name on construction and records
//! exactly the command traffic its operations issue. A vertex-array
//! object references its vertex buffer (shared, not owned) by handle, and
//! optionally an index buffer; configuring its attribute layout validates
//! every group's scalar type before any slot is touched.

use vstd::prelude::*;
use vstd::string::StringExecFns;

use crate::context::BufferTarget;
use crate::context::CtxView;
use crate::context::GlCommand;
use crate::context::GlContext;
use crate::vertex::AttributeSlot;
use crate::vertex::AttributesDescriptor;
use crate::vertex::scalar_size;
use crate::vertex::spec_type_valid;

verus! {

/// An owning wrapper for one vertex-data buffer object.
pub struct BufferDescriptor {
    buffer_id: u32,
}

impl BufferDescriptor {
    /// The buffer object's handle.
    pub closed spec fn spec_id(self) -> u32 {
        self.buffer_id
    }

    /// Allocates a buffer object, binds it, and uploads `vertices` into
    /// it. The data is immutable afterwards; the model records the
    /// upload size in 32-bit words.
    pub fn new(ctx: &mut GlContext, vertices: &Vec<u32>) -> (b: BufferDescriptor)
        requires
            old(ctx)@.next_handle < u32::MAX,
        ensures
            b.spec_id() == old(ctx)@.next_handle,
            final(ctx)@ == (CtxView {
                next_handle: (old(ctx)@.next_handle + 1) as u32,
                array_buffer: b.spec_id(),
                log: old(ctx)@.log + seq![
                    GlCommand::BindBuffer { target: BufferTarget::Array, buffer: b.spec_id() },
                    GlCommand::BufferData { target: BufferTarget::Array, words: vertices@.len() as usize },
                ],
                ..old(ctx)@
            }),
    {
        let buffer_id = ctx.fresh_handle();
        let buffer = BufferDescriptor { buffer_id };
        buffer.bind(ctx);
        ctx.buffer_data(BufferTarget::Array, vertices.len());
        proof {
            assert(ctx@.log =~= old(ctx)@.log + seq![
                GlCommand::BindBuffer { target: BufferTarget::Array, buffer: buffer.spec_id() },
                GlCommand::BufferData {
                    target: BufferTarget::Array,
                    words: vertices@.len() as usize,
                },
            ]);
            assert(ctx@ =~= CtxView {
                next_handle: (old(ctx)@.next_handle + 1) as u32,
                array_buffer: buffer.spec_id(),
                log: ctx@.log,
                ..old(ctx)@
            });
        }
        buffer
    }

    /// The handle, for callers outside the proof.
    pub fn id(&self) -> (r: u32)
        ensures
            r == self.spec_id(),
    {
        self.buffer_id
    }

    /// Makes this buffer current for vertex-data operations.
    pub fn bind(&self, ctx: &mut GlContext)
        ensures
            final(ctx)@ == (CtxView {
                array_buffer: self.spec_id(),
                log: old(ctx)@.log.push(
                    GlCommand::BindBuffer {
                        target: BufferTarget::Array,
                        buffer: self.spec_id(),
                    },
                ),
                ..old(ctx)@
            }),
    {
        ctx.bind_buffer(BufferTarget::Array, self.buffer_id);
    }
}

/// An owning wrapper for one index (element) buffer object, recording
/// its element count.
pub struct EboDescriptor {
    ebo_id: u32,
    /// How many indices the buffer holds.
    pub num_ebo_elements: u32,
}

impl EboDescriptor {
    /// The index buffer object's handle.
    pub closed spec fn spec_id(self) -> u32 {
        self.ebo_id
    }

    /// How many indices the buffer holds.
    pub closed spec fn spec_num_elements(self) -> u32 {
        self.num_ebo_elements
    }

    /// Allocates an index buffer object, binds it, and uploads
    /// `indices` into it, recording the element count.
    pub fn new(ctx: &mut GlContext, indices: &Vec<u32>) -> (e: EboDescriptor)
        requires
            old(ctx)@.next_handle < u32::MAX,
            indices@.len() <= u32::MAX,
        ensures
            e.spec_id() == old(ctx)@.next_handle,
            e.spec_num_elements() == indices@.len(),
            final(ctx)@ == (CtxView {
                next_handle: (old(ctx)@.next_handle + 1) as u32,
                element_array_buffer: e.spec_id(),
                log: old(ctx)@.log + seq![
                    GlCommand::BindBuffer {
                        target: BufferTarget::ElementArray,
                        buffer: e.spec_id(),
                    },
                    GlCommand::BufferData {
                        target: BufferTarget::ElementArray,
                        words: indices@.len() as usize,
                    },
                ],
                ..old(ctx)@
            }),
    {
        let ebo_id = ctx.fresh_handle();
        ctx.bind_buffer(BufferTarget::ElementArray, ebo_id);
        ctx.buffer_data(BufferTarget::ElementArray, indices.len());
        let e = EboDescriptor { ebo_id, num_ebo_elements: indices.len() as u32 };
        proof {
            assert(ctx@.log =~= old(ctx)@.log + seq![
                GlCommand::BindBuffer { target: BufferTarget::ElementArray, buffer: e.spec_id() },
                GlCommand::BufferData {
                    target: BufferTarget::ElementArray,
                    words: indices@.len() as usize,
                },
            ]);
            assert(ctx@ =~= CtxView {
                next_handle: (old(ctx)@.next_handle + 1) as u32,
                element_array_buffer: e.spec_id(),
                log: ctx@.log,
                ..old(ctx)@
            });
        }
        e
    }

    /// The handle, for callers outside the proof.
    pub fn id(&self) -> (r: u32)
        ensures
            r == self.spec_id(),
    {
        self.ebo_id
    }

    /// The element count, for callers outside the proof.
    pub fn num_elements(&self) -> (n: u32)
        ensures
            n == self.spec_num_elements(),
    {
        self.num_ebo_elements
    }

    /// Makes this index buffer current for indexed draws.
    pub fn bind(&self, ctx: &mut GlContext)
        ensures
            final(ctx)@ == (CtxView {
                element_array_buffer: self.spec_id(),
                log: old(ctx)@.log.push(
                    GlCommand::BindBuffer {
                        target: BufferTarget::ElementArray,
                        buffer: self.spec_id(),
                    },
                ),
                ..old(ctx)@
            }),
    {
        ctx.bind_buffer(BufferTarget::ElementArray, self.ebo_id);
    }
}

/// An owning wrapper for one vertex-array object: it references (shared,
/// not owned) one vertex buffer, optionally one index buffer, and holds
/// the attribute slots configured on it.
pub struct VaoDescriptor {
    vao_id: u32,
    buffer_id: u32,
    ebo_id: Option<u32>,
    slots: Vec<AttributeSlot>,
}

impl VaoDescriptor {
    /// The vertex-array object's handle.
    pub closed spec fn spec_id(self) -> u32 {
        self.vao_id
    }

    /// The handle of the vertex buffer this object references.
    pub closed spec fn spec_buffer_id(self) -> u32 {
        self.buffer_id
    }

    /// The handle of the attached index buffer, if one was attached.
    pub closed spec fn spec_ebo_id(self) -> Option<u32> {
        self.ebo_id
    }

    /// The attribute slots configured so far, in slot order.
    pub closed spec fn slots(self) -> Seq<AttributeSlot> {
        self.slots@
    }

    /// Allocates a vertex-array object referencing `buffer_ref`, with no
    /// attributes configured and no index buffer attached.
    pub fn new(ctx: &mut GlContext, buffer_ref: &BufferDescriptor) -> (v: VaoDescriptor)
        requires
            old(ctx)@.next_handle < u32::MAX,
        ensures
            v.spec_id() == old(ctx)@.next_handle,
            v.spec_buffer_id() == buffer_ref.spec_id(),
            v.spec_ebo_id() is None,
            v.slots() == Seq::<AttributeSlot>::empty(),
            final(ctx)@ == (CtxView {
                next_handle: (old(ctx)@.next_handle + 1) as u32,
                ..old(ctx)@
            }),
    {
        let vao_id = ctx.fresh_handle();
        let v = VaoDescriptor { vao_id, buffer_id: buffer_ref.id(), ebo_id: None, slots: Vec::new() };
        proof {
            assert(v.slots() =~= Seq::<AttributeSlot>::empty());
        }
        v
    }

    /// The handle, for callers outside the proof.
    pub fn id(&self) -> (r: u32)
        ensures
            r == self.spec_id(),
    {
        self.vao_id
    }

    /// How many attribute slots have been configured.
    pub fn slot_count(&self) -> (n: usize)
        ensures
            n == self.slots().len(),
    {
        self.slots.len()
    }

    /// The configured slot at `i`.
    pub fn slot(&self, i: usize) -> (s: AttributeSlot)
        requires
            i < self.slots().len(),
        ensures
            s == self.slots()[i as int],
    {
        self.slots[i]
    }

    /// Makes this vertex-array object — and with it the buffer and index
    /// bindings it captured — current.
    pub fn bind(&self, ctx: &mut GlContext)
        ensures
            final(ctx)@ == (CtxView {
                vertex_array: self.spec_id(),
                log: old(ctx)@.log.push(GlCommand::BindVertexArray { vertex_array: self.spec_id() }),
                ..old(ctx)@
            }),
    {
        ctx.bind_vertex_array(self.vao_id);
    }

    /// Configures the attribute layout described by `attributes`. Every
    /// group's scalar type is validated before anything is touched: a
    /// group with an unrecognized type yields an error, and no state —
    /// neither previously configured slots nor the context — changes.
    /// On success this object and its buffer are bound and the slots are
    /// exactly the described groups, with stride and offset converted to
    /// bytes by the scalar type's byte width.
    pub fn set_attributes(&mut self, ctx: &mut GlContext, attributes: &AttributesDescriptor) -> (r:
        Result<(), String>)
        requires
            attributes.wf(),
        ensures
            final(self).spec_id() == old(self).spec_id(),
            final(self).spec_buffer_id() == old(self).spec_buffer_id(),
            final(self).spec_ebo_id() == old(self).spec_ebo_id(),
            attributes.types_valid() ==> r is Ok && final(self).slots() == Seq::new(
                attributes.component_groups as nat,
                |i: int| attributes.spec_slot(i),
            ) && final(ctx)@ == (CtxView {
                vertex_array: old(self).spec_id(),
                array_buffer: old(self).spec_buffer_id(),
                log: old(ctx)@.log + seq![
                    GlCommand::BindVertexArray { vertex_array: old(self).spec_id() },
                    GlCommand::BindBuffer {
                        target: BufferTarget::Array,
                        buffer: old(self).spec_buffer_id(),
                    },
                ] + attributes.spec_attrib_commands(attributes.component_groups as int),
                ..old(ctx)@
            }),
            !attributes.types_valid() ==> r is Err && *final(self) == *old(self) && final(ctx)@
                == old(ctx)@,
    {
        let groups = attributes.component_groups as usize;

        let mut check: usize = 0;
        while check < groups
            invariant
                *self == *old(self),
                ctx@ == old(ctx)@,
                attributes.wf(),
                groups == attributes.component_groups,
                check <= groups,
                forall|j: int|
                    0 <= j < check ==> spec_type_valid(#[trigger] attributes.component_types@[j]),
            decreases groups - check,
        {
            if scalar_size(attributes.component_types[check]).is_none() {
                proof {
                    assert(!spec_type_valid(attributes.component_types@[check as int]));
                    assert(!attributes.types_valid());
                }
                return Err(String::from_str("Invalid component type!"));
            }
            check = check + 1;
        }
        proof {
            assert(attributes.types_valid());
        }

        ctx.bind_vertex_array(self.vao_id);
        ctx.bind_buffer(BufferTarget::Array, self.buffer_id);
        let ghost bound_log = ctx@.log;
        proof {
            assert(bound_log =~= old(ctx)@.log + seq![
                GlCommand::BindVertexArray { vertex_array: old(self).spec_id() },
                GlCommand::BindBuffer {
                    target: BufferTarget::Array,
                    buffer: old(self).spec_buffer_id(),
                },
            ]);
            assert(bound_log + attributes.spec_attrib_commands(0) =~= bound_log);
            assert(Seq::new(0nat, |i: int| attributes.spec_slot(i)) =~= Seq::<
                AttributeSlot,
            >::empty());
        }

        let mut new_slots: Vec<AttributeSlot> = Vec::new();
        let mut attr_idx: usize = 0;
        while attr_idx < groups
            invariant
                *self == *old(self),
                attributes.wf(),
                attributes.types_valid(),
                groups == attributes.component_groups,
                attr_idx <= groups,
                ctx@ == (CtxView {
                    vertex_array: old(self).spec_id(),
                    array_buffer: old(self).spec_buffer_id(),
                    log: bound_log + attributes.spec_attrib_commands(attr_idx as int),
                    ..old(ctx)@
                }),
                new_slots@ == Seq::new(attr_idx as nat, |i: int| attributes.spec_slot(i)),
            decreases groups - attr_idx,
        {
            proof {
                assert(spec_type_valid(attributes.component_types@[attr_idx as int]));
            }
            let scalar = match scalar_size(attributes.component_types[attr_idx]) {
                Some(s) => s,
                None => 0,
            };
            proof {
                assert(scalar == crate::vertex::spec_scalar_size(
                    attributes.component_types@[attr_idx as int],
                ));
                assert(scalar == 4);
                assert(attributes.component_strides@[attr_idx as int] <= 0x3FFF_FFFFu32);
                assert(attributes.component_offsets@[attr_idx as int] <= usize::MAX / 4);
                assert(attributes.component_strides@[attr_idx as int] * scalar
                    == attributes.component_strides@[attr_idx as int] * 4);
                assert(attributes.component_strides@[attr_idx as int] * 4 <= u32::MAX);
                assert(attributes.component_offsets@[attr_idx as int] * (scalar as usize)
                    == attributes.component_offsets@[attr_idx as int] * 4);
                assert(attributes.component_offsets@[attr_idx as int] * 4 <= usize::MAX);
            }
            let stride_bytes = attributes.component_strides[attr_idx] * scalar;
            let offset_bytes = attributes.component_offsets[attr_idx] * (scalar as usize);
            let index = attr_idx as u32;
            ctx.vertex_attrib_pointer(
                index,
                attributes.component_nums[attr_idx],
                attributes.component_types[attr_idx],
                stride_bytes,
                offset_bytes,
            );
            ctx.enable_vertex_attrib_array(index);
            new_slots.push(
                AttributeSlot {
                    index,
                    components: attributes.component_nums[attr_idx],
                    scalar_type: attributes.component_types[attr_idx],
                    stride_bytes,
                    offset_bytes,
                },
            );
            proof {
                assert(ctx@.log =~= bound_log + attributes.spec_attrib_commands(
                    attr_idx as int + 1,
                ));
                assert(ctx@ =~= CtxView {
                    vertex_array: old(self).spec_id(),
                    array_buffer: old(self).spec_buffer_id(),
                    log: bound_log + attributes.spec_attrib_commands(attr_idx as int + 1),
                    ..old(ctx)@
                });
                assert(new_slots@ =~= Seq::new(
                    (attr_idx + 1) as nat,
                    |i: int| attributes.spec_slot(i),
                ));
            }
            attr_idx = attr_idx + 1;
        }
        self.slots = new_slots;
        proof {
            assert(ctx@ =~= CtxView {
                vertex_array: old(self).spec_id(),
                array_buffer: old(self).spec_buffer_id(),
                log: old(ctx)@.log + seq![
                    GlCommand::BindVertexArray { vertex_array: old(self).spec_id() },
                    GlCommand::BindBuffer {
                        target: BufferTarget::Array,
                        buffer: old(self).spec_buffer_id(),
                    },
                ] + attributes.spec_attrib_commands(attributes.component_groups as int),
                ..old(ctx)@
            });
        }
        Ok(())
    }

    /// Attaches `ebo` into this object's persistent binding state. The
    /// buffer and this object are bound first, then the index buffer, so
    /// the binding is captured while both are current.
    pub fn attach_ebo(&mut self, ctx: &mut GlContext, ebo: &EboDescriptor)
        ensures
            final(self).spec_id() == old(self).spec_id(),
            final(self).spec_buffer_id() == old(self).spec_buffer_id(),
            final(self).slots() == old(self).slots(),
            final(self).spec_ebo_id() == Some(ebo.spec_id()),
            final(ctx)@ == (CtxView {
                array_buffer: old(self).spec_buffer_id(),
                vertex_array: old(self).spec_id(),
                element_array_buffer: ebo.spec_id(),
                log: old(ctx)@.log + seq![
                    GlCommand::BindBuffer {
                        target: BufferTarget::Array,
                        buffer: old(self).spec_buffer_id(),
                    },
                    GlCommand::BindVertexArray { vertex_array: old(self).spec_id() },
                    GlCommand::BindBuffer {
                        target: BufferTarget::ElementArray,
                        buffer: ebo.spec_id(),
                    },
                ],
                ..old(ctx)@
            }),
    {
        self.ebo_id = Some(ebo.id());
        ctx.bind_buffer(BufferTarget::Array, self.buffer_id);
        ctx.bind_vertex_array(self.vao_id);
        ebo.bind(ctx);
        proof {
            assert(ctx@.log =~= old(ctx)@.log + seq![
                GlCommand::BindBuffer {
                    target: BufferTarget::Array,
                    buffer: old(self).spec_buffer_id(),
                },
                GlCommand::BindVertexArray { vertex_array: old(self).spec_id() },
                GlCommand::BindBuffer {
                    target: BufferTarget::ElementArray,
                    buffer: ebo.spec_id(),
                },
            ]);
            assert(ctx@ =~= CtxView {
                array_buffer: old(self).spec_buffer_id(),
                vertex_array: old(self).spec_id(),
                element_array_buffer: ebo.spec_id(),
                log: ctx@.log,
                ..old(ctx)@
            });
        }
    }
}

} // verus!
