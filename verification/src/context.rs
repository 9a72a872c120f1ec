//! The model of the graphics-server state this layer relies on.
//!
//! The underlying graphics API is a hidden global state machine: binding
//! points, the program in use, the active texture unit, and the stream of
//! commands the client issues. `GlContext` makes that state explicit and
//! is threaded by mutable reference through every operation, so that the
//! bind-then-draw discipline and the exact command traffic of each
//! operation are part of its contract. The unverified backend mirrors
//! each recorded command onto the real API, one to one and in order.

use vstd::prelude::*;

use crate::uniform::Uniform1FParam;
use crate::uniform::Uniform1IParam;
use crate::uniform::Uniform3FParam;
use crate::uniform::Uniform4FVMatrix;
use crate::uniform::UniformPackedParam;

verus! {

/// The two buffer binding points this layer uses.
#[derive(Clone, Copy, PartialEq, Eq, Debug)]
pub enum BufferTarget {
    /// Vertex data.
    Array,
    /// Triangle indices.
    ElementArray,
}

/// One command issued to the graphics server. Upload commands record the
/// size of the payload in 32-bit words; the backend owns the bytes.
#[derive(Clone, Copy, PartialEq, Eq, Debug)]
pub enum GlCommand {
    BindBuffer { target: BufferTarget, buffer: u32 },
    BufferData { target: BufferTarget, words: usize },
    BufferSubData { target: BufferTarget, words: usize },
    BindVertexArray { vertex_array: u32 },
    VertexAttribPointer {
        index: u32,
        components: u32,
        scalar_type: u32,
        stride_bytes: u32,
        offset_bytes: usize,
    },
    EnableVertexAttribArray { index: u32 },
    UseProgram { program: u32 },
    ActiveTexture { unit: u32 },
    BindTexture { texture: u32 },
    TexImage2D { width: u32, height: u32, format: u32 },
    GenerateMipmap,
    Uniform { program: u32, location: i32, value: UniformPackedParam },
    DrawElements { indices: u32 },
    DrawArrays { vertices: u32 },
}

/// The abstract state of a `GlContext`: the next unused object name, the
/// binding points, and the ordered log of commands issued so far.
#[verifier::ext_equal]
pub ghost struct CtxView {
    pub next_handle: u32,
    pub array_buffer: u32,
    pub element_array_buffer: u32,
    pub vertex_array: u32,
    pub program: u32,
    pub active_unit: u32,
    pub texture_2d: u32,
    pub log: Seq<GlCommand>,
}

/// The state reached by writing `value` at `location` into the program in
/// use. A write through the sentinel location `-1`, or with no program in
/// use, leaves the state untouched.
pub open spec fn uniform_write_effect(c: CtxView, location: i32, value: UniformPackedParam) -> CtxView {
    if location == -1 || c.program == 0 {
        c
    } else {
        CtxView { log: c.log.push(GlCommand::Uniform { program: c.program, location, value }), ..c }
    }
}

/// The last value written at `location` of `program` in `log`, if any.
pub open spec fn spec_last_uniform(log: Seq<GlCommand>, program: u32, location: i32) -> Option<
    UniformPackedParam,
>
    decreases log.len(),
{
    if log.len() == 0 {
        None
    } else {
        match log.last() {
            GlCommand::Uniform { program: p, location: l, value } => {
                if p == program && l == location {
                    Some(value)
                } else {
                    spec_last_uniform(log.drop_last(), program, location)
                }
            },
            _ => spec_last_uniform(log.drop_last(), program, location),
        }
    }
}

/// The explicit graphics-server state: object-name allocation, binding
/// points, and the command log.
pub struct GlContext {
    next_handle: u32,
    array_buffer: u32,
    element_array_buffer: u32,
    vertex_array: u32,
    program: u32,
    active_unit: u32,
    texture_2d: u32,
    log: Vec<GlCommand>,
}

impl View for GlContext {
    type V = CtxView;

    closed spec fn view(&self) -> CtxView {
        CtxView {
            next_handle: self.next_handle,
            array_buffer: self.array_buffer,
            element_array_buffer: self.element_array_buffer,
            vertex_array: self.vertex_array,
            program: self.program,
            active_unit: self.active_unit,
            texture_2d: self.texture_2d,
            log: self.log@,
        }
    }
}

impl GlContext {
    /// A fresh context: nothing bound, nothing issued, object names
    /// starting at 1 (name 0 is the graphics API's "no object").
    pub fn new() -> (ctx: GlContext)
        ensures
            ctx@ == (CtxView {
                next_handle: 1u32,
                array_buffer: 0u32,
                element_array_buffer: 0u32,
                vertex_array: 0u32,
                program: 0u32,
                active_unit: 0u32,
                texture_2d: 0u32,
                log: Seq::<GlCommand>::empty(),
            }),
    {
        let ctx = GlContext {
            next_handle: 1,
            array_buffer: 0,
            element_array_buffer: 0,
            vertex_array: 0,
            program: 0,
            active_unit: 0,
            texture_2d: 0,
            log: Vec::new(),
        };
        proof {
            assert(ctx@ =~= CtxView {
                next_handle: 1u32,
                array_buffer: 0u32,
                element_array_buffer: 0u32,
                vertex_array: 0u32,
                program: 0u32,
                active_unit: 0u32,
                texture_2d: 0u32,
                log: Seq::<GlCommand>::empty(),
            });
        }
        ctx
    }

    /// Allocates a fresh object name, never handed out before.
    pub(crate) fn fresh_handle(&mut self) -> (h: u32)
        requires
            old(self)@.next_handle < u32::MAX,
        ensures
            h == old(self)@.next_handle,
            final(self)@ == (CtxView { next_handle: (old(self)@.next_handle + 1) as u32, ..old(self)@ }),
    {
        let h = self.next_handle;
        self.next_handle = self.next_handle + 1;
        proof {
            assert(self@ =~= CtxView {
                next_handle: (old(self)@.next_handle + 1) as u32,
                ..old(self)@
            });
        }
        h
    }

    /// Binds `buffer` to the given binding point.
    pub fn bind_buffer(&mut self, target: BufferTarget, buffer: u32)
        ensures
            final(self)@ == (CtxView {
                array_buffer: if target is Array { buffer } else { old(self)@.array_buffer },
                element_array_buffer: if target is ElementArray {
                    buffer
                } else {
                    old(self)@.element_array_buffer
                },
                log: old(self)@.log.push(GlCommand::BindBuffer { target, buffer }),
                ..old(self)@
            }),
    {
        match target {
            BufferTarget::Array => {
                self.array_buffer = buffer;
            },
            BufferTarget::ElementArray => {
                self.element_array_buffer = buffer;
            },
        }
        self.log.push(GlCommand::BindBuffer { target, buffer });
        proof {
            assert(self@ =~= CtxView {
                array_buffer: if target is Array { buffer } else { old(self)@.array_buffer },
                element_array_buffer: if target is ElementArray {
                    buffer
                } else {
                    old(self)@.element_array_buffer
                },
                log: old(self)@.log.push(GlCommand::BindBuffer { target, buffer }),
                ..old(self)@
            });
        }
    }

    /// Uploads `words` 32-bit words into the buffer bound at `target`.
    pub fn buffer_data(&mut self, target: BufferTarget, words: usize)
        ensures
            final(self)@ == (CtxView {
                log: old(self)@.log.push(GlCommand::BufferData { target, words }),
                ..old(self)@
            }),
    {
        self.log.push(GlCommand::BufferData { target, words });
        proof {
            assert(self@ =~= CtxView {
                log: old(self)@.log.push(GlCommand::BufferData { target, words }),
                ..old(self)@
            });
        }
    }

    /// Overwrites the start of the buffer bound at `target` with `words`
    /// 32-bit words.
    pub fn buffer_sub_data(&mut self, target: BufferTarget, words: usize)
        ensures
            final(self)@ == (CtxView {
                log: old(self)@.log.push(GlCommand::BufferSubData { target, words }),
                ..old(self)@
            }),
    {
        self.log.push(GlCommand::BufferSubData { target, words });
        proof {
            assert(self@ =~= CtxView {
                log: old(self)@.log.push(GlCommand::BufferSubData { target, words }),
                ..old(self)@
            });
        }
    }

    /// Makes `vertex_array` the current vertex-array object.
    pub fn bind_vertex_array(&mut self, vertex_array: u32)
        ensures
            final(self)@ == (CtxView {
                vertex_array,
                log: old(self)@.log.push(GlCommand::BindVertexArray { vertex_array }),
                ..old(self)@
            }),
    {
        self.vertex_array = vertex_array;
        self.log.push(GlCommand::BindVertexArray { vertex_array });
        proof {
            assert(self@ =~= CtxView {
                vertex_array,
                log: old(self)@.log.push(GlCommand::BindVertexArray { vertex_array }),
                ..old(self)@
            });
        }
    }

    /// Configures attribute slot `index` of the current vertex array.
    pub fn vertex_attrib_pointer(
        &mut self,
        index: u32,
        components: u32,
        scalar_type: u32,
        stride_bytes: u32,
        offset_bytes: usize,
    )
        ensures
            final(self)@ == (CtxView {
                log: old(self)@.log.push(GlCommand::VertexAttribPointer {
                    index,
                    components,
                    scalar_type,
                    stride_bytes,
                    offset_bytes,
                }),
                ..old(self)@
            }),
    {
        self.log.push(GlCommand::VertexAttribPointer {
            index,
            components,
            scalar_type,
            stride_bytes,
            offset_bytes,
        });
        proof {
            assert(self@ =~= CtxView {
                log: old(self)@.log.push(GlCommand::VertexAttribPointer {
                    index,
                    components,
                    scalar_type,
                    stride_bytes,
                    offset_bytes,
                }),
                ..old(self)@
            });
        }
    }

    /// Enables attribute slot `index` of the current vertex array.
    pub fn enable_vertex_attrib_array(&mut self, index: u32)
        ensures
            final(self)@ == (CtxView {
                log: old(self)@.log.push(GlCommand::EnableVertexAttribArray { index }),
                ..old(self)@
            }),
    {
        self.log.push(GlCommand::EnableVertexAttribArray { index });
        proof {
            assert(self@ =~= CtxView {
                log: old(self)@.log.push(GlCommand::EnableVertexAttribArray { index }),
                ..old(self)@
            });
        }
    }

    /// Makes `program` the program in use.
    pub fn use_program(&mut self, program: u32)
        ensures
            final(self)@ == (CtxView {
                program,
                log: old(self)@.log.push(GlCommand::UseProgram { program }),
                ..old(self)@
            }),
    {
        self.program = program;
        self.log.push(GlCommand::UseProgram { program });
        proof {
            assert(self@ =~= CtxView {
                program,
                log: old(self)@.log.push(GlCommand::UseProgram { program }),
                ..old(self)@
            });
        }
    }

    /// Selects texture unit `unit` as the active one.
    pub fn active_texture(&mut self, unit: u32)
        ensures
            final(self)@ == (CtxView {
                active_unit: unit,
                log: old(self)@.log.push(GlCommand::ActiveTexture { unit }),
                ..old(self)@
            }),
    {
        self.active_unit = unit;
        self.log.push(GlCommand::ActiveTexture { unit });
        proof {
            assert(self@ =~= CtxView {
                active_unit: unit,
                log: old(self)@.log.push(GlCommand::ActiveTexture { unit }),
                ..old(self)@
            });
        }
    }

    /// Binds `texture` as the current two-dimensional texture.
    pub fn bind_texture(&mut self, texture: u32)
        ensures
            final(self)@ == (CtxView {
                texture_2d: texture,
                log: old(self)@.log.push(GlCommand::BindTexture { texture }),
                ..old(self)@
            }),
    {
        self.texture_2d = texture;
        self.log.push(GlCommand::BindTexture { texture });
        proof {
            assert(self@ =~= CtxView {
                texture_2d: texture,
                log: old(self)@.log.push(GlCommand::BindTexture { texture }),
                ..old(self)@
            });
        }
    }

    /// Uploads a `width` by `height` image into the current texture.
    pub fn tex_image_2d(&mut self, width: u32, height: u32, format: u32)
        ensures
            final(self)@ == (CtxView {
                log: old(self)@.log.push(GlCommand::TexImage2D { width, height, format }),
                ..old(self)@
            }),
    {
        self.log.push(GlCommand::TexImage2D { width, height, format });
        proof {
            assert(self@ =~= CtxView {
                log: old(self)@.log.push(GlCommand::TexImage2D { width, height, format }),
                ..old(self)@
            });
        }
    }

    /// Generates the mipmap chain of the current texture.
    pub fn generate_mipmap(&mut self)
        ensures
            final(self)@ == (CtxView { log: old(self)@.log.push(GlCommand::GenerateMipmap), ..old(self)@ }),
    {
        self.log.push(GlCommand::GenerateMipmap);
        proof {
            assert(self@ =~= CtxView {
                log: old(self)@.log.push(GlCommand::GenerateMipmap),
                ..old(self)@
            });
        }
    }

    /// Writes one float scalar at `location` of the program in use.
    pub fn uniform_1f(&mut self, location: i32, value: Uniform1FParam)
        ensures
            final(self)@ == uniform_write_effect(
                old(self)@,
                location,
                UniformPackedParam::Uniform1F(value),
            ),
    {
        self.write_uniform(location, UniformPackedParam::Uniform1F(value));
    }

    /// Writes three float scalars at `location` of the program in use.
    pub fn uniform_3f(&mut self, location: i32, value: Uniform3FParam)
        ensures
            final(self)@ == uniform_write_effect(
                old(self)@,
                location,
                UniformPackedParam::Uniform3F(value),
            ),
    {
        self.write_uniform(location, UniformPackedParam::Uniform3F(value));
    }

    /// Writes one integer scalar at `location` of the program in use.
    pub fn uniform_1i(&mut self, location: i32, value: Uniform1IParam)
        ensures
            final(self)@ == uniform_write_effect(
                old(self)@,
                location,
                UniformPackedParam::Uniform1I(value),
            ),
    {
        self.write_uniform(location, UniformPackedParam::Uniform1I(value));
    }

    /// Writes a 4x4 float matrix at `location` of the program in use.
    pub fn uniform_matrix_4fv(&mut self, location: i32, value: Uniform4FVMatrix)
        ensures
            final(self)@ == uniform_write_effect(
                old(self)@,
                location,
                UniformPackedParam::UniformMatrix4FV(value),
            ),
    {
        self.write_uniform(location, UniformPackedParam::UniformMatrix4FV(value));
    }

    /// The shared write path: drops the write when the location is the
    /// sentinel or no program is in use, as the graphics API does.
    fn write_uniform(&mut self, location: i32, value: UniformPackedParam)
        ensures
            final(self)@ == uniform_write_effect(old(self)@, location, value),
    {
        if location != -1 && self.program != 0 {
            let cmd = GlCommand::Uniform { program: self.program, location, value };
            self.log.push(cmd);
            proof {
                assert(self@ =~= CtxView {
                    log: old(self)@.log.push(GlCommand::Uniform {
                        program: old(self)@.program,
                        location,
                        value,
                    }),
                    ..old(self)@
                });
            }
        } else {
            proof {
                assert(self@ =~= old(self)@);
            }
        }
    }

    /// Draws `indices` indices of the currently bound element buffer as
    /// triangles. Nothing is bound or rebound here: the draw relies on
    /// the caller's bindings.
    pub fn draw_elements(&mut self, indices: u32)
        ensures
            final(self)@ == (CtxView {
                log: old(self)@.log.push(GlCommand::DrawElements { indices }),
                ..old(self)@
            }),
    {
        self.log.push(GlCommand::DrawElements { indices });
        proof {
            assert(self@ =~= CtxView {
                log: old(self)@.log.push(GlCommand::DrawElements { indices }),
                ..old(self)@
            });
        }
    }

    /// Draws `vertices` vertices of the currently bound vertex buffer as
    /// triangles, without indices.
    pub fn draw_arrays(&mut self, vertices: u32)
        ensures
            final(self)@ == (CtxView {
                log: old(self)@.log.push(GlCommand::DrawArrays { vertices }),
                ..old(self)@
            }),
    {
        self.log.push(GlCommand::DrawArrays { vertices });
        proof {
            assert(self@ =~= CtxView {
                log: old(self)@.log.push(GlCommand::DrawArrays { vertices }),
                ..old(self)@
            });
        }
    }

    /// How many commands have been issued so far.
    pub fn log_len(&self) -> (n: usize)
        ensures
            n == self@.log.len(),
    {
        self.log.len()
    }

    /// The `i`-th command issued.
    pub fn command(&self, i: usize) -> (c: GlCommand)
        requires
            i < self@.log.len(),
        ensures
            c == self@.log[i as int],
    {
        self.log[i]
    }

    /// The next object name to be handed out; how close the allocator
    /// stands to exhaustion.
    pub fn next_handle(&self) -> (h: u32)
        ensures
            h == self@.next_handle,
    {
        self.next_handle
    }

    /// The program currently in use, 0 when none is.
    pub fn current_program(&self) -> (p: u32)
        ensures
            p == self@.program,
    {
        self.program
    }

    /// The last value written at `location` of `program`, if any write
    /// reached it.
    pub fn last_uniform(&self, program: u32, location: i32) -> (r: Option<UniformPackedParam>)
        ensures
            r == spec_last_uniform(self@.log, program, location),
    {
        let mut i: usize = self.log.len();
        proof {
            assert(self@.log.take(i as int) =~= self@.log);
        }
        while i > 0
            invariant
                i <= self.log.len(),
                spec_last_uniform(self@.log, program, location) == spec_last_uniform(
                    self@.log.take(i as int),
                    program,
                    location,
                ),
            decreases i,
        {
            i = i - 1;
            match self.log[i] {
                GlCommand::Uniform { program: p, location: l, value } => {
                    if p == program && l == location {
                        proof {
                            assert(self@.log.take(i as int + 1).last() == self@.log[i as int]);
                        }
                        return Some(value);
                    }
                },
                _ => {},
            }
            proof {
                assert(self@.log.take(i as int + 1).drop_last() =~= self@.log.take(i as int));
            }
        }
        proof {
            assert(self@.log.take(0) =~= Seq::<GlCommand>::empty());
        }
        None
    }
}

} // verus!
