//! Typed uniform parameters and the resolved uniform slots they are
//! written through.
//!
//! A uniform slot is a lookup `(program, name) -> location` resolved once
//! at setup time. A name that is not an active uniform of the linked
//! program resolves to the sentinel location `-1`; every later write
//! through such a slot is silently dropped, matching the permissive
//! behaviour of the underlying graphics API.
//!
//! The renderer never interprets the scalar payload of a floating-point
//! uniform; it only forwards it. Each 32-bit scalar is therefore carried
//! as its raw bit pattern (`u32`), and the backend reinterprets the bits.

use vstd::prelude::*;

use crate::context::GlContext;
use crate::context::uniform_write_effect;
use crate::program::Program;

verus! {

/// Sentinel location returned when a uniform name is not found.
pub const LOCATION_NOT_FOUND: i32 = -1;

/// Three 32-bit float scalars, each carried as its raw bit pattern.
#[derive(Clone, Copy, PartialEq, Eq, Debug)]
pub struct Uniform3FParam(pub u32, pub u32, pub u32);

/// One 32-bit signed integer scalar.
#[derive(Clone, Copy, PartialEq, Eq, Debug)]
pub struct Uniform1IParam(pub i32);

/// One 32-bit float scalar, carried as its raw bit pattern.
#[derive(Clone, Copy, PartialEq, Eq, Debug)]
pub struct Uniform1FParam(pub u32);

/// A 4x4 float matrix in column-major order, carried as 16 bit patterns.
#[derive(Clone, Copy, PartialEq, Eq, Debug)]
pub struct Uniform4FVMatrix(pub [u32; 16]);

/// A tagged uniform value, dispatched to the correctly-typed write.
#[derive(Clone, Copy, PartialEq, Eq, Debug)]
pub enum UniformPackedParam {
    Uniform3F(Uniform3FParam),
    Uniform1I(Uniform1IParam),
    Uniform1F(Uniform1FParam),
    UniformMatrix4FV(Uniform4FVMatrix),
}

/// A resolved uniform slot: the location of one named input of a linked
/// program, or the sentinel when the name was not found.
pub struct UniformDescriptor {
    uniform_shader_handle: i32,
}

impl UniformDescriptor {
    /// The resolved location this slot writes through.
    pub closed spec fn location(self) -> i32 {
        self.uniform_shader_handle
    }

    /// Resolves `uniform_name` against the linked `program`. A name that
    /// is not among the program's active uniforms — or a program that is
    /// not in the linked state — yields the sentinel location, never an
    /// error.
    pub fn new(program: &Program, uniform_name: &str) -> (r: UniformDescriptor)
        requires
            program.wf(),
        ensures
            r.location() == program.spec_resolve(uniform_name@),
    {
        UniformDescriptor { uniform_shader_handle: program.uniform_location(uniform_name) }
    }

    /// The resolved location, for callers outside the proof.
    pub fn location_value(&self) -> (r: i32)
        ensures
            r == self.location(),
    {
        self.uniform_shader_handle
    }

    /// Writes `packed_param` through this slot into the program currently
    /// in use. A write through the sentinel location, or with no program
    /// in use, is a no-op.
    pub fn update(&self, ctx: &mut GlContext, packed_param: UniformPackedParam)
        ensures
            final(ctx)@ == uniform_write_effect(old(ctx)@, self.location(), packed_param),
    {
        match packed_param {
            UniformPackedParam::Uniform1F(param) => {
                ctx.uniform_1f(self.uniform_shader_handle, param);
            },
            UniformPackedParam::Uniform3F(param) => {
                ctx.uniform_3f(self.uniform_shader_handle, param);
            },
            UniformPackedParam::Uniform1I(param) => {
                ctx.uniform_1i(self.uniform_shader_handle, param);
            },
            UniformPackedParam::UniformMatrix4FV(param) => {
                ctx.uniform_matrix_4fv(self.uniform_shader_handle, param);
            },
        }
    }
}

/// A name that is not among a program's active uniforms resolves to the
/// sentinel location, and a write through the sentinel never reaches
/// the server state: whatever the value and whatever the context, the
/// context is unchanged.
pub proof fn lemma_absent_name_update_is_noop(
    program: Program,
    name: Seq<char>,
    c: crate::context::CtxView,
    value: UniformPackedParam,
)
    requires
        !program.uniform_names().contains(name),
    ensures
        program.spec_resolve(name) == LOCATION_NOT_FOUND as int,
        uniform_write_effect(c, LOCATION_NOT_FOUND, value) == c,
{
}

} // verus!
