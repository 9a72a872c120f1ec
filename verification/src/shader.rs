//! Shader objects and their compilation state machine.
//!
//! A shader moves from `Created` to either `Compiled` or `CompileFailed`,
//! driven by the outcome the platform compiler reports. On failure the
//! compiler's log is surfaced as the error payload. The source text is
//! handed in by the caller; reading it from disk is the embedder's job.

use vstd::prelude::*;

use crate::context::CtxView;
use crate::context::GlContext;

verus! {

/// Shader kind tag: vertex stage.
pub const VERTEX_SHADER: u32 = 0x8B31;

/// Shader kind tag: fragment stage.
pub const FRAGMENT_SHADER: u32 = 0x8B30;

/// Where a shader stands in its compilation state machine.
#[derive(Clone, Copy, PartialEq, Eq, Debug)]
pub enum ShaderState {
    /// Created, not yet compiled.
    Created,
    /// Compiled successfully; usable for linking.
    Compiled,
    /// Compilation failed; must not be linked.
    CompileFailed,
}

/// What the platform compiler reported for one compilation.
pub struct CompileOutcome {
    /// Whether the compile-status query reported success.
    pub success: bool,
    /// The compiler's info log, meaningful on failure.
    pub info_log: String,
}

/// One shader object: a fresh handle, its stage, its source text, and
/// where it stands in the compilation state machine.
pub struct Shader {
    id: u32,
    kind: u32,
    source: String,
    state: ShaderState,
}

impl Shader {
    /// The shader object's handle.
    pub closed spec fn spec_id(self) -> u32 {
        self.id
    }

    /// The stage this shader belongs to.
    pub closed spec fn spec_kind(self) -> u32 {
        self.kind
    }

    /// The source text this shader was created with.
    pub closed spec fn spec_source(self) -> Seq<char> {
        self.source@
    }

    /// Where the shader stands in its state machine.
    pub closed spec fn state(self) -> ShaderState {
        self.state
    }

    /// Creates a shader object of the given stage holding `source`.
    pub fn new(ctx: &mut GlContext, source: String, kind: u32) -> (s: Shader)
        requires
            old(ctx)@.next_handle < u32::MAX,
        ensures
            s.spec_id() == old(ctx)@.next_handle,
            s.spec_kind() == kind,
            s.spec_source() == source@,
            s.state() is Created,
            final(ctx)@ == (CtxView { next_handle: (old(ctx)@.next_handle + 1) as u32, ..old(ctx)@ }),
    {
        let id = ctx.fresh_handle();
        Shader { id, kind, source, state: ShaderState::Created }
    }

    /// The handle, for callers outside the proof.
    pub fn id(&self) -> (r: u32)
        ensures
            r == self.spec_id(),
    {
        self.id
    }

    /// Whether this shader has been compiled successfully.
    pub fn is_compiled(&self) -> (r: bool)
        ensures
            r == (self.state() is Compiled),
    {
        match self.state {
            ShaderState::Compiled => true,
            _ => false,
        }
    }

    /// Records what the platform compiler reported for this shader's
    /// source. Success moves the shader to `Compiled`; failure moves it
    /// to `CompileFailed` and returns the compiler's log as the error.
    pub fn compile(&mut self, outcome: CompileOutcome) -> (r: Result<(), String>)
        ensures
            final(self).spec_id() == old(self).spec_id(),
            final(self).spec_kind() == old(self).spec_kind(),
            final(self).spec_source() == old(self).spec_source(),
            outcome.success ==> final(self).state() is Compiled && r is Ok,
            !outcome.success ==> final(self).state() is CompileFailed && (r matches Err(e)
                && e@ == outcome.info_log@),
    {
        if outcome.success {
            self.state = ShaderState::Compiled;
            Ok(())
        } else {
            self.state = ShaderState::CompileFailed;
            Err(outcome.info_log)
        }
    }
}

} // verus!
