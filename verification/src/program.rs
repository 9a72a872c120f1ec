//! Shader programs and their linking state machine.
//!
//! A program is either never linked, successfully linked, or failed: the
//! transition out of `Unlinked` happens once, at `link_shaders`. A shader
//! whose compilation failed — or was never attempted — blocks the link
//! before the platform linker is ever consulted, so no program reaches
//! the linked state through such a shader. On a failed link the linker's
//! log is surfaced as the error payload and the program stays allocated
//! but unusable.
//!
//! Linking also fixes the program's set of active uniform names, as the
//! platform linker reports it; uniform locations are resolved against
//! that set.

use vstd::prelude::*;
use vstd::string::StringExecFns;

use crate::context::CtxView;
use crate::context::GlContext;
use crate::shader::Shader;

verus! {

/// Where a program stands in its linking state machine.
#[derive(Clone, Copy, PartialEq, Eq, Debug)]
pub enum LinkState {
    /// Never linked; shaders may be attached and a link attempted.
    Unlinked,
    /// Successfully linked; usable, with its active uniforms fixed.
    Linked,
    /// The platform linker rejected it; unusable, terminally.
    LinkFailed,
}

/// The record an attach leaves behind: which shader object, and whether
/// it stood in the compiled state at attach time.
#[derive(Clone, Copy, PartialEq, Eq, Debug)]
pub struct AttachedShader {
    /// The attached shader object's handle.
    pub id: u32,
    /// Whether the shader was compiled when it was attached.
    pub compiled: bool,
}

/// What the platform linker reported for one link attempt.
pub struct LinkOutcome {
    /// Whether the link-status query reported success.
    pub success: bool,
    /// The linker's info log, meaningful on failure.
    pub info_log: String,
    /// The names of the active uniforms of the linked program,
    /// meaningful on success.
    pub active_uniforms: Vec<String>,
}

/// A shader program object: a fresh handle, the shaders attached to it,
/// and where it stands in the linking state machine.
pub struct Program {
    id: u32,
    shader_ids: Vec<AttachedShader>,
    state: LinkState,
    uniforms: Vec<String>,
}

impl Program {
    /// The program object's handle.
    pub closed spec fn spec_id(self) -> u32 {
        self.id
    }

    /// Where the program stands in its state machine.
    pub closed spec fn link_state(self) -> LinkState {
        self.state
    }

    /// The attach records, in attach order.
    pub closed spec fn attached(self) -> Seq<AttachedShader> {
        self.shader_ids@
    }

    /// The active uniform names of the linked program; empty unless the
    /// program is in the linked state.
    pub closed spec fn uniform_names(self) -> Seq<Seq<char>> {
        self.uniforms.deep_view()
    }

    /// Whether every attached shader stood compiled at attach time.
    pub open spec fn all_attached_compiled(self) -> bool {
        forall|i: int| 0 <= i < self.attached().len() ==> (#[trigger] self.attached()[i]).compiled
    }

    /// Validity: a linked program was linked from compiled shaders only,
    /// and its uniform table fits the location range.
    pub open spec fn wf(self) -> bool {
        &&& self.link_state() is Linked ==> self.all_attached_compiled()
        &&& self.uniform_names().len() <= i32::MAX
        &&& !(self.link_state() is Linked) ==> self.uniform_names().len() == 0
    }

    /// The location `name` resolves to: the index of its first occurrence
    /// among the active uniforms of a linked program, and the sentinel
    /// `-1` when the name is absent or the program is not linked.
    pub open spec fn spec_resolve(self, name: Seq<char>) -> int {
        if self.link_state() is Linked && self.uniform_names().contains(name) {
            match self.uniform_names().index_of_first(name) {
                Some(i) => i,
                None => -1,
            }
        } else {
            -1
        }
    }

    /// Creates a program object with nothing attached.
    pub fn new(ctx: &mut GlContext) -> (p: Program)
        requires
            old(ctx)@.next_handle < u32::MAX,
        ensures
            p.spec_id() == old(ctx)@.next_handle,
            p.link_state() is Unlinked,
            p.attached() == Seq::<AttachedShader>::empty(),
            p.wf(),
            final(ctx)@ == (CtxView { next_handle: (old(ctx)@.next_handle + 1) as u32, ..old(ctx)@ }),
    {
        let id = ctx.fresh_handle();
        let p = Program { id, shader_ids: Vec::new(), state: LinkState::Unlinked, uniforms: Vec::new() };
        proof {
            assert(p.attached() =~= Seq::<AttachedShader>::empty());
            assert(p.uniform_names() =~= Seq::<Seq<char>>::empty());
        }
        p
    }

    /// The handle, for callers outside the proof.
    pub fn id(&self) -> (r: u32)
        ensures
            r == self.spec_id(),
    {
        self.id
    }

    /// Whether the program reached the linked state.
    pub fn is_linked(&self) -> (r: bool)
        ensures
            r == (self.link_state() is Linked),
    {
        match self.state {
            LinkState::Linked => true,
            _ => false,
        }
    }

    /// Attaches `shader`, recording whether it stands compiled.
    pub fn add_shader(&mut self, shader: &Shader)
        requires
            old(self).link_state() is Unlinked,
            old(self).wf(),
        ensures
            final(self).spec_id() == old(self).spec_id(),
            final(self).link_state() == old(self).link_state(),
            final(self).uniform_names() == old(self).uniform_names(),
            final(self).attached() == old(self).attached().push(
                AttachedShader { id: shader.spec_id(), compiled: shader.state() is Compiled },
            ),
            final(self).wf(),
    {
        let record = AttachedShader { id: shader.id(), compiled: shader.is_compiled() };
        self.shader_ids.push(record);
    }

    /// Attempts the link. A shader that was not compiled when attached
    /// blocks the attempt before the platform linker is consulted, and
    /// the program stays unlinked. Otherwise the platform outcome decides:
    /// success fixes the active uniforms and moves the program to
    /// `Linked`; failure moves it to `LinkFailed` and returns the
    /// linker's log as the error payload.
    pub fn link_shaders(&mut self, outcome: LinkOutcome) -> (r: Result<(), String>)
        requires
            old(self).link_state() is Unlinked,
            old(self).wf(),
            outcome.active_uniforms@.len() <= i32::MAX,
        ensures
            final(self).spec_id() == old(self).spec_id(),
            final(self).attached() == old(self).attached(),
            final(self).wf(),
            !old(self).all_attached_compiled() ==> r is Err && final(self).link_state()
                is Unlinked && final(self).uniform_names() == old(self).uniform_names(),
            old(self).all_attached_compiled() && outcome.success ==> r is Ok
                && final(self).link_state() is Linked && final(self).uniform_names()
                == outcome.active_uniforms.deep_view(),
            old(self).all_attached_compiled() && !outcome.success ==> (r matches Err(e) && e@
                == outcome.info_log@) && final(self).link_state() is LinkFailed
                && final(self).uniform_names() == old(self).uniform_names(),
    {
        let mut i: usize = 0;
        while i < self.shader_ids.len()
            invariant
                *self == *old(self),
                old(self).link_state() is Unlinked,
                old(self).wf(),
                i <= self.shader_ids.len(),
                forall|j: int| 0 <= j < i ==> (#[trigger] self.shader_ids@[j]).compiled,
            decreases self.shader_ids.len() - i,
        {
            if !self.shader_ids[i].compiled {
                proof {
                    assert(!(self.attached()[i as int]).compiled);
                    assert(!self.all_attached_compiled());
                }
                return Err(String::from_str("cannot link: an attached shader has not been compiled"));
            }
            i = i + 1;
        }
        if outcome.success {
            self.state = LinkState::Linked;
            self.uniforms = outcome.active_uniforms;
            Ok(())
        } else {
            self.state = LinkState::LinkFailed;
            Err(outcome.info_log)
        }
    }

    /// No program reaches the linked state through a shader that did
    /// not compile: wherever a valid program's attach records hold a
    /// shader that was not compiled when attached — as every attach of
    /// a failed or never-compiled shader leaves one — the program is
    /// not linked, whatever sequence of calls it went through.
    pub proof fn lemma_uncompiled_shader_blocks_link(self, i: int)
        requires
            self.wf(),
            0 <= i < self.attached().len(),
            !self.attached()[i].compiled,
        ensures
            !(self.link_state() is Linked),
    {
    }

    /// The location of `uniform_name` among the linked program's active
    /// uniforms, or the sentinel `-1` when the name is absent or the
    /// program is not linked.
    pub fn uniform_location(&self, uniform_name: &str) -> (r: i32)
        requires
            self.wf(),
        ensures
            r == self.spec_resolve(uniform_name@),
    {
        match self.state {
            LinkState::Linked => {},
            _ => {
                return -1;
            },
        }
        let name = String::from_str(uniform_name);
        let mut i: usize = 0;
        while i < self.uniforms.len()
            invariant
                self.wf(),
                self.link_state() is Linked,
                name@ == uniform_name@,
                i <= self.uniforms.len(),
                self.uniforms.len() <= i32::MAX,
                forall|j: int| 0 <= j < i ==> (#[trigger] self.uniform_names()[j]) != name@,
            decreases self.uniforms.len() - i,
        {
            if self.uniforms[i] == name {
                proof {
                    let names = self.uniform_names();
                    assert(names[i as int] == self.uniforms@[i as int]@);
                    assert(names[i as int] == name@);
                    assert(names.contains(name@)) by {
                        assert(0 <= (i as int) && (i as int) < names.len() && names[i as int]
                            == name@);
                    }
                    names.index_of_first_ensures(name@);
                    let found = names.index_of_first(name@)->Some_0;
                    assert(names[found] == name@);
                    if found < i as int {
                        assert(names[found] != name@);
                        assert(false);
                    }
                    if found > i as int {
                        assert(names[i as int] != name@);
                        assert(false);
                    }
                    assert(i as int <= i32::MAX);
                }
                return i as i32;
            }
            proof {
                assert(self.uniform_names()[i as int] == self.uniforms@[i as int]@);
            }
            i = i + 1;
        }
        proof {
            if self.uniform_names().contains(uniform_name@) {
                let w = choose|k: int|
                    0 <= k < self.uniform_names().len() && self.uniform_names()[k]
                        == uniform_name@;
                assert(self.uniform_names()[w] != name@);
            }
        }
        -1
    }
}

} // verus!
