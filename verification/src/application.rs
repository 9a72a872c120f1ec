//! The drawable registry, the per-frame render pass, and the
//! interaction state machine.
//!
//! The render pass walks the registered models in order and, for each
//! one: makes its program current, then per mesh pushes the frame's
//! uniform values, activates the frame's texture units and binds the
//! mesh's vertex array, and finally issues the model's draws. Uniform
//! writes through unresolved slots are dropped exactly as the uniform
//! channel drops them. The matrices themselves are computed by the
//! embedder and arrive as opaque payloads.
//!
//! The interaction state is an explicit flat set of flags; each window
//! event updates it directly, with no queueing. Integrating the flags
//! into transform parameters is the embedder's float work.

use vstd::prelude::*;

use crate::context::CtxView;
use crate::context::GlCommand;
use crate::context::GlContext;
use crate::program::Program;
use crate::text::TextManager;
use crate::texture::TextureDescriptor;
use crate::uniform::Uniform1IParam;
use crate::uniform::UniformDescriptor;
use crate::uniform::UniformPackedParam;
use crate::vertex::Model;
use crate::vertex::Mesh;
use crate::buffer::VaoDescriptor;
use crate::vertex::spec_draw_commands;

verus! {

/// What one frame pushes into one mesh: uniform values by slot index,
/// and texture-unit assignments by texture index.
pub struct MeshFrameState {
    /// `(slot, value)`: write `value` through the mesh's uniform slot
    /// `slot`, in list order.
    pub uniform_updates: Vec<(usize, UniformPackedParam)>,
    /// `(texture, unit)`: bind the mesh's texture `texture` to unit
    /// `unit` and point its sampler at that unit, in list order.
    pub texture_units: Vec<(usize, u32)>,
}

/// The command a single uniform update yields: nothing when the slot is
/// unresolved or no program is in use, one write otherwise.
pub open spec fn spec_one_uniform_command(
    uniforms: Seq<UniformDescriptor>,
    up: (usize, UniformPackedParam),
    prog: u32,
) -> Seq<GlCommand> {
    let loc = uniforms[up.0 as int].location();
    if loc == -1 || prog == 0 {
        Seq::empty()
    } else {
        seq![GlCommand::Uniform { program: prog, location: loc, value: up.1 }]
    }
}

/// The commands of a list of uniform updates, in list order.
pub open spec fn spec_uniform_update_commands(
    uniforms: Seq<UniformDescriptor>,
    ups: Seq<(usize, UniformPackedParam)>,
    prog: u32,
) -> Seq<GlCommand>
    decreases ups.len(),
{
    if ups.len() == 0 {
        Seq::empty()
    } else {
        spec_uniform_update_commands(uniforms, ups.drop_last(), prog) + spec_one_uniform_command(
            uniforms,
            ups.last(),
            prog,
        )
    }
}

/// The commands a single texture-unit assignment yields: select the
/// unit, bind the texture, and point its sampler at the unit — the
/// sampler write dropped when its name did not resolve.
pub open spec fn spec_one_texture_command(
    textures: Seq<TextureDescriptor>,
    tu: (usize, u32),
    prog: u32,
) -> Seq<GlCommand> {
    let t = textures[tu.0 as int];
    seq![
        GlCommand::ActiveTexture { unit: tu.1 },
        GlCommand::BindTexture { texture: t.spec_id() },
    ] + (if t.spec_handle() == -1 || prog == 0 {
        Seq::<GlCommand>::empty()
    } else {
        seq![GlCommand::Uniform {
            program: prog,
            location: t.spec_handle(),
            value: UniformPackedParam::Uniform1I(Uniform1IParam(tu.1 as i32)),
        }]
    })
}

/// The commands of a list of texture-unit assignments, in list order.
pub open spec fn spec_texture_unit_commands(
    textures: Seq<TextureDescriptor>,
    tus: Seq<(usize, u32)>,
    prog: u32,
) -> Seq<GlCommand>
    decreases tus.len(),
{
    if tus.len() == 0 {
        Seq::empty()
    } else {
        spec_texture_unit_commands(textures, tus.drop_last(), prog) + spec_one_texture_command(
            textures,
            tus.last(),
            prog,
        )
    }
}

/// What one frame issues for one mesh: its uniform updates, its
/// texture-unit assignments, and the bind of its vertex array.
pub open spec fn spec_mesh_frame_commands(mesh: Mesh, st: MeshFrameState, prog: u32) -> Seq<
    GlCommand,
> {
    spec_uniform_update_commands(mesh.spec_uniforms(), st.uniform_updates@, prog)
        + spec_texture_unit_commands(mesh.spec_textures(), st.texture_units@, prog) + seq![
        GlCommand::BindVertexArray { vertex_array: mesh.spec_vao_id() },
    ]
}

/// The per-mesh frame traffic of the first `n` meshes, in order.
pub open spec fn spec_meshes_frame_commands(
    meshes: Seq<Mesh>,
    sts: Seq<MeshFrameState>,
    prog: u32,
    n: int,
) -> Seq<GlCommand>
    decreases n,
{
    if n <= 0 {
        Seq::empty()
    } else {
        spec_meshes_frame_commands(meshes, sts, prog, n - 1) + spec_mesh_frame_commands(
            meshes[n - 1],
            sts[n - 1],
            prog,
        )
    }
}

/// What one frame issues for one model: its program made current, each
/// mesh's frame traffic, then one indexed draw per mesh.
pub open spec fn spec_model_frame_commands(model: Model, sts: Seq<MeshFrameState>) -> Seq<
    GlCommand,
> {
    let prog = model.spec_program()->Some_0;
    seq![GlCommand::UseProgram { program: prog }] + spec_meshes_frame_commands(
        model.spec_meshes(),
        sts,
        prog,
        model.spec_meshes().len() as int,
    ) + spec_draw_commands(model.spec_meshes())
}

/// The frame traffic of the first `n` registered models, in order.
pub open spec fn spec_frame_commands(
    models: Seq<Model>,
    updates: Seq<MeshFrameStates>,
    n: int,
) -> Seq<GlCommand>
    decreases n,
{
    if n <= 0 {
        Seq::empty()
    } else {
        spec_frame_commands(models, updates, n - 1) + spec_model_frame_commands(
            models[n - 1],
            updates[n - 1]@,
        )
    }
}

/// Validity of one mesh's frame state against its mesh: every slot and
/// texture index in range, every unit small enough for its sampler.
pub open spec fn spec_mesh_frame_wf(mesh: Mesh, st: MeshFrameState) -> bool {
    &&& forall|i: int|
        0 <= i < st.uniform_updates@.len() ==> (#[trigger] st.uniform_updates@[i]).0
            < mesh.spec_uniforms().len()
    &&& forall|i: int|
        0 <= i < st.texture_units@.len() ==> (#[trigger] st.texture_units@[i]).0
            < mesh.spec_textures().len() && st.texture_units@[i].1 <= i32::MAX
}

/// Validity of a whole frame against the registry: one state list per
/// model, one state per mesh, each valid, and every model with a
/// program attached.
pub open spec fn spec_frame_wf(models: Seq<Model>, updates: Seq<MeshFrameStates>) -> bool {
    &&& updates.len() == models.len()
    &&& forall|m: int| 0 <= m < models.len() ==> (#[trigger] models[m]).spec_program() is Some
    &&& forall|m: int|
        0 <= m < models.len() ==> (#[trigger] updates[m])@.len() == models[m].spec_meshes().len()
    &&& forall|m: int, k: int|
        0 <= m < models.len() && 0 <= k < models[m].spec_meshes().len() ==> spec_mesh_frame_wf(
            models[m].spec_meshes()[k],
            #[trigger] updates[m]@[k],
        )
}

/// Checks one mesh's frame state at run time, for embedders that
/// assemble frames from outside values.
pub fn mesh_frame_valid(mesh: &Mesh, st: &MeshFrameState) -> (r: bool)
    ensures
        r == spec_mesh_frame_wf(*mesh, *st),
{
    let uniform_count = mesh.uniforms_ref().len();
    let texture_count = mesh.textures_ref().len();
    let mut i: usize = 0;
    while i < st.uniform_updates.len()
        invariant
            uniform_count == mesh.spec_uniforms().len(),
            i <= st.uniform_updates@.len(),
            forall|j: int|
                0 <= j < i ==> (#[trigger] st.uniform_updates@[j]).0 < mesh.spec_uniforms().len(),
        decreases st.uniform_updates@.len() - i,
    {
        if st.uniform_updates[i].0 >= uniform_count {
            return false;
        }
        i = i + 1;
    }
    let mut k: usize = 0;
    while k < st.texture_units.len()
        invariant
            texture_count == mesh.spec_textures().len(),
            k <= st.texture_units@.len(),
            forall|j: int|
                0 <= j < k ==> (#[trigger] st.texture_units@[j]).0 < mesh.spec_textures().len()
                    && st.texture_units@[j].1 <= i32::MAX,
        decreases st.texture_units@.len() - k,
    {
        if st.texture_units[k].0 >= texture_count || st.texture_units[k].1 > i32::MAX as u32 {
            return false;
        }
        k = k + 1;
    }
    true
}

/// Pushes `ups` through the mesh's uniform slots, in order, into the
/// program currently in use.
fn apply_uniform_updates(
    uniforms: &Vec<UniformDescriptor>,
    ctx: &mut GlContext,
    ups: &Vec<(usize, UniformPackedParam)>,
)
    requires
        forall|i: int| 0 <= i < ups@.len() ==> (#[trigger] ups@[i]).0 < uniforms@.len(),
    ensures
        final(ctx)@ == (CtxView {
            log: old(ctx)@.log + spec_uniform_update_commands(
                uniforms@,
                ups@,
                old(ctx)@.program,
            ),
            ..old(ctx)@
        }),
{
    proof {
        assert(old(ctx)@.log + spec_uniform_update_commands(
            uniforms@,
            ups@.take(0),
            old(ctx)@.program,
        ) =~= old(ctx)@.log);
    }
    let mut i: usize = 0;
    while i < ups.len()
        invariant
            forall|j: int| 0 <= j < ups@.len() ==> (#[trigger] ups@[j]).0 < uniforms@.len(),
            i <= ups@.len(),
            ctx@ == (CtxView {
                log: old(ctx)@.log + spec_uniform_update_commands(
                    uniforms@,
                    ups@.take(i as int),
                    old(ctx)@.program,
                ),
                ..old(ctx)@
            }),
        decreases ups@.len() - i,
    {
        let (slot, value) = ups[i];
        uniforms[slot].update(ctx, value);
        proof {
            assert(ups@.take(i as int + 1).drop_last() =~= ups@.take(i as int));
            assert(ups@.take(i as int + 1).last() == ups@[i as int]);
            assert(ctx@.log =~= old(ctx)@.log + spec_uniform_update_commands(
                uniforms@,
                ups@.take(i as int + 1),
                old(ctx)@.program,
            ));
            assert(ctx@ =~= CtxView {
                log: old(ctx)@.log + spec_uniform_update_commands(
                    uniforms@,
                    ups@.take(i as int + 1),
                    old(ctx)@.program,
                ),
                ..old(ctx)@
            });
        }
        i = i + 1;
    }
    proof {
        assert(ups@.take(ups@.len() as int) =~= ups@);
    }
}

/// Binds the listed textures of the mesh to their units, in order,
/// pointing each sampler at its unit.
fn apply_texture_units(
    textures: &Vec<TextureDescriptor>,
    ctx: &mut GlContext,
    tus: &Vec<(usize, u32)>,
)
    requires
        forall|i: int|
            0 <= i < tus@.len() ==> (#[trigger] tus@[i]).0 < textures@.len() && tus@[i].1
                <= i32::MAX,
    ensures
        final(ctx)@.log == old(ctx)@.log + spec_texture_unit_commands(
            textures@,
            tus@,
            old(ctx)@.program,
        ),
        final(ctx)@.program == old(ctx)@.program,
        final(ctx)@.next_handle == old(ctx)@.next_handle,
        final(ctx)@.array_buffer == old(ctx)@.array_buffer,
        final(ctx)@.element_array_buffer == old(ctx)@.element_array_buffer,
        final(ctx)@.vertex_array == old(ctx)@.vertex_array,
{
    proof {
        assert(old(ctx)@.log + spec_texture_unit_commands(
            textures@,
            tus@.take(0),
            old(ctx)@.program,
        ) =~= old(ctx)@.log);
    }
    let mut i: usize = 0;
    while i < tus.len()
        invariant
            forall|j: int|
                0 <= j < tus@.len() ==> (#[trigger] tus@[j]).0 < textures@.len() && tus@[j].1
                    <= i32::MAX,
            i <= tus@.len(),
            ctx@.log == old(ctx)@.log + spec_texture_unit_commands(
                textures@,
                tus@.take(i as int),
                old(ctx)@.program,
            ),
            ctx@.program == old(ctx)@.program,
            ctx@.next_handle == old(ctx)@.next_handle,
            ctx@.array_buffer == old(ctx)@.array_buffer,
            ctx@.element_array_buffer == old(ctx)@.element_array_buffer,
            ctx@.vertex_array == old(ctx)@.vertex_array,
        decreases tus@.len() - i,
    {
        let (texture, unit) = tus[i];
        textures[texture].set_active_texture(ctx, unit);
        proof {
            assert(tus@.take(i as int + 1).drop_last() =~= tus@.take(i as int));
            assert(tus@.take(i as int + 1).last() == tus@[i as int]);
            assert(ctx@.log =~= old(ctx)@.log + spec_texture_unit_commands(
                textures@,
                tus@.take(i as int + 1),
                old(ctx)@.program,
            ));
        }
        i = i + 1;
    }
    proof {
        assert(tus@.take(tus@.len() as int) =~= tus@);
    }
}

/// Applies one mesh's frame state: uniforms, texture units, then the
/// bind of the mesh's vertex array.
fn apply_mesh_frame(mesh: &Mesh, ctx: &mut GlContext, st: &MeshFrameState)
    requires
        spec_mesh_frame_wf(*mesh, *st),
    ensures
        final(ctx)@.log == old(ctx)@.log + spec_mesh_frame_commands(
            *mesh,
            *st,
            old(ctx)@.program,
        ),
        final(ctx)@.program == old(ctx)@.program,
        final(ctx)@.next_handle == old(ctx)@.next_handle,
        final(ctx)@.array_buffer == old(ctx)@.array_buffer,
        final(ctx)@.element_array_buffer == old(ctx)@.element_array_buffer,
        final(ctx)@.vertex_array == mesh.spec_vao_id(),
{
    apply_uniform_updates(mesh.uniforms_ref(), ctx, &st.uniform_updates);
    apply_texture_units(mesh.textures_ref(), ctx, &st.texture_units);
    mesh.bind_vao(ctx);
    proof {
        assert(ctx@.log =~= old(ctx)@.log + spec_mesh_frame_commands(
            *mesh,
            *st,
            old(ctx)@.program,
        ));
    }
}

/// Draws one model for this frame: program current, each mesh's frame
/// state applied, then the model's draws.
fn render_model_pass(model: &Model, ctx: &mut GlContext, sts: &Vec<MeshFrameState>)
    requires
        model.spec_program() is Some,
        sts@.len() == model.spec_meshes().len(),
        forall|k: int|
            0 <= k < model.spec_meshes().len() ==> spec_mesh_frame_wf(
                model.spec_meshes()[k],
                #[trigger] sts@[k],
            ),
    ensures
        final(ctx)@.log == old(ctx)@.log + spec_model_frame_commands(*model, sts@),
        final(ctx)@.program == model.spec_program()->Some_0,
        final(ctx)@.next_handle == old(ctx)@.next_handle,
        final(ctx)@.array_buffer == old(ctx)@.array_buffer,
        final(ctx)@.element_array_buffer == old(ctx)@.element_array_buffer,
{
    model.use_program(ctx);
    let ghost prog = model.spec_program()->Some_0;
    let ghost entered = ctx@;
    proof {
        assert(entered.log + spec_meshes_frame_commands(model.spec_meshes(), sts@, prog, 0)
            =~= entered.log);
    }
    let mut k: usize = 0;
    let meshes = model.meshes_ref();
    while k < meshes.len()
        invariant
            model.spec_program() is Some,
            prog == model.spec_program()->Some_0,
            meshes@ == model.spec_meshes(),
            sts@.len() == model.spec_meshes().len(),
            forall|j: int|
                0 <= j < model.spec_meshes().len() ==> spec_mesh_frame_wf(
                    model.spec_meshes()[j],
                    #[trigger] sts@[j],
                ),
            entered.log == old(ctx)@.log.push(GlCommand::UseProgram { program: prog }),
            entered.program == prog,
            entered.next_handle == old(ctx)@.next_handle,
            entered.array_buffer == old(ctx)@.array_buffer,
            entered.element_array_buffer == old(ctx)@.element_array_buffer,
            k <= model.spec_meshes().len(),
            ctx@.log == entered.log + spec_meshes_frame_commands(
                model.spec_meshes(),
                sts@,
                prog,
                k as int,
            ),
            ctx@.program == prog,
            ctx@.next_handle == entered.next_handle,
            ctx@.array_buffer == entered.array_buffer,
            ctx@.element_array_buffer == entered.element_array_buffer,
        decreases model.spec_meshes().len() - k,
    {
        apply_mesh_frame(&meshes[k], ctx, &sts[k]);
        proof {
            assert(ctx@.log =~= entered.log + spec_meshes_frame_commands(
                model.spec_meshes(),
                sts@,
                prog,
                k as int + 1,
            ));
        }
        k = k + 1;
    }
    model.render(ctx);
    proof {
        assert(ctx@.log =~= old(ctx)@.log + spec_model_frame_commands(*model, sts@));
    }
}

/// A whole frame's mesh states for one model.
pub type MeshFrameStates = Vec<MeshFrameState>;

/// The top-level registry: the programs, drawables and vertex
/// descriptors to render each frame, and the text subsystem.
pub struct Application {
    program_ids: Vec<u32>,
    models: Vec<Model>,
    vertex_descriptors: Vec<VaoDescriptor>,
    text_manager: Option<TextManager>,
}

impl Application {
    /// The registered program handles, in registration order.
    pub closed spec fn spec_programs(self) -> Seq<u32> {
        self.program_ids@
    }

    /// The registered models, in registration order.
    pub closed spec fn spec_models(self) -> Seq<Model> {
        self.models@
    }

    /// The registered stand-alone vertex descriptors.
    pub closed spec fn spec_vertex_descriptors(self) -> Seq<VaoDescriptor> {
        self.vertex_descriptors@
    }

    /// The attached text subsystem, if one was attached.
    pub closed spec fn spec_text_manager(self) -> Option<TextManager> {
        self.text_manager
    }

    /// An empty registry. The window, its context and its event stream
    /// live with the embedder.
    pub fn new() -> (app: Application)
        ensures
            app.spec_programs() == Seq::<u32>::empty(),
            app.spec_models() == Seq::<Model>::empty(),
            app.spec_vertex_descriptors() == Seq::<VaoDescriptor>::empty(),
            app.spec_text_manager() is None,
    {
        let app = Application {
            program_ids: Vec::new(),
            models: Vec::new(),
            vertex_descriptors: Vec::new(),
            text_manager: None,
        };
        proof {
            assert(app.spec_programs() =~= Seq::<u32>::empty());
            assert(app.spec_models() =~= Seq::<Model>::empty());
            assert(app.spec_vertex_descriptors() =~= Seq::<VaoDescriptor>::empty());
        }
        app
    }

    /// Registers a program.
    pub fn add_program(&mut self, program: &Program)
        ensures
            final(self).spec_programs() == old(self).spec_programs().push(program.spec_id()),
            final(self).spec_models() == old(self).spec_models(),
            final(self).spec_vertex_descriptors() == old(self).spec_vertex_descriptors(),
            final(self).spec_text_manager() == old(self).spec_text_manager(),
    {
        self.program_ids.push(program.id());
    }

    /// Attaches the text subsystem.
    pub fn attach_text_manager(&mut self, text_manager: TextManager)
        ensures
            final(self).spec_text_manager() == Some(text_manager),
            final(self).spec_programs() == old(self).spec_programs(),
            final(self).spec_models() == old(self).spec_models(),
            final(self).spec_vertex_descriptors() == old(self).spec_vertex_descriptors(),
    {
        self.text_manager = Some(text_manager);
    }

    /// The attached text subsystem, for the embedder to drive.
    pub fn text_manager_ref(&self) -> (r: Option<&TextManager>)
        ensures
            match r {
                Some(tm) => self.spec_text_manager() == Some(*tm),
                None => self.spec_text_manager() is None,
            },
    {
        self.text_manager.as_ref()
    }

    /// Makes the program registered at `idx` current.
    pub fn use_program_at_index(&self, ctx: &mut GlContext, idx: usize)
        requires
            idx < self.spec_programs().len(),
        ensures
            final(ctx)@ == (CtxView {
                program: self.spec_programs()[idx as int],
                log: old(ctx)@.log.push(
                    GlCommand::UseProgram { program: self.spec_programs()[idx as int] },
                ),
                ..old(ctx)@
            }),
    {
        ctx.use_program(self.program_ids[idx]);
    }

    /// Registers a stand-alone vertex descriptor.
    pub fn add_vertex_descriptor(&mut self, descriptor: VaoDescriptor)
        ensures
            final(self).spec_vertex_descriptors() == old(self).spec_vertex_descriptors().push(
                descriptor,
            ),
            final(self).spec_programs() == old(self).spec_programs(),
            final(self).spec_models() == old(self).spec_models(),
            final(self).spec_text_manager() == old(self).spec_text_manager(),
    {
        self.vertex_descriptors.push(descriptor);
    }

    /// Registers a model for rendering.
    pub fn add_model(&mut self, model: Model)
        ensures
            final(self).spec_models() == old(self).spec_models().push(model),
            final(self).spec_programs() == old(self).spec_programs(),
            final(self).spec_vertex_descriptors() == old(self).spec_vertex_descriptors(),
            final(self).spec_text_manager() == old(self).spec_text_manager(),
    {
        self.models.push(model);
    }

    /// How many models are registered.
    pub fn model_count(&self) -> (n: usize)
        ensures
            n == self.spec_models().len(),
    {
        self.models.len()
    }

    /// Checks a whole frame against the registry at run time, for
    /// embedders that assemble frames from outside values.
    pub fn frame_valid(&self, updates: &Vec<MeshFrameStates>) -> (r: bool)
        ensures
            r == spec_frame_wf(self.spec_models(), updates@),
    {
        if updates.len() != self.models.len() {
            return false;
        }
        let mut m: usize = 0;
        while m < self.models.len()
            invariant
                updates@.len() == self.spec_models().len(),
                m <= self.spec_models().len(),
                forall|j: int|
                    0 <= j < m ==> (#[trigger] self.spec_models()[j]).spec_program() is Some,
                forall|j: int|
                    0 <= j < m ==> (#[trigger] updates@[j])@.len()
                        == self.spec_models()[j].spec_meshes().len(),
                forall|j: int, k: int|
                    0 <= j < m && 0 <= k < self.spec_models()[j].spec_meshes().len()
                        ==> spec_mesh_frame_wf(
                        self.spec_models()[j].spec_meshes()[k],
                        #[trigger] updates@[j]@[k],
                    ),
            decreases self.spec_models().len() - m,
        {
            let model = &self.models[m];
            if !model.has_program() {
                return false;
            }
            let meshes = model.meshes_ref();
            let sts = &updates[m];
            if sts.len() != meshes.len() {
                return false;
            }
            let mut k: usize = 0;
            while k < meshes.len()
                invariant
                    model == &self.models@[m as int],
                    meshes@ == self.spec_models()[m as int].spec_meshes(),
                    sts@ == updates@[m as int]@,
                    sts@.len() == meshes@.len(),
                    0 <= m < self.spec_models().len(),
                    k <= meshes@.len(),
                    forall|j: int|
                        0 <= j < k ==> spec_mesh_frame_wf(
                            self.spec_models()[m as int].spec_meshes()[j],
                            #[trigger] updates@[m as int]@[j],
                        ),
                decreases meshes@.len() - k,
            {
                if !mesh_frame_valid(&meshes[k], &sts[k]) {
                    return false;
                }
                k = k + 1;
            }
            m = m + 1;
        }
        true
    }

    /// Renders one frame of all registered models: for each model in
    /// registration order, its program is made current, each of its
    /// meshes gets its frame state applied and its vertex array bound,
    /// and then the model's draws are issued — and nothing more.
    pub fn render_models(&self, ctx: &mut GlContext, updates: &Vec<MeshFrameStates>)
        requires
            spec_frame_wf(self.spec_models(), updates@),
        ensures
            final(ctx)@.log == old(ctx)@.log + spec_frame_commands(
                self.spec_models(),
                updates@,
                self.spec_models().len() as int,
            ),
            final(ctx)@.next_handle == old(ctx)@.next_handle,
            final(ctx)@.array_buffer == old(ctx)@.array_buffer,
            final(ctx)@.element_array_buffer == old(ctx)@.element_array_buffer,
            final(ctx)@.program == if self.spec_models().len() == 0 {
                old(ctx)@.program
            } else {
                self.spec_models().last().spec_program()->Some_0
            },
    {
        proof {
            assert(old(ctx)@.log + spec_frame_commands(self.spec_models(), updates@, 0) =~= old(
                ctx,
            )@.log);
        }
        let mut m: usize = 0;
        while m < self.models.len()
            invariant
                spec_frame_wf(self.spec_models(), updates@),
                m <= self.spec_models().len(),
                ctx@.log == old(ctx)@.log + spec_frame_commands(
                    self.spec_models(),
                    updates@,
                    m as int,
                ),
                ctx@.next_handle == old(ctx)@.next_handle,
                ctx@.array_buffer == old(ctx)@.array_buffer,
                ctx@.element_array_buffer == old(ctx)@.element_array_buffer,
                ctx@.program == if m == 0 {
                    old(ctx)@.program
                } else {
                    self.spec_models()[m as int - 1].spec_program()->Some_0
                },
            decreases self.spec_models().len() - m,
        {
            render_model_pass(&self.models[m], ctx, &updates[m]);
            proof {
                assert(ctx@.log =~= old(ctx)@.log + spec_frame_commands(
                    self.spec_models(),
                    updates@,
                    m as int + 1,
                ));
            }
            m = m + 1;
        }
    }
}

/// Which key an input event names; only the keys the demo binds are
/// distinguished.
#[derive(Clone, Copy, PartialEq, Eq, Debug)]
pub enum KeyInput {
    Escape,
    C,
    W,
    S,
    A,
    D,
    Q,
    E,
    Z,
    Up,
    Down,
    Left,
    Right,
    KpAdd,
    KpSubtract,
    KpMultiply,
    T,
    I,
    U,
    K,
    J,
    M,
    N,
    Num3,
    Num1,
    F,
    Other,
}

/// What happened to the key.
#[derive(Clone, Copy, PartialEq, Eq, Debug)]
pub enum KeyAction {
    Press,
    Release,
    Repeat,
}

/// The flat interaction state one frame reads: movement and rotation
/// flags for the scene object, movement flags for the camera, zoom and
/// blend adjustments, and the close request.
#[derive(Clone, Copy, PartialEq, Eq, Debug)]
pub struct InputState {
    pub moving_up: bool,
    pub moving_down: bool,
    pub moving_left: bool,
    pub moving_right: bool,
    pub moving_in: bool,
    pub moving_out: bool,
    pub x_rot_cwise: bool,
    pub x_rot_ccwise: bool,
    pub y_rot_cwise: bool,
    pub y_rot_ccwise: bool,
    pub z_rot_cwise: bool,
    pub z_rot_ccwise: bool,
    pub reset_all_angles: bool,
    pub mixvalue_grow: bool,
    pub mixvalue_shrink: bool,
    pub camera_moving_forwards: bool,
    pub camera_moving_backwards: bool,
    pub camera_moving_down: bool,
    pub camera_moving_up: bool,
    pub camera_moving_left: bool,
    pub camera_moving_right: bool,
    pub zoom_in: bool,
    pub zoom_out: bool,
    pub reset_zoom: bool,
    pub should_close: bool,
    pub fill_polygon_mode: bool,
}

impl InputState {
    /// The state before any input: every flag down.
    pub fn new() -> (s: InputState)
        ensures
            s == spec_input_start(),
    {
        InputState {
            moving_up: false,
            moving_down: false,
            moving_left: false,
            moving_right: false,
            moving_in: false,
            moving_out: false,
            x_rot_cwise: false,
            x_rot_ccwise: false,
            y_rot_cwise: false,
            y_rot_ccwise: false,
            z_rot_cwise: false,
            z_rot_ccwise: false,
            reset_all_angles: false,
            mixvalue_grow: false,
            mixvalue_shrink: false,
            camera_moving_forwards: false,
            camera_moving_backwards: false,
            camera_moving_down: false,
            camera_moving_up: false,
            camera_moving_left: false,
            camera_moving_right: false,
            zoom_in: false,
            zoom_out: false,
            reset_zoom: false,
            should_close: false,
            fill_polygon_mode: false,
        }
    }
}

/// The interaction state before any input.
pub open spec fn spec_input_start() -> InputState {
    InputState {
        moving_up: false,
        moving_down: false,
        moving_left: false,
        moving_right: false,
        moving_in: false,
        moving_out: false,
        x_rot_cwise: false,
        x_rot_ccwise: false,
        y_rot_cwise: false,
        y_rot_ccwise: false,
        z_rot_cwise: false,
        z_rot_ccwise: false,
        reset_all_angles: false,
        mixvalue_grow: false,
        mixvalue_shrink: false,
        camera_moving_forwards: false,
        camera_moving_backwards: false,
        camera_moving_down: false,
        camera_moving_up: false,
        camera_moving_left: false,
        camera_moving_right: false,
        zoom_in: false,
        zoom_out: false,
        reset_zoom: false,
        should_close: false,
        fill_polygon_mode: false,
    }
}

/// The key-binding table as one function: the state an event moves `s`
/// to. A press raises its flag, a release lowers it; escape requests
/// the close; the fill binding, reachable only on press, latches. A
/// wireframe binding would share its key with the camera-forward
/// binding and is shadowed by it, so it has no arm. Keys outside the
/// table, and repeats, change nothing.
pub open spec fn spec_apply_event(s: InputState, key: KeyInput, action: KeyAction) -> InputState {
    match (key, action) {
        (KeyInput::Escape, KeyAction::Press) => InputState { should_close: true, ..s },
        (KeyInput::C, KeyAction::Press) => InputState { moving_in: true, ..s },
        (KeyInput::C, KeyAction::Release) => InputState { moving_in: false, ..s },
        (KeyInput::W, KeyAction::Press) => InputState { camera_moving_forwards: true, ..s },
        (KeyInput::W, KeyAction::Release) => InputState { camera_moving_forwards: false, ..s },
        (KeyInput::S, KeyAction::Press) => InputState { camera_moving_backwards: true, ..s },
        (KeyInput::S, KeyAction::Release) => InputState { camera_moving_backwards: false, ..s },
        (KeyInput::A, KeyAction::Press) => InputState { camera_moving_left: true, ..s },
        (KeyInput::A, KeyAction::Release) => InputState { camera_moving_left: false, ..s },
        (KeyInput::D, KeyAction::Press) => InputState { camera_moving_right: true, ..s },
        (KeyInput::D, KeyAction::Release) => InputState { camera_moving_right: false, ..s },
        (KeyInput::Q, KeyAction::Press) => InputState { camera_moving_down: true, ..s },
        (KeyInput::Q, KeyAction::Release) => InputState { camera_moving_down: false, ..s },
        (KeyInput::E, KeyAction::Press) => InputState { camera_moving_up: true, ..s },
        (KeyInput::E, KeyAction::Release) => InputState { camera_moving_up: false, ..s },
        (KeyInput::Z, KeyAction::Press) => InputState { moving_out: true, ..s },
        (KeyInput::Z, KeyAction::Release) => InputState { moving_out: false, ..s },
        (KeyInput::Up, KeyAction::Press) => InputState { moving_up: true, ..s },
        (KeyInput::Up, KeyAction::Release) => InputState { moving_up: false, ..s },
        (KeyInput::Down, KeyAction::Press) => InputState { moving_down: true, ..s },
        (KeyInput::Down, KeyAction::Release) => InputState { moving_down: false, ..s },
        (KeyInput::Left, KeyAction::Press) => InputState { moving_left: true, ..s },
        (KeyInput::Left, KeyAction::Release) => InputState { moving_left: false, ..s },
        (KeyInput::Right, KeyAction::Press) => InputState { moving_right: true, ..s },
        (KeyInput::Right, KeyAction::Release) => InputState { moving_right: false, ..s },
        (KeyInput::KpAdd, KeyAction::Press) => InputState { zoom_in: true, ..s },
        (KeyInput::KpAdd, KeyAction::Release) => InputState { zoom_in: false, ..s },
        (KeyInput::KpSubtract, KeyAction::Press) => InputState { zoom_out: true, ..s },
        (KeyInput::KpSubtract, KeyAction::Release) => InputState { zoom_out: false, ..s },
        (KeyInput::KpMultiply, KeyAction::Press) => InputState { reset_zoom: true, ..s },
        (KeyInput::KpMultiply, KeyAction::Release) => InputState { reset_zoom: false, ..s },
        (KeyInput::T, KeyAction::Press) => InputState { reset_all_angles: true, ..s },
        (KeyInput::T, KeyAction::Release) => InputState { reset_all_angles: false, ..s },
        (KeyInput::I, KeyAction::Press) => InputState { x_rot_cwise: true, ..s },
        (KeyInput::I, KeyAction::Release) => InputState { x_rot_cwise: false, ..s },
        (KeyInput::U, KeyAction::Press) => InputState { x_rot_ccwise: true, ..s },
        (KeyInput::U, KeyAction::Release) => InputState { x_rot_ccwise: false, ..s },
        (KeyInput::K, KeyAction::Press) => InputState { y_rot_cwise: true, ..s },
        (KeyInput::K, KeyAction::Release) => InputState { y_rot_cwise: false, ..s },
        (KeyInput::J, KeyAction::Press) => InputState { y_rot_ccwise: true, ..s },
        (KeyInput::J, KeyAction::Release) => InputState { y_rot_ccwise: false, ..s },
        (KeyInput::M, KeyAction::Press) => InputState { z_rot_cwise: true, ..s },
        (KeyInput::M, KeyAction::Release) => InputState { z_rot_cwise: false, ..s },
        (KeyInput::N, KeyAction::Press) => InputState { z_rot_ccwise: true, ..s },
        (KeyInput::N, KeyAction::Release) => InputState { z_rot_ccwise: false, ..s },
        (KeyInput::Num3, KeyAction::Press) => InputState { mixvalue_grow: true, ..s },
        (KeyInput::Num3, KeyAction::Release) => InputState { mixvalue_grow: false, ..s },
        (KeyInput::Num1, KeyAction::Press) => InputState { mixvalue_shrink: true, ..s },
        (KeyInput::Num1, KeyAction::Release) => InputState { mixvalue_shrink: false, ..s },
        (KeyInput::F, KeyAction::Press) => InputState { fill_polygon_mode: true, ..s },
        _ => s,
    }
}

/// Applies one window event to the interaction state, exactly as the
/// key-binding table says.
pub fn handle_window_event(state: &mut InputState, key: KeyInput, action: KeyAction)
    ensures
        *final(state) == spec_apply_event(*old(state), key, action),
{
    let next = apply_event(*state, key, action);
    *state = next;
}

/// The key-binding table, executable.
#[verifier::rlimit(60)]
fn apply_event(s: InputState, key: KeyInput, action: KeyAction) -> (r: InputState)
    ensures
        r == spec_apply_event(s, key, action),
{
    match (key, action) {
        (KeyInput::Escape, KeyAction::Press) => InputState { should_close: true, ..s },
        (KeyInput::C, KeyAction::Press) => InputState { moving_in: true, ..s },
        (KeyInput::C, KeyAction::Release) => InputState { moving_in: false, ..s },
        (KeyInput::W, KeyAction::Press) => InputState { camera_moving_forwards: true, ..s },
        (KeyInput::W, KeyAction::Release) => InputState { camera_moving_forwards: false, ..s },
        (KeyInput::S, KeyAction::Press) => InputState { camera_moving_backwards: true, ..s },
        (KeyInput::S, KeyAction::Release) => InputState { camera_moving_backwards: false, ..s },
        (KeyInput::A, KeyAction::Press) => InputState { camera_moving_left: true, ..s },
        (KeyInput::A, KeyAction::Release) => InputState { camera_moving_left: false, ..s },
        (KeyInput::D, KeyAction::Press) => InputState { camera_moving_right: true, ..s },
        (KeyInput::D, KeyAction::Release) => InputState { camera_moving_right: false, ..s },
        (KeyInput::Q, KeyAction::Press) => InputState { camera_moving_down: true, ..s },
        (KeyInput::Q, KeyAction::Release) => InputState { camera_moving_down: false, ..s },
        (KeyInput::E, KeyAction::Press) => InputState { camera_moving_up: true, ..s },
        (KeyInput::E, KeyAction::Release) => InputState { camera_moving_up: false, ..s },
        (KeyInput::Z, KeyAction::Press) => InputState { moving_out: true, ..s },
        (KeyInput::Z, KeyAction::Release) => InputState { moving_out: false, ..s },
        (KeyInput::Up, KeyAction::Press) => InputState { moving_up: true, ..s },
        (KeyInput::Up, KeyAction::Release) => InputState { moving_up: false, ..s },
        (KeyInput::Down, KeyAction::Press) => InputState { moving_down: true, ..s },
        (KeyInput::Down, KeyAction::Release) => InputState { moving_down: false, ..s },
        (KeyInput::Left, KeyAction::Press) => InputState { moving_left: true, ..s },
        (KeyInput::Left, KeyAction::Release) => InputState { moving_left: false, ..s },
        (KeyInput::Right, KeyAction::Press) => InputState { moving_right: true, ..s },
        (KeyInput::Right, KeyAction::Release) => InputState { moving_right: false, ..s },
        (KeyInput::KpAdd, KeyAction::Press) => InputState { zoom_in: true, ..s },
        (KeyInput::KpAdd, KeyAction::Release) => InputState { zoom_in: false, ..s },
        (KeyInput::KpSubtract, KeyAction::Press) => InputState { zoom_out: true, ..s },
        (KeyInput::KpSubtract, KeyAction::Release) => InputState { zoom_out: false, ..s },
        (KeyInput::KpMultiply, KeyAction::Press) => InputState { reset_zoom: true, ..s },
        (KeyInput::KpMultiply, KeyAction::Release) => InputState { reset_zoom: false, ..s },
        (KeyInput::T, KeyAction::Press) => InputState { reset_all_angles: true, ..s },
        (KeyInput::T, KeyAction::Release) => InputState { reset_all_angles: false, ..s },
        (KeyInput::I, KeyAction::Press) => InputState { x_rot_cwise: true, ..s },
        (KeyInput::I, KeyAction::Release) => InputState { x_rot_cwise: false, ..s },
        (KeyInput::U, KeyAction::Press) => InputState { x_rot_ccwise: true, ..s },
        (KeyInput::U, KeyAction::Release) => InputState { x_rot_ccwise: false, ..s },
        (KeyInput::K, KeyAction::Press) => InputState { y_rot_cwise: true, ..s },
        (KeyInput::K, KeyAction::Release) => InputState { y_rot_cwise: false, ..s },
        (KeyInput::J, KeyAction::Press) => InputState { y_rot_ccwise: true, ..s },
        (KeyInput::J, KeyAction::Release) => InputState { y_rot_ccwise: false, ..s },
        (KeyInput::M, KeyAction::Press) => InputState { z_rot_cwise: true, ..s },
        (KeyInput::M, KeyAction::Release) => InputState { z_rot_cwise: false, ..s },
        (KeyInput::N, KeyAction::Press) => InputState { z_rot_ccwise: true, ..s },
        (KeyInput::N, KeyAction::Release) => InputState { z_rot_ccwise: false, ..s },
        (KeyInput::Num3, KeyAction::Press) => InputState { mixvalue_grow: true, ..s },
        (KeyInput::Num3, KeyAction::Release) => InputState { mixvalue_grow: false, ..s },
        (KeyInput::Num1, KeyAction::Press) => InputState { mixvalue_shrink: true, ..s },
        (KeyInput::Num1, KeyAction::Release) => InputState { mixvalue_shrink: false, ..s },
        (KeyInput::F, KeyAction::Press) => InputState { fill_polygon_mode: true, ..s },
        _ => s,
    }
}

} // verus!
