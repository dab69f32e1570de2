//! How the recorded steps of a render pass are turned into GPU render
//! passes: where a new pass has to begin, what it draws into, and which
//! instances a draw covers.
use std::collections::HashMap;
use vstd::prelude::*;
use crate::handle::{BufferHandle, ShaderHandle, TextureHandle, UntypedBindGroupHandle};

verus! {

broadcast use vstd::std_specs::hash::group_hash_axioms;

/// The attachments one recorded step draws with.
#[derive(Clone, Copy, PartialEq, Eq, Structural, Debug)]
pub struct StepTargets {
    /// The texture drawn into; `None` draws into the window's surface.
    pub target: Option<TextureHandle>,
    /// The depth texture, if any.
    pub depth_tex: Option<TextureHandle>,
    /// Where a multisampled target is resolved to; `None` resolves into the
    /// window's surface.
    pub resolve_target: Option<TextureHandle>,
    /// Whether a clear colour is set: a pass begun at this step clears its
    /// colour attachment instead of loading it. The colour itself is a float
    /// and stays with the caller.
    pub clear_color: bool,
    /// Whether a clear depth is set: a pass begun at this step clears its
    /// depth attachment instead of loading it.
    pub clear_depth: bool,
}

/// Whether an attachment is cleared or its contents loaded when a pass
/// begins.
#[derive(Clone, Copy, PartialEq, Eq, Structural, Debug)]
pub enum LoadChoice {
    Clear,
    Load,
}

impl StepTargets {
    /// The targets a draw is recorded with. A draw uses up the clear colour
    /// and the clear depth: afterwards neither is set, and the attachments
    /// stay as they were.
    pub fn take_for_draw(&mut self) -> (t: StepTargets)
        ensures
            t == *old(self),
            *final(self) == (StepTargets { clear_color: false, clear_depth: false, ..*old(self) }),
    {
        let t = *self;
        self.clear_color = false;
        self.clear_depth = false;
        t
    }
}

/// A color attachment: the window's surface or a texture.
#[derive(Clone, Copy, PartialEq, Eq, Structural, Debug)]
pub enum ColorView {
    Surface,
    Texture(TextureHandle),
}

/// What is done for one recorded step.
#[derive(Clone, Copy, PartialEq, Eq, Structural, Debug)]
pub struct StepPlan {
    /// Whether the previous GPU pass ends and a new one begins at this step.
    pub begins_pass: bool,
    /// The color attachment of the pass this step begins.
    pub view: ColorView,
    /// The resolve attachment of the pass this step begins.
    pub resolve: Option<ColorView>,
    /// The depth attachment of the pass this step begins.
    pub depth: Option<TextureHandle>,
    /// Whether the pass this step begins clears or loads its colour.
    pub color_load: LoadChoice,
    /// Whether the pass this step begins clears or loads its depth.
    pub depth_load: LoadChoice,
}

/// Clear when a value to clear with is set, load otherwise.
pub open spec fn load_choice(clear: bool) -> LoadChoice {
    if clear {
        LoadChoice::Clear
    } else {
        LoadChoice::Load
    }
}

/// The color and resolve attachments of a step: a texture target is
/// resolved into its resolve texture, or into the surface when there is none;
/// drawing into the surface resolves nowhere.
pub open spec fn spec_attachment_views(targets: StepTargets) -> (ColorView, Option<ColorView>) {
    match targets.target {
        Some(tex) => (
            ColorView::Texture(tex),
            Some(
                match targets.resolve_target {
                    Some(r) => ColorView::Texture(r),
                    None => ColorView::Surface,
                },
            ),
        ),
        None => (ColorView::Surface, None),
    }
}

/// A new pass begins at the first step, at every step that draws into a
/// texture, and wherever the depth texture differs from the previous step's.
pub open spec fn spec_begins_pass(steps: Seq<StepTargets>, i: int) -> bool {
    i == 0 || steps[i].target is Some || steps[i].depth_tex != steps[i - 1].depth_tex
}

pub open spec fn spec_step_plan(steps: Seq<StepTargets>, i: int) -> StepPlan {
    StepPlan {
        begins_pass: spec_begins_pass(steps, i),
        view: spec_attachment_views(steps[i]).0,
        resolve: spec_attachment_views(steps[i]).1,
        depth: steps[i].depth_tex,
        color_load: load_choice(steps[i].clear_color),
        depth_load: load_choice(steps[i].clear_depth),
    }
}

/// The color and resolve attachments of a step.
pub fn attachment_views(targets: &StepTargets) -> (r: (ColorView, Option<ColorView>))
    ensures
        r == spec_attachment_views(*targets),
{
    match targets.target {
        Some(tex) => {
            let resolve = match targets.resolve_target {
                Some(r) => ColorView::Texture(r),
                None => ColorView::Surface,
            };
            (ColorView::Texture(tex), Some(resolve))
        },
        None => (ColorView::Surface, None),
    }
}

/// The buffers and instances of one mesh draw.
#[derive(Clone, Copy, PartialEq, Eq, Structural, Debug)]
pub struct MeshDraw {
    /// Bound at vertex slot 0.
    pub vertex_buffer: BufferHandle,
    /// Bound as the index buffer, of 32-bit indices.
    pub index_buffer: BufferHandle,
    /// Bound at vertex slot 1, when there is one.
    pub instance_buffer: Option<BufferHandle>,
    /// The number of indices drawn, from index 0.
    pub num_indices: u32,
    /// The first instance drawn.
    pub first_instance: u32,
    /// The end of the instances drawn.
    pub end_instance: u32,
}

/// What a recorded step draws.
#[derive(Clone, Copy, PartialEq, Eq, Structural, Debug)]
pub enum RenderAction {
    Mesh(MeshDraw),
    /// Nothing: the step only begins a pass, for its clears.
    Empty,
}

/// One recorded step of a render pass: the pass's state when it was
/// recorded, and what it draws.
#[derive(Clone, Debug)]
pub struct RenderStep {
    pub targets: StepTargets,
    /// The pipeline set for the step, if any.
    pub shader: Option<ShaderHandle>,
    /// The bind group set at each slot.
    pub bind_groups: HashMap<u32, UntypedBindGroupHandle>,
    /// The alpha the clear colour is scaled by, as the bits of an `f32`.
    pub alpha: u32,
    pub action: RenderAction,
}

/// The attachments of the recorded steps.
pub open spec fn targets_of(steps: Seq<RenderStep>) -> Seq<StepTargets> {
    steps.map_values(|s: RenderStep| s.targets)
}

/// What is done for one step that is carried out: the pass it begins, if
/// any, and the commands it records in the current pass.
#[derive(Clone, Debug)]
pub struct PlannedStep {
    pub pass: StepPlan,
    /// The pipeline to set, if any.
    pub shader: Option<ShaderHandle>,
    /// The bind groups to set, each at its slot.
    pub bind_groups: HashMap<u32, UntypedBindGroupHandle>,
    /// The alpha the clear colour is scaled by, as the bits of an `f32`.
    pub alpha: u32,
    /// The mesh to draw, if any.
    pub draw: Option<MeshDraw>,
}

/// Whether `p` is the plan of step `i`: its pass as `spec_step_plan` says,
/// and the step's own pipeline, bind groups, alpha and mesh.
pub open spec fn plans_step(p: PlannedStep, steps: Seq<RenderStep>, i: int) -> bool {
    &&& p.pass == spec_step_plan(targets_of(steps), i)
    &&& p.shader == steps[i].shader
    &&& p.bind_groups@ == steps[i].bind_groups@
    &&& p.alpha == steps[i].alpha
    &&& p.draw == match steps[i].action {
        RenderAction::Mesh(m) => Some(m),
        RenderAction::Empty => None,
    }
}

/// Plans the submission of recorded steps. Every step but the last one is
/// carried out, in order, as the engine always has; the plan has one entry
/// for each of them. The encoder is submitted exactly when the plan is not
/// empty.
pub fn plan_submission(steps: &[RenderStep]) -> (plan: Vec<PlannedStep>)
    requires
        steps@.len() >= 1,
    ensures
        plan@.len() == steps@.len() - 1,
        forall|i: int| 0 <= i < plan@.len() ==> #[trigger] plans_step(plan@[i], steps@, i),
{
    let len = steps.len() - 1;
    let ghost targets = targets_of(steps@);
    let mut plan: Vec<PlannedStep> = Vec::new();
    let mut i: usize = 0;
    while i < len
        invariant
            len == steps@.len() - 1,
            targets == targets_of(steps@),
            i <= len,
            plan@.len() == i,
            forall|j: int| 0 <= j < i ==> #[trigger] plans_step(plan@[j], steps@, j),
        decreases len - i,
    {
        let step = &steps[i];
        let t = step.targets;
        assert(targets[i as int] == t);
        let mut changed = i == 0 || t.target.is_some();
        if i > 0 {
            assert(targets[i - 1] == steps@[i - 1].targets);
            changed = changed || t.depth_tex != steps[i - 1].targets.depth_tex;
        }
        let (view, resolve) = attachment_views(&t);
        let color_load = if t.clear_color {
            LoadChoice::Clear
        } else {
            LoadChoice::Load
        };
        let depth_load = if t.clear_depth {
            LoadChoice::Clear
        } else {
            LoadChoice::Load
        };
        let pass = StepPlan { begins_pass: changed, view, resolve, depth: t.depth_tex, color_load, depth_load };
        let draw = match step.action {
            RenderAction::Mesh(m) => Some(m),
            RenderAction::Empty => None,
        };
        plan.push(
            PlannedStep {
                pass,
                shader: step.shader,
                bind_groups: step.bind_groups.clone(),
                alpha: step.alpha,
                draw,
            },
        );
        i = i + 1;
    }
    plan
}

/// The state of a render pass being recorded: where it draws, the pipeline
/// and bind groups set, and the alpha of its clear colour.
pub struct RenderPassState {
    pub targets: StepTargets,
    pub shader: Option<ShaderHandle>,
    pub bind_groups: HashMap<u32, UntypedBindGroupHandle>,
    /// The alpha the clear colour is scaled by, as the bits of an `f32`.
    pub alpha: u32,
}

/// The bits of the `f32` 1.0.
pub const OPAQUE_ALPHA: u32 = 0x3f80_0000u32;

/// Whether `after` is `before` with only the attachments changed to
/// `targets`.
pub open spec fn same_but_targets(before: RenderPassState, after: RenderPassState, targets: StepTargets) -> bool {
    &&& after.targets == targets
    &&& after.shader == before.shader
    &&& after.bind_groups@ == before.bind_groups@
    &&& after.alpha == before.alpha
}

/// Whether `step` was recorded from `state` and draws `action`.
pub open spec fn recorded_from(step: RenderStep, state: RenderPassState, action: RenderAction) -> bool {
    &&& step.targets == state.targets
    &&& step.shader == state.shader
    &&& step.bind_groups@ == state.bind_groups@
    &&& step.alpha == state.alpha
    &&& step.action == action
}

impl RenderPassState {
    /// A pass that draws into the surface, clearing nothing, with no
    /// pipeline or bind group set and an opaque clear colour.
    pub fn new() -> (s: RenderPassState)
        ensures
            s.targets == (StepTargets {
                target: None,
                depth_tex: None,
                resolve_target: None,
                clear_color: false,
                clear_depth: false,
            }),
            s.shader is None,
            s.bind_groups@ == Map::<u32, UntypedBindGroupHandle>::empty(),
            s.alpha == OPAQUE_ALPHA,
    {
        RenderPassState {
            targets: StepTargets {
                target: None,
                depth_tex: None,
                resolve_target: None,
                clear_color: false,
                clear_depth: false,
            },
            shader: None,
            bind_groups: HashMap::new(),
            alpha: OPAQUE_ALPHA,
        }
    }

    /// Draws into `target`, or the surface, resolving into `resolve_target`.
    pub fn set_target(&mut self, target: Option<TextureHandle>, resolve_target: Option<TextureHandle>)
        ensures
            same_but_targets(
                *old(self),
                *final(self),
                StepTargets { target, resolve_target, ..old(self).targets },
            ),
    {
        self.targets.target = target;
        self.targets.resolve_target = resolve_target;
    }

    /// Uses `depth_tex` as the depth attachment, cleared first when `clear`.
    pub fn with_depth(&mut self, depth_tex: TextureHandle, clear: bool)
        ensures
            same_but_targets(
                *old(self),
                *final(self),
                StepTargets { depth_tex: Some(depth_tex), clear_depth: clear, ..old(self).targets },
            ),
    {
        self.targets.depth_tex = Some(depth_tex);
        self.targets.clear_depth = clear;
    }

    /// Clears the colour attachment first, with a colour the caller keeps,
    /// scaled by the alpha `alpha_bits`.
    pub fn with_clear_color(&mut self, alpha_bits: u32)
        ensures
            final(self).targets == (StepTargets { clear_color: true, ..old(self).targets }),
            final(self).shader == old(self).shader,
            final(self).bind_groups@ == old(self).bind_groups@,
            final(self).alpha == alpha_bits,
    {
        self.targets.clear_color = true;
        self.alpha = alpha_bits;
    }

    /// Draws with `shader` from now on.
    pub fn set_shader(&mut self, shader: ShaderHandle)
        ensures
            final(self).targets == old(self).targets,
            final(self).shader == Some(shader),
            final(self).bind_groups@ == old(self).bind_groups@,
            final(self).alpha == old(self).alpha,
    {
        self.shader = Some(shader);
    }

    /// Binds `bind_group` at `slot`, replacing what was bound there.
    pub fn bind(&mut self, slot: u32, bind_group: UntypedBindGroupHandle)
        ensures
            final(self).targets == old(self).targets,
            final(self).shader == old(self).shader,
            final(self).bind_groups@ == old(self).bind_groups@.insert(slot, bind_group),
            final(self).alpha == old(self).alpha,
    {
        self.bind_groups.insert(slot, bind_group);
    }

    /// Unbinds whatever is bound at `slot`.
    pub fn unbind(&mut self, slot: u32)
        ensures
            final(self).targets == old(self).targets,
            final(self).shader == old(self).shader,
            final(self).bind_groups@ == old(self).bind_groups@.remove(slot),
            final(self).alpha == old(self).alpha,
    {
        self.bind_groups.remove(&slot);
    }

    fn record(&self, action: RenderAction) -> (step: RenderStep)
        ensures
            recorded_from(step, *self, action),
    {
        RenderStep {
            targets: self.targets,
            shader: self.shader,
            bind_groups: self.bind_groups.clone(),
            alpha: self.alpha,
            action,
        }
    }

    /// Records a draw of instances `start..end` of a mesh with
    /// `num_instances` instances, the range clamped to them. The draw uses up
    /// the clear colour and the clear depth; everything else stays set.
    pub fn render_range(
        &mut self,
        vertex_buffer: BufferHandle,
        index_buffer: BufferHandle,
        instance_buffer: Option<BufferHandle>,
        num_indices: u32,
        num_instances: u32,
        start: u32,
        end: u32,
    ) -> (step: RenderStep)
        ensures
            recorded_from(
                step,
                *old(self),
                RenderAction::Mesh(
                    MeshDraw {
                        vertex_buffer,
                        index_buffer,
                        instance_buffer,
                        num_indices,
                        first_instance: spec_clamp_instances(start, end, num_instances).0,
                        end_instance: spec_clamp_instances(start, end, num_instances).1,
                    },
                ),
            ),
            same_but_targets(
                *old(self),
                *final(self),
                StepTargets { clear_color: false, clear_depth: false, ..old(self).targets },
            ),
    {
        let (first_instance, end_instance) = clamp_instances(start, end, num_instances);
        let draw = MeshDraw {
            vertex_buffer,
            index_buffer,
            instance_buffer,
            num_indices,
            first_instance,
            end_instance,
        };
        let step = self.record(RenderAction::Mesh(draw));
        self.targets.take_for_draw();
        step
    }

    /// Records a step that draws nothing, so that its pass begins and its
    /// clears happen.
    pub fn render_empty(&self) -> (step: RenderStep)
        ensures
            recorded_from(step, *self, RenderAction::Empty),
    {
        self.record(RenderAction::Empty)
    }
}

/// The instance range a draw covers: a range that reaches past the last
/// instance ends at the number of instances.
pub open spec fn spec_clamp_instances(start: u32, end: u32, num_instances: u32) -> (u32, u32) {
    let reach = if end > start { end } else { start };
    if reach > num_instances {
        (start, num_instances)
    } else {
        (start, end)
    }
}

/// Clamps the instance range `start..end` of a draw to `num_instances`
/// instances.
pub fn clamp_instances(start: u32, end: u32, num_instances: u32) -> (r: (u32, u32))
    ensures
        r == spec_clamp_instances(start, end, num_instances),
{
    let len: u32 = if end > start { end - start } else { 0 };
    if start + len > num_instances {
        (start, num_instances)
    } else {
        (start, end)
    }
}

/// A clamped draw starts where it was asked to and never ends past the last
/// instance.
pub proof fn lemma_clamp_within(start: u32, end: u32, num_instances: u32)
    ensures
        spec_clamp_instances(start, end, num_instances).0 == start,
        spec_clamp_instances(start, end, num_instances).1 <= num_instances,
{
}

/// The first carried-out step always begins a pass, and a step drawing into
/// a texture always begins its own.
pub proof fn lemma_passes_begin(steps: Seq<StepTargets>, i: int)
    requires
        0 <= i < steps.len(),
    ensures
        spec_step_plan(steps, 0).begins_pass,
        steps[i].target is Some ==> spec_step_plan(steps, i).begins_pass,
{
}

/// A clear colour or depth set before a draw applies to that draw only: the
/// step recorded next loads both attachments, with the same pipeline, bind
/// groups and alpha as the draw before.
pub proof fn lemma_clears_once(
    before: RenderPassState,
    after: RenderPassState,
    first: RenderStep,
    second: RenderStep,
    first_action: RenderAction,
    second_action: RenderAction,
)
    requires
        recorded_from(first, before, first_action),
        same_but_targets(
            before,
            after,
            StepTargets { clear_color: false, clear_depth: false, ..before.targets },
        ),
        recorded_from(second, after, second_action),
    ensures
        load_choice(second.targets.clear_color) == LoadChoice::Load,
        load_choice(second.targets.clear_depth) == LoadChoice::Load,
        second.targets.target == first.targets.target,
        second.targets.depth_tex == first.targets.depth_tex,
        second.shader == first.shader,
        second.bind_groups@ == first.bind_groups@,
        second.alpha == first.alpha,
{
}

/// A draw whose instances lie within the mesh's keeps its range; one that
/// reaches past the last instance is cut to end there, never starting
/// elsewhere.
pub proof fn lemma_clamp_keeps_ranges_within(start: u32, end: u32, num_instances: u32)
    ensures
        start <= end && end <= num_instances ==> spec_clamp_instances(start, end, num_instances) == (start, end),
        start <= end && end > num_instances ==> spec_clamp_instances(start, end, num_instances) == (start, num_instances),
{
}

/// After the first step, a step drawing into the surface with the same
/// depth texture as the step before continues the pass; a change of depth
/// texture begins a new one.
pub proof fn lemma_passes_continue(steps: Seq<StepTargets>, i: int)
    requires
        0 < i < steps.len(),
    ensures
        steps[i].target is None && steps[i].depth_tex == steps[i - 1].depth_tex ==> !spec_step_plan(
            steps,
            i,
        ).begins_pass,
        steps[i].depth_tex != steps[i - 1].depth_tex ==> spec_step_plan(steps, i).begins_pass,
        spec_step_plan(steps, i).depth == steps[i].depth_tex,
        steps[i].target is None ==> spec_step_plan(steps, i).view == ColorView::Surface && spec_step_plan(
            steps,
            i,
        ).resolve is None,
        steps[i].target matches Some(t) ==> spec_step_plan(steps, i).view == ColorView::Texture(t),
{
}

} // verus!
