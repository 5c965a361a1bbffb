//! The compute scheduling node.
//!
//! A small state machine, polled once per frame by the render graph: it waits
//! in `Loading` until the one-time init pipeline has compiled, dispatches the
//! init pass while the per-frame update pipeline is still compiling, and then
//! settles in `Update`, dispatching the incremental pass every frame
//! thereafter. Transitions are monotonic; nothing ever leads back towards
//! `Loading`, whatever the registry reports later.

use vstd::prelude::*;

use crate::bind_groups::{TextureBindGroup, UniformBindGroup};
use crate::images::IMAGE_SIZE;
use crate::pipeline::{CompilationState, PipelineRegistry, PipelineVariant};

verus! {

/// Workgroups are 8 x 8 x 1 shader invocations.
pub const WORKGROUP_SIZE: u32 = 8;

/// The scheduling states, in order.
#[derive(Clone, Copy, PartialEq, Eq, Structural, Debug)]
pub enum CloudsState {
    /// Neither pipeline confirmed compiled; dispatch is a no-op.
    Loading,
    /// The init pipeline is ready; dispatch the one-time full generation.
    Init,
    /// The update pipeline is ready too; dispatch the incremental refresh,
    /// every frame, forever.
    Update,
}

/// Position of a state in the one-way `Loading -> Init -> Update` order.
pub open spec fn rank(s: CloudsState) -> int {
    match s {
        CloudsState::Loading => 0,
        CloudsState::Init => 1,
        CloudsState::Update => 2,
    }
}

/// The transition taken by one `advance` poll: `Loading` moves on once the
/// init variant is ready, `Init` once the update variant is ready, and
/// `Update` is terminal. A `Failed` report is treated exactly like `Pending`.
pub open spec fn spec_advance(s: CloudsState, r: PipelineRegistry) -> CloudsState {
    match s {
        CloudsState::Loading => if r.init_state is Ready {
            CloudsState::Init
        } else {
            CloudsState::Loading
        },
        CloudsState::Init => if r.update_state is Ready {
            CloudsState::Update
        } else {
            CloudsState::Init
        },
        CloudsState::Update => CloudsState::Update,
    }
}

/// The state after a whole sequence of `advance` polls.
pub open spec fn spec_advance_seq(s: CloudsState, polls: Seq<PipelineRegistry>) -> CloudsState
    decreases polls.len(),
{
    if polls.len() == 0 {
        s
    } else {
        spec_advance_seq(spec_advance(s, polls.first()), polls.drop_first())
    }
}

/// The pipeline dispatched while the node is in a given state.
pub open spec fn spec_dispatch_pipeline(s: CloudsState) -> Option<PipelineVariant> {
    match s {
        CloudsState::Loading => None,
        CloudsState::Init => Some(PipelineVariant::Init),
        CloudsState::Update => Some(PipelineVariant::Update),
    }
}

/// The states in effect during each frame's dispatch, when every frame first
/// advances by its poll and then runs.
pub open spec fn spec_frame_states(s: CloudsState, polls: Seq<PipelineRegistry>) -> Seq<
    CloudsState,
>
    decreases polls.len(),
{
    if polls.len() == 0 {
        Seq::empty()
    } else {
        seq![spec_advance(s, polls.first())] + spec_frame_states(
            spec_advance(s, polls.first()),
            polls.drop_first(),
        )
    }
}

/// The dispatch issued by each frame, under the same frame model.
pub open spec fn spec_dispatch_log(s: CloudsState, polls: Seq<PipelineRegistry>) -> Seq<
    Option<PipelineVariant>,
> {
    spec_frame_states(s, polls).map_values(|st: CloudsState| spec_dispatch_pipeline(st))
}

/// The number of workgroups that cover `dim` invocations along one axis.
pub open spec fn spec_workgroup_count(dim: int) -> int {
    (dim + (WORKGROUP_SIZE - 1)) / (WORKGROUP_SIZE as int)
}

/// Computes the workgroup count along one axis: the exact ceiling of
/// `dim / 8`, so the grid covers every invocation with no spare workgroup.
pub fn workgroup_count(dim: u32) -> (n: u32)
    ensures
        n == spec_workgroup_count(dim as int),
        WORKGROUP_SIZE * n >= dim,
        dim > 0 ==> WORKGROUP_SIZE * (n - 1) < dim,
        dim % WORKGROUP_SIZE == 0 ==> n == dim / WORKGROUP_SIZE,
{
    if dim % WORKGROUP_SIZE == 0 {
        dim / WORKGROUP_SIZE
    } else {
        dim / WORKGROUP_SIZE + 1
    }
}

/// One dispatch call: the pipeline variant and the workgroup grid.
#[derive(Clone, Copy, PartialEq, Eq, Structural, Debug)]
pub struct DispatchCall {
    pub pipeline: PipelineVariant,
    pub workgroups_x: u32,
    pub workgroups_y: u32,
    pub workgroups_z: u32,
}

/// The grid that covers the square atlas: `ceil(IMAGE_SIZE / 8)` on both
/// axes, depth 1.
pub open spec fn spec_atlas_grid(pipeline: PipelineVariant) -> DispatchCall {
    DispatchCall {
        pipeline,
        workgroups_x: spec_workgroup_count(IMAGE_SIZE as int) as u32,
        workgroups_y: spec_workgroup_count(IMAGE_SIZE as int) as u32,
        workgroups_z: 1,
    }
}

/// The dispatch recorded for a frame in a given state: nothing while
/// `Loading`, the state's pipeline over the atlas grid otherwise.
pub open spec fn spec_dispatch_call(s: CloudsState) -> Option<DispatchCall> {
    match spec_dispatch_pipeline(s) {
        Option::None => Option::None,
        Option::Some(p) => Option::Some(spec_atlas_grid(p)),
    }
}

/// Everything one frame records into its compute pass: both bind groups at
/// their fixed group slots, and at most one dispatch.
pub struct ComputePass {
    /// Bound at group slot [`ComputePass::uniform_group_slot`].
    pub uniform_group: UniformBindGroup,
    pub uniform_group_slot: u32,
    /// Bound at group slot [`ComputePass::texture_group_slot`].
    pub texture_group: TextureBindGroup,
    pub texture_group_slot: u32,
    pub dispatch: Option<DispatchCall>,
}

/// The render-graph node that schedules the cloud compute work.
pub struct CloudsNode {
    pub state: CloudsState,
}

impl Default for CloudsNode {
    /// A fresh node: nothing compiled yet.
    fn default() -> (n: CloudsNode)
        ensures
            n.state == CloudsState::Loading,
    {
        CloudsNode { state: CloudsState::Loading }
    }
}

impl CloudsNode {
    /// One per-frame poll of the registry snapshot: takes the transition of
    /// [`spec_advance`], and never moves backwards.
    pub fn update(&mut self, registry: &PipelineRegistry)
        ensures
            final(self).state == spec_advance(old(self).state, *registry),
            rank(final(self).state) >= rank(old(self).state),
    {
        match self.state {
            CloudsState::Loading => {
                if matches!(registry.compilation_state(PipelineVariant::Init), CompilationState::Ready) {
                    self.state = CloudsState::Init;
                }
            },
            CloudsState::Init => {
                if matches!(registry.compilation_state(PipelineVariant::Update), CompilationState::Ready) {
                    self.state = CloudsState::Update;
                }
            },
            CloudsState::Update => {},
        }
    }

    /// One whole frame, as the render graph drives the node: first advance
    /// by this frame's registry poll, then record the pass for the state the
    /// advance reached. The dispatch is exactly what the dispatch-log model
    /// ([`spec_dispatch_log`]) predicts for this frame.
    pub fn run_frame(
        &mut self,
        registry: &PipelineRegistry,
        uniform_group: UniformBindGroup,
        texture_group: TextureBindGroup,
    ) -> (pass: ComputePass)
        ensures
            final(self).state == spec_advance(old(self).state, *registry),
            pass.uniform_group == uniform_group,
            pass.uniform_group_slot == 0,
            pass.texture_group == texture_group,
            pass.texture_group_slot == 1,
            pass.dispatch == spec_dispatch_call(spec_advance(old(self).state, *registry)),
    {
        self.update(registry);
        self.run(uniform_group, texture_group)
    }

    /// Records this frame's compute pass: both bind groups at their fixed
    /// slots — group 0 uniforms, group 1 textures — and, unless the node is
    /// still `Loading`, one dispatch of the state's pipeline over the atlas
    /// grid. Consumes the bind groups, so neither can serve a second pass.
    pub fn run(&self, uniform_group: UniformBindGroup, texture_group: TextureBindGroup) -> (pass:
        ComputePass)
        ensures
            pass.uniform_group == uniform_group,
            pass.uniform_group_slot == 0,
            pass.texture_group == texture_group,
            pass.texture_group_slot == 1,
            pass.dispatch == spec_dispatch_call(self.state),
    {
        let dispatch: Option<DispatchCall> = match self.state {
            CloudsState::Loading => None,
            CloudsState::Init => Some(
                DispatchCall {
                    pipeline: PipelineVariant::Init,
                    workgroups_x: workgroup_count(IMAGE_SIZE),
                    workgroups_y: workgroup_count(IMAGE_SIZE),
                    workgroups_z: 1,
                },
            ),
            CloudsState::Update => Some(
                DispatchCall {
                    pipeline: PipelineVariant::Update,
                    workgroups_x: workgroup_count(IMAGE_SIZE),
                    workgroups_y: workgroup_count(IMAGE_SIZE),
                    workgroups_z: 1,
                },
            ),
        };
        ComputePass {
            uniform_group,
            uniform_group_slot: 0,
            texture_group,
            texture_group_slot: 1,
            dispatch,
        }
    }
}

/// Law: one poll never moves the node backwards.
pub proof fn lemma_advance_monotone(s: CloudsState, r: PipelineRegistry)
    ensures
        rank(spec_advance(s, r)) >= rank(s),
{
}

/// Law: no sequence of polls moves the node backwards — in particular, once
/// in `Update` it stays in `Update`, whatever the registry reports.
pub proof fn lemma_advance_seq_monotone(s: CloudsState, polls: Seq<PipelineRegistry>)
    ensures
        rank(spec_advance_seq(s, polls)) >= rank(s),
    decreases polls.len(),
{
    if polls.len() > 0 {
        lemma_advance_seq_monotone(spec_advance(s, polls.first()), polls.drop_first());
    }
}

/// Law: `Update` is terminal.
pub proof fn lemma_update_terminal(polls: Seq<PipelineRegistry>)
    ensures
        spec_advance_seq(CloudsState::Update, polls) == CloudsState::Update,
    decreases polls.len(),
{
    if polls.len() > 0 {
        lemma_update_terminal(polls.drop_first());
    }
}

/// From `Init`, one update-ready poll suffices to reach `Update`.
proof fn lemma_init_reaches_update(polls: Seq<PipelineRegistry>, j: int)
    requires
        0 <= j < polls.len(),
        polls[j].update_state is Ready,
    ensures
        spec_advance_seq(CloudsState::Init, polls) == CloudsState::Update,
    decreases polls.len(),
{
    let s1 = spec_advance(CloudsState::Init, polls.first());
    if j == 0 {
        assert(s1 == CloudsState::Update);
        lemma_update_terminal(polls.drop_first());
    } else if s1 == CloudsState::Update {
        lemma_update_terminal(polls.drop_first());
    } else {
        assert(polls.drop_first()[j - 1] == polls[j]);
        lemma_init_reaches_update(polls.drop_first(), j - 1);
    }
}

/// Law (reachability): if some poll reports the init pipeline ready and a
/// strictly later poll reports the update pipeline ready, the node reaches
/// `Update` from `Loading`.
pub proof fn lemma_reaches_update(polls: Seq<PipelineRegistry>, i: int, j: int)
    requires
        0 <= i < j < polls.len(),
        polls[i].init_state is Ready,
        polls[j].update_state is Ready,
    ensures
        spec_advance_seq(CloudsState::Loading, polls) == CloudsState::Update,
    decreases polls.len(),
{
    let s1 = spec_advance(CloudsState::Loading, polls.first());
    assert(polls.drop_first()[j - 1] == polls[j]);
    if i == 0 || s1 == CloudsState::Init {
        lemma_init_reaches_update(polls.drop_first(), j - 1);
    } else {
        assert(polls.drop_first()[i - 1] == polls[i]);
        lemma_reaches_update(polls.drop_first(), i - 1, j - 1);
    }
}

/// From `Init`, reaching `Update` takes an update-ready poll.
proof fn lemma_init_update_needs_ready(polls: Seq<PipelineRegistry>)
    requires
        spec_advance_seq(CloudsState::Init, polls) == CloudsState::Update,
    ensures
        exists|j: int|
            0 <= j < polls.len() && (#[trigger] polls[j]).update_state is Ready,
    decreases polls.len(),
{
    let s1 = spec_advance(CloudsState::Init, polls.first());
    if s1 == CloudsState::Update {
        assert(polls[0].update_state is Ready);
    } else {
        lemma_init_update_needs_ready(polls.drop_first());
        let j0 = choose|j0: int|
            0 <= j0 < polls.drop_first().len() && (#[trigger] polls.drop_first()[j0]).update_state is Ready;
        assert(polls[j0 + 1] == polls.drop_first()[j0]);
        assert(0 <= j0 + 1 < polls.len() && polls[j0 + 1].update_state is Ready);
    }
}

/// Law (necessity): the node reaches `Update` from `Loading` only if some
/// poll reported the init pipeline ready and a strictly later poll reported
/// the update pipeline ready. Together with [`lemma_reaches_update`] this is
/// an exact characterisation.
pub proof fn lemma_update_needs_both_ready(polls: Seq<PipelineRegistry>)
    requires
        spec_advance_seq(CloudsState::Loading, polls) == CloudsState::Update,
    ensures
        exists|i: int, j: int|
            0 <= i < j < polls.len() && (#[trigger] polls[i]).init_state is Ready && (
            #[trigger] polls[j]).update_state is Ready,
    decreases polls.len(),
{
    let s1 = spec_advance(CloudsState::Loading, polls.first());
    if s1 == CloudsState::Loading {
        lemma_update_needs_both_ready(polls.drop_first());
        let (i0, j0) = choose|i0: int, j0: int|
            0 <= i0 < j0 < polls.drop_first().len() && (#[trigger] polls.drop_first()[i0]).init_state is Ready && (#[trigger] polls.drop_first()[j0]).update_state is Ready;
        assert(polls[i0 + 1] == polls.drop_first()[i0]);
        assert(polls[j0 + 1] == polls.drop_first()[j0]);
        assert(0 <= i0 + 1 < j0 + 1 < polls.len() && polls[i0 + 1].init_state is Ready && polls[
            j0 + 1
        ].update_state is Ready);
    } else {
        assert(polls[0].init_state is Ready);
        lemma_init_update_needs_ready(polls.drop_first());
        let j0 = choose|j0: int|
            0 <= j0 < polls.drop_first().len() && (#[trigger] polls.drop_first()[j0]).update_state is Ready;
        assert(polls[j0 + 1] == polls.drop_first()[j0]);
        assert(0 <= 0 < j0 + 1 < polls.len() && polls[0].init_state is Ready && polls[j0
            + 1].update_state is Ready);
    }
}

/// The per-frame state sequence has one state per frame.
proof fn lemma_frame_states_len(s: CloudsState, polls: Seq<PipelineRegistry>)
    ensures
        spec_frame_states(s, polls).len() == polls.len(),
    decreases polls.len(),
{
    if polls.len() > 0 {
        lemma_frame_states_len(spec_advance(s, polls.first()), polls.drop_first());
    }
}

/// From `Update`, every frame stays in `Update`.
proof fn lemma_frame_states_update(polls: Seq<PipelineRegistry>)
    ensures
        spec_frame_states(CloudsState::Update, polls).len() == polls.len(),
        forall|k: int|
            0 <= k < polls.len() ==> spec_frame_states(CloudsState::Update, polls)[k]
                == CloudsState::Update,
    decreases polls.len(),
{
    lemma_frame_states_len(CloudsState::Update, polls);
    if polls.len() > 0 {
        assert(spec_advance(CloudsState::Update, polls.first()) == CloudsState::Update);
        lemma_frame_states_update(polls.drop_first());
        assert forall|k: int| 0 <= k < polls.len() implies spec_frame_states(
            CloudsState::Update,
            polls,
        )[k] == CloudsState::Update by {
            if k > 0 {
                assert(spec_frame_states(CloudsState::Update, polls)[k] == spec_frame_states(
                    CloudsState::Update,
                    polls.drop_first(),
                )[k - 1]);
            }
        }
    }
}

/// From `Init` with the update pipeline ready throughout, every frame is
/// already in `Update`.
proof fn lemma_frame_states_init_all_ready(polls: Seq<PipelineRegistry>)
    requires
        forall|k: int| 0 <= k < polls.len() ==> (#[trigger] polls[k]).update_state is Ready,
    ensures
        spec_frame_states(CloudsState::Init, polls).len() == polls.len(),
        forall|k: int|
            0 <= k < polls.len() ==> spec_frame_states(CloudsState::Init, polls)[k]
                == CloudsState::Update,
{
    lemma_frame_states_len(CloudsState::Init, polls);
    if polls.len() > 0 {
        assert(polls[0].update_state is Ready);
        assert(spec_advance(CloudsState::Init, polls.first()) == CloudsState::Update);
        lemma_frame_states_update(polls.drop_first());
        assert forall|k: int| 0 <= k < polls.len() implies spec_frame_states(
            CloudsState::Init,
            polls,
        )[k] == CloudsState::Update by {
            if k > 0 {
                assert(spec_frame_states(CloudsState::Init, polls)[k] == spec_frame_states(
                    CloudsState::Update,
                    polls.drop_first(),
                )[k - 1]);
            }
        }
    }
}

/// The shape of the per-frame states when the first `m` polls report the init
/// pipeline not ready and every later poll reports both pipelines ready:
/// `m` frames of `Loading`, one frame of `Init`, then `Update` forever.
proof fn lemma_frame_states_shape(polls: Seq<PipelineRegistry>, m: int)
    requires
        0 <= m <= polls.len(),
        forall|k: int| 0 <= k < m ==> !((#[trigger] polls[k]).init_state is Ready),
        forall|k: int|
            m <= k < polls.len() ==> (#[trigger] polls[k]).init_state is Ready && polls[
                k
            ].update_state is Ready,
    ensures
        spec_frame_states(CloudsState::Loading, polls).len() == polls.len(),
        forall|k: int|
            0 <= k < m ==> spec_frame_states(CloudsState::Loading, polls)[k]
                == CloudsState::Loading,
        m < polls.len() ==> spec_frame_states(CloudsState::Loading, polls)[m]
            == CloudsState::Init,
        forall|k: int|
            m < k < polls.len() ==> spec_frame_states(CloudsState::Loading, polls)[k]
                == CloudsState::Update,
    decreases polls.len(),
{
    lemma_frame_states_len(CloudsState::Loading, polls);
    if polls.len() == 0 {
    } else if m == 0 {
        assert(polls[0].init_state is Ready);
        assert(spec_advance(CloudsState::Loading, polls.first()) == CloudsState::Init);
        assert(forall|k: int|
            0 <= k < polls.drop_first().len() ==> (#[trigger] polls.drop_first()[k]).update_state is Ready) by {
            assert(forall|k: int|
                0 <= k < polls.drop_first().len() ==> polls.drop_first()[k] == polls[k + 1]);
        }
        lemma_frame_states_init_all_ready(polls.drop_first());
        assert forall|k: int| 0 < k < polls.len() implies spec_frame_states(
            CloudsState::Loading,
            polls,
        )[k] == CloudsState::Update by {
            assert(spec_frame_states(CloudsState::Loading, polls)[k] == spec_frame_states(
                CloudsState::Init,
                polls.drop_first(),
            )[k - 1]);
        }
    } else {
        assert(!(polls[0].init_state is Ready));
        assert(spec_advance(CloudsState::Loading, polls.first()) == CloudsState::Loading);
        assert(forall|k: int|
            0 <= k < polls.drop_first().len() ==> polls.drop_first()[k] == polls[k + 1]);
        lemma_frame_states_shape(polls.drop_first(), m - 1);
        assert forall|k: int| 0 < k < polls.len() implies spec_frame_states(
            CloudsState::Loading,
            polls,
        )[k] == spec_frame_states(CloudsState::Loading, polls.drop_first())[k - 1] by {}
    }
}

/// Law: while the node is `Loading` no compute work is issued; exactly one
/// frame — the first with both pipelines ready — dispatches the init grid;
/// and every frame after it dispatches the update grid, indefinitely.
pub proof fn lemma_dispatch_log_shape(polls: Seq<PipelineRegistry>, m: int)
    requires
        0 <= m <= polls.len(),
        forall|k: int| 0 <= k < m ==> !((#[trigger] polls[k]).init_state is Ready),
        forall|k: int|
            m <= k < polls.len() ==> (#[trigger] polls[k]).init_state is Ready && polls[
                k
            ].update_state is Ready,
    ensures
        spec_dispatch_log(CloudsState::Loading, polls).len() == polls.len(),
        forall|k: int|
            0 <= k < m ==> spec_dispatch_log(CloudsState::Loading, polls)[k] == Option::<
                PipelineVariant,
            >::None,
        m < polls.len() ==> spec_dispatch_log(CloudsState::Loading, polls)[m] == Option::Some(
            PipelineVariant::Init,
        ),
        forall|k: int|
            m < k < polls.len() ==> spec_dispatch_log(CloudsState::Loading, polls)[k]
                == Option::Some(PipelineVariant::Update),
{
    lemma_frame_states_shape(polls, m);
}

} // verus!
