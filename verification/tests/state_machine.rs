//! Tests of the compute scheduling state machine and its dispatch decisions.

use clouds_core::bind_groups::{prepare_textures_bind_group, prepare_uniforms_bind_group};
use clouds_core::node::{CloudsNode, CloudsState, ComputePass, DispatchCall};
use clouds_core::pipeline::{
    CloudsPipeline, CompilationState, PipelineRegistry, PipelineVariant,
};

fn run_one_frame(node: &mut CloudsNode, init: CompilationState, update: CompilationState) -> ComputePass {
    let pipeline = CloudsPipeline::new();
    let registry = PipelineRegistry::new(init, update);
    let uniforms = prepare_uniforms_bind_group(&pipeline.uniform_bind_group_layout);
    let textures = prepare_textures_bind_group(&pipeline.texture_bind_group_layout);
    node.run_frame(&registry, uniforms, textures)
}

#[test]
fn starts_loading_and_dispatches_nothing() {
    let mut node = CloudsNode::default();
    assert_eq!(node.state, CloudsState::Loading);
    let pass = run_one_frame(&mut node, CompilationState::Pending, CompilationState::Pending);
    assert_eq!(node.state, CloudsState::Loading);
    assert!(pass.dispatch.is_none());
}

#[test]
fn reaches_update_when_both_ready() {
    let mut node = CloudsNode::default();
    let pass1 = run_one_frame(&mut node, CompilationState::Ready, CompilationState::Ready);
    assert_eq!(node.state, CloudsState::Init);
    assert_eq!(pass1.dispatch.map(|d| d.pipeline), Some(PipelineVariant::Init));
    let pass2 = run_one_frame(&mut node, CompilationState::Ready, CompilationState::Ready);
    assert_eq!(node.state, CloudsState::Update);
    assert_eq!(pass2.dispatch.map(|d| d.pipeline), Some(PipelineVariant::Update));
}

#[test]
fn never_reaches_update_while_a_pipeline_is_not_ready() {
    let mut node = CloudsNode::default();
    for _ in 0..50 {
        run_one_frame(&mut node, CompilationState::Pending, CompilationState::Ready);
        assert_eq!(node.state, CloudsState::Loading);
    }
    for _ in 0..50 {
        run_one_frame(&mut node, CompilationState::Failed, CompilationState::Failed);
        assert_eq!(node.state, CloudsState::Loading);
    }
}

#[test]
fn never_regresses_from_update() {
    let mut node = CloudsNode::default();
    run_one_frame(&mut node, CompilationState::Ready, CompilationState::Ready);
    run_one_frame(&mut node, CompilationState::Ready, CompilationState::Ready);
    assert_eq!(node.state, CloudsState::Update);
    let reports = [
        CompilationState::Pending,
        CompilationState::Failed,
        CompilationState::Ready,
    ];
    for &init in reports.iter() {
        for &update in reports.iter() {
            let pass = run_one_frame(&mut node, init, update);
            assert_eq!(node.state, CloudsState::Update);
            assert_eq!(pass.dispatch.map(|d| d.pipeline), Some(PipelineVariant::Update));
        }
    }
}

#[test]
fn init_grid_dispatched_exactly_once() {
    // Three frames of pending compilation, then both pipelines ready forever:
    // the dispatch log is None, None, None, Init, Update, Update, ...
    let mut node = CloudsNode::default();
    let mut log: Vec<Option<PipelineVariant>> = Vec::new();
    for frame in 0..10 {
        let (init, update) = if frame < 3 {
            (CompilationState::Pending, CompilationState::Pending)
        } else {
            (CompilationState::Ready, CompilationState::Ready)
        };
        let pass = run_one_frame(&mut node, init, update);
        log.push(pass.dispatch.map(|d| d.pipeline));
    }
    let init_dispatches = log
        .iter()
        .filter(|d| **d == Some(PipelineVariant::Init))
        .count();
    assert_eq!(init_dispatches, 1);
    assert_eq!(log[0], None);
    assert_eq!(log[1], None);
    assert_eq!(log[2], None);
    assert_eq!(log[3], Some(PipelineVariant::Init));
    for frame in 4..10 {
        assert_eq!(log[frame], Some(PipelineVariant::Update));
    }
}

#[test]
fn pass_binds_groups_at_fixed_slots() {
    let mut node = CloudsNode::default();
    let pass = run_one_frame(&mut node, CompilationState::Pending, CompilationState::Pending);
    assert_eq!(pass.uniform_group_slot, 0);
    assert_eq!(pass.texture_group_slot, 1);
    assert_eq!(pass.uniform_group.binding, 0);
}

#[test]
fn dispatch_covers_the_atlas_grid() {
    let mut node = CloudsNode::default();
    run_one_frame(&mut node, CompilationState::Ready, CompilationState::Pending);
    assert_eq!(node.state, CloudsState::Init);
    let pass = run_one_frame(&mut node, CompilationState::Ready, CompilationState::Pending);
    // The update pipeline still is not ready, so the init pass runs again.
    let d: DispatchCall = pass.dispatch.expect("init state dispatches");
    assert_eq!(d.pipeline, PipelineVariant::Init);
    assert_eq!(d.workgroups_x, 240);
    assert_eq!(d.workgroups_y, 240);
    assert_eq!(d.workgroups_z, 1);
}
