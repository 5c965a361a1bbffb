//! The compute-pipeline registry model.
//!
//! One shader module is compiled into two pipeline variants — the one-time
//! "init" pass and the per-frame "update" pass — both bound against the same
//! two bind-group layouts in a fixed order: the uniform block in group 0, the
//! four storage textures in group 1. Compilation runs asynchronously on the
//! device; the host polls it and hands the per-variant answers to the
//! scheduling node as a [`PipelineRegistry`] snapshot each frame.

use vstd::prelude::*;

use crate::images::TextureDimension;

verus! {

/// The two compiled variants of the cloud compute shader.
#[derive(Clone, Copy, PartialEq, Eq, Structural, Debug)]
pub enum PipelineVariant {
    /// One-time full population of the atlas and noise volume.
    Init,
    /// Per-frame incremental refresh.
    Update,
}

/// What the device reports about one pipeline's compilation.
///
/// `Failed` is terminal: there is no retry, and the scheduling node treats it
/// like `Pending`, so the clouds simply never appear.
#[derive(Clone, Copy, PartialEq, Eq, Structural, Debug)]
pub enum CompilationState {
    Pending,
    Ready,
    Failed,
}

/// The two bind-group layouts every variant is compiled against, by their
/// fixed group slots.
#[derive(Clone, Copy, PartialEq, Eq, Structural, Debug)]
pub enum BindGroupLayoutKind {
    /// Group 0: the single uniform buffer binding.
    Uniforms,
    /// Group 1: the four storage-texture bindings.
    Textures,
}

/// One entry of the texture bind-group layout: a storage texture at a fixed
/// binding slot.
#[derive(Clone, Copy, PartialEq, Eq, Structural, Debug)]
pub struct TextureLayoutEntry {
    /// Binding slot inside group 1.
    pub binding: u32,
    /// Texture dimensionality of the bound image.
    pub dimension: TextureDimension,
}

/// The layout of bind group 1: the four images in their fixed sequential
/// slots.
#[derive(Clone, Copy, PartialEq, Eq, Structural, Debug)]
pub struct TextureBindGroupLayout {
    pub render_buffer: TextureLayoutEntry,
    pub atlas: TextureLayoutEntry,
    pub noise_volume: TextureLayoutEntry,
    pub sky_buffer: TextureLayoutEntry,
}

/// The layout of bind group 0: one uniform-buffer binding.
#[derive(Clone, Copy, PartialEq, Eq, Structural, Debug)]
pub struct UniformBindGroupLayout {
    /// Binding slot inside group 0.
    pub binding: u32,
}

/// The descriptor of one compute pipeline variant: its shader entry point and
/// the bind-group layouts, in slot order.
#[derive(Clone, Copy, PartialEq, Eq, Structural, Debug)]
pub struct ComputePipelineSpec {
    pub entry_point: PipelineVariant,
    /// Layout of group 0.
    pub group0: BindGroupLayoutKind,
    /// Layout of group 1.
    pub group1: BindGroupLayoutKind,
}

/// The pipeline set: both layouts and both variant descriptors.
#[derive(Clone, Copy, PartialEq, Eq, Structural, Debug)]
pub struct CloudsPipeline {
    pub uniform_bind_group_layout: UniformBindGroupLayout,
    pub texture_bind_group_layout: TextureBindGroupLayout,
    pub init_pipeline: ComputePipelineSpec,
    pub update_pipeline: ComputePipelineSpec,
}

impl CloudsPipeline {
    /// The one valid pipeline set: the uniform binding at slot 0; the four
    /// textures at slots 0 to 3 in resource order, the noise volume
    /// three-dimensional and the others two-dimensional; and both variants
    /// compiled against (uniforms, textures) with their own entry point.
    pub open spec fn wf(self) -> bool {
        &&& self.uniform_bind_group_layout.binding == 0
        &&& self.texture_bind_group_layout.render_buffer == TextureLayoutEntry {
            binding: 0,
            dimension: TextureDimension::D2,
        }
        &&& self.texture_bind_group_layout.atlas == TextureLayoutEntry {
            binding: 1,
            dimension: TextureDimension::D2,
        }
        &&& self.texture_bind_group_layout.noise_volume == TextureLayoutEntry {
            binding: 2,
            dimension: TextureDimension::D3,
        }
        &&& self.texture_bind_group_layout.sky_buffer == TextureLayoutEntry {
            binding: 3,
            dimension: TextureDimension::D2,
        }
        &&& self.init_pipeline == ComputePipelineSpec {
            entry_point: PipelineVariant::Init,
            group0: BindGroupLayoutKind::Uniforms,
            group1: BindGroupLayoutKind::Textures,
        }
        &&& self.update_pipeline == ComputePipelineSpec {
            entry_point: PipelineVariant::Update,
            group0: BindGroupLayoutKind::Uniforms,
            group1: BindGroupLayoutKind::Textures,
        }
    }

    /// Builds the pipeline set that the host queues for compilation.
    pub fn new() -> (p: CloudsPipeline)
        ensures
            p.wf(),
    {
        CloudsPipeline {
            uniform_bind_group_layout: UniformBindGroupLayout { binding: 0 },
            texture_bind_group_layout: TextureBindGroupLayout {
                render_buffer: TextureLayoutEntry {
                    binding: 0,
                    dimension: TextureDimension::D2,
                },
                atlas: TextureLayoutEntry { binding: 1, dimension: TextureDimension::D2 },
                noise_volume: TextureLayoutEntry {
                    binding: 2,
                    dimension: TextureDimension::D3,
                },
                sky_buffer: TextureLayoutEntry { binding: 3, dimension: TextureDimension::D2 },
            },
            init_pipeline: ComputePipelineSpec {
                entry_point: PipelineVariant::Init,
                group0: BindGroupLayoutKind::Uniforms,
                group1: BindGroupLayoutKind::Textures,
            },
            update_pipeline: ComputePipelineSpec {
                entry_point: PipelineVariant::Update,
                group0: BindGroupLayoutKind::Uniforms,
                group1: BindGroupLayoutKind::Textures,
            },
        }
    }
}

/// One frame's poll of the device's pipeline cache: the compilation state of
/// each variant. Injectable, so the scheduling node can be driven without a
/// device.
#[derive(Clone, Copy, PartialEq, Eq, Structural, Debug)]
pub struct PipelineRegistry {
    pub init_state: CompilationState,
    pub update_state: CompilationState,
}

impl PipelineRegistry {
    /// A snapshot with the given per-variant states.
    pub open spec fn spec_new(
        init_state: CompilationState,
        update_state: CompilationState,
    ) -> PipelineRegistry {
        PipelineRegistry { init_state, update_state }
    }

    /// Builds a snapshot with the given per-variant states.
    #[verifier::when_used_as_spec(spec_new)]
    pub fn new(init_state: CompilationState, update_state: CompilationState) -> (r:
        PipelineRegistry)
        ensures
            r == PipelineRegistry::spec_new(init_state, update_state),
    {
        PipelineRegistry { init_state, update_state }
    }

    /// The compilation state the snapshot reports for one variant.
    pub open spec fn spec_compilation_state(self, v: PipelineVariant) -> CompilationState {
        match v {
            PipelineVariant::Init => self.init_state,
            PipelineVariant::Update => self.update_state,
        }
    }

    /// Queries the compilation state of one variant.
    pub fn compilation_state(&self, v: PipelineVariant) -> (s: CompilationState)
        ensures
            s == self.spec_compilation_state(v),
    {
        match v {
            PipelineVariant::Init => self.init_state,
            PipelineVariant::Update => self.update_state,
        }
    }
}

} // verus!
