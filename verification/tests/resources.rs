//! Tests of the workgroup grid, the texture resource set, the pipeline and
//! bind-group layouts, and the render-graph ordering plan.

use clouds_core::bind_groups::{
    prepare_textures_bind_group, prepare_uniforms_bind_group, CloudsImageKind,
};
use clouds_core::graph::{NodeLabel, RenderGraphPlan};
use clouds_core::images::{build_images, TextureDimension, TextureFormat, IMAGE_SIZE};
use clouds_core::node::workgroup_count;
use clouds_core::pipeline::{BindGroupLayoutKind, CloudsPipeline, PipelineVariant};

#[test]
fn workgroup_grid_is_exact_for_multiples_of_eight() {
    assert_eq!(workgroup_count(1920), 240);
    assert_eq!(workgroup_count(8), 1);
    assert_eq!(workgroup_count(1080), 135);
    assert_eq!(IMAGE_SIZE, 1920);
}

#[test]
fn workgroup_grid_ceiling_covers_non_multiples() {
    assert_eq!(workgroup_count(1921), 241);
    assert_eq!(workgroup_count(1), 1);
    assert_eq!(workgroup_count(7), 1);
    assert_eq!(workgroup_count(9), 2);
    for dim in [1u32, 7, 8, 9, 63, 64, 65, 1919, 1920, 1921] {
        let n = workgroup_count(dim);
        assert!(8 * n >= dim, "grid covers dim {dim}");
        assert!(8 * (n - 1) < dim, "no spare workgroup for dim {dim}");
    }
}

#[test]
fn image_set_has_the_four_fixed_descriptors() {
    let (render, atlas, noise, sky) = build_images();

    assert_eq!(render.width, 1920);
    assert_eq!(render.height, 1080);
    assert_eq!(render.depth_or_array_layers, 1);
    assert_eq!(render.dimension, TextureDimension::D2);

    assert_eq!(atlas.width, IMAGE_SIZE);
    assert_eq!(atlas.height, IMAGE_SIZE);
    assert_eq!(atlas.dimension, TextureDimension::D2);

    assert_eq!(noise.width, 32);
    assert_eq!(noise.height, 32);
    assert_eq!(noise.depth_or_array_layers, 32);
    assert_eq!(noise.dimension, TextureDimension::D3);

    assert_eq!(sky.width, 1920);
    assert_eq!(sky.height, 1080);
    assert_eq!(sky.dimension, TextureDimension::D2);

    for spec in [render, atlas, noise, sky] {
        assert_eq!(spec.format, TextureFormat::Rgba32Float);
        assert!(spec.usage.copy_dst);
        assert!(spec.usage.storage_binding);
        assert!(spec.usage.texture_binding);
    }
}

#[test]
fn pipeline_set_compiles_two_variants_against_shared_layouts() {
    let p = CloudsPipeline::new();
    assert_eq!(p.uniform_bind_group_layout.binding, 0);
    assert_eq!(p.texture_bind_group_layout.render_buffer.binding, 0);
    assert_eq!(p.texture_bind_group_layout.atlas.binding, 1);
    assert_eq!(p.texture_bind_group_layout.noise_volume.binding, 2);
    assert_eq!(p.texture_bind_group_layout.sky_buffer.binding, 3);
    assert_eq!(
        p.texture_bind_group_layout.noise_volume.dimension,
        TextureDimension::D3
    );

    assert_eq!(p.init_pipeline.entry_point, PipelineVariant::Init);
    assert_eq!(p.update_pipeline.entry_point, PipelineVariant::Update);
    for variant in [p.init_pipeline, p.update_pipeline] {
        assert_eq!(variant.group0, BindGroupLayoutKind::Uniforms);
        assert_eq!(variant.group1, BindGroupLayoutKind::Textures);
    }
}

#[test]
fn bind_groups_bind_the_images_in_sequential_slots() {
    let p = CloudsPipeline::new();
    let uniforms = prepare_uniforms_bind_group(&p.uniform_bind_group_layout);
    assert_eq!(uniforms.binding, 0);

    let textures = prepare_textures_bind_group(&p.texture_bind_group_layout);
    assert_eq!(textures.render_buffer.binding, 0);
    assert_eq!(textures.render_buffer.image, CloudsImageKind::RenderBuffer);
    assert_eq!(textures.atlas.binding, 1);
    assert_eq!(textures.atlas.image, CloudsImageKind::Atlas);
    assert_eq!(textures.noise_volume.binding, 2);
    assert_eq!(textures.noise_volume.image, CloudsImageKind::NoiseVolume);
    assert_eq!(textures.sky_buffer.binding, 3);
    assert_eq!(textures.sky_buffer.image, CloudsImageKind::SkyBuffer);
}

#[test]
fn clouds_node_is_registered_before_the_camera_draw() {
    let mut plan = RenderGraphPlan::new();
    plan.register_clouds_node();
    assert_eq!(plan.nodes, vec![NodeLabel::CloudsCompute]);
    assert_eq!(
        plan.edges,
        vec![(NodeLabel::CloudsCompute, NodeLabel::MainCameraDraw)]
    );
}
