//! The per-frame bind groups.
//!
//! Both groups are rebuilt from scratch every frame, because the uniform
//! buffer's backing storage may have been re-uploaded; a bind group from an
//! earlier frame must never reach a dispatch. The builders here return the
//! groups by value and [`crate::node::CloudsNode::run`] consumes them by
//! value, so a group can enter at most one compute pass.

use vstd::prelude::*;

use crate::pipeline::{TextureBindGroupLayout, UniformBindGroupLayout};

verus! {

/// The four images of the resource set, by name.
#[derive(Clone, Copy, PartialEq, Eq, Structural, Debug)]
pub enum CloudsImageKind {
    RenderBuffer,
    Atlas,
    NoiseVolume,
    SkyBuffer,
}

/// One entry of the texture bind group: an image at a binding slot.
#[derive(Clone, Copy, PartialEq, Eq, Structural, Debug)]
pub struct TextureBindGroupEntry {
    pub binding: u32,
    pub image: CloudsImageKind,
}

/// Bind group 1: the four images, bound in their fixed sequential slots.
#[derive(Clone, Copy, PartialEq, Eq, Structural, Debug)]
pub struct TextureBindGroup {
    pub render_buffer: TextureBindGroupEntry,
    pub atlas: TextureBindGroupEntry,
    pub noise_volume: TextureBindGroupEntry,
    pub sky_buffer: TextureBindGroupEntry,
}

/// Bind group 0: the single uniform-buffer binding.
#[derive(Clone, Copy, PartialEq, Eq, Structural, Debug)]
pub struct UniformBindGroup {
    pub binding: u32,
}

/// Builds this frame's uniform bind group against the given layout.
pub fn prepare_uniforms_bind_group(layout: &UniformBindGroupLayout) -> (g: UniformBindGroup)
    ensures
        g.binding == layout.binding,
{
    UniformBindGroup { binding: layout.binding }
}

/// Builds this frame's texture bind group: each image at its layout's slot,
/// in resource order — render buffer, atlas, noise volume, sky buffer.
pub fn prepare_textures_bind_group(layout: &TextureBindGroupLayout) -> (g: TextureBindGroup)
    ensures
        g.render_buffer == (TextureBindGroupEntry {
            binding: layout.render_buffer.binding,
            image: CloudsImageKind::RenderBuffer,
        }),
        g.atlas == (TextureBindGroupEntry {
            binding: layout.atlas.binding,
            image: CloudsImageKind::Atlas,
        }),
        g.noise_volume == (TextureBindGroupEntry {
            binding: layout.noise_volume.binding,
            image: CloudsImageKind::NoiseVolume,
        }),
        g.sky_buffer == (TextureBindGroupEntry {
            binding: layout.sky_buffer.binding,
            image: CloudsImageKind::SkyBuffer,
        }),
{
    TextureBindGroup {
        render_buffer: TextureBindGroupEntry {
            binding: layout.render_buffer.binding,
            image: CloudsImageKind::RenderBuffer,
        },
        atlas: TextureBindGroupEntry {
            binding: layout.atlas.binding,
            image: CloudsImageKind::Atlas,
        },
        noise_volume: TextureBindGroupEntry {
            binding: layout.noise_volume.binding,
            image: CloudsImageKind::NoiseVolume,
        },
        sky_buffer: TextureBindGroupEntry {
            binding: layout.sky_buffer.binding,
            image: CloudsImageKind::SkyBuffer,
        },
    }
}

} // verus!
