//! The texture resource set.
//!
//! Four GPU images, allocated once at startup and never resized: the
//! full-resolution render buffer, the square persistent atlas, the 3-D noise
//! volume, and the full-resolution sky buffer. All share a 4-channel
//! 32-bit-float format and support storage read/write, sampling, and copy
//! destination — the compute dispatch writes them, the skybox material
//! samples them.

use vstd::prelude::*;

verus! {

/// Side length of the square atlas texture.
pub const IMAGE_SIZE: u32 = 1920;

/// Width of the render and sky buffers.
pub const RENDER_WIDTH: u32 = 1920;

/// Height of the render and sky buffers.
pub const RENDER_HEIGHT: u32 = 1080;

/// Side length of the cubic noise volume.
pub const NOISE_VOLUME_SIZE: u32 = 32;

/// Texture dimensionality.
#[derive(Clone, Copy, PartialEq, Eq, Structural, Debug)]
pub enum TextureDimension {
    D2,
    D3,
}

/// Texel format. The whole resource set uses one format, fixed by the wire
/// contract with the shader.
#[derive(Clone, Copy, PartialEq, Eq, Structural, Debug)]
pub enum TextureFormat {
    Rgba32Float,
}

/// Usage flags requested for an image.
#[derive(Clone, Copy, PartialEq, Eq, Structural, Debug)]
pub struct TextureUsage {
    /// May be the destination of a copy.
    pub copy_dst: bool,
    /// May be bound as a read/write storage texture.
    pub storage_binding: bool,
    /// May be bound for sampling.
    pub texture_binding: bool,
}

/// The descriptor of one image in the resource set.
#[derive(Clone, Copy, PartialEq, Eq, Structural, Debug)]
pub struct ImageSpec {
    pub width: u32,
    pub height: u32,
    pub depth_or_array_layers: u32,
    pub dimension: TextureDimension,
    pub format: TextureFormat,
    pub usage: TextureUsage,
}

/// The usage every image in the set is created with.
pub open spec fn spec_shared_usage() -> TextureUsage {
    TextureUsage { copy_dst: true, storage_binding: true, texture_binding: true }
}

/// The full-resolution 2-D render buffer.
pub open spec fn spec_render_image() -> ImageSpec {
    ImageSpec {
        width: RENDER_WIDTH,
        height: RENDER_HEIGHT,
        depth_or_array_layers: 1,
        dimension: TextureDimension::D2,
        format: TextureFormat::Rgba32Float,
        usage: spec_shared_usage(),
    }
}

/// The square persistent 2-D atlas.
pub open spec fn spec_atlas_image() -> ImageSpec {
    ImageSpec {
        width: IMAGE_SIZE,
        height: IMAGE_SIZE,
        depth_or_array_layers: 1,
        dimension: TextureDimension::D2,
        format: TextureFormat::Rgba32Float,
        usage: spec_shared_usage(),
    }
}

/// The cubic 3-D noise volume.
pub open spec fn spec_noise_volume_image() -> ImageSpec {
    ImageSpec {
        width: NOISE_VOLUME_SIZE,
        height: NOISE_VOLUME_SIZE,
        depth_or_array_layers: NOISE_VOLUME_SIZE,
        dimension: TextureDimension::D3,
        format: TextureFormat::Rgba32Float,
        usage: spec_shared_usage(),
    }
}

/// The full-resolution 2-D sky buffer.
pub open spec fn spec_sky_image() -> ImageSpec {
    ImageSpec {
        width: RENDER_WIDTH,
        height: RENDER_HEIGHT,
        depth_or_array_layers: 1,
        dimension: TextureDimension::D2,
        format: TextureFormat::Rgba32Float,
        usage: spec_shared_usage(),
    }
}

/// Builds the four image descriptors, in resource order: render buffer,
/// atlas, noise volume, sky buffer. The host allocates the actual GPU images
/// from these, once, before the first frame.
pub fn build_images() -> (r: (ImageSpec, ImageSpec, ImageSpec, ImageSpec))
    ensures
        r.0 == spec_render_image(),
        r.1 == spec_atlas_image(),
        r.2 == spec_noise_volume_image(),
        r.3 == spec_sky_image(),
{
    let shared = TextureUsage { copy_dst: true, storage_binding: true, texture_binding: true };
    let render = ImageSpec {
        width: RENDER_WIDTH,
        height: RENDER_HEIGHT,
        depth_or_array_layers: 1,
        dimension: TextureDimension::D2,
        format: TextureFormat::Rgba32Float,
        usage: shared,
    };
    let atlas = ImageSpec {
        width: IMAGE_SIZE,
        height: IMAGE_SIZE,
        depth_or_array_layers: 1,
        dimension: TextureDimension::D2,
        format: TextureFormat::Rgba32Float,
        usage: shared,
    };
    let noise = ImageSpec {
        width: NOISE_VOLUME_SIZE,
        height: NOISE_VOLUME_SIZE,
        depth_or_array_layers: NOISE_VOLUME_SIZE,
        dimension: TextureDimension::D3,
        format: TextureFormat::Rgba32Float,
        usage: shared,
    };
    let sky = ImageSpec {
        width: RENDER_WIDTH,
        height: RENDER_HEIGHT,
        depth_or_array_layers: 1,
        dimension: TextureDimension::D2,
        format: TextureFormat::Rgba32Float,
        usage: shared,
    };
    (render, atlas, noise, sky)
}

} // verus!
