//! The user-facing cloud configuration.
//!
//! Callers may overwrite any field at any time; the core reads the whole
//! configuration once per frame and copies it into the uniform block. No field
//! is validated here — out-of-range values propagate numerically into the
//! shader, which is tolerant of them.
//!
//! Scalar fields are raw 32-bit patterns (see [`crate::scalar`]); the wind
//! velocity, which the core multiplies by the frame delta, is exact
//! fixed-point in micro-units per second.

use vstd::prelude::*;

use crate::scalar::{ScalarBits, Vec2Bits, Vec4Bits};

verus! {

/// Wind velocity in fixed-point micro-units per second per axis.
#[derive(Clone, Copy, PartialEq, Eq, Structural, Debug)]
pub struct WindVelocity {
    pub x: i32,
    pub y: i32,
    pub z: i32,
}

// Default bit patterns, each the single-precision value named beside it.
/// 6_371_000.0 — an Earth-like planet radius in meters.
pub const DEFAULT_PLANET_RADIUS_BITS: u32 = 0x4AC2_6D70;

/// 1250.0 — height of the bottom of the cloud layer.
pub const DEFAULT_BOTTOM_HEIGHT_BITS: u32 = 0x449C_4000;

/// 2400.0 — height of the top of the cloud layer.
pub const DEFAULT_TOP_HEIGHT_BITS: u32 = 0x4516_0000;

/// 0.5 — half overcast.
pub const DEFAULT_COVERAGE_BITS: u32 = 0x3F00_0000;

/// 0.27 — detail-noise erosion strength.
pub const DEFAULT_DETAIL_STRENGTH_BITS: u32 = 0x3E8A_3D71;

/// 0.1 — edge softness.
pub const DEFAULT_BASE_EDGE_SOFTNESS_BITS: u32 = 0x3DCC_CCCD;

/// 0.25 — bottom softness.
pub const DEFAULT_BOTTOM_SOFTNESS_BITS: u32 = 0x3E80_0000;

/// 0.03 — cloud density.
pub const DEFAULT_DENSITY_BITS: u32 = 0x3CF5_C28F;

/// 10.0 — shadow raymarch step size.
pub const DEFAULT_SHADOW_STEP_SIZE_BITS: u32 = 0x4120_0000;

/// 1.3 — shadow raymarch step multiplier.
pub const DEFAULT_SHADOW_STEP_MULTIPLY_BITS: u32 = 0x3FA6_6666;

/// 0.8 — forward scattering lobe factor.
pub const DEFAULT_FORWARD_SCATTERING_BITS: u32 = 0x3F4C_CCCD;

/// -0.2 — backward scattering lobe factor.
pub const DEFAULT_BACKWARD_SCATTERING_BITS: u32 = 0xBE4C_CCCD;

/// 0.5 — blend between the two scattering lobes.
pub const DEFAULT_SCATTERING_LERP_BITS: u32 = 0x3F00_0000;

/// 0.99333334 — red of the ambient color at the top of the layer.
pub const DEFAULT_AMBIENT_TOP_R_BITS: u32 = 0x3F7E_4B18;

/// 1.1133333 — green of the ambient color at the top of the layer.
pub const DEFAULT_AMBIENT_TOP_G_BITS: u32 = 0x3F8E_81B5;

/// 1.3333334 — blue of the ambient color at the top of the layer.
pub const DEFAULT_AMBIENT_TOP_B_BITS: u32 = 0x3FAA_AAAB;

/// 0.26 — red of the ambient color at the bottom of the layer.
pub const DEFAULT_AMBIENT_BOTTOM_R_BITS: u32 = 0x3E85_1EB9;

/// 0.44666668 — green of the ambient color at the bottom of the layer.
pub const DEFAULT_AMBIENT_BOTTOM_G_BITS: u32 = 0x3EE4_B17F;

/// 0.58 — blue of the ambient color at the bottom of the layer.
pub const DEFAULT_AMBIENT_BOTTOM_B_BITS: u32 = 0x3F14_7AE2;

/// 0.1 — minimum transmittance before a ray is discarded.
pub const DEFAULT_MIN_TRANSMITTANCE_BITS: u32 = 0x3DCC_CCCD;

/// 1.5 — base noise scale.
pub const DEFAULT_BASE_SCALE_BITS: u32 = 0x3FC0_0000;

/// 42.0 — detail noise scale.
pub const DEFAULT_DETAIL_SCALE_BITS: u32 = 0x4228_0000;

/// -0.6133511 — x of the normalized default sun direction.
pub const DEFAULT_SUN_DIR_X_BITS: u32 = 0xBF1D_0494;

/// 0.43810794 — y of the normalized default sun direction.
pub const DEFAULT_SUN_DIR_Y_BITS: u32 = 0x3EE0_4FAF;

/// 0.6571619 — z of the normalized default sun direction.
pub const DEFAULT_SUN_DIR_Z_BITS: u32 = 0x3F28_3BC3;

/// 1.4 — red and alpha of the default HDR sun color.
pub const DEFAULT_SUN_COLOR_R_BITS: u32 = 0x3FB3_3333;

/// 1.26 — green of the default HDR sun color.
pub const DEFAULT_SUN_COLOR_G_BITS: u32 = 0x3FA1_47AE;

/// 1.19 — blue of the default HDR sun color.
pub const DEFAULT_SUN_COLOR_B_BITS: u32 = 0x3F98_51EC;

/// 0.95 — reprojection blend strength.
pub const DEFAULT_REPROJECTION_STRENGTH_BITS: u32 = 0x3F73_3333;

/// 1920.0 — render target width.
pub const DEFAULT_RENDER_WIDTH_BITS: u32 = 0x44F0_0000;

/// 1080.0 — render target height.
pub const DEFAULT_RENDER_HEIGHT_BITS: u32 = 0x4487_0000;

/// -1.1 units per second: default wind velocity along x, in micro-units.
pub const DEFAULT_WIND_X_MICRO: i32 = -1_100_000;

/// 0.0 units per second: default wind velocity along y, in micro-units.
pub const DEFAULT_WIND_Y_MICRO: i32 = 0;

/// 2.3 units per second: default wind velocity along z, in micro-units.
pub const DEFAULT_WIND_Z_MICRO: i32 = 2_300_000;

/// The configuration that drives the cloud compute shader.
///
/// The field order mirrors the uniform block's copy targets; see
/// [`crate::uniform::CloudsUniform`].
#[derive(Clone, Copy, PartialEq, Eq, Structural, Debug)]
pub struct CloudsConfig {
    /// Number of raymarching steps; more steps reduce noise.
    pub clouds_raymarch_steps_count: u32,
    /// Number of raymarching steps for shadowing.
    pub clouds_shadow_raymarch_steps_count: u32,
    /// Radius of the planet the cloud layer encompasses.
    pub planet_radius: ScalarBits,
    /// Height of the bottom of the cloud layer.
    pub clouds_bottom_height: ScalarBits,
    /// Height of the top of the cloud layer.
    pub clouds_top_height: ScalarBits,
    /// 0.0 means fair weather, 1.0 full overcast.
    pub clouds_coverage: ScalarBits,
    /// How much detail noise erodes the base cloud shape.
    pub clouds_detail_strength: ScalarBits,
    /// Softness of the cloud edges.
    pub clouds_base_edge_softness: ScalarBits,
    /// Softness of the bottom of the clouds.
    pub clouds_bottom_softness: ScalarBits,
    /// Cloud density between 0.0 and 1.0.
    pub clouds_density: ScalarBits,
    /// Step size of the shadow raymarch.
    pub clouds_shadow_raymarch_step_size: ScalarBits,
    /// Exponential step-size multiplier of the shadow raymarch.
    pub clouds_shadow_raymarch_step_multiply: ScalarBits,
    /// Scattering factor of the forward lobe.
    pub forward_scattering_g: ScalarBits,
    /// Scattering factor of the backward lobe.
    pub backward_scattering_g: ScalarBits,
    /// Blend factor between the two scattering lobes.
    pub scattering_lerp: ScalarBits,
    /// Ambient light color at the top of the layer.
    pub clouds_ambient_color_top: Vec4Bits,
    /// Ambient light color at the bottom of the layer.
    pub clouds_ambient_color_bottom: Vec4Bits,
    /// Rays below this transmittance are discarded.
    pub clouds_min_transmittance: ScalarBits,
    /// Overall scale of the clouds.
    pub clouds_base_scale: ScalarBits,
    /// Scale of the detail inside the clouds.
    pub clouds_detail_scale: ScalarBits,
    /// Direction towards the sun; the fourth component is unused.
    pub sun_dir: Vec4Bits,
    /// HDR color of the sun.
    pub sun_color: Vec4Bits,
    /// Reprojection blend strength: 0.0 keeps only the current frame.
    pub reprojection_strength: ScalarBits,
    /// Whether the interactive configuration panel is shown.
    pub ui_visible: bool,
    /// Resolution of the render target.
    pub render_resolution: Vec2Bits,
    /// Wind velocity, fixed-point micro-units per second.
    pub wind_velocity: WindVelocity,
}

impl CloudsConfig {
    /// The default configuration, value by value.
    pub open spec fn spec_default() -> CloudsConfig {
        CloudsConfig {
            clouds_raymarch_steps_count: 12,
            clouds_shadow_raymarch_steps_count: 6,
            planet_radius: ScalarBits { bits: DEFAULT_PLANET_RADIUS_BITS },
            clouds_bottom_height: ScalarBits { bits: DEFAULT_BOTTOM_HEIGHT_BITS },
            clouds_top_height: ScalarBits { bits: DEFAULT_TOP_HEIGHT_BITS },
            clouds_coverage: ScalarBits { bits: DEFAULT_COVERAGE_BITS },
            clouds_detail_strength: ScalarBits { bits: DEFAULT_DETAIL_STRENGTH_BITS },
            clouds_base_edge_softness: ScalarBits { bits: DEFAULT_BASE_EDGE_SOFTNESS_BITS },
            clouds_bottom_softness: ScalarBits { bits: DEFAULT_BOTTOM_SOFTNESS_BITS },
            clouds_density: ScalarBits { bits: DEFAULT_DENSITY_BITS },
            clouds_shadow_raymarch_step_size: ScalarBits { bits: DEFAULT_SHADOW_STEP_SIZE_BITS },
            clouds_shadow_raymarch_step_multiply: ScalarBits {
                bits: DEFAULT_SHADOW_STEP_MULTIPLY_BITS,
            },
            forward_scattering_g: ScalarBits { bits: DEFAULT_FORWARD_SCATTERING_BITS },
            backward_scattering_g: ScalarBits { bits: DEFAULT_BACKWARD_SCATTERING_BITS },
            scattering_lerp: ScalarBits { bits: DEFAULT_SCATTERING_LERP_BITS },
            clouds_ambient_color_top: Vec4Bits::spec_new(
                DEFAULT_AMBIENT_TOP_R_BITS,
                DEFAULT_AMBIENT_TOP_G_BITS,
                DEFAULT_AMBIENT_TOP_B_BITS,
                crate::scalar::ZERO_BITS,
            ),
            clouds_ambient_color_bottom: Vec4Bits::spec_new(
                DEFAULT_AMBIENT_BOTTOM_R_BITS,
                DEFAULT_AMBIENT_BOTTOM_G_BITS,
                DEFAULT_AMBIENT_BOTTOM_B_BITS,
                crate::scalar::ZERO_BITS,
            ),
            clouds_min_transmittance: ScalarBits { bits: DEFAULT_MIN_TRANSMITTANCE_BITS },
            clouds_base_scale: ScalarBits { bits: DEFAULT_BASE_SCALE_BITS },
            clouds_detail_scale: ScalarBits { bits: DEFAULT_DETAIL_SCALE_BITS },
            sun_dir: Vec4Bits::spec_new(
                DEFAULT_SUN_DIR_X_BITS,
                DEFAULT_SUN_DIR_Y_BITS,
                DEFAULT_SUN_DIR_Z_BITS,
                crate::scalar::ZERO_BITS,
            ),
            sun_color: Vec4Bits::spec_new(
                DEFAULT_SUN_COLOR_R_BITS,
                DEFAULT_SUN_COLOR_G_BITS,
                DEFAULT_SUN_COLOR_B_BITS,
                DEFAULT_SUN_COLOR_R_BITS,
            ),
            reprojection_strength: ScalarBits { bits: DEFAULT_REPROJECTION_STRENGTH_BITS },
            ui_visible: true,
            render_resolution: Vec2Bits::spec_new(
                DEFAULT_RENDER_WIDTH_BITS,
                DEFAULT_RENDER_HEIGHT_BITS,
            ),
            wind_velocity: WindVelocity {
                x: DEFAULT_WIND_X_MICRO,
                y: DEFAULT_WIND_Y_MICRO,
                z: DEFAULT_WIND_Z_MICRO,
            },
        }
    }
}

impl Default for CloudsConfig {
    /// Builds the default configuration.
    fn default() -> (c: CloudsConfig)
        ensures
            c == CloudsConfig::spec_default(),
    {
        CloudsConfig {
            clouds_raymarch_steps_count: 12,
            clouds_shadow_raymarch_steps_count: 6,
            planet_radius: ScalarBits::new(DEFAULT_PLANET_RADIUS_BITS),
            clouds_bottom_height: ScalarBits::new(DEFAULT_BOTTOM_HEIGHT_BITS),
            clouds_top_height: ScalarBits::new(DEFAULT_TOP_HEIGHT_BITS),
            clouds_coverage: ScalarBits::new(DEFAULT_COVERAGE_BITS),
            clouds_detail_strength: ScalarBits::new(DEFAULT_DETAIL_STRENGTH_BITS),
            clouds_base_edge_softness: ScalarBits::new(DEFAULT_BASE_EDGE_SOFTNESS_BITS),
            clouds_bottom_softness: ScalarBits::new(DEFAULT_BOTTOM_SOFTNESS_BITS),
            clouds_density: ScalarBits::new(DEFAULT_DENSITY_BITS),
            clouds_shadow_raymarch_step_size: ScalarBits::new(DEFAULT_SHADOW_STEP_SIZE_BITS),
            clouds_shadow_raymarch_step_multiply: ScalarBits::new(
                DEFAULT_SHADOW_STEP_MULTIPLY_BITS,
            ),
            forward_scattering_g: ScalarBits::new(DEFAULT_FORWARD_SCATTERING_BITS),
            backward_scattering_g: ScalarBits::new(DEFAULT_BACKWARD_SCATTERING_BITS),
            scattering_lerp: ScalarBits::new(DEFAULT_SCATTERING_LERP_BITS),
            clouds_ambient_color_top: Vec4Bits::new(
                DEFAULT_AMBIENT_TOP_R_BITS,
                DEFAULT_AMBIENT_TOP_G_BITS,
                DEFAULT_AMBIENT_TOP_B_BITS,
                crate::scalar::ZERO_BITS,
            ),
            clouds_ambient_color_bottom: Vec4Bits::new(
                DEFAULT_AMBIENT_BOTTOM_R_BITS,
                DEFAULT_AMBIENT_BOTTOM_G_BITS,
                DEFAULT_AMBIENT_BOTTOM_B_BITS,
                crate::scalar::ZERO_BITS,
            ),
            clouds_min_transmittance: ScalarBits::new(DEFAULT_MIN_TRANSMITTANCE_BITS),
            clouds_base_scale: ScalarBits::new(DEFAULT_BASE_SCALE_BITS),
            clouds_detail_scale: ScalarBits::new(DEFAULT_DETAIL_SCALE_BITS),
            sun_dir: Vec4Bits::new(
                DEFAULT_SUN_DIR_X_BITS,
                DEFAULT_SUN_DIR_Y_BITS,
                DEFAULT_SUN_DIR_Z_BITS,
                crate::scalar::ZERO_BITS,
            ),
            sun_color: Vec4Bits::new(
                DEFAULT_SUN_COLOR_R_BITS,
                DEFAULT_SUN_COLOR_G_BITS,
                DEFAULT_SUN_COLOR_B_BITS,
                DEFAULT_SUN_COLOR_R_BITS,
            ),
            reprojection_strength: ScalarBits::new(DEFAULT_REPROJECTION_STRENGTH_BITS),
            ui_visible: true,
            render_resolution: Vec2Bits::new(
                DEFAULT_RENDER_WIDTH_BITS,
                DEFAULT_RENDER_HEIGHT_BITS,
            ),
            wind_velocity: WindVelocity {
                x: DEFAULT_WIND_X_MICRO,
                y: DEFAULT_WIND_Y_MICRO,
                z: DEFAULT_WIND_Z_MICRO,
            },
        }
    }
}

} // verus!
