//! The uniform block handed to the compute shader.
//!
//! Rebuilt every frame: every configuration field is copied unchanged into its
//! uniform field, the camera snapshot and the elapsed time are taken over
//! as-is, and the wind-displacement accumulator advances by
//! `velocity * delta`. The declared field order is the wire contract with the
//! shader and must not be reordered independently on either side.

use vstd::prelude::*;

use crate::camera::CameraMatrices;
use crate::config::{CloudsConfig, DEFAULT_RENDER_HEIGHT_BITS, DEFAULT_RENDER_WIDTH_BITS,
    DEFAULT_REPROJECTION_STRENGTH_BITS};
use crate::scalar::{Mat4Bits, ScalarBits, Vec2Bits, Vec3Bits, Vec4Bits};
use crate::wind::{WindDisplacement, WindStep};

verus! {

/// The flattened uniform block: a copy of the configuration plus the
/// camera-, time- and wind-sourced fields.
pub struct CloudsUniform {
    pub clouds_base_scale: ScalarBits,
    pub clouds_raymarch_steps_count: u32,
    pub clouds_bottom_height: ScalarBits,
    pub clouds_top_height: ScalarBits,
    pub clouds_coverage: ScalarBits,
    pub clouds_density: ScalarBits,
    pub clouds_detail_scale: ScalarBits,
    pub clouds_detail_strength: ScalarBits,
    pub clouds_base_edge_softness: ScalarBits,
    pub clouds_bottom_softness: ScalarBits,
    pub clouds_shadow_raymarch_steps_count: u32,
    pub clouds_shadow_raymarch_step_size: ScalarBits,
    pub clouds_shadow_raymarch_step_multiply: ScalarBits,
    pub clouds_ambient_color_top: Vec4Bits,
    pub clouds_ambient_color_bottom: Vec4Bits,
    pub clouds_min_transmittance: ScalarBits,
    pub planet_radius: ScalarBits,
    pub forward_scattering_g: ScalarBits,
    pub backward_scattering_g: ScalarBits,
    pub scattering_lerp: ScalarBits,
    pub sun_dir: Vec4Bits,
    pub sun_color: Vec4Bits,
    pub camera_translation: Vec3Bits,
    pub time: ScalarBits,
    pub reprojection_strength: ScalarBits,
    pub render_resolution: Vec2Bits,
    pub inverse_camera_view: Mat4Bits,
    pub inverse_camera_projection: Mat4Bits,
    /// The only field with cross-frame memory; see [`crate::wind`].
    pub wind_displacement: WindDisplacement,
}

impl CloudsUniform {
    /// Law: every configuration field is copied, bit for bit, into its
    /// uniform field. Exactly the camera-, time- and wind-sourced fields are
    /// missing here: they come from elsewhere.
    pub open spec fn reflects_config(self, c: CloudsConfig) -> bool {
        &&& self.clouds_base_scale == c.clouds_base_scale
        &&& self.clouds_raymarch_steps_count == c.clouds_raymarch_steps_count
        &&& self.clouds_bottom_height == c.clouds_bottom_height
        &&& self.clouds_top_height == c.clouds_top_height
        &&& self.clouds_coverage == c.clouds_coverage
        &&& self.clouds_density == c.clouds_density
        &&& self.clouds_detail_scale == c.clouds_detail_scale
        &&& self.clouds_detail_strength == c.clouds_detail_strength
        &&& self.clouds_base_edge_softness == c.clouds_base_edge_softness
        &&& self.clouds_bottom_softness == c.clouds_bottom_softness
        &&& self.clouds_shadow_raymarch_steps_count == c.clouds_shadow_raymarch_steps_count
        &&& self.clouds_shadow_raymarch_step_size == c.clouds_shadow_raymarch_step_size
        &&& self.clouds_shadow_raymarch_step_multiply == c.clouds_shadow_raymarch_step_multiply
        &&& self.clouds_ambient_color_top == c.clouds_ambient_color_top
        &&& self.clouds_ambient_color_bottom == c.clouds_ambient_color_bottom
        &&& self.clouds_min_transmittance == c.clouds_min_transmittance
        &&& self.planet_radius == c.planet_radius
        &&& self.forward_scattering_g == c.forward_scattering_g
        &&& self.backward_scattering_g == c.backward_scattering_g
        &&& self.scattering_lerp == c.scattering_lerp
        &&& self.sun_dir == c.sun_dir
        &&& self.sun_color == c.sun_color
        &&& self.reprojection_strength == c.reprojection_strength
        &&& self.render_resolution == c.render_resolution
    }

    /// The camera-sourced fields equal the snapshot.
    pub open spec fn reflects_camera(self, cam: CameraMatrices) -> bool {
        &&& self.camera_translation == cam.translation
        &&& self.inverse_camera_view == cam.inverse_camera_view
        &&& self.inverse_camera_projection == cam.inverse_camera_projection
    }

    /// The full effect of one [`CloudsUniform::update`] call: configuration
    /// copied, camera and time taken over, wind advanced by exactly one step
    /// — and nothing about the accumulator forgotten or reset.
    pub open spec fn update_rel(
        pre: CloudsUniform,
        post: CloudsUniform,
        c: CloudsConfig,
        cam: CameraMatrices,
        dt_micros: u32,
        elapsed: ScalarBits,
    ) -> bool {
        &&& post.reflects_config(c)
        &&& post.reflects_camera(cam)
        &&& post.time == elapsed
        &&& post.wind_displacement.x == pre.wind_displacement.x + c.wind_velocity.x * dt_micros
        &&& post.wind_displacement.y == pre.wind_displacement.y + c.wind_velocity.y * dt_micros
        &&& post.wind_displacement.z == pre.wind_displacement.z + c.wind_velocity.z * dt_micros
        &&& post.wind_displacement.history@ == pre.wind_displacement.history@.push(
            WindStep {
                vx: c.wind_velocity.x as int,
                vy: c.wind_velocity.y as int,
                vz: c.wind_velocity.z as int,
                dt: dt_micros as int,
            },
        )
    }

    /// The uniform block before the first frame: zeroed shader parameters, an
    /// identity camera, and an untouched accumulator. The reprojection
    /// strength and render resolution carry their usual defaults so that the
    /// block is meaningful even before a configuration is copied in.
    pub open spec fn is_initial(self) -> bool {
        &&& self.clouds_base_scale == ScalarBits::spec_zero()
        &&& self.clouds_raymarch_steps_count == 0
        &&& self.clouds_bottom_height == ScalarBits::spec_zero()
        &&& self.clouds_top_height == ScalarBits::spec_zero()
        &&& self.clouds_coverage == ScalarBits::spec_zero()
        &&& self.clouds_density == ScalarBits::spec_zero()
        &&& self.clouds_detail_scale == ScalarBits::spec_zero()
        &&& self.clouds_detail_strength == ScalarBits::spec_zero()
        &&& self.clouds_base_edge_softness == ScalarBits::spec_zero()
        &&& self.clouds_bottom_softness == ScalarBits::spec_zero()
        &&& self.clouds_shadow_raymarch_steps_count == 0
        &&& self.clouds_shadow_raymarch_step_size == ScalarBits::spec_zero()
        &&& self.clouds_shadow_raymarch_step_multiply == ScalarBits::spec_zero()
        &&& self.clouds_ambient_color_top == Vec4Bits::spec_zero()
        &&& self.clouds_ambient_color_bottom == Vec4Bits::spec_zero()
        &&& self.clouds_min_transmittance == ScalarBits::spec_zero()
        &&& self.planet_radius == ScalarBits::spec_zero()
        &&& self.forward_scattering_g == ScalarBits::spec_zero()
        &&& self.backward_scattering_g == ScalarBits::spec_zero()
        &&& self.scattering_lerp == ScalarBits::spec_zero()
        &&& self.sun_dir == Vec4Bits::spec_zero()
        &&& self.sun_color == Vec4Bits::spec_zero()
        &&& self.camera_translation == Vec3Bits::spec_zero()
        &&& self.time == ScalarBits::spec_zero()
        &&& self.reprojection_strength == ScalarBits::spec_new(
            DEFAULT_REPROJECTION_STRENGTH_BITS,
        )
        &&& self.render_resolution == Vec2Bits::spec_new(
            DEFAULT_RENDER_WIDTH_BITS,
            DEFAULT_RENDER_HEIGHT_BITS,
        )
        &&& self.inverse_camera_view == Mat4Bits::spec_identity()
        &&& self.inverse_camera_projection == Mat4Bits::spec_identity()
        &&& self.wind_displacement.x == 0
        &&& self.wind_displacement.y == 0
        &&& self.wind_displacement.z == 0
        &&& self.wind_displacement.history@ == Seq::<WindStep>::empty()
        &&& self.wind_displacement.wf()
    }

    /// Rebuilds the block for this frame from the configuration, the camera
    /// snapshot, the frame delta (microseconds) and the wrapped elapsed time.
    ///
    /// The preconditions only rule out overflow of the 64-bit accumulator
    /// components; every configuration value is accepted as-is.
    pub fn update(
        &mut self,
        config: &CloudsConfig,
        camera: &CameraMatrices,
        dt_micros: u32,
        elapsed: ScalarBits,
    )
        requires
            old(self).wind_displacement.wf(),
            i64::MIN <= old(self).wind_displacement.x + config.wind_velocity.x * dt_micros
                <= i64::MAX,
            i64::MIN <= old(self).wind_displacement.y + config.wind_velocity.y * dt_micros
                <= i64::MAX,
            i64::MIN <= old(self).wind_displacement.z + config.wind_velocity.z * dt_micros
                <= i64::MAX,
        ensures
            CloudsUniform::update_rel(
                *old(self),
                *final(self),
                *config,
                *camera,
                dt_micros,
                elapsed,
            ),
            final(self).wind_displacement.wf(),
    {
        self.clouds_base_scale = config.clouds_base_scale;
        self.clouds_raymarch_steps_count = config.clouds_raymarch_steps_count;
        self.clouds_bottom_height = config.clouds_bottom_height;
        self.clouds_top_height = config.clouds_top_height;
        self.clouds_coverage = config.clouds_coverage;
        self.clouds_density = config.clouds_density;
        self.clouds_detail_scale = config.clouds_detail_scale;
        self.clouds_detail_strength = config.clouds_detail_strength;
        self.clouds_base_edge_softness = config.clouds_base_edge_softness;
        self.clouds_bottom_softness = config.clouds_bottom_softness;
        self.clouds_shadow_raymarch_steps_count = config.clouds_shadow_raymarch_steps_count;
        self.clouds_shadow_raymarch_step_size = config.clouds_shadow_raymarch_step_size;
        self.clouds_shadow_raymarch_step_multiply = config.clouds_shadow_raymarch_step_multiply;
        self.clouds_ambient_color_top = config.clouds_ambient_color_top;
        self.clouds_ambient_color_bottom = config.clouds_ambient_color_bottom;
        self.clouds_min_transmittance = config.clouds_min_transmittance;
        self.planet_radius = config.planet_radius;
        self.forward_scattering_g = config.forward_scattering_g;
        self.backward_scattering_g = config.backward_scattering_g;
        self.scattering_lerp = config.scattering_lerp;
        self.sun_dir = config.sun_dir;
        self.sun_color = config.sun_color;
        self.reprojection_strength = config.reprojection_strength;
        self.render_resolution = config.render_resolution;
        self.camera_translation = camera.translation;
        self.inverse_camera_view = camera.inverse_camera_view;
        self.inverse_camera_projection = camera.inverse_camera_projection;
        self.time = elapsed;
        self.wind_displacement.advance(
            config.wind_velocity.x,
            config.wind_velocity.y,
            config.wind_velocity.z,
            dt_micros,
        );
    }
}

impl Default for CloudsUniform {
    /// Builds the pre-first-frame uniform block.
    fn default() -> (u: CloudsUniform)
        ensures
            u.is_initial(),
    {
        CloudsUniform {
            clouds_base_scale: ScalarBits::zero(),
            clouds_raymarch_steps_count: 0,
            clouds_bottom_height: ScalarBits::zero(),
            clouds_top_height: ScalarBits::zero(),
            clouds_coverage: ScalarBits::zero(),
            clouds_density: ScalarBits::zero(),
            clouds_detail_scale: ScalarBits::zero(),
            clouds_detail_strength: ScalarBits::zero(),
            clouds_base_edge_softness: ScalarBits::zero(),
            clouds_bottom_softness: ScalarBits::zero(),
            clouds_shadow_raymarch_steps_count: 0,
            clouds_shadow_raymarch_step_size: ScalarBits::zero(),
            clouds_shadow_raymarch_step_multiply: ScalarBits::zero(),
            clouds_ambient_color_top: Vec4Bits::zero(),
            clouds_ambient_color_bottom: Vec4Bits::zero(),
            clouds_min_transmittance: ScalarBits::zero(),
            planet_radius: ScalarBits::zero(),
            forward_scattering_g: ScalarBits::zero(),
            backward_scattering_g: ScalarBits::zero(),
            scattering_lerp: ScalarBits::zero(),
            sun_dir: Vec4Bits::zero(),
            sun_color: Vec4Bits::zero(),
            camera_translation: Vec3Bits::zero(),
            time: ScalarBits::zero(),
            reprojection_strength: ScalarBits::new(DEFAULT_REPROJECTION_STRENGTH_BITS),
            render_resolution: Vec2Bits::new(
                DEFAULT_RENDER_WIDTH_BITS,
                DEFAULT_RENDER_HEIGHT_BITS,
            ),
            inverse_camera_view: Mat4Bits::identity(),
            inverse_camera_projection: Mat4Bits::identity(),
            wind_displacement: WindDisplacement::new(),
        }
    }
}

/// Law: an update from the default configuration puts every copied field back
/// to its default value, while the wind-displacement accumulator carries on
/// from where it was — a configuration reset does not touch it.
pub proof fn lemma_reset_restores_defaults(
    pre: CloudsUniform,
    post: CloudsUniform,
    cam: CameraMatrices,
    dt_micros: u32,
    elapsed: ScalarBits,
)
    requires
        CloudsUniform::update_rel(
            pre,
            post,
            CloudsConfig::spec_default(),
            cam,
            dt_micros,
            elapsed,
        ),
    ensures
        post.reflects_config(CloudsConfig::spec_default()),
        post.wind_displacement.x == pre.wind_displacement.x
            + crate::config::DEFAULT_WIND_X_MICRO * dt_micros,
        post.wind_displacement.y == pre.wind_displacement.y,
        post.wind_displacement.z == pre.wind_displacement.z
            + crate::config::DEFAULT_WIND_Z_MICRO * dt_micros,
        post.wind_displacement.history@ == pre.wind_displacement.history@.push(
            WindStep {
                vx: crate::config::DEFAULT_WIND_X_MICRO as int,
                vy: 0,
                vz: crate::config::DEFAULT_WIND_Z_MICRO as int,
                dt: dt_micros as int,
            },
        ),
{
}

} // verus!
