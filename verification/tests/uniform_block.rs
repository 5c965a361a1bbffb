//! Tests of the per-frame uniform-block assembly.

use clouds_core::camera::CameraMatrices;
use clouds_core::config::{CloudsConfig, WindVelocity};
use clouds_core::scalar::{Mat4Bits, ScalarBits, Vec2Bits, Vec3Bits, Vec4Bits};
use clouds_core::uniform::CloudsUniform;

fn s(bits: u32) -> ScalarBits {
    ScalarBits::new(bits)
}

/// A configuration whose every field carries a distinct marker value.
fn marked_config() -> CloudsConfig {
    CloudsConfig {
        clouds_raymarch_steps_count: 101,
        clouds_shadow_raymarch_steps_count: 102,
        planet_radius: s(1),
        clouds_bottom_height: s(2),
        clouds_top_height: s(3),
        clouds_coverage: s(4),
        clouds_detail_strength: s(5),
        clouds_base_edge_softness: s(6),
        clouds_bottom_softness: s(7),
        clouds_density: s(8),
        clouds_shadow_raymarch_step_size: s(9),
        clouds_shadow_raymarch_step_multiply: s(10),
        forward_scattering_g: s(11),
        backward_scattering_g: s(12),
        scattering_lerp: s(13),
        clouds_ambient_color_top: Vec4Bits::new(14, 15, 16, 17),
        clouds_ambient_color_bottom: Vec4Bits::new(18, 19, 20, 21),
        clouds_min_transmittance: s(22),
        clouds_base_scale: s(23),
        clouds_detail_scale: s(24),
        sun_dir: Vec4Bits::new(25, 26, 27, 28),
        sun_color: Vec4Bits::new(29, 30, 31, 32),
        reprojection_strength: s(33),
        ui_visible: false,
        render_resolution: Vec2Bits::new(34, 35),
        wind_velocity: WindVelocity { x: 40, y: -41, z: 42 },
    }
}

fn marked_camera() -> CameraMatrices {
    let mut cam = CameraMatrices::initial();
    cam.translation = Vec3Bits::new(50, 51, 52);
    cam.inverse_camera_view.x_axis = Vec4Bits::new(60, 61, 62, 63);
    cam.inverse_camera_projection.w_axis = Vec4Bits::new(70, 71, 72, 73);
    cam
}

#[test]
fn update_copies_every_config_field() {
    let cfg = marked_config();
    let cam = marked_camera();
    let mut u = CloudsUniform::default();
    u.update(&cfg, &cam, 1000, s(77));

    assert_eq!(u.clouds_raymarch_steps_count, cfg.clouds_raymarch_steps_count);
    assert_eq!(u.clouds_shadow_raymarch_steps_count, cfg.clouds_shadow_raymarch_steps_count);
    assert_eq!(u.planet_radius, cfg.planet_radius);
    assert_eq!(u.clouds_bottom_height, cfg.clouds_bottom_height);
    assert_eq!(u.clouds_top_height, cfg.clouds_top_height);
    assert_eq!(u.clouds_coverage, cfg.clouds_coverage);
    assert_eq!(u.clouds_detail_strength, cfg.clouds_detail_strength);
    assert_eq!(u.clouds_base_edge_softness, cfg.clouds_base_edge_softness);
    assert_eq!(u.clouds_bottom_softness, cfg.clouds_bottom_softness);
    assert_eq!(u.clouds_density, cfg.clouds_density);
    assert_eq!(u.clouds_shadow_raymarch_step_size, cfg.clouds_shadow_raymarch_step_size);
    assert_eq!(
        u.clouds_shadow_raymarch_step_multiply,
        cfg.clouds_shadow_raymarch_step_multiply
    );
    assert_eq!(u.forward_scattering_g, cfg.forward_scattering_g);
    assert_eq!(u.backward_scattering_g, cfg.backward_scattering_g);
    assert_eq!(u.scattering_lerp, cfg.scattering_lerp);
    assert_eq!(u.clouds_ambient_color_top, cfg.clouds_ambient_color_top);
    assert_eq!(u.clouds_ambient_color_bottom, cfg.clouds_ambient_color_bottom);
    assert_eq!(u.clouds_min_transmittance, cfg.clouds_min_transmittance);
    assert_eq!(u.clouds_base_scale, cfg.clouds_base_scale);
    assert_eq!(u.clouds_detail_scale, cfg.clouds_detail_scale);
    assert_eq!(u.sun_dir, cfg.sun_dir);
    assert_eq!(u.sun_color, cfg.sun_color);
    assert_eq!(u.reprojection_strength, cfg.reprojection_strength);
    assert_eq!(u.render_resolution, cfg.render_resolution);
}

#[test]
fn update_sources_camera_time_and_wind_from_elsewhere() {
    let cfg = marked_config();
    let cam = marked_camera();
    let mut u = CloudsUniform::default();
    u.update(&cfg, &cam, 1000, s(77));

    assert_eq!(u.camera_translation, cam.translation);
    assert_eq!(u.inverse_camera_view, cam.inverse_camera_view);
    assert_eq!(u.inverse_camera_projection, cam.inverse_camera_projection);
    assert_eq!(u.time, s(77));
    // The displacement is velocity * delta, not any copied configuration bits.
    assert_eq!(u.wind_displacement.displacement(), (40_000, -41_000, 42_000));
}

#[test]
fn wind_displacement_accumulates_across_updates() {
    let cfg = marked_config();
    let cam = marked_camera();
    let mut u = CloudsUniform::default();
    u.update(&cfg, &cam, 1000, s(1));
    u.update(&cfg, &cam, 500, s(2));
    assert_eq!(u.wind_displacement.displacement(), (60_000, -61_500, 63_000));
}

#[test]
fn reset_to_defaults_restores_copied_fields_but_not_wind() {
    let custom = marked_config();
    let cam = marked_camera();
    let mut u = CloudsUniform::default();
    u.update(&custom, &cam, 1000, s(1));
    u.update(&custom, &cam, 1000, s(2));
    let before_reset = u.wind_displacement.displacement();

    // A mid-run reset of the configuration to its defaults.
    let defaults = CloudsConfig::default();
    u.update(&defaults, &cam, 2000, s(3));

    // Every copied field is back at its default value...
    let d = CloudsConfig::default();
    assert_eq!(u.clouds_coverage, d.clouds_coverage);
    assert_eq!(u.clouds_raymarch_steps_count, d.clouds_raymarch_steps_count);
    assert_eq!(u.planet_radius, d.planet_radius);
    assert_eq!(u.sun_color, d.sun_color);
    assert_eq!(u.reprojection_strength, d.reprojection_strength);
    assert_eq!(u.render_resolution, d.render_resolution);

    // ...but the accumulator carried on from its pre-reset value.
    let after_reset = u.wind_displacement.displacement();
    assert_eq!(
        after_reset.0,
        before_reset.0 + i64::from(d.wind_velocity.x) * 2000
    );
    assert_eq!(after_reset.1, before_reset.1);
    assert_eq!(
        after_reset.2,
        before_reset.2 + i64::from(d.wind_velocity.z) * 2000
    );
    assert_ne!(after_reset.0, i64::from(d.wind_velocity.x) * 2000);
}

#[test]
fn config_defaults_decode_to_expected_values() {
    let d = CloudsConfig::default();
    assert_eq!(d.clouds_raymarch_steps_count, 12);
    assert_eq!(d.clouds_shadow_raymarch_steps_count, 6);
    assert_eq!(f32::from_bits(d.planet_radius.bits), 6_371_000.0);
    assert_eq!(f32::from_bits(d.clouds_bottom_height.bits), 1250.0);
    assert_eq!(f32::from_bits(d.clouds_top_height.bits), 2400.0);
    assert_eq!(f32::from_bits(d.clouds_coverage.bits), 0.5);
    assert!((f32::from_bits(d.clouds_detail_strength.bits) - 0.27).abs() < 1e-6);
    assert!((f32::from_bits(d.clouds_base_edge_softness.bits) - 0.1).abs() < 1e-6);
    assert_eq!(f32::from_bits(d.clouds_bottom_softness.bits), 0.25);
    assert!((f32::from_bits(d.clouds_density.bits) - 0.03).abs() < 1e-6);
    assert_eq!(f32::from_bits(d.clouds_shadow_raymarch_step_size.bits), 10.0);
    assert!((f32::from_bits(d.clouds_shadow_raymarch_step_multiply.bits) - 1.3).abs() < 1e-6);
    assert!((f32::from_bits(d.forward_scattering_g.bits) - 0.8).abs() < 1e-6);
    assert!((f32::from_bits(d.backward_scattering_g.bits) + 0.2).abs() < 1e-6);
    assert_eq!(f32::from_bits(d.scattering_lerp.bits), 0.5);
    assert!((f32::from_bits(d.clouds_min_transmittance.bits) - 0.1).abs() < 1e-6);
    assert_eq!(f32::from_bits(d.clouds_base_scale.bits), 1.5);
    assert_eq!(f32::from_bits(d.clouds_detail_scale.bits), 42.0);
    assert!((f32::from_bits(d.reprojection_strength.bits) - 0.95).abs() < 1e-6);
    assert_eq!(f32::from_bits(d.render_resolution.x.bits), 1920.0);
    assert_eq!(f32::from_bits(d.render_resolution.y.bits), 1080.0);
    assert!(d.ui_visible);

    // The sun direction is the normalization of (-0.7, 0.5, 0.75).
    let sx = f32::from_bits(d.sun_dir.x.bits);
    let sy = f32::from_bits(d.sun_dir.y.bits);
    let sz = f32::from_bits(d.sun_dir.z.bits);
    let sw = f32::from_bits(d.sun_dir.w.bits);
    assert!((sx - -0.613_351).abs() < 1e-4);
    assert!((sy - 0.438_108).abs() < 1e-4);
    assert!((sz - 0.657_162).abs() < 1e-4);
    assert_eq!(sw, 0.0);
    let len = (sx * sx + sy * sy + sz * sz).sqrt();
    assert!((len - 1.0).abs() < 1e-5);

    // Ambient colors are (149, 167, 200) and (39, 67, 87) scaled by 1.5/225.
    let scale = 1.5f32 / 225.0;
    assert!((f32::from_bits(d.clouds_ambient_color_top.x.bits) - 149.0 * scale).abs() < 1e-5);
    assert!((f32::from_bits(d.clouds_ambient_color_top.y.bits) - 167.0 * scale).abs() < 1e-5);
    assert!((f32::from_bits(d.clouds_ambient_color_top.z.bits) - 200.0 * scale).abs() < 1e-5);
    assert!((f32::from_bits(d.clouds_ambient_color_bottom.x.bits) - 39.0 * scale).abs() < 1e-5);
    assert!((f32::from_bits(d.clouds_ambient_color_bottom.y.bits) - 67.0 * scale).abs() < 1e-5);
    assert!((f32::from_bits(d.clouds_ambient_color_bottom.z.bits) - 87.0 * scale).abs() < 1e-5);

    // The sun color is (1.0, 0.9, 0.85, 1.0) scaled by 1.4.
    assert!((f32::from_bits(d.sun_color.x.bits) - 1.4).abs() < 1e-6);
    assert!((f32::from_bits(d.sun_color.y.bits) - 1.26).abs() < 1e-6);
    assert!((f32::from_bits(d.sun_color.z.bits) - 1.19).abs() < 1e-6);
    assert!((f32::from_bits(d.sun_color.w.bits) - 1.4).abs() < 1e-6);

    // The default wind is (-1.1, 0, 2.3) units per second, in micro-units.
    assert_eq!(d.wind_velocity.x, -1_100_000);
    assert_eq!(d.wind_velocity.y, 0);
    assert_eq!(d.wind_velocity.z, 2_300_000);
}

#[test]
fn uniform_default_is_the_pre_frame_block() {
    let u = CloudsUniform::default();
    assert_eq!(u.clouds_coverage, s(0));
    assert_eq!(u.clouds_raymarch_steps_count, 0);
    assert_eq!(u.sun_color, Vec4Bits::new(0, 0, 0, 0));
    assert!((f32::from_bits(u.reprojection_strength.bits) - 0.95).abs() < 1e-6);
    assert_eq!(f32::from_bits(u.render_resolution.x.bits), 1920.0);
    assert_eq!(f32::from_bits(u.render_resolution.y.bits), 1080.0);
    assert_eq!(u.inverse_camera_view, Mat4Bits::identity());
    assert_eq!(u.inverse_camera_projection, Mat4Bits::identity());
    assert_eq!(u.wind_displacement.displacement(), (0, 0, 0));
    assert_eq!(f32::from_bits(u.time.bits), 0.0);
}
