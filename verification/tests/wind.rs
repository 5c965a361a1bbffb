//! Tests of the wind-displacement accumulator.

use clouds_core::wind::WindDisplacement;

#[test]
fn wind_starts_at_zero() {
    let w = WindDisplacement::new();
    assert_eq!(w.displacement(), (0, 0, 0));
}

#[test]
fn wind_accumulates_running_sum() {
    let mut w = WindDisplacement::new();
    w.advance(3, -2, 5, 10);
    assert_eq!(w.displacement(), (30, -20, 50));
    w.advance(3, -2, 5, 7);
    assert_eq!(w.displacement(), (51, -34, 85));
    w.advance(-1, 4, 0, 100);
    assert_eq!(w.displacement(), (-49, 366, 85));
}

#[test]
fn wind_zero_delta_is_noop() {
    let mut w = WindDisplacement::new();
    w.advance(1_000_000, -7, 42, 0);
    assert_eq!(w.displacement(), (0, 0, 0));
}

#[test]
fn wind_order_independent() {
    let steps: [(i32, i32, i32, u32); 4] =
        [(3, 0, -5, 11), (-2, 9, 4, 7), (0, 0, 1, 1000), (100, -100, 100, 3)];
    let mut forward = WindDisplacement::new();
    for &(vx, vy, vz, dt) in steps.iter() {
        forward.advance(vx, vy, vz, dt);
    }
    let mut backward = WindDisplacement::new();
    for &(vx, vy, vz, dt) in steps.iter().rev() {
        backward.advance(vx, vy, vz, dt);
    }
    assert_eq!(forward.displacement(), backward.displacement());
}

#[test]
fn wind_constant_velocity_is_velocity_times_n_times_delta() {
    // 120 frames at 1/60 s with the default wind velocity (-1.1, 0, 2.3),
    // in micro-units per second and microseconds.
    let mut w = WindDisplacement::new();
    for _ in 0..120 {
        w.advance(-1_100_000, 0, 2_300_000, 16_667);
    }
    let (x, y, z) = w.displacement();
    assert_eq!(x, -1_100_000i64 * 16_667 * 120);
    assert_eq!(y, 0);
    assert_eq!(z, 2_300_000i64 * 16_667 * 120);

    // In units: about (-2.2, 0, 4.6).
    let xu = x as f64 / 1e12;
    let zu = z as f64 / 1e12;
    assert!((xu - (-2.2)).abs() < 1e-3, "x displacement {xu}");
    assert!((zu - 4.6).abs() < 1e-3, "z displacement {zu}");
}
