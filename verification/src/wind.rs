//! The wind-displacement accumulator.
//!
//! This is the only state in the core with cross-frame memory: every frame the
//! displacement grows by `velocity * delta_time`, and nothing ever resets it.
//! Velocity components are fixed-point micro-units per second, frame deltas
//! are microseconds, so each contribution `velocity * delta` is an exact
//! integer in pico-units and the accumulated displacement is the exact running
//! sum of all contributions — independent of how the frames were grouped or
//! ordered.

use vstd::prelude::*;

verus! {

/// Selects one of the three displacement components.
#[derive(Clone, Copy, PartialEq, Eq, Structural, Debug)]
pub enum Axis {
    X,
    Y,
    Z,
}

/// One recorded accumulation step: a velocity (micro-units per second) and a
/// frame delta (microseconds). Ghost bookkeeping only; nothing compiles it.
pub struct WindStep {
    pub vx: int,
    pub vy: int,
    pub vz: int,
    pub dt: int,
}

/// The velocity component of a step along one axis.
pub open spec fn step_component(s: WindStep, a: Axis) -> int {
    match a {
        Axis::X => s.vx,
        Axis::Y => s.vy,
        Axis::Z => s.vz,
    }
}

/// The exact running sum of `velocity * delta` contributions along one axis,
/// in pico-units.
pub open spec fn wind_sum(h: Seq<WindStep>, a: Axis) -> int
    decreases h.len(),
{
    if h.len() == 0 {
        0
    } else {
        wind_sum(h.drop_last(), a) + step_component(h.last(), a) * h.last().dt
    }
}

/// Appending one step adds exactly its contribution to the sum.
pub proof fn lemma_wind_sum_push(h: Seq<WindStep>, s: WindStep, a: Axis)
    ensures
        wind_sum(h.push(s), a) == wind_sum(h, a) + step_component(s, a) * s.dt,
{
    assert(h.push(s).drop_last() =~= h);
    assert(h.push(s).last() == s);
}

/// Law: accumulation is associative — the sum over two runs of frames, taken
/// in sequence, is the sum of each run's contributions.
pub proof fn lemma_wind_sum_append(h1: Seq<WindStep>, h2: Seq<WindStep>, a: Axis)
    ensures
        wind_sum(h1 + h2, a) == wind_sum(h1, a) + wind_sum(h2, a),
    decreases h2.len(),
{
    if h2.len() == 0 {
        assert(h1 + h2 =~= h1);
    } else {
        lemma_wind_sum_append(h1, h2.drop_last(), a);
        assert((h1 + h2).drop_last() =~= h1 + h2.drop_last());
        assert((h1 + h2).last() == h2.last());
    }
}

/// Law: accumulation is order-independent — exchanging two runs of frames
/// leaves the total displacement unchanged.
pub proof fn lemma_wind_sum_order_independent(h1: Seq<WindStep>, h2: Seq<WindStep>, a: Axis)
    ensures
        wind_sum(h1 + h2, a) == wind_sum(h2 + h1, a),
{
    lemma_wind_sum_append(h1, h2, a);
    lemma_wind_sum_append(h2, h1, a);
}

/// Law: constant velocity over equal-length frames sums to
/// `velocity * frame_count * delta`.
pub proof fn lemma_wind_sum_constant(h: Seq<WindStep>, a: Axis, v: int, d: int)
    requires
        forall|i: int|
            0 <= i < h.len() ==> step_component(#[trigger] h[i], a) == v && h[i].dt == d,
    ensures
        wind_sum(h, a) == v * d * h.len(),
    decreases h.len(),
{
    if h.len() == 0 {
        assert(v * d * 0 == 0) by (nonlinear_arith);
    } else {
        assert(forall|i: int|
            0 <= i < h.drop_last().len() ==> step_component(
                #[trigger] h.drop_last()[i],
                a,
            ) == v && h.drop_last()[i].dt == d) by {
            assert(forall|i: int|
                0 <= i < h.drop_last().len() ==> h.drop_last()[i] == h[i]);
        }
        lemma_wind_sum_constant(h.drop_last(), a, v, d);
        assert(h[h.len() - 1] == h.last());
        let n = h.len() as int;
        lemma_mul_distributes_over_count(v * d, n);
    }
}

/// `t * (n - 1) + t == t * n`, for the induction step above.
proof fn lemma_mul_distributes_over_count(t: int, n: int)
    by (nonlinear_arith)
    ensures
        t * (n - 1) + t == t * n,
{
}

/// The product of an `i32`-range velocity and a `u32`-range delta fits in an
/// `i64` component.
proof fn lemma_step_product_fits(v: int, d: int)
    by (nonlinear_arith)
    requires
        -0x8000_0000 <= v <= 0x7FFF_FFFF,
        0 <= d < 0x1_0000_0000,
    ensures
        -0x8000_0000_0000_0000 <= v * d <= 0x7FFF_FFFF_FFFF_FFFF,
{
}

/// The wind-displacement accumulator: three fixed-point components in
/// pico-units, plus the ghost record of every step ever applied.
pub struct WindDisplacement {
    pub x: i64,
    pub y: i64,
    pub z: i64,
    pub history: Ghost<Seq<WindStep>>,
}

impl WindDisplacement {
    /// Law: each component is exactly the running sum of its recorded
    /// `velocity * delta` contributions.
    pub open spec fn wf(self) -> bool {
        &&& self.x == wind_sum(self.history@, Axis::X)
        &&& self.y == wind_sum(self.history@, Axis::Y)
        &&& self.z == wind_sum(self.history@, Axis::Z)
    }

    /// The accumulator at process start: zero displacement, empty history.
    pub fn new() -> (w: WindDisplacement)
        ensures
            w.wf(),
            w.x == 0 && w.y == 0 && w.z == 0,
            w.history@ == Seq::<WindStep>::empty(),
    {
        WindDisplacement { x: 0, y: 0, z: 0, history: Ghost(Seq::empty()) }
    }

    /// Adds one frame's contribution `velocity * delta` to each component.
    ///
    /// The velocity is in micro-units per second, the delta in microseconds,
    /// so each product is exact in pico-units. The preconditions only rule
    /// out overflow of the 64-bit components.
    pub fn advance(&mut self, vx: i32, vy: i32, vz: i32, dt_micros: u32)
        requires
            old(self).wf(),
            i64::MIN <= old(self).x + vx * dt_micros <= i64::MAX,
            i64::MIN <= old(self).y + vy * dt_micros <= i64::MAX,
            i64::MIN <= old(self).z + vz * dt_micros <= i64::MAX,
        ensures
            final(self).wf(),
            final(self).x == old(self).x + vx * dt_micros,
            final(self).y == old(self).y + vy * dt_micros,
            final(self).z == old(self).z + vz * dt_micros,
            final(self).history@ == old(self).history@.push(
                WindStep { vx: vx as int, vy: vy as int, vz: vz as int, dt: dt_micros as int },
            ),
    {
        proof {
            lemma_step_product_fits(vx as int, dt_micros as int);
            lemma_step_product_fits(vy as int, dt_micros as int);
            lemma_step_product_fits(vz as int, dt_micros as int);
        }
        let ghost step = WindStep {
            vx: vx as int,
            vy: vy as int,
            vz: vz as int,
            dt: dt_micros as int,
        };
        let sx: i64 = (vx as i64) * (dt_micros as i64);
        let sy: i64 = (vy as i64) * (dt_micros as i64);
        let sz: i64 = (vz as i64) * (dt_micros as i64);
        self.x = self.x + sx;
        self.y = self.y + sy;
        self.z = self.z + sz;
        proof {
            lemma_wind_sum_push(self.history@, step, Axis::X);
            lemma_wind_sum_push(self.history@, step, Axis::Y);
            lemma_wind_sum_push(self.history@, step, Axis::Z);
        }
        self.history = Ghost(self.history@.push(step));
    }

    /// The three components, in pico-units.
    pub fn displacement(&self) -> (r: (i64, i64, i64))
        ensures
            r.0 == self.x && r.1 == self.y && r.2 == self.z,
    {
        (self.x, self.y, self.z)
    }
}

} // verus!
