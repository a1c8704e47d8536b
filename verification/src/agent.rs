//! The agent data model and the exact arithmetic behind the two per-frame
//! systems.
//!
//! An agent is an independent point: a world-space position (micro-units)
//! and an instantaneous velocity (milli-units per second). The per-frame
//! systems only ever do two things to an agent, both modelled here as spec
//! functions over `int`:
//!   - add a perturbation to a velocity component (`perturbed_coord`),
//!   - advance a position component by `velocity * frame_ms * time_scale`
//!     (`integrated_coord`).

use vstd::prelude::*;

verus! {

/// A two-dimensional vector with fixed-point integer components.
#[derive(Clone, Copy, Debug, PartialEq, Eq, Structural)]
pub struct Vec2I {
    pub x: i64,
    pub y: i64,
}

/// One point agent. Agents hold no references to one another; each frame
/// update of one agent is independent of every other.
#[derive(Clone, Copy, Debug, PartialEq, Eq, Structural)]
pub struct Agent {
    /// World-space location, in micro-units.
    pub position: Vec2I,
    /// Instantaneous displacement rate, in milli-units per second.
    pub velocity: Vec2I,
}

/// Half-width of the per-axis velocity perturbation drawn each frame for
/// each agent, in milli-units per second (one unit per second).
pub const RANDOMIZE_SCALE: u32 = 1000;

/// Half-width of the per-axis initial velocity drawn at spawn, in
/// milli-units per second (two units per second).
pub const SPAWN_SCALE: u32 = 2000;

/// Largest position magnitude (micro-units) the integrator accepts in one
/// step. Leaves room for the largest step: see `lemma_integration_in_range`.
pub const POS_BOUND: i64 = 0x1000_0000_0000_0000;

/// Largest velocity magnitude (milli-units per second) the integrator
/// accepts in one step.
pub const VEL_BOUND: i64 = 0x200_0000_0000;

/// Largest velocity magnitude a whole tick accepts: one randomizer
/// perturbation on top still stays within `VEL_BOUND`.
pub const TICK_VEL_BOUND: i64 = 0x200_0000_0000 - 1000;

/// Largest frame duration (milliseconds) one step accepts.
pub const DT_BOUND: u32 = 0x10_0000;

/// A velocity component after one additive perturbation.
pub open spec fn perturbed_coord(v: int, d: int) -> int {
    v + d
}

/// A position component after one integration step: the step is
/// `velocity * frame_ms * time_scale`, exact in fixed point.
pub open spec fn integrated_coord(p: int, v: int, dt_ms: int, ts: int) -> int {
    p + v * dt_ms * ts
}

/// Bounds under which one integration step of one agent cannot overflow.
pub open spec fn agent_in_step_bounds(a: Agent) -> bool {
    &&& -POS_BOUND <= a.position.x <= POS_BOUND
    &&& -POS_BOUND <= a.position.y <= POS_BOUND
    &&& -VEL_BOUND <= a.velocity.x <= VEL_BOUND
    &&& -VEL_BOUND <= a.velocity.y <= VEL_BOUND
}

/// Bounds under which a whole tick (randomize, then integrate) of one agent
/// cannot overflow: the velocity leaves room for one perturbation.
pub open spec fn agent_in_tick_bounds(a: Agent) -> bool {
    &&& -POS_BOUND <= a.position.x <= POS_BOUND
    &&& -POS_BOUND <= a.position.y <= POS_BOUND
    &&& -TICK_VEL_BOUND <= a.velocity.x <= TICK_VEL_BOUND
    &&& -TICK_VEL_BOUND <= a.velocity.y <= TICK_VEL_BOUND
}

/// Within the step bounds, every intermediate product of one integration
/// step fits in an `i64`.
pub proof fn lemma_integration_in_range(p: int, v: int, dt_ms: int, ts: int)
    requires
        -POS_BOUND <= p <= POS_BOUND,
        -VEL_BOUND <= v <= VEL_BOUND,
        0 <= dt_ms <= DT_BOUND,
        1 <= ts <= 3,
    ensures
        i64::MIN <= v * dt_ms <= i64::MAX,
        i64::MIN <= v * dt_ms * ts <= i64::MAX,
        i64::MIN <= p + v * dt_ms * ts <= i64::MAX,
{
    assert(-0x8000_0000_0000_0000 <= v * dt_ms <= 0x7fff_ffff_ffff_ffff
        && -0x8000_0000_0000_0000 <= v * dt_ms * ts <= 0x7fff_ffff_ffff_ffff
        && -0x8000_0000_0000_0000 <= p + v * dt_ms * ts <= 0x7fff_ffff_ffff_ffff) by (nonlinear_arith)
        requires
            -0x1000_0000_0000_0000 <= p <= 0x1000_0000_0000_0000,
            -0x200_0000_0000 <= v <= 0x200_0000_0000,
            0 <= dt_ms <= 0x10_0000,
            1 <= ts <= 3;
}

/// Ordering law: perturbing a velocity component and then integrating with
/// it moves the position by exactly
/// `(old velocity + perturbation) * frame_ms * time_scale`.
pub proof fn lemma_perturb_then_integrate(p: int, v: int, d: int, dt_ms: int, ts: int)
    ensures
        integrated_coord(p, perturbed_coord(v, d), dt_ms, ts) == p + (v + d) * dt_ms * ts,
{
}

/// A zero frame duration leaves every position unchanged, whatever the
/// velocity and time scale.
pub proof fn lemma_zero_dt_position_fixed(p: int, v: int, ts: int)
    ensures
        integrated_coord(p, v, 0, ts) == p,
{
    assert(v * 0 * ts == 0) by (nonlinear_arith);
}

/// A velocity component after `n` perturbations of `d` each.
pub open spec fn repeatedly_perturbed(v: int, d: int, n: nat) -> int
    decreases n,
{
    if n == 0 {
        v
    } else {
        perturbed_coord(repeatedly_perturbed(v, d, (n - 1) as nat), d)
    }
}

/// Unboundedness law: the velocity walk has no ceiling. `n` repeated
/// perturbations of `d` raise a component by exactly `n * d`, so repeated
/// maximal perturbations exceed any fixed magnitude eventually.
pub proof fn lemma_velocity_unbounded(v: int, d: int, n: nat)
    ensures
        repeatedly_perturbed(v, d, n) == v + n * d,
    decreases n,
{
    if n == 0 {
        assert(n * d == 0) by (nonlinear_arith)
            requires
                n == 0;
    } else {
        let m = (n - 1) as nat;
        lemma_velocity_unbounded(v, d, m);
        assert(m * d + d == n * d) by (nonlinear_arith)
            requires
                m == n - 1;
    }
}

} // verus!
