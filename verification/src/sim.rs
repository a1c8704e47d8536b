//! The simulation context and its per-frame systems.
//!
//! A `Simulation` owns the agent registry, the home location and the clock's
//! time scale. It is built once by the spawner and then advanced by `tick`,
//! which runs the frame's systems in their required order: clock update,
//! velocity randomizer, integrator.

use vstd::prelude::*;

verus! {

use crate::agent::{
    Agent, Vec2I, agent_in_step_bounds, agent_in_tick_bounds, integrated_coord, perturbed_coord,
    lemma_integration_in_range, DT_BOUND, POS_BOUND, RANDOMIZE_SCALE, SPAWN_SCALE, TICK_VEL_BOUND,
};
use crate::clock::{
    ControlEvents, step_time_scale, stepped_time_scale, time_scale_valid, TIME_SCALE_MIN,
};
use crate::rng::random_velocity;

/// The validated startup configuration: how many agents to spawn.
#[derive(Clone, Copy, Debug, PartialEq, Eq, Structural)]
pub struct SpawnConfig {
    pub ant_count: u32,
}

/// The whole simulation state: the agent registry, the home location the
/// agents spawned at, and the clock's time scale.
pub struct Simulation {
    /// The agent registry. Fixed in size for the session: agents are created
    /// once at spawn and never destroyed.
    pub agents: Vec<Agent>,
    /// The shared spawn point, in micro-units; immutable after startup.
    pub home: Vec2I,
    /// The clock's scale factor; always within its clamping band.
    pub time_scale: u8,
}

/// A freshly spawned velocity: each component within the spawn window.
pub open spec fn spawned_velocity_ok(v: Vec2I) -> bool {
    &&& -(SPAWN_SCALE as int) <= v.x as int <= SPAWN_SCALE as int
    &&& -(SPAWN_SCALE as int) <= v.y as int <= SPAWN_SCALE as int
}

/// Creates the registry: exactly `config.ant_count` agents, every one at
/// `home`, each velocity drawn independently from the spawn window.
pub fn spawn_agents(config: &SpawnConfig, home: Vec2I) -> (agents: Vec<Agent>)
    ensures
        agents@.len() == config.ant_count as int,
        forall|i: int| 0 <= i < agents@.len() ==> (#[trigger] agents@[i]).position == home,
        forall|i: int| 0 <= i < agents@.len() ==> spawned_velocity_ok(
            (#[trigger] agents@[i]).velocity,
        ),
{
    let mut agents: Vec<Agent> = Vec::new();
    for k in 0..config.ant_count
        invariant
            agents@.len() == k as int,
            forall|i: int| 0 <= i < agents@.len() ==> (#[trigger] agents@[i]).position == home,
            forall|i: int| 0 <= i < agents@.len() ==> spawned_velocity_ok(
                (#[trigger] agents@[i]).velocity,
            ),
    {
        let velocity = random_velocity(SPAWN_SCALE);
        agents.push(Agent { position: home, velocity });
    }
    agents
}

impl Simulation {
    /// The state invariant: the time scale never leaves its band.
    pub open spec fn wf(self) -> bool {
        time_scale_valid(self.time_scale as int)
    }

    /// Builds the simulation once, before the per-frame loop: spawns the
    /// registry and starts the clock at its floor. Must not be called a
    /// second time for the same session — a second registry would duplicate
    /// the population.
    pub fn new(config: &SpawnConfig, home: Vec2I) -> (sim: Simulation)
        ensures
            sim.wf(),
            sim.time_scale == TIME_SCALE_MIN,
            sim.home == home,
            sim.agents@.len() == config.ant_count as int,
            forall|i: int| 0 <= i < sim.agents@.len() ==> (#[trigger] sim.agents@[i]).position
                == home,
            forall|i: int| 0 <= i < sim.agents@.len() ==> spawned_velocity_ok(
                (#[trigger] sim.agents@[i]).velocity,
            ),
    {
        let agents = spawn_agents(config, home);
        Simulation { agents, home, time_scale: TIME_SCALE_MIN }
    }
}

/// The perturbation of agent `i` fits: adding the delta to the velocity
/// stays within `i64`.
pub open spec fn delta_addable(a: Agent, d: Vec2I) -> bool {
    &&& i64::MIN <= a.velocity.x as int + d.x as int <= i64::MAX
    &&& i64::MIN <= a.velocity.y as int + d.y as int <= i64::MAX
}

/// The deterministic core of the velocity randomizer: adds `deltas[i]` to
/// the velocity of agent `i`. Positions are untouched; no clamping of any
/// kind is applied to the resulting velocities.
pub fn perturb_velocities(agents: &mut Vec<Agent>, deltas: &Vec<Vec2I>)
    requires
        deltas@.len() == old(agents)@.len(),
        forall|i: int| 0 <= i < old(agents)@.len() ==> delta_addable(
            #[trigger] old(agents)@[i],
            deltas@[i],
        ),
    ensures
        final(agents)@.len() == old(agents)@.len(),
        forall|i: int| 0 <= i < old(agents)@.len() ==> {
            let a0 = old(agents)@[i];
            let a = #[trigger] final(agents)@[i];
            &&& a.position == a0.position
            &&& a.velocity.x as int == perturbed_coord(a0.velocity.x as int, deltas@[i].x as int)
            &&& a.velocity.y as int == perturbed_coord(a0.velocity.y as int, deltas@[i].y as int)
        },
{
    let n = agents.len();
    for k in 0..n
        invariant
            n == old(agents)@.len(),
            agents@.len() == n as int,
            deltas@.len() == n as int,
            forall|i: int| k as int <= i < n as int ==> #[trigger] agents@[i] == old(agents)@[i],
            forall|i: int| 0 <= i < old(agents)@.len() ==> delta_addable(
                #[trigger] old(agents)@[i],
                deltas@[i],
            ),
            forall|i: int| 0 <= i < k as int ==> {
                let a0 = old(agents)@[i];
                let a = #[trigger] agents@[i];
                &&& a.position == a0.position
                &&& a.velocity.x as int == perturbed_coord(
                    a0.velocity.x as int,
                    deltas@[i].x as int,
                )
                &&& a.velocity.y as int == perturbed_coord(
                    a0.velocity.y as int,
                    deltas@[i].y as int,
                )
            },
    {
        let a = agents[k];
        let d = deltas[k];
        let updated = Agent {
            position: a.position,
            velocity: Vec2I { x: a.velocity.x + d.x, y: a.velocity.y + d.y },
        };
        agents.set(k, updated);
    }
}

/// The velocity of agent `a` leaves room for one full perturbation in
/// `i64`.
pub open spec fn randomizable(a: Agent) -> bool {
    &&& i64::MIN + RANDOMIZE_SCALE <= a.velocity.x as int <= i64::MAX - RANDOMIZE_SCALE
    &&& i64::MIN + RANDOMIZE_SCALE <= a.velocity.y as int <= i64::MAX - RANDOMIZE_SCALE
}

/// The velocity randomizer: adds an independent random offset from
/// `[-RANDOMIZE_SCALE, RANDOMIZE_SCALE]` to each velocity component of each
/// agent. Positions are untouched. This is an unbounded additive random
/// walk: across frames, nothing ever clamps the accumulated velocity.
pub fn randomize_velocities(agents: &mut Vec<Agent>)
    requires
        forall|i: int| 0 <= i < old(agents)@.len() ==> randomizable(#[trigger] old(agents)@[i]),
    ensures
        final(agents)@.len() == old(agents)@.len(),
        forall|i: int| 0 <= i < old(agents)@.len() ==> {
            let a0 = old(agents)@[i];
            let a = #[trigger] final(agents)@[i];
            &&& a.position == a0.position
            &&& -(RANDOMIZE_SCALE as int) <= a.velocity.x as int - a0.velocity.x as int
                <= RANDOMIZE_SCALE as int
            &&& -(RANDOMIZE_SCALE as int) <= a.velocity.y as int - a0.velocity.y as int
                <= RANDOMIZE_SCALE as int
        },
{
    let n = agents.len();
    let mut deltas: Vec<Vec2I> = Vec::new();
    for k in 0..n
        invariant
            agents@ == old(agents)@,
            n == agents@.len(),
            deltas@.len() == k as int,
            forall|i: int| 0 <= i < deltas@.len() ==> {
                let d = #[trigger] deltas@[i];
                &&& -(RANDOMIZE_SCALE as int) <= d.x as int <= RANDOMIZE_SCALE as int
                &&& -(RANDOMIZE_SCALE as int) <= d.y as int <= RANDOMIZE_SCALE as int
            },
    {
        deltas.push(random_velocity(RANDOMIZE_SCALE));
    }
    proof {
        assert forall|i: int| 0 <= i < agents@.len() implies delta_addable(
            #[trigger] agents@[i],
            deltas@[i],
        ) by {
            assert(randomizable(old(agents)@[i]));
        }
    }
    perturb_velocities(agents, &deltas);
}

/// The integrator: advances every agent's position by
/// `velocity * dt_ms * time_scale`, exact in fixed point. Velocities are
/// untouched; a total function of the state, with no failure mode.
pub fn integrate_positions(agents: &mut Vec<Agent>, dt_ms: u32, time_scale: u8)
    requires
        time_scale_valid(time_scale as int),
        dt_ms <= DT_BOUND,
        forall|i: int| 0 <= i < old(agents)@.len() ==> agent_in_step_bounds(
            #[trigger] old(agents)@[i],
        ),
    ensures
        final(agents)@.len() == old(agents)@.len(),
        forall|i: int| 0 <= i < old(agents)@.len() ==> {
            let a0 = old(agents)@[i];
            let a = #[trigger] final(agents)@[i];
            &&& a.velocity == a0.velocity
            &&& a.position.x as int == integrated_coord(
                a0.position.x as int,
                a0.velocity.x as int,
                dt_ms as int,
                time_scale as int,
            )
            &&& a.position.y as int == integrated_coord(
                a0.position.y as int,
                a0.velocity.y as int,
                dt_ms as int,
                time_scale as int,
            )
        },
{
    let n = agents.len();
    for k in 0..n
        invariant
            time_scale_valid(time_scale as int),
            dt_ms <= DT_BOUND,
            n == old(agents)@.len(),
            agents@.len() == n as int,
            forall|i: int| k as int <= i < n as int ==> #[trigger] agents@[i] == old(agents)@[i],
            forall|i: int| 0 <= i < old(agents)@.len() ==> agent_in_step_bounds(
                #[trigger] old(agents)@[i],
            ),
            forall|i: int| 0 <= i < k as int ==> {
                let a0 = old(agents)@[i];
                let a = #[trigger] agents@[i];
                &&& a.velocity == a0.velocity
                &&& a.position.x as int == integrated_coord(
                    a0.position.x as int,
                    a0.velocity.x as int,
                    dt_ms as int,
                    time_scale as int,
                )
                &&& a.position.y as int == integrated_coord(
                    a0.position.y as int,
                    a0.velocity.y as int,
                    dt_ms as int,
                    time_scale as int,
                )
            },
    {
        let a = agents[k];
        proof {
            assert(agent_in_step_bounds(a));
            lemma_integration_in_range(
                a.position.x as int,
                a.velocity.x as int,
                dt_ms as int,
                time_scale as int,
            );
            lemma_integration_in_range(
                a.position.y as int,
                a.velocity.y as int,
                dt_ms as int,
                time_scale as int,
            );
        }
        let step_x: i64 = a.velocity.x * (dt_ms as i64) * (time_scale as i64);
        let step_y: i64 = a.velocity.y * (dt_ms as i64) * (time_scale as i64);
        let updated = Agent {
            position: Vec2I { x: a.position.x + step_x, y: a.position.y + step_y },
            velocity: a.velocity,
        };
        agents.set(k, updated);
    }
}

impl Simulation {
    /// One frame of the steady-state loop, in the required order: the clock
    /// update first, then the velocity randomizer, then the integrator — so
    /// each position step uses the frame's freshly perturbed velocity and
    /// the freshly updated time scale.
    pub fn tick(&mut self, dt_ms: u32, events: ControlEvents)
        requires
            old(self).wf(),
            dt_ms <= DT_BOUND,
            forall|i: int| 0 <= i < old(self).agents@.len() ==> agent_in_tick_bounds(
                #[trigger] old(self).agents@[i],
            ),
        ensures
            final(self).wf(),
            final(self).home == old(self).home,
            final(self).time_scale as int == step_time_scale(
                old(self).time_scale as int,
                events.increase,
                events.decrease,
            ),
            final(self).agents@.len() == old(self).agents@.len(),
            forall|i: int| 0 <= i < old(self).agents@.len() ==> {
                let a0 = old(self).agents@[i];
                let a = #[trigger] final(self).agents@[i];
                &&& -(RANDOMIZE_SCALE as int) <= a.velocity.x as int - a0.velocity.x as int
                    <= RANDOMIZE_SCALE as int
                &&& -(RANDOMIZE_SCALE as int) <= a.velocity.y as int - a0.velocity.y as int
                    <= RANDOMIZE_SCALE as int
                &&& a.position.x as int == integrated_coord(
                    a0.position.x as int,
                    a.velocity.x as int,
                    dt_ms as int,
                    final(self).time_scale as int,
                )
                &&& a.position.y as int == integrated_coord(
                    a0.position.y as int,
                    a.velocity.y as int,
                    dt_ms as int,
                    final(self).time_scale as int,
                )
            },
    {
        self.time_scale = stepped_time_scale(self.time_scale, events);
        proof {
            assert forall|i: int| 0 <= i < self.agents@.len() implies randomizable(
                #[trigger] self.agents@[i],
            ) by {
                assert(agent_in_tick_bounds(old(self).agents@[i]));
            }
        }
        randomize_velocities(&mut self.agents);
        proof {
            assert forall|i: int| 0 <= i < self.agents@.len() implies agent_in_step_bounds(
                #[trigger] self.agents@[i],
            ) by {
                assert(agent_in_tick_bounds(old(self).agents@[i]));
            }
        }
        integrate_positions(&mut self.agents, dt_ms, self.time_scale);
    }

    /// Whether one call of `tick` with this frame duration is within the
    /// fixed-point headroom. The host loop checks this before each frame.
    pub fn tick_ready(&self, dt_ms: u32) -> (r: bool)
        ensures
            r == ({
                &&& self.wf()
                &&& dt_ms <= DT_BOUND
                &&& forall|i: int| 0 <= i < self.agents@.len() ==> agent_in_tick_bounds(
                    #[trigger] self.agents@[i],
                )
            }),
    {
        if self.time_scale < TIME_SCALE_MIN || self.time_scale > crate::clock::TIME_SCALE_MAX {
            return false;
        }
        if dt_ms > DT_BOUND {
            return false;
        }
        let n = self.agents.len();
        let mut k: usize = 0;
        while k < n
            invariant
                n == self.agents@.len(),
                k <= n,
                forall|i: int| 0 <= i < k as int ==> agent_in_tick_bounds(
                    #[trigger] self.agents@[i],
                ),
            decreases n - k,
        {
            let a = self.agents[k];
            let pos_ok = -POS_BOUND <= a.position.x && a.position.x <= POS_BOUND
                && -POS_BOUND <= a.position.y && a.position.y <= POS_BOUND;
            let vel_ok = -TICK_VEL_BOUND <= a.velocity.x && a.velocity.x <= TICK_VEL_BOUND
                && -TICK_VEL_BOUND <= a.velocity.y && a.velocity.y <= TICK_VEL_BOUND;
            if !(pos_ok && vel_ok) {
                return false;
            }
            k = k + 1;
        }
        true
    }
}

} // verus!
