use ant_sim::agent::{Agent, Vec2I, DT_BOUND, RANDOMIZE_SCALE, SPAWN_SCALE};
use ant_sim::clock::ControlEvents;
use ant_sim::sim::{
    integrate_positions, perturb_velocities, randomize_velocities, spawn_agents, Simulation,
    SpawnConfig,
};

fn agent(px: i64, py: i64, vx: i64, vy: i64) -> Agent {
    Agent { position: Vec2I { x: px, y: py }, velocity: Vec2I { x: vx, y: vy } }
}

#[test]
fn spawn_zero_agents() {
    let config = SpawnConfig { ant_count: 0 };
    let agents = spawn_agents(&config, Vec2I { x: 5, y: -5 });
    assert_eq!(agents.len(), 0);
}

#[test]
fn spawn_count_home_and_velocity_window() {
    let home = Vec2I { x: 42, y: -17 };
    let config = SpawnConfig { ant_count: 100 };
    let agents = spawn_agents(&config, home);
    assert_eq!(agents.len(), 100);
    let scale = SPAWN_SCALE as i64;
    for a in &agents {
        assert_eq!(a.position, home);
        assert!(-scale <= a.velocity.x && a.velocity.x <= scale);
        assert!(-scale <= a.velocity.y && a.velocity.y <= scale);
    }
}

#[test]
fn new_simulation_starts_at_floor_scale() {
    let config = SpawnConfig { ant_count: 3 };
    let home = Vec2I { x: 0, y: 0 };
    let sim = Simulation::new(&config, home);
    assert_eq!(sim.time_scale, 1);
    assert_eq!(sim.home, home);
    assert_eq!(sim.agents.len(), 3);
    for a in &sim.agents {
        assert_eq!(a.position, home);
    }
}

#[test]
fn integrate_single_agent_exact_step() {
    // velocity of two units per second, half a second, unit time scale:
    // the position advances by exactly one unit
    let mut agents = vec![agent(0, 0, 2000, 0)];
    integrate_positions(&mut agents, 500, 1);
    assert_eq!(agents[0].position, Vec2I { x: 1_000_000, y: 0 });
    assert_eq!(agents[0].velocity, Vec2I { x: 2000, y: 0 });
}

#[test]
fn integrate_scales_with_time_scale() {
    let mut agents = vec![agent(100, -100, 2000, -500)];
    integrate_positions(&mut agents, 500, 3);
    assert_eq!(agents[0].position, Vec2I { x: 3_000_100, y: -750_100 });
}

#[test]
fn integrate_zero_duration_changes_nothing() {
    let mut agents = vec![
        agent(123, -456, 999_999_999, -999_999_999),
        agent(-1, 1, 0, 7),
    ];
    integrate_positions(&mut agents, 0, 3);
    assert_eq!(agents[0].position, Vec2I { x: 123, y: -456 });
    assert_eq!(agents[1].position, Vec2I { x: -1, y: 1 });
}

#[test]
fn perturb_then_integrate_matches_formula() {
    // the tick order randomize-then-integrate must move the position by
    // (old velocity + delta) * frame_ms * time_scale
    let mut agents = vec![agent(0, 0, 2000, -1000)];
    let deltas = vec![Vec2I { x: 300, y: -400 }];
    perturb_velocities(&mut agents, &deltas);
    assert_eq!(agents[0].velocity, Vec2I { x: 2300, y: -1400 });
    integrate_positions(&mut agents, 250, 2);
    assert_eq!(agents[0].position.x, (2000 + 300) * 250 * 2);
    assert_eq!(agents[0].position.y, (-1000 - 400) * 250 * 2);
}

#[test]
fn perturbation_leaves_positions_alone() {
    let mut agents = vec![agent(11, 22, 33, 44), agent(-11, -22, -33, -44)];
    let deltas = vec![Vec2I { x: 1000, y: -1000 }, Vec2I { x: -7, y: 7 }];
    perturb_velocities(&mut agents, &deltas);
    assert_eq!(agents[0].position, Vec2I { x: 11, y: 22 });
    assert_eq!(agents[1].position, Vec2I { x: -11, y: -22 });
    assert_eq!(agents[1].velocity, Vec2I { x: -40, y: -37 });
}

#[test]
fn velocity_walk_has_no_ceiling_over_ten_thousand_ticks() {
    // repeated maximal perturbations accumulate without any implicit clamp
    let mut agents = vec![agent(0, 0, 0, 0)];
    let step = RANDOMIZE_SCALE as i64;
    let deltas = vec![Vec2I { x: step, y: step }];
    for _ in 0..10_000 {
        perturb_velocities(&mut agents, &deltas);
    }
    assert_eq!(agents[0].velocity, Vec2I { x: 10_000_000, y: 10_000_000 });
    assert_eq!(agents[0].position, Vec2I { x: 0, y: 0 });
}

#[test]
fn randomizer_moves_velocity_within_window_only() {
    let mut agents = vec![agent(1, 2, 3, 4), agent(-5, -6, -7, -8)];
    let window = RANDOMIZE_SCALE as i64;
    for _ in 0..200 {
        let before: Vec<Agent> = agents.clone();
        randomize_velocities(&mut agents);
        assert_eq!(agents.len(), before.len());
        for (now, then) in agents.iter().zip(before.iter()) {
            assert_eq!(now.position, then.position);
            let dx = now.velocity.x - then.velocity.x;
            let dy = now.velocity.y - then.velocity.y;
            assert!(-window <= dx && dx <= window);
            assert!(-window <= dy && dy <= window);
        }
    }
}

#[test]
fn tick_runs_clock_randomizer_then_integrator() {
    let mut sim = Simulation {
        agents: vec![agent(0, 0, 2000, 0)],
        home: Vec2I { x: 0, y: 0 },
        time_scale: 1,
    };
    let events = ControlEvents { increase: true, decrease: false };
    assert!(sim.tick_ready(500));
    sim.tick(500, events);
    // the clock moved first, so the integrator used the raised scale
    assert_eq!(sim.time_scale, 2);
    let a = sim.agents[0];
    let window = RANDOMIZE_SCALE as i64;
    let dx = a.velocity.x - 2000;
    let dy = a.velocity.y;
    assert!(-window <= dx && dx <= window);
    assert!(-window <= dy && dy <= window);
    // the position step used the freshly perturbed velocity
    assert_eq!(a.position.x, a.velocity.x * 500 * 2);
    assert_eq!(a.position.y, a.velocity.y * 500 * 2);
}

#[test]
fn tick_ready_accepts_a_fresh_simulation() {
    let config = SpawnConfig { ant_count: 4 };
    let sim = Simulation::new(&config, Vec2I { x: 0, y: 0 });
    assert!(sim.tick_ready(16));
    assert!(sim.tick_ready(DT_BOUND));
}

#[test]
fn tick_ready_rejects_oversized_frames_and_runaway_agents() {
    let config = SpawnConfig { ant_count: 1 };
    let sim = Simulation::new(&config, Vec2I { x: 0, y: 0 });
    assert!(!sim.tick_ready(DT_BOUND + 1));

    let runaway = Simulation {
        agents: vec![agent(0, 0, i64::MAX, 0)],
        home: Vec2I { x: 0, y: 0 },
        time_scale: 1,
    };
    assert!(!runaway.tick_ready(16));

    let bad_clock = Simulation {
        agents: vec![],
        home: Vec2I { x: 0, y: 0 },
        time_scale: 0,
    };
    assert!(!bad_clock.tick_ready(16));
}
