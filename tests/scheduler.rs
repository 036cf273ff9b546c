use tickfork::fixed_tick::fixed_tick;
use tickfork::lerp::{LerpFactor, LerpTransform};
use tickfork::physics::{PhysicsApp, PhysicsSchedule, PhysicsStage};
use tickfork::scheduler::Presentation;
use tickfork::transfer::{extract, writeback, TransferRegistry};
use tickfork::timeline::Timeline;
use tickfork::world::World;

/// A pipeline that adds one to every component of kind 0 on each step, and
/// records the clock values it saw.
struct Counter {
    seen: Vec<i64>,
}

impl PhysicsSchedule<i64, u32> for Counter {
    fn run_stage(&mut self, stage: PhysicsStage, world: &mut World<i64, u32>, clock: &Timeline) {
        if stage == PhysicsStage::RapierStepSimulation {
            self.seen.push(clock.timestamp);
            for slot in world.components[0].iter_mut() {
                if let Some(v) = slot {
                    *v += 1;
                }
            }
        }
    }
}

fn presentation_world() -> World<i64, u32> {
    let mut w: World<i64, u32> = World::new(2, vec![Some(7)]);
    w.meta_len = 3;
    w.components[0] = vec![Some(10), None, Some(30)];
    w.components[1] = vec![Some(1), Some(2), Some(3)];
    w
}

fn presentation(delta: i64) -> Presentation<i64, u32> {
    let sim: World<i64, u32> = World::new(2, vec![None]);
    let app = PhysicsApp::new(sim, delta);
    let registry = TransferRegistry { extract: vec![0, 1], writeback: vec![0] };
    Presentation::new(presentation_world(), Timeline::new(), registry, app)
}

#[test]
fn timeline_tick_and_delta() {
    let mut t = Timeline::new();
    t.timescale = 2;
    t.tick(5);
    assert_eq!(t.timestamp, 10);
    assert_eq!(t.prev_timestamp, 0);
    assert_eq!(t.delta(), 10);
    t.tick(-1);
    assert_eq!(t.timestamp, 8);
    assert_eq!(t.delta(), -2);
}

#[test]
fn tick_gate_fires_once_per_step() {
    let mut gate = fixed_tick(250).unwrap();
    assert!(!gate.check(0));
    assert!(!gate.check(240));
    assert_eq!(gate.last_tick, 0);
    assert!(gate.check(260));
    assert_eq!(gate.last_tick, 250);
    assert!(!gate.check(260));
}

#[test]
fn tick_gate_fires_once_under_a_large_jump_and_backward() {
    let mut gate = fixed_tick(100).unwrap();
    assert!(gate.check(1000));
    assert_eq!(gate.last_tick, 100);
    assert!(gate.check(-50));
    assert_eq!(gate.last_tick, 0);
}

#[test]
fn tick_gate_refuses_a_step_that_is_not_positive() {
    assert!(fixed_tick(0).is_none());
    assert!(fixed_tick(-5).is_none());
}

#[test]
fn interpolation_at_the_midpoint() {
    let mut h: LerpTransform<f64> = LerpTransform::new();
    h.push_sample(0, 4.0);
    h.push_sample(1000, 8.0);
    let f = h.lerp_factor(500).unwrap();
    assert_eq!(f, LerpFactor { num: 500, den: 1000 });
    let t = f.num as f64 / f.den as f64;
    let older = h.timestamps[1].1;
    let newer = h.timestamps[0].1;
    assert_eq!(older + (newer - older) * t, 6.0);
}

#[test]
fn interpolation_extrapolates_and_skips_degenerate_intervals() {
    let mut h: LerpTransform<u8> = LerpTransform::new();
    assert!(h.lerp_factor(0).is_none());
    h.push_sample(100, 1);
    assert!(h.lerp_factor(0).is_none());
    h.push_sample(100, 2);
    assert!(h.lerp_factor(50).is_none());
    h.push_sample(200, 3);
    assert_eq!(h.timestamps.len(), 2);
    assert_eq!(h.timestamps[0], (200, 3));
    assert_eq!(h.timestamps[1], (100, 2));
    assert_eq!(h.lerp_factor(350).unwrap(), LerpFactor { num: 150, den: 100 });
}

#[test]
fn target_tick_follows_the_presentation_clock() {
    let mut app: PhysicsApp<i64, u32> = PhysicsApp::new(World::new(0, vec![]), 100);
    assert_eq!(app.current_tick(), -1);
    let mut t = Timeline::new();
    t.timestamp = 399;
    app.dispatch_physics(&t);
    assert_eq!(app.target_tick, 3);
    t.timestamp = -20;
    app.dispatch_physics(&t);
    assert_eq!(app.target_tick, 0);
}

#[test]
fn fork_run_join_reaches_the_target_tick() {
    let mut p = presentation(100);
    p.advance(350);
    let task = p.fork_physics().expect("ticks are owed");
    assert!(p.task_in_flight);
    assert_eq!(p.world.resources[0], Some(0));
    assert_eq!(task.app.world.resources[0], Some(7));
    assert_eq!(task.app.world.components[0], vec![Some(10), None, Some(30)]);
    let mut counter = Counter { seen: vec![] };
    let done = task.run(&mut counter);
    assert_eq!(counter.seen, vec![-100, 0, 100, 200]);
    assert_eq!(done.current_tick(), 3);
    assert_eq!(done.clock.timestamp, 200);
    assert!(p.join_physics(done).is_ok());
    assert!(!p.task_in_flight);
    assert_eq!(p.world.components[0], vec![Some(14), None, Some(34)]);
    assert_eq!(p.world.components[1], vec![Some(1), Some(2), Some(3)]);
    assert_eq!(p.world.resources[0], Some(7));
    let idle = p.physics_app.as_ref().unwrap();
    assert_eq!(idle.current_tick(), 3);
    assert!(idle.world.is_empty());
}

#[test]
fn no_second_episode_while_one_is_in_flight() {
    let mut p = presentation(100);
    p.advance(100);
    let task = p.fork_physics();
    assert!(task.is_some());
    p.advance(500);
    assert!(p.fork_physics().is_none());
    assert!(p.fork_physics().is_none());
    assert!(p.task_in_flight);
    let done = task.unwrap().run(&mut Counter { seen: vec![] });
    assert!(p.join_physics(done).is_ok());
    assert!(p.fork_physics().is_some());
}

#[test]
fn idle_when_the_target_is_reached() {
    let mut p = presentation(100);
    p.advance(250);
    let done = p.fork_physics().unwrap().run(&mut Counter { seen: vec![] });
    assert!(p.join_physics(done).is_ok());
    let before = p.world.components.clone();
    p.advance(40);
    for _ in 0..3 {
        assert!(p.fork_physics().is_none());
        assert!(!p.task_in_flight);
    }
    assert_eq!(p.world.components, before);
    assert_eq!(p.physics_app.as_ref().unwrap().current_tick(), 2);
}

#[test]
fn backward_catch_up_runs_in_decreasing_order() {
    let mut p = presentation(100);
    p.advance(300);
    let done = p.fork_physics().unwrap().run(&mut Counter { seen: vec![] });
    assert!(p.join_physics(done).is_ok());
    p.timeline.timescale = -1;
    p.advance(150);
    let mut counter = Counter { seen: vec![] };
    let done = p.fork_physics().unwrap().run(&mut counter);
    assert_eq!(counter.seen, vec![300, 200]);
    assert_eq!(done.current_tick(), 1);
}

#[test]
fn one_episode_equals_single_tick_episodes() {
    let mut whole: PhysicsApp<i64, u32> = PhysicsApp::new(World::new(1, vec![]), 10);
    whole.target_tick = 3;
    let mut seen_whole = Counter { seen: vec![] };
    whole.run_episode(&mut seen_whole);
    let mut split: PhysicsApp<i64, u32> = PhysicsApp::new(World::new(1, vec![]), 10);
    let mut seen_split = Counter { seen: vec![] };
    for t in 0..=3 {
        split.target_tick = t;
        split.run_episode(&mut seen_split);
    }
    assert_eq!(whole.current_tick(), split.current_tick());
    assert_eq!(whole.clock, split.clock);
    assert_eq!(seen_whole.seen, seen_split.seen);
}

#[test]
fn extraction_then_writeback_is_a_round_trip() {
    let mut main = presentation_world();
    let mut sim: World<i64, u32> = World::new(2, vec![None]);
    extract(&mut main, &mut sim, &vec![0]);
    assert_eq!(sim.meta_len, 3);
    assert_eq!(sim.components[1], vec![None, None, None]);
    writeback(&mut sim, &mut main, &vec![0, 1]);
    let orig = presentation_world();
    assert_eq!(main.components, orig.components);
    assert_eq!(main.resources, orig.resources);
    assert_eq!(main.meta_len, orig.meta_len);
    assert_eq!(sim.resources, vec![None]);
}

#[test]
fn join_refuses_a_domain_without_its_resources() {
    let mut p = presentation(100);
    p.advance(100);
    let mut task = p.fork_physics().unwrap();
    task.app.world.resources[0] = None;
    let back = p.join_physics(task.app);
    assert!(back.is_err());
    assert!(p.task_in_flight);
}

#[test]
fn join_without_an_episode_is_refused() {
    let mut p = presentation(100);
    let stray: PhysicsApp<i64, u32> = PhysicsApp::new(World::new(2, vec![Some(1)]), 100);
    assert!(p.join_physics(stray).is_err());
}
