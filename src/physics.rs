use vstd::prelude::*;

use crate::timeline::Timeline;
use crate::world::World;

verus! {

/// The stages of the simulation domain's pipeline.
#[derive(Debug, Copy, Clone, PartialEq, Eq)]
pub enum PhysicsStage {
    Extract,
    PrePhysics,
    RapierSyncBackend,
    RapierStepSimulation,
    RapierWriteback,
    RapierDetectDespawn,
    PostPhysics,
    Writeback,
}

/// The work that one tick does to the simulation domain, stage by stage:
/// the physics engine and the systems registered around it.
pub trait PhysicsSchedule<C, R> {
    fn run_stage(&mut self, stage: PhysicsStage, world: &mut World<C, R>, clock: &Timeline);
}

/// The tick that a presentation timestamp asks for: the number of whole ticks
/// of `delta` clock units that fit before it, and 0 before the clock's origin.
pub open spec fn target_tick_for(timestamp: int, delta: int) -> int {
    if timestamp < 0 {
        0
    } else {
        timestamp / delta
    }
}

/// The simulation domain: its own world and clock, the tick it has reached
/// (none before it first runs), the tick it is asked to reach, and the
/// duration of one tick in clock units.
pub struct PhysicsApp<C, R> {
    pub world: World<C, R>,
    pub clock: Timeline,
    pub target_tick: u64,
    pub delta: i64,
    pub current_tick: Option<u64>,
}

impl<C, R> PhysicsApp<C, R> {
    /// The tick reached so far, -1 before the first one.
    pub open spec fn spec_current_tick(&self) -> int {
        match self.current_tick {
            Some(t) => t as int,
            None => -1,
        }
    }

    pub open spec fn spec_delta_ticks(&self) -> int {
        self.target_tick - self.spec_current_tick()
    }

    /// The tick duration is positive, and the clock value of every tick up to
    /// the ones in play fits in the clock.
    pub open spec fn wf(&self) -> bool {
        &&& self.delta > 0
        &&& self.target_tick * self.delta <= i64::MAX
        &&& self.target_tick < i64::MAX
        &&& self.spec_current_tick() * self.delta <= i64::MAX
    }

    /// A simulation domain that has never run, with ticks of `delta` clock units.
    pub fn new(world: World<C, R>, delta: i64) -> (r: PhysicsApp<C, R>)
        requires
            delta > 0,
        ensures
            r.world == world,
            r.delta == delta,
            r.target_tick == 0,
            r.spec_current_tick() == -1,
            r.clock == Timeline::spec_new(),
            r.wf(),
    {
        PhysicsApp { world, clock: Timeline::new(), target_tick: 0, delta, current_tick: None }
    }

    /// The tick reached so far, -1 before the first one.
    pub fn current_tick(&self) -> (r: i64)
        requires
            self.wf(),
        ensures
            r == self.spec_current_tick(),
    {
        match self.current_tick {
            Some(t) => {
                proof {
                    let d = self.delta as int;
                    assert(t <= t * d) by (nonlinear_arith)
                        requires
                            d >= 1,
                    ;
                }
                t as i64
            },
            None => -1,
        }
    }

    /// Aims the simulation at the tick that the presentation clock has reached.
    pub fn dispatch_physics(&mut self, timeline: &Timeline)
        requires
            old(self).wf(),
            timeline.timestamp < i64::MAX,
        ensures
            final(self).target_tick == target_tick_for(timeline.timestamp as int, old(self).delta as int),
            final(self).world == old(self).world,
            final(self).clock == old(self).clock,
            final(self).delta == old(self).delta,
            final(self).spec_current_tick() == old(self).spec_current_tick(),
            final(self).wf(),
    {
        let ts = timeline.timestamp;
        let target: i64 = if ts < 0 { 0 } else { ts / self.delta };
        proof {
            if ts >= 0 {
                vstd::arithmetic::div_mod::lemma_fundamental_div_mod(ts as int, self.delta as int);
                vstd::arithmetic::div_mod::lemma_mod_pos_bound(ts as int, self.delta as int);
                assert(target * self.delta <= ts) by (nonlinear_arith)
                    requires
                        self.delta * target + ts % self.delta == ts,
                        ts % self.delta >= 0,
                ;
            }
        }
        proof {
            if ts >= 0 {
                let d = self.delta as int;
                assert(target <= ts) by (nonlinear_arith)
                    requires
                        target * d <= ts,
                        d >= 1,
                        target >= 0,
                ;
            }
        }
        self.target_tick = target as u64;
    }

    /// How many ticks the simulation owes: positive to run forward, negative
    /// to run backward.
    pub fn delta_ticks(&self) -> (r: i64)
        requires
            self.wf(),
        ensures
            r == self.spec_delta_ticks(),
    {
        proof {
            let (t, d) = (self.target_tick as int, self.delta as int);
            assert(t <= t * d) by (nonlinear_arith)
                requires
                    d >= 1,
                    t >= 0,
            ;
        }
        let cur = self.current_tick();
        self.target_tick as i64 - cur
    }
}

/// The simulation clock after it is set for the tick `tick`: one tick of
/// `delta` units per tick number, with the value before it kept as the
/// previous timestamp.
pub open spec fn clock_at(clock: Timeline, tick: int, delta: int) -> Timeline {
    Timeline { timestamp: (delta * tick) as i64, prev_timestamp: clock.timestamp, timescale: clock.timescale }
}

/// Tick reached and simulation clock after `n` ticks from tick `cur`, each one
/// moving by `dir` (1 forward, -1 backward).
pub open spec fn episode_state(cur: int, n: nat, dir: int, delta: int, clock: Timeline) -> (int, Timeline)
    decreases n,
{
    if n == 0 {
        (cur, clock)
    } else {
        episode_state(cur + dir, (n - 1) as nat, dir, delta, clock_at(clock, cur, delta))
    }
}

/// The direction in which a tick difference is caught up.
pub open spec fn direction(delta_ticks: int) -> int {
    if delta_ticks < 0 {
        -1
    } else {
        1
    }
}

pub open spec fn abs(x: int) -> nat {
    if x < 0 {
        (-x) as nat
    } else {
        x as nat
    }
}

/// Running `m + k` ticks is running `m` ticks, then `k` more from where they
/// ended: catching up several ticks at once makes no approximation.
pub proof fn lemma_episode_split(cur: int, m: nat, k: nat, dir: int, delta: int, clock: Timeline)
    ensures
        episode_state(cur, m + k, dir, delta, clock) == ({
            let mid = episode_state(cur, m, dir, delta, clock);
            episode_state(mid.0, k, dir, delta, mid.1)
        }),
    decreases m,
{
    if m > 0 {
        lemma_episode_split(cur + dir, (m - 1) as nat, k, dir, delta, clock_at(clock, cur, delta));
        assert((m + k - 1) as nat == (m - 1) as nat + k);
    }
}

/// The tick reached after `n` ticks is `cur + n * dir`.
pub proof fn lemma_episode_tick(cur: int, n: nat, dir: int, delta: int, clock: Timeline)
    ensures
        episode_state(cur, n, dir, delta, clock).0 == cur + n * dir,
    decreases n,
{
    if n == 0 {
        assert(n * dir == 0);
    } else {
        let m = (n - 1) as nat;
        lemma_episode_tick(cur + dir, m, dir, delta, clock_at(clock, cur, delta));
        assert(m * dir + dir == n * dir) by (nonlinear_arith)
            requires
                m == n - 1,
        ;
    }
}

/// An episode of `n` ticks is `n` episodes of one tick each, run in turn.
pub proof fn lemma_episode_is_single_ticks(cur: int, n: nat, dir: int, delta: int, clock: Timeline)
    ensures
        n > 0 ==> episode_state(cur, n, dir, delta, clock) == ({
            let first = episode_state(cur, 1, dir, delta, clock);
            episode_state(first.0, (n - 1) as nat, dir, delta, first.1)
        }),
{
    if n > 0 {
        lemma_episode_split(cur, 1, (n - 1) as nat, dir, delta, clock);
        assert(1 + (n - 1) as nat == n);
    }
}

/// Catching up from any tick to the target tick reaches exactly the target.
pub proof fn lemma_catch_up_reaches_target(cur: int, target: int, delta: int, clock: Timeline)
    ensures
        episode_state(cur, abs(target - cur), direction(target - cur), delta, clock).0 == target,
{
    lemma_episode_tick(cur, abs(target - cur), direction(target - cur), delta, clock);
    assert(abs(target - cur) * direction(target - cur) == target - cur);
}

impl<C, R> PhysicsApp<C, R> {
    /// Runs one tick: sets the clock for the tick reached so far, runs the
    /// pipeline's stages in order, and moves the tick by `dir`.
    fn run_tick<S: PhysicsSchedule<C, R>>(&mut self, schedule: &mut S, dir: i64)
        requires
            dir == 1 || dir == -1,
            old(self).delta > 0,
            i64::MIN <= old(self).delta * old(self).spec_current_tick() <= i64::MAX,
            0 <= old(self).spec_current_tick() + dir <= i64::MAX,
            old(self).spec_current_tick() <= i64::MAX,
        ensures
            final(self).spec_current_tick() == old(self).spec_current_tick() + dir,
            final(self).clock == clock_at(old(self).clock, old(self).spec_current_tick(), old(self).delta as int),
            final(self).target_tick == old(self).target_tick,
            final(self).delta == old(self).delta,
    {
        let cur: i64 = match self.current_tick {
            Some(t) => t as i64,
            None => -1,
        };
        self.clock.prev_timestamp = self.clock.timestamp;
        self.clock.timestamp = self.delta * cur;
        schedule.run_stage(PhysicsStage::PrePhysics, &mut self.world, &self.clock);
        schedule.run_stage(PhysicsStage::RapierSyncBackend, &mut self.world, &self.clock);
        schedule.run_stage(PhysicsStage::RapierStepSimulation, &mut self.world, &self.clock);
        schedule.run_stage(PhysicsStage::RapierWriteback, &mut self.world, &self.clock);
        schedule.run_stage(PhysicsStage::RapierDetectDespawn, &mut self.world, &self.clock);
        schedule.run_stage(PhysicsStage::PostPhysics, &mut self.world, &self.clock);
        self.current_tick = Some((cur + dir) as u64);
    }

    /// Catches the simulation up to its target tick: as many ticks as it
    /// owes, one after another, forward or backward.
    pub fn run_episode<S: PhysicsSchedule<C, R>>(&mut self, schedule: &mut S)
        requires
            old(self).wf(),
        ensures
            (final(self).spec_current_tick(), final(self).clock) == episode_state(
                old(self).spec_current_tick(),
                abs(old(self).spec_delta_ticks()),
                direction(old(self).spec_delta_ticks()),
                old(self).delta as int,
                old(self).clock,
            ),
            final(self).spec_current_tick() == old(self).target_tick,
            final(self).target_tick == old(self).target_tick,
            final(self).delta == old(self).delta,
            final(self).wf(),
    {
        let ghost cur0 = self.spec_current_tick();
        let ghost clock0 = self.clock;
        let ghost delta = self.delta as int;
        proof {
            if cur0 >= 0 {
                assert(cur0 <= cur0 * delta) by (nonlinear_arith)
                    requires
                        delta >= 1,
                        cur0 >= 0,
                ;
            }
        }
        let delta_ticks = self.delta_ticks();
        let dir: i64 = if delta_ticks < 0 { -1 } else { 1 };
        let n: u64 = if delta_ticks < 0 { (0 - delta_ticks) as u64 } else { delta_ticks as u64 };
        let ghost target = self.target_tick as int;
        let mut i: u64 = 0;
        while i < n
            invariant
                n == abs(target - cur0),
                dir == direction(target - cur0),
                i <= n,
                self.delta == delta,
                self.target_tick == target,
                delta > 0,
                target * delta <= i64::MAX,
                cur0 * delta <= i64::MAX,
                -1 <= cur0,
                0 <= target < i64::MAX,
                (self.spec_current_tick(), self.clock) == episode_state(cur0, i as nat, dir as int, delta, clock0),
                self.spec_current_tick() == cur0 + i * dir,
            decreases n - i,
        {
            proof {
                let c = self.spec_current_tick();
                if dir == 1 {
                    assert(c < target);
                    vstd::arithmetic::mul::lemma_mul_inequality(c, target, delta);
                } else {
                    assert(i * dir == -i) by (nonlinear_arith)
                        requires
                            dir == -1,
                    ;
                    assert(target < c <= cur0);
                    vstd::arithmetic::mul::lemma_mul_inequality(c, cur0, delta);
                }
                vstd::arithmetic::mul::lemma_mul_inequality(-1, c, delta);
                if c >= 0 {
                    assert(c <= c * delta) by (nonlinear_arith)
                        requires
                            delta >= 1,
                            c >= 0,
                    ;
                }
                lemma_episode_split(cur0, i as nat, 1, dir as int, delta, clock0);
                let mid = episode_state(cur0, i as nat, dir as int, delta, clock0);
                assert(episode_state(mid.0, 1, dir as int, delta, mid.1) == episode_state(
                    mid.0 + dir,
                    0,
                    dir as int,
                    delta,
                    clock_at(mid.1, mid.0, delta),
                ));
                assert(i as nat + 1 == (i + 1) as nat);
            }
            self.run_tick(schedule, dir);
            proof {
                assert(cur0 + i * dir + dir == cur0 + (i + 1) * dir) by (nonlinear_arith);
                assert((self.spec_current_tick(), self.clock) == episode_state(
                    cur0,
                    (i + 1) as nat,
                    dir as int,
                    delta,
                    clock0,
                ));
            }
            i = i + 1;
        }
        proof {
            lemma_catch_up_reaches_target(cur0, target, delta, clock0);
        }
    }
}

impl<C, R> PhysicsApp<C, R> {
    /// Whether this simulation domain meets `wf`, checked at run time.
    pub fn is_wf(&self) -> (b: bool)
        ensures
            b == self.wf(),
    {
        if self.delta <= 0 || self.target_tick >= i64::MAX as u64 {
            return false;
        }
        let target_ok = match (self.target_tick as i64).checked_mul(self.delta) {
            Some(_) => true,
            None => false,
        };
        let current_ok = match self.current_tick {
            Some(t) => if t > i64::MAX as u64 {
                proof {
                    let d = self.delta as int;
                    assert(t * d >= t) by (nonlinear_arith)
                        requires
                            d >= 1,
                            t >= 0,
                    ;
                }
                false
            } else {
                match (t as i64).checked_mul(self.delta) {
                    Some(_) => true,
                    None => false,
                }
            },
            None => true,
        };
        target_ok && current_ok
    }
}

/// A background episode: the simulation domain, owned by the episode until it
/// has caught up with its target tick.
pub struct PhysicsTask<C, R> {
    pub app: PhysicsApp<C, R>,
}

/// What an episode hands back: the same domain, caught up by the ticks it owed.
pub open spec fn run_post<C, R>(app0: PhysicsApp<C, R>, app1: PhysicsApp<C, R>) -> bool {
    &&& (app1.spec_current_tick(), app1.clock) == episode_state(
        app0.spec_current_tick(),
        abs(app0.spec_delta_ticks()),
        direction(app0.spec_delta_ticks()),
        app0.delta as int,
        app0.clock,
    )
    &&& app1.spec_current_tick() == app0.target_tick
    &&& app1.target_tick == app0.target_tick
    &&& app1.delta == app0.delta
    &&& app1.wf()
}

impl<C, R> PhysicsTask<C, R> {
    /// Runs the episode to completion and hands the simulation domain back.
    pub fn run<S: PhysicsSchedule<C, R>>(self, schedule: &mut S) -> (r: PhysicsApp<C, R>)
        requires
            self.app.wf(),
        ensures
            run_post(self.app, r),
    {
        let mut app = self.app;
        app.run_episode(schedule);
        app
    }
}

} // verus!
