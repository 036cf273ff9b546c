use vstd::prelude::*;

use crate::physics::{run_post, target_tick_for, PhysicsApp, PhysicsTask};
use crate::timeline::Timeline;
use crate::transfer::{extract, extract_post, writeback, TransferRegistry};
use crate::world::{kinds_in_range, transferred, World};

verus! {

/// The presentation domain with the scheduler's state: its world and clock,
/// which component kinds cross to and from the simulation, and either the
/// idle simulation domain or an episode in flight.
pub struct Presentation<C, R> {
    pub world: World<C, R>,
    pub timeline: Timeline,
    pub registry: TransferRegistry,
    pub physics_app: Option<PhysicsApp<C, R>>,
    pub task_in_flight: bool,
}

/// Whether a simulation domain fits the presentation domain `main`: same
/// component kinds and resource kinds, and a valid tick state.
pub open spec fn fits<C, R>(app: PhysicsApp<C, R>, main: World<C, R>) -> bool {
    &&& app.wf()
    &&& app.world.n_kinds() == main.n_kinds()
    &&& app.world.n_resources() == main.n_resources()
}

impl<C, R> Presentation<C, R> {
    /// The presentation domain is consistent, holds every exclusive resource
    /// (or its placeholder), and the simulation domain is either idle and
    /// cleared of entities, or away in exactly one episode.
    pub open spec fn wf(&self) -> bool {
        &&& self.world.wf()
        &&& self.world.holds_resources()
        &&& kinds_in_range(self.registry.extract@, self.world, self.world)
        &&& kinds_in_range(self.registry.writeback@, self.world, self.world)
        &&& self.timeline.timestamp < i64::MAX
        &&& (self.task_in_flight <==> self.physics_app.is_none())
        &&& match self.physics_app {
            Some(app) => fits(app, self.world) && app.world.is_cleared(),
            None => true,
        }
    }

    /// Sets up the scheduler with an idle simulation domain.
    pub fn new(world: World<C, R>, timeline: Timeline, registry: TransferRegistry, physics_app: PhysicsApp<C, R>) -> (r: Presentation<C, R>)
        requires
            world.wf(),
            world.holds_resources(),
            kinds_in_range(registry.extract@, world, world),
            kinds_in_range(registry.writeback@, world, world),
            timeline.timestamp < i64::MAX,
            fits(physics_app, world),
            physics_app.world.is_cleared(),
        ensures
            r.wf(),
            r.world == world,
            r.timeline == timeline,
            r.physics_app == Some(physics_app),
            !r.task_in_flight,
    {
        Presentation { world, timeline, registry, physics_app: Some(physics_app), task_in_flight: false }
    }

    /// Advances the presentation clock by `dt` real units.
    pub fn advance(&mut self, dt: i64)
        requires
            old(self).wf(),
            old(self).timeline.can_tick(dt as int),
            old(self).timeline.timestamp + dt * old(self).timeline.timescale < i64::MAX,
        ensures
            final(self).wf(),
            final(self).timeline.timestamp == old(self).timeline.timestamp + dt * old(self).timeline.timescale,
            final(self).timeline.prev_timestamp == old(self).timeline.timestamp,
            final(self).world == old(self).world,
            final(self).physics_app == old(self).physics_app,
            final(self).task_in_flight == old(self).task_in_flight,
    {
        self.timeline.tick(dt);
    }
}

/// The outcome of one fork check. With an episode in flight nothing changes.
/// Otherwise the idle simulation domain is aimed at the tick that the
/// presentation clock asks for; if it is there already it stays idle, and if
/// not it receives the extracted state and leaves in an episode.
pub open spec fn fork_post<C, R>(p0: Presentation<C, R>, p1: Presentation<C, R>, r: Option<PhysicsTask<C, R>>) -> bool {
    if p0.task_in_flight {
        r.is_none() && p1 == p0
    } else {
        let a = p0.physics_app.unwrap();
        let t = target_tick_for(p0.timeline.timestamp as int, a.delta as int);
        &&& p1.timeline == p0.timeline
        &&& p1.registry == p0.registry
        &&& if t == a.spec_current_tick() {
            &&& r.is_none()
            &&& p1.world == p0.world
            &&& !p1.task_in_flight
            &&& p1.physics_app.is_some()
            &&& p1.physics_app.unwrap().target_tick == t
            &&& p1.physics_app.unwrap().current_tick == a.current_tick
            &&& p1.physics_app.unwrap().delta == a.delta
            &&& p1.physics_app.unwrap().clock == a.clock
            &&& p1.physics_app.unwrap().world == a.world
        } else {
            &&& r.is_some()
            &&& p1.task_in_flight
            &&& p1.physics_app.is_none()
            &&& r.unwrap().app.target_tick == t
            &&& r.unwrap().app.current_tick == a.current_tick
            &&& r.unwrap().app.delta == a.delta
            &&& r.unwrap().app.clock == a.clock
            &&& r.unwrap().app.wf()
            &&& extract_post(p0.world, a.world, p0.registry.extract@, p1.world, r.unwrap().app.world)
        }
    }
}

/// Whether a finished episode's domain can be written back into `p`.
pub open spec fn joinable<C, R>(p: Presentation<C, R>, app: PhysicsApp<C, R>) -> bool {
    &&& p.task_in_flight
    &&& fits(app, p.world)
    &&& app.world.holds_resources()
}

/// The outcome of joining a finished episode: its listed components and every
/// exclusive resource are written back into the presentation domain, and the
/// simulation domain, cleared of entities, is idle again with the tick it
/// reached. A domain that cannot be written back is handed back untouched.
pub open spec fn join_post<C, R>(
    p0: Presentation<C, R>,
    app: PhysicsApp<C, R>,
    p1: Presentation<C, R>,
    r: Result<(), PhysicsApp<C, R>>,
) -> bool {
    if !joinable(p0, app) {
        r == Err::<(), PhysicsApp<C, R>>(app) && p1 == p0
    } else {
        &&& r is Ok
        &&& p1.timeline == p0.timeline
        &&& p1.registry == p0.registry
        &&& !p1.task_in_flight
        &&& p1.world.meta_len == p0.world.meta_len
        &&& p1.world.n_kinds() == p0.world.n_kinds()
        &&& p1.world.stores() == transferred(app.world, p0.world, p0.registry.writeback@)
        &&& p1.world.resources@ == app.world.resources@
        &&& p1.physics_app.is_some()
        &&& p1.physics_app.unwrap().world.is_cleared()
        &&& p1.physics_app.unwrap().current_tick == app.current_tick
        &&& p1.physics_app.unwrap().target_tick == app.target_tick
        &&& p1.physics_app.unwrap().delta == app.delta
        &&& p1.physics_app.unwrap().clock == app.clock
    }
}

impl<C: Copy, R: Default> Presentation<C, R> {
    /// Checks once whether the simulation owes ticks, and if it does, extracts
    /// the presentation state into it and hands it out as an episode to run.
    pub fn fork_physics(&mut self) -> (r: Option<PhysicsTask<C, R>>)
        requires
            old(self).wf(),
        ensures
            fork_post(*old(self), *final(self), r),
            final(self).wf(),
    {
        if self.task_in_flight {
            return None;
        }
        let mut app = self.physics_app.take().unwrap();
        app.dispatch_physics(&self.timeline);
        if app.delta_ticks() == 0 {
            self.physics_app = Some(app);
            return None;
        }
        assert(app.world.is_cleared());
        extract(&mut self.world, &mut app.world, &self.registry.extract);
        self.task_in_flight = true;
        Some(PhysicsTask { app })
    }

    /// Whether a finished episode's domain can be written back (see `joinable`).
    pub fn is_joinable(&self, app: &PhysicsApp<C, R>) -> (b: bool)
        requires
            self.wf(),
        ensures
            b == joinable(*self, *app),
    {
        self.task_in_flight && app.is_wf() && app.world.components.len() == self.world.components.len()
            && app.world.resources.len() == self.world.resources.len() && app.world.has_resources()
    }

    /// Collects a finished episode: writes its state back into the presentation
    /// domain, clears its entities and keeps it idle for the next fork.
    pub fn join_physics(&mut self, finished: PhysicsApp<C, R>) -> (r: Result<(), PhysicsApp<C, R>>)
        requires
            old(self).wf(),
        ensures
            join_post(*old(self), finished, *final(self), r),
            final(self).wf(),
    {
        if !self.is_joinable(&finished) {
            return Err(finished);
        }
        let mut app = finished;
        writeback(&mut app.world, &mut self.world, &self.registry.writeback);
        app.world.clear_entities();
        self.physics_app = Some(app);
        self.task_in_flight = false;
        Ok(())
    }
}

/// A fork that hands out an episode, the episode run to completion, and the
/// join of its result leave the idle simulation domain at exactly the tick
/// that the presentation clock asked for at the fork.
pub proof fn lemma_fork_join_reaches_target<C, R>(
    p0: Presentation<C, R>,
    p1: Presentation<C, R>,
    task: PhysicsTask<C, R>,
    done: PhysicsApp<C, R>,
    p2: Presentation<C, R>,
    r: Result<(), PhysicsApp<C, R>>,
)
    requires
        p0.wf(),
        fork_post(p0, p1, Some(task)),
        run_post(task.app, done),
        join_post(p1, done, p2, r),
        r is Ok,
    ensures
        p2.physics_app.is_some(),
        p2.physics_app.unwrap().spec_current_tick() == target_tick_for(
            p0.timeline.timestamp as int,
            p0.physics_app.unwrap().delta as int,
        ),
{
}

/// While an episode is in flight, no fork check hands out another one or
/// changes anything, however often it runs before the join.
pub proof fn lemma_single_flight<C, R>(
    p0: Presentation<C, R>,
    p1: Presentation<C, R>,
    task: PhysicsTask<C, R>,
    p2: Presentation<C, R>,
    r2: Option<PhysicsTask<C, R>>,
)
    requires
        fork_post(p0, p1, Some(task)),
        fork_post(p1, p2, r2),
    ensures
        p1.task_in_flight,
        r2.is_none(),
        p2 == p1,
{
}

/// When the simulation already stands at the tick that the presentation clock
/// asks for, a fork check hands out no episode, leaves the presentation domain
/// as it was and keeps the simulation idle at that tick.
pub proof fn lemma_idle_never_spawns<C, R>(
    p0: Presentation<C, R>,
    p1: Presentation<C, R>,
    r: Option<PhysicsTask<C, R>>,
)
    requires
        p0.wf(),
        !p0.task_in_flight,
        target_tick_for(p0.timeline.timestamp as int, p0.physics_app.unwrap().delta as int)
            == p0.physics_app.unwrap().spec_current_tick(),
        fork_post(p0, p1, r),
    ensures
        r.is_none(),
        p1.world == p0.world,
        !p1.task_in_flight,
        p1.physics_app.unwrap().spec_current_tick() == p0.physics_app.unwrap().spec_current_tick(),
{
}

} // verus!
