use vstd::prelude::*;

verus! {

/// A gate that fires when the clock has moved at least one fixed step away
/// from its running reference point, and then moves that point one step
/// toward the clock.
#[derive(Debug, Copy, Clone, PartialEq, Eq)]
pub struct FixedTick {
    pub step: i64,
    pub last_tick: i64,
}

/// Whether a gate at `last_tick` with step `step` fires for `timestamp`.
pub open spec fn fires(step: int, last_tick: int, timestamp: int) -> bool {
    timestamp - last_tick >= step || last_tick - timestamp >= step
}

/// The reference point after a firing: one step toward the timestamp.
pub open spec fn next_last_tick(step: int, last_tick: int, timestamp: int) -> int {
    if timestamp < last_tick {
        last_tick - step
    } else {
        last_tick + step
    }
}

/// A gate with the given step whose reference point starts at 0. A step that
/// is not positive would fire on every check and is refused.
pub fn fixed_tick(step: i64) -> (r: Option<FixedTick>)
    ensures
        r.is_some() <==> step > 0,
        r.is_some() ==> r.unwrap() == (FixedTick { step, last_tick: 0 }),
{
    if step > 0 {
        Some(FixedTick { step, last_tick: 0 })
    } else {
        None
    }
}

impl FixedTick {
    pub open spec fn wf(&self) -> bool {
        self.step > 0
    }

    /// Whether the clock has moved a full step from the reference point; if
    /// so, the point moves one step toward it. A large jump fires only once.
    pub fn check(&mut self, timestamp: i64) -> (fired: bool)
        requires
            old(self).wf(),
        ensures
            fired == fires(old(self).step as int, old(self).last_tick as int, timestamp as int),
            final(self).step == old(self).step,
            final(self).last_tick == if fired {
                next_last_tick(old(self).step as int, old(self).last_tick as int, timestamp as int)
            } else {
                old(self).last_tick as int
            },
            final(self).wf(),
    {
        let delta: i128 = timestamp as i128 - self.last_tick as i128;
        let step = self.step as i128;
        if delta >= step {
            self.last_tick = self.last_tick + self.step;
            true
        } else if -delta >= step {
            self.last_tick = self.last_tick - self.step;
            true
        } else {
            false
        }
    }
}

} // verus!
