use vstd::prelude::*;

verus! {

/// A virtual clock: the current timestamp, the one before the last advance,
/// and the factor that real elapsed time is scaled by.
#[derive(Debug, Copy, Clone, PartialEq, Eq)]
pub struct Timeline {
    pub timestamp: i64,
    pub prev_timestamp: i64,
    pub timescale: i64,
}

impl Timeline {
    pub open spec fn spec_new() -> Timeline {
        Timeline { timestamp: 0, prev_timestamp: 0, timescale: 1 }
    }

    /// A clock at zero that runs at real speed.
    pub fn new() -> (r: Timeline)
        ensures
            r == Timeline::spec_new(),
    {
        Timeline { timestamp: 0, prev_timestamp: 0, timescale: 1 }
    }

    /// Whether advancing by `dt` real units stays within the clock's range.
    pub open spec fn can_tick(&self, dt: int) -> bool {
        i64::MIN <= dt * self.timescale <= i64::MAX
            && i64::MIN <= self.timestamp + dt * self.timescale <= i64::MAX
    }

    /// Advances the clock by `dt` real units, scaled by the timescale.
    pub fn tick(&mut self, dt: i64)
        requires
            old(self).can_tick(dt as int),
        ensures
            final(self).prev_timestamp == old(self).timestamp,
            final(self).timestamp == old(self).timestamp + dt * old(self).timescale,
            final(self).timescale == old(self).timescale,
    {
        let scaled = dt * self.timescale;
        self.prev_timestamp = self.timestamp;
        self.timestamp = self.timestamp + scaled;
    }

    pub open spec fn spec_delta(&self) -> int {
        self.timestamp - self.prev_timestamp
    }

    /// How far the last advance moved the clock.
    pub fn delta(&self) -> (r: i64)
        requires
            i64::MIN <= self.spec_delta() <= i64::MAX,
        ensures
            r == self.spec_delta(),
    {
        self.timestamp - self.prev_timestamp
    }
}

impl Default for Timeline {
    fn default() -> (r: Timeline)
        ensures
            r == Timeline::spec_new(),
    {
        Timeline::new()
    }
}

/// The clock of one domain, as a component of that domain.
#[derive(Debug, Copy, Clone, PartialEq, Eq)]
pub struct TimelineComponent(pub Timeline);

} // verus!
