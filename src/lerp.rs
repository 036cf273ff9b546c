use vstd::prelude::*;

verus! {

/// The most recent simulation samples of one entity, newest first: at most
/// two `(timestamp, transform)` pairs.
pub struct LerpTransform<T> {
    pub timestamps: Vec<(i64, T)>,
}

/// The interpolation parameter `num / den`, with `den` positive.
#[derive(Debug, Copy, Clone, PartialEq, Eq)]
pub struct LerpFactor {
    pub num: i128,
    pub den: i128,
}

pub open spec fn min(a: int, b: int) -> int {
    if a <= b {
        a
    } else {
        b
    }
}

pub open spec fn max(a: int, b: int) -> int {
    if a <= b {
        b
    } else {
        a
    }
}

pub open spec fn abs(x: int) -> int {
    if x < 0 {
        -x
    } else {
        x
    }
}

/// The history after a new sample: the sample in front, then what was
/// there, cut to the two most recent.
pub open spec fn pushed<T>(history: Seq<(i64, T)>, sample: (i64, T)) -> Seq<(i64, T)> {
    let s = seq![sample] + history;
    if s.len() > 2 {
        s.subrange(0, 2)
    } else {
        s
    }
}

/// The interpolation parameter for presentation time `now` between samples
/// taken at `t0` and `t1`: `|(now - min) / (max - min) - 1|`, which is
/// `|now - max| / (max - min)`. Left unclamped, so that a time outside the
/// interval extrapolates.
pub open spec fn local_t(t0: int, t1: int, now: int) -> LerpFactor {
    LerpFactor {
        num: abs((now - min(t0, t1)) - (max(t0, t1) - min(t0, t1))) as i128,
        den: (max(t0, t1) - min(t0, t1)) as i128,
    }
}

impl<T> LerpTransform<T> {
    pub open spec fn wf(&self) -> bool {
        self.timestamps@.len() <= 2
    }

    /// An empty history.
    pub fn new() -> (r: LerpTransform<T>)
        ensures
            r.timestamps@.len() == 0,
            r.wf(),
    {
        LerpTransform { timestamps: Vec::new() }
    }

    /// Records the sample of a simulation tick in front and drops all but the
    /// two most recent.
    pub fn push_sample(&mut self, timestamp: i64, transform: T)
        requires
            old(self).wf(),
        ensures
            final(self).timestamps@ == pushed(old(self).timestamps@, (timestamp, transform)),
            final(self).wf(),
    {
        self.timestamps.insert(0, (timestamp, transform));
        if self.timestamps.len() > 2 {
            self.timestamps.truncate(2);
        }
        assert(self.timestamps@ =~= pushed(old(self).timestamps@, (timestamp, transform)));
    }

    /// The interpolation parameter from the older sample (at 0) toward the
    /// newer one, for presentation time `now`. None while fewer than two
    /// samples are held, or when both were taken at the same time.
    pub fn lerp_factor(&self, now: i64) -> (r: Option<LerpFactor>)
        ensures
            self.timestamps@.len() < 2 ==> r.is_none(),
            self.timestamps@.len() >= 2 ==> r == if self.timestamps@[0].0 == self.timestamps@[1].0 {
                None
            } else {
                Some(
                    local_t(
                        self.timestamps@[0].0 as int,
                        self.timestamps@[1].0 as int,
                        now as int,
                    ),
                )
            },
    {
        if self.timestamps.len() < 2 {
            return None;
        }
        let t0 = self.timestamps[0].0;
        let t1 = self.timestamps[1].0;
        let lo: i128 = if t0 <= t1 { t0 as i128 } else { t1 as i128 };
        let hi: i128 = if t0 <= t1 { t1 as i128 } else { t0 as i128 };
        if lo == hi {
            return None;
        }
        let duration = hi - lo;
        let offset = (now as i128 - lo) - duration;
        let num = if offset < 0 { -offset } else { offset };
        Some(LerpFactor { num, den: duration })
    }
}

} // verus!
