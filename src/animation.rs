use vstd::prelude::*;

verus! {

/// A value that an animation reads and writes between its steps.
#[derive(Debug, Copy, Clone)]
pub struct AnimationStorage<T> {
    pub value: T,
}

impl<T> AnimationStorage<T> {
    pub fn new(value: T) -> (r: AnimationStorage<T>)
        ensures
            r.value == value,
    {
        AnimationStorage { value }
    }

    pub fn into_value(self) -> (r: T)
        ensures
            r == self.value,
    {
        self.value
    }

    pub fn value(&self) -> (r: &T)
        ensures
            *r == self.value,
    {
        &self.value
    }

    pub fn value_mut(&mut self) -> (r: &mut T)
        ensures
            *r == old(self).value,
            final(self).value == *final(r),
    {
        &mut self.value
    }
}

/// Which animations run: each registered label is either active or inactive.
/// Labels are the animations' ids.
#[derive(Debug, Clone)]
pub struct AnimationMeta {
    pub active: Vec<u64>,
    pub inactive: Vec<u64>,
}

/// Removes `label` from `v`, keeping the order of the rest; whether it was there.
fn remove_label(v: &mut Vec<u64>, label: u64) -> (found: bool)
    requires
        old(v)@.no_duplicates(),
    ensures
        found == old(v)@.contains(label),
        final(v)@.to_set() == old(v)@.to_set().remove(label),
        final(v)@.no_duplicates(),
{
    let mut i: usize = 0;
    while i < v.len()
        invariant
            i <= v@.len(),
            v@ == old(v)@,
            old(v)@.no_duplicates(),
            forall|j: int| 0 <= j < i ==> v@[j] != label,
        decreases v@.len() - i,
    {
        if v[i] == label {
            let ghost before = v@;
            v.remove(i);
            proof {
                assert(v@ =~= before.subrange(0, i as int) + before.subrange(i + 1, before.len() as int));
                assert(v@.to_set() =~= before.to_set().remove(label)) by {
                    assert forall|x: u64| v@.to_set().contains(x) <==> before.to_set().remove(label).contains(x) by {
                        if v@.contains(x) {
                            let k = choose|k: int| 0 <= k < v@.len() && v@[k] == x;
                            if k < i {
                                assert(before[k] == x);
                                assert(before.contains(x));
                            } else {
                                assert(before[k + 1] == x);
                                assert(before.contains(x));
                                assert(k + 1 != i);
                            }
                            assert(x != label);
                        }
                        if before.contains(x) && x != label {
                            let k = choose|k: int| 0 <= k < before.len() && before[k] == x;
                            if k < i {
                                assert(v@[k] == x);
                            } else {
                                assert(k != i);
                                assert(v@[k - 1] == x);
                            }
                        }
                    }
                }
                assert(v@.no_duplicates()) by {
                    assert forall|a: int, b: int| 0 <= a < b < v@.len() implies v@[a] != v@[b] by {
                        let a2 = if a < i { a } else { a + 1 };
                        let b2 = if b < i { b } else { b + 1 };
                        assert(before[a2] == v@[a] && before[b2] == v@[b]);
                    }
                }
            }
            return true;
        }
        i = i + 1;
    }
    assert(v@.to_set() =~= old(v)@.to_set().remove(label));
    false
}

/// Whether `label` is in `v`.
fn has_label(v: &Vec<u64>, label: u64) -> (found: bool)
    ensures
        found == v@.contains(label),
{
    let mut i: usize = 0;
    while i < v.len()
        invariant
            i <= v@.len(),
            forall|j: int| 0 <= j < i ==> v@[j] != label,
        decreases v@.len() - i,
    {
        if v[i] == label {
            return true;
        }
        i = i + 1;
    }
    false
}

impl AnimationMeta {
    pub open spec fn active_set(&self) -> Set<u64> {
        self.active@.to_set()
    }

    pub open spec fn inactive_set(&self) -> Set<u64> {
        self.inactive@.to_set()
    }

    /// No label is listed twice, nor both active and inactive.
    pub open spec fn wf(&self) -> bool {
        &&& self.active@.no_duplicates()
        &&& self.inactive@.no_duplicates()
        &&& self.active_set().disjoint(self.inactive_set())
    }

    /// No animation registered.
    pub fn new() -> (r: AnimationMeta)
        ensures
            r.wf(),
            r.active_set() == Set::<u64>::empty(),
            r.inactive_set() == Set::<u64>::empty(),
    {
        let r = AnimationMeta { active: Vec::new(), inactive: Vec::new() };
        assert(r.active_set() =~= Set::<u64>::empty());
        assert(r.inactive_set() =~= Set::<u64>::empty());
        r
    }

    /// Forgets `label`; whether it was registered.
    pub fn remove(&mut self, label: u64) -> (found: bool)
        requires
            old(self).wf(),
        ensures
            final(self).wf(),
            found == (old(self).active_set().contains(label) || old(self).inactive_set().contains(label)),
            final(self).active_set() == old(self).active_set().remove(label),
            final(self).inactive_set() == old(self).inactive_set().remove(label),
    {
        let a = remove_label(&mut self.active, label);
        let b = remove_label(&mut self.inactive, label);
        a || b
    }

    /// Marks `label` active.
    pub fn start(&mut self, label: u64)
        requires
            old(self).wf(),
        ensures
            final(self).wf(),
            final(self).active_set() == old(self).active_set().insert(label),
            final(self).inactive_set() == old(self).inactive_set().remove(label),
    {
        self.remove(label);
        let ghost before = self.active@;
        self.active.push(label);
        proof {
            before.lemma_push_to_set_commute(label);
            assert(!before.contains(label)) by {
                assert(!before.to_set().contains(label));
            }
            assert(self.active@.no_duplicates()) by {
                assert forall|a: int, b: int| 0 <= a < b < self.active@.len() implies self.active@[a] != self.active@[b] by {
                    if b == before.len() {
                        assert(before.contains(before[a]));
                    }
                }
            }
        }
        assert(self.active_set() =~= before.to_set().insert(label));
        assert(self.active_set() =~= old(self).active_set().insert(label));
    }

    /// Marks `label` inactive.
    pub fn stop(&mut self, label: u64)
        requires
            old(self).wf(),
        ensures
            final(self).wf(),
            final(self).active_set() == old(self).active_set().remove(label),
            final(self).inactive_set() == old(self).inactive_set().insert(label),
    {
        self.remove(label);
        let ghost before = self.inactive@;
        self.inactive.push(label);
        proof {
            before.lemma_push_to_set_commute(label);
            assert(!before.contains(label)) by {
                assert(!before.to_set().contains(label));
            }
            assert(self.inactive@.no_duplicates()) by {
                assert forall|a: int, b: int| 0 <= a < b < self.inactive@.len() implies self.inactive@[a] != self.inactive@[b] by {
                    if b == before.len() {
                        assert(before.contains(before[a]));
                    }
                }
            }
        }
        assert(self.inactive_set() =~= before.to_set().insert(label));
        assert(self.inactive_set() =~= old(self).inactive_set().insert(label));
    }

    /// Whether `label` is registered, active or not.
    pub fn contains(&self, label: u64) -> (r: bool)
        ensures
            r == (self.active_set().contains(label) || self.inactive_set().contains(label)),
    {
        has_label(&self.active, label) || has_label(&self.inactive, label)
    }

    /// Whether `label` is active.
    pub fn is_active(&self, label: u64) -> (r: bool)
        ensures
            r == self.active_set().contains(label),
    {
        has_label(&self.active, label)
    }

    /// Stops `label` if it is active, and starts it otherwise.
    pub fn toggle(&mut self, label: u64)
        requires
            old(self).wf(),
        ensures
            final(self).wf(),
            old(self).active_set().contains(label) ==> final(self).active_set() == old(self).active_set().remove(label)
                && final(self).inactive_set() == old(self).inactive_set().insert(label),
            !old(self).active_set().contains(label) ==> final(self).active_set() == old(self).active_set().insert(label)
                && final(self).inactive_set() == old(self).inactive_set().remove(label),
    {
        if self.is_active(label) {
            self.stop(label)
        } else {
            self.start(label)
        }
    }
}

} // verus!
