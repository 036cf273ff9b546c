use vstd::prelude::*;

verus! {

/// One domain's state container.
///
/// Entity ids are indices: ids `0..meta_len` have been issued. Component
/// kind `k` is stored in `components[k]`, one slot per entity id. Each
/// exclusive resource kind `r` has the slot `resources[r]`, which holds the
/// resource while this domain owns it.
pub struct World<C, R> {
    pub meta_len: usize,
    pub components: Vec<Vec<Option<C>>>,
    pub resources: Vec<Option<R>>,
}

impl<C, R> World<C, R> {
    /// The slots of component kind `k`, by entity id.
    pub open spec fn store(&self, k: int) -> Seq<Option<C>> {
        self.components@[k]@
    }

    pub open spec fn n_kinds(&self) -> nat {
        self.components@.len()
    }

    pub open spec fn n_resources(&self) -> nat {
        self.resources@.len()
    }

    /// Every component store has one slot for each issued id.
    pub open spec fn wf(&self) -> bool {
        forall|k: int| 0 <= k < self.n_kinds() ==> #[trigger] self.store(k).len() == self.meta_len
    }

    /// Every exclusive resource is present in this domain.
    pub open spec fn holds_resources(&self) -> bool {
        forall|r: int| 0 <= r < self.n_resources() ==> (#[trigger] self.resources@[r]).is_some()
    }

    /// No entity id is in use: every component store is empty.
    pub open spec fn is_cleared(&self) -> bool {
        &&& self.meta_len == 0
        &&& forall|k: int| 0 <= k < self.n_kinds() ==> (#[trigger] self.store(k)).len() == 0
    }

    /// A domain with `n_kinds` component kinds and the given resources, and no entities.
    pub fn new(n_kinds: usize, resources: Vec<Option<R>>) -> (w: World<C, R>)
        ensures
            w.n_kinds() == n_kinds,
            w.resources@ == resources@,
            w.is_cleared(),
            w.wf(),
    {
        World { meta_len: 0, components: empty_stores(n_kinds, 0), resources }
    }

    /// Whether every exclusive resource is present (see `holds_resources`).
    pub fn has_resources(&self) -> (b: bool)
        ensures
            b == self.holds_resources(),
    {
        let mut r: usize = 0;
        while r < self.resources.len()
            invariant
                r <= self.resources@.len(),
                forall|j: int| 0 <= j < r ==> (#[trigger] self.resources@[j]).is_some(),
            decreases self.resources@.len() - r,
        {
            if self.resources[r].is_none() {
                return false;
            }
            r = r + 1;
        }
        true
    }

    /// Whether no entity id is in use (see `is_cleared`).
    pub fn is_empty(&self) -> (b: bool)
        ensures
            b == self.is_cleared(),
    {
        if self.meta_len != 0 {
            return false;
        }
        let mut k: usize = 0;
        while k < self.components.len()
            invariant
                k <= self.n_kinds(),
                forall|j: int| 0 <= j < k ==> (#[trigger] self.store(j)).len() == 0,
            decreases self.n_kinds() - k,
        {
            if self.components[k].len() != 0 {
                assert(self.store(k as int).len() != 0);
                return false;
            }
            k = k + 1;
        }
        true
    }
}

/// `to` after every component present in `from` has been copied over it,
/// id by id; ids that `from` lacks keep their slot in `to`.
pub open spec fn copied<C>(from: Seq<Option<C>>, to: Seq<Option<C>>) -> Seq<Option<C>> {
    Seq::new(
        to.len(),
        |e: int|
            if e < from.len() && from[e].is_some() {
                from[e]
            } else {
                to[e]
            },
    )
}

/// Copying twice from the same source is copying once.
pub proof fn lemma_copied_idempotent<C>(from: Seq<Option<C>>, to: Seq<Option<C>>)
    ensures
        copied(from, copied(from, to)) == copied(from, to),
{
    assert(copied(from, copied(from, to)) =~= copied(from, to));
}

/// Copies each component present in `from` into the slot of the same id in `to`.
pub fn copy_matching<C: Copy>(from: &Vec<Option<C>>, to: &mut Vec<Option<C>>)
    ensures
        final(to)@ == copied(from@, old(to)@),
{
    let n = if from.len() < to.len() { from.len() } else { to.len() };
    let mut e: usize = 0;
    while e < n
        invariant
            n <= from@.len(),
            n <= old(to)@.len(),
            e <= n,
            to@.len() == old(to)@.len(),
            forall|j: int|
                0 <= j < to@.len() ==> #[trigger] to@[j] == if j < e {
                    copied(from@, old(to)@)[j]
                } else {
                    old(to)@[j]
                },
        decreases n - e,
    {
        if let Some(c) = from[e] {
            to[e] = Some(c);
        }
        e = e + 1;
    }
    assert(to@ =~= copied(from@, old(to)@));
}

/// Whether kind `k` occurs in `kinds`.
pub open spec fn listed(kinds: Seq<usize>, k: int) -> bool {
    exists|i: int| 0 <= i < kinds.len() && kinds[i] as int == k
}

/// The component stores of `to` after the kinds in `kinds` have been copied from `from`.
pub open spec fn transferred<C, R>(from: World<C, R>, to: World<C, R>, kinds: Seq<usize>) -> Seq<
    Seq<Option<C>>,
> {
    Seq::new(
        to.n_kinds(),
        |k: int|
            if listed(kinds, k) {
                copied(from.store(k), to.store(k))
            } else {
                to.store(k)
            },
    )
}

/// Whether every kind in `kinds` names a component store of both domains.
pub open spec fn kinds_in_range<C, R>(kinds: Seq<usize>, a: World<C, R>, b: World<C, R>) -> bool {
    forall|i: int| 0 <= i < kinds.len() ==> #[trigger] kinds[i] < a.n_kinds() && kinds[i] < b.n_kinds()
}

impl<C, R> World<C, R> {
    /// All component stores, by kind.
    pub open spec fn stores(&self) -> Seq<Seq<Option<C>>> {
        Seq::new(self.n_kinds(), |k: int| self.store(k))
    }
}

/// Copies the components of every kind in `kinds` from `from` into `to`, by entity id.
pub fn transfer_components<C: Copy, R>(from: &World<C, R>, to: &mut World<C, R>, kinds: &Vec<usize>)
    requires
        kinds_in_range(kinds@, *from, *old(to)),
    ensures
        final(to).stores() == transferred(*from, *old(to), kinds@),
        final(to).n_kinds() == old(to).n_kinds(),
        final(to).meta_len == old(to).meta_len,
        final(to).resources == old(to).resources,
{
    let ghost orig = *to;
    let mut i: usize = 0;
    while i < kinds.len()
        invariant
            i <= kinds@.len(),
            kinds_in_range(kinds@, *from, orig),
            to.n_kinds() == orig.n_kinds(),
            to.meta_len == orig.meta_len,
            to.resources == orig.resources,
            forall|k: int|
                0 <= k < to.n_kinds() ==> #[trigger] to.store(k) == if listed(
                    kinds@.subrange(0, i as int),
                    k,
                ) {
                    copied(from.store(k), orig.store(k))
                } else {
                    orig.store(k)
                },
        decreases kinds@.len() - i,
    {
        let k = kinds[i];
        assert(k < from.n_kinds() && k < orig.n_kinds());
        let ghost before = to.components@;
        let ghost before_w = *to;
        assert(before_w.store(k as int) == before[k as int]@);
        copy_matching(&from.components[k], &mut to.components[k]);
        proof {
            lemma_copied_idempotent(from.store(k as int), orig.store(k as int));
            let ghost pre = kinds@.subrange(0, i as int);
            let ghost post = kinds@.subrange(0, i + 1);
            assert(post[i as int] == k);
            assert forall|j: int| 0 <= j < to.n_kinds() implies #[trigger] to.store(j) == if listed(
                post,
                j,
            ) {
                copied(from.store(j), orig.store(j))
            } else {
                orig.store(j)
            } by {
                if j != k {
                    assert(to.components@[j] == before[j]);
                    assert(to.store(j) == before_w.store(j));
                    assert(listed(post, j) == listed(pre, j));
                    if listed(post, j) {
                        let w = choose|w: int| 0 <= w < post.len() && post[w] as int == j;
                        assert(pre[w] == post[w]);
                    }
                    if listed(pre, j) {
                        let w = choose|w: int| 0 <= w < pre.len() && pre[w] as int == j;
                        assert(pre[w] == post[w]);
                    }
                } else {
                    assert(listed(post, j));
                    assert(to.store(j) == copied(from.store(j), before_w.store(j)));
                    if listed(pre, j) {
                        assert(before_w.store(j) == copied(from.store(j), orig.store(j)));
                    } else {
                        assert(before_w.store(j) == orig.store(j));
                    }
                    assert(to.store(j) == copied(from.store(j), orig.store(j)));
                }
            }
        }
        i = i + 1;
    }
    assert(kinds@.subrange(0, kinds@.len() as int) =~= kinds@);
    assert(to.stores() =~= transferred(*from, orig, kinds@));
}

/// `n` component stores, each with `len` empty slots.
fn empty_stores<C>(n: usize, len: usize) -> (v: Vec<Vec<Option<C>>>)
    ensures
        v@.len() == n,
        forall|k: int| 0 <= k < n ==> (#[trigger] v@[k])@.len() == len,
        forall|k: int, e: int| 0 <= k < n && 0 <= e < len ==> (#[trigger] v@[k]@[e]).is_none(),
{
    let mut v: Vec<Vec<Option<C>>> = Vec::new();
    let mut k: usize = 0;
    while k < n
        invariant
            k <= n,
            v@.len() == k,
            forall|j: int| 0 <= j < k ==> (#[trigger] v@[j])@.len() == len,
            forall|j: int, e: int| 0 <= j < k && 0 <= e < len ==> (#[trigger] v@[j]@[e]).is_none(),
        decreases n - k,
    {
        let mut store: Vec<Option<C>> = Vec::new();
        let mut e: usize = 0;
        while e < len
            invariant
                e <= len,
                store@.len() == e,
                forall|f: int| 0 <= f < e ==> (#[trigger] store@[f]).is_none(),
            decreases len - e,
        {
            store.push(None);
            e = e + 1;
        }
        v.push(store);
        k = k + 1;
    }
    v
}

impl<C, R> World<C, R> {
    /// Removes every entity: the stores empty out and no id stays issued.
    pub fn clear_entities(&mut self)
        ensures
            final(self).is_cleared(),
            final(self).wf(),
            final(self).n_kinds() == old(self).n_kinds(),
            final(self).resources == old(self).resources,
    {
        self.components = empty_stores(self.components.len(), 0);
        self.meta_len = 0;
    }

    /// Issues ids `0..meta_len` to a domain that holds no entity, with no
    /// component on any of them yet.
    pub fn reserve_entities(&mut self, meta_len: usize)
        requires
            old(self).is_cleared(),
        ensures
            final(self).wf(),
            final(self).meta_len == meta_len,
            final(self).n_kinds() == old(self).n_kinds(),
            final(self).resources == old(self).resources,
            forall|k: int, e: int|
                0 <= k < final(self).n_kinds() && 0 <= e < meta_len
                    ==> (#[trigger] final(self).store(k)[e]).is_none(),
    {
        self.components = empty_stores(self.components.len(), meta_len);
        self.meta_len = meta_len;
    }
}

/// Moves every exclusive resource from `from` into `to`. With `placeholder`,
/// `from` is left holding a default value of each kind; without, it is left
/// without them.
pub fn move_resources<C, R: Default>(from: &mut World<C, R>, to: &mut World<C, R>, placeholder: bool)
    requires
        old(from).holds_resources(),
        old(from).n_resources() == old(to).n_resources(),
    ensures
        final(to).resources@ == old(from).resources@,
        final(to).components == old(to).components,
        final(to).meta_len == old(to).meta_len,
        final(from).components == old(from).components,
        final(from).meta_len == old(from).meta_len,
        final(from).n_resources() == old(from).n_resources(),
        placeholder ==> final(from).holds_resources(),
        !placeholder ==> forall|r: int|
            0 <= r < final(from).n_resources() ==> (#[trigger] final(from).resources@[r]).is_none(),
{
    let n = from.resources.len();
    let mut r: usize = 0;
    while r < n
        invariant
            n == old(from).n_resources(),
            r <= n,
            from.n_resources() == n,
            to.n_resources() == n,
            from.components == old(from).components,
            from.meta_len == old(from).meta_len,
            to.components == old(to).components,
            to.meta_len == old(to).meta_len,
            forall|j: int| r <= j < n ==> #[trigger] from.resources@[j] == old(from).resources@[j],
            forall|j: int| 0 <= j < r ==> #[trigger] to.resources@[j] == old(from).resources@[j],
            placeholder ==> forall|j: int| 0 <= j < r ==> (#[trigger] from.resources@[j]).is_some(),
            !placeholder ==> forall|j: int| 0 <= j < r ==> (#[trigger] from.resources@[j]).is_none(),
        decreases n - r,
    {
        let moved = from.resources[r].take();
        if placeholder {
            from.resources[r] = Some(R::default());
        }
        to.resources[r] = moved;
        r = r + 1;
    }
    assert(to.resources@ =~= old(from).resources@);
}

} // verus!
