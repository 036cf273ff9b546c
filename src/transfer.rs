use vstd::prelude::*;

use crate::world::{
    copied, kinds_in_range, listed, move_resources, transfer_components, transferred, World,
};

verus! {

/// Which component kinds cross the domain boundary, in each direction.
pub struct TransferRegistry {
    pub extract: Vec<usize>,
    pub writeback: Vec<usize>,
}

/// The stores of a domain whose ids `0..len` were reserved and hold nothing yet.
pub open spec fn unfilled<C>(len: nat) -> Seq<Option<C>> {
    Seq::new(len, |e: int| None::<C>)
}

/// What extraction leaves behind: `sim` holds the presentation ids, a copy of
/// the listed component kinds and every exclusive resource; `main` keeps its
/// components and holds a placeholder for each resource.
pub open spec fn extract_post<C, R>(
    main0: World<C, R>,
    sim0: World<C, R>,
    kinds: Seq<usize>,
    main1: World<C, R>,
    sim1: World<C, R>,
) -> bool {
    &&& sim1.meta_len == main0.meta_len
    &&& sim1.n_kinds() == sim0.n_kinds()
    &&& sim1.wf()
    &&& forall|k: int|
        0 <= k < sim1.n_kinds() ==> #[trigger] sim1.store(k) == if listed(kinds, k) {
            main0.store(k)
        } else {
            unfilled(main0.meta_len as nat)
        }
    &&& sim1.resources@ == main0.resources@
    &&& main1.components == main0.components
    &&& main1.meta_len == main0.meta_len
    &&& main1.n_resources() == main0.n_resources()
    &&& main1.holds_resources()
}

/// What writeback leaves behind: `main` has every listed component that `sim`
/// holds, by id, and every exclusive resource back; `sim` holds none.
pub open spec fn writeback_post<C, R>(
    sim0: World<C, R>,
    main0: World<C, R>,
    kinds: Seq<usize>,
    sim1: World<C, R>,
    main1: World<C, R>,
) -> bool {
    &&& main1.meta_len == main0.meta_len
    &&& main1.n_kinds() == main0.n_kinds()
    &&& main1.stores() == transferred(sim0, main0, kinds)
    &&& main1.resources@ == sim0.resources@
    &&& sim1.components == sim0.components
    &&& sim1.meta_len == sim0.meta_len
    &&& sim1.n_resources() == sim0.n_resources()
    &&& forall|r: int| 0 <= r < sim1.n_resources() ==> (#[trigger] sim1.resources@[r]).is_none()
}

/// Copies the listed component kinds from the presentation domain into a
/// cleared simulation domain, by entity id, and moves every exclusive
/// resource across.
pub fn extract<C: Copy, R: Default>(main: &mut World<C, R>, sim: &mut World<C, R>, kinds: &Vec<usize>)
    requires
        old(main).wf(),
        old(main).holds_resources(),
        old(sim).is_cleared(),
        old(sim).n_kinds() == old(main).n_kinds(),
        old(sim).n_resources() == old(main).n_resources(),
        kinds_in_range(kinds@, *old(main), *old(sim)),
    ensures
        extract_post(*old(main), *old(sim), kinds@, *final(main), *final(sim)),
        final(main).wf(),
{
    let ghost main0 = *main;
    sim.reserve_entities(main.meta_len);
    let ghost reserved = *sim;
    transfer_components(main, sim, kinds);
    proof {
        assert forall|k: int| 0 <= k < sim.n_kinds() implies #[trigger] sim.store(k) == if listed(kinds@, k) {
            main0.store(k)
        } else {
            unfilled(main0.meta_len as nat)
        } by {
            assert(sim.stores()[k] == sim.store(k));
            assert(reserved.store(k) =~= unfilled::<C>(main0.meta_len as nat));
            if listed(kinds@, k) {
                assert(copied(main0.store(k), reserved.store(k)) =~= main0.store(k));
            }
        }
        assert forall|k: int| 0 <= k < sim.n_kinds() implies #[trigger] sim.store(k).len() == sim.meta_len by {
            assert(sim.stores()[k] == sim.store(k));
        }
    }
    let ghost sim_t = *sim;
    let ghost main_t = *main;
    assert(sim_t.wf());
    assert(main_t.components == main0.components);
    move_resources(main, sim, true);
    assert(sim.components == sim_t.components);
    assert(sim.meta_len == sim_t.meta_len);
    assert(forall|k: int| 0 <= k < sim.n_kinds() ==> #[trigger] sim.store(k) == sim_t.store(k));
    assert(forall|k: int| 0 <= k < main.n_kinds() ==> #[trigger] main.store(k) == main0.store(k));
}

/// Copies the listed component kinds from the simulation domain back into the
/// presentation domain, by entity id, and moves every exclusive resource back.
pub fn writeback<C: Copy, R: Default>(sim: &mut World<C, R>, main: &mut World<C, R>, kinds: &Vec<usize>)
    requires
        old(sim).holds_resources(),
        old(sim).n_resources() == old(main).n_resources(),
        kinds_in_range(kinds@, *old(sim), *old(main)),
    ensures
        writeback_post(*old(sim), *old(main), kinds@, *final(sim), *final(main)),
        old(main).wf() ==> final(main).wf(),
        final(main).holds_resources(),
{
    let ghost main0 = *main;
    transfer_components(sim, main, kinds);
    proof {
        if main0.wf() {
            assert forall|k: int| 0 <= k < main.n_kinds() implies #[trigger] main.store(k).len() == main.meta_len by {
                assert(main.stores()[k] == main.store(k));
            }
        }
    }
    let ghost main_t = *main;
    move_resources(sim, main, false);
    assert(main.stores() =~= main_t.stores());
    assert(forall|k: int| 0 <= k < main.n_kinds() ==> #[trigger] main.store(k) == main_t.store(k));
}

/// Extraction followed at once by writeback, with no tick between, gives the
/// presentation domain back every component and every resource it had.
pub proof fn lemma_extract_writeback_round_trip<C, R>(
    main0: World<C, R>,
    sim0: World<C, R>,
    extract_kinds: Seq<usize>,
    writeback_kinds: Seq<usize>,
    main1: World<C, R>,
    sim1: World<C, R>,
    sim2: World<C, R>,
    main2: World<C, R>,
)
    requires
        main0.wf(),
        sim0.n_kinds() == main0.n_kinds(),
        extract_post(main0, sim0, extract_kinds, main1, sim1),
        writeback_post(sim1, main1, writeback_kinds, sim2, main2),
    ensures
        main2.meta_len == main0.meta_len,
        main2.stores() == main0.stores(),
        main2.resources@ == main0.resources@,
{
    assert(main1.n_kinds() == main0.n_kinds());
    assert forall|k: int| 0 <= k < main0.n_kinds() implies #[trigger] main2.stores()[k] == main0.stores()[k] by {
        assert(main1.store(k) == main0.store(k));
        assert(main2.stores()[k] == transferred(sim1, main1, writeback_kinds)[k]);
        if listed(extract_kinds, k) {
            assert(copied(main0.store(k), main0.store(k)) =~= main0.store(k));
        } else {
            assert(copied(unfilled::<C>(main0.meta_len as nat), main0.store(k)) =~= main0.store(k));
        }
    }
    assert(main2.stores() =~= main0.stores());
}

/// After writeback, each presentation id carries the simulation's component
/// of each written-back kind wherever the simulation has one for that id, and
/// keeps its own value elsewhere; no id is added.
pub proof fn lemma_writeback_correspondence<C, R>(
    sim0: World<C, R>,
    main0: World<C, R>,
    kinds: Seq<usize>,
    sim1: World<C, R>,
    main1: World<C, R>,
    k: int,
    e: int,
)
    requires
        writeback_post(sim0, main0, kinds, sim1, main1),
        main0.wf(),
        0 <= k < main0.n_kinds(),
        0 <= e < main0.meta_len,
    ensures
        main1.meta_len == main0.meta_len,
        listed(kinds, k) && e < sim0.store(k).len() && sim0.store(k)[e].is_some() ==> main1.store(k)[e]
            == sim0.store(k)[e],
        !(listed(kinds, k) && e < sim0.store(k).len() && sim0.store(k)[e].is_some())
            ==> main1.store(k)[e] == main0.store(k)[e],
{
    assert(main1.stores()[k] == main1.store(k));
}

} // verus!
