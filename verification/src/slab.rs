//! Slots that are handed out and taken back, first freed first reused.

use std::collections::VecDeque;
use vstd::prelude::*;

verus! {

/// Whether the list of free slots is exact: it names every empty slot of the
/// slab once and nothing else.
pub open spec fn slab_wf<T>(slab: Seq<Option<T>>, free: Seq<usize>) -> bool {
    &&& forall|k: int| 0 <= k < free.len() ==> (#[trigger] free[k]) < slab.len()
    &&& forall|k: int| 0 <= k < free.len() ==> slab[(#[trigger] free[k]) as int] is None
    &&& forall|j: int, k: int| 0 <= j < k < free.len() ==> free[j] != free[k]
    &&& forall|i: int| 0 <= i < slab.len() && (#[trigger] slab[i]) is None ==> names(free, i)
}

/// Whether a list of slots names slot `i`.
pub open spec fn names(free: Seq<usize>, i: int) -> bool {
    exists|k: int| 0 <= k < free.len() && (#[trigger] free[k]) == i
}

/// Puts a value into the slot that has been free for longest, or into a new one
/// behind the others, and says which slot that is.
pub fn alloc_slot<T>(slab: &mut Vec<Option<T>>, free: &mut VecDeque<usize>, val: T) -> (idx: usize)
    requires
        old(free)@.len() > 0 ==> old(free)@[0] < old(slab)@.len(),
    ensures
        old(free)@.len() > 0 ==> {
            &&& idx == old(free)@[0]
            &&& final(slab)@ == old(slab)@.update(idx as int, Some(val))
            &&& final(free)@ == old(free)@.skip(1)
        },
        old(free)@.len() == 0 ==> {
            &&& idx == old(slab)@.len()
            &&& final(slab)@ == old(slab)@.push(Some(val))
            &&& final(free)@ == old(free)@
        },
        slab_wf(old(slab)@, old(free)@) ==> slab_wf(final(slab)@, final(free)@),
{
    match free.pop_front() {
        Some(idx) => {
            slab[idx] = Some(val);
            proof {
                if slab_wf(old(slab)@, old(free)@) {
                    lemma_take_slot(old(slab)@, old(free)@, val);
                }
            }
            idx
        },
        None => {
            let idx: usize = slab.len();
            slab.push(Some(val));
            idx
        },
    }
}

/// Empties a slot and lets it be reused after those that are free already.
pub fn free_slot<T>(slab: &mut Vec<Option<T>>, free: &mut VecDeque<usize>, idx: usize)
    requires
        idx < old(slab)@.len(),
    ensures
        final(slab)@ == old(slab)@.update(idx as int, None),
        final(free)@ == old(free)@.push(idx),
        slab_wf(old(slab)@, old(free)@) && old(slab)@[idx as int] is Some ==> slab_wf(
            final(slab)@,
            final(free)@,
        ),
{
    slab[idx] = None;
    free.push_back(idx);
    proof {
        if slab_wf(old(slab)@, old(free)@) && old(slab)@[idx as int] is Some {
            lemma_release_slot(old(slab)@, old(free)@, idx);
        }
    }
}

proof fn lemma_take_slot<T>(slab: Seq<Option<T>>, free: Seq<usize>, val: T)
    requires
        slab_wf(slab, free),
        free.len() > 0,
    ensures
        slab_wf(slab.update(free[0] as int, Some(val)), free.skip(1)),
{
    let taken = slab.update(free[0] as int, Some(val));
    let left = free.skip(1);
    assert forall|i: int| 0 <= i < taken.len() && (#[trigger] taken[i]) is None implies names(
        left,
        i,
    ) by {
        assert(slab[i] is None);
        assert(names(free, i));
        let k = choose|k: int| 0 <= k < free.len() && free[k] == i;
        assert(left[k - 1] == i);
    }
    assert forall|k: int| 0 <= k < left.len() implies taken[(#[trigger] left[k]) as int] is None by {
        assert(left[k] == free[k + 1]);
    }
}

pub(crate) proof fn lemma_release_slot<T>(slab: Seq<Option<T>>, free: Seq<usize>, idx: usize)
    requires
        slab_wf(slab, free),
        idx < slab.len(),
        slab[idx as int] is Some,
    ensures
        slab_wf(slab.update(idx as int, None), free.push(idx)),
{
    let emptied = slab.update(idx as int, None);
    let longer = free.push(idx);
    assert forall|i: int| 0 <= i < emptied.len() && (#[trigger] emptied[i]) is None implies names(
        longer,
        i,
    ) by {
        if i == idx {
            assert(longer[free.len() as int] == idx);
        } else {
            assert(slab[i] is None);
            assert(names(free, i));
            let k = choose|k: int| 0 <= k < free.len() && free[k] == i;
            assert(longer[k] == i);
        }
    }
    assert forall|k: int| 0 <= k < longer.len() implies emptied[(#[trigger] longer[k]) as int] is None by {
        if k < free.len() {
            assert(longer[k] == free[k]);
        }
    }
}

/// How many slots hold a value.
pub open spec fn occupied<T>(slab: Seq<Option<T>>) -> nat
    decreases slab.len(),
{
    if slab.len() == 0 {
        0
    } else {
        occupied(slab.drop_last()) + if slab.last() is Some {
            1nat
        } else {
            0nat
        }
    }
}

/// Counts the slots that hold a value.
pub fn count_occupied<T>(slab: &Vec<Option<T>>) -> (n: usize)
    ensures
        n == occupied(slab@),
{
    let mut n: usize = 0;
    let mut i: usize = 0;
    while i < slab.len()
        invariant
            i <= slab@.len(),
            n <= i,
            n == occupied(slab@.take(i as int)),
        decreases slab@.len() - i,
    {
        assert(slab@.take(i + 1).drop_last() =~= slab@.take(i as int));
        if slab[i].is_some() {
            n += 1;
        }
        i += 1;
    }
    assert(slab@.take(i as int) =~= slab@);
    n
}

/// A new value never takes the slot of another one: the slot that is handed out
/// was empty or did not exist, and every other slot keeps its value.
pub proof fn law_alloc_overwrites_nothing<T>(
    slab: Seq<Option<T>>,
    free: Seq<usize>,
    val: T,
    i: int,
)
    requires
        slab_wf(slab, free),
        0 <= i < slab.len(),
        slab[i] is Some,
    ensures
        free.len() > 0 ==> free[0] != i && slab.update(free[0] as int, Some(val))[i] == slab[i],
        free.len() == 0 ==> slab.push(Some(val))[i] == slab[i],
{
}

/// Freeing the slot of a value that took a reused slot restores the slab; the
/// slot then waits behind all others that are free.
pub proof fn law_free_undoes_alloc<T>(slab: Seq<Option<T>>, free: Seq<usize>, val: T)
    requires
        slab_wf(slab, free),
        free.len() > 0,
    ensures
        slab.update(free[0] as int, Some(val)).update(free[0] as int, None) == slab,
        free.skip(1).push(free[0]).last() == free[0],
        slab_wf(
            slab.update(free[0] as int, Some(val)).update(free[0] as int, None),
            free.skip(1).push(free[0]),
        ),
{
    lemma_take_slot(slab, free, val);
    let taken = slab.update(free[0] as int, Some(val));
    lemma_release_slot(taken, free.skip(1), free[0]);
    assert(taken.update(free[0] as int, None) =~= slab);
}

/// A value more in a slot that was empty, or in a new one, counts one more; an empty
/// slot more counts nothing.
pub proof fn law_occupied_counts_the_values<T>(slab: Seq<Option<T>>, i: int, val: T)
    ensures
        occupied(Seq::<Option<T>>::empty()) == 0,
        occupied(slab.push(Some(val))) == occupied(slab) + 1,
        occupied(slab.push(None)) == occupied(slab),
        0 <= i < slab.len() && slab[i] is None ==> occupied(slab.update(i, Some(val))) == occupied(
            slab,
        ) + 1,
        0 <= i < slab.len() && slab[i] is Some ==> occupied(slab.update(i, None)) + 1 == occupied(
            slab,
        ),
        occupied(slab) <= slab.len(),
    decreases slab.len(),
{
    assert(slab.push(Some(val)).drop_last() =~= slab);
    assert(slab.push(None).drop_last() =~= slab);
    if slab.len() > 0 {
        let front = slab.drop_last();
        law_occupied_counts_the_values(front, i, val);
        if 0 <= i < front.len() {
            assert(slab.update(i, Some(val)).drop_last() =~= front.update(i, Some(val)));
            assert(slab.update(i, None).drop_last() =~= front.update(i, None));
        } else if i == front.len() {
            assert(slab.update(i, Some(val)).drop_last() =~= front);
            assert(slab.update(i, None).drop_last() =~= front);
        }
    }
}

/// The list of free slots is exact where it names each empty slot of the slab, no
/// other slot, and none twice.
pub proof fn law_free_list_names_the_empty_slots<T>(slab: Seq<Option<T>>, free: Seq<usize>)
    ensures
        slab_wf(slab, free) <==> {
            &&& forall|k: int|
                0 <= k < free.len() ==> (#[trigger] free[k]) < slab.len() && slab[free[k] as int]
                    == None::<T>
            &&& forall|j: int, k: int| 0 <= j < k < free.len() ==> free[j] != free[k]
            &&& forall|i: int|
                0 <= i < slab.len() && (#[trigger] slab[i]) is None ==> exists|k: int|
                    0 <= k < free.len() && (#[trigger] free[k]) == i
        },
{
    if forall|i: int|
        0 <= i < slab.len() && (#[trigger] slab[i]) is None ==> exists|k: int|
            0 <= k < free.len() && (#[trigger] free[k]) == i {
        assert forall|i: int| 0 <= i < slab.len() && (#[trigger] slab[i]) is None implies names(
            free,
            i,
        ) by {}
    }
    if slab_wf(slab, free) {
        assert forall|i: int| 0 <= i < slab.len() && (#[trigger] slab[i]) is None implies exists|
            k: int,
        |
            0 <= k < free.len() && (#[trigger] free[k]) == i by {
            assert(names(free, i));
        }
    }
}

} // verus!
