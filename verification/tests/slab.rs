use relay::slab::{alloc_slot, count_occupied, free_slot};
use std::collections::VecDeque;

#[test]
fn slots_are_handed_out_in_order_and_reused_first_freed_first() {
    let mut slab: Vec<Option<char>> = Vec::new();
    let mut free: VecDeque<usize> = VecDeque::new();
    assert_eq!(alloc_slot(&mut slab, &mut free, 'a'), 0);
    assert_eq!(alloc_slot(&mut slab, &mut free, 'b'), 1);
    assert_eq!(alloc_slot(&mut slab, &mut free, 'c'), 2);
    free_slot(&mut slab, &mut free, 1);
    free_slot(&mut slab, &mut free, 0);
    assert_eq!(slab, vec![None, None, Some('c')]);
    assert_eq!(count_occupied(&slab), 1);
    assert_eq!(alloc_slot(&mut slab, &mut free, 'd'), 1);
    assert_eq!(alloc_slot(&mut slab, &mut free, 'e'), 0);
    assert_eq!(alloc_slot(&mut slab, &mut free, 'f'), 3);
    assert_eq!(slab, vec![Some('e'), Some('d'), Some('c'), Some('f')]);
    assert_eq!(count_occupied(&slab), 4);
    assert!(free.is_empty());
}

#[test]
fn freeing_undoes_allocation() {
    let mut slab: Vec<Option<u8>> = vec![None, Some(1), None];
    let mut free: VecDeque<usize> = VecDeque::from(vec![2, 0]);
    let idx = alloc_slot(&mut slab, &mut free, 9);
    assert_eq!(idx, 2);
    free_slot(&mut slab, &mut free, idx);
    assert_eq!(slab, vec![None, Some(1), None]);
    assert_eq!(free, VecDeque::from(vec![0, 2]));
}

#[test]
fn empty_slab_holds_nothing() {
    let slab: Vec<Option<u8>> = Vec::new();
    assert_eq!(count_occupied(&slab), 0);
}
