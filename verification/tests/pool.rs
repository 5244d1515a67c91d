use relay::accept::ConnectResult;
use relay::pool::{
    after_connect, after_read_error, after_wait, part_dead, rotate_line, zombie_line, LiveSearch,
    Maintenance, Pool, PoolEntry, RefillWork, SearchWork, Selection, Verdict, RNG_SEED, TAKE_BATCH,
};
use relay::time::{MILLISECOND, SECOND};

fn entry(fd: i32) -> PoolEntry {
    PoolEntry { fd, birth: 0, ttl_ms: 1000 }
}

fn pool_of(fds: &[i32]) -> Pool {
    let mut pool = Pool::new(64);
    pool.give_back(fds.iter().map(|fd| entry(*fd)).collect());
    pool
}

fn fds(entries: &[PoolEntry]) -> Vec<i32> {
    entries.iter().map(|e| e.fd).collect()
}

/// Does what a search asks for, until it ends.
fn take_live(pool: &mut Pool, dead: &[i32]) -> (Option<i32>, Vec<i32>) {
    let mut closed = Vec::new();
    let (mut search, mut work) = LiveSearch::start();
    loop {
        work = match work {
            SearchWork::Pop => search.on_batch(pool.pop_batch(TAKE_BATCH)),
            SearchWork::Look(fd) => search.on_look(dead.contains(&fd)),
            SearchWork::Close(fd) => {
                closed.push(fd);
                search.on_closed()
            }
            SearchWork::GiveBack(rest) => {
                assert!(!rest.is_empty());
                pool.give_back(rest);
                search.on_given_back()
            }
            SearchWork::End(fd) => return (fd, closed),
        };
    }
}

#[test]
fn new_pool_is_empty() {
    let pool = Pool::new(3);
    assert_eq!(pool.len(), 0);
    assert_eq!((pool.max_size, pool.pending, pool.fail_streak), (3, 0, 0));
    assert_eq!(pool.pause_until, None);
    assert_eq!(pool.rng, RNG_SEED);
    assert_eq!(RNG_SEED, 0x517cc1b727220a95);
}

#[test]
fn lifetimes_are_jittered_by_the_generator() {
    let mut pool = Pool::new(2);
    let mut x: u64 = 0x517cc1b727220a95;
    x ^= x << 13;
    x ^= x >> 7;
    x ^= x << 17;
    assert!(pool.put(5, 77, 60_000));
    assert_eq!(pool.rng, x);
    assert_eq!(
        pool.entries,
        vec![PoolEntry { fd: 5, birth: 77, ttl_ms: 45_000 + x % 30_001 }]
    );
}

#[test]
fn lifetimes_stay_within_a_quarter() {
    let mut pool = Pool::new(500);
    for fd in 0..500 {
        assert!(pool.put(fd, 0, 60_000));
        assert!(pool.rng != 0);
    }
    assert!(pool.entries.iter().all(|e| 45_000 <= e.ttl_ms && e.ttl_ms <= 75_000));
    assert!(pool.entries.iter().any(|e| e.ttl_ms < 60_000));
    assert!(pool.entries.iter().any(|e| e.ttl_ms > 60_000));
}

#[test]
fn tiny_lifetimes_have_no_jitter() {
    let mut pool = Pool::new(1);
    assert!(pool.put(1, 0, 3));
    assert_eq!(pool.entries[0].ttl_ms, 3);
}

#[test]
fn full_pool_takes_nothing() {
    let mut pool = Pool::new(1);
    assert!(pool.put(1, 0, 1000));
    let rng = pool.rng;
    assert!(!pool.put(2, 0, 1000));
    assert_eq!(pool.rng, rng);
    assert_eq!(fds(&pool.entries), vec![1]);
}

#[test]
fn batches_come_from_the_end_in_order() {
    let mut pool = pool_of(&[1, 2, 3, 4, 5]);
    assert_eq!(fds(&pool.pop_batch(2)), vec![4, 5]);
    assert_eq!(fds(&pool.entries), vec![1, 2, 3]);
    assert_eq!(fds(&pool.pop_batch(0)), Vec::<i32>::new());
    assert_eq!(fds(&pool.pop_batch(usize::MAX)), vec![1, 2, 3]);
    assert_eq!(fds(&pool.pop_batch(4)), Vec::<i32>::new());
}

#[test]
fn batch_given_back_restores_the_pool() {
    let mut pool = pool_of(&[1, 2, 3, 4, 5]);
    let batch = pool.pop_batch(3);
    pool.give_back(batch);
    assert_eq!(fds(&pool.entries), vec![1, 2, 3, 4, 5]);
}

#[test]
fn first_live_candidate_is_taken_and_the_rest_goes_back() {
    let mut pool = pool_of(&[1, 2, 3, 4, 5, 6]);
    assert_eq!(take_live(&mut pool, &[3]), (Some(4), vec![3]));
    assert_eq!(fds(&pool.entries), vec![1, 2, 5, 6]);
}

#[test]
fn search_goes_on_behind_a_dead_batch() {
    let mut pool = pool_of(&[1, 2, 3, 4, 5, 6]);
    assert_eq!(take_live(&mut pool, &[1, 3, 4, 5, 6]), (Some(2), vec![3, 4, 5, 6, 1]));
    assert_eq!(pool.len(), 0);
}

#[test]
fn last_candidate_leaves_nothing_to_give_back() {
    let mut pool = pool_of(&[1, 2]);
    assert_eq!(take_live(&mut pool, &[1]), (Some(2), vec![1]));
    assert_eq!(pool.len(), 0);
}

#[test]
fn selection_stops_at_the_first_live_candidate() {
    let mut selection = Selection::new(vec![entry(1), entry(2), entry(3)]);
    assert_eq!(selection.next(), Some(1));
    assert_eq!(selection.on_probe(true), Verdict::Close(1));
    assert_eq!(selection.next(), Some(2));
    assert_eq!(selection.on_probe(false), Verdict::Take(2));
    assert_eq!(selection.next(), None);
    assert_eq!((selection.seen, selection.taken), (2, Some(entry(2))));
}

#[test]
fn dead_pool_is_emptied() {
    let mut pool = pool_of(&[1, 2, 3, 4, 5]);
    assert_eq!(take_live(&mut pool, &[1, 2, 3, 4, 5]), (None, vec![2, 3, 4, 5, 1]));
    assert_eq!(pool.len(), 0);
    assert_eq!(take_live(&mut pool, &[]), (None, vec![]));
}

#[test]
fn sweep_parts_the_dead_from_the_living() {
    let (alive, gone) = part_dead(
        vec![entry(1), entry(2), entry(3), entry(4)],
        &vec![true, false, false, true],
    );
    assert_eq!(fds(&alive), vec![2, 3]);
    assert_eq!(gone, vec![1, 4]);
    assert_eq!(zombie_line(), "Checking: Clear Zombies");
}

#[test]
fn rotation_takes_what_has_outlived_its_time() {
    let mut pool = Pool::new(4);
    pool.give_back(vec![
        PoolEntry { fd: 1, birth: 0, ttl_ms: 10 },
        PoolEntry { fd: 2, birth: 0, ttl_ms: 11 },
        PoolEntry { fd: 3, birth: 5 * MILLISECOND, ttl_ms: 5 },
        PoolEntry { fd: 4, birth: 20 * MILLISECOND, ttl_ms: 0 },
    ]);
    assert_eq!(pool.rotate(11 * MILLISECOND), vec![1, 3]);
    assert_eq!(fds(&pool.entries), vec![2, 4]);
    assert_eq!(pool.rotate(12 * MILLISECOND - 1), Vec::<i32>::new());
    assert_eq!(pool.rotate(12 * MILLISECOND), vec![2]);
    assert_eq!(rotate_line(), "Checking: preconnect rotating");
}

#[test]
fn maintenance_is_due_once_a_second() {
    let mut m = Maintenance::new(0);
    assert!(!m.sweep_due(SECOND - 1));
    assert!(m.sweep_due(SECOND));
    assert!(!m.sweep_due(2 * SECOND - 1));
    assert!(m.rotate_due(2 * SECOND - 1));
    assert!(!m.rotate_due(2 * SECOND));
    assert!(m.sweep_due(2 * SECOND));
}

#[test]
fn orders_follow_what_is_missing() {
    let mut pool = pool_of(&[]);
    assert_eq!(pool.refill_count(32, 8, 0), 8);
    pool.pending = 16;
    assert_eq!(pool.refill_count(32, 8, 0), 2);
    pool.pending = 15;
    assert_eq!(pool.refill_count(32, 8, 0), 8);
    pool.pending = 31;
    assert_eq!(pool.refill_count(32, 8, 0), 1);
    pool.pending = 32;
    assert_eq!(pool.refill_count(32, 8, 0), 0);
    pool.pending = 40;
    assert_eq!(pool.refill_count(32, 8, 0), 0);
    pool.pending = 20;
    assert_eq!(pool.refill_count(32, 1, 0), 1);
    let mut small = pool_of(&[1]);
    small.pending = 1;
    assert_eq!(small.refill_count(5, 8, 0), 3);
}

#[test]
fn paused_pool_orders_nothing() {
    let mut pool = pool_of(&[]);
    pool.pause_until = Some(100);
    assert_eq!(pool.refill_count(32, 8, 99), 0);
    assert_eq!(pool.refill_count(32, 8, 100), 8);
}

#[test]
fn orders_are_booked_and_taken_back() {
    let mut pool = pool_of(&[]);
    pool.order_one();
    pool.order_one();
    assert_eq!(pool.pending, 2);
    pool.cancel_one();
    assert_eq!(pool.pending, 1);
}

#[test]
fn connection_that_came_ends_a_run_of_failures() {
    let mut pool = Pool::new(1);
    pool.pending = 3;
    pool.fail_streak = 9;
    pool.pause_until = Some(5);
    let (taken, line) = pool.connect_success(7, 32, 60_000, 4);
    assert!(taken);
    assert_eq!(line, "Preconnect +1, Current: 1/32 (Pending: 2)");
    assert_eq!((pool.pending, pool.fail_streak, pool.pause_until), (2, 0, None));
    assert_eq!((pool.entries[0].fd, pool.entries[0].birth), (7, 4));
    let (taken, line) = pool.connect_success(8, 32, 60_000, 4);
    assert!(!taken);
    assert_eq!(line, "Preconnected Too Much, Clearing ...");
    assert_eq!((pool.pending, pool.len()), (1, 1));
}

#[test]
fn failures_in_a_row_pause_the_pool() {
    let mut pool = Pool::new(1);
    pool.pending = 1;
    pool.connect_fail(2, 0);
    assert_eq!((pool.pending, pool.fail_streak, pool.pause_until), (0, 1, None));
    pool.connect_fail(2, 7);
    assert_eq!((pool.pending, pool.fail_streak), (0, 2));
    assert_eq!(pool.pause_until, Some(7 + 400 * MILLISECOND));
    pool.fail_streak = 23;
    pool.connect_fail(2, 0);
    assert_eq!(pool.pause_until, Some(4800 * MILLISECOND));
    pool.fail_streak = 1000;
    pool.connect_fail(2, 0);
    assert_eq!(pool.pause_until, Some(5 * SECOND));
}

#[test]
fn pending_connection_is_waited_for() {
    assert_eq!(after_connect(ConnectResult::Connected, 5), RefillWork::Succeed);
    assert_eq!(after_connect(ConnectResult::Failed, 5), RefillWork::GiveUp);
    assert_eq!(after_connect(ConnectResult::InProgress, 5), RefillWork::Wait(5000));
    assert_eq!(after_connect(ConnectResult::InProgress, 65), RefillWork::Wait(65_000));
    assert_eq!(after_connect(ConnectResult::InProgress, 66), RefillWork::Wait(65_535));
    assert_eq!(after_connect(ConnectResult::InProgress, u64::MAX), RefillWork::Wait(65_535));
    assert_eq!(after_wait(true), RefillWork::ReadError);
    assert_eq!(after_wait(false), RefillWork::GiveUp);
    assert_eq!(after_read_error(true), RefillWork::Succeed);
    assert_eq!(after_read_error(false), RefillWork::GiveUp);
}

#[test]
fn connection_stays_for_its_lifetime() {
    let mut pool = Pool::new(1);
    assert!(pool.put(1, SECOND, 60_000));
    assert!(pool.rotate(SECOND + 45_000 * MILLISECOND).is_empty());
    assert_eq!(pool.rotate(SECOND + 75_001 * MILLISECOND), vec![1]);
}

#[test]
fn tick_keeps_the_living_in_order() {
    let mut pool = Pool::new(8);
    pool.give_back(vec![
        PoolEntry { fd: 1, birth: 0, ttl_ms: 100 },
        PoolEntry { fd: 2, birth: 0, ttl_ms: 5 },
        PoolEntry { fd: 3, birth: 0, ttl_ms: 100 },
        PoolEntry { fd: 4, birth: 0, ttl_ms: 5 },
        PoolEntry { fd: 5, birth: 0, ttl_ms: 100 },
    ]);
    let batch = pool.pop_batch(usize::MAX);
    let (alive, gone) = part_dead(batch, &vec![false, false, true, true, false]);
    pool.give_back(alive);
    assert_eq!(gone, vec![3, 4]);
    assert_eq!(pool.rotate(10 * MILLISECOND), vec![2]);
    assert_eq!(fds(&pool.entries), vec![1, 5]);
}
