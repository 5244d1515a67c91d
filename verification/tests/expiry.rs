use relay::config::Config;
use relay::conn::ConnState;
use relay::expiry::{expiry, expiry_lines, reaches, sweep_connections, CleanUp, Conn, Expiry};
use relay::time::{longer_than, nanos_since, MILLISECOND, SECOND};
use std::collections::VecDeque;

#[test]
fn time_does_not_run_backwards() {
    assert_eq!(nanos_since(10, 4), 6);
    assert_eq!(nanos_since(4, 10), 0);
    assert!(!longer_than(SECOND, 0, 1));
    assert!(longer_than(SECOND + 1, 0, 1));
    assert!(!longer_than(u64::MAX, 0, u64::MAX));
    assert_eq!(1000 * MILLISECOND, SECOND);
}

#[test]
fn pending_connection_has_to_answer_in_time() {
    let cfg = Config::default();
    let mut c = ConnState::new(0, true, 0);
    assert_eq!(expiry(&c, &cfg, 5 * SECOND), None);
    assert_eq!(expiry(&c, &cfg, 5 * SECOND + 1), Some(Expiry::Connect));
    c.half_close_since = Some(0);
    assert_eq!(expiry(&c, &cfg, 5 * SECOND), None);
}

#[test]
fn idle_connection_goes() {
    let cfg = Config::default();
    let mut c = ConnState::new(0, false, 0);
    assert_eq!(expiry(&c, &cfg, 180 * SECOND), None);
    assert_eq!(expiry(&c, &cfg, 180 * SECOND + 1), Some(Expiry::Idle));
    c.r2l.last = SECOND;
    assert_eq!(expiry(&c, &cfg, 180 * SECOND + 1), None);
    c.r2l.last = 0;
    c.l2r.last = SECOND;
    assert_eq!(expiry(&c, &cfg, 180 * SECOND + 1), None);
}

#[test]
fn half_closed_connection_goes_though_it_is_active() {
    let cfg = Config::default();
    let mut c = ConnState::new(0, false, 0);
    c.half_close_since = Some(SECOND);
    c.l2r.last = 7 * SECOND;
    assert_eq!(expiry(&c, &cfg, 7 * SECOND), None);
    assert_eq!(expiry(&c, &cfg, 7 * SECOND + 1), Some(Expiry::HalfClosed));
}

#[test]
fn expiry_is_reported() {
    let cfg = Config::default();
    assert_eq!(expiry_lines(Expiry::Connect, &cfg), vec!["Connect timeout".to_string()]);
    assert_eq!(
        expiry_lines(Expiry::Idle, &cfg),
        vec![
            "Timeout(180s): Local->Remote".to_string(),
            "Timeout(180s): Remote->Local".to_string(),
        ]
    );
    assert_eq!(
        expiry_lines(Expiry::HalfClosed, &cfg),
        vec!["Half-close timeout(6s)".to_string()]
    );
}

#[test]
fn sweep_frees_exactly_the_expired() {
    let cfg = Config::default();
    let now = 1000 * SECOND;
    let mut slab: Vec<Option<Conn<char>>> = vec![
        Some(Conn { state: ConnState::new(0, false, now), io: 'a' }),
        Some(Conn { state: ConnState::new(1, false, 0), io: 'b' }),
        None,
        Some(Conn { state: ConnState::new(3, true, 0), io: 'd' }),
    ];
    let mut free: VecDeque<usize> = VecDeque::from(vec![2]);
    let gone = sweep_connections(&mut slab, &mut free, &cfg, now);
    assert_eq!(gone, vec![(1, Expiry::Idle), (3, Expiry::Connect)]);
    assert_eq!(free, VecDeque::from(vec![2, 1, 3]));
    assert!(slab[0].is_some() && slab[1].is_none() && slab[2].is_none() && slab[3].is_none());
    assert_eq!(sweep_connections(&mut slab, &mut free, &cfg, now), vec![]);
}

#[test]
fn stale_events_reach_nothing() {
    let slab: Vec<Option<Conn<()>>> =
        vec![None, Some(Conn { state: ConnState::new(6, false, 0), io: () })];
    assert!(reaches(&slab, 1, 6));
    assert!(!reaches(&slab, 1, 5));
    assert!(!reaches(&slab, 0, 6));
    assert!(!reaches(&slab, 2, 6));
}

#[test]
fn clean_up_is_due_after_more_than_a_second() {
    let mut timer = CleanUp::new(5);
    assert!(!timer.due(5 + SECOND));
    assert_eq!(timer.last, 5);
    assert!(timer.due(6 + SECOND));
    assert_eq!(timer.last, 6 + SECOND);
    assert!(!timer.due(6 + 2 * SECOND));
}
