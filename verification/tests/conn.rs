use relay::conn::{step_lines, ConnState, Dir, Half, Notice, Step, Transfer, Work};
use relay::pump::{Phase, Pump, SpliceOutcome};

const CHUNK: usize = 100;
const IN: i32 = 0x1;
const OUT: i32 = 0x4;
const ERR: i32 = 0x8;
const HUP: i32 = 0x10;
const RDHUP: i32 = 0x2000;

fn plain(work: Work) -> Step {
    Step { work, ended: None, notice: None }
}

fn filling(dir: Dir) -> Transfer {
    Transfer::Pump(dir, Pump { phase: Phase::Fill, got_eof: false, src_dry: false })
}

fn transfer(step: &Step) -> Transfer {
    match step.work {
        Work::Splice(t, _) => t,
        _ => panic!("no splice: {step:?}"),
    }
}

fn requested(step: &Step) -> usize {
    match step.work {
        Work::Splice(_, n) => n,
        _ => panic!("no splice: {step:?}"),
    }
}

fn lines(step: &Step) -> Vec<String> {
    step_lines(step)
}

#[test]
fn new_connection_has_moved_nothing() {
    let c = ConnState::new(7, true, 42);
    let fresh = Half { len: 0, last: 42, eof: false, shut: false };
    assert_eq!(
        c,
        ConnState {
            gen: 7,
            l2r: fresh,
            r2l: fresh,
            half_close_since: None,
            connecting: true,
            connect_start: 42,
        }
    );
}

#[test]
fn pending_connect_is_checked_on_the_events_that_end_it() {
    for mask in [OUT, ERR, HUP, RDHUP, OUT | HUP] {
        let mut c = ConnState::new(0, true, 0);
        assert_eq!(c.on_event(true, mask, CHUNK), plain(Work::CheckConnect));
        assert!(c.connecting);
    }
    let mut c = ConnState::new(0, true, 0);
    assert_eq!(c.on_event(true, IN, CHUNK), plain(Work::Ignore));
    assert_eq!(c.on_event(true, 0, CHUNK), plain(Work::Ignore));
}

#[test]
fn connect_without_error_stands() {
    let mut c = ConnState::new(0, true, 0);
    assert_eq!(c.on_connect(true), plain(Work::Rearm));
    assert!(!c.connecting);
    let mut c = ConnState::new(0, true, 0);
    assert_eq!(c.on_early_connect(true), plain(Work::Rearm));
    assert!(!c.connecting);
}

#[test]
fn connect_with_error_closes() {
    let mut c = ConnState::new(0, true, 0);
    let step = c.on_connect(false);
    assert_eq!(step.work, Work::Close);
    assert_eq!(lines(&step), vec!["Connect failed".to_string()]);
    let mut c = ConnState::new(0, true, 0);
    let step = c.on_early_connect(false);
    assert_eq!(step.work, Work::Close);
    assert_eq!(lines(&step), vec!["Connect failed (post-ADD)".to_string()]);
}

#[test]
fn error_event_closes_at_once() {
    let mut c = ConnState::new(0, false, 0);
    let step = c.on_event(true, ERR | IN, CHUNK);
    assert_eq!(step.work, Work::Close);
    assert_eq!(lines(&step), vec!["Connection Error: Remote".to_string()]);
    let mut c = ConnState::new(0, true, 0);
    let step = c.on_event(false, ERR, CHUNK);
    assert_eq!(step.work, Work::Close);
    assert_eq!(lines(&step), vec!["Connection Error: Local".to_string()]);
}

#[test]
fn event_pumps_both_directions_and_rearms() {
    let mut c = ConnState::new(0, false, 0);
    let step = c.on_event(false, IN, CHUNK);
    assert_eq!(step, plain(Work::Splice(filling(Dir::L2r), 100)));
    let step = c.on_splice(transfer(&step), SpliceOutcome::Moved(30), 9, CHUNK);
    assert_eq!(requested(&step), 70);
    assert_eq!((c.l2r.len, c.l2r.last), (30, 9));
    let step = c.on_splice(transfer(&step), SpliceOutcome::WouldBlock, 9, CHUNK);
    assert_eq!(requested(&step), 30);
    let step = c.on_splice(transfer(&step), SpliceOutcome::Moved(30), 10, CHUNK);
    assert_eq!(c.l2r.len, 0);
    assert_eq!(step, plain(Work::Splice(filling(Dir::R2l), 100)));
    let step = c.on_splice(transfer(&step), SpliceOutcome::WouldBlock, 11, CHUNK);
    assert_eq!(step, plain(Work::Rearm));
    assert_eq!((c.l2r.last, c.r2l.last), (10, 0));
}

#[test]
fn end_of_one_direction_is_passed_on_and_starts_the_clock() {
    let mut c = ConnState::new(0, false, 0);
    let step = c.on_event(false, IN | RDHUP, CHUNK);
    let step = c.on_splice(transfer(&step), SpliceOutcome::Moved(0), 5, CHUNK);
    assert_eq!(step.work, Work::ShutdownWrite(Dir::L2r));
    assert_eq!(step.ended, Some(Dir::L2r));
    assert_eq!(lines(&step), vec!["EOF: Local->Remote".to_string()]);
    assert!(c.l2r.eof && c.l2r.shut);
    assert_eq!(c.half_close_since, Some(5));
    let step = c.on_shutdown(Dir::L2r, CHUNK);
    assert_eq!(step, plain(Work::Splice(filling(Dir::R2l), 100)));
    let step = c.on_splice(transfer(&step), SpliceOutcome::WouldBlock, 5, CHUNK);
    assert_eq!(step, plain(Work::Rearm));
}

#[test]
fn end_of_both_directions_closes_the_connection() {
    let mut c = ConnState::new(0, false, 0);
    let step = c.on_event(true, IN, CHUNK);
    let step = c.on_splice(transfer(&step), SpliceOutcome::Moved(0), 5, CHUNK);
    assert_eq!(step.work, Work::ShutdownWrite(Dir::L2r));
    let step = c.on_shutdown(Dir::L2r, CHUNK);
    let step = c.on_splice(transfer(&step), SpliceOutcome::Moved(0), 6, CHUNK);
    assert_eq!(step.work, Work::ShutdownWrite(Dir::R2l));
    assert_eq!(step.ended, Some(Dir::R2l));
    assert_eq!(c.half_close_since, None);
    let step = c.on_shutdown(Dir::R2l, CHUNK);
    assert_eq!(step.work, Work::Close);
    assert_eq!(step.notice, Some(Notice::FullyClosed));
    assert_eq!(lines(&step), vec!["Connection Fully Closed".to_string()]);
}

#[test]
fn end_waits_for_the_rest_of_the_pipe() {
    let mut c = ConnState::new(0, false, 0);
    let step = c.on_event(false, IN, CHUNK);
    let step = c.on_splice(transfer(&step), SpliceOutcome::Moved(50), 1, CHUNK);
    let step = c.on_splice(transfer(&step), SpliceOutcome::Moved(0), 2, CHUNK);
    assert_eq!(requested(&step), 50);
    let step = c.on_splice(transfer(&step), SpliceOutcome::WouldBlock, 3, CHUNK);
    assert_eq!(step.ended, Some(Dir::L2r));
    assert_eq!(step.work, Work::Splice(filling(Dir::R2l), 100));
    assert!(c.l2r.eof && !c.l2r.shut);
    let step = c.on_splice(transfer(&step), SpliceOutcome::WouldBlock, 3, CHUNK);
    assert_eq!(step, plain(Work::Rearm));

    let step = c.on_event(true, OUT, CHUNK);
    assert_eq!(step, plain(Work::Splice(Transfer::Rest(Dir::L2r), 50)));
    let step = c.on_splice(transfer(&step), SpliceOutcome::Interrupted, 4, CHUNK);
    assert_eq!(requested(&step), 50);
    let step = c.on_splice(transfer(&step), SpliceOutcome::Moved(20), 4, CHUNK);
    assert_eq!(step, plain(Work::Splice(Transfer::Rest(Dir::L2r), 30)));
    let step = c.on_splice(transfer(&step), SpliceOutcome::Moved(30), 5, CHUNK);
    assert_eq!(step, plain(Work::ShutdownWrite(Dir::L2r)));
    assert_eq!((c.l2r.len, c.l2r.last, c.l2r.shut), (0, 5, true));
}

#[test]
fn rest_that_cannot_be_delivered_closes_without_a_word() {
    for outcome in [SpliceOutcome::Moved(0), SpliceOutcome::NoMemory, SpliceOutcome::Failed] {
        let mut c = ConnState::new(0, false, 0);
        c.l2r = Half { len: 40, last: 0, eof: true, shut: false };
        c.half_close_since = Some(0);
        let step = c.on_event(true, OUT, CHUNK);
        let step = c.on_splice(transfer(&step), outcome, 1, CHUNK);
        assert_eq!(step, plain(Work::Close));
        assert!(lines(&step).is_empty());
    }
    let mut c = ConnState::new(0, false, 0);
    c.l2r = Half { len: 40, last: 0, eof: true, shut: false };
    c.half_close_since = Some(0);
    let step = c.on_event(true, OUT, CHUNK);
    let step = c.on_splice(transfer(&step), SpliceOutcome::WouldBlock, 1, CHUNK);
    assert_eq!(step, plain(Work::Splice(filling(Dir::R2l), 100)));
}

#[test]
fn failed_pump_closes_with_its_direction() {
    let mut c = ConnState::new(0, false, 0);
    let step = c.on_event(false, IN, CHUNK);
    let step = c.on_splice(transfer(&step), SpliceOutcome::Failed, 1, CHUNK);
    assert_eq!(step.work, Work::Close);
    assert_eq!(lines(&step), vec!["Connection Error: Local->Remote".to_string()]);
    let mut c = ConnState::new(0, false, 0);
    let step = c.on_event(false, IN, CHUNK);
    let step = c.on_splice(transfer(&step), SpliceOutcome::WouldBlock, 1, CHUNK);
    let step = c.on_splice(transfer(&step), SpliceOutcome::Failed, 1, CHUNK);
    assert_eq!(step.work, Work::Close);
    assert_eq!(lines(&step), vec!["Connection Error: Remote->Local".to_string()]);
}

#[test]
fn connection_conserves_bytes_over_many_events() {
    let mut c = ConnState::new(0, false, 0);
    let mut balance = [0i64, 0i64];
    let mut seed: usize = 12345;
    for event in 0..50u64 {
        let mut step = c.on_event(event % 2 == 0, IN, CHUNK);
        loop {
            match step.work {
                Work::Splice(t, n) => {
                    seed = seed.wrapping_mul(1_103_515_245).wrapping_add(12_345) % 1_000_003;
                    let outcome = match seed % 4 {
                        0 => SpliceOutcome::WouldBlock,
                        1 => SpliceOutcome::Interrupted,
                        _ => SpliceOutcome::Moved(seed % n + 1),
                    };
                    let (dir, fill) = match t {
                        Transfer::Pump(dir, p) => (dir, p.phase == Phase::Fill),
                        Transfer::Rest(dir) => (dir, false),
                    };
                    if let SpliceOutcome::Moved(m) = outcome {
                        let side = if dir == Dir::L2r { 0 } else { 1 };
                        balance[side] += if fill { m as i64 } else { -(m as i64) };
                    }
                    step = c.on_splice(t, outcome, event, CHUNK);
                }
                Work::Rearm => break,
                other => panic!("{other:?}"),
            }
            assert_eq!(balance, [c.l2r.len as i64, c.r2l.len as i64]);
        }
    }
}

#[test]
fn whole_life_delivers_every_byte_before_the_end() {
    let mut c = ConnState::new(0, true, 0);
    assert_eq!(c.on_early_connect(true), plain(Work::Rearm));
    let (mut taken, mut given) = (0, 0);
    let script = [
        SpliceOutcome::Moved(100),
        SpliceOutcome::Moved(40),
        SpliceOutcome::WouldBlock,
        SpliceOutcome::WouldBlock,
        SpliceOutcome::Moved(0),
        SpliceOutcome::Moved(60),
        SpliceOutcome::Moved(0),
    ];
    let mut replies = script.iter().copied();
    let mut closed = false;
    while !closed {
        let mut step = c.on_event(false, IN, CHUNK);
        loop {
            match step.work {
                Work::Splice(t, n) => {
                    let outcome = replies.next().unwrap();
                    if let (Transfer::Pump(Dir::L2r, p), SpliceOutcome::Moved(m)) = (t, outcome) {
                        assert!(m <= n);
                        if p.phase == Phase::Fill {
                            taken += m;
                        } else {
                            given += m;
                        }
                    }
                    step = c.on_splice(t, outcome, 1, CHUNK);
                }
                Work::ShutdownWrite(dir) => {
                    assert_eq!(taken, given);
                    step = c.on_shutdown(dir, CHUNK);
                }
                Work::Rearm => break,
                Work::Close => {
                    closed = true;
                    break;
                }
                other => panic!("{other:?}"),
            }
            assert_eq!(taken, given + c.l2r.len);
        }
    }
    assert_eq!((taken, given), (100, 100));
    assert!(c.l2r.shut && c.r2l.shut);
}
