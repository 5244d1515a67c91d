use relay::pump::{pump_start, pump_step, Phase, Pump, PumpAction, PumpStatus, SpliceOutcome};

const CHUNK: usize = 100;

struct Run {
    pump: Pump,
    action: PumpAction,
    len: usize,
    last: u64,
}

fn start(len: usize) -> Run {
    let (pump, action) = pump_start(len, CHUNK);
    Run { pump, action, len, last: 0 }
}

fn step(run: &mut Run, outcome: SpliceOutcome, now: u64) -> PumpAction {
    let (pump, action) = pump_step(run.pump, outcome, &mut run.len, CHUNK, now, &mut run.last);
    run.pump = pump;
    run.action = action;
    action
}

#[test]
fn pump_fills_then_drains_until_the_source_is_dry() {
    let mut run = start(0);
    assert_eq!(run.action, PumpAction::Fill(100));
    assert_eq!(step(&mut run, SpliceOutcome::Moved(60), 5), PumpAction::Fill(40));
    assert_eq!((run.len, run.last), (60, 5));
    assert_eq!(step(&mut run, SpliceOutcome::WouldBlock, 6), PumpAction::Drain(60));
    assert_eq!((run.len, run.last), (60, 5));
    assert_eq!(step(&mut run, SpliceOutcome::Moved(20), 7), PumpAction::Drain(40));
    assert_eq!(
        step(&mut run, SpliceOutcome::Moved(40), 8),
        PumpAction::Done(PumpStatus::Paused)
    );
    assert_eq!((run.len, run.last), (0, 8));
}

#[test]
fn full_chunk_that_was_delivered_starts_another_round() {
    let mut run = start(0);
    assert_eq!(step(&mut run, SpliceOutcome::Moved(100), 1), PumpAction::Drain(100));
    assert_eq!(step(&mut run, SpliceOutcome::Moved(100), 2), PumpAction::Fill(100));
    assert_eq!(run.pump, Pump { phase: Phase::Fill, got_eof: false, src_dry: false });
}

#[test]
fn end_of_the_source_ends_the_pump_after_the_drain() {
    let mut run = start(10);
    assert_eq!(run.action, PumpAction::Fill(90));
    assert_eq!(step(&mut run, SpliceOutcome::Moved(0), 1), PumpAction::Drain(10));
    assert_eq!(run.last, 0);
    assert_eq!(step(&mut run, SpliceOutcome::Moved(10), 2), PumpAction::Done(PumpStatus::Eof));
    let mut run = start(0);
    assert_eq!(step(&mut run, SpliceOutcome::Moved(0), 1), PumpAction::Done(PumpStatus::Eof));
}

#[test]
fn end_of_the_source_is_told_though_the_destination_is_congested() {
    let mut run = start(10);
    step(&mut run, SpliceOutcome::Moved(0), 1);
    assert_eq!(step(&mut run, SpliceOutcome::WouldBlock, 2), PumpAction::Done(PumpStatus::Eof));
    assert_eq!(run.len, 10);
}

#[test]
fn congested_destination_pauses_the_pump() {
    let mut run = start(100);
    assert_eq!(run.action, PumpAction::Drain(100));
    assert_eq!(
        step(&mut run, SpliceOutcome::WouldBlock, 1),
        PumpAction::Done(PumpStatus::Paused)
    );
    let mut run = start(100);
    assert_eq!(
        step(&mut run, SpliceOutcome::Moved(0), 1),
        PumpAction::Done(PumpStatus::Paused)
    );
}

#[test]
fn interrupted_splices_are_repeated() {
    let mut run = start(30);
    assert_eq!(step(&mut run, SpliceOutcome::Interrupted, 1), PumpAction::Fill(70));
    assert_eq!(step(&mut run, SpliceOutcome::WouldBlock, 1), PumpAction::Drain(30));
    assert_eq!(step(&mut run, SpliceOutcome::Interrupted, 1), PumpAction::Drain(30));
}

#[test]
fn lack_of_memory_stops_filling_but_fails_draining() {
    let mut run = start(30);
    assert_eq!(step(&mut run, SpliceOutcome::NoMemory, 1), PumpAction::Drain(30));
    assert_eq!(
        step(&mut run, SpliceOutcome::NoMemory, 1),
        PumpAction::Done(PumpStatus::Failed)
    );
    let mut run = start(0);
    assert_eq!(step(&mut run, SpliceOutcome::NoMemory, 1), PumpAction::Fill(100));
}

#[test]
fn failed_splices_fail_the_pump() {
    let mut run = start(0);
    assert_eq!(step(&mut run, SpliceOutcome::Failed, 1), PumpAction::Done(PumpStatus::Failed));
    let mut run = start(100);
    assert_eq!(step(&mut run, SpliceOutcome::Failed, 1), PumpAction::Done(PumpStatus::Failed));
}

#[test]
fn pump_neither_loses_nor_invents_bytes() {
    let mut run = start(7);
    let (mut taken, mut given) = (0, 0);
    let mut n = 13;
    for round in 0..200 {
        match run.action {
            PumpAction::Fill(room) => {
                assert!(run.len + room == CHUNK);
                n = (n * 31 + round) % room + 1;
                taken += n;
            }
            PumpAction::Drain(held) => {
                assert!(held == run.len);
                n = (n * 17 + round) % held + 1;
                given += n;
            }
            PumpAction::Done(_) => break,
        }
        step(&mut run, SpliceOutcome::Moved(n), round as u64);
        assert_eq!(7 + taken, given + run.len);
        assert!(run.len <= CHUNK);
    }
    assert!(given > 0);
}

#[test]
fn overfull_pipe_is_drained_first() {
    let mut run = start(150);
    assert_eq!(run.action, PumpAction::Drain(150));
    assert_eq!(step(&mut run, SpliceOutcome::Moved(20), 1), PumpAction::Drain(130));
    assert_eq!(
        step(&mut run, SpliceOutcome::WouldBlock, 2),
        PumpAction::Done(PumpStatus::Paused)
    );
    assert_eq!(run.len, 130);
}
