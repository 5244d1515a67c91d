//! The zero-copy pump: bytes go from a source socket into a pipe and from the
//! pipe into a destination socket, until one of them cannot go on.
//!
//! The pump asks for one splice at a time and is told what became of it.

use vstd::prelude::*;

verus! {

/// How a pump ended.
#[derive(Clone, Copy, Debug, PartialEq, Eq, Structural)]
pub enum PumpStatus {
    /// The source is drained for now, or the destination is congested.
    Paused,
    /// The source has ended.
    Eof,
    /// A splice failed.
    Failed,
}

/// What became of one splice.
#[derive(Clone, Copy, Debug, PartialEq, Eq, Structural)]
pub enum SpliceOutcome {
    /// That many bytes were moved; none at the end of the source.
    Moved(usize),
    WouldBlock,
    Interrupted,
    NoMemory,
    Failed,
}

#[derive(Clone, Copy, Debug, PartialEq, Eq, Structural)]
pub enum Phase {
    /// From the source into the pipe.
    Fill,
    /// From the pipe into the destination.
    Drain,
}

/// Where a pump stands.
#[derive(Clone, Copy, Debug, PartialEq, Eq, Structural)]
pub struct Pump {
    pub phase: Phase,
    /// The source has ended.
    pub got_eof: bool,
    /// The source had nothing more to read in this round.
    pub src_dry: bool,
}

/// What a pump asks for next.
#[derive(Clone, Copy, Debug, PartialEq, Eq, Structural)]
pub enum PumpAction {
    /// Splice at most that many bytes from the source into the pipe.
    Fill(usize),
    /// Splice at most that many bytes from the pipe into the destination.
    Drain(usize),
    Done(PumpStatus),
}

/// A pump that has not moved anything yet.
pub open spec fn fresh() -> Pump {
    Pump { phase: Phase::Fill, got_eof: false, src_dry: false }
}

/// The end of a round, with `len` bytes left in the pipe: the pump stops if the
/// source has ended, the destination is congested or the source is dry, and
/// starts another round otherwise.
pub open spec fn end_round(p: Pump, len: usize, chunk: usize) -> (Pump, PumpAction) {
    if p.got_eof {
        (p, PumpAction::Done(PumpStatus::Eof))
    } else if len > 0 || p.src_dry {
        (p, PumpAction::Done(PumpStatus::Paused))
    } else {
        (fresh(), PumpAction::Fill(chunk))
    }
}

/// What the pump asks for with `len` bytes in a pipe that takes `chunk`.
pub open spec fn pump_request(p: Pump, len: usize, chunk: usize) -> (Pump, PumpAction) {
    if p.phase == Phase::Fill && len < chunk {
        (p, PumpAction::Fill((chunk - len) as usize))
    } else {
        let d = Pump { phase: Phase::Drain, ..p };
        if len > 0 {
            (d, PumpAction::Drain(len))
        } else {
            end_round(d, len, chunk)
        }
    }
}

/// The bytes in the pipe after a splice.
pub open spec fn len_after(p: Pump, len: usize, outcome: SpliceOutcome) -> int {
    match outcome {
        SpliceOutcome::Moved(n) => if p.phase == Phase::Fill {
            len + n
        } else {
            len - n
        },
        _ => len as int,
    }
}

/// Whether a splice moved anything.
pub open spec fn progress(outcome: SpliceOutcome) -> bool {
    outcome matches SpliceOutcome::Moved(n) && n > 0
}

/// What the pump asks for once it knows the outcome of the splice that it asked
/// for last; `len` is the pipe's content before that splice.
pub open spec fn pump_next(p: Pump, len: usize, chunk: usize, outcome: SpliceOutcome) -> (
    Pump,
    PumpAction,
) {
    let now_len = len_after(p, len, outcome) as usize;
    if p.phase == Phase::Fill {
        match outcome {
            SpliceOutcome::Moved(n) => if n > 0 {
                pump_request(p, now_len, chunk)
            } else {
                pump_request(Pump { phase: Phase::Drain, got_eof: true, ..p }, now_len, chunk)
            },
            SpliceOutcome::WouldBlock => pump_request(
                Pump { phase: Phase::Drain, src_dry: true, ..p },
                now_len,
                chunk,
            ),
            SpliceOutcome::Interrupted => pump_request(p, now_len, chunk),
            SpliceOutcome::NoMemory => pump_request(
                Pump { phase: Phase::Drain, ..p },
                now_len,
                chunk,
            ),
            SpliceOutcome::Failed => (p, PumpAction::Done(PumpStatus::Failed)),
        }
    } else {
        match outcome {
            SpliceOutcome::Moved(n) => if n > 0 {
                pump_request(p, now_len, chunk)
            } else {
                end_round(p, now_len, chunk)
            },
            SpliceOutcome::WouldBlock => end_round(p, now_len, chunk),
            SpliceOutcome::Interrupted => pump_request(p, now_len, chunk),
            SpliceOutcome::NoMemory | SpliceOutcome::Failed => (
                p,
                PumpAction::Done(PumpStatus::Failed),
            ),
        }
    }
}

/// Whether the count of a splice can be booked: what goes into the pipe can be
/// counted, and what comes out of it was in it.
pub open spec fn countable(p: Pump, len: usize, outcome: SpliceOutcome) -> bool {
    0 <= len_after(p, len, outcome) <= usize::MAX
}

/// Whether a splice moved no more than it was asked to.
pub open spec fn obedient(p: Pump, len: usize, chunk: usize, outcome: SpliceOutcome) -> bool {
    outcome matches SpliceOutcome::Moved(n) ==> if p.phase == Phase::Fill {
        len + n <= chunk
    } else {
        n <= len
    }
}

fn request(p: Pump, len: usize, chunk: usize) -> (r: (Pump, PumpAction))
    requires
        chunk > 0,
    ensures
        r == pump_request(p, len, chunk),
{
    if p.phase == Phase::Fill && len < chunk {
        (p, PumpAction::Fill(chunk - len))
    } else {
        let d: Pump = Pump { phase: Phase::Drain, got_eof: p.got_eof, src_dry: p.src_dry };
        if len > 0 {
            (d, PumpAction::Drain(len))
        } else {
            close_round(d, len, chunk)
        }
    }
}

fn close_round(p: Pump, len: usize, chunk: usize) -> (r: (Pump, PumpAction))
    ensures
        r == end_round(p, len, chunk),
{
    if p.got_eof {
        (p, PumpAction::Done(PumpStatus::Eof))
    } else if len > 0 || p.src_dry {
        (p, PumpAction::Done(PumpStatus::Paused))
    } else {
        (Pump { phase: Phase::Fill, got_eof: false, src_dry: false }, PumpAction::Fill(chunk))
    }
}

/// Starts to pump with `len` bytes already in the pipe.
pub fn pump_start(len: usize, chunk: usize) -> (r: (Pump, PumpAction))
    requires
        chunk > 0,
    ensures
        r == pump_request(fresh(), len, chunk),
{
    request(Pump { phase: Phase::Fill, got_eof: false, src_dry: false }, len, chunk)
}

/// Books the outcome of the splice that the pump asked for last, and says what
/// it asks for next. The time of the last progress becomes `now` where bytes
/// were moved.
pub fn pump_step(
    p: Pump,
    outcome: SpliceOutcome,
    len: &mut usize,
    chunk: usize,
    now: u64,
    last: &mut u64,
) -> (r: (Pump, PumpAction))
    requires
        chunk > 0,
        countable(p, *old(len), outcome),
    ensures
        *final(len) == len_after(p, *old(len), outcome),
        *final(last) == (if progress(outcome) {
            now
        } else {
            *old(last)
        }),
        r == pump_next(p, *old(len), chunk, outcome),
{
    let filling: bool = p.phase == Phase::Fill;
    match outcome {
        SpliceOutcome::Moved(n) => {
            if n > 0 {
                if filling {
                    *len = *len + n;
                } else {
                    *len = *len - n;
                }
                *last = now;
                request(p, *len, chunk)
            } else if filling {
                request(
                    Pump { phase: Phase::Drain, got_eof: true, src_dry: p.src_dry },
                    *len,
                    chunk,
                )
            } else {
                close_round(p, *len, chunk)
            }
        },
        SpliceOutcome::WouldBlock => {
            if filling {
                request(
                    Pump { phase: Phase::Drain, got_eof: p.got_eof, src_dry: true },
                    *len,
                    chunk,
                )
            } else {
                close_round(p, *len, chunk)
            }
        },
        SpliceOutcome::Interrupted => request(p, *len, chunk),
        SpliceOutcome::NoMemory => {
            if filling {
                request(
                    Pump { phase: Phase::Drain, got_eof: p.got_eof, src_dry: p.src_dry },
                    *len,
                    chunk,
                )
            } else {
                (p, PumpAction::Done(PumpStatus::Failed))
            }
        },
        SpliceOutcome::Failed => (p, PumpAction::Done(PumpStatus::Failed)),
    }
}

/// A pump and the content of its pipe after a list of splice outcomes; outcomes
/// behind the end of the pump are left out.
pub open spec fn pump_run(
    p: Pump,
    action: PumpAction,
    len: usize,
    chunk: usize,
    outcomes: Seq<SpliceOutcome>,
) -> (Pump, PumpAction, usize)
    decreases outcomes.len(),
{
    if outcomes.len() == 0 || action is Done {
        (p, action, len)
    } else {
        let (q, next) = pump_next(p, len, chunk, outcomes[0]);
        pump_run(q, next, len_after(p, len, outcomes[0]) as usize, chunk, outcomes.skip(1))
    }
}

/// Whether each splice of a run moved no more than it was asked to.
pub open spec fn run_obedient(
    p: Pump,
    action: PumpAction,
    len: usize,
    chunk: usize,
    outcomes: Seq<SpliceOutcome>,
) -> bool
    decreases outcomes.len(),
{
    if outcomes.len() == 0 || action is Done {
        true
    } else {
        let (q, next) = pump_next(p, len, chunk, outcomes[0]);
        &&& obedient(p, len, chunk, outcomes[0])
        &&& run_obedient(
            q,
            next,
            len_after(p, len, outcomes[0]) as usize,
            chunk,
            outcomes.skip(1),
        )
    }
}

/// The bytes that a run took from the source.
pub open spec fn run_filled(
    p: Pump,
    action: PumpAction,
    len: usize,
    chunk: usize,
    outcomes: Seq<SpliceOutcome>,
) -> nat
    decreases outcomes.len(),
{
    if outcomes.len() == 0 || action is Done {
        0
    } else {
        let (q, next) = pump_next(p, len, chunk, outcomes[0]);
        let here: nat = match outcomes[0] {
            SpliceOutcome::Moved(n) => if p.phase == Phase::Fill {
                n as nat
            } else {
                0
            },
            _ => 0,
        };
        here + run_filled(
            q,
            next,
            len_after(p, len, outcomes[0]) as usize,
            chunk,
            outcomes.skip(1),
        )
    }
}

/// The bytes that a run gave to the destination.
pub open spec fn run_drained(
    p: Pump,
    action: PumpAction,
    len: usize,
    chunk: usize,
    outcomes: Seq<SpliceOutcome>,
) -> nat
    decreases outcomes.len(),
{
    if outcomes.len() == 0 || action is Done {
        0
    } else {
        let (q, next) = pump_next(p, len, chunk, outcomes[0]);
        let here: nat = match outcomes[0] {
            SpliceOutcome::Moved(n) => if p.phase == Phase::Drain {
                n as nat
            } else {
                0
            },
            _ => 0,
        };
        here + run_drained(
            q,
            next,
            len_after(p, len, outcomes[0]) as usize,
            chunk,
            outcomes.skip(1),
        )
    }
}

/// Whether a pump is at a point that its own requests lead to.
pub open spec fn in_step(p: Pump, action: PumpAction, len: usize, chunk: usize) -> bool {
    &&& p.phase == Phase::Fill ==> !p.got_eof && !p.src_dry
    &&& match action {
        PumpAction::Fill(n) => p.phase == Phase::Fill && n > 0 && len + n == chunk,
        PumpAction::Drain(n) => p.phase == Phase::Drain && n > 0 && n == len,
        PumpAction::Done(PumpStatus::Eof) => p.got_eof,
        PumpAction::Done(PumpStatus::Paused) => !p.got_eof && (len > 0 || p.src_dry),
        PumpAction::Done(PumpStatus::Failed) => true,
    }
}

/// A pump starts with a request that suits the content of its pipe.
pub proof fn law_pump_starts_in_step(len: usize, chunk: usize)
    requires
        chunk > 0,
    ensures
        ({
            let (p, action) = pump_request(fresh(), len, chunk);
            in_step(p, action, len, chunk) && !(action is Done)
        }),
{
}

/// A pump never asks to fill its pipe beyond `chunk`, asks to drain exactly
/// what the pipe holds, and ends without an error only because the source has
/// ended, the destination is congested or the source has nothing more to read.
pub proof fn law_pump_requests_in_step(
    p: Pump,
    action: PumpAction,
    len: usize,
    chunk: usize,
    outcome: SpliceOutcome,
)
    requires
        chunk > 0,
        in_step(p, action, len, chunk),
        !(action is Done),
        obedient(p, len, chunk, outcome),
    ensures
        ({
            let (q, next) = pump_next(p, len, chunk, outcome);
            in_step(q, next, len_after(p, len, outcome) as usize, chunk)
        }),
{
}

/// Every byte that a run takes from the source is given to the destination or
/// still in the pipe, and the pipe never holds more than `chunk`, or than it held
/// from the start.
pub proof fn law_pump_conserves_bytes(
    p: Pump,
    action: PumpAction,
    len: usize,
    chunk: usize,
    outcomes: Seq<SpliceOutcome>,
)
    requires
        chunk > 0,
        in_step(p, action, len, chunk),
        run_obedient(p, action, len, chunk, outcomes),
    ensures
        ({
            let (q, last, left) = pump_run(p, action, len, chunk, outcomes);
            &&& len + run_filled(p, action, len, chunk, outcomes) == run_drained(
                p,
                action,
                len,
                chunk,
                outcomes,
            ) + left
            &&& left <= len || left <= chunk
            &&& in_step(q, last, left, chunk)
        }),
    decreases outcomes.len(),
{
    if outcomes.len() > 0 && !(action is Done) {
        let (q, next) = pump_next(p, len, chunk, outcomes[0]);
        law_pump_requests_in_step(p, action, len, chunk, outcomes[0]);
        law_pump_conserves_bytes(
            q,
            next,
            len_after(p, len, outcomes[0]) as usize,
            chunk,
            outcomes.skip(1),
        );
    }
}

/// A pump starts with a fresh round: it fills the room in the pipe, and drains the
/// pipe at once where there is none.
pub proof fn law_pump_starts_afresh(len: usize, chunk: usize)
    requires
        chunk > 0,
    ensures
        len < chunk ==> pump_request(fresh(), len, chunk) == (
            Pump { phase: Phase::Fill, got_eof: false, src_dry: false },
            PumpAction::Fill((chunk - len) as usize),
        ),
        len >= chunk ==> pump_request(fresh(), len, chunk) == (
            Pump { phase: Phase::Drain, got_eof: false, src_dry: false },
            PumpAction::Drain(len),
        ),
{
}

/// What a splice moved goes into the pipe while it is filled and out of it while
/// it is drained; every other outcome leaves the pipe alone. Only bytes that moved
/// are progress.
pub proof fn law_splice_is_booked(p: Pump, len: usize, outcome: SpliceOutcome, n: usize)
    ensures
        outcome == SpliceOutcome::Moved(n) && p.phase == Phase::Fill ==> len_after(p, len, outcome)
            == len + n,
        outcome == SpliceOutcome::Moved(n) && p.phase == Phase::Drain ==> len_after(
            p,
            len,
            outcome,
        ) == len - n,
        !(outcome is Moved) ==> len_after(p, len, outcome) == len,
        outcome == SpliceOutcome::Moved(n) ==> (progress(outcome) <==> n > 0),
        !(outcome is Moved) ==> !progress(outcome),
{
}

/// A pump fails exactly where the splice that it asked for failed: with an error,
/// or for want of memory while the pipe is drained. Bytes that moved, a source that
/// is dry or has ended and a congested destination never make it fail.
pub proof fn law_pump_fails_only_on_a_failure(
    p: Pump,
    len: usize,
    chunk: usize,
    outcome: SpliceOutcome,
)
    requires
        chunk > 0,
    ensures
        pump_next(p, len, chunk, outcome).1 == PumpAction::Done(PumpStatus::Failed) <==> (outcome
            == SpliceOutcome::Failed || (outcome == SpliceOutcome::NoMemory && p.phase
            == Phase::Drain)),
{
}

/// While bytes move into the destination and some are left, the pump asks to drain
/// exactly those, whether or not the source has ended; so it does after an
/// interruption.
pub proof fn law_drain_goes_on_to_the_last_byte(p: Pump, len: usize, chunk: usize, n: usize)
    requires
        chunk > 0,
        p.phase == Phase::Drain,
    ensures
        0 < n < len ==> pump_next(p, len, chunk, SpliceOutcome::Moved(n)) == (
            p,
            PumpAction::Drain((len - n) as usize),
        ),
        len > 0 ==> pump_next(p, len, chunk, SpliceOutcome::Interrupted) == (
            p,
            PumpAction::Drain(len),
        ),
{
}

/// Once a drain has come to its end, with `left` bytes in the pipe, the pump stops:
/// because the source has ended, or else because bytes are left or the source is
/// dry. Otherwise it starts a fresh round.
pub proof fn law_drain_ends_the_round(p: Pump, len: usize, chunk: usize, outcome: SpliceOutcome)
    requires
        chunk > 0,
        p.phase == Phase::Drain,
        ({
            ||| outcome == SpliceOutcome::WouldBlock
            ||| outcome == SpliceOutcome::Moved(0)
            ||| outcome == SpliceOutcome::Moved(len)
            ||| outcome == SpliceOutcome::Interrupted && len == 0
        }),
    ensures
        ({
            let left = if outcome == SpliceOutcome::Moved(len) {
                0
            } else {
                len as int
            };
            let (q, action) = pump_next(p, len, chunk, outcome);
            &&& p.got_eof ==> action == PumpAction::Done(PumpStatus::Eof)
            &&& !p.got_eof && (left > 0 || p.src_dry) ==> action == PumpAction::Done(
                PumpStatus::Paused,
            )
            &&& !p.got_eof && left == 0 && !p.src_dry ==> action == PumpAction::Fill(chunk) && q
                == (Pump { phase: Phase::Fill, got_eof: false, src_dry: false })
        }),
{
}

/// While bytes come from the source, the pump asks for exactly the room that is
/// left in the pipe, and drains the pipe once it is full; an interruption changes
/// nothing.
pub proof fn law_fill_goes_on_to_the_last_room(p: Pump, len: usize, chunk: usize, n: usize)
    requires
        chunk > 0,
        p.phase == Phase::Fill,
        len + n <= usize::MAX,
    ensures
        n > 0 && len + n < chunk ==> pump_next(p, len, chunk, SpliceOutcome::Moved(n)) == (
            p,
            PumpAction::Fill((chunk - len - n) as usize),
        ),
        n > 0 && len + n >= chunk ==> pump_next(p, len, chunk, SpliceOutcome::Moved(n)) == (
            Pump { phase: Phase::Drain, got_eof: p.got_eof, src_dry: p.src_dry },
            PumpAction::Drain((len + n) as usize),
        ),
        len < chunk ==> pump_next(p, len, chunk, SpliceOutcome::Interrupted) == (
            p,
            PumpAction::Fill((chunk - len) as usize),
        ),
{
}

/// Once nothing more comes from the source, what is in the pipe is drained first,
/// all of it. The pump remembers whether the source has ended or is only dry, and
/// with an empty pipe it stops at once for that reason. Want of memory is neither:
/// with an empty pipe the pump tries again.
pub proof fn law_fill_ends_in_a_drain(p: Pump, len: usize, chunk: usize, outcome: SpliceOutcome)
    requires
        chunk > 0,
        p.phase == Phase::Fill,
        !p.got_eof,
        !p.src_dry,
        outcome == SpliceOutcome::Moved(0) || outcome == SpliceOutcome::WouldBlock || outcome
            == SpliceOutcome::NoMemory,
    ensures
        ({
            let (q, action) = pump_next(p, len, chunk, outcome);
            &&& len > 0 ==> action == PumpAction::Drain(len) && q == (Pump {
                phase: Phase::Drain,
                got_eof: outcome == SpliceOutcome::Moved(0),
                src_dry: outcome == SpliceOutcome::WouldBlock,
            })
            &&& len == 0 && outcome == SpliceOutcome::Moved(0) ==> action == PumpAction::Done(
                PumpStatus::Eof,
            )
            &&& len == 0 && outcome == SpliceOutcome::WouldBlock ==> action == PumpAction::Done(
                PumpStatus::Paused,
            )
            &&& len == 0 && outcome == SpliceOutcome::NoMemory ==> action == PumpAction::Fill(chunk)
                && q == (Pump { phase: Phase::Fill, got_eof: false, src_dry: false })
        }),
{
}

/// The end of the source is never told while the pipe could still be drained: a
/// pump that says so has delivered everything, or was just stopped by its
/// destination.
pub proof fn law_end_is_told_after_the_last_byte(
    p: Pump,
    action: PumpAction,
    len: usize,
    chunk: usize,
    outcome: SpliceOutcome,
)
    requires
        chunk > 0,
        in_step(p, action, len, chunk),
        !(action is Done),
        obedient(p, len, chunk, outcome),
        pump_next(p, len, chunk, outcome).1 == PumpAction::Done(PumpStatus::Eof),
    ensures
        p.got_eof || outcome == SpliceOutcome::Moved(0),
        len_after(p, len, outcome) == 0 || outcome == SpliceOutcome::WouldBlock || outcome
            == SpliceOutcome::Moved(0),
{
}

/// A pump takes every outcome but a count that cannot be: more out of the pipe than
/// is in it, or more into it than can be counted. A splice is obedient where it
/// moved no more than the pump had asked for.
pub proof fn law_every_possible_outcome_is_taken(
    p: Pump,
    len: usize,
    chunk: usize,
    outcome: SpliceOutcome,
    n: usize,
)
    ensures
        !(outcome is Moved) ==> countable(p, len, outcome) && obedient(p, len, chunk, outcome),
        outcome == SpliceOutcome::Moved(n) && p.phase == Phase::Drain ==> (countable(
            p,
            len,
            outcome,
        ) <==> n <= len) && (obedient(p, len, chunk, outcome) <==> n <= len),
        outcome == SpliceOutcome::Moved(n) && p.phase == Phase::Fill ==> (countable(
            p,
            len,
            outcome,
        ) <==> len + n <= usize::MAX) && (obedient(p, len, chunk, outcome) <==> len + n <= chunk),
{
}

} // verus!
