//! What each step of a connection does, whatever its state: the order in which an
//! event is dealt with, and what it takes to close a connection.

use crate::conn;
use crate::conn::ConnState;
use crate::conn::Dir;
use crate::conn::Half;
use crate::conn::Notice;
use crate::conn::Step;
use crate::conn::Transfer;
use crate::conn::Work;
use crate::epoll::Readiness;
use crate::pump;
use crate::pump::Phase;
use crate::pump::Pump;
use crate::pump::PumpAction;
use crate::pump::PumpStatus;
use crate::pump::SpliceOutcome;
use vstd::prelude::*;

verus! {

/// Whether the transfer of a direction whose source goes on begins with a fresh
/// pump, for all the room in its pipe, or with a drain of all of it where there is
/// no room.
pub open spec fn pumps_afresh(work: Work, dir: Dir, len: usize, chunk: usize) -> bool {
    if len < chunk {
        work == Work::Splice(
            Transfer::Pump(dir, Pump { phase: Phase::Fill, got_eof: false, src_dry: false }),
            (chunk - len) as usize,
        )
    } else {
        work == Work::Splice(
            Transfer::Pump(dir, Pump { phase: Phase::Drain, got_eof: false, src_dry: false }),
            len,
        )
    }
}

/// Whether `after` is `before` but for the destination of a direction, which is now
/// told of the end.
pub open spec fn told_of_the_end(before: ConnState, after: ConnState, dir: Dir) -> bool {
    &&& after.gen == before.gen
    &&& after.connecting == before.connecting
    &&& after.connect_start == before.connect_start
    &&& after.half_close_since == before.half_close_since
    &&& match dir {
        Dir::L2r => {
            &&& after.r2l == before.r2l
            &&& after.l2r.shut
            &&& after.l2r.len == before.l2r.len
            &&& after.l2r.last == before.l2r.last
            &&& after.l2r.eof == before.l2r.eof
        },
        Dir::R2l => {
            &&& after.l2r == before.l2r
            &&& after.r2l.shut
            &&& after.r2l.len == before.r2l.len
            &&& after.r2l.last == before.r2l.last
            &&& after.r2l.eof == before.r2l.eof
        },
    }
}

/// What is left to do for an event once both transfers and both shutdowns are dealt
/// with: the connection is closed, with the word that it is fully closed, where both
/// directions have ended and both pipes are empty. Otherwise it is watched on.
pub open spec fn concludes(before: ConnState, after: ConnState, step: Step) -> bool {
    &&& after == before
    &&& step.ended is None
    &&& before.l2r.eof && before.r2l.eof && before.l2r.len == 0 && before.r2l.len == 0
        ==> step.work == Work::Close && step.notice == Some(Notice::FullyClosed)
    &&& !before.l2r.eof || !before.r2l.eof || before.l2r.len > 0 || before.r2l.len > 0 ==> step.work
        == Work::Rearm && step.notice is None
}

/// What is left to do for an event once the transfer to the client is dealt with:
/// the client is told of the end where that is due.
pub open spec fn goes_on_after_r2l(before: ConnState, after: ConnState, step: Step) -> bool {
    if before.r2l.eof && before.r2l.len == 0 && !before.r2l.shut {
        &&& step.work == Work::ShutdownWrite(Dir::R2l)
        &&& step.ended is None
        &&& step.notice is None
        &&& told_of_the_end(before, after, Dir::R2l)
    } else {
        concludes(before, after, step)
    }
}

/// What is left to do for an event once the direction to the remote end is dealt
/// with: the client is served. A source that goes on is pumped, and the rest of one
/// that has ended is delivered.
pub open spec fn goes_on_with_r2l(
    before: ConnState,
    after: ConnState,
    step: Step,
    chunk: usize,
) -> bool {
    if !before.r2l.eof {
        &&& pumps_afresh(step.work, Dir::R2l, before.r2l.len, chunk)
        &&& step.ended is None
        &&& step.notice is None
        &&& after == before
    } else if before.r2l.len > 0 {
        &&& step.work == Work::Splice(Transfer::Rest(Dir::R2l), before.r2l.len)
        &&& step.ended is None
        &&& step.notice is None
        &&& after == before
    } else {
        goes_on_after_r2l(before, after, step)
    }
}

/// What is left to do for an event once the transfer to the remote end is dealt
/// with: the remote end is told of the end where that is due, and then the client is
/// served.
pub open spec fn goes_on_after_l2r(
    before: ConnState,
    after: ConnState,
    step: Step,
    chunk: usize,
) -> bool {
    if before.l2r.eof && before.l2r.len == 0 && !before.l2r.shut {
        &&& step.work == Work::ShutdownWrite(Dir::L2r)
        &&& step.ended is None
        &&& step.notice is None
        &&& told_of_the_end(before, after, Dir::L2r)
    } else {
        goes_on_with_r2l(before, after, step, chunk)
    }
}

/// On a connection that stands, an event without an error is never the end of it
/// while anything is left to do: data of the client is relayed first, then the rest
/// of it is delivered, then the remote end is told of the end, and then the same is
/// done for the client. Whether the event reports input, room or a hang-up, and on
/// which side, makes no difference.
pub proof fn law_event_without_error_relays(
    c: ConnState,
    is_remote: bool,
    ready: Readiness,
    chunk: usize,
)
    requires
        chunk > 0,
        !(is_remote && c.connecting),
        !ready.error,
    ensures
        ({
            let (after, step) = conn::event_step(c, is_remote, ready, chunk);
            &&& !c.l2r.eof ==> pumps_afresh(step.work, Dir::L2r, c.l2r.len, chunk)
            &&& c.l2r.eof && c.l2r.len > 0 ==> step.work == Work::Splice(
                Transfer::Rest(Dir::L2r),
                c.l2r.len,
            )
            &&& !c.l2r.eof || c.l2r.len > 0 ==> after == c && step.ended is None
                && step.notice is None
            &&& c.l2r.eof && c.l2r.len == 0 ==> goes_on_after_l2r(c, after, step, chunk)
            &&& step.work == Work::Close ==> c.l2r.eof && c.r2l.eof && c.l2r.len == 0 && c.r2l.len
                == 0 && c.l2r.shut && c.r2l.shut && step.notice == Some(Notice::FullyClosed)
        }),
{
}

/// Two events without an error lead to the same step of a connection, whatever else
/// they report.
pub proof fn law_only_errors_tell_events_apart(
    c: ConnState,
    is_remote: bool,
    ready: Readiness,
    other_is_remote: bool,
    other_ready: Readiness,
    chunk: usize,
)
    requires
        !c.connecting,
        ready.error == other_ready.error,
        ready.error ==> is_remote == other_is_remote,
    ensures
        conn::event_step(c, is_remote, ready, chunk) == conn::event_step(
            c,
            other_is_remote,
            other_ready,
            chunk,
        ),
{
}

/// An error closes a connection at once and names the side, unless it is on the
/// remote socket while that connects.
pub proof fn law_error_event_closes(
    c: ConnState,
    is_remote: bool,
    ready: Readiness,
    chunk: usize,
)
    requires
        ready.error,
        !(is_remote && c.connecting),
    ensures
        ({
            let (after, step) = conn::event_step(c, is_remote, ready, chunk);
            &&& after == c
            &&& step.work == Work::Close
            &&& step.ended is None
            &&& is_remote ==> step.notice == Some(Notice::RemoteError)
            &&& !is_remote ==> step.notice == Some(Notice::LocalError)
        }),
{
}

/// While the remote socket connects, its pending error is read as soon as it is
/// writable, has failed or was hung up, and nothing else is done for it.
pub proof fn law_pending_connect_is_checked(c: ConnState, ready: Readiness, chunk: usize)
    requires
        c.connecting,
    ensures
        ({
            let (after, step) = conn::event_step(c, true, ready, chunk);
            &&& after == c
            &&& step.ended is None
            &&& step.notice is None
            &&& ready.output || ready.error || ready.hangup || ready.read_hangup ==> step.work
                == Work::CheckConnect
            &&& !ready.output && !ready.error && !ready.hangup && !ready.read_hangup ==> step.work
                == Work::Ignore
        }),
{
}

/// A remote socket without a pending error makes the connection stand, with nothing
/// else changed; one with an error closes it, and says so.
pub proof fn law_connect_stands_or_closes(c: ConnState, failure: Notice)
    ensures
        ({
            let (after, step) = conn::connect_step(c, true, failure);
            &&& !after.connecting
            &&& after.gen == c.gen
            &&& after.l2r == c.l2r
            &&& after.r2l == c.r2l
            &&& after.half_close_since == c.half_close_since
            &&& after.connect_start == c.connect_start
            &&& step.work == Work::Rearm
            &&& step.ended is None
            &&& step.notice is None
        }),
        ({
            let (after, step) = conn::connect_step(c, false, failure);
            &&& after == c
            &&& step.work == Work::Close
            &&& step.ended is None
            &&& step.notice == Some(failure)
        }),
{
}

/// Once the remote end was told of the end, the client is served; once the client
/// was told, the event is concluded.
pub proof fn law_shutdown_is_followed_by_the_rest(c: ConnState, chunk: usize)
    requires
        chunk > 0,
    ensures
        ({
            let (after, step) = conn::shutdown_step(c, Dir::L2r, chunk);
            goes_on_with_r2l(c, after, step, chunk)
        }),
        ({
            let (after, step) = conn::shutdown_step(c, Dir::R2l, chunk);
            concludes(c, after, step)
        }),
{
}

/// The connection with `len` bytes in the pipe of a direction, whose last progress
/// is now where bytes moved.
pub open spec fn booked(
    c: ConnState,
    dir: Dir,
    len: int,
    progressed: bool,
    now: u64,
) -> ConnState {
    let last_l2r = if progressed {
        now
    } else {
        c.l2r.last
    };
    let last_r2l = if progressed {
        now
    } else {
        c.r2l.last
    };
    match dir {
        Dir::L2r => ConnState { l2r: Half { len: len as usize, last: last_l2r, ..c.l2r }, ..c },
        Dir::R2l => ConnState { r2l: Half { len: len as usize, last: last_r2l, ..c.r2l }, ..c },
    }
}

/// The connection once a direction has ended. The clock of the half-closed state
/// starts with the first end and stops with the second.
pub open spec fn with_end(c: ConnState, dir: Dir, now: u64) -> ConnState {
    let other_ended = match dir {
        Dir::L2r => c.r2l.eof,
        Dir::R2l => c.l2r.eof,
    };
    let clock = match c.half_close_since {
        _ if other_ended => None,
        None => Some(now),
        Some(since) => Some(since),
    };
    match dir {
        Dir::L2r => ConnState { l2r: Half { eof: true, ..c.l2r }, half_close_since: clock, ..c },
        Dir::R2l => ConnState { r2l: Half { eof: true, ..c.r2l }, half_close_since: clock, ..c },
    }
}

/// What is left to do for an event once the transfer of a direction is dealt with.
pub open spec fn goes_on_after(
    before: ConnState,
    after: ConnState,
    step: Step,
    dir: Dir,
    chunk: usize,
) -> bool {
    match dir {
        Dir::L2r => goes_on_after_l2r(before, after, step, chunk),
        Dir::R2l => goes_on_after_r2l(before, after, step),
    }
}

/// A splice of a pump is booked, whatever comes of it. Then the pump goes on with
/// what it asks for; a failed pump closes the connection, with its direction; the end
/// of a source is noted; and once the pump has paused or its source has ended, the
/// event goes on behind the transfer.
pub proof fn law_pump_splice_is_carried_on(
    c: ConnState,
    dir: Dir,
    p: Pump,
    outcome: SpliceOutcome,
    n: usize,
    now: u64,
    chunk: usize,
)
    requires
        chunk > 0,
        outcome is Moved ==> outcome == SpliceOutcome::Moved(n) && if p.phase == Phase::Fill {
            c.half(dir).len + n <= usize::MAX
        } else {
            n <= c.half(dir).len
        },
    ensures
        ({
            let len = match dir {
                Dir::L2r => c.l2r.len,
                Dir::R2l => c.r2l.len,
            };
            let left = if !(outcome is Moved) {
                len as int
            } else if p.phase == Phase::Fill {
                len + n
            } else {
                len - n
            };
            let b = booked(c, dir, left, outcome is Moved && n > 0, now);
            let (q, action) = pump::pump_next(p, len, chunk, outcome);
            let (after, step) = conn::splice_step(
                c,
                Transfer::Pump(dir, p),
                outcome,
                now,
                chunk,
            );
            match action {
                PumpAction::Fill(k) | PumpAction::Drain(k) => {
                    &&& after == b
                    &&& step.work == Work::Splice(Transfer::Pump(dir, q), k)
                    &&& step.ended is None
                    &&& step.notice is None
                },
                PumpAction::Done(PumpStatus::Failed) => {
                    &&& after == b
                    &&& step.work == Work::Close
                    &&& step.ended is None
                    &&& step.notice == Some(Notice::TransferError(dir))
                },
                PumpAction::Done(PumpStatus::Paused) => goes_on_after(b, after, step, dir, chunk),
                PumpAction::Done(PumpStatus::Eof) => {
                    &&& step.ended == Some(dir)
                    &&& goes_on_after(
                        with_end(b, dir, now),
                        after,
                        Step { ended: None, ..step },
                        dir,
                        chunk,
                    )
                },
            }
        }),
{
    let h = c.half(dir);
    let left = pump::len_after(p, h.len, outcome);
    let b = c.with_half(dir, conn::moved(h, left, outcome, now));
    assert(b == booked(c, dir, left, outcome is Moved && n > 0, now));
    let e = conn::ended(b, dir, now);
    assert(e == with_end(b, dir, now));
    lemma_after_transfer_goes_on(b, dir, chunk);
    lemma_after_transfer_goes_on(e, dir, chunk);
    let (after, step) = conn::after_transfer(e, dir, chunk);
    assert(Step { ended: None, ..Step { ended: Some(dir), ..step } } == step);
}

proof fn lemma_after_transfer_goes_on(c: ConnState, dir: Dir, chunk: usize)
    requires
        chunk > 0,
    ensures
        ({
            let (after, step) = conn::after_transfer(c, dir, chunk);
            goes_on_after(c, after, step, dir, chunk) && step.ended is None
        }),
{
}

/// The rest of a pipe is drained to its last byte before the event goes on. A
/// congested destination lets the event go on with the rest kept, an interruption
/// changes nothing, and every other outcome closes the connection without a word.
pub proof fn law_rest_is_delivered(
    c: ConnState,
    dir: Dir,
    outcome: SpliceOutcome,
    n: usize,
    now: u64,
    chunk: usize,
)
    requires
        chunk > 0,
        outcome is Moved ==> outcome == SpliceOutcome::Moved(n) && n <= c.half(dir).len,
    ensures
        ({
            let len = match dir {
                Dir::L2r => c.l2r.len,
                Dir::R2l => c.r2l.len,
            };
            let (after, step) = conn::splice_step(c, Transfer::Rest(dir), outcome, now, chunk);
            let quiet = step.ended is None && step.notice is None;
            &&& outcome is Moved && 0 < n < len ==> {
                &&& after == booked(c, dir, len - n, true, now)
                &&& step.work == Work::Splice(Transfer::Rest(dir), (len - n) as usize)
                &&& quiet
            }
            &&& outcome is Moved && n > 0 && n == len ==> goes_on_after(
                booked(c, dir, 0, true, now),
                after,
                step,
                dir,
                chunk,
            )
            &&& outcome == SpliceOutcome::WouldBlock ==> goes_on_after(c, after, step, dir, chunk)
            &&& outcome == SpliceOutcome::Interrupted ==> after == c && step.work == Work::Splice(
                Transfer::Rest(dir),
                len,
            ) && quiet
            &&& outcome == SpliceOutcome::Moved(0) || outcome == SpliceOutcome::NoMemory || outcome
                == SpliceOutcome::Failed ==> after == c && step.work == Work::Close && quiet
        }),
{
    let h = c.half(dir);
    lemma_after_transfer_goes_on(c, dir, chunk);
    if outcome is Moved && n > 0 {
        let b = c.with_half(dir, conn::moved(h, h.len - n, outcome, now));
        assert(b == booked(c, dir, h.len - n, true, now));
        lemma_after_transfer_goes_on(b, dir, chunk);
    }
}

/// A new connection has moved nothing, has ended in neither direction, and counts
/// its time from its start.
pub proof fn law_new_connection_is_open(gen: u16, connecting: bool, now: u64)
    ensures
        ({
            let c = conn::new_state(gen, connecting, now);
            &&& c.gen == gen
            &&& c.connecting == connecting
            &&& c.connect_start == now
            &&& c.half_close_since is None
            &&& c.l2r.len == 0 && c.r2l.len == 0
            &&& c.l2r.last == now && c.r2l.last == now
            &&& !c.l2r.eof && !c.r2l.eof
            &&& !c.l2r.shut && !c.r2l.shut
        }),
{
}

/// Each end and each notice of a step is logged by one line, the end first.
pub proof fn law_step_is_logged(s: Step)
    ensures
        s.ended is None && s.notice is None ==> conn::step_text(s).len() == 0,
        s.ended is Some && s.notice is None ==> conn::step_text(s) == seq![
            conn::ended_text(s.ended->0),
        ],
        s.ended is None && s.notice is Some ==> conn::step_text(s) == seq![
            conn::notice_text(s.notice->0),
        ],
        s.ended is Some && s.notice is Some ==> conn::step_text(s) == seq![
            conn::ended_text(s.ended->0),
            conn::notice_text(s.notice->0),
        ],
        conn::ended_text(Dir::L2r) == "EOF: Local->Remote"@,
        conn::ended_text(Dir::R2l) == "EOF: Remote->Local"@,
        conn::notice_text(Notice::ConnectFailed) == "Connect failed"@,
        conn::notice_text(Notice::ConnectFailedAtOnce) == "Connect failed (post-ADD)"@,
        conn::notice_text(Notice::LocalError) == "Connection Error: Local"@,
        conn::notice_text(Notice::RemoteError) == "Connection Error: Remote"@,
        conn::notice_text(Notice::TransferError(Dir::L2r)) == "Connection Error: Local->Remote"@,
        conn::notice_text(Notice::TransferError(Dir::R2l)) == "Connection Error: Remote->Local"@,
        conn::notice_text(Notice::FullyClosed) == "Connection Fully Closed"@,
{
}

/// A connection is sound where a destination was told of the end only once everything
/// was delivered, the clock of the half-closed state runs exactly while one direction
/// has ended, and no pipe holds more than a chunk.
pub proof fn law_sound_connection(c: ConnState, chunk: usize)
    ensures
        c.wf(chunk) <==> {
            &&& c.l2r.shut ==> c.l2r.eof && c.l2r.len == 0
            &&& c.r2l.shut ==> c.r2l.eof && c.r2l.len == 0
            &&& c.l2r.eof && !c.r2l.eof || !c.l2r.eof && c.r2l.eof <==> c.half_close_since is Some
            &&& c.l2r.len <= chunk
            &&& c.r2l.len <= chunk
        },
{
}

/// A transfer belongs to its own direction, and moves bytes into the pipe only while
/// its pump fills.
pub proof fn law_transfer_has_its_direction(c: ConnState, dir: Dir, p: Pump, h: Half)
    ensures
        conn::transfer_dir(Transfer::Pump(dir, p)) == dir,
        conn::transfer_dir(Transfer::Rest(dir)) == dir,
        conn::booking(Transfer::Pump(dir, p)).phase == p.phase,
        conn::booking(Transfer::Rest(dir)).phase == Phase::Drain,
        c.half(Dir::L2r) == c.l2r,
        c.half(Dir::R2l) == c.r2l,
        c.with_half(Dir::L2r, h) == (ConnState { l2r: h, ..c }),
        c.with_half(Dir::R2l, h) == (ConnState { r2l: h, ..c }),
{
}

} // verus!
