//! What holds of a connection over every sequence of events.

use crate::conn;
use crate::conn::ConnState;
use crate::conn::Dir;
use crate::conn::Notice;
use crate::conn::Step;
use crate::conn::Transfer;
use crate::conn::Work;
use crate::epoll::Readiness;
use crate::pump;
use crate::pump::Phase;
use crate::pump::PumpAction;
use crate::pump::SpliceOutcome;
use vstd::prelude::*;

verus! {

/// What the surroundings answer to the work that a connection asked for.
pub enum Reply {
    /// Whether the remote socket has no pending error.
    Connect(bool),
    /// What became of the splice.
    Splice(SpliceOutcome),
    /// The destination was told of the end.
    Shutdown,
}

/// Whether a reply answers that work.
pub open spec fn answers(work: Work, reply: Reply) -> bool {
    match work {
        Work::CheckConnect => reply is Connect,
        Work::Splice(_, _) => reply is Splice,
        Work::ShutdownWrite(_) => reply is Shutdown,
        _ => false,
    }
}

/// What a reply leads to.
pub open spec fn respond(c: ConnState, work: Work, reply: Reply, now: u64, chunk: usize) -> (
    ConnState,
    Step,
) {
    match (work, reply) {
        (Work::CheckConnect, Reply::Connect(no_error)) => conn::connect_step(
            c,
            no_error,
            Notice::ConnectFailed,
        ),
        (Work::Splice(t, _), Reply::Splice(outcome)) => conn::splice_step(
            c,
            t,
            outcome,
            now,
            chunk,
        ),
        (Work::ShutdownWrite(dir), Reply::Shutdown) => conn::shutdown_step(c, dir, chunk),
        _ => (c, conn::plain(work)),
    }
}

/// The request of a pump as its own action.
pub open spec fn pump_action(phase: Phase, n: usize) -> PumpAction {
    match phase {
        Phase::Fill => PumpAction::Fill(n),
        Phase::Drain => PumpAction::Drain(n),
    }
}

/// Whether a connection may be waiting for that work.
pub open spec fn waits_for(c: ConnState, work: Work, chunk: usize) -> bool {
    match work {
        Work::Splice(t, n) => {
            let dir = conn::transfer_dir(t);
            let h = c.half(dir);
            &&& dir == Dir::R2l ==> !conn::shutdown_due(c.l2r)
            &&& match t {
                Transfer::Pump(_, p) => !h.eof && pump::in_step(
                    p,
                    pump_action(p.phase, n),
                    h.len,
                    chunk,
                ),
                Transfer::Rest(_) => h.eof && n == h.len && n > 0,
            }
        },
        Work::ShutdownWrite(dir) => {
            &&& c.half(dir).shut
            &&& dir == Dir::R2l ==> !conn::shutdown_due(c.l2r)
        },
        _ => true,
    }
}

/// Whether a reply reports no more than was asked for.
pub open spec fn within_request(work: Work, reply: Reply) -> bool {
    match (work, reply) {
        (Work::Splice(_, n), Reply::Splice(SpliceOutcome::Moved(m))) => m <= n,
        _ => true,
    }
}

/// The bytes that a reply reports as taken from the source of `dir`.
pub open spec fn taken(work: Work, reply: Reply, dir: Dir) -> nat {
    match (work, reply) {
        (Work::Splice(t, _), Reply::Splice(SpliceOutcome::Moved(n))) => if conn::transfer_dir(t)
            == dir && conn::booking(t).phase == Phase::Fill {
            n as nat
        } else {
            0
        },
        _ => 0,
    }
}

/// The bytes that a reply reports as given to the destination of `dir`.
pub open spec fn given(work: Work, reply: Reply, dir: Dir) -> nat {
    match (work, reply) {
        (Work::Splice(t, _), Reply::Splice(SpliceOutcome::Moved(n))) => if conn::transfer_dir(t)
            == dir && conn::booking(t).phase == Phase::Drain {
            n as nat
        } else {
            0
        },
        _ => 0,
    }
}

/// What is true of a step and the connection that it leaves behind.
pub open spec fn step_in_order(before: ConnState, after: ConnState, step: Step, chunk: usize) -> bool {
    &&& after.wf(chunk)
    &&& waits_for(after, step.work, chunk)
    &&& step.work matches Work::ShutdownWrite(dir) ==> {
        &&& after.half(dir).eof
        &&& after.half(dir).len == 0
        &&& !before.half(dir).shut
    }
    &&& step.notice == Some(Notice::FullyClosed) ==> {
        &&& after.l2r.shut
        &&& after.r2l.shut
    }
    &&& before.l2r.shut ==> after.l2r.shut
    &&& before.r2l.shut ==> after.r2l.shut
    &&& before.l2r.eof ==> after.l2r.eof
    &&& before.r2l.eof ==> after.r2l.eof
    &&& after.gen == before.gen
    &&& after.connect_start == before.connect_start
}

proof fn lemma_begin_r2l(c: ConnState, chunk: usize)
    requires
        chunk > 0,
        c.wf(chunk),
        !conn::shutdown_due(c.l2r),
    ensures
        ({
            let (after, step) = conn::begin_r2l(c, chunk);
            step_in_order(c, after, step, chunk) && after.l2r == c.l2r && after.r2l.len
                == c.r2l.len
        }),
{
    pump::law_pump_starts_in_step(c.r2l.len, chunk);
}

proof fn lemma_begin_l2r(c: ConnState, chunk: usize)
    requires
        chunk > 0,
        c.wf(chunk),
    ensures
        ({
            let (after, step) = conn::begin_l2r(c, chunk);
            step_in_order(c, after, step, chunk) && after.l2r.len == c.l2r.len && after.r2l.len
                == c.r2l.len
        }),
{
    pump::law_pump_starts_in_step(c.l2r.len, chunk);
    if !conn::shutdown_due(c.l2r) {
        lemma_begin_r2l(c, chunk);
    }
}

/// An event leaves a sound connection sound and moves no bytes by itself; what
/// it asks for suits the connection. The writing side of a destination is shut
/// down only after everything before the end was delivered, and at most once.
pub proof fn law_event_in_order(c: ConnState, is_remote: bool, ready: Readiness, chunk: usize)
    requires
        chunk > 0,
        c.wf(chunk),
    ensures
        ({
            let (after, step) = conn::event_step(c, is_remote, ready, chunk);
            step_in_order(c, after, step, chunk) && after.l2r.len == c.l2r.len && after.r2l.len
                == c.r2l.len
        }),
{
    lemma_begin_l2r(c, chunk);
}

proof fn lemma_after_transfer(c: ConnState, dir: Dir, chunk: usize)
    requires
        chunk > 0,
        c.wf(chunk),
        dir == Dir::R2l ==> !conn::shutdown_due(c.l2r),
    ensures
        ({
            let (after, step) = conn::after_transfer(c, dir, chunk);
            step_in_order(c, after, step, chunk) && after.l2r.len == c.l2r.len && after.r2l.len
                == c.r2l.len
        }),
{
    if dir == Dir::L2r && !conn::shutdown_due(c.l2r) {
        lemma_begin_r2l(c, chunk);
    }
}

/// A reply leaves a sound connection sound, and books every byte: what was taken
/// from a source is given to its destination or waits in the pipe.
#[verifier::rlimit(50)]
pub proof fn law_reply_in_order(c: ConnState, work: Work, reply: Reply, now: u64, chunk: usize)
    requires
        chunk > 0,
        c.wf(chunk),
        waits_for(c, work, chunk),
        answers(work, reply),
        within_request(work, reply),
    ensures
        ({
            let (after, step) = respond(c, work, reply, now, chunk);
            &&& step_in_order(c, after, step, chunk)
            &&& after.l2r.len == c.l2r.len + taken(work, reply, Dir::L2r) - given(
                work,
                reply,
                Dir::L2r,
            )
            &&& after.r2l.len == c.r2l.len + taken(work, reply, Dir::R2l) - given(
                work,
                reply,
                Dir::R2l,
            )
        }),
{
    match (work, reply) {
        (Work::Splice(t, n), Reply::Splice(outcome)) => {
            let dir = conn::transfer_dir(t);
            let h = c.half(dir);
            match t {
                Transfer::Pump(_, p) => {
                    pump::law_pump_requests_in_step(
                        p,
                        pump_action(p.phase, n),
                        h.len,
                        chunk,
                        outcome,
                    );
                    let len = pump::len_after(p, h.len, outcome);
                    let booked = c.with_half(dir, conn::moved(h, len, outcome, now));
                    assert(booked.wf(chunk));
                    lemma_after_transfer(booked, dir, chunk);
                    let end = conn::ended(booked, dir, now);
                    assert(end.wf(chunk));
                    lemma_after_transfer(end, dir, chunk);
                },
                Transfer::Rest(_) => {
                    lemma_after_transfer(c, dir, chunk);
                    if let SpliceOutcome::Moved(m) = outcome {
                        let booked = c.with_half(
                            dir,
                            conn::moved(h, h.len - m, outcome, now),
                        );
                        assert(booked.wf(chunk));
                        lemma_after_transfer(booked, dir, chunk);
                    }
                },
            }
        },
        (Work::ShutdownWrite(Dir::L2r), Reply::Shutdown) => {
            lemma_begin_r2l(c, chunk);
        },
        _ => {},
    }
}

/// A list of replies, each with its time, from the first to the last that is
/// asked for.
pub open spec fn relay_run(
    c: ConnState,
    work: Work,
    replies: Seq<(Reply, u64)>,
    chunk: usize,
) -> (ConnState, Work)
    decreases replies.len(),
{
    if replies.len() == 0 || !answers(work, replies[0].0) {
        (c, work)
    } else {
        let (after, step) = respond(c, work, replies[0].0, replies[0].1, chunk);
        relay_run(after, step.work, replies.skip(1), chunk)
    }
}

/// Whether no reply of a run reports more than was asked for.
pub open spec fn run_within_requests(
    c: ConnState,
    work: Work,
    replies: Seq<(Reply, u64)>,
    chunk: usize,
) -> bool
    decreases replies.len(),
{
    if replies.len() == 0 || !answers(work, replies[0].0) {
        true
    } else {
        let (after, step) = respond(c, work, replies[0].0, replies[0].1, chunk);
        within_request(work, replies[0].0) && run_within_requests(
            after,
            step.work,
            replies.skip(1),
            chunk,
        )
    }
}

/// The bytes that a run took from the source of a direction.
pub open spec fn run_taken(
    c: ConnState,
    work: Work,
    replies: Seq<(Reply, u64)>,
    chunk: usize,
    dir: Dir,
) -> nat
    decreases replies.len(),
{
    if replies.len() == 0 || !answers(work, replies[0].0) {
        0
    } else {
        let (after, step) = respond(c, work, replies[0].0, replies[0].1, chunk);
        taken(work, replies[0].0, dir) + run_taken(after, step.work, replies.skip(1), chunk, dir)
    }
}

/// The bytes that a run gave to the destination of a direction.
pub open spec fn run_given(
    c: ConnState,
    work: Work,
    replies: Seq<(Reply, u64)>,
    chunk: usize,
    dir: Dir,
) -> nat
    decreases replies.len(),
{
    if replies.len() == 0 || !answers(work, replies[0].0) {
        0
    } else {
        let (after, step) = respond(c, work, replies[0].0, replies[0].1, chunk);
        given(work, replies[0].0, dir) + run_given(after, step.work, replies.skip(1), chunk, dir)
    }
}

/// Over any list of replies nothing is lost and nothing is made up: in each
/// direction, the bytes that waited in the pipe and those taken from the source
/// are those given to the destination and those that still wait.
pub proof fn law_relay_conserves_bytes(
    c: ConnState,
    work: Work,
    replies: Seq<(Reply, u64)>,
    chunk: usize,
    dir: Dir,
)
    requires
        chunk > 0,
        c.wf(chunk),
        waits_for(c, work, chunk),
        run_within_requests(c, work, replies, chunk),
    ensures
        ({
            let (after, next) = relay_run(c, work, replies, chunk);
            &&& after.wf(chunk)
            &&& waits_for(after, next, chunk)
            &&& c.half(dir).len + run_taken(c, work, replies, chunk, dir) == after.half(dir).len
                + run_given(c, work, replies, chunk, dir)
        }),
    decreases replies.len(),
{
    if replies.len() > 0 && answers(work, replies[0].0) {
        let (after, step) = respond(c, work, replies[0].0, replies[0].1, chunk);
        law_reply_in_order(c, work, replies[0].0, replies[0].1, chunk);
        law_relay_conserves_bytes(after, step.work, replies.skip(1), chunk, dir);
    }
}

/// One thing that happens to a connection, with the replies to the work that it
/// leads to, each with its time.
pub enum Happening {
    /// An event on one of the two sockets.
    Event { is_remote: bool, ready: Readiness, replies: Seq<(Reply, u64)> },
    /// The remote socket was ready as soon as it was registered: whether it has no
    /// pending error.
    EarlyConnect(bool),
}

/// What a connection is and asks for once something has happened and its replies
/// were given.
pub open spec fn after_happening(c: ConnState, h: Happening, chunk: usize) -> (ConnState, Work) {
    match h {
        Happening::Event { is_remote, ready, replies } => {
            let (begun, step) = conn::event_step(c, is_remote, ready, chunk);
            relay_run(begun, step.work, replies, chunk)
        },
        Happening::EarlyConnect(no_error) => {
            let (after, step) = conn::connect_step(c, no_error, Notice::ConnectFailedAtOnce);
            (after, step.work)
        },
    }
}

/// Whether no reply to what a happening leads to reports more than was asked for.
pub open spec fn happening_within_requests(c: ConnState, h: Happening, chunk: usize) -> bool {
    match h {
        Happening::Event { is_remote, ready, replies } => {
            let (begun, step) = conn::event_step(c, is_remote, ready, chunk);
            run_within_requests(begun, step.work, replies, chunk)
        },
        Happening::EarlyConnect(_) => true,
    }
}

/// The bytes that a happening took from the source of a direction.
pub open spec fn happening_taken(c: ConnState, h: Happening, chunk: usize, dir: Dir) -> nat {
    match h {
        Happening::Event { is_remote, ready, replies } => {
            let (begun, step) = conn::event_step(c, is_remote, ready, chunk);
            run_taken(begun, step.work, replies, chunk, dir)
        },
        Happening::EarlyConnect(_) => 0,
    }
}

/// The bytes that a happening gave to the destination of a direction.
pub open spec fn happening_given(c: ConnState, h: Happening, chunk: usize, dir: Dir) -> nat {
    match h {
        Happening::Event { is_remote, ready, replies } => {
            let (begun, step) = conn::event_step(c, is_remote, ready, chunk);
            run_given(begun, step.work, replies, chunk, dir)
        },
        Happening::EarlyConnect(_) => 0,
    }
}

/// A connection after all that happens to it, from the first to the last; what
/// comes after its end is left out.
pub open spec fn life(c: ConnState, happenings: Seq<Happening>, chunk: usize) -> ConnState
    decreases happenings.len(),
{
    if happenings.len() == 0 {
        c
    } else {
        let (after, work) = after_happening(c, happenings[0], chunk);
        if work == Work::Close {
            after
        } else {
            life(after, happenings.skip(1), chunk)
        }
    }
}

/// Whether no reply in a life reports more than was asked for.
pub open spec fn life_within_requests(
    c: ConnState,
    happenings: Seq<Happening>,
    chunk: usize,
) -> bool
    decreases happenings.len(),
{
    if happenings.len() == 0 {
        true
    } else {
        let (after, work) = after_happening(c, happenings[0], chunk);
        &&& happening_within_requests(c, happenings[0], chunk)
        &&& work == Work::Close || life_within_requests(after, happenings.skip(1), chunk)
    }
}

/// The bytes that a life took from the source of a direction.
pub open spec fn life_taken(
    c: ConnState,
    happenings: Seq<Happening>,
    chunk: usize,
    dir: Dir,
) -> nat
    decreases happenings.len(),
{
    if happenings.len() == 0 {
        0
    } else {
        let (after, work) = after_happening(c, happenings[0], chunk);
        happening_taken(c, happenings[0], chunk, dir) + if work == Work::Close {
            0
        } else {
            life_taken(after, happenings.skip(1), chunk, dir)
        }
    }
}

/// The bytes that a life gave to the destination of a direction.
pub open spec fn life_given(
    c: ConnState,
    happenings: Seq<Happening>,
    chunk: usize,
    dir: Dir,
) -> nat
    decreases happenings.len(),
{
    if happenings.len() == 0 {
        0
    } else {
        let (after, work) = after_happening(c, happenings[0], chunk);
        happening_given(c, happenings[0], chunk, dir) + if work == Work::Close {
            0
        } else {
            life_given(after, happenings.skip(1), chunk, dir)
        }
    }
}

/// Whether a connection is sound at the start of a life and after everything that
/// happens in it.
pub open spec fn sound_throughout(
    c: ConnState,
    happenings: Seq<Happening>,
    chunk: usize,
) -> bool
    decreases happenings.len(),
{
    &&& c.wf(chunk)
    &&& happenings.len() > 0 ==> {
        let (after, work) = after_happening(c, happenings[0], chunk);
        &&& after.wf(chunk)
        &&& work == Work::Close || sound_throughout(after, happenings.skip(1), chunk)
    }
}

proof fn lemma_happening(c: ConnState, h: Happening, chunk: usize, dir: Dir)
    requires
        chunk > 0,
        c.wf(chunk),
        happening_within_requests(c, h, chunk),
    ensures
        ({
            let (after, work) = after_happening(c, h, chunk);
            &&& after.wf(chunk)
            &&& waits_for(after, work, chunk)
            &&& c.half(dir).len + happening_taken(c, h, chunk, dir) == after.half(dir).len
                + happening_given(c, h, chunk, dir)
        }),
{
    match h {
        Happening::Event { is_remote, ready, replies } => {
            let (begun, step) = conn::event_step(c, is_remote, ready, chunk);
            law_event_in_order(c, is_remote, ready, chunk);
            law_relay_conserves_bytes(begun, step.work, replies, chunk, dir);
        },
        Happening::EarlyConnect(_) => {},
    }
}

proof fn lemma_life(c: ConnState, happenings: Seq<Happening>, chunk: usize, dir: Dir)
    requires
        chunk > 0,
        c.wf(chunk),
        life_within_requests(c, happenings, chunk),
    ensures
        sound_throughout(c, happenings, chunk),
        life(c, happenings, chunk).wf(chunk),
        c.half(dir).len + life_taken(c, happenings, chunk, dir) == life(
            c,
            happenings,
            chunk,
        ).half(dir).len + life_given(c, happenings, chunk, dir),
    decreases happenings.len(),
{
    if happenings.len() > 0 {
        let (after, work) = after_happening(c, happenings[0], chunk);
        lemma_happening(c, happenings[0], chunk, dir);
        if work != Work::Close {
            lemma_life(after, happenings.skip(1), chunk, dir);
        }
    }
}

/// Over the whole life of a connection, whatever happens to it, it is sound after
/// every event, and in each direction the bytes taken from the source are those
/// given to the destination and those that wait in the pipe. A destination that
/// was told of the end was given every byte.
pub proof fn law_life_conserves_bytes(
    gen: u16,
    connecting: bool,
    now: u64,
    happenings: Seq<Happening>,
    chunk: usize,
    dir: Dir,
)
    requires
        chunk > 0,
        life_within_requests(conn::new_state(gen, connecting, now), happenings, chunk),
    ensures
        ({
            let c = conn::new_state(gen, connecting, now);
            let end = life(c, happenings, chunk);
            let taken = life_taken(c, happenings, chunk, dir);
            let given = life_given(c, happenings, chunk, dir);
            &&& sound_throughout(c, happenings, chunk)
            &&& end.wf(chunk)
            &&& taken == given + end.half(dir).len
            &&& end.half(dir).shut ==> taken == given
        }),
{
    lemma_life(conn::new_state(gen, connecting, now), happenings, chunk, dir);
}

} // verus!
