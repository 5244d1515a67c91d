//! One relayed TCP connection: what an event on one of its two sockets leads
//! to, and when the connection is over.
//!
//! Handling an event alternates between decisions, which are taken here, and
//! work on sockets, which is asked for one piece at a time.

use crate::epoll;
use crate::epoll::epoll_readiness;
use crate::epoll::Readiness;
use crate::pump;
use crate::pump::pump_start;
use crate::pump::pump_step;
use crate::pump::Phase;
use crate::pump::Pump;
use crate::pump::PumpAction;
use crate::pump::PumpStatus;
use crate::pump::SpliceOutcome;
use crate::text;
use vstd::prelude::*;

verus! {

/// One of the two directions of a connection.
#[derive(Clone, Copy, Debug, PartialEq, Eq, Structural)]
pub enum Dir {
    /// From the local client to the remote end.
    L2r,
    /// From the remote end to the local client.
    R2l,
}

/// The state of one direction.
#[derive(Clone, Copy, Debug, PartialEq, Eq, Structural)]
pub struct Half {
    /// Bytes in the direction's pipe.
    pub len: usize,
    /// When bytes were last moved.
    pub last: u64,
    /// The source has ended.
    pub eof: bool,
    /// The end was passed on to the destination.
    pub shut: bool,
}

/// The state of a connection, without its sockets and pipes.
#[derive(Clone, Copy, Debug, PartialEq, Eq, Structural)]
pub struct ConnState {
    /// The generation in the connection's tokens.
    pub gen: u16,
    pub l2r: Half,
    pub r2l: Half,
    /// Since when exactly one direction has ended.
    pub half_close_since: Option<u64>,
    /// The remote end has not answered yet.
    pub connecting: bool,
    pub connect_start: u64,
}

/// A transfer of bytes that is under way.
#[derive(Clone, Copy, Debug, PartialEq, Eq, Structural)]
pub enum Transfer {
    /// The pump of a direction whose source has not ended.
    Pump(Dir, Pump),
    /// The rest in the pipe of a direction whose source has ended.
    Rest(Dir),
}

/// What a connection asks for.
#[derive(Clone, Copy, Debug, PartialEq, Eq, Structural)]
pub enum Work {
    /// Nothing: the event is of no interest.
    Ignore,
    /// Read the pending error of the remote socket.
    CheckConnect,
    /// Splice at most that many bytes: into the pipe while a pump fills it, else
    /// out of it.
    Splice(Transfer, usize),
    /// Shut down the writing side of the direction's destination.
    ShutdownWrite(Dir),
    /// Watch both sockets anew: the event is dealt with.
    Rearm,
    /// Close both sockets and free the slot.
    Close,
}

/// What is worth a log line.
#[derive(Clone, Copy, Debug, PartialEq, Eq, Structural)]
pub enum Notice {
    ConnectFailed,
    ConnectFailedAtOnce,
    LocalError,
    RemoteError,
    TransferError(Dir),
    FullyClosed,
}

/// What follows a decision.
#[derive(Clone, Copy, Debug, PartialEq, Eq, Structural)]
pub struct Step {
    pub work: Work,
    /// The direction whose end was just seen.
    pub ended: Option<Dir>,
    pub notice: Option<Notice>,
}

/// The line that reports a notice.
pub open spec fn notice_text(n: Notice) -> Seq<char> {
    match n {
        Notice::ConnectFailed => "Connect failed"@,
        Notice::ConnectFailedAtOnce => "Connect failed (post-ADD)"@,
        Notice::LocalError => "Connection Error: Local"@,
        Notice::RemoteError => "Connection Error: Remote"@,
        Notice::TransferError(Dir::L2r) => "Connection Error: Local->Remote"@,
        Notice::TransferError(Dir::R2l) => "Connection Error: Remote->Local"@,
        Notice::FullyClosed => "Connection Fully Closed"@,
    }
}

/// The line to log for a notice.
fn notice_line(n: Notice) -> (r: String)
    ensures
        r@ == notice_text(n),
{
    match n {
        Notice::ConnectFailed => "Connect failed".to_owned(),
        Notice::ConnectFailedAtOnce => "Connect failed (post-ADD)".to_owned(),
        Notice::LocalError => "Connection Error: Local".to_owned(),
        Notice::RemoteError => "Connection Error: Remote".to_owned(),
        Notice::TransferError(Dir::L2r) => "Connection Error: Local->Remote".to_owned(),
        Notice::TransferError(Dir::R2l) => "Connection Error: Remote->Local".to_owned(),
        Notice::FullyClosed => "Connection Fully Closed".to_owned(),
    }
}

/// The line that reports the end of a direction.
pub open spec fn ended_text(dir: Dir) -> Seq<char> {
    match dir {
        Dir::L2r => "EOF: Local->Remote"@,
        Dir::R2l => "EOF: Remote->Local"@,
    }
}

/// The lines that report a step.
pub open spec fn step_text(s: Step) -> Seq<Seq<char>> {
    let first = match s.ended {
        Some(dir) => seq![ended_text(dir)],
        None => seq![],
    };
    let second = match s.notice {
        Some(n) => seq![notice_text(n)],
        None => seq![],
    };
    first + second
}

/// The lines to log for a step, in their order.
pub fn step_lines(s: &Step) -> (r: Vec<String>)
    ensures
        text::lines(r@) == step_text(*s),
{
    let mut r: Vec<String> = Vec::new();
    match s.ended {
        Some(Dir::L2r) => {
            r.push("EOF: Local->Remote".to_owned());
        },
        Some(Dir::R2l) => {
            r.push("EOF: Remote->Local".to_owned());
        },
        None => {},
    }
    match s.notice {
        Some(n) => {
            r.push(notice_line(n));
        },
        None => {},
    }
    assert(text::lines(r@) =~= step_text(*s));
    r
}

impl ConnState {
    /// The state of a direction.
    pub open spec fn half(self, dir: Dir) -> Half {
        match dir {
            Dir::L2r => self.l2r,
            Dir::R2l => self.r2l,
        }
    }

    /// The connection with the state of one direction replaced.
    pub open spec fn with_half(self, dir: Dir, h: Half) -> ConnState {
        match dir {
            Dir::L2r => ConnState { l2r: h, ..self },
            Dir::R2l => ConnState { r2l: h, ..self },
        }
    }

    /// What every decision keeps: the end of a direction is passed on only once
    /// everything before it was delivered, the clock of the half-closed state
    /// runs exactly while one direction has ended and the other has not, and no
    /// pipe holds more than `chunk`.
    pub open spec fn wf(self, chunk: usize) -> bool {
        &&& self.l2r.shut ==> self.l2r.eof && self.l2r.len == 0
        &&& self.r2l.shut ==> self.r2l.eof && self.r2l.len == 0
        &&& self.half_close_since is Some <==> self.l2r.eof != self.r2l.eof
        &&& self.l2r.len <= chunk
        &&& self.r2l.len <= chunk
    }
}

/// The state of a connection of which nothing has been relayed yet.
pub open spec fn new_state(gen: u16, connecting: bool, now: u64) -> ConnState {
    let fresh = Half { len: 0, last: now, eof: false, shut: false };
    ConnState {
        gen,
        l2r: fresh,
        r2l: fresh,
        half_close_since: None,
        connecting,
        connect_start: now,
    }
}

/// A step without a notice.
pub open spec fn plain(work: Work) -> Step {
    Step { work, ended: None, notice: None }
}

/// A step that closes the connection and says why.
pub open spec fn closing(why: Notice) -> Step {
    Step { work: Work::Close, ended: None, notice: Some(why) }
}

/// The end of an event: the connection is over once both directions have ended
/// and both pipes are empty, and is watched on otherwise.
pub open spec fn conclude(c: ConnState) -> (ConnState, Step) {
    if c.l2r.eof && c.r2l.eof && c.l2r.len == 0 && c.r2l.len == 0 {
        (c, closing(Notice::FullyClosed))
    } else {
        (c, plain(Work::Rearm))
    }
}

/// Whether a direction has ended, is delivered, and has not said so to its
/// destination.
pub open spec fn shutdown_due(h: Half) -> bool {
    h.eof && h.len == 0 && !h.shut
}

/// What follows the transfer from remote to local.
pub open spec fn after_r2l(c: ConnState) -> (ConnState, Step) {
    if shutdown_due(c.r2l) {
        (
            ConnState { r2l: Half { shut: true, ..c.r2l }, ..c },
            plain(Work::ShutdownWrite(Dir::R2l)),
        )
    } else {
        conclude(c)
    }
}

/// The request that starts the pump of a direction.
pub open spec fn start_request(dir: Dir, h: Half, chunk: usize) -> Work {
    let (p, action) = pump::pump_request(pump::fresh(), h.len, chunk);
    pump_work(dir, p, action)
}

/// What a pump's request is as work.
pub open spec fn pump_work(dir: Dir, p: Pump, action: PumpAction) -> Work {
    match action {
        PumpAction::Fill(n) => Work::Splice(Transfer::Pump(dir, p), n),
        PumpAction::Drain(n) => Work::Splice(Transfer::Pump(dir, p), n),
        PumpAction::Done(_) => Work::Rearm,
    }
}

/// How the transfer from remote to local begins: with a pump while the source
/// goes on, with the rest in the pipe once it has ended.
pub open spec fn begin_r2l(c: ConnState, chunk: usize) -> (ConnState, Step) {
    if !c.r2l.eof {
        (c, plain(start_request(Dir::R2l, c.r2l, chunk)))
    } else if c.r2l.len > 0 {
        (c, plain(Work::Splice(Transfer::Rest(Dir::R2l), c.r2l.len)))
    } else {
        after_r2l(c)
    }
}

/// What follows the transfer from local to remote.
pub open spec fn after_l2r(c: ConnState, chunk: usize) -> (ConnState, Step) {
    if shutdown_due(c.l2r) {
        (
            ConnState { l2r: Half { shut: true, ..c.l2r }, ..c },
            plain(Work::ShutdownWrite(Dir::L2r)),
        )
    } else {
        begin_r2l(c, chunk)
    }
}

/// How the transfer from local to remote begins.
pub open spec fn begin_l2r(c: ConnState, chunk: usize) -> (ConnState, Step) {
    if !c.l2r.eof {
        (c, plain(start_request(Dir::L2r, c.l2r, chunk)))
    } else if c.l2r.len > 0 {
        (c, plain(Work::Splice(Transfer::Rest(Dir::L2r), c.l2r.len)))
    } else {
        after_l2r(c, chunk)
    }
}

/// What follows the transfer of a direction.
pub open spec fn after_transfer(c: ConnState, dir: Dir, chunk: usize) -> (ConnState, Step) {
    match dir {
        Dir::L2r => after_l2r(c, chunk),
        Dir::R2l => after_r2l(c),
    }
}

/// What an event on one side leads to.
pub open spec fn event_step(c: ConnState, is_remote: bool, ready: Readiness, chunk: usize) -> (
    ConnState,
    Step,
) {
    if is_remote && c.connecting {
        if ready.output || ready.error || ready.hangup || ready.read_hangup {
            (c, plain(Work::CheckConnect))
        } else {
            (c, plain(Work::Ignore))
        }
    } else if ready.error {
        (
            c,
            closing(
                if is_remote {
                    Notice::RemoteError
                } else {
                    Notice::LocalError
                },
            ),
        )
    } else {
        begin_l2r(c, chunk)
    }
}

/// What the pending error of the remote socket leads to.
pub open spec fn connect_step(c: ConnState, no_error: bool, failure: Notice) -> (ConnState, Step) {
    if no_error {
        (ConnState { connecting: false, ..c }, plain(Work::Rearm))
    } else {
        (c, closing(failure))
    }
}

/// The clock of the half-closed state once a direction has ended: it starts with
/// the first end and stops with the second.
pub open spec fn half_close_clock(c: ConnState, dir: Dir, now: u64) -> Option<u64> {
    let other = match dir {
        Dir::L2r => c.r2l,
        Dir::R2l => c.l2r,
    };
    if other.eof {
        None
    } else if c.half_close_since is None {
        Some(now)
    } else {
        c.half_close_since
    }
}

/// The connection once a direction has ended.
pub open spec fn ended(c: ConnState, dir: Dir, now: u64) -> ConnState {
    let clocked = ConnState { half_close_since: half_close_clock(c, dir, now), ..c };
    clocked.with_half(dir, Half { eof: true, ..c.half(dir) })
}

/// A direction's state after a splice that left `len` bytes in its pipe.
pub open spec fn moved(h: Half, len: int, outcome: SpliceOutcome, now: u64) -> Half {
    Half {
        len: len as usize,
        last: if pump::progress(outcome) {
            now
        } else {
            h.last
        },
        ..h
    }
}

/// The pump state whose booking rules apply to a transfer: the rest of a pipe is
/// booked as a drain.
pub open spec fn booking(t: Transfer) -> Pump {
    match t {
        Transfer::Pump(_, p) => p,
        Transfer::Rest(_) => Pump { phase: Phase::Drain, got_eof: true, src_dry: false },
    }
}

/// The direction of a transfer.
pub open spec fn transfer_dir(t: Transfer) -> Dir {
    match t {
        Transfer::Pump(dir, _) => dir,
        Transfer::Rest(dir) => dir,
    }
}

/// What the outcome of a pump's splice leads to.
pub open spec fn pump_splice_step(
    c: ConnState,
    dir: Dir,
    p: Pump,
    outcome: SpliceOutcome,
    now: u64,
    chunk: usize,
) -> (ConnState, Step) {
    let h = c.half(dir);
    let booked = c.with_half(dir, moved(h, pump::len_after(p, h.len, outcome), outcome, now));
    let (q, action) = pump::pump_next(p, h.len, chunk, outcome);
    match action {
        PumpAction::Done(PumpStatus::Failed) => (booked, closing(Notice::TransferError(dir))),
        PumpAction::Done(PumpStatus::Eof) => {
            let (after, step) = after_transfer(ended(booked, dir, now), dir, chunk);
            (after, Step { ended: Some(dir), ..step })
        },
        PumpAction::Done(PumpStatus::Paused) => after_transfer(booked, dir, chunk),
        _ => (booked, plain(pump_work(dir, q, action))),
    }
}

/// What the outcome of a splice of a pipe's rest leads to.
pub open spec fn rest_splice_step(
    c: ConnState,
    dir: Dir,
    outcome: SpliceOutcome,
    now: u64,
    chunk: usize,
) -> (ConnState, Step) {
    let h = c.half(dir);
    let again = (c, plain(Work::Splice(Transfer::Rest(dir), h.len)));
    match outcome {
        SpliceOutcome::Moved(n) => if n > 0 {
            let booked = c.with_half(dir, moved(h, h.len - n, outcome, now));
            if h.len - n > 0 {
                (booked, plain(Work::Splice(Transfer::Rest(dir), (h.len - n) as usize)))
            } else {
                after_transfer(booked, dir, chunk)
            }
        } else {
            (c, plain(Work::Close))
        },
        SpliceOutcome::WouldBlock => after_transfer(c, dir, chunk),
        SpliceOutcome::Interrupted => again,
        SpliceOutcome::NoMemory | SpliceOutcome::Failed => (c, plain(Work::Close)),
    }
}

/// What the outcome of a splice leads to.
pub open spec fn splice_step(
    c: ConnState,
    t: Transfer,
    outcome: SpliceOutcome,
    now: u64,
    chunk: usize,
) -> (ConnState, Step) {
    match t {
        Transfer::Pump(dir, p) => pump_splice_step(c, dir, p, outcome, now, chunk),
        Transfer::Rest(dir) => rest_splice_step(c, dir, outcome, now, chunk),
    }
}

/// What follows the shutdown of a direction's destination.
pub open spec fn shutdown_step(c: ConnState, dir: Dir, chunk: usize) -> (ConnState, Step) {
    match dir {
        Dir::L2r => begin_r2l(c, chunk),
        Dir::R2l => conclude(c),
    }
}

fn ask(work: Work) -> (r: Step)
    ensures
        r == plain(work),
{
    Step { work, ended: None, notice: None }
}

fn close_with(why: Notice) -> (r: Step)
    ensures
        r == closing(why),
{
    Step { work: Work::Close, ended: None, notice: Some(why) }
}

impl ConnState {
    /// A connection of which nothing has been relayed yet.
    pub fn new(gen: u16, connecting: bool, now: u64) -> (c: ConnState)
        ensures
            c == new_state(gen, connecting, now),
            forall|chunk: usize| c.wf(chunk),
    {
        let fresh: Half = Half { len: 0, last: now, eof: false, shut: false };
        ConnState {
            gen,
            l2r: fresh,
            r2l: fresh,
            half_close_since: None,
            connecting,
            connect_start: now,
        }
    }

    fn set_half(&mut self, dir: Dir, h: Half)
        ensures
            *final(self) == old(self).with_half(dir, h),
    {
        match dir {
            Dir::L2r => {
                self.l2r = h;
            },
            Dir::R2l => {
                self.r2l = h;
            },
        }
    }

    fn get_half(&self, dir: Dir) -> (h: Half)
        ensures
            h == self.half(dir),
    {
        match dir {
            Dir::L2r => self.l2r,
            Dir::R2l => self.r2l,
        }
    }

    fn finish_event(&mut self) -> (r: Step)
        ensures
            (*final(self), r) == conclude(*old(self)),
    {
        if self.l2r.eof && self.r2l.eof && self.l2r.len == 0 && self.r2l.len == 0 {
            close_with(Notice::FullyClosed)
        } else {
            ask(Work::Rearm)
        }
    }

    fn start_pump(&self, dir: Dir, chunk: usize) -> (r: Step)
        requires
            chunk > 0,
        ensures
            r == plain(start_request(dir, self.half(dir), chunk)),
    {
        let (p, action): (Pump, PumpAction) = pump_start(self.get_half(dir).len, chunk);
        continue_pump(dir, p, action)
    }

    fn finish_r2l(&mut self) -> (r: Step)
        ensures
            (*final(self), r) == after_r2l(*old(self)),
    {
        if self.r2l.eof && self.r2l.len == 0 && !self.r2l.shut {
            self.r2l.shut = true;
            ask(Work::ShutdownWrite(Dir::R2l))
        } else {
            self.finish_event()
        }
    }

    fn start_r2l(&mut self, chunk: usize) -> (r: Step)
        requires
            chunk > 0,
        ensures
            (*final(self), r) == begin_r2l(*old(self), chunk),
    {
        if !self.r2l.eof {
            self.start_pump(Dir::R2l, chunk)
        } else if self.r2l.len > 0 {
            ask(Work::Splice(Transfer::Rest(Dir::R2l), self.r2l.len))
        } else {
            self.finish_r2l()
        }
    }

    fn finish_l2r(&mut self, chunk: usize) -> (r: Step)
        requires
            chunk > 0,
        ensures
            (*final(self), r) == after_l2r(*old(self), chunk),
    {
        if self.l2r.eof && self.l2r.len == 0 && !self.l2r.shut {
            self.l2r.shut = true;
            ask(Work::ShutdownWrite(Dir::L2r))
        } else {
            self.start_r2l(chunk)
        }
    }

    fn start_l2r(&mut self, chunk: usize) -> (r: Step)
        requires
            chunk > 0,
        ensures
            (*final(self), r) == begin_l2r(*old(self), chunk),
    {
        if !self.l2r.eof {
            self.start_pump(Dir::L2r, chunk)
        } else if self.l2r.len > 0 {
            ask(Work::Splice(Transfer::Rest(Dir::L2r), self.l2r.len))
        } else {
            self.finish_l2r(chunk)
        }
    }

    fn finish_transfer(&mut self, dir: Dir, chunk: usize) -> (r: Step)
        requires
            chunk > 0,
        ensures
            (*final(self), r) == after_transfer(*old(self), dir, chunk),
    {
        match dir {
            Dir::L2r => self.finish_l2r(chunk),
            Dir::R2l => self.finish_r2l(),
        }
    }

    fn mark_ended(&mut self, dir: Dir, now: u64)
        ensures
            *final(self) == ended(*old(self), dir, now),
    {
        let other_eof: bool = match dir {
            Dir::L2r => self.r2l.eof,
            Dir::R2l => self.l2r.eof,
        };
        if other_eof {
            self.half_close_since = None;
        } else if self.half_close_since.is_none() {
            self.half_close_since = Some(now);
        }
        let mut h: Half = self.get_half(dir);
        h.eof = true;
        self.set_half(dir, h);
    }

    /// Begins to handle an event on one side, given by its epoll mask.
    pub fn on_event(&mut self, is_remote: bool, mask: i32, chunk: usize) -> (r: Step)
        requires
            chunk > 0,
        ensures
            (*final(self), r) == event_step(
                *old(self),
                is_remote,
                epoll::readiness_of(mask),
                chunk,
            ),
    {
        let ready: Readiness = epoll_readiness(mask);
        if is_remote && self.connecting {
            if ready.output || ready.error || ready.hangup || ready.read_hangup {
                ask(Work::CheckConnect)
            } else {
                ask(Work::Ignore)
            }
        } else if ready.error {
            close_with(
                if is_remote {
                    Notice::RemoteError
                } else {
                    Notice::LocalError
                },
            )
        } else {
            self.start_l2r(chunk)
        }
    }

    /// Goes on once the pending error of the remote socket is known: the
    /// connection stands if there is none.
    pub fn on_connect(&mut self, no_error: bool) -> (r: Step)
        ensures
            (*final(self), r) == connect_step(*old(self), no_error, Notice::ConnectFailed),
    {
        if no_error {
            self.connecting = false;
            ask(Work::Rearm)
        } else {
            close_with(Notice::ConnectFailed)
        }
    }

    /// Goes on where the remote socket turned out to be ready as soon as it was
    /// registered.
    pub fn on_early_connect(&mut self, no_error: bool) -> (r: Step)
        ensures
            (*final(self), r) == connect_step(*old(self), no_error, Notice::ConnectFailedAtOnce),
    {
        if no_error {
            self.connecting = false;
            ask(Work::Rearm)
        } else {
            close_with(Notice::ConnectFailedAtOnce)
        }
    }

    /// Goes on once the outcome of a splice is known.
    pub fn on_splice(
        &mut self,
        t: Transfer,
        outcome: SpliceOutcome,
        now: u64,
        chunk: usize,
    ) -> (r: Step)
        requires
            chunk > 0,
            pump::countable(booking(t), old(self).half(transfer_dir(t)).len, outcome),
        ensures
            (*final(self), r) == splice_step(*old(self), t, outcome, now, chunk),
    {
        match t {
            Transfer::Pump(dir, p) => self.on_pump_splice(dir, p, outcome, now, chunk),
            Transfer::Rest(dir) => self.on_rest_splice(dir, outcome, now, chunk),
        }
    }

    fn on_pump_splice(
        &mut self,
        dir: Dir,
        p: Pump,
        outcome: SpliceOutcome,
        now: u64,
        chunk: usize,
    ) -> (r: Step)
        requires
            chunk > 0,
            pump::countable(p, old(self).half(dir).len, outcome),
        ensures
            (*final(self), r) == pump_splice_step(*old(self), dir, p, outcome, now, chunk),
    {
        let h: Half = self.get_half(dir);
        let mut len: usize = h.len;
        let mut last: u64 = h.last;
        let (q, action): (Pump, PumpAction) = pump_step(p, outcome, &mut len, chunk, now, &mut last);
        self.set_half(dir, Half { len, last, eof: h.eof, shut: h.shut });
        match action {
            PumpAction::Done(PumpStatus::Failed) => close_with(Notice::TransferError(dir)),
            PumpAction::Done(PumpStatus::Eof) => {
                self.mark_ended(dir, now);
                let step: Step = self.finish_transfer(dir, chunk);
                Step { work: step.work, ended: Some(dir), notice: step.notice }
            },
            PumpAction::Done(PumpStatus::Paused) => self.finish_transfer(dir, chunk),
            _ => continue_pump(dir, q, action),
        }
    }

    fn on_rest_splice(
        &mut self,
        dir: Dir,
        outcome: SpliceOutcome,
        now: u64,
        chunk: usize,
    ) -> (r: Step)
        requires
            chunk > 0,
            outcome matches SpliceOutcome::Moved(n) ==> n <= old(self).half(dir).len,
        ensures
            (*final(self), r) == rest_splice_step(*old(self), dir, outcome, now, chunk),
    {
        let h: Half = self.get_half(dir);
        match outcome {
            SpliceOutcome::Moved(n) => {
                if n > 0 {
                    let left: usize = h.len - n;
                    self.set_half(dir, Half { len: left, last: now, eof: h.eof, shut: h.shut });
                    if left > 0 {
                        ask(Work::Splice(Transfer::Rest(dir), left))
                    } else {
                        self.finish_transfer(dir, chunk)
                    }
                } else {
                    ask(Work::Close)
                }
            },
            SpliceOutcome::WouldBlock => self.finish_transfer(dir, chunk),
            SpliceOutcome::Interrupted => ask(Work::Splice(Transfer::Rest(dir), h.len)),
            SpliceOutcome::NoMemory => ask(Work::Close),
            SpliceOutcome::Failed => ask(Work::Close),
        }
    }

    /// Goes on once a direction's destination was told of the end.
    pub fn on_shutdown(&mut self, dir: Dir, chunk: usize) -> (r: Step)
        requires
            chunk > 0,
        ensures
            (*final(self), r) == shutdown_step(*old(self), dir, chunk),
    {
        match dir {
            Dir::L2r => self.start_r2l(chunk),
            Dir::R2l => self.finish_event(),
        }
    }
}

fn continue_pump(dir: Dir, p: Pump, action: PumpAction) -> (r: Step)
    ensures
        r == plain(pump_work(dir, p, action)),
{
    match action {
        PumpAction::Fill(n) => ask(Work::Splice(Transfer::Pump(dir, p), n)),
        PumpAction::Drain(n) => ask(Work::Splice(Transfer::Pump(dir, p), n)),
        PumpAction::Done(_) => ask(Work::Rearm),
    }
}

} // verus!
