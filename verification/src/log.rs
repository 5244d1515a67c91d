//! A rate-limited log: lines are queued, a limited number of them is printed per
//! second, and the rest is counted and reported as dropped.

use crate::text;
use crate::text::append_u64;
use std::collections::VecDeque;
use vstd::prelude::*;

verus! {

/// How many lines the queue holds at most.
pub const LOG_QUEUE_MAX: usize = 4096;

/// The queue of lines and the state of the rate limit.
pub struct FlushState {
    /// Lines that wait to be printed.
    pub queue: VecDeque<String>,
    /// The second that the quota is for.
    pub last_sec: u64,
    /// Lines that may still be printed in that second.
    pub quota: usize,
    /// Lines that were dropped and not reported yet.
    pub dropped: usize,
    /// Lines per second.
    pub rate: usize,
    pub enabled: bool,
}

/// What a log holds, with its lines as character sequences.
#[verifier::ext_equal]
pub struct LogView {
    pub queue: Seq<Seq<char>>,
    pub last_sec: u64,
    pub quota: nat,
    pub dropped: nat,
    pub rate: nat,
    pub enabled: bool,
}

impl View for FlushState {
    type V = LogView;

    open spec fn view(&self) -> LogView {
        LogView {
            queue: text::lines(self.queue@),
            last_sec: self.last_sec,
            quota: self.quota as nat,
            dropped: self.dropped as nat,
            rate: self.rate as nat,
            enabled: self.enabled,
        }
    }
}

impl LogView {
    /// The queue is bounded, and no more is left of the quota than the rate.
    pub open spec fn wf(self) -> bool {
        &&& self.queue.len() <= LOG_QUEUE_MAX
        &&& self.quota <= self.rate
    }
}

/// The line that reports dropped lines.
pub open spec fn dropped_text(n: nat) -> Seq<char> {
    "Log dropped: "@ + text::decimal(n)
}

/// A new log, with the quota of one second.
pub open spec fn initial(enabled: bool, rate: nat) -> LogView {
    LogView { queue: seq![], last_sec: 0, quota: rate, dropped: 0, rate, enabled }
}

/// A log after a line was pushed: the line waits, or counts as dropped where the
/// queue is full.
pub open spec fn pushed(v: LogView, line: Seq<char>) -> LogView {
    if v.queue.len() < LOG_QUEUE_MAX {
        LogView { queue: v.queue.push(line), ..v }
    } else {
        LogView { dropped: v.dropped + 1, ..v }
    }
}

/// A log after lines were pushed, from the first to the last.
pub open spec fn pushed_all(v: LogView, lines: Seq<Seq<char>>) -> LogView
    decreases lines.len(),
{
    if lines.len() == 0 {
        v
    } else {
        pushed(pushed_all(v, lines.drop_last()), lines.last())
    }
}

/// A log that was told of lines that were lost on their way to it.
pub open spec fn told_of_loss(v: LogView, n: nat) -> LogView {
    LogView { dropped: v.dropped + n, ..v }
}

/// What may be printed in a second: the full rate if it is a new one.
pub open spec fn quota_in(v: LogView, sec: u64) -> nat {
    if sec != v.last_sec {
        v.rate
    } else {
        v.quota
    }
}

/// Whether a flush reports dropped lines.
pub open spec fn reports(v: LogView, sec: u64) -> bool {
    v.dropped > 0 && quota_in(v, sec) > 0
}

/// How many queued lines a flush prints.
pub open spec fn printed(v: LogView, sec: u64) -> nat {
    let left = if reports(v, sec) {
        (quota_in(v, sec) - 1) as nat
    } else {
        quota_in(v, sec)
    };
    if v.queue.len() <= left {
        v.queue.len()
    } else {
        left
    }
}

/// A log after a flush in second `sec`, and the lines that the flush prints: the
/// report of dropped lines first, then what the quota allows of the queue. The
/// rest of the queue is dropped. A disabled log prints nothing and forgets the
/// lines that waited; lines that had found its queue full stay counted.
pub open spec fn flushed(v: LogView, sec: u64) -> (LogView, Seq<Seq<char>>) {
    if !v.enabled {
        (LogView { queue: seq![], ..v }, seq![])
    } else {
        let report = if reports(v, sec) {
            seq![dropped_text(v.dropped)]
        } else {
            seq![]
        };
        let unreported = if reports(v, sec) {
            0
        } else {
            v.dropped
        };
        let k = printed(v, sec);
        (
            LogView {
                queue: seq![],
                last_sec: sec,
                quota: (quota_in(v, sec) - report.len() - k) as nat,
                dropped: (unreported + v.queue.len() - k) as nat,
                ..v
            },
            report + v.queue.take(k as int),
        )
    }
}

/// A log after its last flush, and the lines that it prints: all that is left,
/// whether the log is enabled or not. So the last flush of a disabled log still
/// prints what was pushed after the flush before it, and reports lines that had
/// found the queue full.
pub open spec fn emptied(v: LogView) -> (LogView, Seq<Seq<char>>) {
    let report = if v.dropped > 0 {
        seq![dropped_text(v.dropped)]
    } else {
        seq![]
    };
    (LogView { queue: seq![], dropped: 0, ..v }, report + v.queue)
}

fn dropped_line(n: usize) -> (r: String)
    ensures
        r@ == dropped_text(n as nat),
{
    let mut r: String = "Log dropped: ".to_owned();
    append_u64(&mut r, n as u64);
    r
}

/// Starts a log.
pub fn init(enabled: bool, rate: usize) -> (st: FlushState)
    ensures
        st@ == initial(enabled, rate as nat),
        st@.wf(),
{
    let st: FlushState = FlushState {
        queue: VecDeque::new(),
        last_sec: 0,
        quota: rate,
        dropped: 0,
        rate,
        enabled,
    };
    assert(st@.queue =~= seq![]);
    st
}

/// Pushes a line. Where the queue is full the line is dropped silently, and the
/// next flush reports it.
pub fn push(st: &mut FlushState, msg: String)
    requires
        old(st)@.queue.len() >= LOG_QUEUE_MAX ==> old(st).dropped < usize::MAX,
    ensures
        final(st)@ == pushed(old(st)@, msg@),
        old(st)@.wf() ==> final(st)@.wf(),
{
    if st.queue.len() < LOG_QUEUE_MAX {
        st.queue.push_back(msg);
        assert(st@.queue =~= old(st)@.queue.push(msg@));
    } else {
        st.dropped = st.dropped + 1;
    }
    assert(st@ =~= pushed(old(st)@, msg@));
}

/// Moves the first `k` lines of the queue behind those in `out`.
fn take_lines(queue: &mut VecDeque<String>, out: &mut Vec<String>, k: usize)
    requires
        k <= old(queue)@.len(),
    ensures
        text::lines(final(out)@) == text::lines(old(out)@) + text::lines(old(queue)@).take(k as int),
        text::lines(final(queue)@) == text::lines(old(queue)@).skip(k as int),
{
    let ghost waiting = text::lines(queue@);
    let ghost before = text::lines(out@);
    assert(before + waiting.take(0) =~= before);
    assert(waiting.skip(0) =~= waiting);
    let mut i: usize = 0;
    while i < k
        invariant
            i <= k <= waiting.len(),
            text::lines(out@) == before + waiting.take(i as int),
            text::lines(queue@) == waiting.skip(i as int),
        decreases k - i,
    {
        let ghost was = queue@;
        let ghost had = out@;
        assert(text::lines(was).len() == was.len());
        match queue.pop_front() {
            Some(line) => {
                assert(text::lines(was)[0] == line@);
                assert(waiting.skip(i as int)[0] == waiting[i as int]);
                out.push(line);
                assert(text::lines(out@) =~= text::lines(had).push(line@));
                assert(before + waiting.take(i as int).push(waiting[i as int]) =~= (before
                    + waiting.take(i as int)).push(waiting[i as int]));
                assert(waiting.take(i + 1) =~= waiting.take(i as int).push(waiting[i as int]));
                assert(text::lines(queue@) =~= text::lines(was).skip(1));
                assert(waiting.skip(i as int).skip(1) =~= waiting.skip(i + 1));
            },
            None => {},
        }
        i += 1;
    }
}

/// Prints at most the rate of lines per second; to be called once per turn of
/// the event loop, with the second of the wall clock. The result is what to
/// print, in order.
pub fn maybe_flush(st: &mut FlushState, sec: u64) -> (out: Vec<String>)
    requires
        old(st).dropped + old(st)@.queue.len() <= usize::MAX,
    ensures
        (final(st)@, text::lines(out@)) == flushed(old(st)@, sec),
        old(st)@.wf() ==> final(st)@.wf(),
{
    let mut out: Vec<String> = Vec::new();
    assert(text::lines(out@) =~= seq![]);
    if !st.enabled {
        st.queue.clear();
        assert(st@.queue =~= seq![]);
        return out;
    }
    if sec != st.last_sec {
        st.last_sec = sec;
        st.quota = st.rate;
    }
    if st.dropped > 0 && st.quota > 0 {
        let line: String = dropped_line(st.dropped);
        out.push(line);
        assert(text::lines(out@) =~= seq![line@]);
        st.dropped = 0;
        st.quota = st.quota - 1;
    }
    let waiting: usize = st.queue.len();
    let k: usize = if waiting <= st.quota {
        waiting
    } else {
        st.quota
    };
    take_lines(&mut st.queue, &mut out, k);
    st.quota = st.quota - k;
    if st.quota == 0 {
        st.dropped = st.dropped + (waiting - k);
    }
    st.queue.clear();
    assert(st@.queue =~= seq![]);
    out
}

/// Prints everything that is left, without a limit; to be called at the end.
pub fn flush_all(st: &mut FlushState) -> (out: Vec<String>)
    ensures
        (final(st)@, text::lines(out@)) == emptied(old(st)@),
        old(st)@.wf() ==> final(st)@.wf(),
{
    let mut out: Vec<String> = Vec::new();
    assert(text::lines(out@) =~= seq![]);
    if st.dropped > 0 {
        let line: String = dropped_line(st.dropped);
        out.push(line);
        assert(text::lines(out@) =~= seq![line@]);
        st.dropped = 0;
    }
    let n: usize = st.queue.len();
    take_lines(&mut st.queue, &mut out, n);
    assert(text::lines(old(st).queue@).take(n as int) =~= text::lines(old(st).queue@));
    assert(st@.queue =~= seq![]);
    out
}

/// Whether the counts of the log leave room for `n` more lines to be dropped.
pub fn has_room(st: &FlushState, n: usize) -> (r: bool)
    ensures
        r == (st.dropped + st@.queue.len() + n <= usize::MAX),
{
    assert(st@.queue.len() == st.queue@.len());
    let waiting: usize = st.queue.len();
    n <= usize::MAX - waiting && st.dropped <= usize::MAX - waiting - n
}

/// Pushes the lines that came from other threads, from the first to the last,
/// and counts `lost` lines that did not come through.
pub fn collect(st: &mut FlushState, lines: VecDeque<String>, lost: usize)
    requires
        old(st).dropped + old(st)@.queue.len() + lines@.len() + lost <= usize::MAX,
    ensures
        final(st)@ == told_of_loss(pushed_all(old(st)@, text::lines(lines@)), lost as nat),
        old(st)@.wf() ==> final(st)@.wf(),
{
    let ghost texts = text::lines(lines@);
    let ghost start = st@;
    let mut rest: VecDeque<String> = lines;
    let n: usize = rest.len();
    assert(texts.skip(0) =~= texts);
    let mut i: usize = 0;
    while i < n
        invariant
            i <= n,
            n == texts.len(),
            text::lines(rest@) == texts.skip(i as int),
            st@ == pushed_all(start, texts.take(i as int)),
            st.dropped + st@.queue.len() == start.dropped + start.queue.len() + i,
            start.dropped + start.queue.len() + n + lost <= usize::MAX,
            start.wf() ==> st@.wf(),
        decreases n - i,
    {
        let ghost was = rest@;
        assert(text::lines(was).len() == was.len());
        match rest.pop_front() {
            Some(line) => {
                assert(text::lines(was)[0] == line@);
                assert(text::lines(rest@) =~= text::lines(was).skip(1));
                assert(texts.skip(i as int).skip(1) =~= texts.skip(i + 1));
                assert(texts.take(i + 1).drop_last() =~= texts.take(i as int));
                assert(texts.take(i + 1).last() == texts[i as int]);
                push(st, line);
            },
            None => {},
        }
        i += 1;
    }
    assert(texts.take(i as int) =~= texts);
    st.dropped = st.dropped + lost;
}

/// One thing that happens to a log.
pub enum LogOp {
    Push(Seq<char>),
    /// That many lines were lost on their way.
    Loss(nat),
    Flush(u64),
}

/// A log after one thing that happened to it.
pub open spec fn after_op(v: LogView, op: LogOp) -> LogView {
    match op {
        LogOp::Push(line) => pushed(v, line),
        LogOp::Loss(n) => told_of_loss(v, n),
        LogOp::Flush(sec) => flushed(v, sec).0,
    }
}

/// A log after a list of things that happened to it.
pub open spec fn after_ops(v: LogView, ops: Seq<LogOp>) -> LogView
    decreases ops.len(),
{
    if ops.len() == 0 {
        v
    } else {
        after_ops(after_op(v, ops[0]), ops.skip(1))
    }
}

/// How many lines are printed meanwhile.
pub open spec fn lines_printed(v: LogView, ops: Seq<LogOp>) -> nat
    decreases ops.len(),
{
    if ops.len() == 0 {
        0
    } else {
        let here: nat = match ops[0] {
            LogOp::Flush(sec) => flushed(v, sec).1.len(),
            _ => 0,
        };
        here + lines_printed(after_op(v, ops[0]), ops.skip(1))
    }
}

/// The lines that were pushed meanwhile.
pub open spec fn lines_pushed(ops: Seq<LogOp>) -> Seq<Seq<char>>
    decreases ops.len(),
{
    if ops.len() == 0 {
        seq![]
    } else {
        let here = match ops[0] {
            LogOp::Push(line) => seq![line],
            _ => seq![],
        };
        here + lines_pushed(ops.skip(1))
    }
}

/// How many lines were lost on their way meanwhile.
pub open spec fn lines_lost(ops: Seq<LogOp>) -> nat
    decreases ops.len(),
{
    if ops.len() == 0 {
        0
    } else {
        let here: nat = match ops[0] {
            LogOp::Loss(n) => n,
            _ => 0,
        };
        here + lines_lost(ops.skip(1))
    }
}

/// The lines that were printed meanwhile, without the reports of dropped ones.
pub open spec fn messages(v: LogView, ops: Seq<LogOp>) -> Seq<Seq<char>>
    decreases ops.len(),
{
    if ops.len() == 0 {
        seq![]
    } else {
        let here = match ops[0] {
            LogOp::Flush(sec) => if v.enabled {
                v.queue.take(printed(v, sec) as int)
            } else {
                seq![]
            },
            _ => seq![],
        };
        here + messages(after_op(v, ops[0]), ops.skip(1))
    }
}

/// How many dropped lines were reported meanwhile.
pub open spec fn drops_reported(v: LogView, ops: Seq<LogOp>) -> nat
    decreases ops.len(),
{
    if ops.len() == 0 {
        0
    } else {
        let here: nat = match ops[0] {
            LogOp::Flush(sec) => if v.enabled && reports(v, sec) {
                v.dropped
            } else {
                0
            },
            _ => 0,
        };
        here + drops_reported(after_op(v, ops[0]), ops.skip(1))
    }
}

/// Whether `places` finds each line of `some` in `all`, in the same order.
pub open spec fn placed(some: Seq<Seq<char>>, all: Seq<Seq<char>>, places: Seq<int>) -> bool {
    &&& places.len() == some.len()
    &&& forall|i: int| 0 <= i < some.len() ==> 0 <= #[trigger] places[i] < all.len()
    &&& forall|i: int| 0 <= i < some.len() ==> some[i] == all[#[trigger] places[i]]
    &&& forall|i: int, j: int|
        0 <= i < j < some.len() ==> #[trigger] places[i] < #[trigger] places[j]
}

/// Whether `some` is what is left of `all` where lines are taken out.
pub open spec fn in_order(some: Seq<Seq<char>>, all: Seq<Seq<char>>) -> bool {
    exists|places: Seq<int>| placed(some, all, places)
}

proof fn lemma_in_order_same(all: Seq<Seq<char>>)
    ensures
        in_order(all, all),
{
    assert(placed(all, all, Seq::new(all.len(), |i: int| i)));
}

/// One more line in the middle leaves the others in order.
proof fn lemma_in_order_insert(
    some: Seq<Seq<char>>,
    front: Seq<Seq<char>>,
    line: Seq<char>,
    back: Seq<Seq<char>>,
)
    requires
        in_order(some, front + back),
    ensures
        in_order(some, front + (seq![line] + back)),
{
    let p = choose|p: Seq<int>| placed(some, front + back, p);
    let q = Seq::new(
        p.len(),
        |i: int|
            if p[i] < front.len() {
                p[i]
            } else {
                p[i] + 1
            },
    );
    let all = front + (seq![line] + back);
    assert forall|i: int| 0 <= i < some.len() implies some[i] == all[#[trigger] q[i]] by {
        assert(some[i] == (front + back)[p[i]]);
    }
    assert(placed(some, all, q));
}

/// The beginning of a list goes in front of what is in order behind the list.
proof fn lemma_in_order_prefix(
    front: Seq<Seq<char>>,
    k: int,
    some: Seq<Seq<char>>,
    back: Seq<Seq<char>>,
)
    requires
        0 <= k <= front.len(),
        in_order(some, back),
    ensures
        in_order(front.take(k) + some, front + back),
{
    let p = choose|p: Seq<int>| placed(some, back, p);
    let q = Seq::new(
        (k + p.len()) as nat,
        |i: int|
            if i < k {
                i
            } else {
                front.len() + p[i - k]
            },
    );
    let both = front.take(k) + some;
    assert forall|i: int| 0 <= i < both.len() implies 0 <= #[trigger] q[i] < (front + back).len()
        && both[i] == (front + back)[q[i]] by {
        if i >= k {
            assert(some[i - k] == back[p[i - k]]);
        }
    }
    assert forall|i: int, j: int| 0 <= i < j < both.len() implies #[trigger] q[i]
        < #[trigger] q[j] by {
        if i >= k {
            assert(p[i - k] < p[j - k]);
        }
    }
    assert(placed(both, front + back, q));
}

/// Whether all flushes happen in one second.
pub open spec fn within_second(ops: Seq<LogOp>, sec: u64) -> bool {
    forall|i: int| 0 <= i < ops.len() ==> match #[trigger] ops[i] {
        LogOp::Flush(s) => s == sec,
        _ => true,
    }
}

/// However often the log is pushed to and flushed within one second, it prints
/// no more lines than its rate, reports of dropped lines included.
pub proof fn law_rate_limit(v: LogView, ops: Seq<LogOp>, sec: u64)
    requires
        v.wf(),
        within_second(ops, sec),
    ensures
        lines_printed(v, ops) <= quota_in(v, sec) <= v.rate,
    decreases ops.len(),
{
    if ops.len() > 0 {
        assert forall|i: int| 0 <= i < ops.skip(1).len() implies match #[trigger] ops.skip(1)[i] {
            LogOp::Flush(s) => s == sec,
            _ => true,
        } by {
            assert(ops.skip(1)[i] == ops[i + 1]);
        }
        law_rate_limit(after_op(v, ops[0]), ops.skip(1), sec);
    }
}

/// Over a whole run of an enabled log no line goes missing without a trace: the
/// lines that waited and were pushed, and those dropped and lost, are the lines
/// printed, the drops reported, the lines that still wait and the drops that are
/// not reported yet. The last flush leaves none of the latter two.
pub proof fn law_every_line_is_accounted(v: LogView, ops: Seq<LogOp>)
    requires
        v.enabled,
    ensures
        ({
            let end = after_ops(v, ops);
            &&& v.queue.len() + v.dropped + lines_pushed(ops).len() + lines_lost(ops) == messages(
                v,
                ops,
            ).len() + drops_reported(v, ops) + end.queue.len() + end.dropped
            &&& emptied(end).0.queue.len() == 0
            &&& emptied(end).0.dropped == 0
            &&& end.dropped > 0 ==> emptied(end).1 == seq![dropped_text(end.dropped)] + end.queue
            &&& end.dropped == 0 ==> emptied(end).1 == end.queue
            &&& end.enabled
        }),
    decreases ops.len(),
{
    let end = after_ops(v, ops);
    assert(Seq::<Seq<char>>::empty() + end.queue =~= end.queue);
    if ops.len() > 0 {
        law_every_line_is_accounted(after_op(v, ops[0]), ops.skip(1));
    }
}

/// Over a whole run lines come out in the order in which they were pushed: what
/// was printed, followed by what still waits, is what waited and was pushed, with
/// some lines taken out.
pub proof fn law_lines_come_out_in_order(v: LogView, ops: Seq<LogOp>)
    ensures
        in_order(messages(v, ops) + after_ops(v, ops).queue, v.queue + lines_pushed(ops)),
    decreases ops.len(),
{
    let all = v.queue + lines_pushed(ops);
    if ops.len() == 0 {
        assert(messages(v, ops) + v.queue =~= v.queue);
        assert(all =~= v.queue);
        lemma_in_order_same(v.queue);
    } else {
        let next = after_op(v, ops[0]);
        let rest = ops.skip(1);
        let later = messages(next, rest) + after_ops(next, rest).queue;
        law_lines_come_out_in_order(next, rest);
        match ops[0] {
            LogOp::Push(line) => {
                assert(messages(v, ops) + after_ops(v, ops).queue =~= later);
                if v.queue.len() < LOG_QUEUE_MAX {
                    assert(next.queue + lines_pushed(rest) =~= all);
                } else {
                    lemma_in_order_insert(later, v.queue, line, lines_pushed(rest));
                }
            },
            LogOp::Loss(_) => {
                assert(messages(v, ops) + after_ops(v, ops).queue =~= later);
                assert(all =~= next.queue + lines_pushed(rest));
            },
            LogOp::Flush(sec) => {
                let k: int = if v.enabled {
                    printed(v, sec) as int
                } else {
                    0
                };
                assert(next.queue + lines_pushed(rest) =~= lines_pushed(rest));
                lemma_in_order_prefix(v.queue, k, later, lines_pushed(rest));
                assert(messages(v, ops) + after_ops(v, ops).queue =~= v.queue.take(k) + later);
                assert(all =~= v.queue + lines_pushed(rest));
            },
        }
    }
}

/// No line goes missing without a trace: one that is pushed waits in the queue
/// or is counted as dropped.
pub proof fn law_push_is_accounted(v: LogView, line: Seq<char>)
    ensures
        pushed(v, line).queue.len() + pushed(v, line).dropped == v.queue.len() + v.dropped + 1,
{
}

/// A line that found the queue full is reported by the next flush that may print
/// anything, and by the last flush.
pub proof fn law_overflow_is_reported(v: LogView, line: Seq<char>, sec: u64)
    requires
        v.queue.len() >= LOG_QUEUE_MAX,
    ensures
        v.enabled && quota_in(v, sec) > 0 ==> flushed(pushed(v, line), sec).1.len() > 0
            && flushed(pushed(v, line), sec).1[0] == dropped_text(v.dropped + 1),
        emptied(pushed(v, line)).1[0] == dropped_text(v.dropped + 1),
{
}

/// A disabled log prints nothing as long as it runs.
pub proof fn law_disabled_log_is_silent(v: LogView, ops: Seq<LogOp>)
    requires
        !v.enabled,
    ensures
        lines_printed(v, ops) == 0,
        !after_ops(v, ops).enabled,
    decreases ops.len(),
{
    if ops.len() > 0 {
        law_disabled_log_is_silent(after_op(v, ops[0]), ops.skip(1));
    }
}

/// A flush of an enabled log prints the lines that waited, or counts them as
/// dropped, and reports the count of those dropped before it or keeps it.
pub proof fn law_flush_is_accounted(v: LogView, sec: u64)
    requires
        v.enabled,
    ensures
        ({
            let (after, out) = flushed(v, sec);
            let reported: nat = if reports(v, sec) {
                v.dropped
            } else {
                0
            };
            &&& after.queue.len() == 0
            &&& v.queue.len() + v.dropped == printed(v, sec) + reported + after.dropped
            &&& reports(v, sec) ==> out[0] == dropped_text(v.dropped)
        }),
{
}

/// Lines are printed in the order in which they were pushed.
pub proof fn law_flush_keeps_order(v: LogView, sec: u64, i: int)
    requires
        v.enabled,
        0 <= i < printed(v, sec),
    ensures
        ({
            let (after, out) = flushed(v, sec);
            let first: int = if reports(v, sec) {
                1
            } else {
                0
            };
            out[first + i] == v.queue[i]
        }),
{
}

/// A new log is empty and may print the rate of one second; a line that is pushed
/// waits behind the others while there are fewer than 4096, and else is counted; lines
/// that were lost are counted.
pub proof fn law_lines_wait_or_are_counted(
    v: LogView,
    line: Seq<char>,
    lines: Seq<Seq<char>>,
    n: nat,
    enabled: bool,
    rate: nat,
)
    ensures
        initial(enabled, rate) == (LogView {
            queue: Seq::empty(),
            last_sec: 0,
            quota: rate,
            dropped: 0,
            rate,
            enabled,
        }),
        pushed(v, line).queue == (if v.queue.len() < 4096 {
            v.queue.push(line)
        } else {
            v.queue
        }),
        pushed(v, line).dropped == (if v.queue.len() < 4096 {
            v.dropped
        } else {
            v.dropped + 1
        }),
        told_of_loss(v, n).queue == v.queue,
        told_of_loss(v, n).dropped == v.dropped + n,
        pushed_all(v, Seq::empty()) == v,
        pushed_all(v, lines.push(line)) == pushed(pushed_all(v, lines), line),
        ({
            let (a, b) = (pushed(v, line), told_of_loss(v, n));
            &&& a.last_sec == v.last_sec && b.last_sec == v.last_sec
            &&& a.quota == v.quota && b.quota == v.quota
            &&& a.rate == v.rate && b.rate == v.rate
            &&& a.enabled == v.enabled && b.enabled == v.enabled
        }),
{
    assert(lines.push(line).drop_last() =~= lines);
}

/// A flush of an enabled log prints as much as the rate allows, and no less: in a new
/// second the full rate is to be had, else what is left of it. One line of it goes to
/// the count of dropped lines, where there are any, and the others to the queue, from
/// its front. What does not fit is counted as dropped, and nothing waits any more.
pub proof fn law_flush_prints_what_the_rate_allows(v: LogView, sec: u64)
    requires
        v.enabled,
    ensures
        ({
            let quota = if sec == v.last_sec {
                v.quota
            } else {
                v.rate
            };
            let first: nat = if v.dropped > 0 && quota > 0 {
                1
            } else {
                0
            };
            let k: nat = if v.queue.len() <= quota - first {
                v.queue.len()
            } else {
                (quota - first) as nat
            };
            let (after, out) = flushed(v, sec);
            &&& out.len() == first + k
            &&& first == 1 ==> out[0] == "Log dropped: "@ + text::decimal(v.dropped)
            &&& forall|i: int| 0 <= i < k ==> out[first + i] == #[trigger] v.queue[i]
            &&& after.queue.len() == 0
            &&& after.last_sec == sec
            &&& after.quota == quota - first - k
            &&& first == 1 ==> after.dropped == v.queue.len() - k
            &&& first == 0 ==> after.dropped == v.dropped + v.queue.len() - k
            &&& after.rate == v.rate
            &&& after.enabled
        }),
{
}

/// A flush of a disabled log prints nothing and empties the queue. The last flush
/// prints all that is left, the count of dropped lines first, and keeps the rest of
/// the state.
pub proof fn law_last_flush_prints_all(v: LogView, sec: u64)
    ensures
        !v.enabled ==> flushed(v, sec).1.len() == 0 && flushed(v, sec).0 == (LogView {
            queue: Seq::empty(),
            last_sec: v.last_sec,
            quota: v.quota,
            dropped: v.dropped,
            rate: v.rate,
            enabled: false,
        }),
        emptied(v).0 == (LogView {
            queue: Seq::empty(),
            last_sec: v.last_sec,
            quota: v.quota,
            dropped: 0,
            rate: v.rate,
            enabled: v.enabled,
        }),
        v.dropped == 0 ==> emptied(v).1 == v.queue,
        v.dropped > 0 ==> emptied(v).1 == seq!["Log dropped: "@ + text::decimal(v.dropped)]
            + v.queue,
{
    assert(Seq::<Seq<char>>::empty() + v.queue =~= v.queue);
}

/// The view of a log hides nothing.
pub proof fn law_view_shows_the_log(st: FlushState, i: int)
    ensures
        st@.queue.len() == st.queue@.len(),
        0 <= i < st.queue@.len() ==> st@.queue[i] == st.queue@[i]@,
        st@.last_sec == st.last_sec,
        st@.quota == st.quota,
        st@.dropped == st.dropped,
        st@.rate == st.rate,
        st@.enabled == st.enabled,
{
}

/// A log is sound where no more than 4096 lines wait, and no more is left of the quota
/// than the rate.
pub proof fn law_sound_log(v: LogView)
    ensures
        v.wf() <==> v.queue.len() <= 4096 && v.quota <= v.rate,
{
}

} // verus!
