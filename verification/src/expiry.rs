//! Connections that have to go because of time, and connections that an event
//! still reaches.

use crate::accept;
use crate::config::Config;
use crate::config::ConfigView;
use crate::conn::ConnState;
use crate::slab;
use crate::slab::free_slot;
use crate::text;
use crate::text::append_u64;
use crate::time;
use crate::time::longer_than;
use crate::token;
use std::collections::VecDeque;
use vstd::prelude::*;

verus! {

/// A connection with its sockets and pipes.
pub struct Conn<F> {
    pub state: ConnState,
    pub io: F,
}

/// The timer of the clean-up, which ends connections and associations whose time
/// is over.
pub struct CleanUp {
    pub last: u64,
}

impl CleanUp {
    pub fn new(now: u64) -> (c: CleanUp)
        ensures
            c.last == now,
    {
        CleanUp { last: now }
    }

    /// Whether to clean up now: more than a second after the last time.
    pub fn due(&mut self, now: u64) -> (due: bool)
        ensures
            due == (time::elapsed(now, old(self).last) > time::SECOND),
            final(self).last == (if due {
                now
            } else {
                old(self).last
            }),
    {
        if longer_than(now, self.last, 1) {
            self.last = now;
            true
        } else {
            false
        }
    }
}

/// Why a connection has to go.
#[derive(Clone, Copy, Debug, PartialEq, Eq, Structural)]
pub enum Expiry {
    /// The remote end did not answer in time.
    Connect,
    /// No bytes were moved for too long.
    Idle,
    /// One direction has ended and the other went on for too long.
    HalfClosed,
}

/// When bytes were last moved in either direction.
pub open spec fn last_progress(c: ConnState) -> u64 {
    if c.l2r.last >= c.r2l.last {
        c.l2r.last
    } else {
        c.r2l.last
    }
}

/// Whether and why a connection has to go. One that is being set up only has to
/// answer in time; one that stands has to move bytes, and must not be half
/// closed for too long.
pub open spec fn expiry_of(c: ConnState, cfg: ConfigView, now: u64) -> Option<Expiry> {
    if c.connecting {
        if time::elapsed(now, c.connect_start) > cfg.connect_timeout * time::SECOND {
            Some(Expiry::Connect)
        } else {
            None
        }
    } else if time::elapsed(now, last_progress(c)) > cfg.idle_timeout * time::SECOND {
        Some(Expiry::Idle)
    } else {
        match c.half_close_since {
            Some(since) => if time::elapsed(now, since) > cfg.half_close_timeout * time::SECOND {
                Some(Expiry::HalfClosed)
            } else {
                None
            },
            None => None,
        }
    }
}

/// Finds out whether and why a connection has to go.
pub fn expiry(c: &ConnState, cfg: &Config, now: u64) -> (r: Option<Expiry>)
    ensures
        r == expiry_of(*c, cfg@, now),
{
    if c.connecting {
        if longer_than(now, c.connect_start, cfg.connect_timeout) {
            return Some(Expiry::Connect);
        }
        return None;
    }
    let last: u64 = if c.l2r.last >= c.r2l.last {
        c.l2r.last
    } else {
        c.r2l.last
    };
    if longer_than(now, last, cfg.idle_timeout) {
        return Some(Expiry::Idle);
    }
    match c.half_close_since {
        Some(since) => {
            if longer_than(now, since, cfg.half_close_timeout) {
                Some(Expiry::HalfClosed)
            } else {
                None
            }
        },
        None => None,
    }
}

/// The lines that report why a connection has to go.
pub open spec fn expiry_text(e: Expiry, cfg: ConfigView) -> Seq<Seq<char>> {
    match e {
        Expiry::Connect => seq!["Connect timeout"@],
        Expiry::Idle => {
            let secs = text::decimal(cfg.idle_timeout as nat);
            seq![
                "Timeout("@ + secs + "s): Local->Remote"@,
                "Timeout("@ + secs + "s): Remote->Local"@,
            ]
        },
        Expiry::HalfClosed => seq![
            "Half-close timeout("@ + text::decimal(cfg.half_close_timeout as nat) + "s)"@,
        ],
    }
}

fn seconds_line(before: &str, secs: u64, after: &str) -> (r: String)
    ensures
        r@ == before@ + text::decimal(secs as nat) + after@,
{
    let mut r: String = before.to_owned();
    append_u64(&mut r, secs);
    r.append(after);
    r
}

/// The lines to log for a connection that has to go.
pub fn expiry_lines(e: Expiry, cfg: &Config) -> (r: Vec<String>)
    ensures
        text::lines(r@) == expiry_text(e, cfg@),
{
    let mut r: Vec<String> = Vec::new();
    match e {
        Expiry::Connect => {
            r.push("Connect timeout".to_owned());
        },
        Expiry::Idle => {
            r.push(seconds_line("Timeout(", cfg.idle_timeout, "s): Local->Remote"));
            r.push(seconds_line("Timeout(", cfg.idle_timeout, "s): Remote->Local"));
        },
        Expiry::HalfClosed => {
            r.push(seconds_line("Half-close timeout(", cfg.half_close_timeout, "s)"));
        },
    }
    assert(text::lines(r@) =~= expiry_text(e, cfg@));
    r
}

/// Why the connection in a slot has to go; nothing does in an empty slot.
pub open spec fn slot_expiry<F>(slot: Option<Conn<F>>, cfg: ConfigView, now: u64) -> Option<Expiry> {
    match slot {
        Some(c) => expiry_of(c.state, cfg, now),
        None => None,
    }
}

/// The slots whose connections have to go, with the reasons, from the first slot
/// to the last.
pub open spec fn expired_slots<F>(slab: Seq<Option<Conn<F>>>, cfg: ConfigView, now: u64) -> Seq<
    (usize, Expiry),
>
    decreases slab.len(),
{
    if slab.len() == 0 {
        seq![]
    } else {
        let before = expired_slots(slab.drop_last(), cfg, now);
        match slot_expiry(slab.last(), cfg, now) {
            Some(e) => before.push(((slab.len() - 1) as usize, e)),
            None => before,
        }
    }
}

/// The slots of a list of slots and reasons.
pub open spec fn slots_of(expired: Seq<(usize, Expiry)>) -> Seq<usize> {
    expired.map_values(|p: (usize, Expiry)| p.0)
}

/// Frees the slots of all connections that have to go, and says which and why.
pub fn sweep_connections<F>(
    slab: &mut Vec<Option<Conn<F>>>,
    free: &mut VecDeque<usize>,
    cfg: &Config,
    now: u64,
) -> (r: Vec<(usize, Expiry)>)
    ensures
        r@ == expired_slots(old(slab)@, cfg@, now),
        final(free)@ == old(free)@ + slots_of(r@),
        final(slab)@.len() == old(slab)@.len(),
        forall|i: int|
            0 <= i < old(slab)@.len() ==> #[trigger] final(slab)@[i] == (if slot_expiry(
                old(slab)@[i],
                cfg@,
                now,
            ) is Some {
                None
            } else {
                old(slab)@[i]
            }),
        slab::slab_wf(old(slab)@, old(free)@) ==> slab::slab_wf(final(slab)@, final(free)@),
{
    let mut r: Vec<(usize, Expiry)> = Vec::new();
    let ghost slots = slab@;
    let ghost was_free = free@;
    assert(free@ =~= was_free + slots_of(r@));
    let mut i: usize = 0;
    while i < slab.len()
        invariant
            i <= slab@.len(),
            slab@.len() == slots.len(),
            r@ == expired_slots(slots.take(i as int), cfg@, now),
            free@ == was_free + slots_of(r@),
            forall|j: int|
                0 <= j < i ==> #[trigger] slab@[j] == (if slot_expiry(slots[j], cfg@, now) is Some {
                    None
                } else {
                    slots[j]
                }),
            forall|j: int| i <= j < slots.len() ==> #[trigger] slab@[j] == slots[j],
            slab::slab_wf(slots, was_free) ==> slab::slab_wf(slab@, free@),
        decreases slab@.len() - i,
    {
        assert(slots.take(i + 1).drop_last() =~= slots.take(i as int));
        assert(slots.take(i + 1).last() == slots[i as int]);
        let due: Option<Expiry> = match &slab[i] {
            Some(c) => expiry(&c.state, cfg, now),
            None => None,
        };
        if let Some(e) = due {
            let ghost before = r@;
            r.push((i, e));
            free_slot(slab, free, i);
            assert(slots_of(r@) =~= slots_of(before).push(i));
            assert(free@ =~= was_free + slots_of(r@));
        }
        i += 1;
    }
    assert(slots.take(i as int) =~= slots);
    r
}

/// Whether the slot holds a connection of that generation.
pub open spec fn reached<F>(slab: Seq<Option<Conn<F>>>, idx: usize, gen: u16) -> bool {
    &&& idx < slab.len()
    &&& slab[idx as int] matches Some(c) && c.state.gen == gen
}

/// Whether an event that names a slot and a generation reaches the connection
/// there; if not, it is stale.
pub fn reaches<F>(slab: &Vec<Option<Conn<F>>>, idx: usize, gen: u16) -> (r: bool)
    ensures
        r == reached(slab@, idx, gen),
{
    if idx >= slab.len() {
        return false;
    }
    match &slab[idx] {
        Some(c) => c.state.gen == gen,
        None => false,
    }
}

/// An event that outlived its connection does not reach the next one in the same
/// slot, unless that is 65536 connections younger or more.
pub proof fn law_stale_event_reaches_nothing<F>(
    slab: Seq<Option<Conn<F>>>,
    idx: usize,
    side: u8,
    gen: u16,
    later: nat,
)
    requires
        idx < 0x8000_0000_0000,
        side <= 1,
        0 < later < 0x1_0000,
        idx < slab.len(),
        slab[idx as int] matches Some(c) && c.state.gen == accept::gen_after_many(gen, later),
    ensures
        ({
            let (event_gen, event_idx, _) = token::token_parts(token::token_value(gen, idx, side));
            event_idx == idx && !reached(slab, event_idx, event_gen)
        }),
{
    token::law_token_round_trip(gen, idx, side);
    accept::law_generations_are_distinct(gen, later);
}

/// A connection that moved bytes within the idle time, and is neither being set
/// up nor half closed, never has to go.
pub proof fn law_active_connection_stays(c: ConnState, cfg: ConfigView, now: u64)
    requires
        !c.connecting,
        c.half_close_since is None,
        time::elapsed(now, c.l2r.last) <= cfg.idle_timeout * time::SECOND || time::elapsed(
            now,
            c.r2l.last,
        ) <= cfg.idle_timeout * time::SECOND,
    ensures
        expiry_of(c, cfg, now) is None,
{
}

/// No connection outlives its silence: once nothing was moved for longer than
/// both the idle time and the connect time, it has to go.
pub proof fn law_silent_connection_goes(c: ConnState, cfg: ConfigView, now: u64)
    requires
        time::elapsed(now, c.connect_start) > cfg.connect_timeout * time::SECOND,
        time::elapsed(now, c.l2r.last) > cfg.idle_timeout * time::SECOND,
        time::elapsed(now, c.r2l.last) > cfg.idle_timeout * time::SECOND,
    ensures
        expiry_of(c, cfg, now) is Some,
{
}

/// A half-closed connection goes once its time is over, however much the other
/// direction moves.
pub proof fn law_half_closed_connection_goes(c: ConnState, cfg: ConfigView, now: u64, since: u64)
    requires
        !c.connecting,
        c.half_close_since == Some(since),
        time::elapsed(now, since) > cfg.half_close_timeout * time::SECOND,
    ensures
        expiry_of(c, cfg, now) is Some,
{
}

/// A sweep misses no connection that has to go, and reports it with its reason.
pub proof fn law_sweep_misses_nothing<F>(
    slab: Seq<Option<Conn<F>>>,
    cfg: ConfigView,
    now: u64,
    i: int,
)
    requires
        0 <= i < slab.len() <= usize::MAX,
        slot_expiry(slab[i], cfg, now) is Some,
    ensures
        expired_slots(slab, cfg, now).contains((i as usize, slot_expiry(slab[i], cfg, now)->0)),
    decreases slab.len(),
{
    let e = slot_expiry(slab[i], cfg, now)->0;
    let all = expired_slots(slab, cfg, now);
    if i == slab.len() - 1 {
        assert(all[all.len() - 1] == (i as usize, e));
    } else {
        let front = slab.drop_last();
        law_sweep_misses_nothing(front, cfg, now, i);
        let before = expired_slots(front, cfg, now);
        let k = choose|k: int| 0 <= k < before.len() && before[k] == (i as usize, e);
        assert(all[k] == (i as usize, e));
    }
}

/// A connection that is being set up has to go exactly once it has taken longer than
/// the connect time. One that stands has to go exactly once it has moved nothing, in
/// either direction, for longer than the idle time, or has been half closed for
/// longer than the time for that; the first of the two is the reason.
pub proof fn law_expiry_is_exact(c: ConnState, cfg: ConfigView, now: u64)
    ensures
        ({
            let late = now > c.connect_start + cfg.connect_timeout * 1_000_000_000;
            let idle = now > c.l2r.last + cfg.idle_timeout * 1_000_000_000 && now > c.r2l.last
                + cfg.idle_timeout * 1_000_000_000;
            let half = c.half_close_since matches Some(since) && now > since
                + cfg.half_close_timeout * 1_000_000_000;
            let e = expiry_of(c, cfg, now);
            &&& c.connecting && late ==> e == Some(Expiry::Connect)
            &&& c.connecting && !late ==> e is None
            &&& !c.connecting && idle ==> e == Some(Expiry::Idle)
            &&& !c.connecting && !idle && half ==> e == Some(Expiry::HalfClosed)
            &&& !c.connecting && !idle && !half ==> e is None
        }),
{
}

/// A sweep lists exactly the slots whose connections have to go, each with the reason
/// of its connection, from the first to the last.
pub proof fn law_sweep_lists_exactly_the_expired<F>(
    slab: Seq<Option<Conn<F>>>,
    cfg: ConfigView,
    now: u64,
)
    requires
        slab.len() <= usize::MAX,
    ensures
        ({
            let all = expired_slots(slab, cfg, now);
            &&& forall|k: int|
                0 <= k < all.len() ==> (#[trigger] all[k]).0 < slab.len() && match slab[all[k].0 as int] {
                    Some(c) => expiry_of(c.state, cfg, now) == Some(all[k].1),
                    None => false,
                }
            &&& forall|j: int, k: int|
                0 <= j < k < all.len() ==> (#[trigger] all[j]).0 < (#[trigger] all[k]).0
            &&& forall|i: int|
                0 <= i < slab.len() && (match #[trigger] slab[i] {
                    Some(c) => expiry_of(c.state, cfg, now) is Some,
                    None => false,
                }) ==> exists|k: int| 0 <= k < all.len() && (#[trigger] all[k]).0 == i
            &&& slots_of(all).len() == all.len()
            &&& forall|k: int| 0 <= k < all.len() ==> #[trigger] slots_of(all)[k] == all[k].0
        }),
    decreases slab.len(),
{
    if slab.len() > 0 {
        let front = slab.drop_last();
        let before = expired_slots(front, cfg, now);
        let all = expired_slots(slab, cfg, now);
        law_sweep_lists_exactly_the_expired(front, cfg, now);
        assert forall|k: int| 0 <= k < all.len() implies (#[trigger] all[k]).0 < slab.len()
            && match slab[all[k].0 as int] {
            Some(c) => expiry_of(c.state, cfg, now) == Some(all[k].1),
            None => false,
        } by {
            if k < before.len() {
                assert(all[k] == before[k]);
            }
        }
        assert forall|j: int, k: int| 0 <= j < k < all.len() implies (#[trigger] all[j]).0 < (
        #[trigger] all[k]).0 by {
            assert(all[j] == before[j]);
            if k < before.len() {
                assert(all[k] == before[k]);
            }
        }
        assert forall|i: int|
            0 <= i < slab.len() && (match #[trigger] slab[i] {
                Some(c) => expiry_of(c.state, cfg, now) is Some,
                None => false,
            }) implies exists|k: int| 0 <= k < all.len() && (#[trigger] all[k]).0 == i by {
            if i < front.len() {
                assert(front[i] == slab[i]);
                let k = choose|k: int| 0 <= k < before.len() && (#[trigger] before[k]).0 == i;
                assert(all[k].0 == i);
            } else {
                assert(all[all.len() - 1].0 == i);
            }
        }
    }
}

/// What is logged about a connection that has to go: that it did not connect in time,
/// that either direction was idle for its time, or that it was half closed for its
/// time.
pub proof fn law_expiry_is_logged(cfg: ConfigView)
    ensures
        expiry_text(Expiry::Connect, cfg) == seq!["Connect timeout"@],
        expiry_text(Expiry::Idle, cfg) == seq![
            "Timeout("@ + text::decimal(cfg.idle_timeout as nat) + "s): Local->Remote"@,
            "Timeout("@ + text::decimal(cfg.idle_timeout as nat) + "s): Remote->Local"@,
        ],
        expiry_text(Expiry::HalfClosed, cfg) == seq![
            "Half-close timeout("@ + text::decimal(cfg.half_close_timeout as nat) + "s)"@,
        ],
{
}

/// An event reaches a connection exactly where its slot holds one of its generation.
pub proof fn law_event_reaches_its_generation<F>(
    slab: Seq<Option<Conn<F>>>,
    idx: usize,
    gen: u16,
)
    ensures
        idx >= slab.len() ==> !reached(slab, idx, gen),
        idx < slab.len() && slab[idx as int] is None ==> !reached(slab, idx, gen),
        idx < slab.len() && slab[idx as int] is Some ==> (reached(slab, idx, gen)
            <==> slab[idx as int]->0.state.gen == gen),
{
}

/// A slot has to be freed exactly where it holds a connection that has to go.
pub proof fn law_slot_goes_with_its_connection<F>(c: Conn<F>, cfg: ConfigView, now: u64)
    ensures
        slot_expiry(Some(c), cfg, now) == expiry_of(c.state, cfg, now),
        slot_expiry(None::<Conn<F>>, cfg, now) is None,
{
}

} // verus!
