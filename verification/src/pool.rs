//! The pool of connections that are opened in advance: how long they live, how
//! one is taken, and when new ones are ordered.

use crate::accept::ConnectResult;
use crate::config;
use crate::config::ConfigView;
use crate::text;
use crate::text::append_u64;
use crate::time;
use crate::time::nanos_since;
use vstd::prelude::*;

verus! {

/// How many connections are taken out at once to look for a live one.
pub const TAKE_BATCH: usize = 4;

/// The first state of the jitter's generator.
pub const RNG_SEED: u64 = 0x517c_c1b7_2722_0a95;

/// A connection in the pool.
#[derive(Clone, Copy, Debug, PartialEq, Eq, Structural)]
pub struct PoolEntry {
    pub fd: i32,
    /// When it was put into the pool.
    pub birth: u64,
    /// How many milliseconds it may stay.
    pub ttl_ms: u64,
}

/// Connections to the remote end that wait for clients.
pub struct Pool {
    pub entries: Vec<PoolEntry>,
    pub max_size: usize,
    /// Connections that are ordered and have not come yet.
    pub pending: usize,
    /// Failed connections in a row.
    pub fail_streak: usize,
    /// No connection is ordered before that time.
    pub pause_until: Option<u64>,
    /// State of the generator for the jitter of lifetimes.
    pub rng: u64,
}

/// The generator's next state.
pub open spec fn rng_next(x: u64) -> u64 {
    let a = x ^ (x << 13);
    let b = a ^ (a >> 7);
    b ^ (b << 17)
}

/// The lifetime that a random number gives: from three quarters to five quarters
/// of the base.
pub open spec fn ttl_of(base_ms: u64, random: u64) -> int {
    base_ms - base_ms / 4 + random as int % (base_ms as int / 4 * 2 + 1)
}

/// The descriptors of a list of entries.
pub open spec fn fds(s: Seq<PoolEntry>) -> Seq<i32> {
    s.map_values(|e: PoolEntry| e.fd)
}

/// Whether an entry has outlived its time, in whole milliseconds.
pub open spec fn outlived(e: PoolEntry, now: u64) -> bool {
    time::elapsed(now, e.birth) / 1_000_000 > e.ttl_ms
}

/// How many connections are missing.
pub open spec fn deficit(size: usize, waiting: nat) -> nat {
    if waiting < size {
        (size - waiting) as nat
    } else {
        0
    }
}

/// Whether ordering is paused.
pub open spec fn paused(pause_until: Option<u64>, now: u64) -> bool {
    pause_until matches Some(t) && now < t
}

/// How many connections to order when `missing` are missing: the full batch
/// while more than half of the pool is missing, else two, and never more than
/// are missing or than the batch.
pub open spec fn order_size(missing: nat, size: usize, batch: usize) -> nat {
    let cap = if missing > size / 2 {
        batch as nat
    } else {
        2
    };
    let bound = if missing <= batch {
        missing
    } else {
        batch as nat
    };
    if bound <= cap {
        bound
    } else {
        cap
    }
}

/// The pause after that many failures in a row, in milliseconds.
pub open spec fn backoff_ms(streak: nat) -> nat {
    if 200 * streak <= 5000 {
        200 * streak
    } else {
        5000
    }
}

/// Where the last `n` of `len` entries begin, or all of them where there are
/// fewer.
pub open spec fn batch_start(len: nat, n: usize) -> int {
    if len <= n {
        0
    } else {
        len - n
    }
}

impl Pool {
    /// The generator has not run dry.
    pub open spec fn wf(self) -> bool {
        self.rng != 0
    }

    pub fn new(max_size: usize) -> (p: Pool)
        ensures
            p.entries@ == Seq::<PoolEntry>::empty(),
            p.max_size == max_size,
            p.pending == 0,
            p.fail_streak == 0,
            p.pause_until is None,
            p.rng == RNG_SEED,
            p.wf(),
    {
        Pool {
            entries: Vec::with_capacity(max_size),
            max_size,
            pending: 0,
            fail_streak: 0,
            pause_until: None,
            rng: RNG_SEED,
        }
    }

    /// How many connections are in the pool.
    pub fn len(&self) -> (n: usize)
        ensures
            n == self.entries@.len(),
    {
        self.entries.len()
    }

    fn next_rng(&mut self) -> (r: u64)
        ensures
            r == rng_next(old(self).rng),
            final(self).rng == r,
            final(self).entries == old(self).entries,
            final(self).max_size == old(self).max_size,
            final(self).pending == old(self).pending,
            final(self).fail_streak == old(self).fail_streak,
            final(self).pause_until == old(self).pause_until,
            old(self).wf() ==> final(self).wf(),
    {
        proof {
            law_rng_never_runs_dry(self.rng);
        }
        self.rng = self.rng ^ (self.rng << 13);
        self.rng = self.rng ^ (self.rng >> 7);
        self.rng = self.rng ^ (self.rng << 17);
        self.rng
    }

    fn jittered_ttl(&mut self, base_ms: u64) -> (ttl: u64)
        requires
            ttl_of(base_ms, rng_next(old(self).rng)) <= u64::MAX,
        ensures
            ttl == ttl_of(base_ms, rng_next(old(self).rng)),
            final(self).rng == rng_next(old(self).rng),
            final(self).entries == old(self).entries,
            final(self).max_size == old(self).max_size,
            final(self).pending == old(self).pending,
            final(self).fail_streak == old(self).fail_streak,
            final(self).pause_until == old(self).pause_until,
            old(self).wf() ==> final(self).wf(),
    {
        let quarter: u64 = base_ms / 4;
        let span: u64 = quarter * 2 + 1;
        let random: u64 = self.next_rng();
        base_ms - quarter + (random % span)
    }

    /// Puts a connection into the pool, with a jittered lifetime. Where the pool
    /// is full the result is `false`, and the connection is to be closed.
    pub fn put(&mut self, fd: i32, now: u64, base_ttl_ms: u64) -> (taken: bool)
        requires
            old(self).entries@.len() < old(self).max_size ==> ttl_of(
                base_ttl_ms,
                rng_next(old(self).rng),
            ) <= u64::MAX,
        ensures
            taken == (old(self).entries@.len() < old(self).max_size),
            taken ==> {
                &&& final(self).entries@ == old(self).entries@.push(
                    PoolEntry {
                        fd,
                        birth: now,
                        ttl_ms: ttl_of(base_ttl_ms, rng_next(old(self).rng)) as u64,
                    },
                )
                &&& final(self).rng == rng_next(old(self).rng)
            },
            !taken ==> {
                &&& final(self).entries == old(self).entries
                &&& final(self).rng == old(self).rng
            },
            final(self).max_size == old(self).max_size,
            final(self).pending == old(self).pending,
            final(self).fail_streak == old(self).fail_streak,
            final(self).pause_until == old(self).pause_until,
            old(self).wf() ==> final(self).wf(),
    {
        if self.entries.len() < self.max_size {
            let ttl_ms: u64 = self.jittered_ttl(base_ttl_ms);
            self.entries.push(PoolEntry { fd, birth: now, ttl_ms });
            true
        } else {
            false
        }
    }

    /// Takes out up to `n` of the connections that came last.
    pub fn pop_batch(&mut self, n: usize) -> (r: Vec<PoolEntry>)
        ensures
            final(self).entries@ == old(self).entries@.take(
                batch_start(old(self).entries@.len(), n),
            ),
            r@ == old(self).entries@.skip(batch_start(old(self).entries@.len(), n)),
            final(self).max_size == old(self).max_size,
            final(self).pending == old(self).pending,
            final(self).fail_streak == old(self).fail_streak,
            final(self).pause_until == old(self).pause_until,
            final(self).rng == old(self).rng,
    {
        let len: usize = self.entries.len();
        let take: usize = if len <= n {
            len
        } else {
            n
        };
        self.entries.split_off(len - take)
    }

    /// Puts connections back that were taken out.
    pub fn give_back(&mut self, entries: Vec<PoolEntry>)
        ensures
            final(self).entries@ == old(self).entries@ + entries@,
            final(self).max_size == old(self).max_size,
            final(self).pending == old(self).pending,
            final(self).fail_streak == old(self).fail_streak,
            final(self).pause_until == old(self).pause_until,
            final(self).rng == old(self).rng,
    {
        let mut more: Vec<PoolEntry> = entries;
        self.entries.append(&mut more);
    }
}

/// The generator never reaches zero, from which it could not get away.
pub proof fn law_rng_never_runs_dry(x: u64)
    ensures
        x != 0 ==> rng_next(x) != 0,
{
    assert(x != 0 ==> (x ^ (x << 13)) != 0) by (bit_vector);
    let a = x ^ (x << 13);
    assert(a != 0 ==> (a ^ (a >> 7)) != 0) by (bit_vector);
    let b = a ^ (a >> 7);
    assert(b != 0 ==> (b ^ (b << 17)) != 0) by (bit_vector);
}

/// A jittered lifetime differs from its base by at most a quarter.
pub proof fn law_jitter_is_within_a_quarter(base_ms: u64, random: u64)
    ensures
        base_ms - base_ms / 4 <= ttl_of(base_ms, random) <= base_ms + base_ms / 4,
{
}

/// What becomes of a connection that was looked at.
#[derive(Clone, Copy, Debug, PartialEq, Eq, Structural)]
pub enum Verdict {
    /// It is dead and to be closed.
    Close(i32),
    /// It is alive and serves the client.
    Take(i32),
}

/// A batch of connections that was taken out of the pool to find a live one.
pub struct Selection {
    pub candidates: Vec<PoolEntry>,
    /// How many of them were looked at.
    pub seen: usize,
    /// The live connection, once there is one.
    pub taken: Option<PoolEntry>,
}

/// What a selection holds.
#[verifier::ext_equal]
pub struct SelectionView {
    pub candidates: Seq<PoolEntry>,
    pub seen: nat,
    pub taken: Option<PoolEntry>,
}

impl View for Selection {
    type V = SelectionView;

    open spec fn view(&self) -> SelectionView {
        SelectionView {
            candidates: self.candidates@,
            seen: self.seen as nat,
            taken: self.taken,
        }
    }
}

/// A selection in which nothing was looked at.
pub open spec fn untouched(candidates: Seq<PoolEntry>) -> SelectionView {
    SelectionView { candidates, seen: 0, taken: None }
}

impl SelectionView {
    /// No more of the candidates are looked at than there are, and the one that
    /// is taken was looked at last.
    pub open spec fn wf(self) -> bool {
        &&& self.seen <= self.candidates.len()
        &&& self.taken matches Some(e) ==> self.seen > 0 && self.candidates[self.seen - 1] == e
    }

    /// The connection to look at next: none once a live one was found, or where
    /// all were looked at.
    pub open spec fn wanted(self) -> Option<i32> {
        if self.taken is None && self.seen < self.candidates.len() {
            Some(self.candidates[self.seen as int].fd)
        } else {
            None
        }
    }

    /// The selection once the wanted connection was looked at.
    pub open spec fn probed(self, dead: bool) -> SelectionView {
        SelectionView {
            seen: self.seen + 1,
            taken: if dead {
                None
            } else {
                Some(self.candidates[self.seen as int])
            },
            ..self
        }
    }

    /// The candidates that nobody looked at.
    pub open spec fn surplus(self) -> Seq<PoolEntry> {
        self.candidates.skip(self.seen as int)
    }

    /// The candidates that turned out to be dead.
    pub open spec fn rejected(self) -> Seq<PoolEntry> {
        if self.taken is Some {
            self.candidates.take(self.seen - 1)
        } else {
            self.candidates.take(self.seen as int)
        }
    }

    /// The selection once it wants nothing more, where `dead` tells what each
    /// look at a connection shows.
    pub open spec fn run(self, dead: spec_fn(i32) -> bool) -> SelectionView
        decreases self.candidates.len() - self.seen,
    {
        match self.wanted() {
            Some(fd) => self.probed(dead(fd)).run(dead),
            None => self,
        }
    }
}

impl Selection {
    pub fn new(candidates: Vec<PoolEntry>) -> (s: Selection)
        ensures
            s@ == untouched(candidates@),
            s@.wf(),
    {
        Selection { candidates, seen: 0, taken: None }
    }

    /// The connection to look at next.
    pub fn next(&self) -> (fd: Option<i32>)
        ensures
            fd == self@.wanted(),
    {
        if self.taken.is_none() && self.seen < self.candidates.len() {
            Some(self.candidates[self.seen].fd)
        } else {
            None
        }
    }

    /// Says what becomes of the connection that was looked at.
    pub fn on_probe(&mut self, dead: bool) -> (v: Verdict)
        requires
            old(self)@.wanted() is Some,
        ensures
            v == (if dead {
                Verdict::Close(old(self)@.wanted()->0)
            } else {
                Verdict::Take(old(self)@.wanted()->0)
            }),
            final(self)@ == old(self)@.probed(dead),
            final(self)@.wf(),
    {
        assert(self.seen < self.candidates.len());
        let entry: PoolEntry = self.candidates[self.seen];
        self.seen = self.seen + 1;
        if dead {
            Verdict::Close(entry.fd)
        } else {
            self.taken = Some(entry);
            Verdict::Take(entry.fd)
        }
    }
}

/// What a search for a live connection does to the pool.
pub struct Search {
    pub taken: Option<PoolEntry>,
    pub left: Seq<PoolEntry>,
    pub closed: Seq<PoolEntry>,
}

/// The search: batch after batch from the end of the pool, until a live
/// connection is found or the pool is empty. What nobody looked at in a batch
/// goes back into the pool.
pub open spec fn search(entries: Seq<PoolEntry>, dead: spec_fn(i32) -> bool) -> Search
    decreases entries.len(),
{
    if entries.len() == 0 {
        Search { taken: None, left: entries, closed: entries }
    } else {
        let start = batch_start(entries.len(), TAKE_BATCH);
        let front = entries.take(start);
        let end = untouched(entries.skip(start)).run(dead);
        if end.taken is Some {
            Search { taken: end.taken, left: front + end.surplus(), closed: end.rejected() }
        } else {
            let more = search(front, dead);
            Search { taken: more.taken, left: more.left, closed: end.rejected() + more.closed }
        }
    }
}

/// What the search for a live connection asks for next.
pub enum SearchWork {
    /// Take a batch of `TAKE_BATCH` out of the pool.
    Pop,
    /// Look whether that connection is dead.
    Look(i32),
    /// Close that connection, which is dead.
    Close(i32),
    /// Give these back to the pool.
    GiveBack(Vec<PoolEntry>),
    /// Nothing: the search is over, with that connection if there is one.
    End(Option<i32>),
}

/// What the search asks for, with its entries as a sequence.
pub enum SearchAsk {
    Pop,
    Look(i32),
    Close(i32),
    GiveBack(Seq<PoolEntry>),
    End(Option<i32>),
}

impl View for SearchWork {
    type V = SearchAsk;

    open spec fn view(&self) -> SearchAsk {
        match self {
            SearchWork::Pop => SearchAsk::Pop,
            SearchWork::Look(fd) => SearchAsk::Look(*fd),
            SearchWork::Close(fd) => SearchAsk::Close(*fd),
            SearchWork::GiveBack(rest) => SearchAsk::GiveBack(rest@),
            SearchWork::End(fd) => SearchAsk::End(*fd),
        }
    }
}

/// The search for a live connection, one piece of work at a time.
pub struct LiveSearch {
    pub selection: Selection,
}

impl View for LiveSearch {
    type V = SelectionView;

    open spec fn view(&self) -> SelectionView {
        self.selection@
    }
}

/// The descriptor of a connection, where there is one.
pub open spec fn fd_of(taken: Option<PoolEntry>) -> Option<i32> {
    match taken {
        Some(e) => Some(e.fd),
        None => None,
    }
}

/// What a batch leads to: the end where the pool is empty, else a look at the
/// first candidate.
pub open spec fn after_batch(batch: Seq<PoolEntry>) -> (SelectionView, SearchAsk) {
    let v = untouched(batch);
    match v.wanted() {
        Some(fd) => (v, SearchAsk::Look(fd)),
        None => (v, SearchAsk::End(None)),
    }
}

/// What a look leads to: a dead connection is closed; with a live one the search
/// ends, once the candidates that nobody looked at are back in the pool.
pub open spec fn after_look(v: SelectionView, dead: bool) -> (SelectionView, SearchAsk) {
    let p = v.probed(dead);
    if dead {
        (p, SearchAsk::Close(v.candidates[v.seen as int].fd))
    } else {
        let cut = SelectionView { candidates: p.candidates.take(p.seen as int), ..p };
        if p.surplus().len() > 0 {
            (cut, SearchAsk::GiveBack(p.surplus()))
        } else {
            (cut, SearchAsk::End(fd_of(p.taken)))
        }
    }
}

/// What follows a close: a look at the next candidate, or the next batch.
pub open spec fn after_close(v: SelectionView) -> SearchAsk {
    match v.wanted() {
        Some(fd) => SearchAsk::Look(fd),
        None => SearchAsk::Pop,
    }
}

/// What follows once the rest is back in the pool.
pub open spec fn after_give_back(v: SelectionView) -> SearchAsk {
    SearchAsk::End(fd_of(v.taken))
}

/// The outcome of a search: the connection found, the pool, and the descriptors
/// that were closed.
#[verifier::ext_equal]
pub struct Found {
    pub fd: Option<i32>,
    pub left: Seq<PoolEntry>,
    pub closed: Seq<i32>,
}

/// The outcome once everything that a search asks for was done to the pool,
/// where `dead` tells what each look at a connection shows.
pub open spec fn search_run(
    v: SelectionView,
    ask: SearchAsk,
    entries: Seq<PoolEntry>,
    closed: Seq<i32>,
    dead: spec_fn(i32) -> bool,
) -> Found
    decreases
            entries.len(),
            v.candidates.len() - v.seen,
            (if ask is Close {
                2int
            } else if ask is End {
                0
            } else {
                1
            }),
{
    match ask {
        SearchAsk::Pop => {
            let start = batch_start(entries.len(), TAKE_BATCH);
            let (w, next) = after_batch(entries.skip(start));
            if entries.len() == 0 {
                Found { fd: None, left: entries, closed }
            } else {
                search_run(w, next, entries.take(start), closed, dead)
            }
        },
        SearchAsk::Look(fd) => if v.wanted() is Some {
            let (w, next) = after_look(v, dead(fd));
            search_run(w, next, entries, closed, dead)
        } else {
            Found { fd: None, left: entries, closed }
        },
        SearchAsk::Close(fd) => search_run(v, after_close(v), entries, closed.push(fd), dead),
        SearchAsk::GiveBack(rest) => match after_give_back(v) {
            SearchAsk::End(fd) => Found { fd, left: entries + rest, closed },
            _ => Found { fd: None, left: entries + rest, closed },
        },
        SearchAsk::End(fd) => Found { fd, left: entries, closed },
    }
}

/// The outcome of a search as the search describes it.
pub open spec fn found(entries: Seq<PoolEntry>, dead: spec_fn(i32) -> bool) -> Found {
    let s = search(entries, dead);
    Found { fd: fd_of(s.taken), left: s.left, closed: fds(s.closed) }
}

impl LiveSearch {
    /// Begins a search. Doing what it asks for, on a pool that nobody else
    /// touches meanwhile, is the search of that pool.
    pub fn start() -> (r: (LiveSearch, SearchWork))
        ensures
            r.0@ == untouched(Seq::empty()),
            r.1@ == SearchAsk::Pop,
            forall|entries: Seq<PoolEntry>, dead: spec_fn(i32) -> bool|
                #[trigger] search_run(r.0@, r.1@, entries, Seq::empty(), dead) == found(
                    entries,
                    dead,
                ),
    {
        proof {
            assert forall|entries: Seq<PoolEntry>, dead: spec_fn(i32) -> bool|
                #[trigger] search_run(
                    untouched(Seq::empty()),
                    SearchAsk::Pop,
                    entries,
                    Seq::empty(),
                    dead,
                ) == found(entries, dead) by {
                law_search_steps_carry_out_the_search(
                    untouched(Seq::empty()),
                    entries,
                    Seq::empty(),
                    dead,
                );
                assert(Seq::<i32>::empty() + found(entries, dead).closed =~= found(
                    entries,
                    dead,
                ).closed);
            }
        }
        let search: LiveSearch = LiveSearch { selection: Selection::new(Vec::new()) };
        assert(search@ =~= untouched(Seq::empty()));
        (search, SearchWork::Pop)
    }

    /// Goes on with the batch that was taken out of the pool.
    pub fn on_batch(&mut self, batch: Vec<PoolEntry>) -> (w: SearchWork)
        ensures
            (final(self)@, w@) == after_batch(batch@),
    {
        self.selection = Selection::new(batch);
        match self.selection.next() {
            Some(fd) => SearchWork::Look(fd),
            None => SearchWork::End(None),
        }
    }

    /// Goes on once the wanted connection was looked at.
    pub fn on_look(&mut self, dead: bool) -> (w: SearchWork)
        requires
            old(self)@.wanted() is Some,
        ensures
            (final(self)@, w@) == after_look(old(self)@, dead),
    {
        match self.selection.on_probe(dead) {
            Verdict::Close(fd) => SearchWork::Close(fd),
            Verdict::Take(fd) => {
                let seen: usize = self.selection.seen;
                let rest: Vec<PoolEntry> = self.selection.candidates.split_off(seen);
                if rest.len() > 0 {
                    SearchWork::GiveBack(rest)
                } else {
                    SearchWork::End(Some(fd))
                }
            },
        }
    }

    /// Goes on once a dead connection was closed.
    pub fn on_closed(&self) -> (w: SearchWork)
        ensures
            w@ == after_close(self@),
    {
        match self.selection.next() {
            Some(fd) => SearchWork::Look(fd),
            None => SearchWork::Pop,
        }
    }

    /// Goes on once the rest is back in the pool.
    pub fn on_given_back(&self) -> (w: SearchWork)
        ensures
            w@ == after_give_back(self@),
    {
        match self.selection.taken {
            Some(e) => SearchWork::End(Some(e.fd)),
            None => SearchWork::End(None),
        }
    }
}

proof fn lemma_search_looks(
    v: SelectionView,
    entries: Seq<PoolEntry>,
    closed: Seq<i32>,
    dead: spec_fn(i32) -> bool,
)
    requires
        v.wf(),
        v.wanted() is Some,
    ensures
        ({
            let end = v.run(dead);
            let run = search_run(v, SearchAsk::Look(v.wanted()->0), entries, closed, dead);
            match end.taken {
                Some(e) => run == (Found {
                    fd: Some(e.fd),
                    left: entries + end.surplus(),
                    closed: closed + fds(v.candidates.subrange(v.seen as int, end.seen - 1)),
                }),
                None => run == search_run(
                    end,
                    SearchAsk::Pop,
                    entries,
                    closed + fds(v.candidates.skip(v.seen as int)),
                    dead,
                ),
            }
        }),
    decreases v.candidates.len() - v.seen,
{
    let fd = v.wanted()->0;
    let end = v.run(dead);
    lemma_selection_run(v, dead);
    if dead(fd) {
        let p = v.probed(true);
        let one = closed.push(fd);
        let (w, next) = after_look(v, true);
        assert(w == p && next == SearchAsk::Close(fd));
        assert(search_run(v, SearchAsk::Look(fd), entries, closed, dead) == search_run(
            p,
            next,
            entries,
            closed,
            dead,
        ));
        assert(search_run(p, next, entries, closed, dead) == search_run(
            p,
            after_close(p),
            entries,
            one,
            dead,
        ));
        if p.wanted() is Some {
            lemma_search_looks(p, entries, one, dead);
            match end.taken {
                Some(e) => {
                    lemma_selection_run(p, dead);
                    assert(closed + fds(v.candidates.subrange(v.seen as int, end.seen - 1)) =~= one
                        + fds(v.candidates.subrange(p.seen as int, end.seen - 1)));
                },
                None => {
                    assert(closed + fds(v.candidates.skip(v.seen as int)) =~= one + fds(
                        v.candidates.skip(p.seen as int),
                    ));
                },
            }
        } else {
            assert(p.run(dead) == p);
            assert(closed + fds(v.candidates.skip(v.seen as int)) =~= one);
        }
    } else {
        let p = v.probed(false);
        let (w, next) = after_look(v, false);
        assert(p.run(dead) == p);
        assert(closed + fds(v.candidates.subrange(v.seen as int, end.seen - 1)) =~= closed);
        assert(entries + Seq::<PoolEntry>::empty() =~= entries);
        if p.surplus().len() == 0 {
            assert(p.surplus() =~= Seq::<PoolEntry>::empty());
            assert(search_run(w, next, entries, closed, dead) == (Found {
                fd: Some(fd),
                left: entries,
                closed,
            }));
        }
    }
}

/// Doing what the search asks for, piece by piece, is the search of the pool.
pub proof fn law_search_steps_carry_out_the_search(
    v: SelectionView,
    entries: Seq<PoolEntry>,
    closed: Seq<i32>,
    dead: spec_fn(i32) -> bool,
)
    ensures
        search_run(v, SearchAsk::Pop, entries, closed, dead) == (Found {
            closed: closed + found(entries, dead).closed,
            ..found(entries, dead)
        }),
    decreases entries.len(),
{
    if entries.len() == 0 {
        assert(closed + fds(entries) =~= closed);
    } else {
        let start = batch_start(entries.len(), TAKE_BATCH);
        let front = entries.take(start);
        let batch = entries.skip(start);
        let u = untouched(batch);
        let end = u.run(dead);
        lemma_selection_run(u, dead);
        lemma_search_looks(u, front, closed, dead);
        match end.taken {
            Some(e) => {
                assert(batch.subrange(0, end.seen - 1) =~= end.rejected());
            },
            None => {
                assert(batch.skip(0) =~= batch);
                assert(end.rejected() =~= batch);
                law_search_steps_carry_out_the_search(end, front, closed + fds(batch), dead);
                let more = search(front, dead);
                assert(closed + fds(batch) + fds(more.closed) =~= closed + fds(
                    batch + more.closed,
                ));
            },
        }
    }
}

/// The connections that `taken` stands for.
pub open spec fn taken_seq(taken: Option<PoolEntry>) -> Seq<PoolEntry> {
    match taken {
        Some(e) => seq![e],
        None => Seq::empty(),
    }
}

proof fn lemma_selection_run(v: SelectionView, dead: spec_fn(i32) -> bool)
    requires
        v.wf(),
        v.taken is None,
    ensures
        ({
            let end = v.run(dead);
            &&& end.candidates == v.candidates
            &&& end.wf()
            &&& end.seen >= v.seen
            &&& match end.taken {
                Some(e) => {
                    &&& !dead(e.fd)
                    &&& forall|i: int|
                        v.seen <= i < end.seen - 1 ==> dead(#[trigger] v.candidates[i].fd)
                },
                None => {
                    &&& end.seen == v.candidates.len()
                    &&& forall|i: int|
                        v.seen <= i < v.candidates.len() ==> dead(#[trigger] v.candidates[i].fd)
                },
            }
        }),
    decreases v.candidates.len() - v.seen,
{
    if v.seen < v.candidates.len() {
        if dead(v.candidates[v.seen as int].fd) {
            lemma_selection_run(v.probed(true), dead);
        } else {
            assert(v.probed(false).run(dead) == v.probed(false));
        }
    }
}

/// A search finds a live connection exactly where the pool holds one. It closes
/// dead connections only, and every connection of the pool is either the one
/// found, or closed, or still in the pool.
pub proof fn law_search_finds_a_live_connection(
    entries: Seq<PoolEntry>,
    dead: spec_fn(i32) -> bool,
)
    ensures
        search(entries, dead).taken is Some <==> exists|i: int|
            0 <= i < entries.len() && !dead(#[trigger] entries[i].fd),
        search(entries, dead).taken matches Some(e) ==> !dead(e.fd),
        forall|i: int|
            0 <= i < search(entries, dead).closed.len() ==> dead(
                #[trigger] search(entries, dead).closed[i].fd,
            ),
        entries.to_multiset() == search(entries, dead).left.to_multiset().add(
            search(entries, dead).closed.to_multiset(),
        ).add(taken_seq(search(entries, dead).taken).to_multiset()),
    decreases entries.len(),
{
    broadcast use vstd::seq_lib::group_to_multiset_ensures;

    let r = search(entries, dead);
    if entries.len() > 0 {
        let keep = batch_start(entries.len(), TAKE_BATCH);
        let front = entries.take(keep);
        let batch = entries.skip(keep);
        assert(entries =~= front + batch);
        let end = untouched(batch).run(dead);
        lemma_selection_run(untouched(batch), dead);
        vstd::seq_lib::lemma_multiset_commutative(front, batch);
        if end.taken is Some {
            let e = end.taken->0;
            let seen = end.seen as int;
            assert(batch[seen - 1] == entries[keep + seen - 1]);
            assert(batch =~= end.rejected() + (seq![e] + end.surplus()));
            vstd::seq_lib::lemma_multiset_commutative(
                end.rejected(),
                seq![e] + end.surplus(),
            );
            vstd::seq_lib::lemma_multiset_commutative(seq![e], end.surplus());
            vstd::seq_lib::lemma_multiset_commutative(front, end.surplus());
            assert(entries.to_multiset() =~= r.left.to_multiset().add(r.closed.to_multiset()).add(
                taken_seq(r.taken).to_multiset(),
            ));
        } else {
            law_search_finds_a_live_connection(front, dead);
            let more = search(front, dead);
            assert(end.rejected() =~= batch);
            vstd::seq_lib::lemma_multiset_commutative(batch, more.closed);
            assert(entries.to_multiset() =~= r.left.to_multiset().add(r.closed.to_multiset()).add(
                taken_seq(r.taken).to_multiset(),
            ));
            assert forall|i: int| 0 <= i < entries.len() && keep <= i implies dead(
                #[trigger] entries[i].fd,
            ) by {
                assert(entries[i] == batch[i - keep]);
            }
            if more.taken is Some {
                let j = choose|j: int| 0 <= j < front.len() && !dead(#[trigger] front[j].fd);
                assert(entries[j] == front[j]);
            } else {
                assert forall|i: int| 0 <= i < keep implies dead(#[trigger] entries[i].fd) by {
                    assert(entries[i] == front[i]);
                }
            }
        }
    } else {
        assert(entries.to_multiset() =~= r.left.to_multiset().add(r.closed.to_multiset()).add(
            taken_seq(r.taken).to_multiset(),
        ));
    }
}

/// The entries of a batch whose mark is `mark`, in order.
pub open spec fn marked(batch: Seq<PoolEntry>, marks: Seq<bool>, mark: bool) -> Seq<PoolEntry>
    decreases batch.len(),
{
    if batch.len() == 0 {
        Seq::empty()
    } else {
        let before = marked(batch.drop_last(), marks, mark);
        if marks[batch.len() - 1] == mark {
            before.push(batch.last())
        } else {
            before
        }
    }
}

/// Parts a batch by what a look at each connection showed: the live ones, which
/// go back into the pool, and the descriptors of the dead ones, which are closed.
pub fn part_dead(batch: Vec<PoolEntry>, dead: &Vec<bool>) -> (r: (Vec<PoolEntry>, Vec<i32>))
    requires
        dead@.len() == batch@.len(),
    ensures
        r.0@ == marked(batch@, dead@, false),
        r.1@ == fds(marked(batch@, dead@, true)),
{
    let mut alive: Vec<PoolEntry> = Vec::new();
    let mut gone: Vec<i32> = Vec::new();
    let mut i: usize = 0;
    while i < batch.len()
        invariant
            i <= batch@.len(),
            dead@.len() == batch@.len(),
            alive@ == marked(batch@.take(i as int), dead@, false),
            gone@ == fds(marked(batch@.take(i as int), dead@, true)),
        decreases batch@.len() - i,
    {
        proof {
            assert(batch@.take(i + 1).drop_last() =~= batch@.take(i as int));
        }
        if dead[i] {
            gone.push(batch[i].fd);
        } else {
            alive.push(batch[i]);
        }
        i = i + 1;
    }
    proof {
        assert(batch@.take(i as int) =~= batch@);
    }
    (alive, gone)
}

/// The entries that may stay, in order.
pub open spec fn kept(s: Seq<PoolEntry>, now: u64) -> Seq<PoolEntry> {
    s.filter(|e: PoolEntry| !outlived(e, now))
}

/// The entries that have to go, in order.
pub open spec fn rotated(s: Seq<PoolEntry>, now: u64) -> Seq<PoolEntry> {
    s.filter(|e: PoolEntry| outlived(e, now))
}

fn has_outlived(e: &PoolEntry, now: u64) -> (r: bool)
    ensures
        r == outlived(*e, now),
{
    nanos_since(now, e.birth) / 1_000_000 > e.ttl_ms
}

/// The two tasks that the maintenance of the pool does once a second.
pub struct Maintenance {
    pub last_sweep: u64,
    pub last_rotate: u64,
}

impl Maintenance {
    pub fn new(now: u64) -> (m: Maintenance)
        ensures
            m.last_sweep == now,
            m.last_rotate == now,
    {
        Maintenance { last_sweep: now, last_rotate: now }
    }

    /// Whether the pool is to be swept for dead connections now.
    pub fn sweep_due(&mut self, now: u64) -> (due: bool)
        ensures
            due == (time::elapsed(now, old(self).last_sweep) >= time::SECOND),
            final(self).last_sweep == (if due {
                now
            } else {
                old(self).last_sweep
            }),
            final(self).last_rotate == old(self).last_rotate,
    {
        if nanos_since(now, self.last_sweep) >= time::SECOND {
            self.last_sweep = now;
            true
        } else {
            false
        }
    }

    /// Whether old connections are to be rotated out now.
    pub fn rotate_due(&mut self, now: u64) -> (due: bool)
        ensures
            due == (time::elapsed(now, old(self).last_rotate) >= time::SECOND),
            final(self).last_rotate == (if due {
                now
            } else {
                old(self).last_rotate
            }),
            final(self).last_sweep == old(self).last_sweep,
    {
        if nanos_since(now, self.last_rotate) >= time::SECOND {
            self.last_rotate = now;
            true
        } else {
            false
        }
    }
}

/// The log line for a dead connection.
pub fn zombie_line() -> (line: String)
    ensures
        line@ == "Checking: Clear Zombies"@,
{
    "Checking: Clear Zombies".to_owned()
}

/// The log line for a connection that has outlived its time.
pub fn rotate_line() -> (line: String)
    ensures
        line@ == "Checking: preconnect rotating"@,
{
    "Checking: preconnect rotating".to_owned()
}

impl Pool {
    /// Takes out the connections that have outlived their time; the descriptors
    /// are to be closed.
    pub fn rotate(&mut self, now: u64) -> (gone: Vec<i32>)
        ensures
            final(self).entries@ == kept(old(self).entries@, now),
            gone@ == fds(rotated(old(self).entries@, now)),
            final(self).max_size == old(self).max_size,
            final(self).pending == old(self).pending,
            final(self).fail_streak == old(self).fail_streak,
            final(self).pause_until == old(self).pause_until,
            final(self).rng == old(self).rng,
    {
        let ghost all = self.entries@;
        let mut stay: Vec<PoolEntry> = Vec::new();
        let mut gone: Vec<i32> = Vec::new();
        let mut i: usize = 0;
        while i < self.entries.len()
            invariant
                i <= self.entries@.len(),
                self.entries@ == all,
                *self == *old(self),
                stay@ == kept(all.take(i as int), now),
                gone@ == fds(rotated(all.take(i as int), now)),
            decreases self.entries@.len() - i,
        {
            proof {
                reveal(Seq::filter);
                assert(all.take(i + 1).drop_last() =~= all.take(i as int));
            }
            if has_outlived(&self.entries[i], now) {
                gone.push(self.entries[i].fd);
            } else {
                stay.push(self.entries[i]);
            }
            i = i + 1;
        }
        proof {
            assert(all.take(i as int) =~= all);
        }
        self.entries = stay;
        gone
    }
}

/// The next piece of work on a connection that is opened for the pool.
#[derive(Clone, Copy, Debug, PartialEq, Eq, Structural)]
pub enum RefillWork {
    /// Wait that many milliseconds for the connection to be writable.
    Wait(u16),
    /// Read the socket's pending error.
    ReadError,
    /// The connection goes into the pool.
    Succeed,
    /// The connection is given up.
    GiveUp,
}

/// How long to wait for a connection, in milliseconds; a poll takes no more than
/// `u16::MAX`.
pub open spec fn wait_ms(timeout_secs: u64) -> nat {
    if timeout_secs * 1000 <= u16::MAX {
        (timeout_secs * 1000) as nat
    } else {
        u16::MAX as nat
    }
}

/// What follows the attempt to connect.
pub fn after_connect(result: ConnectResult, timeout_secs: u64) -> (w: RefillWork)
    ensures
        w == (match result {
            ConnectResult::Connected => RefillWork::Succeed,
            ConnectResult::InProgress => RefillWork::Wait(wait_ms(timeout_secs) as u16),
            ConnectResult::Failed => RefillWork::GiveUp,
        }),
{
    match result {
        ConnectResult::Connected => RefillWork::Succeed,
        ConnectResult::InProgress => if timeout_secs <= 65 {
            RefillWork::Wait((timeout_secs * 1000) as u16)
        } else {
            RefillWork::Wait(u16::MAX)
        },
        ConnectResult::Failed => RefillWork::GiveUp,
    }
}

/// What follows the wait: `ready` says that the poll reported the socket.
pub fn after_wait(ready: bool) -> (w: RefillWork)
    ensures
        w == (if ready {
            RefillWork::ReadError
        } else {
            RefillWork::GiveUp
        }),
{
    if ready {
        RefillWork::ReadError
    } else {
        RefillWork::GiveUp
    }
}

/// What follows the socket's pending error: `no_error` says that it was read and
/// is zero.
pub fn after_read_error(no_error: bool) -> (w: RefillWork)
    ensures
        w == (if no_error {
            RefillWork::Succeed
        } else {
            RefillWork::GiveUp
        }),
{
    if no_error {
        RefillWork::Succeed
    } else {
        RefillWork::GiveUp
    }
}

/// The log line for a connection that came into the pool.
pub open spec fn added_text(len: nat, size: nat, pending: nat) -> Seq<char> {
    "Preconnect +1, Current: "@ + text::decimal(len) + "/"@ + text::decimal(size) + " (Pending: "@
        + text::decimal(pending) + ")"@
}

fn added_line(len: usize, size: usize, pending: usize) -> (line: String)
    ensures
        line@ == added_text(len as nat, size as nat, pending as nat),
{
    let mut line: String = "Preconnect +1, Current: ".to_owned();
    append_u64(&mut line, len as u64);
    line.append("/");
    append_u64(&mut line, size as u64);
    line.append(" (Pending: ");
    append_u64(&mut line, pending as u64);
    line.append(")");
    line
}

/// One less, but not below none.
pub open spec fn one_less(n: usize) -> usize {
    if n == 0 {
        0
    } else {
        (n - 1) as usize
    }
}

/// The end of a pause that starts now, after that many failures in a row.
pub open spec fn pause_end(now: u64, streak: nat) -> int {
    now + backoff_ms(streak) * time::MILLISECOND
}

impl Pool {
    /// How many connections to order now.
    pub fn refill_count(&self, size: usize, batch: usize, now: u64) -> (n: usize)
        requires
            self.entries@.len() + self.pending <= usize::MAX,
        ensures
            n == (if paused(self.pause_until, now) {
                0
            } else {
                order_size(deficit(size, self.entries@.len() + self.pending as nat), size, batch)
            }),
            self.pause_until matches Some(t) ==> (now < t ==> n == 0),
            self.entries@.len() + self.pending >= size ==> n == 0,
            n > 0 ==> n <= batch && self.entries@.len() + self.pending + n <= size,
    {
        let missing: usize = size.saturating_sub(self.entries.len() + self.pending);
        let on_hold = match self.pause_until {
            Some(t) => now < t,
            None => false,
        };
        if missing > 0 && !on_hold {
            let cap: usize = if missing > size / 2 {
                batch
            } else {
                2
            };
            let bound: usize = if missing <= batch {
                missing
            } else {
                batch
            };
            if bound <= cap {
                bound
            } else {
                cap
            }
        } else {
            0
        }
    }

    /// Books a connection that is ordered.
    pub fn order_one(&mut self)
        requires
            old(self).pending < usize::MAX,
        ensures
            final(self).pending == old(self).pending + 1,
            final(self).entries == old(self).entries,
            final(self).max_size == old(self).max_size,
            final(self).fail_streak == old(self).fail_streak,
            final(self).pause_until == old(self).pause_until,
            final(self).rng == old(self).rng,
    {
        self.pending = self.pending + 1;
    }

    /// Takes back an order that could not be handed on.
    pub fn cancel_one(&mut self)
        requires
            old(self).pending > 0,
        ensures
            final(self).pending == old(self).pending - 1,
            final(self).entries == old(self).entries,
            final(self).max_size == old(self).max_size,
            final(self).fail_streak == old(self).fail_streak,
            final(self).pause_until == old(self).pause_until,
            final(self).rng == old(self).rng,
    {
        self.pending = self.pending - 1;
    }

    /// Books a connection that came, and says whether the pool took it, with the
    /// line for the log. One that was not taken is to be closed.
    pub fn connect_success(&mut self, fd: i32, size: usize, base_ttl_ms: u64, now: u64) -> (r: (
        bool,
        String,
    ))
        requires
            old(self).entries@.len() < old(self).max_size ==> ttl_of(
                base_ttl_ms,
                rng_next(old(self).rng),
            ) <= u64::MAX,
        ensures
            r.0 == (old(self).entries@.len() < old(self).max_size),
            r.0 ==> {
                &&& final(self).entries@ == old(self).entries@.push(
                    PoolEntry {
                        fd,
                        birth: now,
                        ttl_ms: ttl_of(base_ttl_ms, rng_next(old(self).rng)) as u64,
                    },
                )
                &&& final(self).rng == rng_next(old(self).rng)
                &&& r.1@ == added_text(
                    old(self).entries@.len() + 1,
                    size as nat,
                    one_less(old(self).pending) as nat,
                )
            },
            !r.0 ==> {
                &&& final(self).entries == old(self).entries
                &&& final(self).rng == old(self).rng
                &&& r.1@ == "Preconnected Too Much, Clearing ..."@
            },
            final(self).pending == one_less(old(self).pending),
            final(self).fail_streak == 0,
            final(self).pause_until is None,
            final(self).max_size == old(self).max_size,
            old(self).wf() ==> final(self).wf(),
    {
        self.pending = self.pending.saturating_sub(1);
        self.fail_streak = 0;
        self.pause_until = None;
        if self.put(fd, now, base_ttl_ms) {
            (true, added_line(self.entries.len(), size, self.pending))
        } else {
            (false, "Preconnected Too Much, Clearing ...".to_owned())
        }
    }

    /// Books a connection that failed. After as many failures in a row as a
    /// batch has connections, ordering pauses.
    pub fn connect_fail(&mut self, batch: usize, now: u64)
        requires
            old(self).fail_streak < usize::MAX,
            old(self).fail_streak + 1 >= batch ==> 200 * (old(self).fail_streak + 1) <= u64::MAX
                && pause_end(now, (old(self).fail_streak + 1) as nat) <= u64::MAX,
        ensures
            final(self).pending == one_less(old(self).pending),
            final(self).fail_streak == old(self).fail_streak + 1,
            final(self).pause_until == (if old(self).fail_streak + 1 >= batch {
                Some(pause_end(now, (old(self).fail_streak + 1) as nat) as u64)
            } else {
                old(self).pause_until
            }),
            final(self).entries == old(self).entries,
            final(self).max_size == old(self).max_size,
            final(self).rng == old(self).rng,
    {
        self.pending = self.pending.saturating_sub(1);
        self.fail_streak = self.fail_streak + 1;
        let streak: usize = self.fail_streak;
        if streak >= batch {
            let product: u64 = 200 * streak as u64;
            let backoff: u64 = if product <= 5000 {
                product
            } else {
                5000
            };
            self.pause_until = Some(now + backoff * time::MILLISECOND);
        }
    }
}

/// Taking a batch out of a pool and giving it back restores the pool.
pub proof fn law_batch_given_back_restores_the_pool(entries: Seq<PoolEntry>, n: usize)
    ensures
        entries.take(batch_start(entries.len(), n)) + entries.skip(batch_start(entries.len(), n))
            == entries,
{
    let start = batch_start(entries.len(), n);
    assert(entries.take(start) + entries.skip(start) =~= entries);
}

/// The sweep loses no connection: each one of the batch is either alive and goes
/// back, or dead and is closed.
pub proof fn law_sweep_parts_the_batch(batch: Seq<PoolEntry>, dead: Seq<bool>)
    ensures
        batch.to_multiset() == marked(batch, dead, false).to_multiset().add(
            marked(batch, dead, true).to_multiset(),
        ),
    decreases batch.len(),
{
    broadcast use vstd::seq_lib::group_to_multiset_ensures;

    if batch.len() > 0 {
        law_sweep_parts_the_batch(batch.drop_last(), dead);
        assert(batch =~= batch.drop_last().push(batch.last()));
    }
    assert(batch.to_multiset() =~= marked(batch, dead, false).to_multiset().add(
        marked(batch, dead, true).to_multiset(),
    ));
}

/// The rotation takes exactly the connections that have outlived their time, and
/// loses none of the others.
pub proof fn law_rotation_takes_exactly_the_outlived(entries: Seq<PoolEntry>, now: u64)
    ensures
        forall|i: int|
            0 <= i < kept(entries, now).len() ==> !outlived(#[trigger] kept(entries, now)[i], now),
        forall|i: int|
            0 <= i < rotated(entries, now).len() ==> outlived(
                #[trigger] rotated(entries, now)[i],
                now,
            ),
        entries.to_multiset() == kept(entries, now).to_multiset().add(
            rotated(entries, now).to_multiset(),
        ),
    decreases entries.len(),
{
    broadcast use vstd::seq_lib::group_to_multiset_ensures;

    reveal(Seq::filter);
    if entries.len() > 0 {
        law_rotation_takes_exactly_the_outlived(entries.drop_last(), now);
        assert(entries =~= entries.drop_last().push(entries.last()));
    }
    assert(entries.to_multiset() =~= kept(entries, now).to_multiset().add(
        rotated(entries, now).to_multiset(),
    ));
}

/// The places in the pool of the connections that are neither dead nor have
/// outlived their time, in order.
pub open spec fn living_places(entries: Seq<PoolEntry>, dead: Seq<bool>, now: u64) -> Seq<int>
    decreases entries.len(),
{
    if entries.len() == 0 {
        Seq::empty()
    } else {
        let before = living_places(entries.drop_last(), dead, now);
        if !dead[entries.len() - 1] && !outlived(entries.last(), now) {
            before.push(entries.len() - 1)
        } else {
            before
        }
    }
}

/// A tick of the maintenance keeps exactly the living: sweeping all connections
/// of the pool, giving the live ones back and rotating leaves those that are
/// neither dead nor have outlived their time, each as it was, in order.
pub proof fn law_tick_keeps_the_living(entries: Seq<PoolEntry>, dead: Seq<bool>, now: u64)
    requires
        dead.len() == entries.len() <= usize::MAX,
    ensures
        ({
            let start = batch_start(entries.len(), usize::MAX);
            let swept = entries.take(start) + marked(entries.skip(start), dead, false);
            let left = kept(swept, now);
            let places = living_places(entries, dead, now);
            &&& swept == marked(entries, dead, false)
            &&& left.len() == places.len()
            &&& forall|i: int| 0 <= i < left.len() ==> #[trigger] left[i] == entries[places[i]]
            &&& forall|i: int| 0 <= i < places.len() ==> 0 <= #[trigger] places[i] < entries.len()
            &&& forall|i: int|
                0 <= i < places.len() ==> !dead[#[trigger] places[i]] && !outlived(
                    entries[places[i]],
                    now,
                )
            &&& forall|i: int, j: int|
                0 <= i < j < places.len() ==> #[trigger] places[i] < #[trigger] places[j]
            &&& forall|j: int|
                #![trigger dead[j]]
                0 <= j < entries.len() && !dead[j] && !outlived(entries[j], now)
                    ==> places.contains(j)
        }),
{
    assert(entries.skip(0) =~= entries);
    assert(entries.take(0) + marked(entries, dead, false) =~= marked(entries, dead, false));
    lemma_living(entries, dead, now);
}

proof fn lemma_living(entries: Seq<PoolEntry>, dead: Seq<bool>, now: u64)
    requires
        entries.len() <= dead.len(),
    ensures
        ({
            let left = kept(marked(entries, dead, false), now);
            let places = living_places(entries, dead, now);
            &&& left.len() == places.len()
            &&& forall|i: int| 0 <= i < left.len() ==> #[trigger] left[i] == entries[places[i]]
            &&& forall|i: int| 0 <= i < places.len() ==> 0 <= #[trigger] places[i] < entries.len()
            &&& forall|i: int|
                0 <= i < places.len() ==> !dead[#[trigger] places[i]] && !outlived(
                    entries[places[i]],
                    now,
                )
            &&& forall|i: int, j: int|
                0 <= i < j < places.len() ==> #[trigger] places[i] < #[trigger] places[j]
            &&& forall|j: int|
                #![trigger dead[j]]
                0 <= j < entries.len() && !dead[j] && !outlived(entries[j], now)
                    ==> places.contains(j)
        }),
    decreases entries.len(),
{
    reveal(Seq::filter);
    if entries.len() > 0 {
        let front = entries.drop_last();
        let n = entries.len() - 1;
        let last = entries.last();
        let before = marked(front, dead, false);
        let old_places = living_places(front, dead, now);
        let places = living_places(entries, dead, now);
        lemma_living(front, dead, now);
        if !dead[n] {
            assert(before.push(last).drop_last() =~= before);
            assert(kept(before.push(last), now) == if outlived(last, now) {
                kept(before, now)
            } else {
                kept(before, now).push(last)
            });
        }
        assert forall|j: int|
            #![trigger dead[j]]
            0 <= j < entries.len() && !dead[j] && !outlived(
                entries[j],
                now,
            ) implies places.contains(j) by {
            if j == n {
                assert(places[places.len() - 1] == n);
            } else {
                assert(front[j] == entries[j]);
                assert(old_places.contains(j));
                let k = choose|k: int| 0 <= k < old_places.len() && old_places[k] == j;
                assert(places[k] == j);
            }
        }
    }
}

/// A connection stays in the pool for at least three quarters of the configured
/// time and for at most five quarters of it, in whole milliseconds.
pub proof fn law_lifetime_is_within_a_quarter(e: PoolEntry, base_ms: u64, random: u64, now: u64)
    requires
        e.ttl_ms == ttl_of(base_ms, random),
    ensures
        time::elapsed(now, e.birth) / 1_000_000 <= base_ms - base_ms / 4 ==> !outlived(e, now),
        time::elapsed(now, e.birth) / 1_000_000 > base_ms + base_ms / 4 ==> outlived(e, now),
{
    law_jitter_is_within_a_quarter(base_ms, random);
}

/// Orders never make the pool too large: the connections that wait, the pending
/// ones and the new ones together are no more than the pool is to hold. Where
/// any are missing, at least one is ordered.
pub proof fn law_orders_fit_the_pool(size: usize, waiting: nat, batch: usize)
    requires
        batch >= 1,
    ensures
        waiting <= size ==> waiting + order_size(deficit(size, waiting), size, batch) <= size,
        waiting >= size ==> order_size(deficit(size, waiting), size, batch) == 0,
        waiting < size ==> order_size(deficit(size, waiting), size, batch) >= 1,
        order_size(deficit(size, waiting), size, batch) <= batch,
{
}

/// An order stays pending until its connection came or failed, and no longer.
pub proof fn law_answered_order_is_not_pending(pending: usize)
    requires
        pending < usize::MAX,
    ensures
        one_less((pending + 1) as usize) == pending,
{
}

/// A pool that is more than half empty refills by whole batches, any other pool
/// by two connections at a time.
pub proof fn law_refill_speed(size: usize, waiting: nat, batch: usize)
    requires
        waiting < size,
    ensures
        size - waiting > size / 2 && size - waiting >= batch ==> order_size(
            deficit(size, waiting),
            size,
            batch,
        ) == batch,
        size - waiting <= size / 2 ==> order_size(deficit(size, waiting), size, batch) <= 2,
{
}

/// The pause grows with the failures in a row, up to five seconds.
pub proof fn law_pause_is_bounded(streak: nat, longer: nat)
    requires
        streak <= longer,
    ensures
        backoff_ms(streak) <= backoff_ms(longer) <= 5000,
{
}

/// With a checked configuration the wait for a connection is as long as the
/// configured timeout: the limit of a poll does not cut it short.
pub proof fn law_checked_timeout_is_waited_in_full(c: ConfigView)
    requires
        config::acceptable(c),
    ensures
        wait_ms(c.connect_timeout) == c.connect_timeout * 1000,
{
}

/// Nothing is ordered before the end of a pause, however far off that is, and the
/// pause is over with its end; without a pause orders are never held back.
pub proof fn law_pause_holds_until_its_end(t: u64, now: u64)
    ensures
        now < t ==> paused(Some(t), now),
        now >= t ==> !paused(Some(t), now),
        !paused(None, now),
{
}

/// After a failure that makes the run of failures as long as a batch, nothing is
/// ordered for 200 ms per failure, 5 s at most, and orders go on after that.
pub proof fn law_failures_hold_orders_back(failed: u64, streak: nat, now: u64)
    requires
        pause_end(failed, streak) <= u64::MAX,
    ensures
        ({
            let ms = if 200 * streak <= 5000 {
                200 * streak
            } else {
                5000
            };
            let pause = Some(pause_end(failed, streak) as u64);
            &&& pause_end(failed, streak) == failed + ms * 1_000_000
            &&& failed <= now < failed + ms * 1_000_000 ==> paused(pause, now)
            &&& now >= failed + ms * 1_000_000 ==> !paused(pause, now)
        }),
{
}

/// An order is what is missing, but no more than a batch, and no more than two unless
/// more than half of the pool is missing; it is exactly the least of these.
pub proof fn law_order_is_the_least_of_its_bounds(size: usize, waiting: nat, batch: usize)
    ensures
        ({
            let missing = if waiting < size {
                (size - waiting) as nat
            } else {
                0
            };
            let n = order_size(deficit(size, waiting), size, batch);
            &&& deficit(size, waiting) == missing
            &&& n <= missing
            &&& n <= batch
            &&& missing <= size / 2 ==> n <= 2
            &&& missing > size / 2 ==> n == missing || n == batch
            &&& missing <= size / 2 ==> n == missing || n == batch || n == 2
        }),
{
}

/// The lifetime of a connection begins at three quarters of its base and grows by one
/// with each random number, over half of the base, and then begins anew: every
/// lifetime from three to five quarters of the base comes up.
pub proof fn law_lifetimes_take_every_value(base_ms: u64, random: u64)
    ensures
        random <= 2 * (base_ms / 4) ==> ttl_of(base_ms, random) == base_ms - base_ms / 4 + random,
        random + (2 * (base_ms / 4) + 1) <= u64::MAX ==> ttl_of(
            base_ms,
            (random + (2 * (base_ms / 4) + 1)) as u64,
        ) == ttl_of(base_ms, random),
{
    let span = base_ms as int / 4 * 2 + 1;
    if random <= 2 * (base_ms / 4) {
        vstd::arithmetic::div_mod::lemma_small_mod(random as nat, span as nat);
    }
    vstd::arithmetic::div_mod::lemma_mod_add_multiples_vanish(random as int, span);
}

/// The generator takes three shifts of its state into itself, one after the other.
pub proof fn law_generator_shifts_its_state(x: u64)
    ensures
        ({
            let a = x ^ (x << 13);
            let b = a ^ (a >> 7);
            rng_next(x) == b ^ (b << 17)
        }),
{
}

/// Different states of the generator lead to different states: no two of
/// them ever merge.
pub proof fn law_generator_keeps_states_apart(x: u64, y: u64)
    requires
        x != y,
    ensures
        rng_next(x) != rng_next(y),
{
    assert(x != y ==> (x ^ (x << 13)) != (y ^ (y << 13))) by (bit_vector);
    let (a, c) = (x ^ (x << 13), y ^ (y << 13));
    assert(a != c ==> (a ^ (a >> 7)) != (c ^ (c >> 7))) by (bit_vector);
    let (b, d) = (a ^ (a >> 7), c ^ (c >> 7));
    assert(b != d ==> (b ^ (b << 17)) != (d ^ (d << 17))) by (bit_vector);
}

/// A connection has outlived its time exactly once more whole milliseconds have
/// passed since its birth than its lifetime has.
pub proof fn law_outlived_is_exact(e: PoolEntry, now: u64)
    ensures
        outlived(e, now) <==> now >= e.birth + (e.ttl_ms + 1) * 1_000_000,
{
}

/// The counts about orders, waits and batches. One less is never below none. A wait
/// is the timeout in milliseconds, as far as a poll takes it. A batch is the last
/// entries, as many as asked for, or all.
pub proof fn law_counts_about_orders(n: usize, secs: u64, len: nat, asked: usize)
    ensures
        n > 0 ==> one_less(n) == n - 1,
        one_less(0) == 0,
        secs <= 65 ==> wait_ms(secs) == secs * 1000,
        secs > 65 ==> wait_ms(secs) == 65_535,
        len <= asked ==> batch_start(len, asked) == 0,
        len > asked ==> batch_start(len, asked) == len - asked,
{
}

/// A list of entries is seen as its descriptors, in order.
pub proof fn law_descriptors_are_listed(s: Seq<PoolEntry>, i: int, taken: Option<PoolEntry>)
    ensures
        fds(s).len() == s.len(),
        0 <= i < s.len() ==> fds(s)[i] == s[i].fd,
        taken is Some ==> fd_of(taken) == Some(taken->0.fd),
        taken is None ==> fd_of(taken) is None,
{
}

/// What is logged about a connection that came into the pool.
pub proof fn law_added_is_logged(len: nat, size: nat, pending: nat)
    ensures
        added_text(len, size, pending) == "Preconnect +1, Current: "@ + text::decimal(len) + "/"@
            + text::decimal(size) + " (Pending: "@ + text::decimal(pending) + ")"@,
{
}

/// Of a batch, the first live connection is taken. Those before it are dead and are
/// closed, and those behind it are kept unseen. Where none is alive, all are closed.
pub proof fn law_first_live_candidate_is_taken(batch: Seq<PoolEntry>, dead: spec_fn(i32) -> bool)
    ensures
        ({
            let end = untouched(batch).run(dead);
            match end.taken {
                Some(e) => {
                    let k = end.seen - 1;
                    &&& 0 <= k < batch.len()
                    &&& e == batch[k]
                    &&& !dead(batch[k].fd)
                    &&& forall|i: int| 0 <= i < k ==> dead(#[trigger] batch[i].fd)
                    &&& end.rejected() == batch.take(k)
                    &&& end.surplus() == batch.skip(k + 1)
                },
                None => {
                    &&& forall|i: int| 0 <= i < batch.len() ==> dead(#[trigger] batch[i].fd)
                    &&& end.rejected() == batch
                    &&& end.surplus().len() == 0
                },
            }
        }),
{
    lemma_selection_run(untouched(batch), dead);
    let end = untouched(batch).run(dead);
    if end.taken is None {
        assert(batch.take(batch.len() as int) =~= batch);
    }
}

/// The search looks at the last four connections of the pool first. Where one of them
/// is alive, the first such is found, those in front of it are closed, and those
/// behind it stay behind the rest of the pool. Where none is, all four are closed, and
/// the search goes on with the rest of the pool.
pub proof fn law_search_takes_from_the_end(entries: Seq<PoolEntry>, dead: spec_fn(i32) -> bool)
    requires
        entries.len() > 0,
    ensures
        ({
            let start = if entries.len() <= 4 {
                0
            } else {
                entries.len() - 4
            };
            let s = search(entries, dead);
            let more = search(entries.take(start), dead);
            &&& (forall|i: int| start <= i < entries.len() ==> dead(#[trigger] entries[i].fd)) ==> {
                &&& s.taken == more.taken
                &&& s.left == more.left
                &&& s.closed == entries.skip(start) + more.closed
            }
            &&& forall|k: int|
                #![trigger entries[k]]
                start <= k < entries.len() && !dead(entries[k].fd) && (forall|i: int|
                    start <= i < k ==> dead(#[trigger] entries[i].fd)) ==> {
                    &&& s.taken == Some(entries[k])
                    &&& s.left == entries.take(start) + entries.skip(k + 1)
                    &&& s.closed == entries.subrange(start, k)
                }
        }),
{
    let start = batch_start(entries.len(), TAKE_BATCH);
    let batch = entries.skip(start);
    let s = search(entries, dead);
    let end = untouched(batch).run(dead);
    law_first_live_candidate_is_taken(batch, dead);
    assert forall|i: int| 0 <= i < batch.len() implies #[trigger] batch[i] == entries[start
        + i] by {}
    if forall|i: int| start <= i < entries.len() ==> dead(#[trigger] entries[i].fd) {
        if end.taken is Some {
            assert(dead(entries[start + end.seen - 1].fd));
        }
    }
    assert forall|k: int|
        #![trigger entries[k]]
        start <= k < entries.len() && !dead(entries[k].fd) && (forall|i: int|
            start <= i < k ==> dead(#[trigger] entries[i].fd)) implies {
        &&& s.taken == Some(entries[k])
        &&& s.left == entries.take(start) + entries.skip(k + 1)
        &&& s.closed == entries.subrange(start, k)
    } by {
        assert(batch[k - start] == entries[k]);
        assert(end.taken is Some);
        let j = end.seen - 1;
        assert(batch[j] == entries[start + j]);
        if j < k - start {
            assert(dead(entries[start + j].fd));
        }
        if j > k - start {
            assert(dead(batch[k - start].fd));
        }
        assert(batch.skip(j + 1) =~= entries.skip(k + 1));
        assert(batch.take(j) =~= entries.subrange(start, k));
    }
}

/// A search of an empty pool finds nothing, closes nothing and leaves nothing.
pub proof fn law_empty_pool_gives_nothing(dead: spec_fn(i32) -> bool)
    ensures
        ({
            let s = search(Seq::empty(), dead);
            s.taken is None && s.left.len() == 0 && s.closed.len() == 0
        }),
{
}

/// What the search asks for: the next candidate is looked at, a dead one is closed,
/// and with a live one the search ends, after the rest was given back where there is
/// any. Behind a batch without a live one comes the next, and an empty batch is the
/// end.
pub proof fn law_search_asks_in_order(batch: Seq<PoolEntry>, v: SelectionView)
    ensures
        batch.len() == 0 ==> after_batch(batch).1 == SearchAsk::End(None),
        batch.len() > 0 ==> after_batch(batch).1 == SearchAsk::Look(batch[0].fd),
        v.wanted() is Some <==> v.taken is None && v.seen < v.candidates.len(),
        v.wanted() is Some ==> {
            let e = v.candidates[v.seen as int];
            let rest = v.candidates.skip((v.seen + 1) as int);
            &&& v.wanted() == Some(e.fd)
            &&& after_look(v, true).1 == SearchAsk::Close(e.fd)
            &&& after_look(v, true).0.seen == v.seen + 1
            &&& after_look(v, true).0.candidates == v.candidates
            &&& after_look(v, true).0.taken is None
            &&& rest.len() > 0 ==> after_look(v, false).1 == SearchAsk::GiveBack(rest)
            &&& rest.len() == 0 ==> after_look(v, false).1 == SearchAsk::End(Some(e.fd))
            &&& after_look(v, false).0.taken == Some(e)
            &&& after_close(v) == SearchAsk::Look(e.fd)
        },
        v.wanted() is None ==> after_close(v) == SearchAsk::Pop,
        after_give_back(v) == SearchAsk::End(fd_of(v.taken)),
{
}

/// The views of a selection, of a search and of its work hide nothing.
pub proof fn law_views_show_the_search(s: Selection, l: LiveSearch, fd: i32, rest: Vec<PoolEntry>)
    ensures
        s@.candidates == s.candidates@,
        s@.seen == s.seen,
        s@.taken == s.taken,
        l@ == l.selection@,
        SearchWork::Pop@ == SearchAsk::Pop,
        SearchWork::Look(fd)@ == SearchAsk::Look(fd),
        SearchWork::Close(fd)@ == SearchAsk::Close(fd),
        SearchWork::GiveBack(rest)@ == SearchAsk::GiveBack(rest@),
        SearchWork::End(None)@ == SearchAsk::End(None),
        SearchWork::End(Some(fd))@ == SearchAsk::End(Some(fd)),
{
}

/// A sweep parts its batch by what each look showed: a connection goes to the living
/// or to the dead by its own mark, and the order stays.
pub proof fn law_sweep_goes_by_the_marks(
    batch: Seq<PoolEntry>,
    e: PoolEntry,
    marks: Seq<bool>,
    mark: bool,
)
    ensures
        marked(Seq::empty(), marks, mark).len() == 0,
        marks[batch.len() as int] == mark ==> marked(batch.push(e), marks, mark) == marked(
            batch,
            marks,
            mark,
        ).push(e),
        marks[batch.len() as int] != mark ==> marked(batch.push(e), marks, mark) == marked(
            batch,
            marks,
            mark,
        ),
{
    assert(batch.push(e).drop_last() =~= batch);
}

/// A look at a candidate counts it as seen and takes it where it is alive; it changes
/// nothing else. A selection begins with nothing seen and nothing taken.
pub proof fn law_look_counts_one(v: SelectionView, batch: Seq<PoolEntry>)
    ensures
        v.probed(true) == (SelectionView {
            candidates: v.candidates,
            seen: v.seen + 1,
            taken: None,
        }),
        v.probed(false) == (SelectionView {
            candidates: v.candidates,
            seen: v.seen + 1,
            taken: Some(v.candidates[v.seen as int]),
        }),
        untouched(batch).candidates == batch,
        untouched(batch).seen == 0,
        untouched(batch).taken is None,
        v.wf() <==> v.seen <= v.candidates.len() && (v.taken is Some ==> v.seen > 0 && v.taken
            == Some(v.candidates[v.seen - 1])),
{
}

/// The rotation goes by each connection's own time, and keeps the order on both sides.
pub proof fn law_rotation_keeps_the_order(entries: Seq<PoolEntry>, e: PoolEntry, now: u64)
    ensures
        kept(Seq::empty(), now).len() == 0,
        rotated(Seq::empty(), now).len() == 0,
        now >= e.birth + (e.ttl_ms + 1) * 1_000_000 ==> {
            &&& kept(entries.push(e), now) == kept(entries, now)
            &&& rotated(entries.push(e), now) == rotated(entries, now).push(e)
        },
        now < e.birth + (e.ttl_ms + 1) * 1_000_000 ==> {
            &&& kept(entries.push(e), now) == kept(entries, now).push(e)
            &&& rotated(entries.push(e), now) == rotated(entries, now)
        },
{
    reveal(Seq::filter);
    law_outlived_is_exact(e, now);
    assert(entries.push(e).drop_last() =~= entries);
}

/// A search that is carried out has found what the search finds, and has closed what
/// the search closes.
pub proof fn law_found_is_the_search(entries: Seq<PoolEntry>, dead: spec_fn(i32) -> bool)
    ensures
        search(entries, dead).taken is Some ==> found(entries, dead).fd == Some(
            search(entries, dead).taken->0.fd,
        ),
        search(entries, dead).taken is None ==> found(entries, dead).fd is None,
        found(entries, dead).left == search(entries, dead).left,
        found(entries, dead).closed == fds(search(entries, dead).closed),
{
}

} // verus!
