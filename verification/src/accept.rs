//! A new client: where its connection to the remote end comes from, and how the
//! two are put together.

use crate::conn;
use crate::conn::ConnState;
use crate::text;
use crate::text::append_u64;
use vstd::prelude::*;

verus! {

/// How an attempt to connect without waiting went.
#[derive(Clone, Copy, Debug, PartialEq, Eq, Structural)]
pub enum ConnectResult {
    Connected,
    InProgress,
    Failed,
}

/// Why a system call failed, as far as it matters.
#[derive(Clone, Copy, Debug, PartialEq, Eq, Structural)]
pub enum CallError {
    /// The connection is being set up.
    InProgress,
    Other,
}

/// How an attempt to connect went, by what the call returned: it goes on where
/// the call says so, and every other error is a failure.
pub fn connect_result(call: Result<(), CallError>) -> (r: ConnectResult)
    ensures
        r == (match call {
            Ok(()) => ConnectResult::Connected,
            Err(CallError::InProgress) => ConnectResult::InProgress,
            Err(CallError::Other) => ConnectResult::Failed,
        }),
{
    match call {
        Ok(()) => ConnectResult::Connected,
        Err(CallError::InProgress) => ConnectResult::InProgress,
        Err(CallError::Other) => ConnectResult::Failed,
    }
}

/// What a new client needs next.
#[derive(Clone, Copy, Debug, PartialEq, Eq, Structural)]
pub enum AcceptWork {
    /// Take a connection from the pool.
    TakeFromPool,
    /// Connect to the remote end, after saying that the pool is exhausted.
    ConnectDirectly,
    /// Make the two pipes of the connection; it is still being set up or stands.
    MakePipes { connecting: bool },
    /// Drop the client.
    GiveUp,
}

/// What follows the registration of a new connection with epoll.
#[derive(Clone, Copy, Debug, PartialEq, Eq, Structural)]
pub enum RegisterWork {
    /// Close both sockets and free the slot.
    Free,
    /// See whether the remote socket is ready already.
    PollRemote,
    /// Wait for events.
    Wait,
}

/// The generation of the next connection, and what has been counted.
#[derive(Clone, Copy, Debug, PartialEq, Eq, Structural)]
pub struct Acceptor {
    pub next_gen: u16,
    /// Clients that were accepted.
    pub accepts: u64,
    /// Clients that were served from the pool.
    pub pool_hits: u64,
}

/// The count that follows `n`; it starts over behind the last.
pub open spec fn count_after(n: u64) -> u64 {
    if n == u64::MAX {
        0
    } else {
        (n + 1) as u64
    }
}

/// The generation that follows `gen`; it starts over behind the last.
pub open spec fn gen_after(gen: u16) -> u16 {
    if gen == u16::MAX {
        0
    } else {
        (gen + 1) as u16
    }
}

/// The generation `n` connections later.
pub open spec fn gen_after_many(gen: u16, n: nat) -> u16
    decreases n,
{
    if n == 0 {
        gen
    } else {
        gen_after(gen_after_many(gen, (n - 1) as nat))
    }
}

/// The line that says that no pooled connection was at hand.
pub open spec fn exhausted_text() -> Seq<char> {
    "Exceeded Connections Pool, Direct Out..."@
}

/// The line to log before a client is connected directly.
pub fn exhausted_line() -> (r: String)
    ensures
        r@ == exhausted_text(),
{
    "Exceeded Connections Pool, Direct Out...".to_owned()
}

impl Acceptor {
    pub fn new() -> (r: Acceptor)
        ensures
            r == (Acceptor { next_gen: 0, accepts: 0, pool_hits: 0 }),
    {
        Acceptor { next_gen: 0, accepts: 0, pool_hits: 0 }
    }

    /// A client was accepted. The pool is asked first, where there is one.
    pub fn on_client(&mut self, pool_size: usize) -> (r: AcceptWork)
        ensures
            *final(self) == (Acceptor { accepts: count_after(old(self).accepts), ..*old(self) }),
            r == (if pool_size > 0 {
                AcceptWork::TakeFromPool
            } else {
                AcceptWork::ConnectDirectly
            }),
    {
        self.accepts = self.accepts.wrapping_add(1);
        if pool_size > 0 {
            AcceptWork::TakeFromPool
        } else {
            AcceptWork::ConnectDirectly
        }
    }

    /// The pool had a live connection, or had none.
    pub fn on_pool(&mut self, hit: bool) -> (r: AcceptWork)
        ensures
            *final(self) == (if hit {
                Acceptor { pool_hits: count_after(old(self).pool_hits), ..*old(self) }
            } else {
                *old(self)
            }),
            r == (if hit {
                AcceptWork::MakePipes { connecting: false }
            } else {
                AcceptWork::ConnectDirectly
            }),
    {
        if hit {
            self.pool_hits = self.pool_hits.wrapping_add(1);
            AcceptWork::MakePipes { connecting: false }
        } else {
            AcceptWork::ConnectDirectly
        }
    }

    /// A direct connection was attempted.
    pub fn on_direct(&self, result: ConnectResult) -> (r: AcceptWork)
        ensures
            r == (match result {
                ConnectResult::Connected => AcceptWork::MakePipes { connecting: false },
                ConnectResult::InProgress => AcceptWork::MakePipes { connecting: true },
                ConnectResult::Failed => AcceptWork::GiveUp,
            }),
    {
        match result {
            ConnectResult::Connected => AcceptWork::MakePipes { connecting: false },
            ConnectResult::InProgress => AcceptWork::MakePipes { connecting: true },
            ConnectResult::Failed => AcceptWork::GiveUp,
        }
    }

    /// The pipes are there: the connection begins, in a generation of its own.
    pub fn open(&mut self, connecting: bool, now: u64) -> (c: ConnState)
        ensures
            *final(self) == (Acceptor { next_gen: gen_after(old(self).next_gen), ..*old(self) }),
            c == conn::new_state(old(self).next_gen, connecting, now),
    {
        let gen: u16 = self.next_gen;
        self.next_gen = self.next_gen.wrapping_add(1);
        ConnState::new(gen, connecting, now)
    }
}

/// What follows once both sockets were registered, or one could not be.
pub fn after_register(registered: bool, connecting: bool) -> (r: RegisterWork)
    ensures
        r == (if !registered {
            RegisterWork::Free
        } else if connecting {
            RegisterWork::PollRemote
        } else {
            RegisterWork::Wait
        }),
{
    if !registered {
        RegisterWork::Free
    } else if connecting {
        RegisterWork::PollRemote
    } else {
        RegisterWork::Wait
    }
}

/// The line with the figures of the second that passed. `rate` is the share of
/// the clients that the pool served, in percent, as text.
pub open spec fn stats_text(
    acceptor: Acceptor,
    pool_len: nat,
    pool_size: nat,
    rate: Seq<char>,
    active: nat,
) -> Seq<char> {
    "Stats: pool="@ + text::decimal(pool_len) + "/"@ + text::decimal(pool_size) + " hit="@ + rate
        + "% ("@ + text::decimal(acceptor.pool_hits as nat) + "/"@ + text::decimal(
        acceptor.accepts as nat,
    ) + ") active_tcp="@ + text::decimal(active)
}

/// The line to log once a second.
pub fn stats_line(
    acceptor: &Acceptor,
    pool_len: usize,
    pool_size: usize,
    rate: &str,
    active: usize,
) -> (r: String)
    ensures
        r@ == stats_text(*acceptor, pool_len as nat, pool_size as nat, rate@, active as nat),
{
    let mut r: String = "Stats: pool=".to_owned();
    append_u64(&mut r, pool_len as u64);
    r.append("/");
    append_u64(&mut r, pool_size as u64);
    r.append(" hit=");
    r.append(rate);
    r.append("% (");
    append_u64(&mut r, acceptor.pool_hits);
    r.append("/");
    append_u64(&mut r, acceptor.accepts);
    r.append(") active_tcp=");
    append_u64(&mut r, active as u64);
    r
}

proof fn lemma_gen_after_many(gen: u16, n: nat)
    ensures
        gen_after_many(gen, n) == (gen + n) % 0x1_0000,
    decreases n,
{
    if n > 0 {
        lemma_gen_after_many(gen, (n - 1) as nat);
    }
}

/// Generations repeat only after 65536 connections: two connections that are
/// closer to each other have different ones.
pub proof fn law_generations_are_distinct(gen: u16, n: nat)
    requires
        0 < n < 0x1_0000,
    ensures
        gen_after_many(gen, n) != gen,
{
    lemma_gen_after_many(gen, n);
}

/// Generations and counts go up by one, and start over behind the last.
pub proof fn law_counts_go_up_by_one(gen: u16, n: u64)
    ensures
        gen_after(gen) == (gen + 1) % 0x1_0000,
        count_after(n) == (n + 1) % 0x1_0000_0000_0000_0000,
{
}

/// The lines about clients: the pool was exhausted, and the figures of a second.
pub proof fn law_lines_about_clients(
    a: Acceptor,
    pool_len: nat,
    pool_size: nat,
    rate: Seq<char>,
    active: nat,
)
    ensures
        exhausted_text() == "Exceeded Connections Pool, Direct Out..."@,
        stats_text(a, pool_len, pool_size, rate, active) == "Stats: pool="@ + text::decimal(
            pool_len,
        ) + "/"@ + text::decimal(pool_size) + " hit="@ + rate + "% ("@ + text::decimal(
            a.pool_hits as nat,
        ) + "/"@ + text::decimal(a.accepts as nat) + ") active_tcp="@ + text::decimal(active),
{
}

} // verus!
