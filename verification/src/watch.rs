//! What the two sockets of a connection are watched for.
//!
//! Reading from a source stops while its pipe is full, since nothing more could
//! be taken from it; it starts again once the destination has drained the pipe.

use crate::conn;
use crate::conn::ConnState;
use crate::epoll;
use crate::epoll::epoll_mask;
use crate::epoll::Interest;
use crate::token;
use crate::token::encode_token;
use vstd::prelude::*;

verus! {

/// Tokens and epoll masks for the two sockets of a connection.
#[derive(Clone, Copy, Debug, PartialEq, Eq, Structural)]
pub struct WatchPlan {
    pub token_l: u64,
    pub mask_l: i32,
    pub token_r: u64,
    pub mask_r: i32,
}

/// What the local socket is watched for: the client's data while it goes on and
/// there is room for it, and room for what waits to be sent to the client.
pub open spec fn want_local(c: ConnState, chunk: usize) -> Interest {
    Interest {
        edge: true,
        input: !c.l2r.eof && c.l2r.len < chunk,
        output: c.r2l.len > 0,
        read_hangup: !c.l2r.eof,
        error: false,
        hangup: false,
    }
}

/// What the remote socket is watched for.
pub open spec fn want_remote(c: ConnState, chunk: usize) -> Interest {
    Interest {
        edge: true,
        input: !c.r2l.eof && c.r2l.len < chunk,
        output: c.l2r.len > 0,
        read_hangup: !c.r2l.eof,
        error: false,
        hangup: false,
    }
}

/// What the local socket is watched for from the start: nothing is read from the
/// client until the remote end has answered.
pub open spec fn first_want_local(connecting: bool) -> Interest {
    Interest {
        edge: true,
        input: !connecting,
        output: false,
        read_hangup: true,
        error: false,
        hangup: false,
    }
}

/// What the remote socket is watched for from the start. While it connects, the
/// condition itself is reported and not only its change, since the connection
/// may be complete before the watch begins.
pub open spec fn first_want_remote(connecting: bool) -> Interest {
    Interest {
        edge: !connecting,
        input: !connecting,
        output: connecting,
        read_hangup: true,
        error: connecting,
        hangup: connecting,
    }
}

/// The plan that watches the two sockets in a slot for these.
pub open spec fn plan_of(gen: u16, slot: usize, local: Interest, remote: Interest, plan: WatchPlan) -> bool {
    &&& plan.token_l == token::token_value(gen, slot, 0)
    &&& plan.mask_l == epoll::interest_bits(local)
    &&& plan.token_r == token::token_value(gen, slot, 1)
    &&& plan.mask_r == epoll::interest_bits(remote)
}

/// Watches both sockets anew after an event.
pub fn conn_watch(c: &ConnState, slot: usize, chunk: usize) -> (plan: WatchPlan)
    ensures
        plan_of(c.gen, slot, want_local(*c, chunk), want_remote(*c, chunk), plan),
{
    let local: Interest = Interest {
        edge: true,
        input: !c.l2r.eof && c.l2r.len < chunk,
        output: c.r2l.len > 0,
        read_hangup: !c.l2r.eof,
        error: false,
        hangup: false,
    };
    let remote: Interest = Interest {
        edge: true,
        input: !c.r2l.eof && c.r2l.len < chunk,
        output: c.l2r.len > 0,
        read_hangup: !c.r2l.eof,
        error: false,
        hangup: false,
    };
    WatchPlan {
        token_l: encode_token(c.gen, slot, 0),
        mask_l: epoll_mask(local),
        token_r: encode_token(c.gen, slot, 1),
        mask_r: epoll_mask(remote),
    }
}

/// Begins to watch the sockets of a new connection.
pub fn first_watch(c: &ConnState, slot: usize) -> (plan: WatchPlan)
    ensures
        plan_of(
            c.gen,
            slot,
            first_want_local(c.connecting),
            first_want_remote(c.connecting),
            plan,
        ),
{
    let local: Interest = Interest {
        edge: true,
        input: !c.connecting,
        output: false,
        read_hangup: true,
        error: false,
        hangup: false,
    };
    let remote: Interest = Interest {
        edge: !c.connecting,
        input: !c.connecting,
        output: c.connecting,
        read_hangup: true,
        error: c.connecting,
        hangup: c.connecting,
    };
    WatchPlan {
        token_l: encode_token(c.gen, slot, 0),
        mask_l: epoll_mask(local),
        token_r: encode_token(c.gen, slot, 1),
        mask_r: epoll_mask(remote),
    }
}

/// What a listener or an upstream UDP socket is watched for.
pub open spec fn listen_want() -> Interest {
    Interest {
        edge: true,
        input: true,
        output: false,
        read_hangup: false,
        error: false,
        hangup: false,
    }
}

/// The epoll mask of a listener or of an upstream UDP socket.
pub fn listen_mask() -> (mask: i32)
    ensures
        mask == epoll::interest_bits(listen_want()),
{
    epoll_mask(
        Interest {
            edge: true,
            input: true,
            output: false,
            read_hangup: false,
            error: false,
            hangup: false,
        },
    )
}

/// While a pipe is full, its source is not watched for reading, and its
/// destination is watched for room: the relay does not spin on data that it
/// cannot take, and goes on once the pipe was drained.
pub proof fn law_full_pipe_waits_for_its_destination(c: ConnState, chunk: usize)
    requires
        chunk > 0,
    ensures
        c.l2r.len >= chunk ==> !want_local(c, chunk).input && want_remote(c, chunk).output,
        c.r2l.len >= chunk ==> !want_remote(c, chunk).input && want_local(c, chunk).output,
{
}

/// A direction whose source goes on is never forgotten: either the source is
/// watched for reading, or the pipe is full and its destination is watched for
/// room.
pub proof fn law_open_direction_is_watched(c: ConnState, chunk: usize)
    requires
        chunk > 0,
    ensures
        !c.l2r.eof ==> want_local(c, chunk).input || want_remote(c, chunk).output,
        !c.r2l.eof ==> want_remote(c, chunk).input || want_local(c, chunk).output,
{
}

/// A destination that was told of the end is not watched for room any more.
pub proof fn law_shut_side_is_not_watched_for_room(c: ConnState, chunk: usize)
    requires
        c.wf(chunk),
    ensures
        c.r2l.shut ==> !want_local(c, chunk).output,
        c.l2r.shut ==> !want_remote(c, chunk).output,
{
}

/// A connection that an event leaves open is watched on at least one side for
/// reading or for room.
pub proof fn law_open_connection_is_watched(c: ConnState, chunk: usize)
    requires
        chunk > 0,
        conn::conclude(c).1.work == conn::Work::Rearm,
    ensures
        ({
            let local = want_local(c, chunk);
            let remote = want_remote(c, chunk);
            local.input || local.output || remote.input || remote.output
        }),
{
}

/// A socket is read from while its source goes on and its pipe has room, and is
/// watched for the peer's shutdown while its source goes on; it is watched for room
/// while bytes wait for it. Changes alone are reported, and nothing else is asked for.
pub proof fn law_sockets_are_watched_for_what_they_need(c: ConnState, chunk: usize)
    ensures
        want_local(c, chunk).input <==> !c.l2r.eof && c.l2r.len < chunk,
        want_local(c, chunk).read_hangup <==> !c.l2r.eof,
        want_local(c, chunk).output <==> c.r2l.len > 0,
        want_remote(c, chunk).input <==> !c.r2l.eof && c.r2l.len < chunk,
        want_remote(c, chunk).read_hangup <==> !c.r2l.eof,
        want_remote(c, chunk).output <==> c.l2r.len > 0,
        want_local(c, chunk).edge && !want_local(c, chunk).error && !want_local(c, chunk).hangup,
        want_remote(c, chunk).edge && !want_remote(c, chunk).error && !want_remote(
            c,
            chunk,
        ).hangup,
{
}

/// A connection that stands is read from on both sides at once. While it connects,
/// nothing is read, and its remote socket is watched for the outcome as a condition,
/// not only as a change.
pub proof fn law_first_watch_waits_for_the_remote_end()
    ensures
        first_want_local(false) == (Interest {
            edge: true,
            input: true,
            output: false,
            read_hangup: true,
            error: false,
            hangup: false,
        }),
        first_want_remote(false) == first_want_local(false),
        first_want_local(true) == (Interest {
            edge: true,
            input: false,
            output: false,
            read_hangup: true,
            error: false,
            hangup: false,
        }),
        first_want_remote(true) == (Interest {
            edge: false,
            input: false,
            output: true,
            read_hangup: true,
            error: true,
            hangup: true,
        }),
        listen_want() == (Interest {
            edge: true,
            input: true,
            output: false,
            read_hangup: false,
            error: false,
            hangup: false,
        }),
{
}

/// A plan watches each side under that side's own token, for what that side wants:
/// an event reports its slot, its generation and its side.
pub proof fn law_plan_watches_each_side_for_itself(
    gen: u16,
    slot: usize,
    local: Interest,
    remote: Interest,
    plan: WatchPlan,
)
    requires
        slot < 0x8000_0000_0000,
        plan_of(gen, slot, local, remote, plan),
    ensures
        token::token_parts(plan.token_l) == (gen, slot, false),
        token::token_parts(plan.token_r) == (gen, slot, true),
        plan.token_l == gen * 0x1_0000_0000_0000 + slot * 2,
        plan.token_r == plan.token_l + 1,
        plan.mask_l == epoll::interest_bits(local),
        plan.mask_r == epoll::interest_bits(remote),
{
    token::law_token_round_trip(gen, slot, 0);
    token::law_token_round_trip(gen, slot, 1);
    token::lemma_token_sum(gen, slot as u64, 0);
    token::lemma_token_sum(gen, slot as u64, 1);
}

} // verus!
