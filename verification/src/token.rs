//! Tokens that name the source of an event.
//!
//! A connection's token holds a generation, a slot and a side, so that an event
//! that outlived its connection does not reach the next one in the same slot.

use vstd::prelude::*;

verus! {

/// The token of the TCP listener.
pub const TOKEN_ACCEPT: u64 = 0xffff_ffff_ffff_ffff;

/// The token of the UDP listener.
pub const TOKEN_UDP: u64 = 0xffff_ffff_ffff_fffe;

/// The token of the first upstream UDP socket; the others follow by slot.
pub const UDP_BASE: u64 = 0x400_0000;

/// The token of one side of a connection: generation in the top 16 bits, then
/// the slot, and the side in the lowest bit.
pub open spec fn token_value(gen: u16, idx: usize, side: u8) -> u64 {
    ((gen as u64) << 48) | ((idx as u64) << 1) | (side as u64)
}

/// The generation, the slot and the side that a token holds.
pub open spec fn token_parts(token: u64) -> (u16, usize, bool) {
    (
        (token >> 48) as u16,
        ((token & 0x0000_ffff_ffff_fffe) >> 1) as usize,
        token & 1 != 0,
    )
}

/// Encodes the token of one side of a connection.
pub fn encode_token(gen: u16, idx: usize, side: u8) -> (token: u64)
    ensures
        token == token_value(gen, idx, side),
        idx < 0x8000_0000_0000 && side <= 1 ==> token == gen * 0x1_0000_0000_0000 + idx * 2 + side,
{
    proof {
        lemma_token_sum(gen, idx as u64, side);
    }
    ((gen as u64) << 48) | ((idx as u64) << 1) | (side as u64)
}

/// Decodes a connection's token; the last part says whether the side is the
/// remote one.
pub fn decode_token(token: u64) -> (r: (u16, usize, bool))
    ensures
        r == token_parts(token),
        r.0 == token / 0x1_0000_0000_0000,
        token % 0x1_0000_0000_0000 / 2 <= usize::MAX ==> r.1 == token % 0x1_0000_0000_0000 / 2,
        r.2 == (token % 2 == 1),
{
    proof {
        lemma_token_split(token);
    }
    let gen: u16 = (token >> 48) as u16;
    let idx: usize = ((token & 0x0000_ffff_ffff_fffe) >> 1) as usize;
    let is_remote: bool = (token & 1) != 0;
    (gen, idx, is_remote)
}

pub(crate) proof fn lemma_token_sum(gen: u16, idx: u64, side: u8)
    ensures
        idx < 0x8000_0000_0000 && side <= 1 ==> ((gen as u64) << 48) | (idx << 1) | (side as u64)
            == gen * 0x1_0000_0000_0000 + idx * 2 + side,
{
    assert(idx < 0x8000_0000_0000 && side <= 1 ==> ((gen as u64) << 48) | (idx << 1) | (side as u64)
        == gen * 0x1_0000_0000_0000 + idx * 2 + side) by (bit_vector);
}

proof fn lemma_token_split(token: u64)
    ensures
        (token >> 48) as u16 == token / 0x1_0000_0000_0000,
        (token & 0x0000_ffff_ffff_fffe) >> 1 == token % 0x1_0000_0000_0000 / 2,
        (token & 1 != 0) == (token % 2 == 1),
{
    assert((token >> 48) as u16 == token / 0x1_0000_0000_0000) by (bit_vector);
    assert((token & 0x0000_ffff_ffff_fffe) >> 1 == token % 0x1_0000_0000_0000 / 2) by (bit_vector);
    assert((token & 1 != 0) == (token % 2 == 1)) by (bit_vector);
}

/// Decoding gives back what was encoded.
pub proof fn law_token_round_trip(gen: u16, idx: usize, side: u8)
    requires
        idx < 0x8000_0000_0000,
        side <= 1,
    ensures
        token_parts(token_value(gen, idx, side)) == (gen, idx, side == 1),
{
    let token = token_value(gen, idx, side);
    lemma_token_sum(gen, idx as u64, side);
    lemma_token_split(token);
}

/// Two sides of connections have the same token only if they are the same side
/// of the same slot in the same generation: an event that was meant for an
/// earlier generation of a slot is never taken for one of the current.
pub proof fn law_tokens_are_distinct(
    gen: u16,
    idx: usize,
    side: u8,
    other_gen: u16,
    other_idx: usize,
    other_side: u8,
)
    requires
        idx < 0x8000_0000_0000,
        side <= 1,
        other_idx < 0x8000_0000_0000,
        other_side <= 1,
        token_value(gen, idx, side) == token_value(other_gen, other_idx, other_side),
    ensures
        gen == other_gen,
        idx == other_idx,
        side == other_side,
{
    law_token_round_trip(gen, idx, side);
    law_token_round_trip(other_gen, other_idx, other_side);
}

/// Where an event comes from.
#[derive(Clone, Copy, Debug, PartialEq, Eq, Structural)]
pub enum Source {
    /// The TCP listener: clients are waiting.
    TcpListener,
    /// The UDP listener: datagrams of clients are waiting.
    UdpListener,
    /// The upstream socket in that slot: datagrams of the remote end.
    UdpUpstream(usize),
    /// One side of the connection in that slot, if it is still of that
    /// generation.
    Connection { gen: u16, idx: usize, is_remote: bool },
}

/// Where an event with that token comes from while `udp_slots` slots for
/// upstream sockets exist.
pub open spec fn source_of(token: u64, udp_slots: usize) -> Source {
    if token == TOKEN_ACCEPT {
        Source::TcpListener
    } else if token == TOKEN_UDP {
        Source::UdpListener
    } else if token >= UDP_BASE && ((token - UDP_BASE) as usize) < udp_slots {
        Source::UdpUpstream((token - UDP_BASE) as usize)
    } else {
        let (gen, idx, is_remote) = token_parts(token);
        Source::Connection { gen, idx, is_remote }
    }
}

/// Finds out where an event comes from.
pub fn route(token: u64, udp_slots: usize) -> (r: Source)
    ensures
        r == source_of(token, udp_slots),
{
    if token == TOKEN_ACCEPT {
        return Source::TcpListener;
    }
    if token == TOKEN_UDP {
        return Source::UdpListener;
    }
    if token >= UDP_BASE {
        let slot: usize = (token - UDP_BASE) as usize;
        if slot < udp_slots {
            return Source::UdpUpstream(slot);
        }
    }
    let (gen, idx, is_remote): (u16, usize, bool) = decode_token(token);
    Source::Connection { gen, idx, is_remote }
}

/// The token of the upstream socket in a slot.
pub fn udp_token(slot: usize) -> (token: u64)
    requires
        UDP_BASE + slot <= u64::MAX,
    ensures
        token == UDP_BASE + slot,
{
    UDP_BASE + slot as u64
}

/// The token of an upstream socket leads back to its slot.
pub proof fn law_udp_tokens_route_back(slot: usize, udp_slots: usize)
    requires
        slot < udp_slots,
        UDP_BASE + slot < TOKEN_UDP,
    ensures
        source_of((UDP_BASE + slot) as u64, udp_slots) == Source::UdpUpstream(slot),
{
}

/// The token of a connection leads back to its side, unless it is one of the
/// listeners' or is that of an upstream socket.
pub proof fn law_connection_tokens_route_back(gen: u16, idx: usize, side: u8, udp_slots: usize)
    requires
        idx < 0x8000_0000_0000,
        side <= 1,
        token_value(gen, idx, side) < TOKEN_UDP,
        token_value(gen, idx, side) >= UDP_BASE ==> (token_value(gen, idx, side)
            - UDP_BASE) as usize >= udp_slots,
    ensures
        source_of(token_value(gen, idx, side), udp_slots) == (Source::Connection {
            gen,
            idx,
            is_remote: side == 1,
        }),
{
    law_token_round_trip(gen, idx, side);
}

/// No connection's token is that of an upstream socket while there are fewer
/// than 2^25 connections and fewer than 2^32 - 2^26 upstream sockets.
pub proof fn law_connections_and_upstreams_do_not_collide(
    gen: u16,
    idx: usize,
    side: u8,
    slot: usize,
)
    requires
        idx < 0x200_0000,
        side <= 1,
        slot < 0xfc00_0000,
    ensures
        token_value(gen, idx, side) != UDP_BASE + slot,
{
    lemma_token_sum(gen, idx as u64, side);
}

/// An event belongs to a listener by that listener's token; to the upstream socket in
/// a slot that there is, by the offset from the first such token; and otherwise to the
/// connection that its token holds.
pub proof fn law_tokens_route_by_their_value(token: u64, udp_slots: usize)
    ensures
        token == 0xffff_ffff_ffff_ffff ==> source_of(token, udp_slots) == Source::TcpListener,
        token == 0xffff_ffff_ffff_fffe ==> source_of(token, udp_slots) == Source::UdpListener,
        0x400_0000 <= token < 0xffff_ffff_ffff_fffe && ((token - 0x400_0000) as usize) < udp_slots
            ==> source_of(token, udp_slots) == Source::UdpUpstream(
            (token - 0x400_0000) as usize,
        ),
        token < 0x400_0000 || (token < 0xffff_ffff_ffff_fffe && (token - 0x400_0000) as usize
            >= udp_slots) ==> source_of(token, udp_slots) == (Source::Connection {
            gen: token_parts(token).0,
            idx: token_parts(token).1,
            is_remote: token_parts(token).2,
        }),
{
}

} // verus!
