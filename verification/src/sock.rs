//! Decisions about sockets: their options, whether they are dead, and the
//! addresses of their peers.

use crate::config;
use crate::config::Config;
use crate::config::ConfigView;
use crate::epoll;
use crate::epoll::poll_report;
use crate::epoll::PollReport;
use crate::text;
use crate::text::append_u64;
use vstd::prelude::*;

verus! {

/// The options of a TCP socket. Delays are off and acknowledgements quick on
/// every one.
#[derive(Clone, Copy, Debug, PartialEq, Eq, Structural)]
pub struct TcpOptions {
    pub nodelay: bool,
    pub quick_ack: bool,
    /// Seconds before the first keepalive probe.
    pub keepalive_secs: u64,
    /// Seconds between probes.
    pub interval_secs: u64,
    /// How many probes, where that is set.
    pub retries: Option<u32>,
    /// The user timeout in milliseconds, where that is set.
    pub user_timeout_ms: Option<u64>,
}

/// An `i32` in the 64 bits of an unsigned number: a negative one wraps.
pub open spec fn widened(i: i32) -> int {
    if i >= 0 {
        i as int
    } else {
        i + 0x1_0000_0000_0000_0000
    }
}

/// The options that a configuration asks for.
pub open spec fn options_of(c: ConfigView) -> TcpOptions {
    TcpOptions {
        nodelay: true,
        quick_ack: true,
        keepalive_secs: widened(c.tcp_keepidle) as u64,
        interval_secs: widened(c.tcp_keepintvl) as u64,
        retries: if c.tcp_keepcnt > 0 {
            Some(c.tcp_keepcnt as u32)
        } else {
            None
        },
        user_timeout_ms: if c.tcp_user_timeout_ms > 0 {
            Some(c.tcp_user_timeout_ms as u64)
        } else {
            None
        },
    }
}

fn widen(i: i32) -> (r: u64)
    ensures
        r == widened(i),
{
    assert((i as u64) as int == if i >= 0 {
        i as int
    } else {
        i + 0x1_0000_0000_0000_0000
    }) by (bit_vector);
    i as u64
}

/// The options to set on a TCP socket.
pub fn tcp_options(cfg: &Config) -> (r: TcpOptions)
    ensures
        r == options_of(cfg@),
{
    TcpOptions {
        nodelay: true,
        quick_ack: true,
        keepalive_secs: widen(cfg.tcp_keepidle),
        interval_secs: widen(cfg.tcp_keepintvl),
        retries: if cfg.tcp_keepcnt > 0 {
            Some(cfg.tcp_keepcnt as u32)
        } else {
            None
        },
        user_timeout_ms: if cfg.tcp_user_timeout_ms > 0 {
            Some(cfg.tcp_user_timeout_ms as u64)
        } else {
            None
        },
    }
}

/// A checked configuration asks for the keepalive that it names.
pub proof fn law_checked_keepalive_is_exact(c: ConfigView)
    requires
        config::refusal(c) is None,
    ensures
        options_of(c).keepalive_secs == c.tcp_keepidle,
        options_of(c).interval_secs == c.tcp_keepintvl,
        options_of(c).retries == Some(c.tcp_keepcnt as u32),
{
}

/// The capacity of a pipe: the chunk, within 16 KiB and 1 MiB.
pub open spec fn pipe_capacity(chunk: usize) -> int {
    if chunk < 16_384 {
        16_384
    } else if chunk > 1_048_576 {
        1_048_576
    } else {
        chunk as int
    }
}

/// The capacity to give to the pipes of a connection.
pub fn pipe_size(chunk: usize) -> (r: i32)
    ensures
        r == pipe_capacity(chunk),
{
    if chunk < 16_384 {
        16_384
    } else if chunk > 1_048_576 {
        1_048_576
    } else {
        chunk as i32
    }
}

/// With a checked configuration, a pipe takes exactly one chunk.
pub proof fn law_checked_pipe_takes_one_chunk(c: ConfigView)
    requires
        config::refusal(c) is None,
    ensures
        pipe_capacity(c.splice_chunk) == c.splice_chunk,
{
}

/// The text `host:port`, as it is resolved.
pub fn endpoint(host: &str, port: u16) -> (r: String)
    ensures
        r@ == host@ + ":"@ + text::decimal(port as nat),
{
    let mut r: String = host.to_owned();
    r.append(":");
    append_u64(&mut r, port as u64);
    r
}

/// The address of an endpoint: the one that it spells out, else the first that a
/// look-up found.
pub fn resolve<A>(literal: Option<A>, found: Vec<A>) -> (r: Result<A, String>)
    ensures
        match literal {
            Some(a) => r == Ok::<A, String>(a),
            None => if found@.len() > 0 {
                r == Ok::<A, String>(found@[0])
            } else {
                r is Err && r->Err_0@ == "no addresses resolved"@
            },
        },
{
    match literal {
        Some(a) => Ok(a),
        None => {
            let mut rest: Vec<A> = found;
            if rest.is_empty() {
                Err("no addresses resolved".to_owned())
            } else {
                Ok(rest.remove(0))
            }
        },
    }
}

/// What a poll that does not wait said of one socket.
#[derive(Clone, Copy, Debug, PartialEq, Eq, Structural)]
pub enum PollOutcome {
    /// The socket has events; `None` where they hold one that is not known.
    Ready(Option<i16>),
    /// There was nothing to report, or the poll failed.
    Quiet,
}

/// What has to be found out next of a pooled socket.
#[derive(Clone, Copy, Debug, PartialEq, Eq, Structural)]
pub enum Probe {
    /// Peek at one byte.
    Peek,
    /// Read the pending error.
    ReadError,
    /// Nothing: the socket is dead or alive.
    Dead(bool),
}

/// The report of a poll; unknown events count as none.
pub open spec fn poll_report_of(events: Option<i16>) -> PollReport {
    match events {
        Some(mask) => epoll::report_of(mask),
        None => PollReport { input: false, error: false, hangup: false, invalid: false },
    }
}

/// Whether a report says that the socket has failed, was hung up or is not open.
pub open spec fn broken(report: PollReport) -> bool {
    report.error || report.hangup || report.invalid
}

/// What a poll leads to.
pub open spec fn probe_after_poll(outcome: PollOutcome) -> Probe {
    match outcome {
        PollOutcome::Quiet => Probe::Dead(false),
        PollOutcome::Ready(events) => if broken(poll_report_of(events)) {
            Probe::Dead(true)
        } else if poll_report_of(events).input {
            Probe::Peek
        } else {
            Probe::ReadError
        },
    }
}

/// Whether a peek shows that the peer has ended, or that the socket has failed.
pub open spec fn peek_shows_death(n: int, would_block: bool) -> bool {
    n == 0 || (n < 0 && !would_block)
}

/// Whether the pending error could be read and there is one.
pub open spec fn error_pending(rc: int, err: int) -> bool {
    rc == 0 && err != 0
}

/// What a peek leads to.
pub open spec fn probe_after_peek(n: int, would_block: bool) -> Probe {
    if peek_shows_death(n, would_block) {
        Probe::Dead(true)
    } else {
        Probe::ReadError
    }
}

/// Goes on once the socket was polled.
pub fn after_poll(outcome: PollOutcome) -> (r: Probe)
    ensures
        r == probe_after_poll(outcome),
{
    match outcome {
        PollOutcome::Quiet => Probe::Dead(false),
        PollOutcome::Ready(None) => Probe::ReadError,
        PollOutcome::Ready(Some(mask)) => {
            let report: PollReport = poll_report(mask);
            if report.error || report.hangup || report.invalid {
                Probe::Dead(true)
            } else if report.input {
                Probe::Peek
            } else {
                Probe::ReadError
            }
        },
    }
}

/// Goes on once the socket was peeked at: `n` is what that returned, and
/// `would_block` says whether it failed only because there is no data yet.
pub fn after_peek(n: isize, would_block: bool) -> (r: Probe)
    ensures
        r == probe_after_peek(n as int, would_block),
{
    if n == 0 || (n < 0 && !would_block) {
        Probe::Dead(true)
    } else {
        Probe::ReadError
    }
}

/// Decides once the pending error was read: `rc` is what that returned.
pub fn after_error(rc: i32, err: i32) -> (dead: bool)
    ensures
        dead == error_pending(rc as int, err as int),
{
    rc == 0 && err != 0
}

/// Whether a pooled socket is dead, given what each question would be answered.
pub open spec fn socket_dead(
    poll: PollOutcome,
    peeked: int,
    would_block: bool,
    rc: int,
    err: int,
) -> bool {
    poll matches PollOutcome::Ready(events) && {
        ||| broken(poll_report_of(events))
        ||| poll_report_of(events).input && peek_shows_death(peeked, would_block)
        ||| error_pending(rc, err)
    }
}

/// A socket is taken for dead if and only if it has events and they report a
/// broken socket, or an end or failure behind readable data, or an error is
/// pending.
pub proof fn law_probe_finds_dead_sockets(
    poll: PollOutcome,
    peeked: int,
    would_block: bool,
    rc: int,
    err: int,
)
    ensures
        socket_dead(poll, peeked, would_block, rc, err) == match probe_after_poll(poll) {
            Probe::Dead(dead) => dead,
            Probe::ReadError => error_pending(rc, err),
            Probe::Peek => match probe_after_peek(peeked, would_block) {
                Probe::Dead(dead) => dead,
                _ => error_pending(rc, err),
            },
        },
{
}

/// The parts of a peer's address that matter, as they stand in memory: numbers
/// are in network byte order.
#[derive(Clone, Copy, Debug)]
pub enum Family {
    Inet { port: [u8; 2], addr: [u8; 4] },
    Inet6 { port: [u8; 2], addr: [u8; 16] },
    Other,
}

/// A peer's address as the system gave it.
#[derive(Clone, Debug)]
pub struct SockAddr {
    pub family: Family,
    /// All of its bytes.
    pub bytes: Vec<u8>,
}

/// The number of the family of IPv4 addresses.
pub const FAMILY_INET: u8 = 2;

/// The number of the family of IPv6 addresses.
pub const FAMILY_INET6: u8 = 10;

/// Whether an address begins with the number of a family; the order of its two
/// bytes is the machine's.
pub open spec fn begins_with_family(bytes: Seq<u8>, number: u8) -> bool {
    &&& bytes.len() >= 2
    &&& (bytes[0] == number && bytes[1] == 0) || (bytes[0] == 0 && bytes[1] == number)
}

impl SockAddr {
    /// The parts are those that the bytes hold: behind the family the port, and
    /// then the address, in front of which an IPv6 address has its flow.
    pub open spec fn wf(self) -> bool {
        match self.family {
            Family::Inet { port, addr } => {
                &&& self.bytes@.len() >= 8
                &&& begins_with_family(self.bytes@, FAMILY_INET)
                &&& self.bytes@.subrange(2, 4) == port@
                &&& self.bytes@.subrange(4, 8) == addr@
            },
            Family::Inet6 { port, addr } => {
                &&& self.bytes@.len() >= 24
                &&& begins_with_family(self.bytes@, FAMILY_INET6)
                &&& self.bytes@.subrange(2, 4) == port@
                &&& self.bytes@.subrange(8, 24) == addr@
            },
            Family::Other => {
                &&& !begins_with_family(self.bytes@, FAMILY_INET)
                &&& !begins_with_family(self.bytes@, FAMILY_INET6)
            },
        }
    }

    /// An address of these parts and bytes; `None` where the parts are not those
    /// that the bytes hold.
    pub fn new(family: Family, bytes: Vec<u8>) -> (r: Option<SockAddr>)
        ensures
            r is Some <==> (SockAddr { family, bytes }).wf(),
            r matches Some(a) ==> a.family == family && a.bytes == bytes,
    {
        let sound: bool = match &family {
            Family::Inet { port, addr } => has_family(bytes.as_slice(), FAMILY_INET) && holds(
                bytes.as_slice(),
                2,
                port.as_slice(),
            ) && holds(bytes.as_slice(), 4, addr.as_slice()),
            Family::Inet6 { port, addr } => has_family(bytes.as_slice(), FAMILY_INET6) && holds(
                bytes.as_slice(),
                2,
                port.as_slice(),
            ) && holds(bytes.as_slice(), 8, addr.as_slice()),
            Family::Other => !has_family(bytes.as_slice(), FAMILY_INET) && !has_family(
                bytes.as_slice(),
                FAMILY_INET6,
            ),
        };
        if sound {
            Some(SockAddr { family, bytes })
        } else {
            None
        }
    }
}

fn has_family(bytes: &[u8], number: u8) -> (r: bool)
    ensures
        r == begins_with_family(bytes@, number),
{
    bytes.len() >= 2 && ((bytes[0] == number && bytes[1] == 0) || (bytes[0] == 0 && bytes[1]
        == number))
}

/// Whether `part` stands in `bytes` from the byte at `from` on.
fn holds(bytes: &[u8], from: usize, part: &[u8]) -> (r: bool)
    requires
        from <= 8,
        part@.len() <= 16,
    ensures
        r == (from + part@.len() <= bytes@.len() && bytes@.subrange(
            from as int,
            from + part@.len(),
        ) == part@),
{
    if bytes.len() < from + part.len() {
        return false;
    }
    let mut i: usize = 0;
    while i < part.len()
        invariant
            i <= part@.len() <= 16,
            from <= 8,
            from + part@.len() <= bytes@.len(),
            forall|j: int| 0 <= j < i ==> bytes@[from + j] == #[trigger] part@[j],
        decreases part@.len() - i,
    {
        if bytes[from + i] != part[i] {
            assert(bytes@.subrange(from as int, from + part@.len())[i as int] != part@[i as int]);
            return false;
        }
        i += 1;
    }
    assert(bytes@.subrange(from as int, from + part@.len()) =~= part@);
    true
}

/// An internet address with its port.
#[derive(Clone, Copy, Debug, PartialEq, Eq, Structural)]
pub enum NetAddr {
    V4 { ip: u32, port: u16 },
    V6 { ip: u128, port: u16 },
}

/// The number that bytes stand for, the most significant first.
pub open spec fn be_value(s: Seq<u8>) -> nat
    decreases s.len(),
{
    if s.len() == 0 {
        0
    } else {
        be_value(s.drop_last()) * 256 + s.last() as nat
    }
}

/// The internet address of a peer, where it has one.
pub open spec fn net_of(a: SockAddr) -> Option<NetAddr> {
    match a.family {
        Family::Inet { port, addr } => Some(
            NetAddr::V4 { ip: be_value(addr@) as u32, port: be_value(port@) as u16 },
        ),
        Family::Inet6 { port, addr } => Some(
            NetAddr::V6 { ip: be_value(addr@) as u128, port: be_value(port@) as u16 },
        ),
        Family::Other => None,
    }
}

spec fn pow256(n: nat) -> nat
    decreases n,
{
    if n == 0 {
        1
    } else {
        256 * pow256((n - 1) as nat)
    }
}

proof fn lemma_be_value_bound(s: Seq<u8>)
    ensures
        be_value(s) < pow256(s.len()),
    decreases s.len(),
{
    if s.len() > 0 {
        lemma_be_value_bound(s.drop_last());
    }
}

proof fn lemma_pow256_monotone(a: nat, b: nat)
    requires
        a <= b,
    ensures
        pow256(a) <= pow256(b),
    decreases b - a,
{
    if a < b {
        lemma_pow256_monotone(a, (b - 1) as nat);
    }
}

/// The number that at most 16 bytes stand for.
fn be_number(bytes: &[u8]) -> (r: u128)
    requires
        bytes@.len() <= 16,
    ensures
        r == be_value(bytes@),
        r < pow256(bytes@.len()),
{
    let mut acc: u128 = 0;
    let mut i: usize = 0;
    while i < bytes.len()
        invariant
            i <= bytes@.len() <= 16,
            acc == be_value(bytes@.take(i as int)),
        decreases bytes@.len() - i,
    {
        proof {
            lemma_be_value_bound(bytes@.take(i as int));
            lemma_pow256_monotone(i as nat, 15);
            reveal_with_fuel(pow256, 16);
            assert(bytes@.take(i + 1).drop_last() =~= bytes@.take(i as int));
        }
        acc = acc * 256 + bytes[i] as u128;
        i += 1;
    }
    proof {
        assert(bytes@.take(i as int) =~= bytes@);
        lemma_be_value_bound(bytes@);
    }
    acc
}

/// Finds the internet address of a peer; `None` for other address families.
pub fn storage_to_net(a: &SockAddr) -> (r: Option<NetAddr>)
    ensures
        r == net_of(*a),
{
    proof {
        reveal_with_fuel(pow256, 5);
    }
    match &a.family {
        Family::Inet { port, addr } => {
            let ip: u128 = be_number(addr.as_slice());
            let number: u128 = be_number(port.as_slice());
            Some(NetAddr::V4 { ip: ip as u32, port: number as u16 })
        },
        Family::Inet6 { port, addr } => {
            let ip: u128 = be_number(addr.as_slice());
            let number: u128 = be_number(port.as_slice());
            Some(NetAddr::V6 { ip, port: number as u16 })
        },
        Family::Other => None,
    }
}

/// Whether two sequences of bytes are the same.
fn bytes_eq(a: &[u8], b: &[u8]) -> (r: bool)
    ensures
        r == (a@ == b@),
{
    if a.len() != b.len() {
        return false;
    }
    let mut i: usize = 0;
    while i < a.len()
        invariant
            i <= a@.len(),
            a@.len() == b@.len(),
            forall|j: int| 0 <= j < i ==> a@[j] == b@[j],
        decreases a@.len() - i,
    {
        if a[i] != b[i] {
            return false;
        }
        i += 1;
    }
    assert(a@ =~= b@);
    true
}

/// Whether two addresses have the same ip and port. Addresses of other families,
/// which have neither, are the same where all bytes are.
pub open spec fn same_endpoint(a: SockAddr, b: SockAddr) -> bool {
    match (net_of(a), net_of(b)) {
        (Some(x), Some(y)) => x == y,
        (None, None) => a.bytes@ == b.bytes@,
        _ => false,
    }
}

/// Whether two addresses are the same by ip and port.
pub fn sockaddr_eq(a: &SockAddr, b: &SockAddr) -> (r: bool)
    ensures
        r == same_endpoint(*a, *b),
{
    match (storage_to_net(a), storage_to_net(b)) {
        (Some(x), Some(y)) => x == y,
        (None, None) => nix_storage_eq(a, b),
        _ => false,
    }
}

/// Whether two addresses are the same byte by byte.
pub fn nix_storage_eq(a: &SockAddr, b: &SockAddr) -> (r: bool)
    ensures
        r == (a.bytes@ == b.bytes@),
{
    bytes_eq(a.bytes.as_slice(), b.bytes.as_slice())
}

/// Two addresses with the same bytes have the same ip and port, or neither has
/// any.
pub proof fn law_same_bytes_are_the_same_endpoint(a: SockAddr, b: SockAddr)
    requires
        a.wf(),
        b.wf(),
        a.bytes@ == b.bytes@,
    ensures
        net_of(a) == net_of(b),
        same_endpoint(a, b),
{
}

/// The comparison by ip and port is an equivalence.
pub proof fn law_same_endpoint_is_an_equivalence(a: SockAddr, b: SockAddr, c: SockAddr)
    ensures
        same_endpoint(a, a),
        same_endpoint(a, b) == same_endpoint(b, a),
        same_endpoint(a, b) && same_endpoint(b, c) ==> same_endpoint(a, c),
{
}

proof fn lemma_be_value_is_injective(s: Seq<u8>, t: Seq<u8>)
    requires
        s.len() == t.len(),
        be_value(s) == be_value(t),
    ensures
        s == t,
    decreases s.len(),
{
    if s.len() > 0 {
        lemma_be_value_is_injective(s.drop_last(), t.drop_last());
        assert(s =~= s.drop_last().push(s.last()));
        assert(t =~= t.drop_last().push(t.last()));
    } else {
        assert(s =~= t);
    }
}

/// The number of a byte sequence is its first bytes times 256, and its last byte.
pub proof fn law_bytes_are_read_from_the_most_significant(s: Seq<u8>, b: u8)
    ensures
        be_value(Seq::empty()) == 0,
        be_value(s.push(b)) == be_value(s) * 256 + b,
{
    assert(s.push(b).drop_last() =~= s);
}

/// The ip and the port of an address are its bytes, in order, and none of them is
/// lost: the port of any address is its first byte times 256 and its second, and the
/// ip of an IPv4 address is made of its four bytes in the same way.
pub proof fn law_endpoint_is_made_of_the_bytes(a: SockAddr)
    ensures
        a.family matches Family::Inet { port, addr } ==> (net_of(a) matches Some(
            NetAddr::V4 { ip, port: number },
        ) && number == port@[0] * 256 + port@[1] && ip == addr@[0] * 0x100_0000 + addr@[1] * 0x1_0000
            + addr@[2] * 0x100 + addr@[3]),
        a.family matches Family::Inet6 { port, addr } ==> (net_of(a) matches Some(
            NetAddr::V6 { ip, port: number },
        ) && number == port@[0] * 256 + port@[1] && ip == be_value(addr@)),
        a.family is Other ==> net_of(a) is None,
{
    match a.family {
        Family::Inet { port, addr } => {
            lemma_two_bytes(port@);
            lemma_four_bytes(addr@);
        },
        Family::Inet6 { port, addr } => {
            lemma_two_bytes(port@);
            lemma_be_value_bound(addr@);
            reveal_with_fuel(pow256, 17);
        },
        Family::Other => {},
    }
}

proof fn lemma_two_bytes(s: Seq<u8>)
    requires
        s.len() == 2,
    ensures
        be_value(s) == s[0] * 256 + s[1],
        be_value(s) < 0x1_0000,
{
    reveal_with_fuel(be_value, 3);
}

proof fn lemma_four_bytes(s: Seq<u8>)
    requires
        s.len() == 4,
    ensures
        be_value(s) == s[0] * 0x100_0000 + s[1] * 0x1_0000 + s[2] * 0x100 + s[3],
        be_value(s) < 0x1_0000_0000,
{
    reveal_with_fuel(be_value, 5);
}

/// Two addresses of one family have the same ip and port exactly where the bytes of
/// the two are the same; two of different families never have. So clients with
/// different ports or different ips are never taken for one another.
pub proof fn law_endpoints_differ_where_their_bytes_do(a: SockAddr, b: SockAddr)
    ensures
        a.family matches Family::Inet { port: p, addr: x } ==> (b.family matches Family::Inet {
            port: q,
            addr: y,
        } ==> (net_of(a) == net_of(b) <==> p@ == q@ && x@ == y@)),
        a.family matches Family::Inet6 { port: p, addr: x } ==> (b.family matches Family::Inet6 {
            port: q,
            addr: y,
        } ==> (net_of(a) == net_of(b) <==> p@ == q@ && x@ == y@)),
        a.family is Inet && b.family is Inet6 ==> net_of(a) != net_of(b),
        a.family is Other && !(b.family is Other) ==> net_of(a) != net_of(b),
{
    law_endpoint_is_made_of_the_bytes(a);
    law_endpoint_is_made_of_the_bytes(b);
    match (a.family, b.family) {
        (Family::Inet { port: p, addr: x }, Family::Inet { port: q, addr: y }) => {
            lemma_two_bytes(p@);
            lemma_two_bytes(q@);
            lemma_four_bytes(x@);
            lemma_four_bytes(y@);
            if net_of(a) == net_of(b) {
                lemma_be_value_is_injective(p@, q@);
                lemma_be_value_is_injective(x@, y@);
            }
        },
        (Family::Inet6 { port: p, addr: x }, Family::Inet6 { port: q, addr: y }) => {
            lemma_two_bytes(p@);
            lemma_two_bytes(q@);
            if net_of(a) == net_of(b) {
                lemma_be_value_is_injective(p@, q@);
                lemma_be_value_is_injective(x@, y@);
            }
        },
        _ => {},
    }
}

/// Two addresses are the same endpoint exactly where their families, ports and ips
/// are the same byte by byte; addresses without an ip where all their bytes are.
pub proof fn law_same_endpoint_is_the_same_ip_and_port(a: SockAddr, b: SockAddr)
    ensures
        a.family matches Family::Inet { port: p, addr: x } ==> (b.family matches Family::Inet {
            port: q,
            addr: y,
        } ==> (same_endpoint(a, b) <==> p@ == q@ && x@ == y@)),
        a.family matches Family::Inet6 { port: p, addr: x } ==> (b.family matches Family::Inet6 {
            port: q,
            addr: y,
        } ==> (same_endpoint(a, b) <==> p@ == q@ && x@ == y@)),
        a.family is Other && b.family is Other ==> (same_endpoint(a, b) <==> a.bytes@ == b.bytes@),
        a.family is Inet && !(b.family is Inet) ==> !same_endpoint(a, b),
        a.family is Inet6 && !(b.family is Inet6) ==> !same_endpoint(a, b),
        a.family is Other && !(b.family is Other) ==> !same_endpoint(a, b),
{
    law_endpoints_differ_where_their_bytes_do(a, b);
    law_endpoint_is_made_of_the_bytes(a);
    law_endpoint_is_made_of_the_bytes(b);
}

/// An address is sound where its parts stand in its bytes: the number of the family
/// first, in either order, the port behind it, and the ip behind that, four bytes
/// further on for IPv6.
pub proof fn law_sound_address_holds_its_parts(a: SockAddr)
    ensures
        ({
            let b = a.bytes@;
            let v4 = b.len() >= 2 && (b[0] == 2 && b[1] == 0 || b[0] == 0 && b[1] == 2);
            let v6 = b.len() >= 2 && (b[0] == 10 && b[1] == 0 || b[0] == 0 && b[1] == 10);
            &&& a.family matches Family::Inet { port, addr } ==> (a.wf() <==> {
                &&& v4
                &&& b.len() >= 8
                &&& b.subrange(2, 4) == port@
                &&& b.subrange(4, 8) == addr@
            })
            &&& a.family matches Family::Inet6 { port, addr } ==> (a.wf() <==> {
                &&& v6
                &&& b.len() >= 24
                &&& b.subrange(2, 4) == port@
                &&& b.subrange(8, 24) == addr@
            })
            &&& a.family is Other ==> (a.wf() <==> !v4 && !v6)
        }),
{
}

/// The options of a socket are what the configuration says: delays off and quick
/// acknowledgements always, the two times as they are, and the count of probes and
/// the user timeout where they are positive.
pub proof fn law_options_are_the_configured_ones(c: ConfigView)
    ensures
        options_of(c).nodelay && options_of(c).quick_ack,
        c.tcp_keepidle >= 0 ==> options_of(c).keepalive_secs == c.tcp_keepidle,
        c.tcp_keepidle < 0 ==> options_of(c).keepalive_secs == c.tcp_keepidle
            + 0x1_0000_0000_0000_0000,
        c.tcp_keepintvl >= 0 ==> options_of(c).interval_secs == c.tcp_keepintvl,
        c.tcp_keepintvl < 0 ==> options_of(c).interval_secs == c.tcp_keepintvl
            + 0x1_0000_0000_0000_0000,
        c.tcp_keepcnt > 0 ==> (options_of(c).retries matches Some(n) && n == c.tcp_keepcnt),
        c.tcp_keepcnt <= 0 ==> options_of(c).retries is None,
        c.tcp_user_timeout_ms > 0 ==> (options_of(c).user_timeout_ms matches Some(n) && n
            == c.tcp_user_timeout_ms),
        c.tcp_user_timeout_ms <= 0 ==> options_of(c).user_timeout_ms is None,
{
}

/// A pipe is as large as a chunk, but at least 16 KiB and at most 1 MiB.
pub proof fn law_pipe_is_as_large_as_a_chunk(chunk: usize)
    ensures
        16_384 <= chunk <= 1_048_576 ==> pipe_capacity(chunk) == chunk,
        chunk < 16_384 ==> pipe_capacity(chunk) == 16_384,
        chunk > 1_048_576 ==> pipe_capacity(chunk) == 1_048_576,
{
}

/// What the answers about a pooled socket lead to. A quiet socket is alive. One that
/// is reported as failed, hung up or not open is dead. Readable data is peeked at,
/// and shows the end where nothing is read, and a failure where reading fails for
/// another reason than that there is no data. Otherwise the pending error decides.
pub proof fn law_probe_asks_in_order(
    mask: i16,
    n: int,
    would_block: bool,
    rc: int,
    err: int,
)
    ensures
        probe_after_poll(PollOutcome::Quiet) == Probe::Dead(false),
        probe_after_poll(PollOutcome::Ready(None)) == Probe::ReadError,
        mask & 8 != 0 || mask & 16 != 0 || mask & 32 != 0 ==> probe_after_poll(
            PollOutcome::Ready(Some(mask)),
        ) == Probe::Dead(true),
        mask & 8 == 0 && mask & 16 == 0 && mask & 32 == 0 && mask & 1 != 0 ==> probe_after_poll(
            PollOutcome::Ready(Some(mask)),
        ) == Probe::Peek,
        mask & 8 == 0 && mask & 16 == 0 && mask & 32 == 0 && mask & 1 == 0 ==> probe_after_poll(
            PollOutcome::Ready(Some(mask)),
        ) == Probe::ReadError,
        n == 0 ==> probe_after_peek(n, would_block) == Probe::Dead(true),
        n < 0 && !would_block ==> probe_after_peek(n, would_block) == Probe::Dead(true),
        n > 0 || (n < 0 && would_block) ==> probe_after_peek(n, would_block) == Probe::ReadError,
        error_pending(rc, err) <==> rc == 0 && err != 0,
{
}

} // verus!
