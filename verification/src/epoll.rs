//! Event masks of epoll and poll as plain truth values.

use nix::poll::PollFlags;
use nix::sys::epoll::EpollFlags;
use vstd::prelude::*;

verus! {

/// What a socket is watched for.
#[derive(Clone, Copy, Debug, PartialEq, Eq, Structural)]
pub struct Interest {
    /// Report changes only, not a lasting condition.
    pub edge: bool,
    /// There is something to read.
    pub input: bool,
    /// There is room to write.
    pub output: bool,
    /// The peer has shut down its writing side.
    pub read_hangup: bool,
    pub error: bool,
    pub hangup: bool,
}

/// What an event reports of a socket.
#[derive(Clone, Copy, Debug, PartialEq, Eq, Structural)]
pub struct Readiness {
    pub input: bool,
    pub output: bool,
    pub read_hangup: bool,
    pub error: bool,
    pub hangup: bool,
}

/// What a poll reports of a pooled socket.
#[derive(Clone, Copy, Debug, PartialEq, Eq, Structural)]
pub struct PollReport {
    /// There is something to read, or the peer has ended.
    pub input: bool,
    pub error: bool,
    pub hangup: bool,
    /// The descriptor is not open.
    pub invalid: bool,
}

/// The bit where the flag is set, else nothing.
pub open spec fn bit_if(set: bool, bit: int) -> int {
    if set {
        bit
    } else {
        0
    }
}

/// The epoll mask of an interest; the flag for edges is the sign bit.
pub open spec fn interest_bits(i: Interest) -> int {
    bit_if(i.edge, -0x8000_0000) + bit_if(i.input, 0x1) + bit_if(i.output, 0x4) + bit_if(
        i.error,
        0x8,
    ) + bit_if(i.hangup, 0x10) + bit_if(i.read_hangup, 0x2000)
}

/// What the bits of an epoll mask report.
pub open spec fn readiness_of(mask: i32) -> Readiness {
    Readiness {
        input: mask & 0x1 != 0,
        output: mask & 0x4 != 0,
        read_hangup: mask & 0x2000 != 0,
        error: mask & 0x8 != 0,
        hangup: mask & 0x10 != 0,
    }
}

/// What the bits of a poll mask report.
pub open spec fn report_of(mask: i16) -> PollReport {
    PollReport {
        input: mask & 0x1 != 0,
        error: mask & 0x8 != 0,
        hangup: mask & 0x10 != 0,
        invalid: mask & 0x20 != 0,
    }
}

/// Builds a mask with `EpollFlags` of nix: `EpollFlags::empty`, then
/// `EpollFlags::set` for each flag, then `EpollFlags::bits`. The flags are
/// distinct single bits, so the mask is the sum of those that are set.
#[verifier::external_body]
pub(crate) fn epoll_mask(i: Interest) -> (mask: i32)
    ensures
        mask == interest_bits(i),
{
    let mut flags = EpollFlags::empty();
    flags.set(EpollFlags::EPOLLET, i.edge);
    flags.set(EpollFlags::EPOLLIN, i.input);
    flags.set(EpollFlags::EPOLLOUT, i.output);
    flags.set(EpollFlags::EPOLLRDHUP, i.read_hangup);
    flags.set(EpollFlags::EPOLLERR, i.error);
    flags.set(EpollFlags::EPOLLHUP, i.hangup);
    flags.bits()
}

/// Reads a mask with `EpollFlags::from_bits_retain` and `EpollFlags::contains`
/// of nix, flag by flag: a flag is contained where its bit is set.
#[verifier::external_body]
pub(crate) fn epoll_readiness(mask: i32) -> (r: Readiness)
    ensures
        r == readiness_of(mask),
{
    let flags = EpollFlags::from_bits_retain(mask);
    Readiness {
        input: flags.contains(EpollFlags::EPOLLIN),
        output: flags.contains(EpollFlags::EPOLLOUT),
        read_hangup: flags.contains(EpollFlags::EPOLLRDHUP),
        error: flags.contains(EpollFlags::EPOLLERR),
        hangup: flags.contains(EpollFlags::EPOLLHUP),
    }
}

/// Reads a mask with `PollFlags::from_bits_retain` and `PollFlags::contains` of
/// nix, flag by flag: a flag is contained where its bit is set.
#[verifier::external_body]
pub(crate) fn poll_report(mask: i16) -> (r: PollReport)
    ensures
        r == report_of(mask),
{
    let flags = PollFlags::from_bits_retain(mask);
    PollReport {
        input: flags.contains(PollFlags::POLLIN),
        error: flags.contains(PollFlags::POLLERR),
        hangup: flags.contains(PollFlags::POLLHUP),
        invalid: flags.contains(PollFlags::POLLNVAL),
    }
}

/// A mask reports the flags that it was built of.
pub proof fn law_mask_reports_its_flags(i: Interest)
    ensures
        i32::MIN <= interest_bits(i) <= i32::MAX,
        readiness_of(interest_bits(i) as i32) == (Readiness {
            input: i.input,
            output: i.output,
            read_hangup: i.read_hangup,
            error: i.error,
            hangup: i.hangup,
        }),
{
    let (e, a, b, c, d, f) = (i.edge, i.input, i.output, i.error, i.hangup, i.read_hangup);
    let m = interest_bits(i) as i32;
    assert((m & 0x1 != 0 <==> a) && (m & 0x4 != 0 <==> b) && (m & 0x8 != 0 <==> c) && (m & 0x10 != 0
        <==> d) && (m & 0x2000 != 0 <==> f)) by (bit_vector)
        requires
            m == (if e {
                -0x8000_0000i32
            } else {
                0i32
            }) + (if a {
                0x1i32
            } else {
                0i32
            }) + (if b {
                0x4i32
            } else {
                0i32
            }) + (if c {
                0x8i32
            } else {
                0i32
            }) + (if d {
                0x10i32
            } else {
                0i32
            }) + (if f {
                0x2000i32
            } else {
                0i32
            }),
    ;
}

/// Each flag of an interest has a bit of its own in the mask: input, room, error and
/// hang-up among the lowest, the peer's shutdown above, and the flag for changes as
/// the sign.
pub proof fn law_each_flag_has_its_bit(i: Interest)
    ensures
        interest_bits(i) < 0 <==> i.edge,
        interest_bits(i) == (if i.edge {
            -0x8000_0000int
        } else {
            0
        }) + (if i.input {
            1int
        } else {
            0
        }) + (if i.output {
            4int
        } else {
            0
        }) + (if i.error {
            8int
        } else {
            0
        }) + (if i.hangup {
            16int
        } else {
            0
        }) + (if i.read_hangup {
            8192int
        } else {
            0
        }),
{
}

/// An event reports a flag where the bit of that flag is set, whatever else is set.
pub proof fn law_each_bit_is_read(mask: i32, poll: i16)
    ensures
        readiness_of(mask).input <==> mask & 1 != 0,
        readiness_of(mask).output <==> mask & 4 != 0,
        readiness_of(mask).error <==> mask & 8 != 0,
        readiness_of(mask).hangup <==> mask & 16 != 0,
        readiness_of(mask).read_hangup <==> mask & 8192 != 0,
        report_of(poll).input <==> poll & 1 != 0,
        report_of(poll).error <==> poll & 8 != 0,
        report_of(poll).hangup <==> poll & 16 != 0,
        report_of(poll).invalid <==> poll & 32 != 0,
{
}

} // verus!
