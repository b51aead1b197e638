//! What the library takes from the `libc` and `nix` crates, and from the standard library
//! beyond what `vstd` specifies.
//!
//! Nothing in this module but the types is proved: each function states what is known of
//! the outside item that it hands on.

use nix::errno::Errno;
use nix::poll::PollFlags;
use nix::time::ClockId;
use vstd::prelude::*;
use vstd::utf8::*;

verus! {

/// A point in time or a span of it, as the host's clocks give it.
#[derive(Clone, Copy, Debug, PartialEq, Eq, Structural)]
pub struct Timespec {
    pub tv_sec: i64,
    pub tv_nsec: i64,
}

/// The host's numbers for the clocks that WASI knows.
#[derive(Clone, Copy, Debug, PartialEq, Eq, Structural)]
pub struct ClockIds {
    pub realtime: i32,
    pub monotonic: i32,
    pub process_cputime: i32,
    pub thread_cputime: i32,
}

/// The clock numbers of Linux.
pub open spec fn linux_clock_ids() -> ClockIds {
    ClockIds { realtime: 0, monotonic: 1, process_cputime: 2, thread_cputime: 3 }
}

/// Hands on the constants `CLOCK_REALTIME`, `CLOCK_MONOTONIC`,
/// `CLOCK_PROCESS_CPUTIME_ID` and `CLOCK_THREAD_CPUTIME_ID` of `libc`, which on Linux
/// are the numbers from zero to three, in this order.
#[verifier::external_body]
pub(crate) fn clock_ids() -> (ids: ClockIds)
    ensures
        ids == linux_clock_ids(),
{
    ClockIds {
        realtime: libc::CLOCK_REALTIME,
        monotonic: libc::CLOCK_MONOTONIC,
        process_cputime: libc::CLOCK_PROCESS_CPUTIME_ID,
        thread_cputime: libc::CLOCK_THREAD_CPUTIME_ID,
    }
}

/// Whether the host may answer `reply` to the question for the resolution of the clock
/// `clock_id`. Which answers it may give is a matter of the machine, and left open.
pub uninterp spec fn may_be_resolution(clock_id: i32, reply: Result<Timespec, i32>) -> bool;

/// Calls `nix::time::clock_getres` on the clock `clock_id`, and gives the two fields of
/// the resolution, or the `errno` number that the call failed with. The system
/// call returns 0 or -1, and -1 is its failure. Nothing is claimed of the answer but that
/// it is one to the question for this clock.
#[verifier::external_body]
pub(crate) fn clock_getres(clock_id: i32) -> (reply: Result<Timespec, i32>)
    ensures
        may_be_resolution(clock_id, reply),
{
    match nix::time::clock_getres(ClockId::from_raw(clock_id)) {
        Ok(ts) => Ok(Timespec { tv_sec: ts.tv_sec(), tv_nsec: ts.tv_nsec() }),
        Err(errno) => Err(errno as i32),
    }
}

/// Whether the host may answer `reply` to the question for the time on the clock
/// `clock_id`. Which answers it may give is a matter of the time, and left open.
pub uninterp spec fn may_be_time(clock_id: i32, reply: Result<Timespec, i32>) -> bool;

/// Calls `nix::time::clock_gettime` on the clock `clock_id`, and gives the two fields of
/// the time, or the `errno` number that the call failed with. The system call
/// returns 0 or -1, and -1 is its failure. Nothing is claimed of the answer but that it is
/// one to the question for this clock.
#[verifier::external_body]
pub(crate) fn clock_gettime(clock_id: i32) -> (reply: Result<Timespec, i32>)
    ensures
        may_be_time(clock_id, reply),
{
    match nix::time::clock_gettime(ClockId::from_raw(clock_id)) {
        Ok(ts) => Ok(Timespec { tv_sec: ts.tv_sec(), tv_nsec: ts.tv_nsec() }),
        Err(errno) => Err(errno as i32),
    }
}

/// The bits by which `poll` asks for and reports the conditions of a file descriptor.
#[derive(Clone, Copy, Debug, PartialEq, Eq, Structural)]
pub struct PollBits {
    pub pollin: i16,
    pub pollout: i16,
    pub pollerr: i16,
    pub pollhup: i16,
    pub pollnval: i16,
}

/// The `poll` bits of Linux.
pub open spec fn linux_poll_bits() -> PollBits {
    PollBits { pollin: 0x1, pollout: 0x4, pollerr: 0x8, pollhup: 0x10, pollnval: 0x20 }
}

/// Hands on the bits of the flags `POLLIN`, `POLLOUT`, `POLLERR`, `POLLHUP` and
/// `POLLNVAL` of `nix::poll::PollFlags`, which takes them from the constants of the same
/// names in `libc`: on Linux, five different single bits.
#[verifier::external_body]
pub(crate) fn poll_bits() -> (bits: PollBits)
    ensures
        bits == linux_poll_bits(),
{
    PollBits {
        pollin: PollFlags::POLLIN.bits(),
        pollout: PollFlags::POLLOUT.bits(),
        pollerr: PollFlags::POLLERR.bits(),
        pollhup: PollFlags::POLLHUP.bits(),
        pollnval: PollFlags::POLLNVAL.bits(),
    }
}

/// Whether each bit of `revents` stands for a condition that is known.
pub open spec fn are_known_poll_bits(revents: i16) -> bool {
    revents & 0x3ff == revents
}

/// Calls `nix::poll::PollFlags::from_bits`, which takes `revents` as it is if all of its
/// bits are flags of `PollFlags`. On Linux these flags are the ten lowest bits, but for
/// MIPS and SPARC machines, where two of them coincide.
#[verifier::external_body]
pub(crate) fn poll_flags_from_bits(revents: i16) -> (flags: Option<i16>)
    ensures
        flags == if are_known_poll_bits(revents) {
            Some(revents)
        } else {
            None
        },
{
    match PollFlags::from_bits(revents) {
        Some(flags) => Some(flags.bits()),
        None => None,
    }
}

/// Whether `bit` is one of the five `poll` bits.
pub open spec fn is_poll_bit(bit: i16) -> bool {
    let bits = linux_poll_bits();
    ||| bit == bits.pollin
    ||| bit == bits.pollout
    ||| bit == bits.pollerr
    ||| bit == bits.pollhup
    ||| bit == bits.pollnval
}

/// Whether `bit` is set in `flags`.
pub open spec fn has_poll_bit(flags: i16, bit: i16) -> bool {
    flags & bit == bit
}

/// Calls `nix::poll::PollFlags::contains`, which compares the bits that both flag sets
/// have with those of the second. Bits that `PollFlags` does not know are left out on the
/// way, but `bit` is not among them.
#[verifier::external_body]
pub(crate) fn poll_flags_contain(flags: i16, bit: i16) -> (contained: bool)
    requires
        is_poll_bit(bit),
    ensures
        contained == has_poll_bit(flags, bit),
{
    PollFlags::from_bits_truncate(flags).contains(PollFlags::from_bits_truncate(bit))
}

/// The number of the error `EINTR` on Linux.
pub open spec fn linux_eintr() -> i32 {
    4
}

/// Hands on the number of `nix::errno::Errno::EINTR`, which is the constant `EINTR` of
/// `libc`: four on Linux.
#[verifier::external_body]
pub(crate) fn eintr() -> (errno: i32)
    ensures
        errno == linux_eintr(),
{
    Errno::EINTR as i32
}

/// The error of `core::str::from_utf8`. Nothing is read from it.
#[verifier::external_type_specification]
#[verifier::external_body]
pub struct ExUtf8Error(core::str::Utf8Error);

/// `core::str::from_utf8` gives the string that the bytes `v` encode, and fails exactly
/// if they are not UTF-8.
pub assume_specification[ core::str::from_utf8 ](v: &[u8]) -> (res: Result<
    &str,
    core::str::Utf8Error,
>)
    ensures
        res is Ok <==> valid_utf8(v@),
        res matches Ok(s) ==> encode_utf8(s@) == v@,
;

} // verus!
