//! Clocks: their resolution and their time, in nanoseconds.

use crate::error::{errno_from_nix, Error};
use crate::host;
use crate::host::Timespec;
use crate::wasi;
use vstd::prelude::*;

verus! {

/// The host's number for the clock `clock_id`, if that is a clock WASI knows.
pub open spec fn unix_clock_id(clock_id: wasi::__wasi_clockid_t) -> Option<i32> {
    let ids = host::linux_clock_ids();
    if clock_id == wasi::__WASI_CLOCKID_REALTIME {
        Some(ids.realtime)
    } else if clock_id == wasi::__WASI_CLOCKID_MONOTONIC {
        Some(ids.monotonic)
    } else if clock_id == wasi::__WASI_CLOCKID_PROCESS_CPUTIME_ID {
        Some(ids.process_cputime)
    } else if clock_id == wasi::__WASI_CLOCKID_THREAD_CPUTIME_ID {
        Some(ids.thread_cputime)
    } else {
        None
    }
}

/// Converts the supported clocks to the host's, and refuses every other with `EINVAL`.
pub fn wasi_clock_id_to_unix(clock_id: wasi::__wasi_clockid_t) -> (result: Result<i32, Error>)
    ensures
        result == match unix_clock_id(clock_id) {
            Some(id) => Ok::<i32, Error>(id),
            None => Err::<i32, Error>(Error::EINVAL),
        },
{
    let ids = host::clock_ids();
    match clock_id {
        wasi::__WASI_CLOCKID_REALTIME => Ok(ids.realtime),
        wasi::__WASI_CLOCKID_MONOTONIC => Ok(ids.monotonic),
        wasi::__WASI_CLOCKID_PROCESS_CPUTIME_ID => Ok(ids.process_cputime),
        wasi::__WASI_CLOCKID_THREAD_CPUTIME_ID => Ok(ids.thread_cputime),
        _ => Err(Error::EINVAL),
    }
}

/// Nanoseconds in a second.
pub const NANOS_PER_SEC: u64 = 1_000_000_000;

/// The bits of `x` read as an unsigned integer: a negative value stands for a very large
/// one.
pub open spec fn unsigned(x: i64) -> int {
    if x < 0 {
        x + u64::MAX + 1
    } else {
        x as int
    }
}

/// The nanoseconds in `ts`, without any limit to their number.
pub open spec fn nanoseconds(ts: Timespec) -> int {
    unsigned(ts.tv_sec) * NANOS_PER_SEC + unsigned(ts.tv_nsec)
}

/// The nanoseconds in `ts` as a timestamp, or `EOVERFLOW` if they do not fit into one.
pub open spec fn timestamp(ts: Timespec) -> Result<wasi::__wasi_timestamp_t, Error> {
    if nanoseconds(ts) <= u64::MAX {
        Ok(nanoseconds(ts) as u64)
    } else {
        Err(Error::EOVERFLOW)
    }
}

/// The time that the host's reply comes to.
pub open spec fn clock_time(reply: Result<Timespec, i32>) -> Result<
    wasi::__wasi_timestamp_t,
    Error,
> {
    match reply {
        Ok(ts) => timestamp(ts),
        Err(errno) => Err(Error::Host(errno)),
    }
}

/// The resolution that the host's reply comes to. A clock without resolution is not a
/// clock: zero is `EINVAL`.
pub open spec fn clock_resolution(reply: Result<Timespec, i32>) -> Result<
    wasi::__wasi_timestamp_t,
    Error,
> {
    if clock_time(reply) == Ok::<u64, Error>(0u64) {
        Err(Error::EINVAL)
    } else {
        clock_time(reply)
    }
}

/// Reads the bits of `x` as an unsigned integer.
fn to_unsigned(x: i64) -> (u: u64)
    ensures
        u == unsigned(x),
{
    assert(x < 0 ==> x as u64 == x + 0x1_0000_0000_0000_0000) by (bit_vector);
    assert(x >= 0 ==> x as u64 == x) by (bit_vector);
    #[verifier::truncate]
    let u: u64 = x as u64;
    u
}

/// Converts `ts` to nanoseconds.
pub fn timestamp_from_timespec(ts: Timespec) -> (result: Result<wasi::__wasi_timestamp_t, Error>)
    ensures
        result == timestamp(ts),
{
    match to_unsigned(ts.tv_sec).checked_mul(NANOS_PER_SEC) {
        Some(sec_ns) => match sec_ns.checked_add(to_unsigned(ts.tv_nsec)) {
            Some(ns) => Ok(ns),
            None => Err(Error::EOVERFLOW),
        },
        None => Err(Error::EOVERFLOW),
    }
}

/// Says what the host's reply to a question for the time comes to.
pub fn clock_time_from_reply(reply: Result<Timespec, i32>) -> (result: Result<
    wasi::__wasi_timestamp_t,
    Error,
>)
    ensures
        result == clock_time(reply),
{
    match reply {
        Ok(ts) => timestamp_from_timespec(ts),
        Err(errno) => Err(errno_from_nix(errno)),
    }
}

/// Says what the host's reply to a question for a clock's resolution comes to.
pub fn clock_resolution_from_reply(reply: Result<Timespec, i32>) -> (result: Result<
    wasi::__wasi_timestamp_t,
    Error,
>)
    ensures
        result == clock_resolution(reply),
{
    match clock_time_from_reply(reply) {
        Ok(resolution) => if resolution == 0 {
            Err(Error::EINVAL)
        } else {
            Ok(resolution)
        },
        Err(error) => Err(error),
    }
}

/// The resolution of the clock `clock_id`, in nanoseconds.
///
/// What is returned is what the host's answer for that clock comes to, whatever it is.
pub fn clock_res_get(clock_id: wasi::__wasi_clockid_t) -> (result: Result<
    wasi::__wasi_timestamp_t,
    Error,
>)
    ensures
        match unix_clock_id(clock_id) {
            Some(id) => exists|reply: Result<Timespec, i32>|
                {
                    &&& #[trigger] host::may_be_resolution(id, reply)
                    &&& result == clock_resolution(reply)
                },
            None => result == Err::<u64, Error>(Error::EINVAL),
        },
        result matches Ok(resolution) ==> resolution > 0,
{
    match wasi_clock_id_to_unix(clock_id) {
        Ok(id) => clock_resolution_from_reply(host::clock_getres(id)),
        Err(error) => Err(error),
    }
}

/// The time on the clock `clock_id`, in nanoseconds.
///
/// What is returned is what the host's answer for that clock comes to, whatever it is.
pub fn clock_time_get(clock_id: wasi::__wasi_clockid_t) -> (result: Result<
    wasi::__wasi_timestamp_t,
    Error,
>)
    ensures
        match unix_clock_id(clock_id) {
            Some(id) => exists|reply: Result<Timespec, i32>|
                {
                    &&& #[trigger] host::may_be_time(id, reply)
                    &&& result == clock_time(reply)
                },
            None => result == Err::<u64, Error>(Error::EINVAL),
        },
{
    match wasi_clock_id_to_unix(clock_id) {
        Ok(id) => clock_time_from_reply(host::clock_gettime(id)),
        Err(error) => Err(error),
    }
}

/// A timespec as the host's clocks keep it: no negative part, and less than a second of
/// nanoseconds.
pub open spec fn normalized(ts: Timespec) -> bool {
    ts.tv_sec >= 0 && 0 <= ts.tv_nsec < NANOS_PER_SEC
}

/// Whether `a` comes before `b`.
pub open spec fn earlier(a: Timespec, b: Timespec) -> bool {
    a.tv_sec < b.tv_sec || (a.tv_sec == b.tv_sec && a.tv_nsec < b.tv_nsec)
}

/// Two clocks that differ for the guest differ for the host.
pub proof fn law_clocks_stay_distinct(a: wasi::__wasi_clockid_t, b: wasi::__wasi_clockid_t)
    requires
        unix_clock_id(a) is Some,
        unix_clock_id(a) == unix_clock_id(b),
    ensures
        a == b,
{
}

/// No reply of the host makes a resolution of zero.
pub proof fn law_resolution_is_positive(reply: Result<Timespec, i32>)
    ensures
        clock_resolution(reply) matches Ok(resolution) ==> resolution > 0,
{
}

/// The same reply is the same time and resolution, or the same error, but for zero.
pub proof fn law_resolution_differs_from_time_only_at_zero(reply: Result<Timespec, i32>)
    ensures
        clock_resolution(reply) != clock_time(reply) <==> clock_time(reply) == Ok::<u64, Error>(0),
{
}

/// Timestamps order the readings of a clock as the host orders them, so far as they fit.
pub proof fn law_timestamps_keep_order(a: Timespec, b: Timespec)
    requires
        normalized(a),
        normalized(b),
        timestamp(a) is Ok,
        timestamp(b) is Ok,
    ensures
        earlier(a, b) <==> timestamp(a)->Ok_0 < timestamp(b)->Ok_0,
        a == b <==> timestamp(a) == timestamp(b),
{
}

/// Once a reading does not fit into a timestamp, no later one does.
pub proof fn law_overflow_is_upward_closed(a: Timespec, b: Timespec)
    requires
        normalized(a),
        normalized(b),
        earlier(a, b),
        timestamp(a) is Err,
    ensures
        timestamp(b) == Err::<u64, Error>(Error::EOVERFLOW),
{
}

/// A time before the epoch is an overflow.
pub proof fn law_negative_seconds_overflow(ts: Timespec)
    requires
        ts.tv_sec < 0,
    ensures
        timestamp(ts) == Err::<u64, Error>(Error::EOVERFLOW),
{
}

/// Linux and WASI number the four clocks alike, and there is no other clock.
pub proof fn law_clock_numbers_coincide(clock_id: wasi::__wasi_clockid_t)
    ensures
        clock_id <= 3 ==> unix_clock_id(clock_id) == Some(clock_id as i32),
        clock_id > 3 ==> unix_clock_id(clock_id) is None,
{
}

/// A time that is not before the epoch comes to its seconds, a thousand million
/// nanoseconds each, and its nanoseconds; it is an overflow exactly if their sum takes more
/// than 64 bits.
pub proof fn law_time_is_counted_in_nanoseconds(ts: Timespec)
    requires
        ts.tv_sec >= 0,
        ts.tv_nsec >= 0,
    ensures
        match clock_time(Ok(ts)) {
            Ok(time) => time == ts.tv_sec * 1_000_000_000 + ts.tv_nsec,
            Err(error) => {
                &&& error == Error::EOVERFLOW
                &&& ts.tv_sec * 1_000_000_000 + ts.tv_nsec >= 0x1_0000_0000_0000_0000
            },
        },
        timestamp(ts) == clock_time(Ok(ts)),
{
}

/// A time with negative nanoseconds is that many short of the largest timestamp and one,
/// and an overflow if its seconds make up for them.
pub proof fn law_negative_nanoseconds_wrap(ts: Timespec)
    requires
        ts.tv_sec >= 0,
        ts.tv_nsec < 0,
    ensures
        match clock_time(Ok(ts)) {
            Ok(time) => time == ts.tv_sec * 1_000_000_000 + ts.tv_nsec + 0x1_0000_0000_0000_0000,
            Err(error) => {
                &&& error == Error::EOVERFLOW
                &&& ts.tv_sec * 1_000_000_000 + ts.tv_nsec >= 0
            },
        },
        timestamp(ts) == clock_time(Ok(ts)),
{
}

/// A time before the epoch is an overflow, whatever its nanoseconds, both as a time and as
/// a resolution.
pub proof fn law_time_before_the_epoch_overflows(ts: Timespec)
    requires
        ts.tv_sec < 0,
    ensures
        clock_time(Ok(ts)) == Err::<u64, Error>(Error::EOVERFLOW),
        clock_resolution(Ok(ts)) == Err::<u64, Error>(Error::EOVERFLOW),
{
}

/// A resolution is counted in nanoseconds as a time is. One of no nanoseconds is invalid.
pub proof fn law_resolution_is_counted_in_nanoseconds(ts: Timespec)
    requires
        ts.tv_sec >= 0,
        ts.tv_nsec >= 0,
    ensures
        match clock_resolution(Ok(ts)) {
            Ok(resolution) => {
                &&& resolution == ts.tv_sec * 1_000_000_000 + ts.tv_nsec
                &&& ts.tv_sec > 0 || ts.tv_nsec > 0
            },
            Err(error) => {
                ||| error == Error::EINVAL && ts.tv_sec == 0 && ts.tv_nsec == 0
                ||| error == Error::EOVERFLOW && ts.tv_sec * 1_000_000_000 + ts.tv_nsec
                    >= 0x1_0000_0000_0000_0000
            },
        },
{
}

/// Where the host fails, the guest is told the host's error and no other, of a time as of
/// a resolution.
pub proof fn law_host_failure_is_told(errno: i32)
    ensures
        clock_time(Err(errno)) == Err::<u64, Error>(Error::Host(errno)),
        clock_resolution(Err(errno)) == Err::<u64, Error>(Error::Host(errno)),
{
}

/// Between two readings that fit, as many nanoseconds pass for the guest as for the host.
pub proof fn law_time_passes_alike(a: Timespec, b: Timespec)
    requires
        a.tv_sec >= 0,
        a.tv_nsec >= 0,
        b.tv_sec >= 0,
        b.tv_nsec >= 0,
        clock_time(Ok(a)) is Ok,
        clock_time(Ok(b)) is Ok,
    ensures
        clock_time(Ok(b))->Ok_0 - clock_time(Ok(a))->Ok_0 == (b.tv_sec - a.tv_sec) * 1_000_000_000
            + (b.tv_nsec - a.tv_nsec),
{
}

} // verus!
