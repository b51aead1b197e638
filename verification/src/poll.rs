//! `poll_oneoff`: waiting for a timeout and for conditions on file descriptors.
//!
//! A call runs in steps, with the host in between. `poll_oneoff` says what to wait for.
//! After each wait `poll_oneoff_resume` says how to go on, and handles an elapsed
//! timeout. If file descriptors became ready, `ready_events` puts the subscriptions
//! together with what the host found on them, and `poll_oneoff_handle_fd_event` turns that
//! into events.

use crate::error::{errno_from_nix, Error};
use crate::host;
use crate::wasi;
use vstd::prelude::*;

verus! {

/// A timeout to wait for.
#[derive(Clone, Copy, Debug, PartialEq, Eq, Structural)]
pub struct ClockEventData {
    /// How long to wait, in nanoseconds.
    pub delay: u128,
    pub userdata: wasi::__wasi_userdata_t,
}

/// A file descriptor to wait for. The host knows it as `descriptor`.
#[derive(Clone, Copy, Debug, PartialEq, Eq, Structural)]
pub struct FdEventData {
    pub descriptor: i32,
    pub type_: wasi::__wasi_eventtype_t,
    pub userdata: wasi::__wasi_userdata_t,
}

/// What the host found on a file descriptor that was waited for.
#[derive(Clone, Copy, Debug, PartialEq, Eq, Structural)]
pub struct ReadyEvent {
    pub fd_event: FdEventData,
    /// The conditions that hold, as the `poll` bits that the host has set.
    pub revents: i16,
    /// The number of bytes that can be read, zero until the host has found out. Only
    /// looked at if `wants_available` asks for it.
    pub available: i32,
}

/// A file descriptor and the conditions on it to poll for.
#[derive(Clone, Copy, Debug, PartialEq, Eq, Structural)]
pub struct PollFd {
    pub fd: i32,
    pub events: i16,
}

/// The arguments of a call of `poll`.
#[derive(Debug)]
pub struct PollCall {
    pub fds: Vec<PollFd>,
    /// In milliseconds. A negative number stands for no timeout.
    pub timeout: i32,
}

/// The first step of a `poll_oneoff`.
#[derive(Debug)]
pub enum PollStart {
    /// There is nothing to wait for.
    Done,
    /// The host is to call `poll`.
    Poll(PollCall),
}

/// The step of a `poll_oneoff` after `poll` has returned.
#[derive(Clone, Copy, Debug, PartialEq, Eq, Structural)]
pub enum PollNext {
    /// The same call of `poll` is to be made again.
    Retry,
    /// The given number of file descriptors are to be looked at, from the first on: see
    /// `ready_events`.
    Collect(usize),
    /// The `poll_oneoff` is over.
    Done,
    /// The `poll_oneoff` has failed.
    Fail(Error),
}

/// Nanoseconds in a millisecond.
pub const NANOS_PER_MILLI: u128 = 1_000_000;

/// Whether `type_` is a kind of event that a file descriptor can have.
pub open spec fn is_fd_type(type_: wasi::__wasi_eventtype_t) -> bool {
    type_ == wasi::__WASI_EVENTTYPE_FD_READ || type_ == wasi::__WASI_EVENTTYPE_FD_WRITE
}

/// Whether every one of `fd_events` is of a kind that a file descriptor can have.
pub open spec fn are_fd_events(fd_events: Seq<FdEventData>) -> bool {
    forall|i: int| 0 <= i < fd_events.len() ==> is_fd_type(#[trigger] fd_events[i].type_)
}

/// What to poll for on behalf of `fd_event`: its file descriptor, and readability or
/// writability.
pub open spec fn poll_fd(fd_event: FdEventData) -> PollFd {
    PollFd {
        fd: fd_event.descriptor,
        events: if fd_event.type_ == wasi::__WASI_EVENTTYPE_FD_READ {
            host::linux_poll_bits().pollin
        } else {
            host::linux_poll_bits().pollout
        },
    }
}

/// The timeout in milliseconds to poll with: the delay rounded down, at most as much as
/// `poll` can be told, or forever.
pub open spec fn poll_timeout(timeout: Option<ClockEventData>) -> int {
    match timeout {
        Some(clock) => if clock.delay / NANOS_PER_MILLI <= i32::MAX {
            (clock.delay / NANOS_PER_MILLI) as int
        } else {
            i32::MAX as int
        },
        None => -1,
    }
}

/// The event that an elapsed timeout makes.
pub open spec fn clock_event(timeout: ClockEventData) -> wasi::__wasi_event_t {
    wasi::__wasi_event_t {
        userdata: timeout.userdata,
        type_: wasi::__WASI_EVENTTYPE_CLOCK,
        error: wasi::__WASI_ERRNO_SUCCESS,
        u: wasi::__wasi_event_u_t {
            fd_readwrite: wasi::__wasi_event_fd_readwrite_t { nbytes: 0, flags: 0 },
        },
    }
}

/// How many of `len` file descriptors are looked at if `poll` counts `ready` of them.
pub open spec fn collected(ready: i32, len: nat) -> nat {
    if 0 <= ready <= len {
        ready as nat
    } else {
        len
    }
}

/// How a `poll_oneoff` for `nfds` file descriptors goes on after `poll` has returned.
pub open spec fn next_step(nfds: nat, reply: Result<i32, i32>) -> PollNext {
    match reply {
        Ok(ready) => if ready == 0 {
            PollNext::Done
        } else {
            PollNext::Collect(collected(ready, nfds) as usize)
        },
        Err(errno) => if errno == host::linux_eintr() {
            PollNext::Retry
        } else {
            PollNext::Fail(Error::Host(errno))
        },
    }
}

/// The events that the return of `poll` makes by itself: that of the timeout, if it has
/// elapsed before anything became ready.
pub open spec fn elapsed(timeout: Option<ClockEventData>, reply: Result<i32, i32>) -> Seq<
    wasi::__wasi_event_t,
> {
    match timeout {
        Some(clock) if reply == Ok::<i32, i32>(0) => seq![clock_event(clock)],
        _ => Seq::empty(),
    }
}

/// Adds the event of an elapsed timeout to `events`.
pub fn poll_oneoff_handle_timeout_event(
    timeout: ClockEventData,
    events: &mut Vec<wasi::__wasi_event_t>,
)
    ensures
        final(events)@ == old(events)@.push(clock_event(timeout)),
{
    events.push(
        wasi::__wasi_event_t {
            userdata: timeout.userdata,
            type_: wasi::__WASI_EVENTTYPE_CLOCK,
            error: wasi::__WASI_ERRNO_SUCCESS,
            u: wasi::__wasi_event_u_t {
                fd_readwrite: wasi::__wasi_event_fd_readwrite_t { nbytes: 0, flags: 0 },
            },
        },
    );
}

/// Begins a `poll_oneoff` that waits for `timeout` and for `fd_events`.
pub fn poll_oneoff(timeout: Option<ClockEventData>, fd_events: &Vec<FdEventData>) -> (start:
    PollStart)
    requires
        are_fd_events(fd_events@),
    ensures
        match start {
            PollStart::Done => fd_events@.len() == 0 && timeout is None,
            PollStart::Poll(call) => {
                &&& fd_events@.len() > 0 || timeout is Some
                &&& call.fds@ == fd_events@.map_values(|fd_event: FdEventData| poll_fd(fd_event))
                &&& call.timeout == poll_timeout(timeout)
            },
        },
{
    if fd_events.len() == 0 && timeout.is_none() {
        return PollStart::Done;
    }
    let bits = host::poll_bits();
    let mut fds: Vec<PollFd> = Vec::new();
    let mut i: usize = 0;
    while i < fd_events.len()
        invariant
            i <= fd_events@.len(),
            are_fd_events(fd_events@),
            bits == host::linux_poll_bits(),
            fds@ == fd_events@.take(i as int).map_values(
                |fd_event: FdEventData| poll_fd(fd_event),
            ),
        decreases fd_events@.len() - i,
    {
        let fd_event = fd_events[i];
        assert(is_fd_type(fd_events@[i as int].type_));
        let events: i16 = match fd_event.type_ {
            wasi::__WASI_EVENTTYPE_FD_READ => bits.pollin,
            _ => bits.pollout,
        };
        fds.push(PollFd { fd: fd_event.descriptor, events });
        assert(fd_events@.take(i + 1) =~= fd_events@.take(i as int).push(fd_event));
        i += 1;
    }
    assert(fd_events@.take(i as int) =~= fd_events@);
    let timeout: i32 = match timeout {
        Some(clock) => {
            // `poll` takes milliseconds.
            match i32::try_from(clock.delay / NANOS_PER_MILLI) {
                Ok(delay) => delay,
                Err(_) => i32::MAX,
            }
        },
        None => -1,
    };
    PollStart::Poll(PollCall { fds, timeout })
}

/// Goes on with a `poll_oneoff` for `timeout` and `nfds` file descriptors after `poll`
/// has returned: `reply` is the number of file descriptors that became ready, or the
/// `errno` number that the call failed with.
pub fn poll_oneoff_resume(
    timeout: Option<ClockEventData>,
    nfds: usize,
    reply: Result<i32, i32>,
    events: &mut Vec<wasi::__wasi_event_t>,
) -> (next: PollNext)
    requires
        reply == Ok::<i32, i32>(0) ==> timeout is Some,
    ensures
        next == next_step(nfds as nat, reply),
        final(events)@ == old(events)@ + elapsed(timeout, reply),
{
    match reply {
        Err(errno) => if errno == host::eintr() {
            PollNext::Retry
        } else {
            PollNext::Fail(errno_from_nix(errno))
        },
        Ok(ready) => if ready == 0 {
            if let Some(clock) = timeout {
                poll_oneoff_handle_timeout_event(clock, events);
            }
            PollNext::Done
        } else if 0 <= ready && (ready as usize) < nfds {
            PollNext::Collect(ready as usize)
        } else {
            PollNext::Collect(nfds)
        },
    }
}

/// The event that a file descriptor makes.
pub open spec fn fd_event_report(
    fd_event: FdEventData,
    error: wasi::__wasi_errno_t,
    nbytes: wasi::__wasi_filesize_t,
    flags: wasi::__wasi_eventrwflags_t,
) -> wasi::__wasi_event_t {
    wasi::__wasi_event_t {
        userdata: fd_event.userdata,
        type_: fd_event.type_,
        error,
        u: wasi::__wasi_event_u_t {
            fd_readwrite: wasi::__wasi_event_fd_readwrite_t { nbytes, flags },
        },
    }
}

/// Whether the number of bytes that can be read matters for a file descriptor: only if
/// it was waited on for reading, and its conditions are known.
pub open spec fn uses_available(fd_event: FdEventData, revents: i16) -> bool {
    host::are_known_poll_bits(revents) && fd_event.type_ == wasi::__WASI_EVENTTYPE_FD_READ
}

/// The number of bytes to report for `ready`.
pub open spec fn reported_bytes(ready: ReadyEvent) -> int {
    if ready.fd_event.type_ == wasi::__WASI_EVENTTYPE_FD_READ {
        ready.available as int
    } else {
        0
    }
}

/// What comes of a file descriptor that was looked at: nothing, an event, or a failure.
/// A descriptor that is not open comes first, then an error, then a hangup, and last
/// that it can be read or written.
pub open spec fn outcome(ready: ReadyEvent) -> Option<Result<wasi::__wasi_event_t, Error>> {
    let bits = host::linux_poll_bits();
    let hangup = wasi::__WASI_EVENTRWFLAGS_FD_READWRITE_HANGUP;
    if !host::are_known_poll_bits(ready.revents) {
        None
    } else if host::has_poll_bit(ready.revents, bits.pollnval) {
        Some(Ok(fd_event_report(ready.fd_event, wasi::__WASI_ERRNO_BADF, 0, hangup)))
    } else if host::has_poll_bit(ready.revents, bits.pollerr) {
        Some(Ok(fd_event_report(ready.fd_event, wasi::__WASI_ERRNO_IO, 0, hangup)))
    } else if host::has_poll_bit(ready.revents, bits.pollhup) {
        Some(Ok(fd_event_report(ready.fd_event, wasi::__WASI_ERRNO_SUCCESS, 0, hangup)))
    } else if host::has_poll_bit(ready.revents, bits.pollin) || host::has_poll_bit(
        ready.revents,
        bits.pollout,
    ) {
        if reported_bytes(ready) < 0 {
            Some(Err(Error::TryFromInt))
        } else {
            Some(
                Ok(
                    fd_event_report(
                        ready.fd_event,
                        wasi::__WASI_ERRNO_SUCCESS,
                        reported_bytes(ready) as u64,
                        0,
                    ),
                ),
            )
        }
    } else {
        None
    }
}

/// Whether looking at `ready` fails.
pub open spec fn fails(ready: ReadyEvent) -> bool {
    outcome(ready) matches Some(Err(_))
}

/// The events that `ready_events` make, in their order.
pub open spec fn reports(ready_events: Seq<ReadyEvent>) -> Seq<wasi::__wasi_event_t>
    decreases ready_events.len(),
{
    if ready_events.len() == 0 {
        Seq::empty()
    } else {
        match outcome(ready_events.last()) {
            Some(Ok(event)) => reports(ready_events.drop_last()).push(event),
            _ => reports(ready_events.drop_last()),
        }
    }
}

/// How many of `taken` pairs there are among `len` subscriptions and `found` answers.
pub open spec fn paired(len: nat, found: nat, taken: nat) -> nat {
    let both = if len <= found {
        len
    } else {
        found
    };
    if taken <= both {
        taken
    } else {
        both
    }
}

/// The first `taken` of `fd_events`, each with the conditions that the host found on it,
/// before the bytes that can be read are known.
pub open spec fn pairs(fd_events: Seq<FdEventData>, revents: Seq<i16>, taken: nat) -> Seq<
    ReadyEvent,
> {
    Seq::new(
        paired(fd_events.len(), revents.len(), taken),
        |i: int| ReadyEvent { fd_event: fd_events[i], revents: revents[i], available: 0 },
    )
}

/// Puts the first `taken` of `fd_events` together with the conditions that `poll` reported,
/// one for one and in their order. The numbers of bytes that can be read are left for the
/// host to fill in.
pub fn ready_events(fd_events: &Vec<FdEventData>, revents: &Vec<i16>, taken: usize) -> (ready: Vec<
    ReadyEvent,
>)
    ensures
        ready@ == pairs(fd_events@, revents@, taken as nat),
{
    let mut ready: Vec<ReadyEvent> = Vec::new();
    let mut i: usize = 0;
    while i < taken && i < fd_events.len() && i < revents.len()
        invariant
            i <= paired(fd_events@.len(), revents@.len(), taken as nat),
            ready@ == pairs(fd_events@, revents@, taken as nat).take(i as int),
        decreases taken - i,
    {
        ready.push(ReadyEvent { fd_event: fd_events[i], revents: revents[i], available: 0 });
        i += 1;
    }
    assert(pairs(fd_events@, revents@, taken as nat).take(i as int) =~= pairs(
        fd_events@,
        revents@,
        taken as nat,
    ));
    ready
}

/// Whether the host has to find out how many bytes can be read from a file descriptor
/// on which it found the conditions `revents`.
pub fn wants_available(fd_event: &FdEventData, revents: i16) -> (wanted: bool)
    ensures
        wanted == uses_available(*fd_event, revents),
{
    host::poll_flags_from_bits(revents).is_some() && fd_event.type_
        == wasi::__WASI_EVENTTYPE_FD_READ
}

/// Makes the event of a file descriptor.
fn new_fd_event(
    fd_event: FdEventData,
    error: wasi::__wasi_errno_t,
    nbytes: wasi::__wasi_filesize_t,
    flags: wasi::__wasi_eventrwflags_t,
) -> (event: wasi::__wasi_event_t)
    ensures
        event == fd_event_report(fd_event, error, nbytes, flags),
{
    wasi::__wasi_event_t {
        userdata: fd_event.userdata,
        type_: fd_event.type_,
        error,
        u: wasi::__wasi_event_u_t {
            fd_readwrite: wasi::__wasi_event_fd_readwrite_t { nbytes, flags },
        },
    }
}

/// Says what comes of a file descriptor that was looked at: nothing, an event, or a
/// failure.
pub fn handle_ready_event(ready: &ReadyEvent) -> (result: Option<
    Result<wasi::__wasi_event_t, Error>,
>)
    ensures
        result == outcome(*ready),
{
    let revents: i16 = match host::poll_flags_from_bits(ready.revents) {
        Some(revents) => revents,
        None => return None,
    };
    let bits = host::poll_bits();
    let fd_event = ready.fd_event;
    let hangup = wasi::__WASI_EVENTRWFLAGS_FD_READWRITE_HANGUP;
    let nbytes: i32 = if fd_event.type_ == wasi::__WASI_EVENTTYPE_FD_READ {
        ready.available
    } else {
        0
    };
    if host::poll_flags_contain(revents, bits.pollnval) {
        Some(Ok(new_fd_event(fd_event, wasi::__WASI_ERRNO_BADF, 0, hangup)))
    } else if host::poll_flags_contain(revents, bits.pollerr) {
        Some(Ok(new_fd_event(fd_event, wasi::__WASI_ERRNO_IO, 0, hangup)))
    } else if host::poll_flags_contain(revents, bits.pollhup) {
        Some(Ok(new_fd_event(fd_event, wasi::__WASI_ERRNO_SUCCESS, 0, hangup)))
    } else if host::poll_flags_contain(revents, bits.pollin) || host::poll_flags_contain(
        revents,
        bits.pollout,
    ) {
        match u64::try_from(nbytes) {
            Ok(nbytes) => Some(Ok(new_fd_event(fd_event, wasi::__WASI_ERRNO_SUCCESS, nbytes, 0))),
            Err(_) => Some(Err(Error::TryFromInt)),
        }
    } else {
        None
    }
}

/// Adds the events that `ready_events` make to `events`, up to the first failure.
pub fn poll_oneoff_handle_fd_event(
    ready_events: &Vec<ReadyEvent>,
    events: &mut Vec<wasi::__wasi_event_t>,
) -> (result: Result<(), Error>)
    ensures
        match result {
            Ok(()) => {
                &&& forall|i: int|
                    0 <= i < ready_events@.len() ==> !fails(#[trigger] ready_events@[i])
                &&& final(events)@ == old(events)@ + reports(ready_events@)
            },
            Err(error) => {
                &&& error == Error::TryFromInt
                &&& exists|n: int|
                    {
                        &&& 0 <= n < ready_events@.len()
                        &&& fails(#[trigger] ready_events@[n])
                        &&& forall|i: int| 0 <= i < n ==> !fails(#[trigger] ready_events@[i])
                        &&& final(events)@ == old(events)@ + reports(ready_events@.take(n))
                    }
            },
        },
{
    let mut i: usize = 0;
    while i < ready_events.len()
        invariant
            i <= ready_events@.len(),
            forall|j: int| 0 <= j < i ==> !fails(#[trigger] ready_events@[j]),
            events@ == old(events)@ + reports(ready_events@.take(i as int)),
        decreases ready_events@.len() - i,
    {
        proof {
            let longer = ready_events@.take(i + 1);
            assert(longer.drop_last() =~= ready_events@.take(i as int));
            assert(longer.last() == ready_events@[i as int]);
        }
        match handle_ready_event(&ready_events[i]) {
            Some(Ok(event)) => {
                events.push(event);
            },
            Some(Err(error)) => {
                assert(fails(ready_events@[i as int]));
                return Err(error);
            },
            None => {},
        }
        i += 1;
    }
    assert(ready_events@.take(i as int) =~= ready_events@);
    Ok(())
}

/// A timeout is never waited for longer than it was asked for, and shorter by less than
/// a millisecond, unless it is longer than `poll` can wait.
pub proof fn law_poll_timeout_rounds_down(clock: ClockEventData)
    ensures
        0 <= poll_timeout(Some(clock)) <= i32::MAX,
        poll_timeout(Some(clock)) * 1_000_000 <= clock.delay,
        poll_timeout(Some(clock)) < i32::MAX ==> clock.delay < (poll_timeout(Some(clock)) + 1)
            * 1_000_000,
{
}

/// A longer timeout is not waited for less.
pub proof fn law_poll_timeout_is_monotone(a: ClockEventData, b: ClockEventData)
    requires
        a.delay <= b.delay,
    ensures
        poll_timeout(Some(a)) <= poll_timeout(Some(b)),
{
}

/// Waiting is without limit exactly if there is no timeout.
pub proof fn law_poll_waits_forever_only_without_timeout(timeout: Option<ClockEventData>)
    ensures
        poll_timeout(timeout) < 0 <==> timeout is None,
        poll_timeout(timeout) >= -1,
{
}

/// An interruption, and nothing else, makes `poll` be called again, and it adds no event.
pub proof fn law_interruption_only_repeats(
    timeout: Option<ClockEventData>,
    nfds: nat,
    reply: Result<i32, i32>,
)
    ensures
        next_step(nfds, reply) == PollNext::Retry <==> reply == Err::<i32, i32>(
            host::linux_eintr(),
        ),
        next_step(nfds, reply) == PollNext::Retry ==> elapsed(timeout, reply).len() == 0,
{
}

/// Whenever `poll` counts some file descriptors as ready, as many are looked at, but no
/// more than there are.
pub proof fn law_ready_descriptors_are_looked_at(nfds: usize, ready: i32)
    requires
        ready > 0,
    ensures
        next_step(nfds as nat, Ok(ready)) == PollNext::Collect(
            if ready <= nfds {
                ready as usize
            } else {
                nfds
            },
        ),
{
}

/// Looking at file descriptors in two goes makes the same events as in one.
pub proof fn law_reports_concatenate(a: Seq<ReadyEvent>, b: Seq<ReadyEvent>)
    ensures
        reports(a + b) == reports(a) + reports(b),
    decreases b.len(),
{
    if b.len() == 0 {
        assert(a + b =~= a);
    } else {
        law_reports_concatenate(a, b.drop_last());
        assert((a + b).drop_last() =~= a + b.drop_last());
        assert((a + b).last() == b.last());
    }
}

/// No file descriptor makes more than one event.
pub proof fn law_one_report_each(ready_events: Seq<ReadyEvent>)
    ensures
        reports(ready_events).len() <= ready_events.len(),
    decreases ready_events.len(),
{
    if ready_events.len() > 0 {
        law_one_report_each(ready_events.drop_last());
    }
}

/// A file descriptor that makes an event finds it among the events, behind those of the
/// file descriptors before it.
pub proof fn law_every_outcome_is_reported(
    ready_events: Seq<ReadyEvent>,
    i: int,
    event: wasi::__wasi_event_t,
)
    requires
        0 <= i < ready_events.len(),
        outcome(ready_events[i]) == Some(Ok::<wasi::__wasi_event_t, Error>(event)),
    ensures
        reports(ready_events.take(i)).len() < reports(ready_events).len(),
        reports(ready_events)[reports(ready_events.take(i)).len() as int] == event,
{
    let first = ready_events.take(i + 1);
    let rest = ready_events.skip(i + 1);
    assert(first.drop_last() =~= ready_events.take(i));
    assert(first + rest =~= ready_events);
    law_reports_concatenate(first, rest);
}

/// Every event is made by one of the file descriptors, and carries its user data and its
/// kind.
pub proof fn law_every_report_has_its_subscription(ready_events: Seq<ReadyEvent>, k: int)
    requires
        0 <= k < reports(ready_events).len(),
    ensures
        exists|i: int|
            {
                &&& 0 <= i < ready_events.len()
                &&& reports(ready_events.take(i)).len() == k
                &&& outcome(#[trigger] ready_events[i]) == Some(
                    Ok::<wasi::__wasi_event_t, Error>(reports(ready_events)[k]),
                )
                &&& reports(ready_events)[k].userdata == ready_events[i].fd_event.userdata
                &&& reports(ready_events)[k].type_ == ready_events[i].fd_event.type_
            },
    decreases ready_events.len(),
{
    let shorter = ready_events.drop_last();
    let last = ready_events.len() - 1;
    assert(ready_events.take(last) =~= shorter);
    if k < reports(shorter).len() {
        law_every_report_has_its_subscription(shorter, k);
        let i = choose|i: int|
            {
                &&& 0 <= i < shorter.len()
                &&& reports(shorter.take(i)).len() == k
                &&& outcome(#[trigger] shorter[i]) == Some(
                    Ok::<wasi::__wasi_event_t, Error>(reports(shorter)[k]),
                )
            };
        assert(shorter.take(i) =~= ready_events.take(i));
        assert(outcome(ready_events[i]) == outcome(shorter[i]));
    } else {
        assert(outcome(ready_events[last]) is Some);
    }
}

/// Every event of file descriptors comes from one of those that `poll` counted as ready,
/// taken from the first on, whatever numbers of bytes the host fills in.
pub proof fn law_events_come_from_the_first_descriptors(
    fd_events: Seq<FdEventData>,
    revents: Seq<i16>,
    taken: nat,
    ready: Seq<ReadyEvent>,
    k: int,
)
    requires
        ready.len() == pairs(fd_events, revents, taken).len(),
        forall|i: int|
            0 <= i < ready.len() ==> (#[trigger] ready[i]).fd_event == fd_events[i]
                && ready[i].revents == revents[i],
        0 <= k < reports(ready).len(),
    ensures
        exists|i: int|
            {
                &&& 0 <= i < taken
                &&& i < fd_events.len()
                &&& reports(ready)[k].userdata == (#[trigger] fd_events[i]).userdata
                &&& reports(ready)[k].type_ == fd_events[i].type_
                &&& host::are_known_poll_bits(revents[i])
            },
{
    law_every_report_has_its_subscription(ready, k);
    let i = choose|i: int|
        {
            &&& 0 <= i < ready.len()
            &&& outcome(#[trigger] ready[i]) == Some(
                Ok::<wasi::__wasi_event_t, Error>(reports(ready)[k]),
            )
        };
    assert(ready[i].fd_event == fd_events[i]);
}

/// An event that reports a hangup reports no bytes, and one that reports an error reports
/// a hangup too.
pub proof fn law_hangup_reports_no_bytes(ready: ReadyEvent)
    ensures
        outcome(ready) matches Some(Ok(event)) ==> {
            let flags = event.u.fd_readwrite.flags;
            &&& flags == 0 || flags == wasi::__WASI_EVENTRWFLAGS_FD_READWRITE_HANGUP
            &&& flags == wasi::__WASI_EVENTRWFLAGS_FD_READWRITE_HANGUP
                ==> event.u.fd_readwrite.nbytes == 0
            &&& event.error != wasi::__WASI_ERRNO_SUCCESS ==> flags
                == wasi::__WASI_EVENTRWFLAGS_FD_READWRITE_HANGUP
        },
{
}

/// The number of bytes that can be read is of no account where it is not asked for, so
/// that only waiting for reading can fail, and waiting for writing reports no bytes.
pub proof fn law_available_is_unused_unless_wanted(ready: ReadyEvent, available: i32)
    requires
        !uses_available(ready.fd_event, ready.revents),
    ensures
        outcome(ready) == outcome(ReadyEvent { available, ..ready }),
        !fails(ready),
        outcome(ready) matches Some(Ok(event)) ==> event.u.fd_readwrite.nbytes == 0,
{
}

/// A file descriptor comes to nothing exactly if its conditions are not known, or if it
/// has none of the five.
pub proof fn law_silent_only_without_conditions(ready: ReadyEvent)
    ensures
        outcome(ready) is None <==> !host::are_known_poll_bits(ready.revents) || forall|bit: i16|
            host::is_poll_bit(bit) ==> !host::has_poll_bit(ready.revents, bit),
{
    let bits = host::linux_poll_bits();
    assert(host::is_poll_bit(bits.pollnval));
    assert(host::is_poll_bit(bits.pollerr));
    assert(host::is_poll_bit(bits.pollhup));
    assert(host::is_poll_bit(bits.pollin));
    assert(host::is_poll_bit(bits.pollout));
}

/// Each subscription is polled on its own descriptor: for `POLLIN`, 0x1, to read, and for
/// `POLLOUT`, 0x4, to write. There is no other kind.
pub proof fn law_subscription_is_polled_for_its_kind(fd_event: FdEventData)
    ensures
        is_fd_type(fd_event.type_) <==> fd_event.type_ == wasi::__WASI_EVENTTYPE_FD_READ
            || fd_event.type_ == wasi::__WASI_EVENTTYPE_FD_WRITE,
        poll_fd(fd_event).fd == fd_event.descriptor,
        fd_event.type_ == wasi::__WASI_EVENTTYPE_FD_READ ==> poll_fd(fd_event).events == 0x1,
        fd_event.type_ == wasi::__WASI_EVENTTYPE_FD_WRITE ==> poll_fd(fd_event).events == 0x4,
{
}

/// All subscriptions can be polled exactly if each of them can.
pub proof fn law_subscriptions_are_of_two_kinds(fd_events: Seq<FdEventData>)
    ensures
        are_fd_events(fd_events) <==> forall|i: int|
            0 <= i < fd_events.len() ==> (#[trigger] fd_events[i]).type_
                == wasi::__WASI_EVENTTYPE_FD_READ || fd_events[i].type_
                == wasi::__WASI_EVENTTYPE_FD_WRITE,
{
    if are_fd_events(fd_events) {
        assert forall|i: int| 0 <= i < fd_events.len() implies (#[trigger] fd_events[i]).type_
            == wasi::__WASI_EVENTTYPE_FD_READ || fd_events[i].type_
            == wasi::__WASI_EVENTTYPE_FD_WRITE by {
            assert(is_fd_type(fd_events[i].type_));
        }
    }
}

/// An elapsed timeout is reported by one event, which carries the user data of the timeout
/// and nothing else, and it is reported exactly if nothing became ready.
pub proof fn law_elapsed_timeout_is_reported_once(
    clock: ClockEventData,
    reply: Result<i32, i32>,
)
    ensures
        clock_event(clock).userdata == clock.userdata,
        clock_event(clock).type_ == wasi::__WASI_EVENTTYPE_CLOCK,
        clock_event(clock).error == wasi::__WASI_ERRNO_SUCCESS,
        clock_event(clock).u.fd_readwrite.nbytes == 0,
        clock_event(clock).u.fd_readwrite.flags == 0,
        elapsed(Some(clock), reply) == if reply matches Ok(ready) && ready == 0 {
            seq![clock_event(clock)]
        } else {
            Seq::empty()
        },
        elapsed(None, reply).len() == 0,
{
}

/// What follows on the return of `poll`: the end if nothing became ready; a look at the
/// descriptors if some did; the same call again after `EINTR`, 4; and after any other
/// error the failure with that error.
pub proof fn law_every_return_of_poll_is_answered(nfds: usize, ready: i32, errno: i32)
    ensures
        next_step(nfds as nat, Ok(0)) is Done,
        ready != 0 ==> {
            &&& next_step(nfds as nat, Ok(ready)) is Collect
            &&& next_step(nfds as nat, Ok(ready))->Collect_0 <= nfds
            &&& 0 < ready <= nfds ==> next_step(nfds as nat, Ok(ready))->Collect_0 == ready
            &&& ready < 0 || ready > nfds ==> next_step(nfds as nat, Ok(ready))->Collect_0 == nfds
        },
        next_step(nfds as nat, Err(errno)) is Retry <==> errno == 4,
        errno != 4 ==> next_step(nfds as nat, Err(errno)) == PollNext::Fail(Error::Host(errno)),
{
}

/// A descriptor that is not open, `POLLNVAL`, 0x20, is reported as `BADF` with a hangup and
/// no bytes, whatever else holds of it.
pub proof fn law_closed_descriptor_is_reported(ready: ReadyEvent)
    requires
        ready.revents & 0x3ff == ready.revents,
        ready.revents & 0x20 == 0x20,
    ensures
        outcome(ready) matches Some(Ok(event)) && {
            &&& event.userdata == ready.fd_event.userdata
            &&& event.type_ == ready.fd_event.type_
            &&& event.error == wasi::__WASI_ERRNO_BADF
            &&& event.u.fd_readwrite.nbytes == 0
            &&& event.u.fd_readwrite.flags == wasi::__WASI_EVENTRWFLAGS_FD_READWRITE_HANGUP
        },
{
}

/// An error on an open descriptor, `POLLERR`, 0x8, is reported as `IO` with a hangup and no
/// bytes, whether it was waited on to read or to write, and whatever else holds of it.
pub proof fn law_error_is_reported(ready: ReadyEvent)
    requires
        ready.revents & 0x3ff == ready.revents,
        ready.revents & 0x8 == 0x8,
        ready.revents & 0x20 != 0x20,
    ensures
        outcome(ready) matches Some(Ok(event)) && {
            &&& event.userdata == ready.fd_event.userdata
            &&& event.type_ == ready.fd_event.type_
            &&& event.error == wasi::__WASI_ERRNO_IO
            &&& event.u.fd_readwrite.nbytes == 0
            &&& event.u.fd_readwrite.flags == wasi::__WASI_EVENTRWFLAGS_FD_READWRITE_HANGUP
        },
{
}

/// A hangup without an error, `POLLHUP`, 0x10, is reported as a success with a hangup and no
/// bytes, whatever can be read or written.
pub proof fn law_hangup_is_reported(ready: ReadyEvent)
    requires
        ready.revents & 0x3ff == ready.revents,
        ready.revents & 0x10 == 0x10,
        ready.revents & 0x8 != 0x8,
        ready.revents & 0x20 != 0x20,
    ensures
        outcome(ready) matches Some(Ok(event)) && {
            &&& event.userdata == ready.fd_event.userdata
            &&& event.type_ == ready.fd_event.type_
            &&& event.error == wasi::__WASI_ERRNO_SUCCESS
            &&& event.u.fd_readwrite.nbytes == 0
            &&& event.u.fd_readwrite.flags == wasi::__WASI_EVENTRWFLAGS_FD_READWRITE_HANGUP
        },
{
}

/// A descriptor without trouble that can be read or written, `POLLIN`, 0x1, or `POLLOUT`,
/// 0x4, is reported as a success without a hangup, with the bytes that can be read if it
/// was waited on to read, and with none otherwise. It fails exactly if that number of
/// bytes is negative.
pub proof fn law_readiness_is_reported(ready: ReadyEvent)
    requires
        ready.revents & 0x3ff == ready.revents,
        ready.revents & 0x1 == 0x1 || ready.revents & 0x4 == 0x4,
        ready.revents & 0x8 != 0x8,
        ready.revents & 0x10 != 0x10,
        ready.revents & 0x20 != 0x20,
    ensures
        ready.fd_event.type_ == wasi::__WASI_EVENTTYPE_FD_READ && ready.available < 0
            ==> outcome(ready) == Some(Err::<wasi::__wasi_event_t, Error>(Error::TryFromInt)),
        ready.fd_event.type_ != wasi::__WASI_EVENTTYPE_FD_READ || ready.available >= 0 ==> (
        outcome(ready) matches Some(Ok(event)) && {
            &&& event.userdata == ready.fd_event.userdata
            &&& event.type_ == ready.fd_event.type_
            &&& event.error == wasi::__WASI_ERRNO_SUCCESS
            &&& event.u.fd_readwrite.flags == 0
            &&& ready.fd_event.type_ == wasi::__WASI_EVENTTYPE_FD_READ
                ==> event.u.fd_readwrite.nbytes == ready.available
            &&& ready.fd_event.type_ != wasi::__WASI_EVENTTYPE_FD_READ
                ==> event.u.fd_readwrite.nbytes == 0
        }),
{
}

/// Nothing is reported of a descriptor that neither is in trouble nor can be read or
/// written, nor of one with conditions that are not known.
pub proof fn law_nothing_else_is_reported(ready: ReadyEvent)
    requires
        ready.revents & 0x3ff != ready.revents || {
            &&& ready.revents & 0x1 != 0x1
            &&& ready.revents & 0x4 != 0x4
            &&& ready.revents & 0x8 != 0x8
            &&& ready.revents & 0x10 != 0x10
            &&& ready.revents & 0x20 != 0x20
        },
    ensures
        outcome(ready) is None,
{
}

/// An event is without a hangup only if the descriptor was in none of the three kinds of
/// trouble, and an event without an error only if it was open and without an error.
pub proof fn law_no_trouble_is_hidden(ready: ReadyEvent)
    ensures
        outcome(ready) matches Some(Ok(event)) ==> {
            &&& event.u.fd_readwrite.flags == 0 <==> {
                &&& ready.revents & 0x8 != 0x8
                &&& ready.revents & 0x10 != 0x10
                &&& ready.revents & 0x20 != 0x20
            }
            &&& event.error == wasi::__WASI_ERRNO_SUCCESS <==> {
                &&& ready.revents & 0x8 != 0x8
                &&& ready.revents & 0x20 != 0x20
            }
        },
{
}

/// Looking at a descriptor fails only over a negative number of bytes to read, on a
/// descriptor without trouble.
pub proof fn law_failure_has_one_cause(ready: ReadyEvent)
    ensures
        fails(ready) <==> {
            &&& ready.revents & 0x3ff == ready.revents
            &&& ready.revents & 0x1 == 0x1 || ready.revents & 0x4 == 0x4
            &&& ready.revents & 0x8 != 0x8
            &&& ready.revents & 0x10 != 0x10
            &&& ready.revents & 0x20 != 0x20
            &&& ready.fd_event.type_ == wasi::__WASI_EVENTTYPE_FD_READ
            &&& ready.available < 0
        },
{
}

/// The host is asked for the bytes that can be read exactly for the descriptors that were
/// waited on to read and have only known conditions.
pub proof fn law_bytes_are_asked_for_to_read(fd_event: FdEventData, revents: i16)
    ensures
        uses_available(fd_event, revents) <==> {
            &&& fd_event.type_ == wasi::__WASI_EVENTTYPE_FD_READ
            &&& revents & 0x3ff == revents
        },
{
}

/// The user data and the descriptor have no say in what is reported but that the user data
/// are handed on.
pub proof fn law_user_data_are_only_handed_on(ready: ReadyEvent, other: ReadyEvent)
    requires
        ready.fd_event.type_ == other.fd_event.type_,
        ready.revents == other.revents,
        ready.available == other.available,
    ensures
        outcome(ready) is None <==> outcome(other) is None,
        fails(ready) <==> fails(other),
        outcome(ready) matches Some(Ok(event)) ==> outcome(other) == Some(
            Ok::<wasi::__wasi_event_t, Error>(
                wasi::__wasi_event_t { userdata: other.fd_event.userdata, ..event },
            ),
        ),
{
}

/// One descriptor makes the one event that comes of it, or none.
pub proof fn law_one_descriptor_makes_its_event(ready: ReadyEvent)
    ensures
        reports(Seq::empty()).len() == 0,
        outcome(ready) matches Some(Ok(event)) ==> reports(seq![ready]) == seq![event],
        !(outcome(ready) matches Some(Ok(_))) ==> reports(seq![ready]).len() == 0,
{
    assert(seq![ready].drop_last() =~= Seq::empty());
}

/// Subscriptions and answers are paired one for one, from the first on, until there are
/// enough or either runs out, with no bytes to read yet.
pub proof fn law_pairs_are_in_step(
    fd_events: Seq<FdEventData>,
    revents: Seq<i16>,
    taken: nat,
    i: int,
)
    ensures
        pairs(fd_events, revents, taken).len() <= taken,
        pairs(fd_events, revents, taken).len() <= fd_events.len(),
        pairs(fd_events, revents, taken).len() <= revents.len(),
        pairs(fd_events, revents, taken).len() == taken || pairs(fd_events, revents, taken).len()
            == fd_events.len() || pairs(fd_events, revents, taken).len() == revents.len(),
        0 <= i < pairs(fd_events, revents, taken).len() ==> {
            &&& pairs(fd_events, revents, taken)[i].fd_event == fd_events[i]
            &&& pairs(fd_events, revents, taken)[i].revents == revents[i]
            &&& pairs(fd_events, revents, taken)[i].available == 0
        },
{
}

} // verus!
