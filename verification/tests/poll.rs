use wasi_common::error::Error;
use wasi_common::poll::{
    handle_ready_event, poll_oneoff, poll_oneoff_handle_fd_event,
    poll_oneoff_handle_timeout_event, poll_oneoff_resume, ready_events, wants_available,
    ClockEventData, FdEventData, PollCall, PollFd, PollNext, PollStart, ReadyEvent,
};
use wasi_common::wasi::{
    __wasi_event_fd_readwrite_t, __wasi_event_t, __wasi_event_u_t, __WASI_ERRNO_BADF,
    __WASI_ERRNO_IO, __WASI_ERRNO_SUCCESS, __WASI_EVENTRWFLAGS_FD_READWRITE_HANGUP,
    __WASI_EVENTTYPE_CLOCK, __WASI_EVENTTYPE_FD_READ, __WASI_EVENTTYPE_FD_WRITE,
};

fn clock(delay: u128, userdata: u64) -> ClockEventData {
    ClockEventData { delay, userdata }
}

fn reading(descriptor: i32, userdata: u64) -> FdEventData {
    FdEventData { descriptor, type_: __WASI_EVENTTYPE_FD_READ, userdata }
}

fn writing(descriptor: i32, userdata: u64) -> FdEventData {
    FdEventData { descriptor, type_: __WASI_EVENTTYPE_FD_WRITE, userdata }
}

fn ready(fd_event: FdEventData, revents: i16, available: i32) -> ReadyEvent {
    ReadyEvent { fd_event, revents, available }
}

fn event(userdata: u64, type_: u8, error: u16, nbytes: u64, flags: u16) -> __wasi_event_t {
    __wasi_event_t {
        userdata,
        error,
        type_,
        u: __wasi_event_u_t { fd_readwrite: __wasi_event_fd_readwrite_t { nbytes, flags } },
    }
}

fn call_of(start: PollStart) -> PollCall {
    match start {
        PollStart::Poll(call) => call,
        PollStart::Done => panic!("nothing to wait for"),
    }
}

fn timeout_of(delay: u128) -> i32 {
    call_of(poll_oneoff(Some(clock(delay, 0)), &vec![])).timeout
}

#[test]
fn nothing_to_wait_for_is_over_at_once() {
    assert!(matches!(poll_oneoff(None, &vec![]), PollStart::Done));
}

#[test]
fn descriptors_are_polled_in_their_order() {
    let call = call_of(poll_oneoff(None, &vec![reading(7, 1), writing(5, 2), reading(5, 3)]));
    assert_eq!(call.timeout, -1);
    assert_eq!(
        call.fds,
        vec![
            PollFd { fd: 7, events: libc::POLLIN },
            PollFd { fd: 5, events: libc::POLLOUT },
            PollFd { fd: 5, events: libc::POLLIN },
        ]
    );
    assert_eq!(call.fds[0].events, 1);
    assert_eq!(call.fds[1].events, 4);
}

#[test]
fn a_timeout_alone_is_polled_without_descriptors() {
    let call = call_of(poll_oneoff(Some(clock(2_000_000, 0)), &vec![]));
    assert_eq!(call.timeout, 2);
    assert!(call.fds.is_empty());
}

#[test]
fn delays_are_rounded_down_to_milliseconds() {
    assert_eq!(timeout_of(0), 0);
    assert_eq!(timeout_of(999_999), 0);
    assert_eq!(timeout_of(1_000_000), 1);
    assert_eq!(timeout_of(1_999_999), 1);
    assert_eq!(timeout_of(1_500_000_000), 1500);
}

#[test]
fn delays_are_limited_to_what_poll_takes() {
    assert_eq!(timeout_of(2_147_483_647_000_000), i32::MAX);
    assert_eq!(timeout_of(2_147_483_646_999_999), i32::MAX - 1);
    assert_eq!(timeout_of(2_147_483_648_000_000), i32::MAX);
    assert_eq!(timeout_of(u128::MAX), i32::MAX);
}

#[test]
fn longer_delays_are_not_waited_for_less() {
    let delays = [0u128, 1, 999_999, 1_000_000, 5_000_000, 1u128 << 60, u128::MAX];
    for pair in delays.windows(2) {
        assert!(timeout_of(pair[0]) <= timeout_of(pair[1]));
    }
}

#[test]
fn an_interrupted_poll_is_repeated() {
    let mut events = vec![event(9, 0, 0, 0, 0)];
    let next = poll_oneoff_resume(Some(clock(1, 1)), 3, Err(libc::EINTR), &mut events);
    assert_eq!(next, PollNext::Retry);
    assert_eq!(events, vec![event(9, 0, 0, 0, 0)]);
}

#[test]
fn any_other_failure_of_poll_is_the_end() {
    let mut events = vec![];
    for errno in [libc::EBADF, libc::EFAULT, libc::EINVAL, libc::ENOMEM] {
        let next = poll_oneoff_resume(Some(clock(1, 1)), 3, Err(errno), &mut events);
        assert_eq!(next, PollNext::Fail(Error::Host(errno)));
    }
    assert!(events.is_empty());
}

#[test]
fn an_elapsed_timeout_is_reported() {
    let mut events = vec![event(9, 1, 0, 4, 0)];
    let next = poll_oneoff_resume(Some(clock(1, 42)), 3, Ok(0), &mut events);
    assert_eq!(next, PollNext::Done);
    assert_eq!(
        events,
        vec![
            event(9, 1, 0, 4, 0),
            event(42, __WASI_EVENTTYPE_CLOCK, __WASI_ERRNO_SUCCESS, 0, 0),
        ]
    );
}

#[test]
fn a_timeout_event_is_added_behind_the_others() {
    let mut events = vec![event(1, 1, 0, 0, 0)];
    poll_oneoff_handle_timeout_event(clock(5, 2), &mut events);
    poll_oneoff_handle_timeout_event(clock(6, 3), &mut events);
    assert_eq!(
        events,
        vec![event(1, 1, 0, 0, 0), event(2, 0, 0, 0, 0), event(3, 0, 0, 0, 0)]
    );
}

#[test]
fn as_many_descriptors_are_looked_at_as_are_ready() {
    let mut events = vec![];
    assert_eq!(poll_oneoff_resume(None, 3, Ok(1), &mut events), PollNext::Collect(1));
    assert_eq!(poll_oneoff_resume(None, 3, Ok(3), &mut events), PollNext::Collect(3));
    assert_eq!(poll_oneoff_resume(None, 3, Ok(4), &mut events), PollNext::Collect(3));
    assert_eq!(poll_oneoff_resume(Some(clock(1, 1)), 2, Ok(1), &mut events), PollNext::Collect(1));
    assert!(events.is_empty());
}

#[test]
fn only_reading_asks_for_the_available_bytes() {
    assert!(wants_available(&reading(1, 1), 0));
    assert!(wants_available(&reading(1, 1), libc::POLLHUP));
    assert!(wants_available(&reading(1, 1), 0x3ff));
    assert!(!wants_available(&reading(1, 1), libc::POLLRDHUP));
    assert!(!wants_available(&writing(1, 1), libc::POLLOUT));
}

#[test]
fn readable_and_writable_descriptors_are_reported() {
    assert_eq!(
        handle_ready_event(&ready(reading(3, 11), libc::POLLIN, 17)),
        Some(Ok(event(11, __WASI_EVENTTYPE_FD_READ, __WASI_ERRNO_SUCCESS, 17, 0)))
    );
    assert_eq!(
        handle_ready_event(&ready(writing(3, 12), libc::POLLOUT, 17)),
        Some(Ok(event(12, __WASI_EVENTTYPE_FD_WRITE, __WASI_ERRNO_SUCCESS, 0, 0)))
    );
    assert_eq!(
        handle_ready_event(&ready(reading(3, 13), libc::POLLIN | libc::POLLOUT, i32::MAX)),
        Some(Ok(event(13, __WASI_EVENTTYPE_FD_READ, __WASI_ERRNO_SUCCESS, 2_147_483_647, 0)))
    );
}

#[test]
fn trouble_is_reported_by_its_weight() {
    let all = libc::POLLIN | libc::POLLOUT | libc::POLLERR | libc::POLLHUP | libc::POLLNVAL;
    let hangup = __WASI_EVENTRWFLAGS_FD_READWRITE_HANGUP;
    let report = |revents: i16| handle_ready_event(&ready(reading(3, 1), revents, 5));
    let expected = |error: u16| Some(Ok(event(1, __WASI_EVENTTYPE_FD_READ, error, 0, hangup)));
    assert_eq!(report(all), expected(__WASI_ERRNO_BADF));
    assert_eq!(report(libc::POLLNVAL), expected(__WASI_ERRNO_BADF));
    assert_eq!(report(all & !libc::POLLNVAL), expected(__WASI_ERRNO_IO));
    assert_eq!(report(libc::POLLERR), expected(__WASI_ERRNO_IO));
    assert_eq!(report(libc::POLLHUP | libc::POLLIN), expected(__WASI_ERRNO_SUCCESS));
    assert_eq!(report(libc::POLLHUP), expected(__WASI_ERRNO_SUCCESS));
}

#[test]
fn other_conditions_are_not_reported() {
    assert_eq!(handle_ready_event(&ready(reading(3, 1), 0, 5)), None);
    assert_eq!(handle_ready_event(&ready(reading(3, 1), libc::POLLPRI, 5)), None);
}

#[test]
fn unknown_conditions_silence_a_descriptor() {
    let known = libc::POLLIN | libc::POLLRDNORM | libc::POLLRDBAND;
    assert!(handle_ready_event(&ready(reading(3, 1), known, 5)).is_some());
    assert_eq!(handle_ready_event(&ready(reading(3, 1), known | libc::POLLRDHUP, 5)), None);
    assert_eq!(handle_ready_event(&ready(reading(3, 1), libc::POLLNVAL | 0x400, 5)), None);
    assert_eq!(handle_ready_event(&ready(reading(3, 1), -1, 5)), None);
}

#[test]
fn a_negative_number_of_bytes_is_a_failure() {
    assert_eq!(
        handle_ready_event(&ready(reading(3, 1), libc::POLLIN, -1)),
        Some(Err(Error::TryFromInt))
    );
    assert_eq!(
        handle_ready_event(&ready(reading(3, 1), libc::POLLHUP, -1)),
        Some(Ok(event(1, __WASI_EVENTTYPE_FD_READ, __WASI_ERRNO_SUCCESS, 0, 1)))
    );
    assert_eq!(
        handle_ready_event(&ready(writing(3, 1), libc::POLLOUT, -1)),
        Some(Ok(event(1, __WASI_EVENTTYPE_FD_WRITE, __WASI_ERRNO_SUCCESS, 0, 0)))
    );
}

#[test]
fn events_are_added_in_the_order_of_the_descriptors() {
    let mut events = vec![event(9, 0, 0, 0, 0)];
    let result = poll_oneoff_handle_fd_event(
        &vec![
            ready(reading(3, 1), libc::POLLIN, 6),
            ready(reading(4, 2), 0, 7),
            ready(reading(5, 3), libc::POLLIN | libc::POLLRDHUP, 8),
            ready(writing(6, 4), libc::POLLOUT, 9),
        ],
        &mut events,
    );
    assert_eq!(result, Ok(()));
    assert_eq!(
        events,
        vec![event(9, 0, 0, 0, 0), event(1, 1, 0, 6, 0), event(4, 2, 0, 0, 0)]
    );
}

#[test]
fn a_failure_keeps_the_events_before_it() {
    let mut events = vec![];
    let result = poll_oneoff_handle_fd_event(
        &vec![
            ready(reading(3, 1), libc::POLLIN, 6),
            ready(reading(4, 2), libc::POLLIN, -7),
            ready(reading(5, 3), libc::POLLIN, 8),
        ],
        &mut events,
    );
    assert_eq!(result, Err(Error::TryFromInt));
    assert_eq!(events, vec![event(1, 1, 0, 6, 0)]);
}

#[test]
fn two_goes_make_the_same_events_as_one() {
    let all = vec![
        ready(reading(3, 1), libc::POLLIN, 6),
        ready(writing(4, 2), libc::POLLERR, 0),
        ready(reading(5, 3), libc::POLLHUP, 8),
    ];
    let mut at_once = vec![];
    let mut in_two = vec![];
    assert_eq!(poll_oneoff_handle_fd_event(&all, &mut at_once), Ok(()));
    assert_eq!(poll_oneoff_handle_fd_event(&all[..1].to_vec(), &mut in_two), Ok(()));
    assert_eq!(poll_oneoff_handle_fd_event(&all[1..].to_vec(), &mut in_two), Ok(()));
    assert_eq!(at_once, in_two);
    assert_eq!(at_once.len(), 3);
}

#[test]
fn no_ready_descriptors_make_no_events() {
    let mut events = vec![];
    assert_eq!(poll_oneoff_handle_fd_event(&vec![], &mut events), Ok(()));
    assert!(events.is_empty());
}

#[test]
fn subscriptions_are_paired_from_the_first_on() {
    let fd_events = vec![reading(3, 1), writing(4, 2), reading(5, 3)];
    let revents = vec![0, libc::POLLOUT, libc::POLLIN];
    assert_eq!(
        ready_events(&fd_events, &revents, 2),
        vec![ready(reading(3, 1), 0, 0), ready(writing(4, 2), libc::POLLOUT, 0)]
    );
    assert_eq!(ready_events(&fd_events, &revents, 0), vec![]);
    assert_eq!(ready_events(&fd_events, &revents, 3).len(), 3);
    assert_eq!(ready_events(&fd_events, &revents, 9).len(), 3);
    assert_eq!(ready_events(&fd_events, &vec![libc::POLLIN], 2).len(), 1);
}

#[test]
fn only_the_first_descriptors_make_events() {
    let fd_events = vec![reading(3, 1), writing(4, 2), reading(5, 3)];
    let revents = vec![0, libc::POLLOUT, libc::POLLIN];
    let mut events = vec![];
    assert_eq!(poll_oneoff_resume(None, 3, Ok(2), &mut events), PollNext::Collect(2));
    let collected = ready_events(&fd_events, &revents, 2);
    assert_eq!(poll_oneoff_handle_fd_event(&collected, &mut events), Ok(()));
    assert_eq!(
        events,
        vec![event(2, __WASI_EVENTTYPE_FD_WRITE, __WASI_ERRNO_SUCCESS, 0, 0)]
    );
}
