//! Types and constants of the WASI interface, under their names in the C headers.
#![allow(non_camel_case_types)]

use vstd::prelude::*;

verus! {

pub type __wasi_advice_t = u8;

pub const __WASI_ADVICE_NORMAL: __wasi_advice_t = 0;

pub const __WASI_ADVICE_SEQUENTIAL: __wasi_advice_t = 1;

pub const __WASI_ADVICE_RANDOM: __wasi_advice_t = 2;

pub const __WASI_ADVICE_WILLNEED: __wasi_advice_t = 3;

pub const __WASI_ADVICE_DONTNEED: __wasi_advice_t = 4;

pub const __WASI_ADVICE_NOREUSE: __wasi_advice_t = 5;

pub type __wasi_clockid_t = u32;

pub const __WASI_CLOCKID_REALTIME: __wasi_clockid_t = 0;

pub const __WASI_CLOCKID_MONOTONIC: __wasi_clockid_t = 1;

pub const __WASI_CLOCKID_PROCESS_CPUTIME_ID: __wasi_clockid_t = 2;

pub const __WASI_CLOCKID_THREAD_CPUTIME_ID: __wasi_clockid_t = 3;

pub type __wasi_dircookie_t = u64;

pub const __WASI_DIRCOOKIE_START: __wasi_dircookie_t = 0;

pub type __wasi_errno_t = u16;

pub const __WASI_ERRNO_SUCCESS: __wasi_errno_t = 0;

pub const __WASI_ERRNO_BADF: __wasi_errno_t = 8;

pub const __WASI_ERRNO_IO: __wasi_errno_t = 29;

pub type __wasi_eventrwflags_t = u16;

pub const __WASI_EVENTRWFLAGS_FD_READWRITE_HANGUP: __wasi_eventrwflags_t = 1;

pub type __wasi_eventtype_t = u8;

pub const __WASI_EVENTTYPE_CLOCK: __wasi_eventtype_t = 0;

pub const __WASI_EVENTTYPE_FD_READ: __wasi_eventtype_t = 1;

pub const __WASI_EVENTTYPE_FD_WRITE: __wasi_eventtype_t = 2;

pub type __wasi_filesize_t = u64;

pub type __wasi_timestamp_t = u64;

pub type __wasi_userdata_t = u64;

/// What a file descriptor event reports besides its kind: the bytes that can be read,
/// and whether the peer has hung up.
#[derive(Clone, Copy, Debug, PartialEq, Eq, Structural)]
pub struct __wasi_event_fd_readwrite_t {
    pub nbytes: __wasi_filesize_t,
    pub flags: __wasi_eventrwflags_t,
}

/// The part of an event that depends on its kind. File descriptor events are the only
/// kind that has one.
#[derive(Clone, Copy, Debug, PartialEq, Eq, Structural)]
pub struct __wasi_event_u_t {
    pub fd_readwrite: __wasi_event_fd_readwrite_t,
}

/// An event that occurred.
#[derive(Clone, Copy, Debug, PartialEq, Eq, Structural)]
pub struct __wasi_event_t {
    pub userdata: __wasi_userdata_t,
    pub error: __wasi_errno_t,
    pub type_: __wasi_eventtype_t,
    pub u: __wasi_event_u_t,
}

/// The constants have the numbers that a guest is compiled with.
pub proof fn law_numbers_of_the_interface()
    ensures
        __WASI_ADVICE_NORMAL == 0,
        __WASI_ADVICE_SEQUENTIAL == 1,
        __WASI_ADVICE_RANDOM == 2,
        __WASI_ADVICE_WILLNEED == 3,
        __WASI_ADVICE_DONTNEED == 4,
        __WASI_ADVICE_NOREUSE == 5,
        __WASI_CLOCKID_REALTIME == 0,
        __WASI_CLOCKID_MONOTONIC == 1,
        __WASI_CLOCKID_PROCESS_CPUTIME_ID == 2,
        __WASI_CLOCKID_THREAD_CPUTIME_ID == 3,
        __WASI_DIRCOOKIE_START == 0,
        __WASI_ERRNO_SUCCESS == 0,
        __WASI_ERRNO_BADF == 8,
        __WASI_ERRNO_IO == 29,
        __WASI_EVENTRWFLAGS_FD_READWRITE_HANGUP == 1,
        __WASI_EVENTTYPE_CLOCK == 0,
        __WASI_EVENTTYPE_FD_READ == 1,
        __WASI_EVENTTYPE_FD_WRITE == 2,
{
}

} // verus!
