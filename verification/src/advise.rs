//! Advice on the use of a file.
#![allow(non_camel_case_types)]

use crate::error::Error;
use crate::wasi;
use vstd::prelude::*;

verus! {

/// The advice that `posix_fadvise` takes, by the names it has there.
#[derive(Clone, Copy, Debug, PartialEq, Eq, Structural)]
pub enum PosixFadviseAdvice {
    POSIX_FADV_NORMAL,
    POSIX_FADV_SEQUENTIAL,
    POSIX_FADV_RANDOM,
    POSIX_FADV_NOREUSE,
    POSIX_FADV_WILLNEED,
    POSIX_FADV_DONTNEED,
}

/// The arguments of a call of `posix_fadvise`, but for the file.
#[derive(Clone, Copy, Debug, PartialEq, Eq, Structural)]
pub struct FadviseCall {
    pub offset: i64,
    pub len: i64,
    pub advice: PosixFadviseAdvice,
}

/// The host's advice for `advice`, if that is an advice WASI knows.
pub open spec fn host_advice(advice: wasi::__wasi_advice_t) -> Option<PosixFadviseAdvice> {
    if advice == wasi::__WASI_ADVICE_DONTNEED {
        Some(PosixFadviseAdvice::POSIX_FADV_DONTNEED)
    } else if advice == wasi::__WASI_ADVICE_SEQUENTIAL {
        Some(PosixFadviseAdvice::POSIX_FADV_SEQUENTIAL)
    } else if advice == wasi::__WASI_ADVICE_WILLNEED {
        Some(PosixFadviseAdvice::POSIX_FADV_WILLNEED)
    } else if advice == wasi::__WASI_ADVICE_NOREUSE {
        Some(PosixFadviseAdvice::POSIX_FADV_NOREUSE)
    } else if advice == wasi::__WASI_ADVICE_RANDOM {
        Some(PosixFadviseAdvice::POSIX_FADV_RANDOM)
    } else if advice == wasi::__WASI_ADVICE_NORMAL {
        Some(PosixFadviseAdvice::POSIX_FADV_NORMAL)
    } else {
        None
    }
}

/// The call that gives `advice` on the `len` bytes from `offset` on. A range that the
/// host cannot be told comes before an advice that is not known.
pub open spec fn fadvise_call(
    advice: wasi::__wasi_advice_t,
    offset: wasi::__wasi_filesize_t,
    len: wasi::__wasi_filesize_t,
) -> Result<FadviseCall, Error> {
    if offset > i64::MAX || len > i64::MAX {
        Err(Error::TryFromInt)
    } else {
        match host_advice(advice) {
            Some(advice) => Ok(FadviseCall { offset: offset as i64, len: len as i64, advice }),
            None => Err(Error::EINVAL),
        }
    }
}

/// Converts a file size to the host's type for it.
fn off_from_filesize(size: wasi::__wasi_filesize_t) -> (result: Result<i64, Error>)
    ensures
        result == if size <= i64::MAX {
            Ok::<i64, Error>(size as i64)
        } else {
            Err::<i64, Error>(Error::TryFromInt)
        },
{
    if size <= i64::MAX as u64 {
        Ok(size as i64)
    } else {
        Err(Error::TryFromInt)
    }
}

/// Prepares the call of `posix_fadvise` that gives `advice` on a part of a file.
pub fn fd_advise(
    advice: wasi::__wasi_advice_t,
    offset: wasi::__wasi_filesize_t,
    len: wasi::__wasi_filesize_t,
) -> (result: Result<FadviseCall, Error>)
    ensures
        result == fadvise_call(advice, offset, len),
{
    let offset: i64 = match off_from_filesize(offset) {
        Ok(offset) => offset,
        Err(error) => return Err(error),
    };
    let len: i64 = match off_from_filesize(len) {
        Ok(len) => len,
        Err(error) => return Err(error),
    };
    let advice = match advice {
        wasi::__WASI_ADVICE_DONTNEED => PosixFadviseAdvice::POSIX_FADV_DONTNEED,
        wasi::__WASI_ADVICE_SEQUENTIAL => PosixFadviseAdvice::POSIX_FADV_SEQUENTIAL,
        wasi::__WASI_ADVICE_WILLNEED => PosixFadviseAdvice::POSIX_FADV_WILLNEED,
        wasi::__WASI_ADVICE_NOREUSE => PosixFadviseAdvice::POSIX_FADV_NOREUSE,
        wasi::__WASI_ADVICE_RANDOM => PosixFadviseAdvice::POSIX_FADV_RANDOM,
        wasi::__WASI_ADVICE_NORMAL => PosixFadviseAdvice::POSIX_FADV_NORMAL,
        _ => return Err(Error::EINVAL),
    };
    Ok(FadviseCall { offset, len, advice })
}

/// Two pieces of advice that differ for the guest differ for the host.
pub proof fn law_advice_stays_distinct(a: wasi::__wasi_advice_t, b: wasi::__wasi_advice_t)
    requires
        host_advice(a) is Some,
        host_advice(a) == host_advice(b),
    ensures
        a == b,
{
}

/// Whatever the host is told of a range is what the guest asked for: no call wraps an
/// offset or a length around.
pub proof fn law_advised_range_is_unchanged(
    advice: wasi::__wasi_advice_t,
    offset: wasi::__wasi_filesize_t,
    len: wasi::__wasi_filesize_t,
)
    ensures
        fadvise_call(advice, offset, len) matches Ok(call) ==> {
            &&& call.offset == offset
            &&& call.len == len
            &&& call.offset >= 0
            &&& call.len >= 0
        },
{
}

/// Whenever a call is made, its advice is the guest's, whatever the range: each of the six
/// is told by its own name.
pub proof fn law_advice_is_told_by_its_name(
    advice: wasi::__wasi_advice_t,
    offset: wasi::__wasi_filesize_t,
    len: wasi::__wasi_filesize_t,
)
    requires
        fadvise_call(advice, offset, len) is Ok,
    ensures
        ({
            let told = fadvise_call(advice, offset, len)->Ok_0.advice;
            &&& advice == wasi::__WASI_ADVICE_NORMAL <==> told is POSIX_FADV_NORMAL
            &&& advice == wasi::__WASI_ADVICE_SEQUENTIAL <==> told is POSIX_FADV_SEQUENTIAL
            &&& advice == wasi::__WASI_ADVICE_RANDOM <==> told is POSIX_FADV_RANDOM
            &&& advice == wasi::__WASI_ADVICE_WILLNEED <==> told is POSIX_FADV_WILLNEED
            &&& advice == wasi::__WASI_ADVICE_DONTNEED <==> told is POSIX_FADV_DONTNEED
            &&& advice == wasi::__WASI_ADVICE_NOREUSE <==> told is POSIX_FADV_NOREUSE
        }),
{
}

/// A call is made for every known advice whose offset and length the host's type holds. A
/// range that it does not hold is refused for that, whatever the advice; a range that it
/// holds is refused only for an advice that is not known.
pub proof fn law_advice_is_refused_only_for_cause(
    advice: wasi::__wasi_advice_t,
    offset: wasi::__wasi_filesize_t,
    len: wasi::__wasi_filesize_t,
)
    ensures
        fadvise_call(advice, offset, len) is Ok <==> {
            &&& advice <= 5
            &&& offset <= 0x7fff_ffff_ffff_ffff
            &&& len <= 0x7fff_ffff_ffff_ffff
        },
        fadvise_call(advice, offset, len) == Err::<FadviseCall, Error>(Error::TryFromInt) <==> {
            ||| offset > 0x7fff_ffff_ffff_ffff
            ||| len > 0x7fff_ffff_ffff_ffff
        },
        fadvise_call(advice, offset, len) == Err::<FadviseCall, Error>(Error::EINVAL) <==> {
            &&& advice > 5
            &&& offset <= 0x7fff_ffff_ffff_ffff
            &&& len <= 0x7fff_ffff_ffff_ffff
        },
{
}

/// The range has no say in what the advice is.
pub proof fn law_advice_does_not_depend_on_the_range(
    advice: wasi::__wasi_advice_t,
    offset: wasi::__wasi_filesize_t,
    len: wasi::__wasi_filesize_t,
    other_offset: wasi::__wasi_filesize_t,
    other_len: wasi::__wasi_filesize_t,
)
    requires
        fadvise_call(advice, offset, len) is Ok,
        fadvise_call(advice, other_offset, other_len) is Ok,
    ensures
        fadvise_call(advice, offset, len)->Ok_0.advice == fadvise_call(
            advice,
            other_offset,
            other_len,
        )->Ok_0.advice,
{
}

} // verus!
