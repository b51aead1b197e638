//! The error that a host call ends in.

use vstd::prelude::*;

verus! {

/// Why a host call failed.
#[derive(Clone, Copy, Debug, PartialEq, Eq, Structural)]
pub enum Error {
    /// An argument that the call does not take.
    EINVAL,
    /// A value that its type cannot hold.
    EOVERFLOW,
    /// A path that cannot be handed to the host.
    EILSEQ,
    /// An integer that the target type of a conversion cannot hold.
    TryFromInt,
    /// A name that is not UTF-8.
    Utf8,
    /// An error of the host, by its `errno` number.
    Host(i32),
}

/// The error that the host means by `errno`.
pub fn errno_from_nix(errno: i32) -> (error: Error)
    ensures
        error == Error::Host(errno),
{
    Error::Host(errno)
}

/// The outcome of a system call that returned `res` and left `errno` behind: such a call
/// succeeded exactly if it returned zero.
pub open spec fn syscall_outcome(res: i32, errno: i32) -> Result<(), Error> {
    if res == 0 {
        Ok(())
    } else {
        Err(Error::Host(errno))
    }
}

/// Tells a system call's success from its failure. `errno` is read after the call, and
/// matters only if it failed.
pub fn syscall_result(res: i32, errno: i32) -> (result: Result<(), Error>)
    ensures
        result == syscall_outcome(res, errno),
{
    if res == 0 {
        Ok(())
    } else {
        Err(errno_from_nix(errno))
    }
}

/// The `errno` that an earlier call left behind does not turn a success into a failure,
/// and no failure is taken for a success.
pub proof fn law_errno_matters_only_on_failure(res: i32, errno: i32, stale: i32)
    ensures
        syscall_outcome(res, errno) is Ok <==> res == 0,
        res == 0 ==> syscall_outcome(res, errno) == syscall_outcome(res, stale),
        res != 0 ==> syscall_outcome(res, errno) == Err::<(), Error>(Error::Host(errno)),
{
}

} // verus!
