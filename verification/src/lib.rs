//! The host side of WASI calls on Linux: clocks, `poll_oneoff`, path operations, directory
//! listing and file advice.
//!
//! The numbers of clocks, `poll` bits and errors in the contracts are those of Linux. On
//! MIPS and SPARC machines Linux has another set of `poll` bits, and the contracts of `poll`
//! do not hold there.
//!
//! The functions here decide what the host is to be asked, and what its answers mean
//! to the guest. The system calls themselves are made around the library, but for the
//! two that read a clock.

pub mod advise;
pub mod clock;
pub mod dir;
pub mod error;
pub mod host;
pub mod path;
pub mod poll;
pub mod wasi;
