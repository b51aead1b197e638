# wasi_common

The host side of WASI calls on Linux: reading clocks, waiting with `poll_oneoff`,
unlinking, linking and renaming paths, listing directories, and giving advice on files.

The contracts state the numbers of Linux. Those of `poll` do not hold on MIPS and SPARC
machines, where Linux has another set of `poll` bits.

`src/` is a library verified with Verus. It decides what the host is asked and what its
answers mean to the guest:

- `clock`: clock numbers, timestamps, resolutions
- `poll`: the steps of a `poll_oneoff`, and the events it reports
- `path`: paths as C strings, and the arguments of the calls that take them
- `dir`: where a listing begins, and what is told of an entry
- `advise`: the advice that `posix_fadvise` takes
- `error`: how a call fails
- `wasi`: types and constants of the WASI interface
- `host`: what is taken from `libc`, `nix` and the standard library, with what is known
  of it and not proved

`app/` makes the system calls, but for the two that read a clock, which `host` makes
through `nix`. `tests/` runs the library on concrete values.
