# glibc_compat

A shared library that is preloaded in front of an old glibc. Programs may then
use slashes inside the names of POSIX shared memory objects: `/a/b` is opened as
`/a_b`, and every libc call that reaches for `/dev/shm/a/b` by its path lands on
the same object. Directories under `/dev/shm/` are reported as made without
being made.

- `src/` is the verified library: names and paths, the decision that each hook
  takes, how symbols are resolved and cached, and the trace records.
- `app/` exports the C symbols. It reads the strings behind the callers'
  pointers, asks `src/` what to do, and does it: the dynamic linker, raw system
  calls, `errno`, the environment. All hooks but `shm_open` and `shm_unlink` are
  for 32-bit x86.
- `tests/` runs the library.

Set `DNF_SHM_TRACE` to a writable file path to get one line for each traced
call:

    <sec>.<usec6> <pid> <tag> fl=0x<hex> r=<dec> <path>
