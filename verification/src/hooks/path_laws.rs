//! What holds of each path hook, stated against [`patch`] and plain values.

use vstd::prelude::*;

use crate::flags;
use crate::hooks::path::{
    fd_path_int_hook, open, open64, openat, openat64, path_int_hook, path_ptr_hook, rename,
    renameat, renameat2, statx, FdPathCall, OpenAtCall, OpenCall, PathCall, RenameAt2Call,
    RenameAtCall, RenameCall, StatxCall,
};
use crate::hooks::Plan;
use crate::rewrite::{patch, PathArg};

verus! {

/// What [`open`] does: without the real function it fails with `ENOSYS`;
/// else the path goes out as [`patch`] leaves it, and the mode with the flags that
/// create a file.
pub proof fn law_open_hands_on(
    found: bool,
    path: Option<&[u8]>,
    flags: i32,
    mode: u32,
    buf: &mut [u8; 265],
    plan: Plan<OpenCall>,
    twin: &mut [u8; 265],
    arg: PathArg,
)
    requires
        call_ensures(open, (found, path, flags, mode, buf), plan),
        call_ensures(patch, (path, twin), arg),
        old(twin)@ == old(buf)@,
    ensures
        !found ==> final(buf)@ == old(buf)@ && (plan matches Plan::Reply(r) && r.value == -1
            && r.errno == Some(38i32)),
        found ==> final(buf)@ == final(twin)@ && (plan matches Plan::Call(call) && call.path == arg
            && call.flags == flags && call.mode == (if flags & 0o100 != 0
                || flags & 0o20_000_000 != 0 {
            mode
        } else {
            0
        })),
{
    flags::law_mode_goes_with_a_created_file(flags, mode);
}

/// What [`open64`] does: without the real function it fails with `ENOSYS`;
/// else the path goes out as [`patch`] leaves it, and the mode with the flags that
/// create a file.
pub proof fn law_open64_hands_on(
    found: bool,
    path: Option<&[u8]>,
    flags: i32,
    mode: u32,
    buf: &mut [u8; 265],
    plan: Plan<OpenCall>,
    twin: &mut [u8; 265],
    arg: PathArg,
)
    requires
        call_ensures(open64, (found, path, flags, mode, buf), plan),
        call_ensures(patch, (path, twin), arg),
        old(twin)@ == old(buf)@,
    ensures
        !found ==> final(buf)@ == old(buf)@ && (plan matches Plan::Reply(r) && r.value == -1
            && r.errno == Some(38i32)),
        found ==> final(buf)@ == final(twin)@ && (plan matches Plan::Call(call) && call.path == arg
            && call.flags == flags && call.mode == (if flags & 0o100 != 0
                || flags & 0o20_000_000 != 0 {
            mode
        } else {
            0
        })),
{
    flags::law_mode_goes_with_a_created_file(flags, mode);
}

/// What [`openat`] does: without the real function it fails with `ENOSYS`;
/// else the path goes out as [`patch`] leaves it, and the mode with the flags that
/// create a file.
pub proof fn law_openat_hands_on(
    found: bool,
    dirfd: i32,
    path: Option<&[u8]>,
    flags: i32,
    mode: u32,
    buf: &mut [u8; 265],
    plan: Plan<OpenAtCall>,
    twin: &mut [u8; 265],
    arg: PathArg,
)
    requires
        call_ensures(openat, (found, dirfd, path, flags, mode, buf), plan),
        call_ensures(patch, (path, twin), arg),
        old(twin)@ == old(buf)@,
    ensures
        !found ==> final(buf)@ == old(buf)@ && (plan matches Plan::Reply(r) && r.value == -1
            && r.errno == Some(38i32)),
        found ==> final(buf)@ == final(twin)@ && (plan matches Plan::Call(call) && call.path == arg
            && call.dirfd == dirfd && call.flags == flags
                && call.mode == (if flags & 0o100 != 0 || flags & 0o20_000_000 != 0 {
            mode
        } else {
            0
        })),
{
    flags::law_mode_goes_with_a_created_file(flags, mode);
}

/// What [`openat64`] does: without the real function it fails with `ENOSYS`;
/// else the path goes out as [`patch`] leaves it, and the mode with the flags that
/// create a file.
pub proof fn law_openat64_hands_on(
    found: bool,
    dirfd: i32,
    path: Option<&[u8]>,
    flags: i32,
    mode: u32,
    buf: &mut [u8; 265],
    plan: Plan<OpenAtCall>,
    twin: &mut [u8; 265],
    arg: PathArg,
)
    requires
        call_ensures(openat64, (found, dirfd, path, flags, mode, buf), plan),
        call_ensures(patch, (path, twin), arg),
        old(twin)@ == old(buf)@,
    ensures
        !found ==> final(buf)@ == old(buf)@ && (plan matches Plan::Reply(r) && r.value == -1
            && r.errno == Some(38i32)),
        found ==> final(buf)@ == final(twin)@ && (plan matches Plan::Call(call) && call.path == arg
            && call.dirfd == dirfd && call.flags == flags
                && call.mode == (if flags & 0o100 != 0 || flags & 0o20_000_000 != 0 {
            mode
        } else {
            0
        })),
{
    flags::law_mode_goes_with_a_created_file(flags, mode);
}

/// What [`path_int_hook`] does: without the real function it fails with `ENOSYS`;
/// else the path goes out as [`patch`] leaves it, and all else unchanged.
pub proof fn law_path_int_hook_hands_on<T>(
    found: bool,
    path: Option<&[u8]>,
    rest: T,
    buf: &mut [u8; 265],
    plan: Plan<PathCall<T>>,
    twin: &mut [u8; 265],
    arg: PathArg,
)
    requires
        call_ensures(path_int_hook::<T>, (found, path, rest, buf), plan),
        call_ensures(patch, (path, twin), arg),
        old(twin)@ == old(buf)@,
    ensures
        !found ==> final(buf)@ == old(buf)@ && (plan matches Plan::Reply(r) && r.value == -1
            && r.errno == Some(38i32)),
        found ==> final(buf)@ == final(twin)@ && (plan matches Plan::Call(call) && call.path == arg
            && call.rest == rest),
{
}

/// What [`fd_path_int_hook`] does: without the real function it fails with `ENOSYS`;
/// else the path goes out as [`patch`] leaves it, and all else unchanged.
pub proof fn law_fd_path_int_hook_hands_on<T>(
    found: bool,
    dirfd: i32,
    path: Option<&[u8]>,
    rest: T,
    buf: &mut [u8; 265],
    plan: Plan<FdPathCall<T>>,
    twin: &mut [u8; 265],
    arg: PathArg,
)
    requires
        call_ensures(fd_path_int_hook::<T>, (found, dirfd, path, rest, buf), plan),
        call_ensures(patch, (path, twin), arg),
        old(twin)@ == old(buf)@,
    ensures
        !found ==> final(buf)@ == old(buf)@ && (plan matches Plan::Reply(r) && r.value == -1
            && r.errno == Some(38i32)),
        found ==> final(buf)@ == final(twin)@ && (plan matches Plan::Call(call) && call.path == arg
            && call.dirfd == dirfd && call.rest == rest),
{
}

/// What [`path_ptr_hook`] does: without the real function it answers null with
/// `ENOSYS`; else the path goes out as [`patch`] leaves it, and all else unchanged.
pub proof fn law_path_ptr_hook_hands_on<T>(
    found: bool,
    path: Option<&[u8]>,
    rest: T,
    buf: &mut [u8; 265],
    plan: Plan<PathCall<T>>,
    twin: &mut [u8; 265],
    arg: PathArg,
)
    requires
        call_ensures(path_ptr_hook::<T>, (found, path, rest, buf), plan),
        call_ensures(patch, (path, twin), arg),
        old(twin)@ == old(buf)@,
    ensures
        !found ==> final(buf)@ == old(buf)@ && (plan matches Plan::Reply(r) && r.value == 0
            && r.errno == Some(38i32)),
        found ==> final(buf)@ == final(twin)@ && (plan matches Plan::Call(call) && call.path == arg
            && call.rest == rest),
{
}

/// What [`statx`] does: without the real function it fails with `ENOSYS`;
/// else the path goes out as [`patch`] leaves it, and all else unchanged.
pub proof fn law_statx_hands_on<B>(
    found: bool,
    dirfd: i32,
    path: Option<&[u8]>,
    flags: i32,
    mask: u32,
    stat_buf: B,
    buf: &mut [u8; 265],
    plan: Plan<StatxCall<B>>,
    twin: &mut [u8; 265],
    arg: PathArg,
)
    requires
        call_ensures(statx::<B>, (found, dirfd, path, flags, mask, stat_buf, buf), plan),
        call_ensures(patch, (path, twin), arg),
        old(twin)@ == old(buf)@,
    ensures
        !found ==> final(buf)@ == old(buf)@ && (plan matches Plan::Reply(r) && r.value == -1
            && r.errno == Some(38i32)),
        found ==> final(buf)@ == final(twin)@ && (plan matches Plan::Call(call) && call.path == arg
            && call.dirfd == dirfd && call.flags == flags && call.mask == mask
                && call.stat_buf == stat_buf),
{
}

/// What [`rename`] does: without the real function it fails with `ENOSYS`; else
/// each path goes out as [`patch`] leaves it, in its own place, and all else
/// unchanged.
pub proof fn law_rename_hands_on(
    found: bool,
    old_path: Option<&[u8]>,
    new_path: Option<&[u8]>,
    old_buf: &mut [u8; 265],
    new_buf: &mut [u8; 265],
    plan: Plan<RenameCall>,
    old_twin: &mut [u8; 265],
    old_arg: PathArg,
    new_twin: &mut [u8; 265],
    new_arg: PathArg,
)
    requires
        call_ensures(rename, (found, old_path, new_path, old_buf, new_buf), plan),
        call_ensures(patch, (old_path, old_twin), old_arg),
        call_ensures(patch, (new_path, new_twin), new_arg),
        old(old_twin)@ == old(old_buf)@,
        old(new_twin)@ == old(new_buf)@,
    ensures
        !found ==> final(old_buf)@ == old(old_buf)@ && final(new_buf)@ == old(new_buf)@
            && (plan matches Plan::Reply(r) && r.value == -1 && r.errno == Some(38i32)),
        found ==> final(old_buf)@ == final(old_twin)@ && final(new_buf)@ == final(new_twin)@ && (
        plan matches Plan::Call(call) && call.old_path == old_arg && call.new_path == new_arg),
{
}

/// What [`renameat`] does: without the real function it fails with `ENOSYS`; else
/// each path goes out as [`patch`] leaves it, in its own place, and all else
/// unchanged.
pub proof fn law_renameat_hands_on(
    found: bool,
    olddirfd: i32,
    old_path: Option<&[u8]>,
    newdirfd: i32,
    new_path: Option<&[u8]>,
    old_buf: &mut [u8; 265],
    new_buf: &mut [u8; 265],
    plan: Plan<RenameAtCall>,
    old_twin: &mut [u8; 265],
    old_arg: PathArg,
    new_twin: &mut [u8; 265],
    new_arg: PathArg,
)
    requires
        call_ensures(renameat, (found, olddirfd, old_path, newdirfd, new_path, old_buf, new_buf),
            plan),
        call_ensures(patch, (old_path, old_twin), old_arg),
        call_ensures(patch, (new_path, new_twin), new_arg),
        old(old_twin)@ == old(old_buf)@,
        old(new_twin)@ == old(new_buf)@,
    ensures
        !found ==> final(old_buf)@ == old(old_buf)@ && final(new_buf)@ == old(new_buf)@
            && (plan matches Plan::Reply(r) && r.value == -1 && r.errno == Some(38i32)),
        found ==> final(old_buf)@ == final(old_twin)@ && final(new_buf)@ == final(new_twin)@ && (
        plan matches Plan::Call(call) && call.old_path == old_arg && call.new_path == new_arg
            && call.olddirfd == olddirfd && call.newdirfd == newdirfd),
{
}

/// What [`renameat2`] does: without the real function it fails with `ENOSYS`; else
/// each path goes out as [`patch`] leaves it, in its own place, and all else
/// unchanged.
pub proof fn law_renameat2_hands_on(
    found: bool,
    olddirfd: i32,
    old_path: Option<&[u8]>,
    newdirfd: i32,
    new_path: Option<&[u8]>,
    flags: u32,
    old_buf: &mut [u8; 265],
    new_buf: &mut [u8; 265],
    plan: Plan<RenameAt2Call>,
    old_twin: &mut [u8; 265],
    old_arg: PathArg,
    new_twin: &mut [u8; 265],
    new_arg: PathArg,
)
    requires
        call_ensures(renameat2, (found, olddirfd, old_path, newdirfd, new_path, flags, old_buf,
            new_buf), plan),
        call_ensures(patch, (old_path, old_twin), old_arg),
        call_ensures(patch, (new_path, new_twin), new_arg),
        old(old_twin)@ == old(old_buf)@,
        old(new_twin)@ == old(new_buf)@,
    ensures
        !found ==> final(old_buf)@ == old(old_buf)@ && final(new_buf)@ == old(new_buf)@
            && (plan matches Plan::Reply(r) && r.value == -1 && r.errno == Some(38i32)),
        found ==> final(old_buf)@ == final(old_twin)@ && final(new_buf)@ == final(new_twin)@ && (
        plan matches Plan::Call(call) && call.old_path == old_arg && call.new_path == new_arg
            && call.olddirfd == olddirfd && call.newdirfd == newdirfd && call.flags == flags),
{
}

} // verus!
