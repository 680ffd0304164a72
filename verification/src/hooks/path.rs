//! The path-IO family. The same `/dev/shm/a/b` to `/dev/shm/a_b` rewrite in
//! every hook, so that every libc call reaching a shared memory object lands
//! on the one that `shm_open` made.

use vstd::prelude::*;

use crate::flags;
use crate::flags::mode_to_forward;
use crate::hooks;
use crate::hooks::Plan;
use crate::reply::{fail, Reply, ENOSYS};
use crate::rewrite;
use crate::rewrite::{patch, PathArg, PATH_BUF_LEN};

verus! {

/// The arguments of `open` and `open64`.
#[derive(Clone, Copy, Debug, PartialEq, Eq, Structural)]
pub struct OpenCall {
    pub path: PathArg,
    pub flags: i32,
    pub mode: u32,
}

/// The arguments of `openat` and `openat64`.
#[derive(Clone, Copy, Debug, PartialEq, Eq, Structural)]
pub struct OpenAtCall {
    pub dirfd: i32,
    pub path: PathArg,
    pub flags: i32,
    pub mode: u32,
}

/// The arguments of a call whose first argument is a path.
#[derive(Debug, PartialEq, Eq)]
pub struct PathCall<T> {
    pub path: PathArg,
    pub rest: T,
}

/// The arguments of a call that takes a directory and a path first.
#[derive(Debug, PartialEq, Eq)]
pub struct FdPathCall<T> {
    pub dirfd: i32,
    pub path: PathArg,
    pub rest: T,
}

/// The arguments of `statx`; `B` is the caller's pointer to the result.
#[derive(Debug, PartialEq, Eq)]
pub struct StatxCall<B> {
    pub dirfd: i32,
    pub path: PathArg,
    pub flags: i32,
    pub mask: u32,
    pub stat_buf: B,
}

/// The arguments of `rename`.
#[derive(Clone, Copy, Debug, PartialEq, Eq, Structural)]
pub struct RenameCall {
    pub old_path: PathArg,
    pub new_path: PathArg,
}

/// The arguments of `renameat`.
#[derive(Clone, Copy, Debug, PartialEq, Eq, Structural)]
pub struct RenameAtCall {
    pub olddirfd: i32,
    pub old_path: PathArg,
    pub newdirfd: i32,
    pub new_path: PathArg,
}

/// The arguments of `renameat2`.
#[derive(Clone, Copy, Debug, PartialEq, Eq, Structural)]
pub struct RenameAt2Call {
    pub olddirfd: i32,
    pub old_path: PathArg,
    pub newdirfd: i32,
    pub new_path: PathArg,
    pub flags: u32,
}

/// The pointer that goes out for `path`.
pub open spec fn patched(path: Option<&[u8]>) -> PathArg {
    rewrite::patched(rewrite::opt_view(path))
}

/// Rewrites the path and hands the mode on only where the flags create a file.
pub fn open(
    found: bool,
    path: Option<&[u8]>,
    flags: i32,
    mode: u32,
    buf: &mut [u8; PATH_BUF_LEN],
) -> (plan: Plan<OpenCall>)
    ensures
        plan == hooks::forwarded(
            found,
            (OpenCall { path: patched(path), flags, mode: flags::effective_mode(flags, mode) }),
        ),
        final(buf)@ == hooks::buf_after(found, rewrite::opt_view(path), old(buf)@),
{
    if !found {
        return Plan::Reply(fail(ENOSYS));
    }
    let p: PathArg = patch(path, buf);
    Plan::Call(OpenCall { path: p, flags, mode: mode_to_forward(flags, mode) })
}

/// As [`open`].
pub fn open64(
    found: bool,
    path: Option<&[u8]>,
    flags: i32,
    mode: u32,
    buf: &mut [u8; PATH_BUF_LEN],
) -> (plan: Plan<OpenCall>)
    ensures
        plan == hooks::forwarded(
            found,
            (OpenCall { path: patched(path), flags, mode: flags::effective_mode(flags, mode) }),
        ),
        final(buf)@ == hooks::buf_after(found, rewrite::opt_view(path), old(buf)@),
{
    open(found, path, flags, mode, buf)
}

/// As [`open`], relative to `dirfd`.
pub fn openat(
    found: bool,
    dirfd: i32,
    path: Option<&[u8]>,
    flags: i32,
    mode: u32,
    buf: &mut [u8; PATH_BUF_LEN],
) -> (plan: Plan<OpenAtCall>)
    ensures
        plan == hooks::forwarded(
            found,
            (OpenAtCall {
                dirfd,
                path: patched(path),
                flags,
                mode: flags::effective_mode(flags, mode),
            }),
        ),
        final(buf)@ == hooks::buf_after(found, rewrite::opt_view(path), old(buf)@),
{
    if !found {
        return Plan::Reply(fail(ENOSYS));
    }
    let p: PathArg = patch(path, buf);
    Plan::Call(OpenAtCall { dirfd, path: p, flags, mode: mode_to_forward(flags, mode) })
}

/// As [`openat`].
pub fn openat64(
    found: bool,
    dirfd: i32,
    path: Option<&[u8]>,
    flags: i32,
    mode: u32,
    buf: &mut [u8; PATH_BUF_LEN],
) -> (plan: Plan<OpenAtCall>)
    ensures
        plan == hooks::forwarded(
            found,
            (OpenAtCall {
                dirfd,
                path: patched(path),
                flags,
                mode: flags::effective_mode(flags, mode),
            }),
        ),
        final(buf)@ == hooks::buf_after(found, rewrite::opt_view(path), old(buf)@),
{
    openat(found, dirfd, path, flags, mode, buf)
}

/// A path-first libc call that returns an int: `access`, `euidaccess`,
/// `eaccess`, `unlink`, `truncate`, `truncate64`, `creat`, `creat64`,
/// `__open_2` and `__open64_2`. The other arguments go through unchanged.
pub fn path_int_hook<T>(
    found: bool,
    path: Option<&[u8]>,
    rest: T,
    buf: &mut [u8; PATH_BUF_LEN],
) -> (plan: Plan<PathCall<T>>)
    ensures
        plan == hooks::forwarded(found, (PathCall { path: patched(path), rest })),
        final(buf)@ == hooks::buf_after(found, rewrite::opt_view(path), old(buf)@),
{
    if !found {
        return Plan::Reply(fail(ENOSYS));
    }
    let p: PathArg = patch(path, buf);
    Plan::Call(PathCall { path: p, rest })
}

/// A libc call shaped `dirfd, path, ... -> int`: `faccessat`, `unlinkat`,
/// `__openat_2` and `__openat64_2`.
pub fn fd_path_int_hook<T>(
    found: bool,
    dirfd: i32,
    path: Option<&[u8]>,
    rest: T,
    buf: &mut [u8; PATH_BUF_LEN],
) -> (plan: Plan<FdPathCall<T>>)
    ensures
        plan == hooks::forwarded(found, (FdPathCall { dirfd, path: patched(path), rest })),
        final(buf)@ == hooks::buf_after(found, rewrite::opt_view(path), old(buf)@),
{
    if !found {
        return Plan::Reply(fail(ENOSYS));
    }
    let p: PathArg = patch(path, buf);
    Plan::Call(FdPathCall { dirfd, path: p, rest })
}

/// A path-first libc call that returns a pointer: `fopen`, `fopen64` and
/// `opendir`. Without the real function it answers null.
pub fn path_ptr_hook<T>(
    found: bool,
    path: Option<&[u8]>,
    rest: T,
    buf: &mut [u8; PATH_BUF_LEN],
) -> (plan: Plan<PathCall<T>>)
    ensures
        plan == (if found {
            Plan::Call((PathCall { path: patched(path), rest }))
        } else {
            Plan::Reply((Reply { value: 0, errno: Some(ENOSYS) }))
        }),
        final(buf)@ == hooks::buf_after(found, rewrite::opt_view(path), old(buf)@),
{
    if !found {
        return Plan::Reply(Reply { value: 0, errno: Some(ENOSYS) });
    }
    let p: PathArg = patch(path, buf);
    Plan::Call(PathCall { path: p, rest })
}

/// Rewrites the path; all else goes through unchanged.
pub fn statx<B>(
    found: bool,
    dirfd: i32,
    path: Option<&[u8]>,
    flags: i32,
    mask: u32,
    stat_buf: B,
    buf: &mut [u8; PATH_BUF_LEN],
) -> (plan: Plan<StatxCall<B>>)
    ensures
        plan == hooks::forwarded(
            found,
            (StatxCall { dirfd, path: patched(path), flags, mask, stat_buf }),
        ),
        final(buf)@ == hooks::buf_after(found, rewrite::opt_view(path), old(buf)@),
{
    if !found {
        return Plan::Reply(fail(ENOSYS));
    }
    let p: PathArg = patch(path, buf);
    Plan::Call(StatxCall { dirfd, path: p, flags, mask, stat_buf })
}

/// Rewrites both paths.
pub fn rename(
    found: bool,
    old_path: Option<&[u8]>,
    new_path: Option<&[u8]>,
    old_buf: &mut [u8; PATH_BUF_LEN],
    new_buf: &mut [u8; PATH_BUF_LEN],
) -> (plan: Plan<RenameCall>)
    ensures
        plan == hooks::forwarded(
            found,
            (RenameCall { old_path: patched(old_path), new_path: patched(new_path) }),
        ),
        final(old_buf)@ == hooks::buf_after(found, rewrite::opt_view(old_path), old(old_buf)@),
        final(new_buf)@ == hooks::buf_after(found, rewrite::opt_view(new_path), old(new_buf)@),
{
    if !found {
        return Plan::Reply(fail(ENOSYS));
    }
    let op: PathArg = patch(old_path, old_buf);
    let np: PathArg = patch(new_path, new_buf);
    Plan::Call(RenameCall { old_path: op, new_path: np })
}

/// Rewrites both paths.
pub fn renameat(
    found: bool,
    olddirfd: i32,
    old_path: Option<&[u8]>,
    newdirfd: i32,
    new_path: Option<&[u8]>,
    old_buf: &mut [u8; PATH_BUF_LEN],
    new_buf: &mut [u8; PATH_BUF_LEN],
) -> (plan: Plan<RenameAtCall>)
    ensures
        plan == hooks::forwarded(
            found,
            (RenameAtCall {
                olddirfd,
                old_path: patched(old_path),
                newdirfd,
                new_path: patched(new_path),
            }),
        ),
        final(old_buf)@ == hooks::buf_after(found, rewrite::opt_view(old_path), old(old_buf)@),
        final(new_buf)@ == hooks::buf_after(found, rewrite::opt_view(new_path), old(new_buf)@),
{
    if !found {
        return Plan::Reply(fail(ENOSYS));
    }
    let op: PathArg = patch(old_path, old_buf);
    let np: PathArg = patch(new_path, new_buf);
    Plan::Call(RenameAtCall { olddirfd, old_path: op, newdirfd, new_path: np })
}

/// Rewrites both paths; `flags` is forwarded unchanged.
pub fn renameat2(
    found: bool,
    olddirfd: i32,
    old_path: Option<&[u8]>,
    newdirfd: i32,
    new_path: Option<&[u8]>,
    flags: u32,
    old_buf: &mut [u8; PATH_BUF_LEN],
    new_buf: &mut [u8; PATH_BUF_LEN],
) -> (plan: Plan<RenameAt2Call>)
    ensures
        plan == hooks::forwarded(
            found,
            (RenameAt2Call {
                olddirfd,
                old_path: patched(old_path),
                newdirfd,
                new_path: patched(new_path),
                flags,
            }),
        ),
        final(old_buf)@ == hooks::buf_after(found, rewrite::opt_view(old_path), old(old_buf)@),
        final(new_buf)@ == hooks::buf_after(found, rewrite::opt_view(new_path), old(new_buf)@),
{
    if !found {
        return Plan::Reply(fail(ENOSYS));
    }
    let op: PathArg = patch(old_path, old_buf);
    let np: PathArg = patch(new_path, new_buf);
    Plan::Call(RenameAt2Call { olddirfd, old_path: op, newdirfd, new_path: np, flags })
}

} // verus!
