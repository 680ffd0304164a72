//! The stat family: raw `stat64`, `lstat64` and `fstat64` system calls under
//! the rewritten path. A call that they do not cover goes to the real function.
//!
//! `B` is the caller's pointer to the result, `None` where it is null. `found`
//! says whether there is a real function, `None` that it was not looked for
//! yet.

use vstd::prelude::*;

use crate::hooks;
use crate::hooks::{forward_late, returned, Step};
use crate::reply;
use crate::reply::{set_errno_from_ret, Reply};
use crate::rewrite;
use crate::rewrite::{sanitize_dev_shm_path, PathArg, PATH_BUF_LEN};
use crate::trace::{Tag, TraceEvent};

verus! {

/// The version of `struct stat` that the system calls fill in.
pub const STAT_VER_LINUX: i32 = 3;

/// 32-bit x86 system call numbers.
pub const STAT64: u32 = 195;

pub const LSTAT64: u32 = 196;

pub const FSTAT64: u32 = 197;

/// The call that a stat hook on a path makes.
#[derive(Debug, PartialEq, Eq)]
pub enum PathStatCall<B> {
    /// The real function.
    Real { ver: i32, path: PathArg, buf: Option<B> },
    /// The system call `nr`.
    Kernel { nr: u32, path: PathArg, buf: B },
}

/// The call that a stat hook on a descriptor makes.
#[derive(Debug, PartialEq, Eq)]
pub enum FdStatCall<B> {
    /// The real function.
    Real { ver: i32, fd: i32, buf: Option<B> },
    /// The system call `nr`.
    Kernel { nr: u32, fd: i32, buf: B },
}

/// The caller's own pointer, null or not.
pub open spec fn own_pointer(path: Option<Seq<u8>>) -> PathArg {
    match path {
        None => PathArg::Null,
        Some(_) => PathArg::Caller,
    }
}

/// The system call `nr` on the rewritten path, if the version is the one that
/// it fills in and neither pointer is null. Else the real function, with the
/// caller's own arguments.
pub open spec fn path_stat<B>(
    nr: u32,
    found: Option<bool>,
    ver: i32,
    path: Option<Seq<u8>>,
    buf: Option<B>,
) -> Step<PathStatCall<B>> {
    match (path, buf) {
        (Some(p), Some(b)) if ver == STAT_VER_LINUX => Step::Call(
            PathStatCall::Kernel { nr, path: rewrite::patched(Some(p)), buf: b },
        ),
        _ => hooks::forwarded_late(
            found,
            PathStatCall::Real { ver, path: own_pointer(path), buf },
        ),
    }
}

/// The path buffer after [`path_stat`].
pub open spec fn path_stat_buf(
    ver: i32,
    path: Option<Seq<u8>>,
    has_buf: bool,
    before: Seq<u8>,
) -> Seq<u8> {
    match path {
        Some(p) if ver == STAT_VER_LINUX && has_buf => rewrite::path_buf_after(p, before),
        _ => before,
    }
}

/// The system call on the descriptor, if the version is the one that it fills
/// in and the result pointer is not null. Else the real function, with the
/// caller's own arguments.
pub open spec fn fd_stat<B>(
    found: Option<bool>,
    ver: i32,
    fd: i32,
    buf: Option<B>,
) -> Step<FdStatCall<B>> {
    match buf {
        Some(b) if ver == STAT_VER_LINUX => Step::Call(
            FdStatCall::Kernel { nr: FSTAT64, fd, buf: b },
        ),
        _ => hooks::forwarded_late(found, FdStatCall::Real { ver, fd, buf }),
    }
}

/// Tells whether the system calls fill in what the caller asks for, so that the
/// path is looked at. Else only whether the path is null matters.
pub fn kernel_covers(ver: i32, has_buf: bool) -> (covers: bool)
    ensures
        covers == (ver == STAT_VER_LINUX && has_buf),
{
    ver == STAT_VER_LINUX && has_buf
}

fn plan_path_stat<B>(
    nr: u32,
    found: Option<bool>,
    ver: i32,
    path: Option<&[u8]>,
    buf: Option<B>,
    pbuf: &mut [u8; PATH_BUF_LEN],
) -> (step: Step<PathStatCall<B>>)
    ensures
        step == path_stat(nr, found, ver, rewrite::opt_view(path), buf),
        final(pbuf)@ == path_stat_buf(ver, rewrite::opt_view(path), buf is Some, old(pbuf)@),
{
    let covers: bool = kernel_covers(ver, buf.is_some());
    match path {
        None => forward_late(found, PathStatCall::Real { ver, path: PathArg::Null, buf }),
        Some(p) => {
            if !covers {
                return forward_late(
                    found,
                    PathStatCall::Real { ver, path: PathArg::Caller, buf },
                );
            }
            match buf {
                None => forward_late(
                    found,
                    PathStatCall::Real { ver, path: PathArg::Caller, buf: None },
                ),
                Some(b) => {
                    let patched: PathArg = sanitize_dev_shm_path(p, pbuf);
                    Step::Call(PathStatCall::Kernel { nr, path: patched, buf: b })
                },
            }
        },
    }
}

fn plan_fd_stat<B>(found: Option<bool>, ver: i32, fd: i32, buf: Option<B>) -> (step: Step<
    FdStatCall<B>,
>)
    ensures
        step == fd_stat(found, ver, fd, buf),
{
    if ver != STAT_VER_LINUX {
        return forward_late(found, FdStatCall::Real { ver, fd, buf });
    }
    match buf {
        None => forward_late(found, FdStatCall::Real { ver, fd, buf: None }),
        Some(b) => Step::Call(FdStatCall::Kernel { nr: FSTAT64, fd, buf: b }),
    }
}

/// Hook for `__xstat64`. Alone in the family it is traced, see
/// [`xstat64_trace`].
pub fn __xstat64<B>(
    found: Option<bool>,
    ver: i32,
    path: Option<&[u8]>,
    buf: Option<B>,
    pbuf: &mut [u8; PATH_BUF_LEN],
) -> (step: Step<PathStatCall<B>>)
    ensures
        step == path_stat(STAT64, found, ver, rewrite::opt_view(path), buf),
        final(pbuf)@ == path_stat_buf(ver, rewrite::opt_view(path), buf is Some, old(pbuf)@),
{
    plan_path_stat(STAT64, found, ver, path, buf, pbuf)
}

/// Hook for `__fxstat64`.
pub fn __fxstat64<B>(found: Option<bool>, ver: i32, fd: i32, buf: Option<B>) -> (step: Step<
    FdStatCall<B>,
>)
    ensures
        step == fd_stat(found, ver, fd, buf),
{
    plan_fd_stat(found, ver, fd, buf)
}

/// Hook for `__lxstat64`.
pub fn __lxstat64<B>(
    found: Option<bool>,
    ver: i32,
    path: Option<&[u8]>,
    buf: Option<B>,
    pbuf: &mut [u8; PATH_BUF_LEN],
) -> (step: Step<PathStatCall<B>>)
    ensures
        step == path_stat(LSTAT64, found, ver, rewrite::opt_view(path), buf),
        final(pbuf)@ == path_stat_buf(ver, rewrite::opt_view(path), buf is Some, old(pbuf)@),
{
    plan_path_stat(LSTAT64, found, ver, path, buf, pbuf)
}

/// Hook for `__xstat`.
pub fn __xstat<B>(
    found: Option<bool>,
    ver: i32,
    path: Option<&[u8]>,
    buf: Option<B>,
    pbuf: &mut [u8; PATH_BUF_LEN],
) -> (step: Step<PathStatCall<B>>)
    ensures
        step == path_stat(STAT64, found, ver, rewrite::opt_view(path), buf),
        final(pbuf)@ == path_stat_buf(ver, rewrite::opt_view(path), buf is Some, old(pbuf)@),
{
    plan_path_stat(STAT64, found, ver, path, buf, pbuf)
}

/// Hook for `__fxstat`.
pub fn __fxstat<B>(found: Option<bool>, ver: i32, fd: i32, buf: Option<B>) -> (step: Step<
    FdStatCall<B>,
>)
    ensures
        step == fd_stat(found, ver, fd, buf),
{
    plan_fd_stat(found, ver, fd, buf)
}

/// Hook for `__lxstat`.
pub fn __lxstat<B>(
    found: Option<bool>,
    ver: i32,
    path: Option<&[u8]>,
    buf: Option<B>,
    pbuf: &mut [u8; PATH_BUF_LEN],
) -> (step: Step<PathStatCall<B>>)
    ensures
        step == path_stat(LSTAT64, found, ver, rewrite::opt_view(path), buf),
        final(pbuf)@ == path_stat_buf(ver, rewrite::opt_view(path), buf is Some, old(pbuf)@),
{
    plan_path_stat(LSTAT64, found, ver, path, buf, pbuf)
}

/// After the call of `__xstat64` returned `ret`: the system call is traced,
/// under the path that went out.
pub fn xstat64_trace<B>(call: &PathStatCall<B>, ret: i32) -> (trace: Option<TraceEvent>)
    ensures
        trace == (match *call {
            PathStatCall::Real { .. } => None,
            PathStatCall::Kernel { path, .. } => Some(
                (TraceEvent { tag: Tag::Xstat64, path, flags: 0, ret }),
            ),
        }),
{
    match call {
        PathStatCall::Real { .. } => None,
        PathStatCall::Kernel { path, .. } => Some(
            TraceEvent { tag: Tag::Xstat64, path: *path, flags: 0, ret },
        ),
    }
}

/// After the call of a stat hook on a path returned `ret`: the answer of the
/// real function is handed on, that of the kernel is turned into the libc
/// answer.
pub fn path_stat_returned<B>(call: &PathStatCall<B>, ret: i32) -> (reply: Reply)
    requires
        call is Kernel ==> ret > i32::MIN,
    ensures
        reply == (match *call {
            PathStatCall::Real { .. } => reply::success(ret),
            PathStatCall::Kernel { .. } => reply::kernel_reply(ret),
        }),
{
    match call {
        PathStatCall::Real { .. } => returned(ret),
        PathStatCall::Kernel { .. } => set_errno_from_ret(ret),
    }
}

/// The same for a stat hook on a descriptor.
pub fn fd_stat_returned<B>(call: &FdStatCall<B>, ret: i32) -> (reply: Reply)
    requires
        call is Kernel ==> ret > i32::MIN,
    ensures
        reply == (match *call {
            FdStatCall::Real { .. } => reply::success(ret),
            FdStatCall::Kernel { .. } => reply::kernel_reply(ret),
        }),
{
    match call {
        FdStatCall::Real { .. } => returned(ret),
        FdStatCall::Kernel { .. } => set_errno_from_ret(ret),
    }
}

} // verus!
