//! `mkdir` and `mkdirat`: directories under `/dev/shm/` are faked, for no
//! object has a directory of its own.

use vstd::prelude::*;

use crate::hooks;
use crate::hooks::{forward_late, Plan, Step};
use crate::reply;
use crate::reply::{fail, set_errno_from_ret, Reply, EEXIST, EFAULT};
use crate::rewrite;
use crate::rewrite::{is_dev_shm_path, PathArg};

verus! {

/// The 32-bit x86 system call number of `mkdir`.
pub const MKDIR: u32 = 39;

/// The `mkdir` system call.
#[derive(Clone, Copy, Debug, PartialEq, Eq, Structural)]
pub struct MkdirCall {
    pub nr: u32,
    pub path: PathArg,
    pub mode: u32,
}

/// The arguments of `mkdirat`.
#[derive(Clone, Copy, Debug, PartialEq, Eq, Structural)]
pub struct MkdirAtCall {
    pub dirfd: i32,
    pub path: PathArg,
    pub mode: u32,
}

/// The answer to a call that makes no directory: a null path fails with
/// `EFAULT`, and a directory under `/dev/shm/` is reported as made.
pub open spec fn faked(path: Option<Seq<u8>>) -> Option<Reply> {
    match path {
        None => Some(reply::failure(EFAULT)),
        Some(p) => if rewrite::names_shm_object(p) {
            Some(reply::success(0))
        } else {
            None
        },
    }
}

/// What `mkdir` does: any path that is not faked goes to the system call
/// unchanged.
pub open spec fn mkdir_plan(path: Option<Seq<u8>>, mode: u32) -> Plan<MkdirCall> {
    match faked(path) {
        Some(reply) => Plan::Reply(reply),
        None => Plan::Call(MkdirCall { nr: MKDIR, path: PathArg::Caller, mode }),
    }
}

/// What `mkdirat` does: any path that is not faked goes to the real function
/// unchanged, which is looked for only then.
pub open spec fn mkdirat_step(
    found: Option<bool>,
    dirfd: i32,
    path: Option<Seq<u8>>,
    mode: u32,
) -> Step<MkdirAtCall> {
    match faked(path) {
        Some(reply) => Step::Reply(reply),
        None => hooks::forwarded_late(
            found,
            MkdirAtCall { dirfd, path: PathArg::Caller, mode },
        ),
    }
}

fn fake(path: Option<&[u8]>) -> (answer: Option<Reply>)
    ensures
        answer == faked(rewrite::opt_view(path)),
{
    match path {
        None => Some(fail(EFAULT)),
        Some(bytes) => if is_dev_shm_path(bytes) {
            Some(Reply { value: 0, errno: None })
        } else {
            None
        },
    }
}

/// A `/dev/shm/...` target is faked per [`is_dev_shm_path`]; any other path
/// goes to the system call unchanged.
pub fn mkdir(path: Option<&[u8]>, mode: u32) -> (plan: Plan<MkdirCall>)
    ensures
        plan == mkdir_plan(rewrite::opt_view(path), mode),
{
    match fake(path) {
        Some(reply) => Plan::Reply(reply),
        None => Plan::Call(MkdirCall { nr: MKDIR, path: PathArg::Caller, mode }),
    }
}

/// After the `mkdir` system call returned `ret`: `EEXIST` counts as success.
pub fn mkdir_returned(ret: i32) -> (reply: Reply)
    requires
        ret > i32::MIN,
    ensures
        reply == (if ret == -EEXIST {
            reply::success(0)
        } else {
            reply::kernel_reply(ret)
        }),
{
    if ret == -EEXIST {
        return Reply { value: 0, errno: None };
    }
    set_errno_from_ret(ret)
}

/// Like [`mkdir`]: a `/dev/shm/...` target is faked; any other path is
/// forwarded to the real `mkdirat` unchanged. `found` says whether there is
/// one, `None` that it was not looked for yet.
pub fn mkdirat(
    found: Option<bool>,
    dirfd: i32,
    path: Option<&[u8]>,
    mode: u32,
) -> (step: Step<MkdirAtCall>)
    ensures
        step == mkdirat_step(found, dirfd, rewrite::opt_view(path), mode),
{
    match fake(path) {
        Some(reply) => Step::Reply(reply),
        None => forward_late(found, MkdirAtCall { dirfd, path: PathArg::Caller, mode }),
    }
}

} // verus!
