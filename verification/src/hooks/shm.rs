//! `shm_open` and `shm_unlink`.

use vstd::prelude::*;

use crate::hooks;
use crate::hooks::{returned, Plan};
use crate::reply;
use crate::reply::{fail, Reply, ENOSYS};
use crate::rewrite;
use crate::rewrite::{sanitize_on_stack, PathArg, NAME_BUF_LEN};
use crate::trace::{Tag, TraceEvent};

verus! {

/// The arguments of `shm_open`.
#[derive(Clone, Copy, Debug, PartialEq, Eq, Structural)]
pub struct ShmOpenCall {
    pub name: PathArg,
    pub oflag: i32,
    pub mode: u32,
}

/// The name buffer of a hook that rewrites only once the real function is
/// `found`.
pub open spec fn name_buf_after(found: bool, name: Option<Seq<u8>>, before: Seq<u8>) -> Seq<u8> {
    if found {
        rewrite::sanitize_buf_after(name, before)
    } else {
        before
    }
}

/// Null is handed on, and the real function produces the error.
fn sanitize(name: Option<&[u8]>, buf: &mut [u8; NAME_BUF_LEN]) -> (arg: PathArg)
    ensures
        arg == rewrite::sanitized(rewrite::opt_view(name)),
        final(buf)@ == rewrite::sanitize_buf_after(rewrite::opt_view(name), old(buf)@),
{
    match name {
        None => PathArg::Null,
        Some(bytes) => sanitize_on_stack(bytes, buf),
    }
}

/// Opens a POSIX shared memory object under its rewritten name.
pub fn shm_open(
    found: bool,
    name: Option<&[u8]>,
    oflag: i32,
    mode: u32,
    buf: &mut [u8; NAME_BUF_LEN],
) -> (plan: Plan<ShmOpenCall>)
    ensures
        plan == hooks::forwarded(
            found,
            (ShmOpenCall { name: rewrite::sanitized(rewrite::opt_view(name)), oflag, mode }),
        ),
        final(buf)@ == name_buf_after(found, rewrite::opt_view(name), old(buf)@),
{
    if !found {
        return Plan::Reply(fail(ENOSYS));
    }
    let patched: PathArg = sanitize(name, buf);
    Plan::Call(ShmOpenCall { name: patched, oflag, mode })
}

/// Removes a POSIX shared memory object under its rewritten name.
pub fn shm_unlink(found: bool, name: Option<&[u8]>, buf: &mut [u8; NAME_BUF_LEN]) -> (plan: Plan<
    PathArg,
>)
    ensures
        plan == hooks::forwarded(found, rewrite::sanitized(rewrite::opt_view(name))),
        final(buf)@ == name_buf_after(found, rewrite::opt_view(name), old(buf)@),
{
    if !found {
        return Plan::Reply(fail(ENOSYS));
    }
    Plan::Call(sanitize(name, buf))
}

/// After the real `shm_open` returned `ret`: the answer is `ret`, and a call
/// with a name is traced under the name that went out.
pub fn shm_open_returned(call: ShmOpenCall, ret: i32) -> (done: (Reply, Option<TraceEvent>))
    ensures
        done.0 == reply::success(ret),
        done.1 == (if call.name == PathArg::Null {
            None
        } else {
            Some((TraceEvent { tag: Tag::ShmOpen, path: call.name, flags: call.oflag, ret }))
        }),
{
    let trace: Option<TraceEvent> = match call.name {
        PathArg::Null => None,
        _ => Some(TraceEvent { tag: Tag::ShmOpen, path: call.name, flags: call.oflag, ret }),
    };
    (returned(ret), trace)
}

/// After the real `shm_unlink` returned `ret`: the answer is `ret`, and a call
/// with a name is traced under the name that went out.
pub fn shm_unlink_returned(name: PathArg, ret: i32) -> (done: (Reply, Option<TraceEvent>))
    ensures
        done.0 == reply::success(ret),
        done.1 == (if name == PathArg::Null {
            None
        } else {
            Some((TraceEvent { tag: Tag::ShmUnlink, path: name, flags: 0, ret }))
        }),
{
    let trace: Option<TraceEvent> = match name {
        PathArg::Null => None,
        _ => Some(TraceEvent { tag: Tag::ShmUnlink, path: name, flags: 0, ret }),
    };
    (returned(ret), trace)
}

} // verus!
