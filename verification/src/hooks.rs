//! The decisions of the hooks. A hook asks for the real function or makes a
//! system call; which, with which arguments, and what its caller is answered,
//! is decided here.
//!
//! Path arguments come in as the string behind the caller's pointer, `None`
//! for null, and go out as the choice of a pointer.

pub mod directory;
pub mod laws;
pub mod path;
pub mod path_laws;
pub mod shm;
pub mod stat;

use vstd::prelude::*;

use crate::reply;
use crate::reply::{fail, Reply, ENOSYS};
use crate::rewrite;

verus! {

/// What a hook does next.
#[derive(Debug, PartialEq, Eq)]
pub enum Plan<T> {
    /// Answer the caller at once.
    Reply(Reply),
    /// Make the call with these arguments.
    Call(T),
}

/// What a hook does next, if it looks for the real function only once it needs
/// it.
#[derive(Debug, PartialEq, Eq)]
pub enum Step<T> {
    /// Answer the caller at once.
    Reply(Reply),
    /// Look for the real function, and decide again.
    LookUp,
    /// Make the call with these arguments.
    Call(T),
}

/// A hook that forwards `call` to the real function, `found` or not.
pub open spec fn forwarded<T>(found: bool, call: T) -> Plan<T> {
    if found {
        Plan::Call(call)
    } else {
        Plan::Reply(reply::failure(ENOSYS))
    }
}

/// The path buffer of a hook that rewrites only once the real function is
/// `found`.
pub open spec fn buf_after(found: bool, path: Option<Seq<u8>>, before: Seq<u8>) -> Seq<u8> {
    if found {
        rewrite::patch_buf_after(path, before)
    } else {
        before
    }
}

/// A hook that forwards `call` to the real function: `found` or not, or not yet
/// looked for.
pub open spec fn forwarded_late<T>(found: Option<bool>, call: T) -> Step<T> {
    match found {
        None => Step::LookUp,
        Some(true) => Step::Call(call),
        Some(false) => Step::Reply(reply::failure(ENOSYS)),
    }
}

/// Forwards `call` to the real function as it stands, which is looked for
/// first; without one the hook fails with `ENOSYS`.
fn forward_late<T>(found: Option<bool>, call: T) -> (step: Step<T>)
    ensures
        step == forwarded_late(found, call),
{
    match found {
        None => Step::LookUp,
        Some(f) => if f {
            Step::Call(call)
        } else {
            Step::Reply(fail(ENOSYS))
        },
    }
}

/// After the real function returned `ret`: its caller is answered the same, and
/// `errno` is as the real function left it.
pub fn returned(ret: i32) -> (reply: Reply)
    ensures
        reply == reply::success(ret),
{
    Reply { value: ret, errno: None }
}

} // verus!
