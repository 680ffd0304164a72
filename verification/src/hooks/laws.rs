//! What holds of the hooks together.

use vstd::prelude::*;

use crate::flags;
use crate::hooks;
use crate::hooks::directory;
use crate::hooks::directory::{mkdir, mkdir_returned, mkdirat};
use crate::hooks::shm::{
    shm_open, shm_open_returned, shm_unlink, shm_unlink_returned, ShmOpenCall,
};
use crate::hooks::stat;
use crate::hooks::stat::{
    __fxstat, __fxstat64, __lxstat, __lxstat64, __xstat, __xstat64, fd_stat_returned, kernel_covers,
    path_stat_returned, xstat64_trace, FdStatCall, PathStatCall,
};
use crate::hooks::{returned, Plan, Step};
use crate::reply;
use crate::reply::Reply;
use crate::rewrite;
use crate::rewrite::{
    sanitize_dev_shm_path, sanitize_on_stack, PathArg, DEV_SHM_PREFIX, NAME_BUF_LEN, PATH_BUF_LEN,
};
use crate::rewrite_laws;
use crate::trace::{Tag, TraceEvent};

verus! {

/// Every libc call that reaches for a shared memory object by its path lands
/// on the one object that `shm_open` made: if `shm_open` is called with `/<x>`
/// and hands on `/<y>`, a path hook that is called with `/dev/shm/<x>` hands on
/// `/dev/shm/<y>`.
pub proof fn law_hooks_reach_one_object(x: Seq<u8>, name_buf: Seq<u8>, path_buf: Seq<u8>)
    requires
        rewrite::is_c_string(x),
        name_buf.len() == NAME_BUF_LEN,
        path_buf.len() == PATH_BUF_LEN,
    ensures
        ({
            let name = Some(seq!['/' as u8] + x);
            let path = Some(DEV_SHM_PREFIX@ + x);
            let opened = rewrite::pointee(
                rewrite::sanitized(name),
                name,
                rewrite::sanitize_buf_after(name, name_buf),
            );
            let reached = rewrite::pointee(
                rewrite::patched(path),
                path,
                hooks::buf_after(true, path, path_buf),
            );
            &&& opened is Some && opened->0.len() > 0 && opened->0[0] == '/' as u8
            &&& reached == Some(DEV_SHM_PREFIX@ + opened->0.skip(1))
        }),
{
    let name = seq!['/' as u8] + x;
    let path = DEV_SHM_PREFIX@ + x;
    assert(rewrite::is_c_string(name)) by {
        if name.contains(0u8) {
            let i = choose|i: int| 0 <= i < name.len() && name[i] == 0;
            assert(x[i - 1] == 0);
        }
    }
    assert(rewrite::is_c_string(path)) by {
        if path.contains(0u8) {
            let i = choose|i: int| 0 <= i < path.len() && path[i] == 0;
            if i >= 9 {
                assert(x[i - 9] == 0);
            }
        }
    }
    rewrite_laws::law_receiver_reads_the_shm_name(Some(name), name_buf);
    rewrite_laws::law_receiver_reads_the_path(Some(path), path_buf);
    rewrite_laws::law_path_reaches_the_object(x);
    rewrite_laws::law_name_keeps_length_and_first_byte(name);
}

/// A stat hook that makes a system call looks at the same path that `open`
/// opens.
pub proof fn law_stat_looks_where_open_opens<B>(
    nr: u32,
    found: Option<bool>,
    path: Seq<u8>,
    buf: B,
    path_buf: Seq<u8>,
)
    requires
        rewrite::is_c_string(path),
        path_buf.len() == PATH_BUF_LEN,
    ensures
        stat::path_stat(nr, found, stat::STAT_VER_LINUX, Some(path), Some(buf)) == Step::Call(
            (PathStatCall::Kernel { nr, path: rewrite::patched(Some(path)), buf }),
        ),
        rewrite::pointee(
            rewrite::patched(Some(path)),
            Some(path),
            stat::path_stat_buf(stat::STAT_VER_LINUX, Some(path), true, path_buf),
        ) == Some(rewrite::dev_shm_path(path)),
{
    rewrite_laws::law_receiver_reads_the_path(Some(path), path_buf);
}

/// No directory is ever made where an object lives: for every path that another
/// hook rewrites, and every other name under `/dev/shm/`, `mkdir` and `mkdirat`
/// answer 0 without a call.
pub proof fn law_mkdir_is_faked_where_objects_live(
    found: Option<bool>,
    dirfd: i32,
    path: Seq<u8>,
    mode: u32,
)
    requires
        rewrite::redirects(path) || rewrite::names_shm_object(path),
    ensures
        directory::mkdir_plan(Some(path), mode) == Plan::<directory::MkdirCall>::Reply(
            reply::success(0),
        ),
        directory::mkdirat_step(found, dirfd, Some(path), mode) == Step::<
            directory::MkdirAtCall,
        >::Reply(reply::success(0)),
{
    rewrite_laws::law_mkdir_fakes_every_rewritten_path(path);
}

/// A real directory is made where the caller said: any other path goes out as
/// the caller's own pointer, by `mkdir` and, if there is a real one, `mkdirat`.
pub proof fn law_other_directories_are_made_as_asked(dirfd: i32, path: Seq<u8>, mode: u32)
    requires
        !rewrite::names_shm_object(path),
    ensures
        directory::mkdir_plan(Some(path), mode) matches Plan::Call(call) && call.path
            == PathArg::Caller && call.mode == mode,
        directory::mkdirat_step(Some(true), dirfd, Some(path), mode) matches Step::Call(call)
            && call.path == PathArg::Caller && call.mode == mode && call.dirfd == dirfd,
        directory::mkdirat_step(Some(false), dirfd, Some(path), mode) == Step::<
            directory::MkdirAtCall,
        >::Reply(reply::failure(reply::ENOSYS)),
{
}

/// A caller of `open` that passed no mode cannot tell: where no file is
/// created, what lies in its place has no influence on the call.
pub proof fn law_unused_mode_is_not_forwarded(flags: i32, mode: u32, other: u32)
    requires
        !flags::creates_file(flags),
    ensures
        flags::effective_mode(flags, mode) == flags::effective_mode(flags, other),
{
}

/// What [`shm_open`] and [`shm_unlink`] do with a name: without the real
/// function they fail with `ENOSYS`; else the name goes out as
/// [`sanitize_on_stack`] leaves it, and all else unchanged.
pub proof fn law_shm_hooks_hand_on_the_name(
    found: bool,
    name: &[u8],
    oflag: i32,
    mode: u32,
    buf: &mut [u8; 256],
    opened: Plan<ShmOpenCall>,
    unlink_buf: &mut [u8; 256],
    unlinked: Plan<PathArg>,
    twin: &mut [u8; 256],
    arg: PathArg,
)
    requires
        call_ensures(shm_open, (found, Some(name), oflag, mode, buf), opened),
        call_ensures(shm_unlink, (found, Some(name), unlink_buf), unlinked),
        call_ensures(sanitize_on_stack, (name, twin), arg),
        old(twin)@ == old(buf)@,
        old(twin)@ == old(unlink_buf)@,
    ensures
        found ==> final(buf)@ == final(twin)@ && final(unlink_buf)@ == final(twin)@,
        found ==> (opened matches Plan::Call(call) && call.name == arg && call.oflag == oflag
            && call.mode == mode),
        found ==> (unlinked matches Plan::Call(sent) && sent == arg),
        !found ==> final(buf)@ == old(buf)@ && final(unlink_buf)@ == old(unlink_buf)@,
        !found ==> (opened matches Plan::Reply(r) && r.value == -1 && r.errno == Some(38i32)),
        !found ==> (unlinked matches Plan::Reply(r) && r.value == -1 && r.errno == Some(38i32)),
{
}

/// What [`shm_open`] and [`shm_unlink`] do with null: it is handed on.
pub proof fn law_shm_hooks_hand_on_null(
    found: bool,
    oflag: i32,
    mode: u32,
    buf: &mut [u8; 256],
    opened: Plan<ShmOpenCall>,
    unlink_buf: &mut [u8; 256],
    unlinked: Plan<PathArg>,
)
    requires
        call_ensures(shm_open, (found, None::<&[u8]>, oflag, mode, buf), opened),
        call_ensures(shm_unlink, (found, None::<&[u8]>, unlink_buf), unlinked),
    ensures
        final(buf)@ == old(buf)@,
        final(unlink_buf)@ == old(unlink_buf)@,
        found ==> (opened matches Plan::Call(call) && call.name == PathArg::Null && call.oflag
            == oflag && call.mode == mode),
        found ==> (unlinked matches Plan::Call(sent) && sent == PathArg::Null),
        !found ==> (opened matches Plan::Reply(r) && r.value == -1 && r.errno == Some(38i32)),
        !found ==> (unlinked matches Plan::Reply(r) && r.value == -1 && r.errno == Some(38i32)),
{
}

/// What the callers of `shm_open` and `shm_unlink` are answered: what the real
/// function returned. The call is traced with that value and under the name that
/// went out, unless it was null.
pub proof fn law_shm_calls_are_traced_as_made(
    call: ShmOpenCall,
    name: PathArg,
    ret: i32,
    opened: (Reply, Option<TraceEvent>),
    unlinked: (Reply, Option<TraceEvent>),
    plain: Reply,
)
    requires
        call_ensures(shm_open_returned, (call, ret), opened),
        call_ensures(shm_unlink_returned, (name, ret), unlinked),
        call_ensures(returned, (ret,), plain),
    ensures
        opened.0.value == ret && opened.0.errno is None,
        unlinked.0.value == ret && unlinked.0.errno is None,
        plain.value == ret && plain.errno is None,
        opened.1 is None <==> call.name == PathArg::Null,
        unlinked.1 is None <==> name == PathArg::Null,
        opened.1 matches Some(e) ==> e.tag == Tag::ShmOpen && e.path == call.name && e.flags
            == call.oflag && e.ret == ret,
        unlinked.1 matches Some(e) ==> e.tag == Tag::ShmUnlink && e.path == name && e.flags == 0
            && e.ret == ret,
{
}

/// What [`mkdir`] and [`mkdirat`] do: without a call they answer only null, with
/// `EFAULT`, and a path that is longer than `/dev/shm/` and starts with it, with
/// 0. For every other path the caller's own pointer and mode go to the system
/// call, and to the real `mkdirat`, which is looked for first; if it is missing,
/// the answer is `ENOSYS`.
pub proof fn law_every_other_directory_is_really_made(
    found: Option<bool>,
    dirfd: i32,
    path: Option<&[u8]>,
    mode: u32,
    plan: Plan<directory::MkdirCall>,
    step: Step<directory::MkdirAtCall>,
)
    requires
        call_ensures(mkdir, (path, mode), plan),
        call_ensures(mkdirat, (found, dirfd, path, mode), step),
    ensures
        path is None ==> (plan matches Plan::Reply(r) && r.value == -1 && r.errno == Some(14i32)),
        path is None ==> (step matches Step::Reply(r) && r.value == -1 && r.errno == Some(14i32)),
        path matches Some(p) ==> p@.len() > 9 && p@.take(9)
            == seq!['/' as u8, 'd' as u8, 'e' as u8, 'v' as u8, '/' as u8, 's' as u8, 'h' as u8,
            'm' as u8, '/' as u8] ==> (
        plan matches Plan::Reply(r) && r.value == 0 && r.errno is None),
        path matches Some(p) ==> p@.len() > 9 && p@.take(9)
            == seq!['/' as u8, 'd' as u8, 'e' as u8, 'v' as u8, '/' as u8, 's' as u8, 'h' as u8,
            'm' as u8, '/' as u8] ==> (
        step matches Step::Reply(r) && r.value == 0 && r.errno is None),
        path matches Some(p) ==> !(p@.len() > 9 && p@.take(9)
            == seq!['/' as u8, 'd' as u8, 'e' as u8, 'v' as u8, '/' as u8, 's' as u8, 'h' as u8,
            'm' as u8, '/' as u8]) ==> (
        plan matches Plan::Call(call) && call.nr == 39 && call.path == PathArg::Caller && call.mode
            == mode),
        path matches Some(p) ==> !(p@.len() > 9 && p@.take(9)
            == seq!['/' as u8, 'd' as u8, 'e' as u8, 'v' as u8, '/' as u8, 's' as u8, 'h' as u8,
            'm' as u8, '/' as u8]) ==> (match found {
            None => step is LookUp,
            Some(true) => step matches Step::Call(call) && call.dirfd == dirfd && call.path
                == PathArg::Caller && call.mode == mode,
            Some(false) => step matches Step::Reply(r) && r.value == -1 && r.errno == Some(38i32),
        }),
{
    if let Some(p) = path {
        if p@.len() < 9 || p@.take(9) != seq!['/' as u8, 'd' as u8, 'e' as u8, 'v' as u8,
            '/' as u8, 's' as u8, 'h' as u8, 'm' as u8, '/' as u8] {
            rewrite_laws::law_path_elsewhere_is_left_alone(p@, p@);
        } else {
            assert forall|i: int| 0 <= i < 9 implies p@[i] == DEV_SHM_PREFIX@[i] by {
                assert(p@[i] == p@.take(9)[i]);
            }
        }
    }
}

/// What [`mkdir_returned`] answers: an existing directory counts as made; else
/// an error of the system call is an error, and its success a success.
pub proof fn law_existing_directory_counts_as_made(ret: i32, answered: Reply)
    requires
        ret > i32::MIN,
        call_ensures(mkdir_returned, (ret,), answered),
    ensures
        ret == -17 ==> answered.value == 0 && answered.errno is None,
        ret < 0 && ret != -17 ==> answered.value == -1 && answered.errno is Some
            && answered.errno->0 + ret == 0,
        ret >= 0 ==> answered.value == ret && answered.errno is None,
{
}

/// What the stat hooks do with a path, in version 3 and with a result pointer:
/// the system call, `stat64` or `lstat64`, on the path as
/// [`sanitize_dev_shm_path`] leaves it, with the caller's result pointer.
pub proof fn law_path_stats_ask_the_kernel<B>(
    found: Option<bool>,
    path: &[u8],
    buf: B,
    b1: &mut [u8; 265],
    xstat64: Step<PathStatCall<B>>,
    b2: &mut [u8; 265],
    lxstat64: Step<PathStatCall<B>>,
    b3: &mut [u8; 265],
    xstat: Step<PathStatCall<B>>,
    b4: &mut [u8; 265],
    lxstat: Step<PathStatCall<B>>,
    twin: &mut [u8; 265],
    arg: PathArg,
)
    requires
        call_ensures(__xstat64::<B>, (found, 3i32, Some(path), Some(buf), b1), xstat64),
        call_ensures(__lxstat64::<B>, (found, 3i32, Some(path), Some(buf), b2), lxstat64),
        call_ensures(__xstat::<B>, (found, 3i32, Some(path), Some(buf), b3), xstat),
        call_ensures(__lxstat::<B>, (found, 3i32, Some(path), Some(buf), b4), lxstat),
        call_ensures(sanitize_dev_shm_path, (path, twin), arg),
        old(b1)@ == old(twin)@,
        old(b2)@ == old(twin)@,
        old(b3)@ == old(twin)@,
        old(b4)@ == old(twin)@,
    ensures
        final(b1)@ == final(twin)@,
        final(b2)@ == final(twin)@,
        final(b3)@ == final(twin)@,
        final(b4)@ == final(twin)@,
        xstat64 == Step::Call((PathStatCall::Kernel { nr: 195, path: arg, buf })),
        lxstat64 == Step::Call((PathStatCall::Kernel { nr: 196, path: arg, buf })),
        xstat == Step::Call((PathStatCall::Kernel { nr: 195, path: arg, buf })),
        lxstat == Step::Call((PathStatCall::Kernel { nr: 196, path: arg, buf })),
{
}

/// What the stat hooks do with a path in any other case: the real function is
/// looked for and gets the caller's own arguments; if it is missing, the answer
/// is `ENOSYS`.
pub proof fn law_other_path_stats_are_forwarded<B>(
    found: Option<bool>,
    ver: i32,
    path: Option<&[u8]>,
    buf: Option<B>,
    b1: &mut [u8; 265],
    xstat64: Step<PathStatCall<B>>,
    b2: &mut [u8; 265],
    lxstat64: Step<PathStatCall<B>>,
    b3: &mut [u8; 265],
    xstat: Step<PathStatCall<B>>,
    b4: &mut [u8; 265],
    lxstat: Step<PathStatCall<B>>,
)
    requires
        ver != 3 || path is None || buf is None,
        call_ensures(__xstat64::<B>, (found, ver, path, buf, b1), xstat64),
        call_ensures(__lxstat64::<B>, (found, ver, path, buf, b2), lxstat64),
        call_ensures(__xstat::<B>, (found, ver, path, buf, b3), xstat),
        call_ensures(__lxstat::<B>, (found, ver, path, buf, b4), lxstat),
    ensures
        final(b1)@ == old(b1)@,
        final(b2)@ == old(b2)@,
        final(b3)@ == old(b3)@,
        final(b4)@ == old(b4)@,
        lxstat64 == xstat64,
        xstat == xstat64,
        lxstat == xstat64,
        found is None ==> xstat64 is LookUp,
        found == Some(true) ==> xstat64 == Step::Call(
            (PathStatCall::Real {
                ver,
                path: if path is None {
                    PathArg::Null
                } else {
                    PathArg::Caller
                },
                buf,
            }),
        ),
        found == Some(false) ==> (xstat64 matches Step::Reply(r) && r.value == -1 && r.errno
            == Some(38i32)),
{
}

/// What the stat hooks do with a descriptor: `fstat64` in version 3 and with a
/// result pointer; else the real function gets the caller's own arguments, and
/// the answer is `ENOSYS` if it is missing.
pub proof fn law_descriptor_stats<B>(
    found: Option<bool>,
    ver: i32,
    fd: i32,
    buf: Option<B>,
    fxstat64: Step<FdStatCall<B>>,
    fxstat: Step<FdStatCall<B>>,
    has_buf: bool,
    covers: bool,
)
    requires
        call_ensures(__fxstat64::<B>, (found, ver, fd, buf), fxstat64),
        call_ensures(__fxstat::<B>, (found, ver, fd, buf), fxstat),
        call_ensures(kernel_covers, (ver, has_buf), covers),
    ensures
        covers <==> ver == 3 && has_buf,
        fxstat == fxstat64,
        ver == 3 && buf is Some ==> fxstat64 == Step::Call(
            (FdStatCall::Kernel { nr: 197, fd, buf: buf->0 }),
        ),
        !(ver == 3 && buf is Some) && found is None ==> fxstat64 is LookUp,
        !(ver == 3 && buf is Some) && found == Some(true) ==> fxstat64 == Step::Call(
            (FdStatCall::Real { ver, fd, buf }),
        ),
        !(ver == 3 && buf is Some) && found == Some(false) ==> (fxstat64 matches Step::Reply(r)
            && r.value == -1 && r.errno == Some(38i32)),
{
}

/// What the callers of the stat hooks are answered: what the real function
/// returned, or -1 and the error number where the kernel returned an error. Only
/// the system call of `__xstat64` is traced, with the value that it returned and
/// under the path that went out.
pub proof fn law_stat_answers<B>(
    call: &PathStatCall<B>,
    fd_call: &FdStatCall<B>,
    ret: i32,
    answered: Reply,
    fd_answered: Reply,
    trace: Option<TraceEvent>,
)
    requires
        ret > i32::MIN,
        call_ensures(path_stat_returned::<B>, (call, ret), answered),
        call_ensures(fd_stat_returned::<B>, (fd_call, ret), fd_answered),
        call_ensures(xstat64_trace::<B>, (call, ret), trace),
    ensures
        *call is Real || ret >= 0 ==> answered.value == ret && answered.errno is None,
        *call is Kernel && ret < 0 ==> answered.value == -1 && answered.errno is Some
            && answered.errno->0 + ret == 0,
        *fd_call is Real || ret >= 0 ==> fd_answered.value == ret && fd_answered.errno is None,
        *fd_call is Kernel && ret < 0 ==> fd_answered.value == -1 && fd_answered.errno is Some
            && fd_answered.errno->0 + ret == 0,
        *call is Real ==> trace is None,
        *call matches PathStatCall::Kernel { nr, path, buf } ==> (trace matches Some(e) && e.tag
            == Tag::Xstat64 && e.path == path && e.flags == 0 && e.ret == ret),
{
}

} // verus!
