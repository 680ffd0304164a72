use glibc_compat::hooks::directory::{mkdir, mkdir_returned, mkdirat, MkdirAtCall, MkdirCall};
use glibc_compat::hooks::path::{
    fd_path_int_hook, open, open64, openat, openat64, path_int_hook, path_ptr_hook, rename,
    renameat, renameat2, statx, FdPathCall, OpenAtCall, OpenCall, PathCall, RenameAt2Call,
    RenameAtCall, RenameCall, StatxCall,
};
use glibc_compat::hooks::shm::{
    shm_open, shm_open_returned, shm_unlink, shm_unlink_returned, ShmOpenCall,
};
use glibc_compat::hooks::stat::{
    __fxstat, __fxstat64, __lxstat, __lxstat64, __xstat, __xstat64, fd_stat_returned, kernel_covers,
    path_stat_returned, xstat64_trace, FdStatCall, PathStatCall,
};
use glibc_compat::hooks::{returned, Plan, Step};
use glibc_compat::reply::{fail, set_errno_from_ret, Reply};
use glibc_compat::rewrite::{PathArg, NAME_BUF_LEN, PATH_BUF_LEN};
use glibc_compat::symbol::{resolve, resolve_once, Resolve};
use glibc_compat::trace::{Tag, TraceEvent};

const BUS: Option<&[u8]> = Some(b"/dev/shm/sec/bus");
const ETC: Option<&[u8]> = Some(b"/etc/passwd");

fn enosys() -> Reply {
    Reply { value: -1, errno: Some(38) }
}

fn path_buf() -> [u8; PATH_BUF_LEN] {
    [0; PATH_BUF_LEN]
}

#[test]
fn kernel_errors_become_errno() {
    assert_eq!(set_errno_from_ret(-2), Reply { value: -1, errno: Some(2) });
    assert_eq!(set_errno_from_ret(0), Reply { value: 0, errno: None });
    assert_eq!(set_errno_from_ret(5), Reply { value: 5, errno: None });
    assert_eq!(
        set_errno_from_ret(-i32::MAX),
        Reply { value: -1, errno: Some(i32::MAX) }
    );
    assert_eq!(fail(14), Reply { value: -1, errno: Some(14) });
}

#[test]
fn missing_symbol_is_retried() {
    let mut slot = 0usize;
    assert_eq!(resolve(&mut slot, None), Resolve::Ask);
    assert_eq!(resolve(&mut slot, Some(0)), Resolve::Address(0));
    assert_eq!(resolve(&mut slot, None), Resolve::Ask);
    assert_eq!(resolve(&mut slot, Some(0x1000)), Resolve::Address(0x1000));
    assert_eq!(resolve(&mut slot, None), Resolve::Address(0x1000));
    assert_eq!(slot, 0x1000);
}

#[test]
fn shm_symbol_is_asked_for_once() {
    let mut slot = None;
    assert_eq!(resolve_once(&mut slot, None), Resolve::Ask);
    assert_eq!(resolve_once(&mut slot, Some(0)), Resolve::Address(0));
    assert_eq!(resolve_once(&mut slot, None), Resolve::Address(0));
    assert_eq!(resolve_once(&mut slot, Some(7)), Resolve::Address(0));
    assert_eq!(slot, Some(0));
}

#[test]
fn shm_open_rewrites_the_name_and_is_traced() {
    let mut buf = [0u8; NAME_BUF_LEN];
    let plan = shm_open(true, Some(b"/sec/tss"), 0x42, 0o600, &mut buf);
    let call = ShmOpenCall { name: PathArg::Buffer, oflag: 0x42, mode: 0o600 };
    assert_eq!(plan, Plan::Call(call));
    assert_eq!(&buf[..9], b"/sec_tss\0");
    let (reply, trace) = shm_open_returned(call, -1);
    assert_eq!(reply, Reply { value: -1, errno: None });
    assert_eq!(
        trace,
        Some(TraceEvent { tag: Tag::ShmOpen, path: PathArg::Buffer, flags: 0x42, ret: -1 })
    );
}

#[test]
fn shm_open_forwards_null_untraced() {
    let mut buf = [0u8; NAME_BUF_LEN];
    let call = ShmOpenCall { name: PathArg::Null, oflag: 2, mode: 3 };
    assert_eq!(shm_open(true, None, 2, 3, &mut buf), Plan::Call(call));
    assert_eq!(shm_open_returned(call, -1).1, None);
    assert_eq!(shm_open(false, None, 2, 3, &mut buf), Plan::Reply(enosys()));
    assert_eq!(
        shm_open(false, Some(b"/a/b"), 2, 3, &mut buf),
        Plan::Reply(enosys())
    );
    assert!(buf.iter().all(|&b| b == 0));
}

#[test]
fn shm_unlink_rewrites_the_name_and_is_traced() {
    let mut buf = [0u8; NAME_BUF_LEN];
    assert_eq!(shm_unlink(true, Some(b"/a/b"), &mut buf), Plan::Call(PathArg::Buffer));
    assert_eq!(&buf[..5], b"/a_b\0");
    assert_eq!(shm_unlink(true, Some(b"/ab"), &mut buf), Plan::Call(PathArg::Caller));
    assert_eq!(shm_unlink(true, None, &mut buf), Plan::Call(PathArg::Null));
    assert_eq!(shm_unlink(false, Some(b"/a/b"), &mut buf), Plan::Reply(enosys()));
    assert_eq!(
        shm_unlink_returned(PathArg::Caller, 0),
        (
            Reply { value: 0, errno: None },
            Some(TraceEvent { tag: Tag::ShmUnlink, path: PathArg::Caller, flags: 0, ret: 0 })
        )
    );
    assert_eq!(shm_unlink_returned(PathArg::Null, -1).1, None);
}

#[test]
fn stat_hooks_make_the_system_call() {
    let mut buf = path_buf();
    let stat = Step::Call(PathStatCall::Kernel { nr: 195, path: PathArg::Buffer, buf: 'b' });
    let lstat = Step::Call(PathStatCall::Kernel { nr: 196, path: PathArg::Buffer, buf: 'b' });
    assert_eq!(__xstat64(None, 3, BUS, Some('b'), &mut buf), stat);
    assert_eq!(&buf[..17], b"/dev/shm/sec_bus\0");
    assert_eq!(__xstat(None, 3, BUS, Some('b'), &mut buf), stat);
    assert_eq!(__lxstat64(None, 3, BUS, Some('b'), &mut buf), lstat);
    assert_eq!(__lxstat(None, 3, BUS, Some('b'), &mut buf), lstat);
    assert_eq!(
        __xstat64(None, 3, ETC, Some('b'), &mut buf),
        Step::Call(PathStatCall::Kernel { nr: 195, path: PathArg::Caller, buf: 'b' })
    );
    assert_eq!(
        __fxstat64(None, 3, 5, Some('b')),
        Step::Call(FdStatCall::Kernel { nr: 197, fd: 5, buf: 'b' })
    );
    assert_eq!(
        __fxstat(None, 3, -1, Some('b')),
        Step::Call(FdStatCall::Kernel { nr: 197, fd: -1, buf: 'b' })
    );
}

#[test]
fn stat_hooks_forward_what_the_system_call_does_not_cover() {
    let mut buf = path_buf();
    for (ver, path, result, arg) in [
        (1, BUS, Some('b'), PathArg::Caller),
        (3, None, Some('b'), PathArg::Null),
        (3, BUS, None, PathArg::Caller),
    ] {
        for hook in [__xstat64, __lxstat64, __xstat, __lxstat] {
            assert_eq!(hook(None, ver, path, result, &mut buf), Step::LookUp);
            assert_eq!(
                hook(Some(true), ver, path, result, &mut buf),
                Step::Call(PathStatCall::Real { ver, path: arg, buf: result })
            );
            assert_eq!(hook(Some(false), ver, path, result, &mut buf), Step::Reply(enosys()));
        }
    }
    assert!(buf.iter().all(|&b| b == 0));
    for (ver, result) in [(2, Some('b')), (3, None)] {
        for hook in [__fxstat64, __fxstat] {
            assert_eq!(hook(None, ver, 5, result), Step::LookUp);
            assert_eq!(
                hook(Some(true), ver, 5, result),
                Step::Call(FdStatCall::Real { ver, fd: 5, buf: result })
            );
            assert_eq!(hook(Some(false), ver, 5, result), Step::Reply(enosys()));
        }
    }
    assert!(kernel_covers(3, true));
    assert!(!kernel_covers(3, false));
    assert!(!kernel_covers(2, true));
}

#[test]
fn stat_answers() {
    let kernel = PathStatCall::Kernel { nr: 195, path: PathArg::Buffer, buf: () };
    let real = PathStatCall::Real { ver: 1, path: PathArg::Caller, buf: Some(()) };
    assert_eq!(path_stat_returned(&kernel, -2), Reply { value: -1, errno: Some(2) });
    assert_eq!(path_stat_returned(&real, -2), Reply { value: -2, errno: None });
    assert_eq!(path_stat_returned(&real, i32::MIN), Reply { value: i32::MIN, errno: None });
    let kernel_fd = FdStatCall::Kernel { nr: 197, fd: 1, buf: () };
    let real_fd = FdStatCall::Real { ver: 1, fd: 1, buf: Some(()) };
    assert_eq!(fd_stat_returned(&kernel_fd, -9), Reply { value: -1, errno: Some(9) });
    assert_eq!(fd_stat_returned(&real_fd, -1), Reply { value: -1, errno: None });
}

#[test]
fn xstat64_is_traced() {
    let kernel = PathStatCall::Kernel { nr: 195, path: PathArg::Buffer, buf: () };
    let real = PathStatCall::Real { ver: 1, path: PathArg::Caller, buf: Some(()) };
    assert_eq!(
        xstat64_trace(&kernel, -2),
        Some(TraceEvent { tag: Tag::Xstat64, path: PathArg::Buffer, flags: 0, ret: -2 })
    );
    assert_eq!(xstat64_trace(&real, -2), None);
}

#[test]
fn mkdir_is_faked_under_dev_shm() {
    let made = Reply { value: 0, errno: None };
    let efault = Reply { value: -1, errno: Some(14) };
    let call = |mode| Plan::Call(MkdirCall { nr: 39, path: PathArg::Caller, mode });
    assert_eq!(mkdir(None, 1), Plan::Reply(efault));
    assert_eq!(mkdir(Some(b"/dev/shm/sec"), 1), Plan::Reply(made));
    assert_eq!(mkdir(BUS, 1), Plan::Reply(made));
    assert_eq!(mkdir(Some(b"/dev/shm/"), 1), call(1));
    assert_eq!(mkdir(Some(b"/tmp/x"), 0o755), call(0o755));
}

#[test]
fn mkdirat_looks_for_the_real_function_only_outside_dev_shm() {
    let made = Reply { value: 0, errno: None };
    let efault = Reply { value: -1, errno: Some(14) };
    for found in [None, Some(true), Some(false)] {
        assert_eq!(mkdirat(found, -100, None, 1), Step::Reply(efault));
        assert_eq!(mkdirat(found, -100, Some(b"/dev/shm/sec"), 1), Step::Reply(made));
    }
    assert_eq!(mkdirat(None, -100, ETC, 0o700), Step::LookUp);
    assert_eq!(
        mkdirat(Some(true), -100, ETC, 0o700),
        Step::Call(MkdirAtCall { dirfd: -100, path: PathArg::Caller, mode: 0o700 })
    );
    assert_eq!(mkdirat(Some(false), -100, ETC, 0o700), Step::Reply(enosys()));
}

#[test]
fn existing_directory_counts_as_made() {
    assert_eq!(mkdir_returned(-17), Reply { value: 0, errno: None });
    assert_eq!(mkdir_returned(0), Reply { value: 0, errno: None });
    assert_eq!(mkdir_returned(-13), Reply { value: -1, errno: Some(13) });
}

#[test]
fn open_rewrites_and_drops_an_unused_mode() {
    let mut buf = path_buf();
    let call = OpenCall { path: PathArg::Buffer, flags: 0, mode: 0 };
    assert_eq!(open(true, BUS, 0, 0o644, &mut buf), Plan::Call(call));
    assert_eq!(&buf[..17], b"/dev/shm/sec_bus\0");
    let call = OpenCall { path: PathArg::Caller, flags: 0o101, mode: 0o644 };
    assert_eq!(open(true, ETC, 0o101, 0o644, &mut buf), Plan::Call(call));
    assert_eq!(open64(true, ETC, 0o101, 0o644, &mut buf), Plan::Call(call));
    let call = OpenCall { path: PathArg::Null, flags: 0, mode: 0 };
    assert_eq!(open64(true, None, 0, 1, &mut buf), Plan::Call(call));
    assert_eq!(open(false, BUS, 0, 1, &mut buf), Plan::Reply(enosys()));
    assert_eq!(open64(false, BUS, 0, 1, &mut buf), Plan::Reply(enosys()));
}

#[test]
fn openat_keeps_the_directory() {
    let mut buf = path_buf();
    let call = OpenAtCall { dirfd: -100, path: PathArg::Buffer, flags: 0o100, mode: 0o600 };
    assert_eq!(openat(true, -100, BUS, 0o100, 0o600, &mut buf), Plan::Call(call));
    assert_eq!(openat64(true, -100, BUS, 0o100, 0o600, &mut buf), Plan::Call(call));
    assert_eq!(openat(false, 3, BUS, 0, 1, &mut buf), Plan::Reply(enosys()));
    assert_eq!(openat64(false, 3, BUS, 0, 1, &mut buf), Plan::Reply(enosys()));
}

#[test]
fn path_hooks_pass_the_rest_through() {
    let mut buf = path_buf();
    assert_eq!(
        path_int_hook(true, BUS, 4i64, &mut buf),
        Plan::Call(PathCall { path: PathArg::Buffer, rest: 4i64 })
    );
    assert_eq!(path_int_hook(false, BUS, (), &mut buf), Plan::Reply(enosys()));
    assert_eq!(
        fd_path_int_hook(true, 9, ETC, (1, 2), &mut buf),
        Plan::Call(FdPathCall { dirfd: 9, path: PathArg::Caller, rest: (1, 2) })
    );
    assert_eq!(fd_path_int_hook(false, 9, ETC, (), &mut buf), Plan::Reply(enosys()));
    assert_eq!(
        path_ptr_hook(true, None, "r", &mut buf),
        Plan::Call(PathCall { path: PathArg::Null, rest: "r" })
    );
    assert_eq!(
        path_ptr_hook(false, BUS, (), &mut buf),
        Plan::Reply(Reply { value: 0, errno: Some(38) })
    );
    assert_eq!(
        statx(true, 1, BUS, 2, 3, 4usize, &mut buf),
        Plan::Call(StatxCall {
            dirfd: 1,
            path: PathArg::Buffer,
            flags: 2,
            mask: 3,
            stat_buf: 4usize
        })
    );
    assert_eq!(statx(false, 1, BUS, 2, 3, 4usize, &mut buf), Plan::Reply(enosys()));
}

#[test]
fn rename_rewrites_both_paths() {
    let mut ob = path_buf();
    let mut nb = path_buf();
    let new: Option<&[u8]> = Some(b"/dev/shm/x/y");
    assert_eq!(
        rename(true, BUS, new, &mut ob, &mut nb),
        Plan::Call(RenameCall { old_path: PathArg::Buffer, new_path: PathArg::Buffer })
    );
    assert_eq!(&ob[..17], b"/dev/shm/sec_bus\0");
    assert_eq!(&nb[..13], b"/dev/shm/x_y\0");
    assert_eq!(
        renameat(true, 1, ETC, 2, new, &mut ob, &mut nb),
        Plan::Call(RenameAtCall {
            olddirfd: 1,
            old_path: PathArg::Caller,
            newdirfd: 2,
            new_path: PathArg::Buffer
        })
    );
    assert_eq!(
        renameat2(true, 1, None, 2, new, 7, &mut ob, &mut nb),
        Plan::Call(RenameAt2Call {
            olddirfd: 1,
            old_path: PathArg::Null,
            newdirfd: 2,
            new_path: PathArg::Buffer,
            flags: 7
        })
    );
    assert_eq!(rename(false, BUS, new, &mut ob, &mut nb), Plan::Reply(enosys()));
    assert_eq!(renameat(false, 1, BUS, 2, new, &mut ob, &mut nb), Plan::Reply(enosys()));
    assert_eq!(
        renameat2(false, 1, BUS, 2, new, 7, &mut ob, &mut nb),
        Plan::Reply(enosys())
    );
}

#[test]
fn real_answer_is_returned_unchanged() {
    assert_eq!(returned(-1), Reply { value: -1, errno: None });
    assert_eq!(returned(7), Reply { value: 7, errno: None });
}

#[test]
fn stat_looks_where_open_opens() {
    let mut opened = path_buf();
    let mut looked = path_buf();
    open(true, BUS, 0, 0, &mut opened);
    __xstat64(None, 3, BUS, Some(()), &mut looked);
    assert_eq!(opened, looked);
    assert_eq!(&opened[..17], b"/dev/shm/sec_bus\0");
}
