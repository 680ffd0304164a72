//! How a hook answers its caller: a value and, on failure, `errno`.

use vstd::prelude::*;

verus! {

/// Function not implemented: the real function is missing.
pub const ENOSYS: i32 = 38;

/// Bad address: a null path.
pub const EFAULT: i32 = 14;

/// File exists.
pub const EEXIST: i32 = 17;

/// What a hook hands back.
#[derive(Clone, Copy, Debug, PartialEq, Eq, Structural)]
pub struct Reply {
    /// The returned value; where the hook returns a pointer, 0 is null.
    pub value: i32,
    /// The value that `errno` is set to, if it is set.
    pub errno: Option<i32>,
}

/// `errno` is set to `errno` and -1 is returned.
pub open spec fn failure(errno: i32) -> Reply {
    Reply { value: (-1) as i32, errno: Some(errno) }
}

/// `value` is returned and `errno` is left alone.
pub open spec fn success(value: i32) -> Reply {
    Reply { value, errno: None }
}

/// The libc answer for the value `ret` that a system call returned: a negative
/// value is a negated error number.
pub open spec fn kernel_reply(ret: i32) -> Reply {
    if ret < 0 {
        failure((-ret) as i32)
    } else {
        success(ret)
    }
}

/// Fails with `errno`.
pub fn fail(errno: i32) -> (reply: Reply)
    ensures
        reply == failure(errno),
{
    Reply { value: -1, errno: Some(errno) }
}

/// Turns what a system call returned into the libc answer.
pub fn set_errno_from_ret(ret: i32) -> (reply: Reply)
    requires
        ret > i32::MIN,
    ensures
        reply == kernel_reply(ret),
{
    if ret < 0 {
        fail(-ret)
    } else {
        Reply { value: ret, errno: None }
    }
}

/// A call fails, with -1 and a positive error number, exactly when the system
/// call returned a negative value; else its value is returned as it is.
pub proof fn law_reply_fails_with_the_kernel(ret: i32)
    requires
        ret > i32::MIN,
    ensures
        ret < 0 <==> kernel_reply(ret).errno is Some,
        ret < 0 <==> kernel_reply(ret).value == -1,
        kernel_reply(ret).errno matches Some(e) ==> e > 0 && e == -ret,
        ret >= 0 ==> kernel_reply(ret).value == ret,
{
}

/// What [`fail`] and [`set_errno_from_ret`] return: -1 with the error number,
/// or the value of the system call with `errno` left alone.
pub proof fn law_error_number_is_the_negated_value(
    errno: i32,
    failed: Reply,
    ret: i32,
    answered: Reply,
)
    requires
        ret > i32::MIN,
        call_ensures(fail, (errno,), failed),
        call_ensures(set_errno_from_ret, (ret,), answered),
    ensures
        failed.value == -1 && failed.errno == Some(errno),
        ret < 0 ==> answered.value == -1 && answered.errno is Some && answered.errno->0 + ret == 0,
        ret >= 0 ==> answered.value == ret && answered.errno is None,
{
}

} // verus!
