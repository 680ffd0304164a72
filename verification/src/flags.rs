//! When `open` takes a mode.

use vstd::prelude::*;

verus! {

/// Create the file if it does not exist.
pub const O_CREAT: i32 = 0o100;

/// The bit of `O_TMPFILE` that is its own: create an unnamed file.
pub const O_TMPFILE_BIT: i32 = 0o20_000_000;

/// Fail unless the path is a directory.
pub const O_DIRECTORY: i32 = 0o200_000;

/// The flags make `open` create a file.
pub open spec fn creates_file(flags: i32) -> bool {
    flags & O_CREAT != 0 || flags & O_TMPFILE_BIT == O_TMPFILE_BIT
}

/// The mode that is handed on: the caller's where the call creates a file,
/// else 0, for the caller may then have passed none.
pub open spec fn effective_mode(flags: i32, mode: u32) -> u32 {
    if creates_file(flags) {
        mode
    } else {
        0
    }
}

/// Mirrors glibc `__OPEN_NEEDS_MODE`: `open` takes `mode` only when the flags
/// create a file.
pub fn open_needs_mode(flags: i32) -> (needs: bool)
    ensures
        needs == creates_file(flags),
{
    flags & O_CREAT != 0 || flags & O_TMPFILE_BIT == O_TMPFILE_BIT
}

/// The mode to hand on.
pub fn mode_to_forward(flags: i32, mode: u32) -> (forwarded: u32)
    ensures
        forwarded == effective_mode(flags, mode),
{
    if open_needs_mode(flags) {
        mode
    } else {
        0
    }
}

/// Adding flags never takes the mode away.
pub proof fn law_more_flags_keep_the_mode(flags: i32, more: i32)
    requires
        creates_file(flags),
    ensures
        creates_file(flags | more),
{
    assert(flags & O_CREAT != 0 || flags & O_TMPFILE_BIT == O_TMPFILE_BIT ==> (flags | more)
        & O_CREAT != 0 || (flags | more) & O_TMPFILE_BIT == O_TMPFILE_BIT) by (bit_vector);
}

/// Where the flags hold `O_CREAT`, or the bit of `O_TMPFILE`, the caller's mode
/// is handed on, whatever else they hold; in every other case 0 is.
pub proof fn law_mode_goes_with_a_created_file(flags: i32, mode: u32)
    ensures
        flags & 0o100 != 0 ==> effective_mode(flags, mode) == mode,
        flags & 0o20_000_000 != 0 ==> effective_mode(flags, mode) == mode,
        flags & 0o100 == 0 && flags & 0o20_000_000 == 0 ==> effective_mode(flags, mode) == 0,
{
    assert(flags & 0o20_000_000 != 0 ==> flags & 0o20_000_000 == 0o20_000_000) by (bit_vector);
}

/// What [`open_needs_mode`] and [`mode_to_forward`] return for the same flags:
/// a mode is needed exactly if one of the two bits is set, and then it is the
/// caller's.
pub proof fn law_needed_mode_is_the_callers(flags: i32, mode: u32, needs: bool, forwarded: u32)
    requires
        call_ensures(open_needs_mode, (flags,), needs),
        call_ensures(mode_to_forward, (flags, mode), forwarded),
    ensures
        needs <==> (flags & 0o100 != 0 || flags & 0o20_000_000 != 0),
        forwarded == (if needs {
            mode
        } else {
            0
        }),
{
    law_mode_goes_with_a_created_file(flags, mode);
    assert(flags & 0o20_000_000 != 0 ==> flags & 0o20_000_000 == 0o20_000_000) by (bit_vector);
}

} // verus!
