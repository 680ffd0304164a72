//! The optional call trace: one line per traced call, appended to the file
//! that `DNF_SHM_TRACE` names.

use vstd::prelude::*;

use crate::rewrite;
use crate::rewrite::PathArg;
use crate::text;
use crate::text::{put_byte, put_bytes, put_dec, put_hex, put_micros};

verus! {

/// What stands between the tag and the hexadecimal flags.
pub const FLAGS_LABEL: [u8; 6] = [
    ' ' as u8,
    'f' as u8,
    'l' as u8,
    '=' as u8,
    '0' as u8,
    'x' as u8,
];

/// What stands between the flags and the returned value.
pub const RET_LABEL: [u8; 3] = [' ' as u8, 'r' as u8, '=' as u8];

/// The tags of the traced calls.
pub const SHM_OPEN_TAG: [u8; 8] = [
    's' as u8,
    'h' as u8,
    'm' as u8,
    '_' as u8,
    'o' as u8,
    'p' as u8,
    'e' as u8,
    'n' as u8,
];

pub const SHM_UNLINK_TAG: [u8; 10] = [
    's' as u8,
    'h' as u8,
    'm' as u8,
    '_' as u8,
    'u' as u8,
    'n' as u8,
    'l' as u8,
    'i' as u8,
    'n' as u8,
    'k' as u8,
];

pub const XSTAT64_TAG: [u8; 7] = [
    'x' as u8,
    's' as u8,
    't' as u8,
    'a' as u8,
    't' as u8,
    '6' as u8,
    '4' as u8,
];

/// What a record shows for a null path.
pub const NULL_PATH: [u8; 6] = [
    '(' as u8,
    'n' as u8,
    'u' as u8,
    'l' as u8,
    'l' as u8,
    ')' as u8,
];

/// The most that one record takes, its line end included.
pub const TRACE_LINE_LEN: usize = 512;

/// `O_WRONLY | O_CREAT | O_APPEND`.
pub const TRACE_OPEN_FLAGS: u32 = 1089;

/// The mode of a new trace file.
pub const TRACE_OPEN_MODE: u32 = 0o644;

/// 32-bit x86 system call numbers. Raw system calls avoid re-entering the
/// hooked libc symbols.
pub const GETTIMEOFDAY: u32 = 78;

pub const GETPID: u32 = 20;

pub const OPEN: u32 = 5;

pub const WRITE: u32 = 4;

pub const CLOSE: u32 = 6;

/// Which call a record is about.
#[derive(Clone, Copy, Debug, PartialEq, Eq, Structural)]
pub enum Tag {
    ShmOpen,
    ShmUnlink,
    Xstat64,
}

/// A call to be traced.
#[derive(Clone, Copy, Debug, PartialEq, Eq, Structural)]
pub struct TraceEvent {
    pub tag: Tag,
    /// The path or name that went out.
    pub path: PathArg,
    pub flags: i32,
    /// What the call returned.
    pub ret: i32,
}

/// The text of a tag.
pub open spec fn tag_text(tag: Tag) -> Seq<u8> {
    match tag {
        Tag::ShmOpen => SHM_OPEN_TAG@,
        Tag::ShmUnlink => SHM_UNLINK_TAG@,
        Tag::Xstat64 => XSTAT64_TAG@,
    }
}

/// A 32-bit register read as an unsigned number.
pub open spec fn unsigned_32(v: i32) -> nat {
    if v >= 0 {
        v as nat
    } else {
        (v + 0x1_0000_0000) as nat
    }
}

/// A 32-bit register widened to 64 bits with its sign, read as an unsigned
/// number.
pub open spec fn unsigned_64(v: i32) -> nat {
    if v >= 0 {
        v as nat
    } else {
        (v + 0x1_0000_0000_0000_0000) as nat
    }
}

/// Everything in a trace record before the path:
/// `<sec>.<usec6> <pid> <tag> fl=0x<hex> r=<dec> `.
pub open spec fn trace_head(
    sec: nat,
    usec: nat,
    pid: nat,
    tag: Seq<u8>,
    flags: i32,
    ret: i32,
) -> Seq<u8> {
    text::dec(sec) + seq!['.' as u8] + text::padded_dec(usec, 6)
        + seq![' ' as u8] + text::dec(pid) + seq![' ' as u8] + tag + FLAGS_LABEL@
        + text::hex(unsigned_32(flags)) + RET_LABEL@ + text::signed_dec(ret as int)
        + seq![' ' as u8]
}

/// A record whose text before the line end is `body`, cut to `cap` bytes: as
/// much of the text as leaves room for the line end, then the line end.
pub open spec fn cut_line(body: Seq<u8>, cap: int) -> Seq<u8> {
    if cap <= 0 {
        seq![]
    } else if body.len() < cap {
        body.push('\n' as u8)
    } else {
        body.take(cap - 1).push('\n' as u8)
    }
}

/// Writes everything in a trace record before the path, as far as `buf`
/// reaches, and returns the new position.
fn put_head(
    buf: &mut [u8],
    sec: u64,
    usec: u32,
    pid: u32,
    tag: &[u8],
    flags: i32,
    ret: i32,
) -> (end: usize)
    ensures
        final(buf)@ == text::put_at(
            old(buf)@,
            0,
            trace_head(sec as nat, usec as nat, pid as nat, tag@, flags, ret),
        ),
        end == text::put_end(
            old(buf)@.len() as int,
            0,
            trace_head(sec as nat, usec as nat, pid as nat, tag@, flags, ret).len() as int,
        ),
{
    let ghost start = buf@;
    let ghost mut laid: Seq<u8> = text::dec(sec as nat);
    let mut p: usize = put_dec(buf, 0, sec);
    p = put_byte(buf, p, '.' as u8);
    proof {
        text::lemma_put_in_two(start, 0, laid, seq!['.' as u8]);
        laid = laid + seq!['.' as u8];
    }
    p = put_micros(buf, p, usec);
    proof {
        text::lemma_padded_dec_len(usec as nat, 6);
        text::lemma_put_in_two(start, 0, laid, text::padded_dec(usec as nat, 6));
        laid = laid + text::padded_dec(usec as nat, 6);
    }
    p = put_byte(buf, p, ' ' as u8);
    proof {
        text::lemma_put_in_two(start, 0, laid, seq![' ' as u8]);
        laid = laid + seq![' ' as u8];
    }
    p = put_dec(buf, p, pid as u64);
    proof {
        text::lemma_put_in_two(start, 0, laid, text::dec(pid as nat));
        laid = laid + text::dec(pid as nat);
    }
    p = put_byte(buf, p, ' ' as u8);
    proof {
        text::lemma_put_in_two(start, 0, laid, seq![' ' as u8]);
        laid = laid + seq![' ' as u8];
    }
    p = put_bytes(buf, p, tag);
    proof {
        text::lemma_put_in_two(start, 0, laid, tag@);
        laid = laid + tag@;
    }
    p = put_bytes(buf, p, &FLAGS_LABEL);
    proof {
        text::lemma_put_in_two(start, 0, laid, FLAGS_LABEL@);
        laid = laid + FLAGS_LABEL@;
        assert(flags as u32 == unsigned_32(flags)) by {
            assert(flags >= 0 ==> flags as u32 == flags) by (bit_vector);
            assert(flags < 0 ==> flags as u32 == flags + 0x1_0000_0000) by (bit_vector);
        }
    }
    p = put_hex(buf, p, flags as u32);
    proof {
        text::lemma_put_in_two(start, 0, laid, text::hex(unsigned_32(flags)));
        laid = laid + text::hex(unsigned_32(flags));
    }
    p = put_bytes(buf, p, &RET_LABEL);
    proof {
        text::lemma_put_in_two(start, 0, laid, RET_LABEL@);
        laid = laid + RET_LABEL@;
    }
    let ghost before_ret = laid;
    if ret < 0 {
        p = put_byte(buf, p, '-' as u8);
        proof {
            text::lemma_put_in_two(start, 0, laid, seq!['-' as u8]);
            laid = laid + seq!['-' as u8];
        }
        p = put_dec(buf, p, (-(ret as i64)) as u64);
        proof {
            text::lemma_put_in_two(start, 0, laid, text::dec((-ret) as nat));
            laid = laid + text::dec((-ret) as nat);
        }
    } else {
        p = put_dec(buf, p, ret as u64);
        proof {
            text::lemma_put_in_two(start, 0, laid, text::dec(ret as nat));
            laid = laid + text::dec(ret as nat);
        }
    }
    assert(laid =~= before_ret + text::signed_dec(ret as int));
    p = put_byte(buf, p, ' ' as u8);
    proof {
        text::lemma_put_in_two(start, 0, laid, seq![' ' as u8]);
        laid = laid + seq![' ' as u8];
    }
    assert(laid =~= trace_head(sec as nat, usec as nat, pid as nat, tag@, flags, ret));
    p
}

/// Build one trace record into `buf`, returning its length. Format:
/// `<sec>.<usec6> <pid> <tag> fl=0x<hex> r=<dec> <path>\n`, truncated to fit.
pub fn build_trace_line(
    buf: &mut [u8],
    sec: u64,
    usec: u32,
    pid: u32,
    tag: &[u8],
    flags: i32,
    ret: i32,
    path: &[u8],
) -> (n: usize)
    ensures
        ({
            let line = cut_line(
                trace_head(sec as nat, usec as nat, pid as nat, tag@, flags, ret) + path@,
                old(buf)@.len() as int,
            );
            &&& n == line.len()
            &&& final(buf)@ == text::put_at(old(buf)@, 0, line)
        }),
{
    let cap = buf.len();
    let ghost start = buf@;
    if cap == 0 {
        assert(buf@ =~= text::put_at(start, 0, seq![]));
        return 0;
    }
    let ghost head = trace_head(sec as nat, usec as nat, pid as nat, tag@, flags, ret);
    let mut p: usize = put_head(buf, sec, usec, pid, tag, flags, ret);
    let mut i: usize = 0;
    assert(head + path@.take(0) =~= head);
    while i < path.len() && p < cap - 1
        invariant
            i <= path@.len(),
            0 < cap == start.len(),
            buf@ == text::put_at(start, 0, head + path@.take(i as int)),
            p == text::put_end(cap as int, 0, (head + path@.take(i as int)).len() as int),
        decreases path@.len() - i,
    {
        let ghost so_far = head + path@.take(i as int);
        p = put_byte(buf, p, path[i]);
        proof {
            text::lemma_put_in_two(start, 0, so_far, seq![path@[i as int]]);
            assert(so_far + seq![path@[i as int]] =~= head + path@.take(i + 1));
        }
        i += 1;
    }
    let ghost body = head + path@;
    let ghost so_far = head + path@.take(i as int);
    if p < cap {
        buf[p] = '\n' as u8;
        p += 1;
    } else {
        buf[cap - 1] = '\n' as u8;
        p = cap;
    }
    proof {
        assert(path@.take(path@.len() as int) =~= path@);
        assert forall|k: int| 0 <= k < so_far.len() implies so_far[k] == body[k] by {}
        assert(buf@ =~= text::put_at(start, 0, cut_line(body, cap as int)));
    }
    p
}

/// The record of a traced call: `sec`, `usec` and `pid` are the registers that
/// the system calls filled in.
pub open spec fn trace_record(
    sec: i32,
    usec: i32,
    pid: i32,
    tag: Seq<u8>,
    path: Option<Seq<u8>>,
    flags: i32,
    ret: i32,
) -> Seq<u8> {
    let shown = match path {
        Some(p) => p,
        None => NULL_PATH@,
    };
    cut_line(
        trace_head(unsigned_64(sec), unsigned_32(usec), unsigned_32(pid), tag, flags, ret) + shown,
        TRACE_LINE_LEN as int,
    )
}

/// The text of a tag.
pub fn tag_bytes(tag: Tag) -> (bytes: &'static [u8])
    ensures
        bytes@ == tag_text(tag),
{
    match tag {
        Tag::ShmOpen => &SHM_OPEN_TAG,
        Tag::ShmUnlink => &SHM_UNLINK_TAG,
        Tag::Xstat64 => &XSTAT64_TAG,
    }
}

/// The trace file, as a C string with its NUL, for the value of
/// `DNF_SHM_TRACE`. Unset or empty, nothing is traced.
pub fn trace_path(value: Option<Vec<u8>>) -> (file: Option<Vec<u8>>)
    ensures
        (match value {
            Some(v) if v@.len() > 0 => file is Some && file->0@ == v@.push(0),
            _ => file is None,
        }),
{
    match value {
        Some(v) => {
            if v.len() == 0 {
                return None;
            }
            let mut b: Vec<u8> = v;
            b.push(0);
            Some(b)
        },
        None => None,
    }
}

/// The system call that comes next in appending a record.
#[derive(Clone, Copy, Debug, PartialEq, Eq, Structural)]
pub enum EmitStep {
    /// Read the clock.
    ReadClock,
    /// Read the process id; the clock gave these.
    ReadPid { sec: i32, usec: i32 },
    /// Open the trace file; the record takes `len` bytes.
    Open { flags: u32, mode: u32, len: usize },
    /// Write the first `len` bytes of the line to `fd`.
    Write { fd: i32, len: usize },
    /// Close `fd`.
    Close { fd: i32 },
    /// Nothing is left to do.
    Done,
}

/// The first step: nothing is done unless tracing is on.
pub open spec fn first_emit_step(enabled: bool) -> EmitStep {
    if enabled {
        EmitStep::ReadClock
    } else {
        EmitStep::Done
    }
}

/// The step after `step`, whose system call gave `first` (and, of the clock,
/// `second`). A file that could not be opened ends it.
pub open spec fn next_emit_step(
    step: EmitStep,
    first: i32,
    second: i32,
    tag: Seq<u8>,
    path: Option<Seq<u8>>,
    call_flags: i32,
    ret: i32,
) -> EmitStep {
    match step {
        EmitStep::ReadClock => EmitStep::ReadPid { sec: first, usec: second },
        EmitStep::ReadPid { sec, usec } => EmitStep::Open {
            flags: TRACE_OPEN_FLAGS,
            mode: TRACE_OPEN_MODE,
            len: trace_record(sec, usec, first, tag, path, call_flags, ret).len() as usize,
        },
        EmitStep::Open { flags, mode, len } => if first >= 0 {
            EmitStep::Write { fd: first, len }
        } else {
            EmitStep::Done
        },
        EmitStep::Write { fd, len } => EmitStep::Close { fd },
        EmitStep::Close { fd } => EmitStep::Done,
        EmitStep::Done => EmitStep::Done,
    }
}

/// The line buffer after the step: the record stands in it once the process id
/// is known.
pub open spec fn line_after(
    step: EmitStep,
    first: i32,
    tag: Seq<u8>,
    path: Option<Seq<u8>>,
    call_flags: i32,
    ret: i32,
    before: Seq<u8>,
) -> Seq<u8> {
    match step {
        EmitStep::ReadPid { sec, usec } => text::put_at(
            before,
            0,
            trace_record(sec, usec, first, tag, path, call_flags, ret),
        ),
        _ => before,
    }
}

/// Starts to append one record. No-op unless tracing is on.
pub fn emit_start(enabled: bool) -> (step: EmitStep)
    ensures
        step == first_emit_step(enabled),
{
    if enabled {
        EmitStep::ReadClock
    } else {
        EmitStep::Done
    }
}

/// Append one record, a system call at a time: `step` was performed and gave
/// `first` and `second`; returns what to perform next. The record is about the
/// call `tag`, with `call_flags`, on `path`, `None` for null, which returned
/// `ret`.
pub fn emit(
    step: EmitStep,
    first: i32,
    second: i32,
    tag: &[u8],
    path: Option<&[u8]>,
    call_flags: i32,
    ret: i32,
    line: &mut [u8; TRACE_LINE_LEN],
) -> (next: EmitStep)
    ensures
        next == next_emit_step(
            step,
            first,
            second,
            tag@,
            rewrite::opt_view(path),
            call_flags,
            ret,
        ),
        final(line)@ == line_after(
            step,
            first,
            tag@,
            rewrite::opt_view(path),
            call_flags,
            ret,
            old(line)@,
        ),
{
    match step {
        EmitStep::ReadClock => EmitStep::ReadPid { sec: first, usec: second },
        EmitStep::ReadPid { sec, usec } => {
            let shown: &[u8] = match path {
                Some(p) => p,
                None => &NULL_PATH,
            };
            proof {
                assert(sec >= 0 ==> sec as u64 == sec) by (bit_vector);
                assert(sec < 0 ==> sec as u64 == sec + 0x1_0000_0000_0000_0000) by (bit_vector);
                assert(usec >= 0 ==> usec as u32 == usec) by (bit_vector);
                assert(usec < 0 ==> usec as u32 == usec + 0x1_0000_0000) by (bit_vector);
                assert(first >= 0 ==> first as u32 == first) by (bit_vector);
                assert(first < 0 ==> first as u32 == first + 0x1_0000_0000) by (bit_vector);
            }
            let n: usize = build_trace_line(
                line,
                sec as u64,
                usec as u32,
                first as u32,
                tag,
                call_flags,
                ret,
                shown,
            );
            EmitStep::Open { flags: TRACE_OPEN_FLAGS, mode: TRACE_OPEN_MODE, len: n }
        },
        EmitStep::Open { flags, mode, len } => if first >= 0 {
            EmitStep::Write { fd: first, len }
        } else {
            EmitStep::Done
        },
        EmitStep::Write { fd, len } => EmitStep::Close { fd },
        EmitStep::Close { fd } => EmitStep::Done,
        EmitStep::Done => EmitStep::Done,
    }
}

} // verus!
