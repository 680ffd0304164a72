//! What holds of every trace record.

use vstd::arithmetic::power::pow;
use vstd::prelude::*;

use crate::text;
use crate::text_laws;
use crate::trace;
use crate::trace::{
    build_trace_line, emit, emit_start, tag_bytes, trace_path, EmitStep, Tag, TRACE_LINE_LEN,
    TRACE_OPEN_FLAGS, TRACE_OPEN_MODE,
};

verus! {

/// A record fits its buffer and ends with the line end.
pub proof fn law_line_fits_and_ends(body: Seq<u8>, cap: int)
    requires
        cap > 0,
    ensures
        0 < trace::cut_line(body, cap).len() <= cap,
        trace::cut_line(body, cap).last() == '\n' as u8,
{
}

/// A record that fits is complete; of another, the first bytes are there, as
/// many as leave room for the line end.
pub proof fn law_line_is_cut_at_the_end_only(body: Seq<u8>, cap: int)
    requires
        cap > 0,
    ensures
        trace::cut_line(body, cap).drop_last().is_prefix_of(body),
        body.len() < cap ==> trace::cut_line(body, cap).drop_last() == body,
        body.len() >= cap ==> trace::cut_line(body, cap).len() == cap,
{
    let line = trace::cut_line(body, cap);
    assert(line.drop_last() =~= body.take(line.len() - 1));
    if body.len() < cap {
        assert(body.take(body.len() as int) =~= body);
    }
}

/// The text holds no line end.
pub open spec fn one_line(s: Seq<u8>) -> bool {
    !s.contains('\n' as u8)
}

proof fn lemma_one_line_joined(a: Seq<u8>, b: Seq<u8>)
    requires
        one_line(a),
        one_line(b),
    ensures
        one_line(a + b),
{
    let s = a + b;
    if s.contains('\n' as u8) {
        let i = choose|i: int| 0 <= i < s.len() && s[i] == '\n' as u8;
        if i < a.len() {
            assert(a[i] == '\n' as u8);
        } else {
            assert(b[i - a.len()] == '\n' as u8);
        }
    }
}

proof fn lemma_head_is_one_line(
    sec: nat,
    usec: nat,
    pid: nat,
    tag: Seq<u8>,
    flags: i32,
    ret: i32,
)
    requires
        one_line(tag),
    ensures
        one_line(trace::trace_head(sec, usec, pid, tag, flags, ret)),
{
    let space = seq![' ' as u8];
    let dot = seq!['.' as u8];
    let minus = seq!['-' as u8];
    let seconds = text::dec(sec);
    let micros = text::padded_dec(usec, 6);
    let process = text::dec(pid);
    let hex_flags = text::hex(trace::unsigned_32(flags));
    let magnitude = text::dec(if ret < 0 {
        (-ret) as nat
    } else {
        ret as nat
    });
    text_laws::law_dec_is_canonical(sec);
    text_laws::law_padded_dec_reads_back(usec, 6);
    text_laws::law_dec_is_canonical(pid);
    text_laws::law_hex_is_canonical(trace::unsigned_32(flags));
    text_laws::law_dec_is_canonical(
        if ret < 0 {
            (-ret) as nat
        } else {
            ret as nat
        },
    );
    assert(one_line(space) && one_line(dot) && one_line(minus));
    assert(one_line(trace::FLAGS_LABEL@) && one_line(trace::RET_LABEL@));
    assert(one_line(seconds) && one_line(micros) && one_line(process) && one_line(hex_flags)
        && one_line(magnitude));
    lemma_one_line_joined(minus, magnitude);
    let returned = text::signed_dec(ret as int);
    assert(one_line(returned));
    let s1 = seconds + dot;
    lemma_one_line_joined(seconds, dot);
    let s2 = s1 + micros;
    lemma_one_line_joined(s1, micros);
    let s3 = s2 + space;
    lemma_one_line_joined(s2, space);
    let s4 = s3 + process;
    lemma_one_line_joined(s3, process);
    let s5 = s4 + space;
    lemma_one_line_joined(s4, space);
    let s6 = s5 + tag;
    lemma_one_line_joined(s5, tag);
    let s7 = s6 + trace::FLAGS_LABEL@;
    lemma_one_line_joined(s6, trace::FLAGS_LABEL@);
    let s8 = s7 + hex_flags;
    lemma_one_line_joined(s7, hex_flags);
    let s9 = s8 + trace::RET_LABEL@;
    lemma_one_line_joined(s8, trace::RET_LABEL@);
    let s10 = s9 + returned;
    lemma_one_line_joined(s9, returned);
    lemma_one_line_joined(s10, space);
}

/// A record is one line: if neither the tag nor the path breaks the line, its
/// only line end is its last byte.
pub proof fn law_record_is_one_line(
    sec: nat,
    usec: nat,
    pid: nat,
    tag: Seq<u8>,
    flags: i32,
    ret: i32,
    path: Seq<u8>,
    cap: int,
)
    requires
        cap > 0,
        one_line(tag),
        one_line(path),
    ensures
        ({
            let line = trace::cut_line(
                trace::trace_head(sec, usec, pid, tag, flags, ret) + path,
                cap,
            );
            line.last() == '\n' as u8 && one_line(line.drop_last())
        }),
{
    let head = trace::trace_head(sec, usec, pid, tag, flags, ret);
    let body = head + path;
    lemma_head_is_one_line(sec, usec, pid, tag, flags, ret);
    lemma_one_line_joined(head, path);
    law_line_fits_and_ends(body, cap);
    law_line_is_cut_at_the_end_only(body, cap);
    let text = trace::cut_line(body, cap).drop_last();
    if text.contains('\n' as u8) {
        let i = choose|i: int| 0 <= i < text.len() && text[i] == '\n' as u8;
        assert(body[i] == '\n' as u8);
    }
}

/// The fields of a record from the returned value on.
spec fn from_ret(ret: i32, path: Seq<u8>) -> Seq<u8> {
    text::signed_dec(ret as int) + seq![' ' as u8] + path
}

/// The fields of a record from the flags on.
spec fn from_flags(flags: i32, ret: i32, path: Seq<u8>) -> Seq<u8> {
    text::hex(trace::unsigned_32(flags)) + seq![' ' as u8] + (trace::RET_LABEL@.skip(1) + from_ret(
        ret,
        path,
    ))
}

/// The fields of a record from the tag on.
spec fn from_tag(tag: Seq<u8>, flags: i32, ret: i32, path: Seq<u8>) -> Seq<u8> {
    tag + seq![' ' as u8] + (trace::FLAGS_LABEL@.skip(1) + from_flags(flags, ret, path))
}

/// The fields of a record from the microseconds on.
spec fn from_micros(
    usec: nat,
    pid: nat,
    tag: Seq<u8>,
    flags: i32,
    ret: i32,
    path: Seq<u8>,
) -> Seq<u8> {
    text::padded_dec(usec, 6) + seq![' ' as u8] + (text::dec(pid) + seq![' ' as u8] + from_tag(
        tag,
        flags,
        ret,
        path,
    ))
}

proof fn lemma_record_unrolled(
    sec: nat,
    usec: nat,
    pid: nat,
    tag: Seq<u8>,
    flags: i32,
    ret: i32,
    path: Seq<u8>,
)
    ensures
        trace::trace_head(sec, usec, pid, tag, flags, ret) + path == text::dec(sec)
            + seq!['.' as u8] + from_micros(usec, pid, tag, flags, ret, path),
{
    assert(trace::FLAGS_LABEL@ =~= seq![' ' as u8] + trace::FLAGS_LABEL@.skip(1));
    assert(trace::RET_LABEL@ =~= seq![' ' as u8] + trace::RET_LABEL@.skip(1));
    assert(trace::trace_head(sec, usec, pid, tag, flags, ret) + path =~= text::dec(sec)
        + seq!['.' as u8] + from_micros(usec, pid, tag, flags, ret, path));
}

/// Where two texts are cut at the first `sep`, the cut is the same.
proof fn lemma_cut_at(a: Seq<u8>, b: Seq<u8>, a2: Seq<u8>, b2: Seq<u8>, sep: u8)
    requires
        !a.contains(sep),
        !a2.contains(sep),
        a + seq![sep] + b == a2 + seq![sep] + b2,
    ensures
        a == a2,
        b == b2,
{
    let s = a + seq![sep] + b;
    let s2 = a2 + seq![sep] + b2;
    if a.len() < a2.len() {
        assert(s[a.len() as int] == sep && s2[a.len() as int] == a2[a.len() as int]);
    }
    if a2.len() < a.len() {
        assert(s2[a2.len() as int] == sep && s[a2.len() as int] == a[a2.len() as int]);
    }
    assert(a =~= s.take(a.len() as int));
    assert(a2 =~= s2.take(a2.len() as int));
    assert(b =~= s.skip(a.len() as int + 1));
    assert(b2 =~= s2.skip(a2.len() as int + 1));
}

proof fn lemma_behind_label(label: Seq<u8>, b: Seq<u8>, b2: Seq<u8>)
    requires
        label + b == label + b2,
    ensures
        b == b2,
{
    assert(b =~= (label + b).skip(label.len() as int));
    assert(b2 =~= (label + b2).skip(label.len() as int));
}

proof fn lemma_dec_is_plain(v: nat)
    ensures
        !text::dec(v).contains(' ' as u8),
        !text::dec(v).contains('.' as u8),
        !text::dec(v).contains('-' as u8),
{
    text_laws::law_dec_is_canonical(v);
}

proof fn lemma_signed_dec_is_plain(v: int)
    ensures
        !text::signed_dec(v).contains(' ' as u8),
{
    if v < 0 {
        lemma_dec_is_plain((-v) as nat);
        let d = text::dec((-v) as nat);
        let s = text::signed_dec(v);
        if s.contains(' ' as u8) {
            let i = choose|i: int| 0 <= i < s.len() && s[i] == ' ' as u8;
            assert(d[i - 1] == ' ' as u8);
        }
    } else {
        lemma_dec_is_plain(v as nat);
    }
}

proof fn lemma_signed_dec_reads_back(v: int, w: int)
    requires
        text::signed_dec(v) == text::signed_dec(w),
    ensures
        v == w,
{
    let n = if v < 0 {
        (-v) as nat
    } else {
        v as nat
    };
    let m = if w < 0 {
        (-w) as nat
    } else {
        w as nat
    };
    text_laws::law_dec_is_canonical(n);
    text_laws::law_dec_is_canonical(m);
    text_laws::law_dec_reads_back(n);
    text_laws::law_dec_reads_back(m);
    assert(v < 0 <==> text::signed_dec(v)[0] == '-' as u8);
    assert(w < 0 <==> text::signed_dec(w)[0] == '-' as u8);
    if v < 0 {
        lemma_behind_label(seq!['-' as u8], text::dec(n), text::dec(m));
    }
}

/// A record that was not cut says what was traced: two records with the same
/// text have the same fields. Tags hold no space; of the microseconds, six
/// digits are kept.
pub proof fn law_record_reads_back(
    sec: nat,
    usec: nat,
    pid: nat,
    tag: Seq<u8>,
    flags: i32,
    ret: i32,
    path: Seq<u8>,
    sec2: nat,
    usec2: nat,
    pid2: nat,
    tag2: Seq<u8>,
    flags2: i32,
    ret2: i32,
    path2: Seq<u8>,
)
    requires
        !tag.contains(' ' as u8),
        !tag2.contains(' ' as u8),
        trace::trace_head(sec, usec, pid, tag, flags, ret) + path == trace::trace_head(
            sec2,
            usec2,
            pid2,
            tag2,
            flags2,
            ret2,
        ) + path2,
    ensures
        sec == sec2,
        usec % 1_000_000 == usec2 % 1_000_000,
        pid == pid2,
        tag == tag2,
        flags == flags2,
        ret == ret2,
        path == path2,
{
    let space = ' ' as u8;
    lemma_record_unrolled(sec, usec, pid, tag, flags, ret, path);
    lemma_record_unrolled(sec2, usec2, pid2, tag2, flags2, ret2, path2);
    lemma_dec_is_plain(sec);
    lemma_dec_is_plain(sec2);
    let micros = from_micros(usec, pid, tag, flags, ret, path);
    let micros2 = from_micros(usec2, pid2, tag2, flags2, ret2, path2);
    lemma_cut_at(text::dec(sec), micros, text::dec(sec2), micros2, '.' as u8);
    text_laws::law_dec_reads_back(sec);
    text_laws::law_dec_reads_back(sec2);

    let u = text::padded_dec(usec, 6);
    let u2 = text::padded_dec(usec2, 6);
    text_laws::law_padded_dec_reads_back(usec, 6);
    text_laws::law_padded_dec_reads_back(usec2, 6);
    let rest = text::dec(pid) + seq![space] + from_tag(tag, flags, ret, path);
    let rest2 = text::dec(pid2) + seq![space] + from_tag(tag2, flags2, ret2, path2);
    lemma_cut_at(u, rest, u2, rest2, space);
    assert(pow(10, 6) == 1_000_000) by {
        reveal_with_fuel(pow, 7);
    }

    lemma_dec_is_plain(pid);
    lemma_dec_is_plain(pid2);
    lemma_cut_at(
        text::dec(pid),
        from_tag(tag, flags, ret, path),
        text::dec(pid2),
        from_tag(tag2, flags2, ret2, path2),
        space,
    );
    text_laws::law_dec_reads_back(pid);
    text_laws::law_dec_reads_back(pid2);

    let fl = from_flags(flags, ret, path);
    let fl2 = from_flags(flags2, ret2, path2);
    let fl_label = trace::FLAGS_LABEL@.skip(1);
    lemma_cut_at(tag, fl_label + fl, tag2, fl_label + fl2, space);
    lemma_behind_label(fl_label, fl, fl2);

    let h = text::hex(trace::unsigned_32(flags));
    let h2 = text::hex(trace::unsigned_32(flags2));
    text_laws::law_hex_is_canonical(trace::unsigned_32(flags));
    text_laws::law_hex_is_canonical(trace::unsigned_32(flags2));
    let ret_label = trace::RET_LABEL@.skip(1);
    lemma_cut_at(h, ret_label + from_ret(ret, path), h2, ret_label + from_ret(ret2, path2), space);
    text_laws::law_hex_reads_back(trace::unsigned_32(flags));
    text_laws::law_hex_reads_back(trace::unsigned_32(flags2));
    lemma_behind_label(ret_label, from_ret(ret, path), from_ret(ret2, path2));

    lemma_signed_dec_is_plain(ret as int);
    lemma_signed_dec_is_plain(ret2 as int);
    lemma_cut_at(text::signed_dec(ret as int), path, text::signed_dec(ret2 as int), path2, space);
    lemma_signed_dec_reads_back(ret as int, ret2 as int);
}

/// Without a trace file no system call is made.
pub proof fn law_no_file_no_trace()
    ensures
        trace::first_emit_step(false) == EmitStep::Done,
{
}

/// With a trace file: clock, process id, open; and if the file opens, the whole
/// record is written to it in one call and it is closed, whatever the write
/// returns. If it does not open, nothing follows.
pub proof fn law_record_is_written_once_and_the_file_closed(
    tag: Seq<u8>,
    path: Option<Seq<u8>>,
    call_flags: i32,
    ret: i32,
    sec: i32,
    usec: i32,
    pid: i32,
    fd: i32,
    written: i32,
    closed: i32,
)
    ensures
        ({
            let record = trace::trace_record(sec, usec, pid, tag, path, call_flags, ret);
            let clock = trace::first_emit_step(true);
            let getpid = trace::next_emit_step(clock, sec, usec, tag, path, call_flags, ret);
            let open = trace::next_emit_step(getpid, pid, 0, tag, path, call_flags, ret);
            let opened = trace::next_emit_step(open, fd, 0, tag, path, call_flags, ret);
            let wrote = trace::next_emit_step(opened, written, 0, tag, path, call_flags, ret);
            &&& clock == EmitStep::ReadClock
            &&& getpid == (EmitStep::ReadPid { sec, usec })
            &&& open == (EmitStep::Open {
                flags: TRACE_OPEN_FLAGS,
                mode: TRACE_OPEN_MODE,
                len: record.len() as usize,
            })
            &&& 0 < record.len() <= TRACE_LINE_LEN
            &&& fd < 0 ==> opened == EmitStep::Done
            &&& fd >= 0 ==> opened == (EmitStep::Write { fd, len: record.len() as usize })
                && wrote == (EmitStep::Close { fd }) && trace::next_emit_step(
                wrote,
                closed,
                0,
                tag,
                path,
                call_flags,
                ret,
            ) == EmitStep::Done
        }),
{
}

/// The line buffer holds the record from the moment the process id is known
/// until the write.
pub proof fn law_buffer_holds_the_record(
    tag: Seq<u8>,
    path: Option<Seq<u8>>,
    call_flags: i32,
    ret: i32,
    sec: i32,
    usec: i32,
    pid: i32,
    fd: i32,
    before: Seq<u8>,
)
    requires
        before.len() == TRACE_LINE_LEN,
    ensures
        ({
            let record = trace::trace_record(sec, usec, pid, tag, path, call_flags, ret);
            let getpid = EmitStep::ReadPid { sec, usec };
            let open = trace::next_emit_step(getpid, pid, 0, tag, path, call_flags, ret);
            let line = trace::line_after(getpid, pid, tag, path, call_flags, ret, before);
            trace::line_after(open, fd, tag, path, call_flags, ret,
                line).take(record.len() as int) == record
        }),
{
}

/// What [`build_trace_line`] does: `<sec>.<usec6> <pid> <tag> fl=0x<hex> r=<dec>
/// <path>` and the line end are laid at the start of the buffer. If they do not
/// fit, the buffer is filled with the beginning, and its last byte is the line
/// end. Nothing behind the record changes.
pub proof fn law_trace_line_shows_every_field(
    buf: &mut [u8],
    sec: u64,
    usec: u32,
    pid: u32,
    tag: &[u8],
    flags: i32,
    ret: i32,
    path: &[u8],
    n: usize,
)
    requires
        call_ensures(build_trace_line, (buf, sec, usec, pid, tag, flags, ret, path), n),
    ensures
        ({
            let line = text::dec(sec as nat) + seq!['.' as u8]
                + text::padded_dec(usec as nat, 6) + seq![' ' as u8]
                + text::dec(pid as nat) + seq![' ' as u8] + tag@
                    + seq![' ' as u8, 'f' as u8, 'l' as u8, '=' as u8, '0' as u8, 'x' as u8]
                + text::hex(
                if flags >= 0 {
                    flags as nat
                } else {
                    (flags + 0x1_0000_0000) as nat
                },
            ) + seq![' ' as u8, 'r' as u8, '=' as u8] + (if ret < 0 {
                seq!['-' as u8] + text::dec((-ret) as nat)
            } else {
                text::dec(ret as nat)
            }) + seq![' ' as u8] + path@ + seq!['\n' as u8];
            &&& final(buf)@.len() == old(buf)@.len()
            &&& line.len() <= old(buf)@.len() ==> n == line.len()
            &&& line.len() > old(buf)@.len() ==> n == old(buf)@.len()
            &&& n > 0 ==> final(buf)@[n - 1] == '\n' as u8
            &&& forall|i: int| 0 <= i < n - 1 ==> #[trigger] final(buf)@[i] == line[i]
            &&& forall|i: int|
                n <= i < old(buf)@.len() ==> #[trigger] final(buf)@[i] == old(buf)@[i]
        }),
{
    lemma_labels();
    let body = trace::trace_head(sec as nat, usec as nat, pid as nat, tag@, flags, ret) + path@;
    let line = text::dec(sec as nat) + seq!['.' as u8] + text::padded_dec(usec as nat, 6)
        + seq![' ' as u8]
        + text::dec(pid as nat) + seq![' ' as u8] + tag@
            + seq![' ' as u8, 'f' as u8, 'l' as u8, '=' as u8, '0' as u8, 'x' as u8]
        + text::hex(
        if flags >= 0 {
            flags as nat
        } else {
            (flags + 0x1_0000_0000) as nat
        },
    ) + seq![' ' as u8, 'r' as u8, '=' as u8] + (if ret < 0 {
        seq!['-' as u8] + text::dec((-ret) as nat)
    } else {
        text::dec(ret as nat)
    }) + seq![' ' as u8] + path@ + seq!['\n' as u8];
    assert(line == body + seq!['\n' as u8]);
}

proof fn lemma_labels()
    ensures
        trace::FLAGS_LABEL@ == seq![' ' as u8, 'f' as u8, 'l' as u8, '=' as u8, '0' as u8,
            'x' as u8],
        trace::RET_LABEL@ == seq![' ' as u8, 'r' as u8, '=' as u8],
        trace::NULL_PATH@ == seq!['(' as u8, 'n' as u8, 'u' as u8, 'l' as u8, 'l' as u8, ')' as u8],
{
    assert(trace::FLAGS_LABEL@ =~= seq![' ' as u8, 'f' as u8, 'l' as u8, '=' as u8, '0' as u8,
        'x' as u8]);
    assert(trace::RET_LABEL@ =~= seq![' ' as u8, 'r' as u8, '=' as u8]);
    assert(trace::NULL_PATH@ =~= seq!['(' as u8, 'n' as u8, 'u' as u8, 'l' as u8, 'l' as u8,
        ')' as u8]);
}

/// What [`emit`] does once the process id is known: the record of the call is
/// laid into the line, with its path, whatever the call returned; only a null
/// path is shown as `(null)`. Then the trace file is to be opened for appending,
/// created with mode 644 where it is missing, and as many bytes will be written
/// as the record has.
pub proof fn law_record_shows_the_path(
    sec: i32,
    usec: i32,
    pid: i32,
    second: i32,
    tag: &[u8],
    path: Option<&[u8]>,
    call_flags: i32,
    ret: i32,
    line: &mut [u8; 512],
    next: EmitStep,
)
    requires
        call_ensures(
            emit,
            (
                (EmitStep::ReadPid { sec, usec }),
                pid,
                second,
                tag,
                path,
                call_flags,
                ret,
                line,
            ),
            next,
        ),
    ensures
        ({
            let shown = if path is Some {
                path->0@
            } else {
                seq!['(' as u8, 'n' as u8, 'u' as u8, 'l' as u8, 'l' as u8, ')' as u8]
            };
            let record = text::dec(if sec >= 0 {
                    sec as nat
                } else {
                    (sec + 0x1_0000_0000_0000_0000) as nat
                }) + seq!['.' as u8] + text::padded_dec(if usec >= 0 {
                    usec as nat
                } else {
                    (usec + 0x1_0000_0000) as nat
                }, 6) + seq![' ' as u8]
                + text::dec(if pid >= 0 {
                    pid as nat
                } else {
                    (pid + 0x1_0000_0000) as nat
                }) + seq![' ' as u8] + tag@ + seq![' ' as u8, 'f' as u8, 'l' as u8, '=' as u8,
                    '0' as u8, 'x' as u8]
                + text::hex(
                if call_flags >= 0 {
                    call_flags as nat
                } else {
                    (call_flags + 0x1_0000_0000) as nat
                },
            ) + seq![' ' as u8, 'r' as u8, '=' as u8] + (if ret < 0 {
                seq!['-' as u8] + text::dec((-ret) as nat)
            } else {
                text::dec(ret as nat)
            }) + seq![' ' as u8] + shown + seq!['\n' as u8];
            let n = if record.len() <= 512 {
                record.len() as int
            } else {
                512
            };
            &&& next == (EmitStep::Open { flags: 1089, mode: 0o644, len: n as usize })
            &&& final(line)@[n - 1] == '\n' as u8
            &&& forall|i: int| 0 <= i < n - 1 ==> #[trigger] final(line)@[i] == record[i]
            &&& forall|i: int| n <= i < 512 ==> #[trigger] final(line)@[i] == old(line)@[i]
        }),
{
    lemma_labels();
    let shown = if path is Some {
        path->0@
    } else {
        seq!['(' as u8, 'n' as u8, 'u' as u8, 'l' as u8, 'l' as u8, ')' as u8]
    };
    let body = trace::trace_head(
        trace::unsigned_64(sec),
        trace::unsigned_32(usec),
        trace::unsigned_32(pid),
        tag@,
        call_flags,
        ret,
    ) + shown;
    let record = text::dec(trace::unsigned_64(sec)) + seq!['.' as u8]
        + text::padded_dec(trace::unsigned_32(usec), 6) + seq![' ' as u8]
        + text::dec(trace::unsigned_32(pid)) + seq![' ' as u8] + tag@
            + seq![' ' as u8, 'f' as u8, 'l' as u8, '=' as u8, '0' as u8, 'x' as u8]
        + text::hex(
        if call_flags >= 0 {
            call_flags as nat
        } else {
            (call_flags + 0x1_0000_0000) as nat
        },
    ) + seq![' ' as u8, 'r' as u8, '=' as u8] + (if ret < 0 {
        seq!['-' as u8] + text::dec((-ret) as nat)
    } else {
        text::dec(ret as nat)
    }) + seq![' ' as u8] + shown + seq!['\n' as u8];
    assert(record == body + seq!['\n' as u8]);
}

/// What [`emit_start`] and the other steps of [`emit`] do: off, nothing; then
/// the clock, whose two values are kept; a file that opened is written to and
/// closed; and the line is left alone.
pub proof fn law_steps_of_a_trace(
    enabled: bool,
    start: EmitStep,
    step: EmitStep,
    first: i32,
    second: i32,
    tag: &[u8],
    path: Option<&[u8]>,
    call_flags: i32,
    ret: i32,
    line: &mut [u8; 512],
    next: EmitStep,
)
    requires
        call_ensures(emit_start, (enabled,), start),
        call_ensures(emit, (step, first, second, tag, path, call_flags, ret, line), next),
        !(step is ReadPid),
    ensures
        start == (if enabled {
            EmitStep::ReadClock
        } else {
            EmitStep::Done
        }),
        final(line)@ == old(line)@,
        step is ReadClock ==> next == (EmitStep::ReadPid { sec: first, usec: second }),
        step matches EmitStep::Open { flags, mode, len } ==> next == (if first >= 0 {
            EmitStep::Write { fd: first, len }
        } else {
            EmitStep::Done
        }),
        step matches EmitStep::Write { fd, len } ==> next == (EmitStep::Close { fd }),
        step is Close || step is Done ==> next == EmitStep::Done,
{
}

/// What [`tag_bytes`] returns: the name of the call.
pub proof fn law_tags_name_their_calls(tag: Tag, bytes: &'static [u8])
    requires
        call_ensures(tag_bytes, (tag,), bytes),
    ensures
        tag == Tag::ShmOpen ==> bytes@ == seq!['s' as u8, 'h' as u8, 'm' as u8, '_' as u8,
            'o' as u8, 'p' as u8, 'e' as u8, 'n' as u8],
        tag == Tag::ShmUnlink ==> bytes@ == seq!['s' as u8, 'h' as u8, 'm' as u8, '_' as u8,
            'u' as u8, 'n' as u8, 'l' as u8, 'i' as u8, 'n' as u8, 'k' as u8],
        tag == Tag::Xstat64 ==> bytes@ == seq!['x' as u8, 's' as u8, 't' as u8, 'a' as u8,
            't' as u8, '6' as u8, '4' as u8],
{
    match tag {
        Tag::ShmOpen => {
            assert(bytes@ =~= seq!['s' as u8, 'h' as u8, 'm' as u8, '_' as u8, 'o' as u8,
                'p' as u8, 'e' as u8, 'n' as u8]);
        },
        Tag::ShmUnlink => {
            assert(bytes@ =~= seq!['s' as u8, 'h' as u8, 'm' as u8, '_' as u8, 'u' as u8,
                'n' as u8, 'l' as u8, 'i' as u8, 'n' as u8, 'k' as u8]);
        },
        Tag::Xstat64 => {
            assert(bytes@ =~= seq!['x' as u8, 's' as u8, 't' as u8, 'a' as u8, 't' as u8,
                '6' as u8, '4' as u8]);
        },
    }
}

/// What [`trace_path`] returns: the value with a NUL behind it, and nothing for
/// a value that is unset or empty.
pub proof fn law_trace_file_is_the_value(value: Option<Vec<u8>>, file: Option<Vec<u8>>)
    requires
        call_ensures(trace_path, (value,), file),
    ensures
        file is Some <==> value is Some && value->0@.len() > 0,
        file is Some ==> file->0@.len() == value->0@.len() + 1 && file->0@.last() == 0
            && file->0@.drop_last() == value->0@,
{
    if file is Some {
        assert(file->0@.drop_last() =~= value->0@);
    }
}

} // verus!
