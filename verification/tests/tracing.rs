use glibc_compat::text::{put_byte, put_bytes, put_dec, put_hex, put_micros};
use glibc_compat::trace::{
    build_trace_line, emit, emit_start, tag_bytes, trace_path, EmitStep, Tag, TRACE_LINE_LEN,
};

fn trace_line(sec: u64, usec: u32, pid: u32, tag: &[u8], fl: i32, r: i32, p: &[u8]) -> String {
    let mut buf = [0u8; 512];
    let n = build_trace_line(&mut buf, sec, usec, pid, tag, fl, r, p);
    String::from_utf8(buf[..n].to_vec()).unwrap()
}

#[test]
fn trace_line_basic_shape() {
    assert_eq!(
        trace_line(
            1747640000,
            123456,
            4242,
            b"shmopen",
            0x242,
            7,
            b"sec/tss_sdk_bus_1"
        ),
        "1747640000.123456 4242 shmopen fl=0x242 r=7 sec/tss_sdk_bus_1\n"
    );
}

#[test]
fn trace_line_pads_usec_to_six() {
    assert_eq!(
        trace_line(1000, 42, 1, b"x", 0, 0, b"p"),
        "1000.000042 1 x fl=0x0 r=0 p\n"
    );
}

#[test]
fn trace_line_negative_ret() {
    assert_eq!(
        trace_line(5, 7, 9, b"stat64", 0, -2, b"/dev/shm/sec_tss_sdk_bus_1"),
        "5.000007 9 stat64 fl=0x0 r=-2 /dev/shm/sec_tss_sdk_bus_1\n"
    );
}

#[test]
fn trace_line_truncates_and_terminates() {
    let long = vec![b'a'; 4096];
    let mut buf = [0u8; 128];
    let n = build_trace_line(&mut buf, 1, 2, 3, b"open64", 0o1102, 4, &long);
    assert!(n <= 128);
    assert_eq!(buf[n - 1], b'\n');
}

#[test]
fn trace_line_extremes() {
    assert_eq!(
        trace_line(u64::MAX, u32::MAX, u32::MAX, b"", -1, i32::MIN, b""),
        "18446744073709551615.967295 4294967295  fl=0xffffffff r=-2147483648 \n"
    );
    assert_eq!(
        trace_line(0, 0, 0, b"t", 0x0fab_c0de, i32::MAX, b"\xc3\xa9"),
        "0.000000 0 t fl=0xfabc0de r=2147483647 \u{e9}\n"
    );
}

#[test]
fn trace_line_in_every_buffer_is_a_cut_of_the_full_one() {
    let full = trace_line(12, 345, 678, b"tag", 0x1f, -9, b"path").into_bytes();
    for cap in 0..40usize {
        let mut buf = vec![7u8; cap];
        let n = build_trace_line(&mut buf, 12, 345, 678, b"tag", 0x1f, -9, b"path");
        if cap == 0 {
            assert_eq!(n, 0);
        } else if cap >= full.len() {
            assert_eq!(&buf[..n], &full[..]);
            assert!(buf[n..].iter().all(|&b| b == 7));
        } else {
            assert_eq!(n, cap);
            assert_eq!(&buf[..cap - 1], &full[..cap - 1]);
            assert_eq!(buf[cap - 1], b'\n');
        }
    }
    assert_eq!(full.iter().filter(|&&b| b == b'\n').count(), 1);
}

#[test]
fn decimal_digits_stop_at_the_end() {
    let mut buf = [7u8; 5];
    assert_eq!(put_dec(&mut buf, 1, 120), 4);
    assert_eq!(&buf, b"\x07120\x07");
    assert_eq!(put_dec(&mut buf, 3, 9876), 5);
    assert_eq!(&buf, b"\x071298");
    assert_eq!(put_dec(&mut buf, 5, 1), 5);
    assert_eq!(put_dec(&mut buf, 9, 1), 9);
    assert_eq!(&buf, b"\x071298");
}

#[test]
fn decimal_digits_read_back() {
    for v in [0u64, 9, 10, 99, 100, 12345678901234567890, u64::MAX] {
        let mut buf = [0u8; 20];
        let n = put_dec(&mut buf, 0, v);
        let s = String::from_utf8(buf[..n].to_vec()).unwrap();
        assert_eq!(s.parse::<u64>().unwrap(), v);
        assert_eq!(s, format!("{}", v));
    }
}

#[test]
fn hexadecimal_digits_read_back() {
    for v in [0u32, 1, 15, 16, 0xa0, 0x1000_0000, 0xdead_beef, u32::MAX] {
        let mut buf = [0u8; 8];
        let n = put_hex(&mut buf, 0, v);
        assert_eq!(buf[..n].to_vec(), format!("{:x}", v).into_bytes());
    }
}

#[test]
fn microseconds_keep_six_digits() {
    let mut buf = [0u8; 6];
    assert_eq!(put_micros(&mut buf, 0, 999_999), 6);
    assert_eq!(&buf, b"999999");
    assert_eq!(put_micros(&mut buf, 0, 1_000_020), 6);
    assert_eq!(&buf, b"000020");
    assert_eq!(put_micros(&mut buf, 4, 123_456), 6);
    assert_eq!(&buf, b"000012");
}

#[test]
fn bytes_stop_at_the_end() {
    let mut buf = [0u8; 3];
    assert_eq!(put_byte(&mut buf, 3, b'x'), 3);
    assert_eq!(put_byte(&mut buf, 0, b'x'), 1);
    assert_eq!(put_bytes(&mut buf, 1, b"abc"), 3);
    assert_eq!(&buf, b"xab");
}

#[test]
fn trace_file_is_a_c_string() {
    assert_eq!(trace_path(None), None);
    assert_eq!(trace_path(Some(Vec::new())), None);
    assert_eq!(trace_path(Some(b"/tmp/t".to_vec())), Some(b"/tmp/t\0".to_vec()));
}

#[test]
fn tags() {
    assert_eq!(tag_bytes(Tag::ShmOpen), b"shm_open");
    assert_eq!(tag_bytes(Tag::ShmUnlink), b"shm_unlink");
    assert_eq!(tag_bytes(Tag::Xstat64), b"xstat64");
}

#[test]
fn record_is_written_and_the_file_closed() {
    let mut line = [0u8; TRACE_LINE_LEN];
    let path: Option<&[u8]> = Some(b"/sec_tss");
    let expected = b"1000.000042 77 shm_open fl=0x42 r=-13 /sec_tss\n";
    let mut step = emit_start(true);
    assert_eq!(step, EmitStep::ReadClock);
    step = emit(step, 1000, 42, b"shm_open", path, 0x42, -13, &mut line);
    assert_eq!(step, EmitStep::ReadPid { sec: 1000, usec: 42 });
    step = emit(step, 77, 0, b"shm_open", path, 0x42, -13, &mut line);
    assert_eq!(step, EmitStep::Open { flags: 1089, mode: 0o644, len: expected.len() });
    assert_eq!(&line[..expected.len()], expected);
    step = emit(step, 3, 0, b"shm_open", path, 0x42, -13, &mut line);
    assert_eq!(step, EmitStep::Write { fd: 3, len: expected.len() });
    step = emit(step, -28, 0, b"shm_open", path, 0x42, -13, &mut line);
    assert_eq!(step, EmitStep::Close { fd: 3 });
    step = emit(step, 0, 0, b"shm_open", path, 0x42, -13, &mut line);
    assert_eq!(step, EmitStep::Done);
    step = emit(step, 0, 0, b"shm_open", path, 0x42, -13, &mut line);
    assert_eq!(step, EmitStep::Done);
}

#[test]
fn unopened_trace_file_ends_the_trace() {
    let mut line = [0u8; TRACE_LINE_LEN];
    let step = EmitStep::Open { flags: 1089, mode: 0o644, len: 5 };
    assert_eq!(emit(step, -2, 0, b"shm_open", None, 0x42, -13, &mut line), EmitStep::Done);
    assert_eq!(
        emit(step, 0, 0, b"shm_open", None, 0x42, -13, &mut line),
        EmitStep::Write { fd: 0, len: 5 }
    );
}

#[test]
fn tracing_is_off_without_a_file() {
    assert_eq!(emit_start(false), EmitStep::Done);
}

#[test]
fn null_path_is_shown_as_such_and_registers_as_unsigned() {
    let mut line = [0u8; TRACE_LINE_LEN];
    let step = EmitStep::ReadPid { sec: -1, usec: -1 };
    let next = emit(step, -1, 0, b"shm_open", None, 0x42, -13, &mut line);
    let expected: &[u8] =
        b"18446744073709551615.967295 4294967295 shm_open fl=0x42 r=-13 (null)\n";
    assert_eq!(next, EmitStep::Open { flags: 1089, mode: 0o644, len: expected.len() });
    assert_eq!(&line[..expected.len()], expected);
}

#[test]
fn trace_line_reads_back() {
    let line = trace_line(12, 3_000_045, 678, b"tag", -1, -9, b"a b");
    let fields: Vec<&str> = line.trim_end_matches('\n').splitn(6, ' ').collect();
    assert_eq!(fields, vec!["12.000045", "678", "tag", "fl=0xffffffff", "r=-9", "a b"]);
}
