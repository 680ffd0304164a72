//! Writing text into fixed buffers: decimal and hexadecimal numerals, and
//! plain bytes, each cut off where the buffer ends.

use vstd::arithmetic::div_mod::lemma_div_denominator;
use vstd::arithmetic::power::{lemma_pow0, pow};
use vstd::prelude::*;

verus! {

/// The ASCII digit of `d`, for `d < 10`.
pub open spec fn dec_digit(d: nat) -> u8 {
    ('0' as nat + d) as u8
}

/// The decimal numeral of `v`: most significant digit first, no leading zero.
pub open spec fn dec(v: nat) -> Seq<u8>
    decreases v,
{
    if v < 10 {
        seq![dec_digit(v)]
    } else {
        dec(v / 10).push(dec_digit(v % 10))
    }
}

/// The decimal numeral of an integer, with a leading `-` if it is negative.
pub open spec fn signed_dec(v: int) -> Seq<u8> {
    if v < 0 {
        seq!['-' as u8] + dec((-v) as nat)
    } else {
        dec(v as nat)
    }
}

/// The last `width` decimal digits of `v`, padded with zeros on the left.
pub open spec fn padded_dec(v: nat, width: nat) -> Seq<u8>
    decreases width,
{
    if width == 0 {
        seq![]
    } else {
        padded_dec(v / 10, (width - 1) as nat).push(dec_digit(v % 10))
    }
}

/// The lower-case ASCII hexadecimal digit of `d`, for `d < 16`.
pub open spec fn hex_digit(d: nat) -> u8 {
    if d < 10 {
        ('0' as nat + d) as u8
    } else {
        ('a' as nat + d - 10) as u8
    }
}

/// The lower-case hexadecimal numeral of `v`: most significant digit first,
/// no leading zero.
pub open spec fn hex(v: nat) -> Seq<u8>
    decreases v,
{
    if v < 16 {
        seq![hex_digit(v)]
    } else {
        hex(v / 16).push(hex_digit(v % 16))
    }
}

/// `buf` with `text` laid over it from `pos` on; what reaches past the end of
/// `buf` is lost.
pub open spec fn put_at(buf: Seq<u8>, pos: int, text: Seq<u8>) -> Seq<u8> {
    Seq::new(
        buf.len(),
        |i: int|
            if pos <= i < pos + text.len() {
                text[i - pos]
            } else {
                buf[i]
            },
    )
}

/// The position after `len` bytes were laid from `pos` on into a buffer of
/// `cap` bytes. A position past the end stays where it is.
pub open spec fn put_end(cap: int, pos: int, len: int) -> int {
    if pos >= cap {
        pos
    } else if pos + len <= cap {
        pos + len
    } else {
        cap
    }
}

/// Laying `a` and then `b` behind it is laying `a + b`.
pub proof fn lemma_put_in_two(buf: Seq<u8>, pos: int, a: Seq<u8>, b: Seq<u8>)
    requires
        0 <= pos,
    ensures
        put_at(put_at(buf, pos, a), put_end(buf.len() as int, pos, a.len() as int), b) == put_at(
            buf,
            pos,
            a + b,
        ),
        put_end(
            buf.len() as int,
            put_end(buf.len() as int, pos, a.len() as int),
            b.len() as int,
        ) == put_end(buf.len() as int, pos, (a + b).len() as int),
{
    assert(put_at(put_at(buf, pos, a), put_end(buf.len() as int, pos, a.len() as int), b)
        =~= put_at(buf, pos, a + b));
}

/// A padded numeral has exactly its width.
pub proof fn lemma_padded_dec_len(v: nat, width: nat)
    ensures
        padded_dec(v, width).len() == width,
    decreases width,
{
    if width > 0 {
        lemma_padded_dec_len(v / 10, (width - 1) as nat);
    }
}

/// Writes one byte at `pos`, unless `buf` ends there, and returns the new
/// position.
pub fn put_byte(buf: &mut [u8], pos: usize, b: u8) -> (end: usize)
    ensures
        final(buf)@ == put_at(old(buf)@, pos as int, seq![b]),
        end == put_end(old(buf)@.len() as int, pos as int, 1),
{
    if pos < buf.len() {
        buf[pos] = b;
        assert(buf@ =~= put_at(old(buf)@, pos as int, seq![b]));
        pos + 1
    } else {
        assert(buf@ =~= put_at(old(buf)@, pos as int, seq![b]));
        pos
    }
}

/// Writes `s` from `pos` on, as far as `buf` reaches, and returns the new
/// position.
pub fn put_bytes(buf: &mut [u8], pos: usize, s: &[u8]) -> (end: usize)
    ensures
        final(buf)@ == put_at(old(buf)@, pos as int, s@),
        end == put_end(old(buf)@.len() as int, pos as int, s@.len() as int),
{
    let mut p: usize = pos;
    let mut i: usize = 0;
    assert(buf@ =~= put_at(old(buf)@, pos as int, s@.take(0)));
    while i < s.len()
        invariant
            i <= s@.len(),
            buf@ == put_at(old(buf)@, pos as int, s@.take(i as int)),
            p == put_end(old(buf)@.len() as int, pos as int, i as int),
        decreases s@.len() - i,
    {
        p = put_byte(buf, p, s[i]);
        proof {
            lemma_put_in_two(old(buf)@, pos as int, s@.take(i as int), seq![s@[i as int]]);
            assert(s@.take(i as int) + seq![s@[i as int]] =~= s@.take(i + 1));
        }
        i += 1;
    }
    assert(s@.take(s@.len() as int) =~= s@);
    p
}

/// Append the decimal digits of `v` to `buf` at `pos`, returning the new
/// position. Stops when `buf` is full.
pub fn put_dec(buf: &mut [u8], pos: usize, v: u64) -> (end: usize)
    ensures
        final(buf)@ == put_at(old(buf)@, pos as int, dec(v as nat)),
        end == put_end(old(buf)@.len() as int, pos as int, dec(v as nat).len() as int),
{
    let mut tmp: [u8; 20] = [0; 20];
    let mut n: usize = 0;
    let mut x: u64 = v;
    proof {
        reveal_with_fuel(pow, 21);
        assert(tmp@.take(0).reverse() =~= seq![]);
        assert(dec(v as nat) =~= dec(x as nat) + tmp@.take(0).reverse());
    }
    loop
        invariant_except_break
            n < 20,
            x < pow(10, (20 - n) as nat),
            dec(v as nat) == dec(x as nat) + tmp@.take(n as int).reverse(),
        invariant
            n <= 20,
        ensures
            dec(v as nat) == tmp@.take(n as int).reverse(),
        decreases 20 - n,
    {
        let ghost before = tmp@.take(n as int);
        let ghost x0 = x as nat;
        tmp[n] = '0' as u8 + (x % 10) as u8;
        x = x / 10;
        n += 1;
        let ghost digit = dec_digit(x0 % 10);
        assert(tmp@.take(n as int) =~= before.push(digit));
        assert(tmp@.take(n as int).reverse() =~= seq![digit] + before.reverse());
        if x == 0 {
            assert(dec(x0) =~= seq![digit]);
            break;
        }
        proof {
            assert(dec(x0) =~= dec(x as nat) + seq![digit]);
            assert(dec(v as nat) =~= dec(x as nat) + (seq![digit] + before.reverse()));
            reveal_with_fuel(pow, 2);
            if n == 20 {
                lemma_pow0(10);
            }
        }
    }
    let mut p: usize = pos;
    let ghost text = tmp@.take(n as int).reverse();
    let ghost count = n as int;
    assert(buf@ =~= put_at(old(buf)@, pos as int, text.take(0)));
    while n > 0 && p < buf.len()
        invariant
            n <= count <= 20,
            text == tmp@.take(count).reverse(),
            buf@ == put_at(old(buf)@, pos as int, text.take(count - n)),
            p == pos + (count - n),
            n < count ==> p <= old(buf)@.len(),
        decreases n,
    {
        n -= 1;
        buf[p] = tmp[n];
        p += 1;
        assert(buf@ =~= put_at(old(buf)@, pos as int, text.take(count - n)));
    }
    assert(buf@ =~= put_at(old(buf)@, pos as int, text));
    p
}

/// Appends the last six decimal digits of `usec`, zero-padded, at `pos`, and
/// returns the new position. Stops when `buf` is full.
pub fn put_micros(buf: &mut [u8], pos: usize, usec: u32) -> (end: usize)
    ensures
        final(buf)@ == put_at(old(buf)@, pos as int, padded_dec(usec as nat, 6)),
        end == put_end(old(buf)@.len() as int, pos as int, 6),
{
    let mut p: usize = pos;
    let mut div: u32 = 100_000;
    let ghost mut k: nat = 0;
    assert(buf@ =~= put_at(old(buf)@, pos as int, seq![]));
    loop
        invariant_except_break
            k <= 5,
            div == (if k == 0 { 100_000int } else if k == 1 { 10_000 } else if k == 2 { 1_000 }
                else if k == 3 { 100 } else if k == 4 { 10 } else { 1 }),
            buf@ == put_at(old(buf)@, pos as int, padded_dec(usec as nat / (10 * div as nat), k)),
            padded_dec(usec as nat / (10 * div as nat), k).len() == k,
            p == put_end(old(buf)@.len() as int, pos as int, k as int),
        ensures
            buf@ == put_at(old(buf)@, pos as int, padded_dec(usec as nat, 6)),
            p == put_end(old(buf)@.len() as int, pos as int, 6),
        decreases 5 - k,
    {
        let ghost higher = padded_dec(usec as nat / (10 * div as nat), k);
        let ghost digit = dec_digit((usec as nat / div as nat) % 10);
        p = put_byte(buf, p, '0' as u8 + ((usec / div) % 10) as u8);
        proof {
            lemma_put_in_two(old(buf)@, pos as int, higher, seq![digit]);
            lemma_div_denominator(usec as int, div as int, 10);
            assert(div * 10 == 10 * div);
            assert(padded_dec(usec as nat / div as nat, k + 1) =~= higher + seq![digit]);
        }
        if div == 1 {
            assert(usec as nat / div as nat == usec);
            break;
        }
        proof {
            k = k + 1;
        }
        div = div / 10;
    }
    p
}

/// Appends the lower-case hexadecimal digits of `v` at `pos`, without leading
/// zeros, and returns the new position. Stops when `buf` is full.
pub fn put_hex(buf: &mut [u8], pos: usize, v: u32) -> (end: usize)
    ensures
        final(buf)@ == put_at(old(buf)@, pos as int, hex(v as nat)),
        end == put_end(old(buf)@.len() as int, pos as int, hex(v as nat).len() as int),
{
    let mut p: usize = pos;
    let mut started: bool = false;
    let mut shift: i32 = 28;
    // The digits that lie above the ones still to be written, as a number.
    let ghost mut high: u32 = 0;
    let ghost mut text: Seq<u8> = seq![];
    proof {
        assert(buf@ =~= put_at(old(buf)@, pos as int, text));
        assert((v as u64) >> 32u64 == 0) by (bit_vector);
    }
    while shift >= 0
        invariant
            -4 <= shift <= 28,
            shift % 4 == 0,
            high == (v as u64) >> ((shift + 4) as u64),
            started == (high != 0) || shift < 0,
            text == (if started { hex(high as nat) } else { seq![] }),
            shift < 0 ==> started,
            buf@ == put_at(old(buf)@, pos as int, text),
            p == put_end(old(buf)@.len() as int, pos as int, text.len() as int),
        decreases shift + 4,
    {
        let nyb: u8 = ((v >> shift) & 0xf) as u8;
        let ghost next: u32 = v >> shift;
        proof {
            let s = shift as u32;
            assert(high == (v as u64) >> ((s + 4) as u64));
            assert(next == v >> s);
            assert(next == 16 * high + (next & 0xf) && (next & 0xf) < 16) by (bit_vector)
                requires
                    s <= 28,
                    high == (v as u64) >> ((s + 4) as u64),
                    next == v >> s,
            ;
            assert(next == (v as u64) >> (s as u64)) by (bit_vector)
                requires
                    s <= 28,
                    next == v >> s,
            ;
        }
        if nyb != 0 || started || shift == 0 {
            started = true;
            let c: u8 = if nyb < 10 {
                '0' as u8 + nyb
            } else {
                'a' as u8 + nyb - 10
            };
            p = put_byte(buf, p, c);
            proof {
                assert(c == hex_digit(next as nat % 16));
                lemma_put_in_two(old(buf)@, pos as int, text, seq![c]);
                assert(hex(next as nat) =~= text + seq![c]);
                text = text + seq![c];
            }
        }
        proof {
            high = next;
        }
        shift -= 4;
    }
    proof {
        assert(v == (v as u64) >> 0u64) by (bit_vector);
    }
    p
}

} // verus!
