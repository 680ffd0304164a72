//! What holds of the numerals: they are canonical, and the number can be read
//! back.

use vstd::arithmetic::div_mod::lemma_div_denominator;
use vstd::arithmetic::power::{lemma_pow0, lemma_pow1, lemma_pow_positive, pow};
use vstd::prelude::*;

use crate::text;
use crate::text::{put_byte, put_bytes, put_dec, put_hex, put_micros};

verus! {

/// The number that decimal digits denote.
pub open spec fn dec_value(s: Seq<u8>) -> int
    decreases s.len(),
{
    if s.len() == 0 {
        0
    } else {
        dec_value(s.drop_last()) * 10 + (s.last() - '0' as u8)
    }
}

/// The number that a lower-case hexadecimal digit denotes.
pub open spec fn hex_digit_value(b: u8) -> int {
    if b <= '9' as u8 {
        b - '0' as u8
    } else {
        b - 'a' as u8 + 10
    }
}

/// The number that lower-case hexadecimal digits denote.
pub open spec fn hex_value(s: Seq<u8>) -> int
    decreases s.len(),
{
    if s.len() == 0 {
        0
    } else {
        hex_value(s.drop_last()) * 16 + hex_digit_value(s.last())
    }
}

pub open spec fn is_dec_digit(b: u8) -> bool {
    '0' as u8 <= b <= '9' as u8
}

pub open spec fn is_hex_digit(b: u8) -> bool {
    is_dec_digit(b) || 'a' as u8 <= b <= 'f' as u8
}

/// A decimal numeral reads back as its number.
pub proof fn law_dec_reads_back(v: nat)
    ensures
        dec_value(text::dec(v)) == v,
    decreases v,
{
    if v < 10 {
        assert(text::dec(v).drop_last() =~= seq![]);
        assert(dec_value(seq![]) == 0);
    } else {
        law_dec_reads_back(v / 10);
        assert(text::dec(v).drop_last() =~= text::dec(v / 10));
    }
}

/// A decimal numeral is made of digits and has no leading zero, but for zero
/// itself.
pub proof fn law_dec_is_canonical(v: nat)
    ensures
        text::dec(v).len() > 0,
        forall|i: int| 0 <= i < text::dec(v).len() ==> is_dec_digit(#[trigger] text::dec(v)[i]),
        v > 0 ==> text::dec(v)[0] != '0' as u8,
    decreases v,
{
    if v >= 10 {
        law_dec_is_canonical(v / 10);
    }
}

/// A hexadecimal numeral reads back as its number.
pub proof fn law_hex_reads_back(v: nat)
    ensures
        hex_value(text::hex(v)) == v,
    decreases v,
{
    if v < 16 {
        assert(text::hex(v).drop_last() =~= seq![]);
        assert(hex_value(seq![]) == 0);
    } else {
        law_hex_reads_back(v / 16);
        assert(text::hex(v).drop_last() =~= text::hex(v / 16));
    }
}

/// A hexadecimal numeral is made of lower-case digits and has no leading zero,
/// but for zero itself.
pub proof fn law_hex_is_canonical(v: nat)
    ensures
        text::hex(v).len() > 0,
        forall|i: int| 0 <= i < text::hex(v).len() ==> is_hex_digit(#[trigger] text::hex(v)[i]),
        v > 0 ==> text::hex(v)[0] != '0' as u8,
    decreases v,
{
    if v >= 16 {
        law_hex_is_canonical(v / 16);
    }
}

/// A padded numeral has exactly its width, is made of digits, and reads back
/// as the number modulo that many powers of ten.
pub proof fn law_padded_dec_reads_back(v: nat, width: nat)
    ensures
        text::padded_dec(v, width).len() == width,
        forall|i: int|
            0 <= i < width ==> is_dec_digit(#[trigger] text::padded_dec(v, width)[i]),
        dec_value(text::padded_dec(v, width)) == v as int % pow(10, width),
    decreases width,
{
    if width == 0 {
        lemma_pow0(10);
        assert(dec_value(text::padded_dec(v, width)) == 0);
    } else {
        let less = (width - 1) as nat;
        law_padded_dec_reads_back(v / 10, less);
        assert(text::padded_dec(v, width).drop_last() =~= text::padded_dec(v / 10, less));
        lemma_pow_positive(10, less);
        reveal_with_fuel(pow, 2);
        let m = pow(10, less);
        assert(pow(10, width) == 10 * m);
        vstd::arithmetic::div_mod::lemma_mod_breakdown(v as int, 10, m);
    }
}

/// Digit by digit: a number below `10^n`, and not below `10^(n-1)` unless `n` is
/// 1, has a decimal numeral of `n` digits, each the ASCII digit of its decimal
/// place.
pub proof fn law_dec_by_places(v: nat, n: nat)
    requires
        n >= 1,
        v < pow(10, n),
        n > 1 ==> v >= pow(10, (n - 1) as nat),
    ensures
        text::dec(v).len() == n,
        forall|i: int|
            0 <= i < n ==> #[trigger] text::dec(v)[i] == 48 + (v as int / pow(
                10,
                (n - 1 - i) as nat,
            )) % 10,
    decreases n,
{
    lemma_pow0(10);
    lemma_pow1(10);
    if n > 1 {
        let less = (n - 1) as nat;
        lemma_next_power(10, less);
        lemma_next_power(10, (less - 1) as nat);
        lemma_pow_positive(10, (less - 1) as nat);
        law_dec_by_places(v / 10, less);
        assert forall|i: int| 0 <= i < n implies #[trigger] text::dec(v)[i] == 48 + (v as int
            / pow(10, (n - 1 - i) as nat)) % 10 by {
            if i < less {
                lemma_place_of_quotient(v as int, 10, (less - 1 - i) as nat);
            }
        }
    }
}

/// Digit by digit, the same for hexadecimal numerals in lower case.
pub proof fn law_hex_by_places(v: nat, n: nat)
    requires
        n >= 1,
        v < pow(16, n),
        n > 1 ==> v >= pow(16, (n - 1) as nat),
    ensures
        text::hex(v).len() == n,
        forall|i: int|
            0 <= i < n ==> ({
                let d = (v as int / pow(16, (n - 1 - i) as nat)) % 16;
                #[trigger] text::hex(v)[i] == (if d < 10 {
                    48 + d
                } else {
                    97 + d - 10
                })
            }),
    decreases n,
{
    lemma_pow0(16);
    lemma_pow1(16);
    if n > 1 {
        let less = (n - 1) as nat;
        lemma_next_power(16, less);
        lemma_next_power(16, (less - 1) as nat);
        lemma_pow_positive(16, (less - 1) as nat);
        law_hex_by_places(v / 16, less);
        assert forall|i: int| 0 <= i < n implies ({
            let d = (v as int / pow(16, (n - 1 - i) as nat)) % 16;
            #[trigger] text::hex(v)[i] == (if d < 10 {
                48 + d
            } else {
                97 + d - 10
            })
        }) by {
            if i < less {
                lemma_place_of_quotient(v as int, 16, (less - 1 - i) as nat);
            }
        }
    }
}

/// Digit by digit, the same for a padded numeral, of any number.
pub proof fn law_padded_dec_by_places(v: nat, width: nat)
    ensures
        text::padded_dec(v, width).len() == width,
        forall|i: int|
            0 <= i < width ==> #[trigger] text::padded_dec(v, width)[i] == 48 + (v as int / pow(
                10,
                (width - 1 - i) as nat,
            )) % 10,
    decreases width,
{
    if width > 0 {
        let less = (width - 1) as nat;
        lemma_pow0(10);
        law_padded_dec_by_places(v / 10, less);
        assert forall|i: int| 0 <= i < width implies #[trigger] text::padded_dec(v, width)[i] == 48
            + (v as int / pow(10, (width - 1 - i) as nat)) % 10 by {
            if i < less {
                lemma_place_of_quotient(v as int, 10, (less - 1 - i) as nat);
            }
        }
    }
}

proof fn lemma_next_power(b: int, e: nat)
    ensures
        pow(b, e + 1) == b * pow(b, e),
{
    reveal_with_fuel(pow, 2);
}

/// Dividing by the base moves every digit one place down.
proof fn lemma_place_of_quotient(v: int, b: int, k: nat)
    requires
        v >= 0,
        b > 1,
    ensures
        (v / b) / pow(b, k) == v / pow(b, k + 1),
{
    lemma_next_power(b, k);
    lemma_pow_positive(b, k);
    lemma_div_denominator(v, b, pow(b, k));
}

/// The numeral of a negative number is a minus sign and that of its magnitude.
pub proof fn law_signed_dec_has_a_sign(v: nat)
    requires
        v > 0,
    ensures
        text::signed_dec(v as int) == text::dec(v),
        text::signed_dec(0) == text::dec(0),
        text::signed_dec(-(v as int)).len() == text::dec(v).len() + 1,
        text::signed_dec(-(v as int))[0] == '-' as u8,
        text::signed_dec(-(v as int)).skip(1) == text::dec(v),
{
    assert(text::signed_dec(-(v as int)).skip(1) =~= text::dec(v));
}

/// What [`put_byte`] and [`put_bytes`] do: as many of the bytes as fit are laid
/// from `pos` on, nothing else changes, and the position after them is returned.
pub proof fn law_bytes_are_laid_as_far_as_they_fit(
    buf: &mut [u8],
    pos: usize,
    s: &[u8],
    end: usize,
    one: &mut [u8],
    b: u8,
    next: usize,
)
    requires
        call_ensures(put_bytes, (buf, pos, s), end),
        call_ensures(put_byte, (one, pos, b), next),
    ensures
        final(buf)@.len() == old(buf)@.len(),
        pos >= old(buf)@.len() ==> end == pos,
        pos < old(buf)@.len() && pos + s@.len() <= old(buf)@.len() ==> end == pos + s@.len(),
        pos < old(buf)@.len() < pos + s@.len() ==> end == old(buf)@.len(),
        forall|i: int| pos <= i < end ==> #[trigger] final(buf)@[i] == s@[i - pos],
        forall|i: int|
            0 <= i < old(buf)@.len() && !(pos <= i < end) ==> #[trigger] final(buf)@[i] == old(
                buf,
            )@[i],
        pos < old(one)@.len() ==> next == pos + 1 && final(one)@ == old(one)@.update(
            pos as int,
            b,
        ),
        pos >= old(one)@.len() ==> next == pos && final(one)@ == old(one)@,
{
}

/// What [`put_dec`] does with a number of `n` decimal digits: the digits are
/// laid from `pos` on, the most significant first, as far as they fit.
pub proof fn law_put_dec_writes_the_digits(
    buf: &mut [u8],
    pos: usize,
    v: u64,
    end: usize,
    n: nat,
)
    requires
        call_ensures(put_dec, (buf, pos, v), end),
        n >= 1,
        v < pow(10, n),
        n > 1 ==> v >= pow(10, (n - 1) as nat),
    ensures
        final(buf)@.len() == old(buf)@.len(),
        pos >= old(buf)@.len() ==> end == pos,
        pos < old(buf)@.len() && pos + n <= old(buf)@.len() ==> end == pos + n,
        pos < old(buf)@.len() < pos + n ==> end == old(buf)@.len(),
        forall|i: int|
            pos <= i < end ==> #[trigger] final(buf)@[i] == 48 + (v as int / pow(
                10,
                (n - 1 - (i - pos)) as nat,
            )) % 10,
        forall|i: int|
            0 <= i < old(buf)@.len() && !(pos <= i < end) ==> #[trigger] final(buf)@[i] == old(
                buf,
            )@[i],
{
    law_dec_by_places(v as nat, n);
}

/// What [`put_micros`] does: the last six decimal digits, zeros included.
pub proof fn law_put_micros_writes_six_digits(buf: &mut [u8], pos: usize, usec: u32, end: usize)
    requires
        call_ensures(put_micros, (buf, pos, usec), end),
    ensures
        final(buf)@.len() == old(buf)@.len(),
        pos >= old(buf)@.len() ==> end == pos,
        pos < old(buf)@.len() && pos + 6 <= old(buf)@.len() ==> end == pos + 6,
        pos < old(buf)@.len() < pos + 6 ==> end == old(buf)@.len(),
        forall|i: int|
            pos <= i < end ==> #[trigger] final(buf)@[i] == 48 + (usec as int / pow(
                10,
                (5 - (i - pos)) as nat,
            )) % 10,
        forall|i: int|
            0 <= i < old(buf)@.len() && !(pos <= i < end) ==> #[trigger] final(buf)@[i] == old(
                buf,
            )@[i],
{
    law_padded_dec_by_places(usec as nat, 6);
}

/// What [`put_hex`] does with a number of `n` hexadecimal digits.
pub proof fn law_put_hex_writes_the_digits(
    buf: &mut [u8],
    pos: usize,
    v: u32,
    end: usize,
    n: nat,
)
    requires
        call_ensures(put_hex, (buf, pos, v), end),
        n >= 1,
        v < pow(16, n),
        n > 1 ==> v >= pow(16, (n - 1) as nat),
    ensures
        final(buf)@.len() == old(buf)@.len(),
        pos >= old(buf)@.len() ==> end == pos,
        pos < old(buf)@.len() && pos + n <= old(buf)@.len() ==> end == pos + n,
        pos < old(buf)@.len() < pos + n ==> end == old(buf)@.len(),
        forall|i: int|
            pos <= i < end ==> ({
                let d = (v as int / pow(16, (n - 1 - (i - pos)) as nat)) % 16;
                #[trigger] final(buf)@[i] == (if d < 10 {
                    48 + d
                } else {
                    97 + d - 10
                })
            }),
        forall|i: int|
            0 <= i < old(buf)@.len() && !(pos <= i < end) ==> #[trigger] final(buf)@[i] == old(
                buf,
            )@[i],
{
    law_hex_by_places(v as nat, n);
    assert forall|i: int| pos <= i < end implies ({
        let d = (v as int / pow(16, (n - 1 - (i - pos)) as nat)) % 16;
        #[trigger] final(buf)@[i] == (if d < 10 {
            48 + d
        } else {
            97 + d - 10
        })
    }) by {
        assert(final(buf)@[i] == text::hex(v as nat)[i - pos]);
    }
}

} // verus!
