//! Rendering of a value at an effective width: plain signed decimal,
//! `0x`-prefixed lower-case hexadecimal padded to width/4 digits, and
//! `0b`-prefixed binary padded to width digits. Negative values render in
//! hex and binary as their two's-complement 64-bit pattern.

use vstd::prelude::*;

use vstd::arithmetic::div_mod::{lemma_div_decreases, lemma_multiply_divide_lt};
use vstd::arithmetic::power::{lemma_pow_multiplies, pow};
use vstd::arithmetic::power2::{lemma2_to64, lemma_pow2, pow2};

use crate::text::chars_to_string;
use crate::width::valid_width;

verus! {

/// The character of digit `d` (lower case), for `d` in 0..16.
pub open spec fn digit_char(d: int) -> char {
    if d == 0 {
        '0'
    } else if d == 1 {
        '1'
    } else if d == 2 {
        '2'
    } else if d == 3 {
        '3'
    } else if d == 4 {
        '4'
    } else if d == 5 {
        '5'
    } else if d == 6 {
        '6'
    } else if d == 7 {
        '7'
    } else if d == 8 {
        '8'
    } else if d == 9 {
        '9'
    } else if d == 10 {
        'a'
    } else if d == 11 {
        'b'
    } else if d == 12 {
        'c'
    } else if d == 13 {
        'd'
    } else if d == 14 {
        'e'
    } else if d == 15 {
        'f'
    } else {
        '?'
    }
}

/// The digits of `u` in `radix`, most significant first; empty for zero.
pub open spec fn digits_of(u: nat, radix: nat) -> Seq<char>
    decreases u,
    when radix >= 2
    via digits_of_dec
{
    if u == 0 {
        Seq::empty()
    } else {
        digits_of(u / radix, radix).push(digit_char((u % radix) as int))
    }
}

#[via_fn]
proof fn digits_of_dec(u: nat, radix: nat) {
    if u > 0 {
        lemma_div_decreases(u as int, radix as int);
    }
}

/// The digit string of `u`: its digits, or a single zero for zero.
pub open spec fn render_unsigned(u: nat, radix: nat) -> Seq<char> {
    if u == 0 {
        seq!['0']
    } else {
        digits_of(u, radix)
    }
}

/// The two's-complement 64-bit pattern of `v`, as an unsigned value.
pub open spec fn pattern64(v: i64) -> nat {
    if v >= 0 {
        v as nat
    } else {
        (v + 0x1_0000_0000_0000_0000) as nat
    }
}

/// `s` left-padded with zero digits to at least `n` characters.
pub open spec fn pad_zeros(s: Seq<char>, n: int) -> Seq<char> {
    if s.len() >= n {
        s
    } else {
        Seq::new((n - s.len()) as nat, |i: int| '0') + s
    }
}

/// The plain signed decimal rendering, without padding.
pub open spec fn dec_render(v: i64) -> Seq<char> {
    if v >= 0 {
        render_unsigned(v as nat, 10)
    } else {
        seq!['-'] + render_unsigned((-(v as int)) as nat, 10)
    }
}

/// The hexadecimal rendering at width `w`: `0x`, then the pattern's hex
/// digits zero-padded to `w / 4` digits.
pub open spec fn hex_render(v: i64, w: int) -> Seq<char> {
    seq!['0', 'x'] + pad_zeros(render_unsigned(pattern64(v), 16), w / 4)
}

/// The binary rendering at width `w`: `0b`, then the pattern's bits
/// zero-padded to `w` digits.
pub open spec fn bin_render(v: i64, w: int) -> Seq<char> {
    seq!['0', 'b'] + pad_zeros(render_unsigned(pattern64(v), 2), w)
}

pub(crate) fn digit_char_exec(d: u64) -> (c: char)
    requires
        d < 16,
    ensures
        c == digit_char(d as int),
{
    if d == 0 {
        '0'
    } else if d == 1 {
        '1'
    } else if d == 2 {
        '2'
    } else if d == 3 {
        '3'
    } else if d == 4 {
        '4'
    } else if d == 5 {
        '5'
    } else if d == 6 {
        '6'
    } else if d == 7 {
        '7'
    } else if d == 8 {
        '8'
    } else if d == 9 {
        '9'
    } else if d == 10 {
        'a'
    } else if d == 11 {
        'b'
    } else if d == 12 {
        'c'
    } else if d == 13 {
        'd'
    } else if d == 14 {
        'e'
    } else {
        'f'
    }
}

/// Appends the digits of `u` in `radix`, most significant first.
fn push_digits(u: u64, radix: u64, out: &mut Vec<char>)
    requires
        2 <= radix <= 16,
    ensures
        final(out)@ == old(out)@ + digits_of(u as nat, radix as nat),
    decreases u,
{
    if u == 0 {
        proof {
            assert(out@ =~= out@ + digits_of(0, radix as nat));
        }
    } else {
        proof {
            lemma_div_decreases(u as int, radix as int);
        }
        let q = u / radix;
        let d = u % radix;
        push_digits(q, radix, out);
        out.push(digit_char_exec(d));
        proof {
            assert(out@ =~= old(out)@ + digits_of(u as nat, radix as nat));
        }
    }
}

/// The digit string of `u` in `radix` as characters.
fn render_unsigned_exec(u: u64, radix: u64) -> (out: Vec<char>)
    requires
        2 <= radix <= 16,
    ensures
        out@ == render_unsigned(u as nat, radix as nat),
{
    let mut out: Vec<char> = Vec::new();
    if u == 0 {
        out.push('0');
        proof {
            assert(out@ =~= seq!['0']);
        }
    } else {
        push_digits(u, radix, &mut out);
        proof {
            assert(out@ =~= digits_of(u as nat, radix as nat));
        }
    }
    out
}

/// The two's-complement 64-bit pattern of `v`.
fn pattern_exec(v: i64) -> (u: u64)
    ensures
        u as nat == pattern64(v),
{
    if v >= 0 {
        v as u64
    } else {
        ((v as i128) + 0x1_0000_0000_0000_0000i128) as u64
    }
}

/// `0` then `tag`, then the digits of `u` in `radix` zero-padded to
/// `pad_to` digits.
fn render_padded(u: u64, radix: u64, pad_to: u64, tag: char) -> (out: Vec<char>)
    requires
        2 <= radix <= 16,
        pad_to <= 64,
    ensures
        out@ == seq!['0', tag] + pad_zeros(render_unsigned(u as nat, radix as nat), pad_to as int),
{
    let mut digits = render_unsigned_exec(u, radix);
    let mut out: Vec<char> = Vec::new();
    out.push('0');
    out.push(tag);
    let mut k: usize = digits.len();
    proof {
        assert(out@ =~= seq!['0', tag] + Seq::new(0, |i: int| '0'));
    }
    while (k as u64) < pad_to
        invariant
            pad_to <= 64,
            digits@.len() <= k,
            digits@.len() < pad_to ==> k <= pad_to,
            digits@.len() >= pad_to ==> k == digits@.len(),
            digits@ == render_unsigned(u as nat, radix as nat),
            out@ == seq!['0', tag] + Seq::new((k - digits@.len()) as nat, |i: int| '0'),
        decreases pad_to as int - k,
    {
        out.push('0');
        k = k + 1;
        proof {
            assert(out@ =~= seq!['0', tag] + Seq::new((k - digits@.len()) as nat, |i: int| '0'));
        }
    }
    out.append(&mut digits);
    proof {
        assert(out@ =~= seq!['0', tag] + pad_zeros(
            render_unsigned(u as nat, radix as nat),
            pad_to as int,
        ));
    }
    out
}

/// A digit string of a value below `radix^k` has at most `k` digits.
proof fn lemma_digits_len_le(u: nat, radix: nat, k: nat)
    requires
        radix >= 2,
        u < pow(radix as int, k),
    ensures
        digits_of(u, radix).len() <= k,
    decreases k,
{
    reveal(pow);
    if u > 0 {
        if k == 0 {
            assert(pow(radix as int, 0) == 1);
        }
        assert(pow(radix as int, k) == radix * pow(radix as int, (k - 1) as nat));
        lemma_multiply_divide_lt(u as int, radix as int, pow(radix as int, (k - 1) as nat));
        lemma_digits_len_le(u / radix, radix, (k - 1) as nat);
    }
}

/// Law: when the value's two's-complement pattern fits the width (and the
/// width has at least one hex digit), the rendered hex digits number
/// exactly width/4 and the binary digits exactly width.
pub proof fn lemma_format_digit_counts(v: i64, w: u64)
    requires
        valid_width(w),
        w >= 4,
        pattern64(v) < pow2(w as nat),
    ensures
        hex_render(v, w as int).len() == 2 + w / 4,
        bin_render(v, w as int).len() == 2 + w,
{
    let p = pattern64(v);
    lemma_pow2(w as nat);
    lemma_digits_len_le(p, 2, w as nat);
    assert(render_unsigned(p, 2).len() <= w);
    assert(pad_zeros(render_unsigned(p, 2), w as int).len() == w);
    lemma_pow_multiplies(2, 4, (w / 4) as nat);
    assert(pow(16, (w / 4) as nat) == pow(2, w as nat)) by {
        reveal(pow);
        lemma_pow2(4);
        lemma2_to64();
        assert(pow(2, 4) == 16);
        assert(4 * ((w / 4) as nat) == w as nat);
    }
    lemma_digits_len_le(p, 16, (w / 4) as nat);
    assert(render_unsigned(p, 16).len() <= w / 4);
    assert(pad_zeros(render_unsigned(p, 16), (w / 4) as int).len() == w / 4);
}

/// The three display strings of one conversion result.
pub struct Formatted {
    pub decimal: String,
    pub hex: String,
    pub binary: String,
}

/// Renders `v` at effective width `width`: plain signed decimal, and the
/// two's-complement pattern in hex (padded to `width / 4` digits) and in
/// binary (padded to `width` digits).
pub fn format_value(v: i64, width: u64) -> (r: Formatted)
    requires
        valid_width(width),
    ensures
        r.decimal@ == dec_render(v),
        r.hex@ == hex_render(v, width as int),
        r.binary@ == bin_render(v, width as int),
{
    let mut dec: Vec<char> = Vec::new();
    if v < 0 {
        dec.push('-');
    }
    let mag: u64 = if v >= 0 {
        v as u64
    } else if v == i64::MIN {
        0x8000_0000_0000_0000u64
    } else {
        (-v) as u64
    };
    let mut mag_digits = render_unsigned_exec(mag, 10);
    dec.append(&mut mag_digits);
    proof {
        assert(dec@ =~= dec_render(v));
    }
    let pattern = pattern_exec(v);
    let hex = render_padded(pattern, 16, width / 4, 'x');
    let bin = render_padded(pattern, 2, width, 'b');
    Formatted {
        decimal: chars_to_string(&dec),
        hex: chars_to_string(&hex),
        binary: chars_to_string(&bin),
    }
}

} // verus!
