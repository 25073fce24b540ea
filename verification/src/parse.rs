//! Parsing of numeric literals: `0x`-prefixed hexadecimal, plain decimal,
//! and a decimal-to-hexadecimal fallback for unprefixed input such as `1a`.

use vstd::prelude::*;

use crate::error::{ParseFault, RadixError};
use crate::text::str_to_chars;

verus! {

/// The value of `c` as a hexadecimal digit, or -1 if it is none.
/// The ranges are the ASCII codes of `0-9`, `a-f` and `A-F`.
pub open spec fn hex_val(c: char) -> int {
    let u = c as u32;
    if 48 <= u && u <= 57 {
        u - 48
    } else if 97 <= u && u <= 102 {
        u - 97 + 10
    } else if 65 <= u && u <= 70 {
        u - 65 + 10
    } else {
        -1
    }
}

/// The value of `c` as a digit in `radix`, or -1 if it is none.
pub open spec fn digit_val(c: char, radix: int) -> int {
    let v = hex_val(c);
    if 0 <= v && v < radix {
        v
    } else {
        -1
    }
}

pub open spec fn is_digit(c: char, radix: int) -> bool {
    digit_val(c, radix) != -1
}

pub open spec fn all_digits(s: Seq<char>, radix: int) -> bool {
    forall|i: int| 0 <= i < s.len() ==> is_digit(s[i], radix)
}

/// The value of a digit string read most-significant first.
pub open spec fn digits_val(s: Seq<char>, radix: int) -> int
    decreases s.len(),
{
    if s.len() == 0 {
        0
    } else {
        digits_val(s.drop_last(), radix) * radix + digit_val(s.last(), radix)
    }
}

/// An unsigned digit string that fits the native signed width.
pub open spec fn unsigned_lit_ok(s: Seq<char>, radix: int) -> bool {
    s.len() > 0 && all_digits(s, radix) && digits_val(s, radix) <= i64::MAX
}

pub open spec fn has_sign(s: Seq<char>) -> bool {
    s.len() > 0 && (s[0] == '-' || s[0] == '+')
}

pub open spec fn is_negative_lit(s: Seq<char>) -> bool {
    s.len() > 0 && s[0] == '-'
}

/// The digit body of a decimal literal: everything after an optional sign.
pub open spec fn dec_body(s: Seq<char>) -> Seq<char> {
    if has_sign(s) {
        s.subrange(1, s.len() as int)
    } else {
        s
    }
}

/// A decimal literal: optional sign, then digits, value in the native range.
pub open spec fn dec_lit_ok(s: Seq<char>) -> bool {
    let b = dec_body(s);
    b.len() > 0 && all_digits(b, 10) && (if is_negative_lit(s) {
        digits_val(b, 10) <= i64::MAX + 1
    } else {
        digits_val(b, 10) <= i64::MAX
    })
}

pub open spec fn dec_lit_val(s: Seq<char>) -> int {
    if is_negative_lit(s) {
        -digits_val(dec_body(s), 10)
    } else {
        digits_val(dec_body(s), 10)
    }
}

pub open spec fn has_hex_prefix(s: Seq<char>) -> bool {
    s.len() >= 2 && s[0] == '0' && s[1] == 'x'
}

pub open spec fn hex_body(s: Seq<char>) -> Seq<char> {
    s.subrange(2, s.len() as int)
}

/// What parsing a literal yields: `Some((value, used_hex_fallback))`, or
/// `None` when both the decimal and the hexadecimal reading fail.
pub open spec fn parse_spec(s: Seq<char>) -> Option<(int, bool)> {
    if has_hex_prefix(s) {
        if unsigned_lit_ok(hex_body(s), 16) {
            Some((digits_val(hex_body(s), 16), false))
        } else {
            None
        }
    } else if dec_lit_ok(s) {
        Some((dec_lit_val(s), false))
    } else if unsigned_lit_ok(s, 16) {
        Some((digits_val(s, 16), true))
    } else {
        None
    }
}

/// Which fault is reported when parsing fails: the fault of the last
/// attempted reading, which is always the base-16 one.
pub open spec fn fault_spec(s: Seq<char>) -> ParseFault {
    let b = if has_hex_prefix(s) {
        hex_body(s)
    } else {
        s
    };
    if b.len() == 0 {
        ParseFault::Empty
    } else if !all_digits(b, 16) {
        ParseFault::InvalidDigit
    } else {
        ParseFault::Overflow
    }
}

/// A successfully parsed literal, and whether the hexadecimal fallback was
/// taken (an informational notice, not an error).
pub struct ParseOutcome {
    pub value: i64,
    pub hex_fallback: bool,
}

fn digit_val_exec(c: char, radix: u32) -> (r: Option<u32>)
    requires
        radix <= 16,
    ensures
        match r {
            Some(v) => digit_val(c, radix as int) == v as int,
            None => digit_val(c, radix as int) == -1,
        },
{
    let code = c as u32;
    let v: i64 = if code >= 48 && code <= 57 {
        (code - 48) as i64
    } else if code >= 97 && code <= 102 {
        (code - 97 + 10) as i64
    } else if code >= 65 && code <= 70 {
        (code - 65 + 10) as i64
    } else {
        -1
    };
    if v >= 0 && v < radix as i64 {
        Some(v as u32)
    } else {
        None
    }
}

/// Reads `cs[start..]` as an unsigned digit string in `radix`, refusing
/// values above `limit`.
fn parse_digits(cs: &Vec<char>, start: usize, radix: u32, limit: u64) -> (r: Result<
    u64,
    ParseFault,
>)
    requires
        start <= cs@.len(),
        radix == 10 || radix == 16,
        limit <= 0x8000_0000_0000_0000u64,
    ensures
        ({
            let body = cs@.subrange(start as int, cs@.len() as int);
            match r {
                Ok(m) => body.len() > 0 && all_digits(body, radix as int) && m as int
                    == digits_val(body, radix as int) && m <= limit,
                Err(ParseFault::Empty) => body.len() == 0,
                Err(ParseFault::InvalidDigit) => body.len() > 0 && !all_digits(
                    body,
                    radix as int,
                ),
                Err(ParseFault::Overflow) => body.len() > 0 && all_digits(body, radix as int)
                    && digits_val(body, radix as int) > limit,
            }
        }),
{
    let ghost body = cs@.subrange(start as int, cs@.len() as int);
    if start == cs.len() {
        return Err(ParseFault::Empty);
    }
    let mut i: usize = start;
    let mut acc: u64 = 0;
    let mut over: bool = false;
    while i < cs.len()
        invariant
            start <= i <= cs@.len(),
            radix == 10 || radix == 16,
            limit <= 0x8000_0000_0000_0000u64,
            all_digits(cs@.subrange(start as int, i as int), radix as int),
            !over ==> acc as int == digits_val(cs@.subrange(start as int, i as int), radix as int)
                && acc <= limit,
            over ==> digits_val(cs@.subrange(start as int, i as int), radix as int) > limit,
        decreases cs@.len() - i,
    {
        let ghost pre = cs@.subrange(start as int, i as int);
        match digit_val_exec(cs[i], radix) {
            None => {
                proof {
                    let b = cs@.subrange(start as int, cs@.len() as int);
                    assert(b[i - start] == cs@[i as int]);
                    assert(!is_digit(b[i - start], radix as int));
                }
                return Err(ParseFault::InvalidDigit);
            },
            Some(d) => {
                proof {
                    assert(cs@.subrange(start as int, i + 1) =~= pre.push(cs@[i as int]));
                    assert(pre.push(cs@[i as int]).drop_last() =~= pre);
                    assert(digits_val(pre.push(cs@[i as int]), radix as int) == digits_val(
                        pre,
                        radix as int,
                    ) * radix + d);
                }
                if over {
                    proof {
                        assert(digits_val(pre, radix as int) * radix >= digits_val(
                            pre,
                            radix as int,
                        )) by (nonlinear_arith)
                            requires
                                digits_val(pre, radix as int) > 0,
                                radix >= 1,
                        ;
                    }
                } else {
                    let wide: u128 = acc as u128 * radix as u128 + d as u128;
                    if wide > limit as u128 {
                        over = true;
                    } else {
                        acc = wide as u64;
                    }
                }
                i = i + 1;
            },
        }
    }
    proof {
        assert(cs@.subrange(start as int, i as int) =~= body);
    }
    if over {
        Err(ParseFault::Overflow)
    } else {
        Ok(acc)
    }
}

/// Law: every decimal literal whose value lies within the native signed
/// range parses to exactly that value, with no fallback notice.
pub proof fn lemma_parse_decimal(s: Seq<char>)
    requires
        dec_lit_ok(s),
    ensures
        parse_spec(s) == Some((dec_lit_val(s), false)),
{
    if has_hex_prefix(s) {
        assert(!has_sign(s));
        assert(is_digit(dec_body(s)[1], 10));
        assert(false);
    }
}

/// Law: prepending a zero digit to a digit string leaves its value
/// unchanged.
pub proof fn lemma_leading_zero(h: Seq<char>, radix: int)
    requires
        1 <= radix <= 16,
        all_digits(h, radix),
    ensures
        digits_val(seq!['0'] + h, radix) == digits_val(h, radix),
    decreases h.len(),
{
    if h.len() == 0 {
        assert((seq!['0'] + h) =~= seq!['0']);
        assert(seq!['0'].drop_last() =~= Seq::<char>::empty());
        assert(seq!['0'].last() == '0');
        assert(digits_val(seq!['0'], radix) == digits_val(Seq::<char>::empty(), radix) * radix
            + digit_val('0', radix));
    } else {
        assert((seq!['0'] + h).drop_last() =~= seq!['0'] + h.drop_last());
        assert(all_digits(h.drop_last(), radix));
        lemma_leading_zero(h.drop_last(), radix);
        assert((seq!['0'] + h).last() == h.last());
    }
}

/// Law: a `0x`-prefixed literal is read in base 16, and leading zeros in
/// the digit body do not change what it parses to.
pub proof fn lemma_parse_hex_prefixed(h: Seq<char>)
    requires
        h.len() > 0,
        all_digits(h, 16),
    ensures
        digits_val(h, 16) <= i64::MAX ==> parse_spec(seq!['0', 'x'] + h) == Some(
            (digits_val(h, 16), false),
        ),
        parse_spec(seq!['0', 'x', '0'] + h) == parse_spec(seq!['0', 'x'] + h),
{
    let s = seq!['0', 'x'] + h;
    let z = seq!['0', 'x', '0'] + h;
    assert(has_hex_prefix(s));
    assert(has_hex_prefix(z));
    assert(hex_body(s) =~= h);
    assert(hex_body(z) =~= seq!['0'] + h);
    lemma_leading_zero(h, 16);
}

/// Parses one numeric literal: a `0x` prefix selects base 16; otherwise the
/// text is read as decimal, and on failure re-read as base 16 (the fallback
/// notice is returned in `hex_fallback`).
pub fn parse_hex(src: &str) -> (r: Result<ParseOutcome, RadixError>)
    ensures
        match r {
            Ok(p) => parse_spec(src@) == Some((p.value as int, p.hex_fallback)),
            Err(e) => parse_spec(src@) is None && (e matches RadixError::InvalidInput(f) && f
                == fault_spec(src@)),
        },
{
    let cs = str_to_chars(src);
    let n = cs.len();
    let prefixed = n >= 2 && cs[0] == '0' && cs[1] == 'x';
    if prefixed {
        match parse_digits(&cs, 2, 16, 0x7fff_ffff_ffff_ffffu64) {
            Ok(m) => {
                proof {
                    assert(hex_body(src@) =~= cs@.subrange(2, cs@.len() as int));
                }
                Ok(ParseOutcome { value: m as i64, hex_fallback: false })
            },
            Err(f) => {
                proof {
                    assert(hex_body(src@) =~= cs@.subrange(2, cs@.len() as int));
                }
                Err(RadixError::InvalidInput(f))
            },
        }
    } else {
        let signed = n >= 1 && (cs[0] == '-' || cs[0] == '+');
        let neg = n >= 1 && cs[0] == '-';
        let dstart: usize = if signed {
            1
        } else {
            0
        };
        let limit: u64 = if neg {
            0x8000_0000_0000_0000u64
        } else {
            0x7fff_ffff_ffff_ffffu64
        };
        proof {
            assert(cs@.subrange(0, cs@.len() as int) =~= src@);
            assert(dec_body(src@) =~= cs@.subrange(dstart as int, cs@.len() as int));
        }
        match parse_digits(&cs, dstart, 10, limit) {
            Ok(m) => {
                let value: i64 = if neg {
                    if m == 0x8000_0000_0000_0000u64 {
                        i64::MIN
                    } else {
                        -(m as i64)
                    }
                } else {
                    m as i64
                };
                Ok(ParseOutcome { value, hex_fallback: false })
            },
            Err(_) => {
                match parse_digits(&cs, 0, 16, 0x7fff_ffff_ffff_ffffu64) {
                    Ok(m) => Ok(ParseOutcome { value: m as i64, hex_fallback: true }),
                    Err(f) => Err(RadixError::InvalidInput(f)),
                }
            },
        }
    }
}

} // verus!
