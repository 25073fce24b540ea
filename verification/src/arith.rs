//! One binary operation on two parsed values, with wraparound semantics for
//! `+ - * /` and plain truncating remainder (sign follows the dividend) for
//! `%`. Division by zero is an error; overflow never aborts.

use vstd::prelude::*;

use vstd::arithmetic::div_mod::{
    lemma_div_basics, lemma_div_is_ordered_by_denominator, lemma_div_nonincreasing,
    lemma_div_pos_is_pos, lemma_mod_bound,
};
use vstd::wrapping::i64_specs;

use crate::error::RadixError;
use crate::text::str_to_chars;

verus! {

/// The fixed operator set.
#[derive(Debug, Clone, Copy, PartialEq, Eq, Structural)]
pub enum Op {
    Add,
    Sub,
    Mul,
    Div,
    Rem,
}

/// Which operator a token denotes, if any.
pub open spec fn op_of_token(t: Seq<char>) -> Option<Op> {
    if t == seq!['+'] {
        Some(Op::Add)
    } else if t == seq!['-'] {
        Some(Op::Sub)
    } else if t == seq!['*'] {
        Some(Op::Mul)
    } else if t == seq!['/'] {
        Some(Op::Div)
    } else if t == seq!['%'] {
        Some(Op::Rem)
    } else {
        None
    }
}

pub open spec fn abs_int(x: int) -> int {
    if x >= 0 {
        x
    } else {
        -x
    }
}

/// Truncating division (rounds toward zero), as the machine divides.
pub open spec fn trunc_div(x: int, d: int) -> int {
    let q = abs_int(x) / abs_int(d);
    if (x >= 0) == (d >= 0) {
        q
    } else {
        -q
    }
}

/// Truncating remainder: its sign follows the dividend.
pub open spec fn trunc_rem(x: int, d: int) -> int {
    let m = abs_int(x) % abs_int(d);
    if x >= 0 {
        m
    } else {
        -m
    }
}

/// Wraparound division on the native width: the one overflowing case,
/// smallest value divided by -1, wraps back to the smallest value.
pub open spec fn wrap_div_spec(lhs: i64, rhs: i64) -> i64 {
    if lhs == i64::MIN && rhs == -1 {
        i64::MIN
    } else {
        trunc_div(lhs as int, rhs as int) as i64
    }
}

/// Turns an operator token into an `Op`; any other token is refused and
/// named in the error.
pub fn op_from_token(t: &str) -> (r: Result<Op, RadixError>)
    ensures
        match r {
            Ok(o) => op_of_token(t@) == Some(o),
            Err(e) => op_of_token(t@) is None && (e matches RadixError::UnsupportedOperator(s) && s@
                == t@),
        },
{
    let cs = str_to_chars(t);
    if cs.len() == 1 {
        let c = cs[0];
        if c == '+' {
            proof {
                assert(t@ =~= seq!['+']);
            }
            return Ok(Op::Add);
        }
        if c == '-' {
            proof {
                assert(t@ =~= seq!['-']);
            }
            return Ok(Op::Sub);
        }
        if c == '*' {
            proof {
                assert(t@ =~= seq!['*']);
            }
            return Ok(Op::Mul);
        }
        if c == '/' {
            proof {
                assert(t@ =~= seq!['/']);
            }
            return Ok(Op::Div);
        }
        if c == '%' {
            proof {
                assert(t@ =~= seq!['%']);
            }
            return Ok(Op::Rem);
        }
    }
    Err(RadixError::UnsupportedOperator(t.to_owned()))
}

/// Applies one operator to two native-width values. `+ - *` wrap on
/// overflow; `/` wraps its one overflowing case; `%` truncates with the
/// dividend's sign and is defined for every nonzero divisor. A zero divisor
/// is the only error.
pub fn apply(lhs: i64, op: Op, rhs: i64) -> (r: Result<i64, RadixError>)
    ensures
        match op {
            Op::Add => r matches Ok(v) && v == i64_specs::wrapping_add(lhs, rhs),
            Op::Sub => r matches Ok(v) && v == i64_specs::wrapping_sub(lhs, rhs),
            Op::Mul => r matches Ok(v) && v == i64_specs::wrapping_mul(lhs, rhs),
            Op::Div => if rhs == 0 {
                r matches Err(e) && e is DivisionByZero
            } else {
                r matches Ok(v) && v == wrap_div_spec(lhs, rhs)
            },
            Op::Rem => if rhs == 0 {
                r matches Err(e) && e is DivisionByZero
            } else {
                r matches Ok(v) && v as int == trunc_rem(lhs as int, rhs as int)
            },
        },
{
    match op {
        Op::Add => Ok(lhs.wrapping_add(rhs)),
        Op::Sub => Ok(lhs.wrapping_sub(rhs)),
        Op::Mul => Ok(lhs.wrapping_mul(rhs)),
        Op::Div => {
            if rhs == 0 {
                Err(RadixError::DivisionByZero)
            } else if lhs == i64::MIN && rhs == -1 {
                Ok(i64::MIN)
            } else {
                proof {
                    lemma_div_in_range(lhs as int, rhs as int);
                }
                match lhs.checked_div(rhs) {
                    Some(q) => Ok(q),
                    None => {
                        proof {
                            assert(false);
                        }
                        Ok(0)
                    },
                }
            }
        },
        Op::Rem => {
            if rhs == 0 {
                Err(RadixError::DivisionByZero)
            } else {
                proof {
                    lemma_rem_in_range(lhs as int, rhs as int);
                }
                match lhs.checked_rem(rhs) {
                    Some(v) => Ok(v),
                    None => Ok(0),
                }
            }
        },
    }
}

/// For any native dividend and nonzero divisor other than the smallest
/// value divided by -1, the truncating quotient fits the native width, and
/// it is what `checked_div` returns.
proof fn lemma_div_in_range(x: int, d: int)
    requires
        i64::MIN <= x <= i64::MAX,
        i64::MIN <= d <= i64::MAX,
        d != 0,
        !(x == i64::MIN && d == -1),
    ensures
        i64::MIN <= trunc_div(x, d) <= i64::MAX,
        trunc_div(x, d) == (if x == 0 {
            0int
        } else if x > 0 && d > 0 {
            x / d
        } else if x < 0 && d < 0 {
            ((x * -1) / (d * -1))
        } else if x < 0 {
            ((x * -1) / d) * -1
        } else {
            (x / (d * -1)) * -1
        }),
{
    let a = abs_int(x);
    let b = abs_int(d);
    assert(a == x || a == x * -1);
    assert(b == d || b == d * -1);
    lemma_div_pos_is_pos(a, b);
    lemma_div_nonincreasing(a, b);
    if x == 0 {
        vstd::arithmetic::div_mod::lemma_div_of0(b);
    }
    if a == 0x8000_0000_0000_0000 {
        // only possible for x == i64::MIN, so d != -1 here
        if d == 1 {
            lemma_div_basics(a);
        } else {
            assert(b >= 2);
            lemma_div_is_ordered_by_denominator(a, 2, b);
            assert(a / 2 == 0x4000_0000_0000_0000);
        }
    }
}

/// For any native dividend and nonzero divisor, the truncating remainder
/// fits the native width, and it is what `checked_rem` returns except for
/// the smallest value divided by -1, where it is zero.
proof fn lemma_rem_in_range(x: int, d: int)
    requires
        i64::MIN <= x <= i64::MAX,
        i64::MIN <= d <= i64::MAX,
        d != 0,
    ensures
        i64::MIN <= trunc_rem(x, d) <= i64::MAX,
        !(x == i64::MIN && d == -1) ==> trunc_rem(x, d) == (if x == 0 {
            0int
        } else if x > 0 && d > 0 {
            x % d
        } else if x < 0 && d < 0 {
            ((x * -1) % (d * -1)) * -1
        } else if x < 0 {
            ((x * -1) % d) * -1
        } else {
            x % (d * -1)
        }),
        x == i64::MIN && d == -1 ==> trunc_rem(x, d) == 0,
{
    let a = abs_int(x);
    let b = abs_int(d);
    assert(a == x || a == x * -1);
    assert(b == d || b == d * -1);
    lemma_mod_bound(a, b);
    lemma_mod_bound(0, b);
    if b == 1 {
        assert(a % b < 1);
    }
}

/// Law: adding 1 to the largest native value wraps around to the smallest,
/// without aborting.
pub proof fn lemma_add_wraps_to_min()
    ensures
        i64_specs::wrapping_add(i64::MAX, 1) == i64::MIN,
{
}

} // verus!
