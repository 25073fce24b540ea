//! The full numeric pipeline: parse the first literal, optionally apply one
//! operation against a second literal, resolve the display width, and
//! render the result, threading every notice through as a plain value.

use vstd::prelude::*;

use vstd::wrapping::i64_specs;

use crate::arith::{apply, op_from_token, op_of_token, trunc_rem, wrap_div_spec, Op};
use crate::error::RadixError;
use crate::parse::{fault_spec, parse_hex, parse_spec};
use crate::render::{bin_render, dec_render, format_value, hex_render, Formatted};
use crate::width::{infer_width_spec, resolve, resolve_spec, valid_width};

verus! {

/// One finished conversion: the final value, the effective width, the
/// three renderings, and the notices owed to the user.
pub struct Conversion {
    pub value: i64,
    pub width: u64,
    pub output: Formatted,
    pub input_fallback: bool,
    pub input2_fallback: bool,
    pub width_substituted: bool,
}

/// What one operation evaluates to; `None` is a division by zero.
pub open spec fn eval_spec(lhs: i64, op: Op, rhs: i64) -> Option<i64> {
    match op {
        Op::Add => Some(i64_specs::wrapping_add(lhs, rhs)),
        Op::Sub => Some(i64_specs::wrapping_sub(lhs, rhs)),
        Op::Mul => Some(i64_specs::wrapping_mul(lhs, rhs)),
        Op::Div => if rhs == 0 {
            None
        } else {
            Some(wrap_div_spec(lhs, rhs))
        },
        Op::Rem => if rhs == 0 {
            None
        } else {
            Some(trunc_rem(lhs as int, rhs as int) as i64)
        },
    }
}

/// A finished conversion carries value `v`, the given notices, the width
/// resolved against `requested`, and the renderings at that width.
pub open spec fn finishes(
    c: Conversion,
    v: int,
    fb1: bool,
    fb2: bool,
    requested: Option<u64>,
) -> bool {
    &&& c.value as int == v
    &&& c.input_fallback == fb1
    &&& c.input2_fallback == fb2
    &&& c.width == resolve_spec(c.value, requested)
    &&& c.width_substituted == (requested matches Some(w) && w < infer_width_spec(c.value))
    &&& c.output.decimal@ == dec_render(c.value)
    &&& c.output.hex@ == hex_render(c.value, c.width as int)
    &&& c.output.binary@ == bin_render(c.value, c.width as int)
}

/// The whole contract of `convert`, stepwise: each stage either passes its
/// value on or surfaces its own error, in pipeline order.
pub open spec fn convert_post(
    input: Seq<char>,
    operation: Option<(Seq<char>, Seq<char>)>,
    requested: Option<u64>,
    r: Result<Conversion, RadixError>,
) -> bool {
    match parse_spec(input) {
        None => r matches Err(e) && (e matches RadixError::InvalidInput(f) && f == fault_spec(
            input,
        )),
        Some((v1, fb1)) => match operation {
            None => r matches Ok(c) && finishes(c, v1, fb1, false, requested),
            Some((tok, lit2)) => match op_of_token(tok) {
                None => r matches Err(e) && (e matches RadixError::UnsupportedOperator(s) && s@
                    == tok),
                Some(op) => match parse_spec(lit2) {
                    None => r matches Err(e) && (e matches RadixError::InvalidInput(f) && f
                        == fault_spec(lit2)),
                    Some((v2, fb2)) => match eval_spec(v1 as i64, op, v2 as i64) {
                        None => r matches Err(e) && e is DivisionByZero,
                        Some(v) => r matches Ok(c) && finishes(c, v as int, fb1, fb2, requested),
                    },
                },
            },
        },
    }
}

pub open spec fn op_views(operation: Option<(&str, &str)>) -> Option<(Seq<char>, Seq<char>)> {
    match operation {
        None => None,
        Some((t, s)) => Some((t@, s@)),
    }
}

/// Runs the numeric pipeline on one literal, an optional `(operator,
/// second literal)` pair, and an optional requested width.
pub fn convert(
    input: &str,
    operation: Option<(&str, &str)>,
    requested_width: Option<u64>,
) -> (r: Result<Conversion, RadixError>)
    requires
        requested_width matches Some(w) ==> valid_width(w),
    ensures
        convert_post(input@, op_views(operation), requested_width, r),
{
    let first = match parse_hex(input) {
        Ok(p) => p,
        Err(e) => {
            return Err(e);
        },
    };
    let mut value = first.value;
    let mut input2_fallback = false;
    match operation {
        None => {},
        Some((tok, lit2)) => {
            let op = match op_from_token(tok) {
                Ok(o) => o,
                Err(e) => {
                    return Err(e);
                },
            };
            let second = match parse_hex(lit2) {
                Ok(p) => p,
                Err(e) => {
                    return Err(e);
                },
            };
            input2_fallback = second.hex_fallback;
            value = match apply(value, op, second.value) {
                Ok(v) => v,
                Err(e) => {
                    return Err(e);
                },
            };
        },
    }
    let (width, width_substituted) = resolve(value, requested_width);
    let output = format_value(value, width);
    Ok(
        Conversion {
            value,
            width,
            output,
            input_fallback: first.hex_fallback,
            input2_fallback,
            width_substituted,
        },
    )
}

} // verus!
