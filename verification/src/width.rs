//! Inference of the minimal power-of-two display width for a signed value,
//! and reconciliation with a user-requested width.

use vstd::prelude::*;

use vstd::arithmetic::div_mod::{lemma_basic_div, lemma_div_non_zero};

use crate::arith::{abs_int, trunc_div};

verus! {

/// The fixed set of effective bit widths a caller may request.
pub open spec fn valid_width(w: u64) -> bool {
    w == 2 || w == 4 || w == 8 || w == 16 || w == 32 || w == 64
}

/// The inferred minimal width. Starting from a floor of 2 bits, the
/// candidate moves along the fixed chain 2, 8, 16, 32, 64 (4 is skipped)
/// as long as the value divided by 2^candidate is nonzero — equivalently,
/// as long as the magnitude reaches 2^candidate.
pub open spec fn infer_width_spec(v: i64) -> u64 {
    let a = abs_int(v as int);
    if a < 4 {
        2
    } else if a < 256 {
        8
    } else if a < 65536 {
        16
    } else if a < 0x1_0000_0000 {
        32
    } else {
        64
    }
}

/// What reconciliation yields: a request below the inferred minimum is
/// overridden by that minimum; any other request is honored verbatim.
pub open spec fn resolve_spec(v: i64, requested: Option<u64>) -> u64 {
    match requested {
        None => infer_width_spec(v),
        Some(w) => if w < infer_width_spec(v) {
            infer_width_spec(v)
        } else {
            w
        },
    }
}

/// Infers the minimal display width for `value`.
pub fn infer_width(value: i64) -> (w: u64)
    ensures
        w == infer_width_spec(value),
{
    let a: u64 = if value >= 0 {
        value as u64
    } else if value == i64::MIN {
        0x8000_0000_0000_0000u64
    } else {
        (-value) as u64
    };
    proof {
        assert(a as int == abs_int(value as int));
    }
    if a < 4 {
        2
    } else if a < 256 {
        8
    } else if a < 65536 {
        16
    } else if a < 0x1_0000_0000 {
        32
    } else {
        64
    }
}

/// Reconciles the inferred width with an optional requested one. The
/// second result is true when the request was too small and a notice about
/// the substitution is owed to the user.
pub fn resolve(value: i64, requested: Option<u64>) -> (r: (u64, bool))
    requires
        requested matches Some(w) ==> valid_width(w),
    ensures
        r.0 == resolve_spec(value, requested),
        r.1 == (requested matches Some(w) && w < infer_width_spec(value)),
        valid_width(r.0),
{
    let inferred = infer_width(value);
    match requested {
        None => (inferred, false),
        Some(w) => if w < inferred {
            (inferred, true)
        } else {
            (w, false)
        },
    }
}

/// The doubling condition of the width chain, as the heuristic states it:
/// the value divided by 2^candidate is nonzero exactly when the magnitude
/// reaches 2^candidate.
pub proof fn lemma_width_step_condition(v: i64, k: u64)
    requires
        1 <= k <= 0x8000_0000_0000_0000,
    ensures
        trunc_div(v as int, k as int) != 0 <==> abs_int(v as int) >= k,
{
    let a = abs_int(v as int);
    if a < k {
        lemma_basic_div(a, k as int);
    } else {
        lemma_div_non_zero(a, k as int);
    }
}

/// Law: width inference is monotonic — a larger magnitude never yields a
/// smaller inferred width.
pub proof fn lemma_infer_monotonic(a: i64, b: i64)
    requires
        abs_int(a as int) <= abs_int(b as int),
    ensures
        infer_width_spec(a) <= infer_width_spec(b),
{
}

/// Law: a requested width below the inferred minimum is overridden by the
/// inferred minimum, never honored.
pub proof fn lemma_small_request_overridden(v: i64, w: u64)
    requires
        w < infer_width_spec(v),
    ensures
        resolve_spec(v, Some(w)) == infer_width_spec(v),
{
}

} // verus!
