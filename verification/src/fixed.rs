//! The fixed-point number convention shared by the whole library, and the
//! spec-level summation helpers used by the weight-sum contracts.

use vstd::prelude::*;

verus! {

/// Fixed-point scale: an `i64` coordinate or weight holds the real value
/// multiplied by this constant.
pub const SCALE: i64 = 1_000_000_000_000;

/// Sum of the first `k` entries of `s`, as a mathematical integer.
pub open spec fn sum_prefix(s: Seq<i64>, k: int) -> int
    decreases k,
{
    if k <= 0 {
        0
    } else {
        sum_prefix(s, k - 1) + s[k - 1]
    }
}

/// Sum of all entries of `s`, as a mathematical integer.
pub open spec fn weight_sum(s: Seq<i64>) -> int {
    sum_prefix(s, s.len() as int)
}

/// Sum of `w[i] * x[i]` over the first `k` entries, as a mathematical
/// integer: the fixed-point quadrature sum for the integrand `x`, at scale
/// `SCALE * SCALE`.
pub open spec fn weighted_sum_prefix(w: Seq<i64>, x: Seq<i64>, k: int) -> int
    decreases k,
{
    if k <= 0 {
        0
    } else {
        weighted_sum_prefix(w, x, k - 1) + w[k - 1] * x[k - 1]
    }
}

/// Sum of `w[i] * x[i]` over all entries.
pub open spec fn weighted_node_sum(w: Seq<i64>, x: Seq<i64>) -> int {
    weighted_sum_prefix(w, x, w.len() as int)
}

} // verus!
