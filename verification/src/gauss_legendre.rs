//! Gauss-Legendre rules on the interval `[-1, 1]`.
//!
//! The `n`-point rule integrates polynomials up to degree `2n - 1` exactly.
//! Nodes and weights are held as fixed-point tables, rounded to the nearest
//! multiple of `1/SCALE` and then adjusted by at most one unit in the last
//! place so that each table's weights sum to the reference measure exactly.

use vstd::prelude::*;

use crate::fixed::SCALE;
use crate::fixed::sum_prefix;
use crate::fixed::weight_sum;
use crate::fixed::weighted_node_sum;
use crate::fixed::weighted_sum_prefix;

verus! {

/// How many points the Gauss-Legendre rule for a requested exactness order
/// uses: the smallest `n` with `2n - 1 >= order`.
pub open spec fn spec_gl_point_count(order: int) -> int {
    order / 2 + 1
}

/// The fixed-point nodes of the `n`-point Gauss-Legendre rule, in
/// ascending order.
pub open spec fn gl_nodes(n: int) -> Seq<i64> {
    if n == 1 {
        seq![0i64]
    } else if n == 2 {
        seq![-577350269190i64, 577350269190i64]
    } else if n == 3 {
        seq![-774596669241i64, 0i64, 774596669241i64]
    } else if n == 4 {
        seq![-861136311594i64, -339981043585i64, 339981043585i64, 861136311594i64]
    } else if n == 5 {
        seq![-906179845939i64, -538469310106i64, 0i64, 538469310106i64, 906179845939i64]
    } else {
        Seq::<i64>::empty()
    }
}

/// The fixed-point weights of the `n`-point Gauss-Legendre rule, paired
/// positionally with `gl_nodes(n)`.
pub open spec fn gl_weights(n: int) -> Seq<i64> {
    if n == 1 {
        seq![2000000000000i64]
    } else if n == 2 {
        seq![1000000000000i64, 1000000000000i64]
    } else if n == 3 {
        seq![555555555556i64, 888888888888i64, 555555555556i64]
    } else if n == 4 {
        seq![347854845137i64, 652145154863i64, 652145154863i64, 347854845137i64]
    } else if n == 5 {
        seq![236926885056i64, 478628670499i64, 568888888890i64, 478628670499i64, 236926885056i64]
    } else {
        Seq::<i64>::empty()
    }
}

/// The tables are well formed: `n` entries each, nodes inside `[-1, 1]`,
/// weights positive and at most the interval's measure.
pub proof fn lemma_gl_table_shape(n: int)
    requires
        1 <= n <= 5,
    ensures
        gl_nodes(n).len() == n,
        gl_weights(n).len() == n,
        forall|i: int| 0 <= i < n ==> -SCALE <= #[trigger] gl_nodes(n)[i] <= SCALE,
        forall|i: int| 0 <= i < n ==> 0 < #[trigger] gl_weights(n)[i] <= 2 * SCALE,
{
}

/// Each Gauss-Legendre table's weights sum to the interval's reference
/// measure exactly.
pub proof fn lemma_gl_weight_sum(n: int)
    requires
        1 <= n <= 5,
    ensures
        weight_sum(gl_weights(n)) == 2 * SCALE,
{
    reveal_with_fuel(sum_prefix, 6);
}

/// Each Gauss-Legendre table is symmetric about the origin, so its
/// weighted node sum is exactly zero: the rule integrates the degree-one
/// polynomial `x` exactly (the integral of `x` over `[-1, 1]` is zero).
pub proof fn lemma_gl_first_moment(n: int)
    requires
        1 <= n <= 5,
    ensures
        weighted_node_sum(gl_weights(n), gl_nodes(n)) == 0,
{
    reveal_with_fuel(weighted_sum_prefix, 6);
    if n == 1 {
        assert(weighted_node_sum(gl_weights(1), gl_nodes(1)) == 0);
    } else if n == 2 {
        assert(weighted_node_sum(gl_weights(2), gl_nodes(2)) == 0);
    } else if n == 3 {
        assert(weighted_node_sum(gl_weights(3), gl_nodes(3)) == 0);
    } else if n == 4 {
        assert(weighted_node_sum(gl_weights(4), gl_nodes(4)) == 0);
    } else {
        assert(weighted_node_sum(gl_weights(5), gl_nodes(5)) == 0);
    }
}

/// Build the `n`-point Gauss-Legendre rule: nodes and weights as vectors
/// whose contents equal the spec tables.
pub(crate) fn gl_rule(n: usize) -> (r: (Vec<i64>, Vec<i64>))
    requires
        1 <= n <= 5,
    ensures
        r.0@ == gl_nodes(n as int),
        r.1@ == gl_weights(n as int),
{
    let mut x: Vec<i64> = Vec::new();
    let mut w: Vec<i64> = Vec::new();
    if n == 1 {
        x.push(0);
        w.push(2000000000000);
    } else if n == 2 {
        x.push(-577350269190);
        x.push(577350269190);
        w.push(1000000000000);
        w.push(1000000000000);
    } else if n == 3 {
        x.push(-774596669241);
        x.push(0);
        x.push(774596669241);
        w.push(555555555556);
        w.push(888888888888);
        w.push(555555555556);
    } else if n == 4 {
        x.push(-861136311594);
        x.push(-339981043585);
        x.push(339981043585);
        x.push(861136311594);
        w.push(347854845137);
        w.push(652145154863);
        w.push(652145154863);
        w.push(347854845137);
    } else {
        x.push(-906179845939);
        x.push(-538469310106);
        x.push(0);
        x.push(538469310106);
        x.push(906179845939);
        w.push(236926885056);
        w.push(478628670499);
        w.push(568888888890);
        w.push(478628670499);
        w.push(236926885056);
    }
    proof {
        assert(x@ =~= gl_nodes(n as int));
        assert(w@ =~= gl_weights(n as int));
    }
    (x, w)
}

} // verus!
