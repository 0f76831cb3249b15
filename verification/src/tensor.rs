//! Tensor products of Gauss-Legendre interval rules.
//!
//! The quadrilateral rule for order `p` places the `n`-point interval rule
//! (`n = p/2 + 1`) along each axis: point `k` of the grid is
//! `(x[k/n], x[k%n])` and its weight is the fixed-point product
//! `w[k/n] * w[k%n] / SCALE`.  The hexahedron rule does the same along
//! three axes.  The paired double-integral rule returns the
//! two-dimensional grid as two point sequences of length `n*n`.

use vstd::prelude::*;

use crate::fixed::SCALE;
use crate::fixed::sum_prefix;
use crate::fixed::weight_sum;
use crate::gauss_legendre::gl_nodes;
use crate::gauss_legendre::gl_rule;
use crate::gauss_legendre::gl_weights;
use crate::gauss_legendre::lemma_gl_table_shape;
use crate::gauss_legendre::spec_gl_point_count;

verus! {

/// How many grid points the tensor rule for a requested order uses.
pub open spec fn spec_tensor_point_count(order: int) -> int {
    spec_gl_point_count(order) * spec_gl_point_count(order)
}

/// The fixed-point weights of the tensor grid: entry `k` is the truncated
/// fixed-point product of the interval weights `k/n` and `k%n`.
pub open spec fn tensor_weights(order: int) -> Seq<i64> {
    let n = spec_gl_point_count(order);
    Seq::new(
        (n * n) as nat,
        |k: int| ((gl_weights(n)[k / n] * gl_weights(n)[k % n]) / (SCALE as int)) as i64,
    )
}

/// The flattened coordinates of the quadrilateral tensor grid: point `k`
/// is `(x[k/n], x[k%n])`.
pub open spec fn quad_points(order: int) -> Seq<i64> {
    let n = spec_gl_point_count(order);
    Seq::new(
        (2 * n * n) as nat,
        |c: int|
            if c % 2 == 0 {
                gl_nodes(n)[(c / 2) / n]
            } else {
                gl_nodes(n)[(c / 2) % n]
            },
    )
}

/// The fixed-point weights of the hexahedron tensor grid: entry `k` is
/// the twice-truncated fixed-point product of three interval weights.
pub open spec fn tensor3_weights(order: int) -> Seq<i64> {
    let n = spec_gl_point_count(order);
    Seq::new(
        (n * n * n) as nat,
        |k: int|
            ((((gl_weights(n)[k / (n * n)] * gl_weights(n)[(k / n) % n]) / (SCALE as int))
                * gl_weights(n)[k % n]) / (SCALE as int)) as i64,
    )
}

/// The flattened coordinates of the hexahedron tensor grid: point `k` is
/// `(x[k/(n*n)], x[(k/n)%n], x[k%n])`.
pub open spec fn hex_points(order: int) -> Seq<i64> {
    let n = spec_gl_point_count(order);
    Seq::new(
        (3 * (n * n * n)) as nat,
        |c: int|
            {
                let k = c / 3;
                if c % 3 == 0 {
                    gl_nodes(n)[k / (n * n)]
                } else if c % 3 == 1 {
                    gl_nodes(n)[(k / n) % n]
                } else {
                    gl_nodes(n)[k % n]
                }
            },
    )
}

/// The first-variable coordinates of the paired double-integral grid.
pub open spec fn pair_points_a(order: int) -> Seq<i64> {
    let n = spec_gl_point_count(order);
    Seq::new((n * n) as nat, |k: int| gl_nodes(n)[k / n])
}

/// The second-variable coordinates of the paired double-integral grid.
pub open spec fn pair_points_b(order: int) -> Seq<i64> {
    let n = spec_gl_point_count(order);
    Seq::new((n * n) as nat, |k: int| gl_nodes(n)[k % n])
}

/// Tensor weight sum for orders 0 and 1 (the 1-point interval rule).
#[verifier::rlimit(100)]
proof fn lemma_tensor_sum_1(order: int)
    requires
        0 <= order <= 1,
    ensures
        weight_sum(tensor_weights(order)) == 4000000000000,
{
    reveal_with_fuel(sum_prefix, 2);
    let n = spec_gl_point_count(order);
    let s = tensor_weights(order);
    assert(n == 1);
    assert(n * n == 1) by (nonlinear_arith)
        requires
            n == 1,
    ;
    assert(s.len() == 1);
    assert(0int / n == 0 && 0int % n == 0);
    assert(s[0] == 4000000000000i64);
}

/// Tensor weight sum for orders 2 and 3 (the 2-point interval rule).
#[verifier::rlimit(100)]
proof fn lemma_tensor_sum_2(order: int)
    requires
        2 <= order <= 3,
    ensures
        weight_sum(tensor_weights(order)) == 4000000000000,
{
    reveal_with_fuel(sum_prefix, 5);
    let n = spec_gl_point_count(order);
    let s = tensor_weights(order);
    assert(n == 2);
    assert(n * n == 4) by (nonlinear_arith)
        requires
            n == 2,
    ;
    assert(s.len() == 4);
    assert(0int / n == 0 && 0int % n == 0);
    assert(s[0] == 1000000000000i64);
    assert(1int / n == 0 && 1int % n == 1);
    assert(s[1] == 1000000000000i64);
    assert(2int / n == 1 && 2int % n == 0);
    assert(s[2] == 1000000000000i64);
    assert(3int / n == 1 && 3int % n == 1);
    assert(s[3] == 1000000000000i64);
}

/// Tensor weight sum for orders 4 and 5 (the 3-point interval rule).
#[verifier::rlimit(100)]
proof fn lemma_tensor_sum_3(order: int)
    requires
        4 <= order <= 5,
    ensures
        weight_sum(tensor_weights(order)) == 3999999999996,
{
    reveal_with_fuel(sum_prefix, 10);
    let n = spec_gl_point_count(order);
    let s = tensor_weights(order);
    assert(n == 3);
    assert(n * n == 9) by (nonlinear_arith)
        requires
            n == 3,
    ;
    assert(s.len() == 9);
    assert(0int / n == 0 && 0int % n == 0);
    assert(s[0] == 308641975309i64);
    assert(1int / n == 0 && 1int % n == 1);
    assert(s[1] == 493827160493i64);
    assert(2int / n == 0 && 2int % n == 2);
    assert(s[2] == 308641975309i64);
    assert(3int / n == 1 && 3int % n == 0);
    assert(s[3] == 493827160493i64);
    assert(4int / n == 1 && 4int % n == 1);
    assert(s[4] == 790123456788i64);
    assert(5int / n == 1 && 5int % n == 2);
    assert(s[5] == 493827160493i64);
    assert(6int / n == 2 && 6int % n == 0);
    assert(s[6] == 308641975309i64);
    assert(7int / n == 2 && 7int % n == 1);
    assert(s[7] == 493827160493i64);
    assert(8int / n == 2 && 8int % n == 2);
    assert(s[8] == 308641975309i64);
}

/// Tensor weight sum for orders 6 and 7 (the 4-point interval rule).
#[verifier::rlimit(100)]
proof fn lemma_tensor_sum_4(order: int)
    requires
        6 <= order <= 7,
    ensures
        weight_sum(tensor_weights(order)) == 3999999999992,
{
    reveal_with_fuel(sum_prefix, 17);
    let n = spec_gl_point_count(order);
    let s = tensor_weights(order);
    assert(n == 4);
    assert(n * n == 16) by (nonlinear_arith)
        requires
            n == 4,
    ;
    assert(s.len() == 16);
    assert(0int / n == 0 && 0int % n == 0);
    assert(s[0] == 121002993285i64);
    assert(1int / n == 0 && 1int % n == 1);
    assert(s[1] == 226851851851i64);
    assert(2int / n == 0 && 2int % n == 2);
    assert(s[2] == 226851851851i64);
    assert(3int / n == 0 && 3int % n == 3);
    assert(s[3] == 121002993285i64);
    assert(4int / n == 1 && 4int % n == 0);
    assert(s[4] == 226851851851i64);
    assert(5int / n == 1 && 5int % n == 1);
    assert(s[5] == 425293303011i64);
    assert(6int / n == 1 && 6int % n == 2);
    assert(s[6] == 425293303011i64);
    assert(7int / n == 1 && 7int % n == 3);
    assert(s[7] == 226851851851i64);
    assert(8int / n == 2 && 8int % n == 0);
    assert(s[8] == 226851851851i64);
    assert(9int / n == 2 && 9int % n == 1);
    assert(s[9] == 425293303011i64);
    assert(10int / n == 2 && 10int % n == 2);
    assert(s[10] == 425293303011i64);
    assert(11int / n == 2 && 11int % n == 3);
    assert(s[11] == 226851851851i64);
    assert(12int / n == 3 && 12int % n == 0);
    assert(s[12] == 121002993285i64);
    assert(13int / n == 3 && 13int % n == 1);
    assert(s[13] == 226851851851i64);
    assert(14int / n == 3 && 14int % n == 2);
    assert(s[14] == 226851851851i64);
    assert(15int / n == 3 && 15int % n == 3);
    assert(s[15] == 121002993285i64);
}

/// Tensor weight sum for orders 8 and 9 (the 5-point interval rule).
#[verifier::rlimit(100)]
proof fn lemma_tensor_sum_5(order: int)
    requires
        8 <= order <= 9,
    ensures
        weight_sum(tensor_weights(order)) == 3999999999986,
{
    reveal_with_fuel(sum_prefix, 26);
    let n = spec_gl_point_count(order);
    let s = tensor_weights(order);
    assert(n == 5);
    assert(n * n == 25) by (nonlinear_arith)
        requires
            n == 5,
    ;
    assert(s.len() == 25);
    assert(0int / n == 0 && 0int % n == 0);
    assert(s[0] == 56134348862i64);
    assert(1int / n == 0 && 1int % n == 1);
    assert(s[1] == 113399999999i64);
    assert(2int / n == 0 && 2int % n == 2);
    assert(s[2] == 134785072387i64);
    assert(3int / n == 0 && 3int % n == 3);
    assert(s[3] == 113399999999i64);
    assert(4int / n == 0 && 4int % n == 4);
    assert(s[4] == 56134348862i64);
    assert(5int / n == 1 && 5int % n == 0);
    assert(s[5] == 113399999999i64);
    assert(6int / n == 1 && 6int % n == 1);
    assert(s[6] == 229085404223i64);
    assert(7int / n == 1 && 7int % n == 2);
    assert(s[7] == 272286532551i64);
    assert(8int / n == 1 && 8int % n == 3);
    assert(s[8] == 229085404223i64);
    assert(9int / n == 1 && 9int % n == 4);
    assert(s[9] == 113399999999i64);
    assert(10int / n == 2 && 10int % n == 0);
    assert(s[10] == 134785072387i64);
    assert(11int / n == 2 && 11int % n == 1);
    assert(s[11] == 272286532551i64);
    assert(12int / n == 2 && 12int % n == 2);
    assert(s[12] == 323634567902i64);
    assert(13int / n == 2 && 13int % n == 3);
    assert(s[13] == 272286532551i64);
    assert(14int / n == 2 && 14int % n == 4);
    assert(s[14] == 134785072387i64);
    assert(15int / n == 3 && 15int % n == 0);
    assert(s[15] == 113399999999i64);
    assert(16int / n == 3 && 16int % n == 1);
    assert(s[16] == 229085404223i64);
    assert(17int / n == 3 && 17int % n == 2);
    assert(s[17] == 272286532551i64);
    assert(18int / n == 3 && 18int % n == 3);
    assert(s[18] == 229085404223i64);
    assert(19int / n == 3 && 19int % n == 4);
    assert(s[19] == 113399999999i64);
    assert(20int / n == 4 && 20int % n == 0);
    assert(s[20] == 56134348862i64);
    assert(21int / n == 4 && 21int % n == 1);
    assert(s[21] == 113399999999i64);
    assert(22int / n == 4 && 22int % n == 2);
    assert(s[22] == 134785072387i64);
    assert(23int / n == 4 && 23int % n == 3);
    assert(s[23] == 113399999999i64);
    assert(24int / n == 4 && 24int % n == 4);
    assert(s[24] == 56134348862i64);
}

/// The tensor grid's weights sum to the quadrilateral's reference measure
/// to within twenty units in the last fixed-point place: each interval
/// table sums to the interval measure exactly, and each of the at most 25
/// truncated products loses less than one unit.
pub proof fn lemma_tensor_weight_sum(order: int)
    requires
        0 <= order <= 9,
    ensures
        4 * SCALE - 20 <= weight_sum(tensor_weights(order)) <= 4 * SCALE,
{
    if order <= 1 {
        lemma_tensor_sum_1(order);
    } else if order <= 3 {
        lemma_tensor_sum_2(order);
    } else if order <= 5 {
        lemma_tensor_sum_3(order);
    } else if order <= 7 {
        lemma_tensor_sum_4(order);
    } else {
        lemma_tensor_sum_5(order);
    }
}

/// Hexahedron tensor weight sum for orders 0 and 1 (the 1-point
/// interval rule).
#[verifier::rlimit(100)]
proof fn lemma_tensor3_sum_1(order: int)
    requires
        0 <= order <= 1,
    ensures
        weight_sum(tensor3_weights(order)) == 8000000000000,
{
    reveal_with_fuel(sum_prefix, 2);
    let n = spec_gl_point_count(order);
    let s = tensor3_weights(order);
    assert(n == 1);
    assert(n * n == 1 && n * n * n == 1) by (nonlinear_arith)
        requires
            n == 1,
    ;
    assert(s.len() == 1);
    assert(0int / (n * n) == 0 && (0int / n) % n == 0 && 0int % n == 0);
    assert((gl_weights(n)[0] * gl_weights(n)[0]) / (SCALE as int) == 4000000000000);
    assert(s[0] == 8000000000000i64);
    assert(sum_prefix(s, 1) == 8000000000000);
}

/// Hexahedron tensor weight sum for orders 2 and 3 (the 2-point
/// interval rule).
#[verifier::rlimit(100)]
proof fn lemma_tensor3_sum_2(order: int)
    requires
        2 <= order <= 3,
    ensures
        weight_sum(tensor3_weights(order)) == 8000000000000,
{
    reveal_with_fuel(sum_prefix, 9);
    let n = spec_gl_point_count(order);
    let s = tensor3_weights(order);
    assert(n == 2);
    assert(n * n == 4 && n * n * n == 8) by (nonlinear_arith)
        requires
            n == 2,
    ;
    assert(s.len() == 8);
    assert(0int / (n * n) == 0 && (0int / n) % n == 0 && 0int % n == 0);
    assert((gl_weights(n)[0] * gl_weights(n)[0]) / (SCALE as int) == 1000000000000);
    assert(s[0] == 1000000000000i64);
    assert(1int / (n * n) == 0 && (1int / n) % n == 0 && 1int % n == 1);
    assert((gl_weights(n)[0] * gl_weights(n)[0]) / (SCALE as int) == 1000000000000);
    assert(s[1] == 1000000000000i64);
    assert(2int / (n * n) == 0 && (2int / n) % n == 1 && 2int % n == 0);
    assert((gl_weights(n)[0] * gl_weights(n)[1]) / (SCALE as int) == 1000000000000);
    assert(s[2] == 1000000000000i64);
    assert(3int / (n * n) == 0 && (3int / n) % n == 1 && 3int % n == 1);
    assert((gl_weights(n)[0] * gl_weights(n)[1]) / (SCALE as int) == 1000000000000);
    assert(s[3] == 1000000000000i64);
    assert(4int / (n * n) == 1 && (4int / n) % n == 0 && 4int % n == 0);
    assert((gl_weights(n)[1] * gl_weights(n)[0]) / (SCALE as int) == 1000000000000);
    assert(s[4] == 1000000000000i64);
    assert(5int / (n * n) == 1 && (5int / n) % n == 0 && 5int % n == 1);
    assert((gl_weights(n)[1] * gl_weights(n)[0]) / (SCALE as int) == 1000000000000);
    assert(s[5] == 1000000000000i64);
    assert(6int / (n * n) == 1 && (6int / n) % n == 1 && 6int % n == 0);
    assert((gl_weights(n)[1] * gl_weights(n)[1]) / (SCALE as int) == 1000000000000);
    assert(s[6] == 1000000000000i64);
    assert(7int / (n * n) == 1 && (7int / n) % n == 1 && 7int % n == 1);
    assert((gl_weights(n)[1] * gl_weights(n)[1]) / (SCALE as int) == 1000000000000);
    assert(s[7] == 1000000000000i64);
    assert(sum_prefix(s, 8) == 8000000000000);
}

/// Hexahedron tensor weight sum for orders 4 and 5 (the 3-point
/// interval rule).
#[verifier::rlimit(100)]
proof fn lemma_tensor3_sum_3(order: int)
    requires
        4 <= order <= 5,
    ensures
        weight_sum(tensor3_weights(order)) == 7999999999978,
{
    reveal_with_fuel(sum_prefix, 28);
    let n = spec_gl_point_count(order);
    let s = tensor3_weights(order);
    assert(n == 3);
    assert(n * n == 9 && n * n * n == 27) by (nonlinear_arith)
        requires
            n == 3,
    ;
    assert(s.len() == 27);
    assert(0int / (n * n) == 0 && (0int / n) % n == 0 && 0int % n == 0);
    assert((gl_weights(n)[0] * gl_weights(n)[0]) / (SCALE as int) == 308641975309);
    assert(s[0] == 171467764060i64);
    assert(1int / (n * n) == 0 && (1int / n) % n == 0 && 1int % n == 1);
    assert((gl_weights(n)[0] * gl_weights(n)[0]) / (SCALE as int) == 308641975309);
    assert(s[1] == 274348422496i64);
    assert(2int / (n * n) == 0 && (2int / n) % n == 0 && 2int % n == 2);
    assert((gl_weights(n)[0] * gl_weights(n)[0]) / (SCALE as int) == 308641975309);
    assert(s[2] == 171467764060i64);
    assert(3int / (n * n) == 0 && (3int / n) % n == 1 && 3int % n == 0);
    assert((gl_weights(n)[0] * gl_weights(n)[1]) / (SCALE as int) == 493827160493);
    assert(s[3] == 274348422496i64);
    assert(4int / (n * n) == 0 && (4int / n) % n == 1 && 4int % n == 1);
    assert((gl_weights(n)[0] * gl_weights(n)[1]) / (SCALE as int) == 493827160493);
    assert(s[4] == 438957475993i64);
    assert(5int / (n * n) == 0 && (5int / n) % n == 1 && 5int % n == 2);
    assert((gl_weights(n)[0] * gl_weights(n)[1]) / (SCALE as int) == 493827160493);
    assert(s[5] == 274348422496i64);
    assert(6int / (n * n) == 0 && (6int / n) % n == 2 && 6int % n == 0);
    assert((gl_weights(n)[0] * gl_weights(n)[2]) / (SCALE as int) == 308641975309);
    assert(s[6] == 171467764060i64);
    assert(7int / (n * n) == 0 && (7int / n) % n == 2 && 7int % n == 1);
    assert((gl_weights(n)[0] * gl_weights(n)[2]) / (SCALE as int) == 308641975309);
    assert(s[7] == 274348422496i64);
    assert(8int / (n * n) == 0 && (8int / n) % n == 2 && 8int % n == 2);
    assert((gl_weights(n)[0] * gl_weights(n)[2]) / (SCALE as int) == 308641975309);
    assert(s[8] == 171467764060i64);
    assert(9int / (n * n) == 1 && (9int / n) % n == 0 && 9int % n == 0);
    assert((gl_weights(n)[1] * gl_weights(n)[0]) / (SCALE as int) == 493827160493);
    assert(s[9] == 274348422496i64);
    assert(10int / (n * n) == 1 && (10int / n) % n == 0 && 10int % n == 1);
    assert((gl_weights(n)[1] * gl_weights(n)[0]) / (SCALE as int) == 493827160493);
    assert(s[10] == 438957475993i64);
    assert(11int / (n * n) == 1 && (11int / n) % n == 0 && 11int % n == 2);
    assert((gl_weights(n)[1] * gl_weights(n)[0]) / (SCALE as int) == 493827160493);
    assert(s[11] == 274348422496i64);
    assert(12int / (n * n) == 1 && (12int / n) % n == 1 && 12int % n == 0);
    assert((gl_weights(n)[1] * gl_weights(n)[1]) / (SCALE as int) == 790123456788);
    assert(s[12] == 438957475993i64);
    assert(13int / (n * n) == 1 && (13int / n) % n == 1 && 13int % n == 1);
    assert((gl_weights(n)[1] * gl_weights(n)[1]) / (SCALE as int) == 790123456788);
    assert(s[13] == 702331961588i64);
    assert(14int / (n * n) == 1 && (14int / n) % n == 1 && 14int % n == 2);
    assert((gl_weights(n)[1] * gl_weights(n)[1]) / (SCALE as int) == 790123456788);
    assert(s[14] == 438957475993i64);
    assert(15int / (n * n) == 1 && (15int / n) % n == 2 && 15int % n == 0);
    assert((gl_weights(n)[1] * gl_weights(n)[2]) / (SCALE as int) == 493827160493);
    assert(s[15] == 274348422496i64);
    assert(16int / (n * n) == 1 && (16int / n) % n == 2 && 16int % n == 1);
    assert((gl_weights(n)[1] * gl_weights(n)[2]) / (SCALE as int) == 493827160493);
    assert(s[16] == 438957475993i64);
    assert(17int / (n * n) == 1 && (17int / n) % n == 2 && 17int % n == 2);
    assert((gl_weights(n)[1] * gl_weights(n)[2]) / (SCALE as int) == 493827160493);
    assert(s[17] == 274348422496i64);
    assert(18int / (n * n) == 2 && (18int / n) % n == 0 && 18int % n == 0);
    assert((gl_weights(n)[2] * gl_weights(n)[0]) / (SCALE as int) == 308641975309);
    assert(s[18] == 171467764060i64);
    assert(19int / (n * n) == 2 && (19int / n) % n == 0 && 19int % n == 1);
    assert((gl_weights(n)[2] * gl_weights(n)[0]) / (SCALE as int) == 308641975309);
    assert(s[19] == 274348422496i64);
    assert(20int / (n * n) == 2 && (20int / n) % n == 0 && 20int % n == 2);
    assert((gl_weights(n)[2] * gl_weights(n)[0]) / (SCALE as int) == 308641975309);
    assert(s[20] == 171467764060i64);
    assert(21int / (n * n) == 2 && (21int / n) % n == 1 && 21int % n == 0);
    assert((gl_weights(n)[2] * gl_weights(n)[1]) / (SCALE as int) == 493827160493);
    assert(s[21] == 274348422496i64);
    assert(22int / (n * n) == 2 && (22int / n) % n == 1 && 22int % n == 1);
    assert((gl_weights(n)[2] * gl_weights(n)[1]) / (SCALE as int) == 493827160493);
    assert(s[22] == 438957475993i64);
    assert(23int / (n * n) == 2 && (23int / n) % n == 1 && 23int % n == 2);
    assert((gl_weights(n)[2] * gl_weights(n)[1]) / (SCALE as int) == 493827160493);
    assert(s[23] == 274348422496i64);
    assert(24int / (n * n) == 2 && (24int / n) % n == 2 && 24int % n == 0);
    assert((gl_weights(n)[2] * gl_weights(n)[2]) / (SCALE as int) == 308641975309);
    assert(s[24] == 171467764060i64);
    assert(25int / (n * n) == 2 && (25int / n) % n == 2 && 25int % n == 1);
    assert((gl_weights(n)[2] * gl_weights(n)[2]) / (SCALE as int) == 308641975309);
    assert(s[25] == 274348422496i64);
    assert(26int / (n * n) == 2 && (26int / n) % n == 2 && 26int % n == 2);
    assert((gl_weights(n)[2] * gl_weights(n)[2]) / (SCALE as int) == 308641975309);
    assert(s[26] == 171467764060i64);
    assert(sum_prefix(s, 27) == 7999999999978);
}

/// Hexahedron tensor weight sum for orders 6 and 7 (the 4-point
/// interval rule).
#[verifier::rlimit(100)]
proof fn lemma_tensor3_sum_4(order: int)
    requires
        6 <= order <= 7,
    ensures
        weight_sum(tensor3_weights(order)) == 7999999999952,
{
    reveal_with_fuel(sum_prefix, 17);
    let n = spec_gl_point_count(order);
    let s = tensor3_weights(order);
    assert(n == 4);
    assert(n * n == 16 && n * n * n == 64) by (nonlinear_arith)
        requires
            n == 4,
    ;
    assert(s.len() == 64);
    assert(0int / (n * n) == 0 && (0int / n) % n == 0 && 0int % n == 0);
    assert((gl_weights(n)[0] * gl_weights(n)[0]) / (SCALE as int) == 121002993285);
    assert(s[0] == 42091477490i64);
    assert(1int / (n * n) == 0 && (1int / n) % n == 0 && 1int % n == 1);
    assert((gl_weights(n)[0] * gl_weights(n)[0]) / (SCALE as int) == 121002993285);
    assert(s[1] == 78911515794i64);
    assert(2int / (n * n) == 0 && (2int / n) % n == 0 && 2int % n == 2);
    assert((gl_weights(n)[0] * gl_weights(n)[0]) / (SCALE as int) == 121002993285);
    assert(s[2] == 78911515794i64);
    assert(3int / (n * n) == 0 && (3int / n) % n == 0 && 3int % n == 3);
    assert((gl_weights(n)[0] * gl_weights(n)[0]) / (SCALE as int) == 121002993285);
    assert(s[3] == 42091477490i64);
    assert(4int / (n * n) == 0 && (4int / n) % n == 1 && 4int % n == 0);
    assert((gl_weights(n)[0] * gl_weights(n)[1]) / (SCALE as int) == 226851851851);
    assert(s[4] == 78911515794i64);
    assert(5int / (n * n) == 0 && (5int / n) % n == 1 && 5int % n == 1);
    assert((gl_weights(n)[0] * gl_weights(n)[1]) / (SCALE as int) == 226851851851);
    assert(s[5] == 147940336056i64);
    assert(6int / (n * n) == 0 && (6int / n) % n == 1 && 6int % n == 2);
    assert((gl_weights(n)[0] * gl_weights(n)[1]) / (SCALE as int) == 226851851851);
    assert(s[6] == 147940336056i64);
    assert(7int / (n * n) == 0 && (7int / n) % n == 1 && 7int % n == 3);
    assert((gl_weights(n)[0] * gl_weights(n)[1]) / (SCALE as int) == 226851851851);
    assert(s[7] == 78911515794i64);
    assert(8int / (n * n) == 0 && (8int / n) % n == 2 && 8int % n == 0);
    assert((gl_weights(n)[0] * gl_weights(n)[2]) / (SCALE as int) == 226851851851);
    assert(s[8] == 78911515794i64);
    assert(9int / (n * n) == 0 && (9int / n) % n == 2 && 9int % n == 1);
    assert((gl_weights(n)[0] * gl_weights(n)[2]) / (SCALE as int) == 226851851851);
    assert(s[9] == 147940336056i64);
    assert(10int / (n * n) == 0 && (10int / n) % n == 2 && 10int % n == 2);
    assert((gl_weights(n)[0] * gl_weights(n)[2]) / (SCALE as int) == 226851851851);
    assert(s[10] == 147940336056i64);
    assert(11int / (n * n) == 0 && (11int / n) % n == 2 && 11int % n == 3);
    assert((gl_weights(n)[0] * gl_weights(n)[2]) / (SCALE as int) == 226851851851);
    assert(s[11] == 78911515794i64);
    assert(12int / (n * n) == 0 && (12int / n) % n == 3 && 12int % n == 0);
    assert((gl_weights(n)[0] * gl_weights(n)[3]) / (SCALE as int) == 121002993285);
    assert(s[12] == 42091477490i64);
    assert(13int / (n * n) == 0 && (13int / n) % n == 3 && 13int % n == 1);
    assert((gl_weights(n)[0] * gl_weights(n)[3]) / (SCALE as int) == 121002993285);
    assert(s[13] == 78911515794i64);
    assert(14int / (n * n) == 0 && (14int / n) % n == 3 && 14int % n == 2);
    assert((gl_weights(n)[0] * gl_weights(n)[3]) / (SCALE as int) == 121002993285);
    assert(s[14] == 78911515794i64);
    assert(15int / (n * n) == 0 && (15int / n) % n == 3 && 15int % n == 3);
    assert((gl_weights(n)[0] * gl_weights(n)[3]) / (SCALE as int) == 121002993285);
    assert(s[15] == 42091477490i64);
    assert(16int / (n * n) == 1 && (16int / n) % n == 0 && 16int % n == 0);
    assert((gl_weights(n)[1] * gl_weights(n)[0]) / (SCALE as int) == 226851851851);
    assert(s[16] == 78911515794i64);
    assert(17int / (n * n) == 1 && (17int / n) % n == 0 && 17int % n == 1);
    assert((gl_weights(n)[1] * gl_weights(n)[0]) / (SCALE as int) == 226851851851);
    assert(s[17] == 147940336056i64);
    assert(18int / (n * n) == 1 && (18int / n) % n == 0 && 18int % n == 2);
    assert((gl_weights(n)[1] * gl_weights(n)[0]) / (SCALE as int) == 226851851851);
    assert(s[18] == 147940336056i64);
    assert(19int / (n * n) == 1 && (19int / n) % n == 0 && 19int % n == 3);
    assert((gl_weights(n)[1] * gl_weights(n)[0]) / (SCALE as int) == 226851851851);
    assert(s[19] == 78911515794i64);
    assert(20int / (n * n) == 1 && (20int / n) % n == 1 && 20int % n == 0);
    assert((gl_weights(n)[1] * gl_weights(n)[1]) / (SCALE as int) == 425293303011);
    assert(s[20] == 147940336056i64);
    assert(21int / (n * n) == 1 && (21int / n) % n == 1 && 21int % n == 1);
    assert((gl_weights(n)[1] * gl_weights(n)[1]) / (SCALE as int) == 425293303011);
    assert(s[21] == 277352966954i64);
    assert(22int / (n * n) == 1 && (22int / n) % n == 1 && 22int % n == 2);
    assert((gl_weights(n)[1] * gl_weights(n)[1]) / (SCALE as int) == 425293303011);
    assert(s[22] == 277352966954i64);
    assert(23int / (n * n) == 1 && (23int / n) % n == 1 && 23int % n == 3);
    assert((gl_weights(n)[1] * gl_weights(n)[1]) / (SCALE as int) == 425293303011);
    assert(s[23] == 147940336056i64);
    assert(24int / (n * n) == 1 && (24int / n) % n == 2 && 24int % n == 0);
    assert((gl_weights(n)[1] * gl_weights(n)[2]) / (SCALE as int) == 425293303011);
    assert(s[24] == 147940336056i64);
    assert(25int / (n * n) == 1 && (25int / n) % n == 2 && 25int % n == 1);
    assert((gl_weights(n)[1] * gl_weights(n)[2]) / (SCALE as int) == 425293303011);
    assert(s[25] == 277352966954i64);
    assert(26int / (n * n) == 1 && (26int / n) % n == 2 && 26int % n == 2);
    assert((gl_weights(n)[1] * gl_weights(n)[2]) / (SCALE as int) == 425293303011);
    assert(s[26] == 277352966954i64);
    assert(27int / (n * n) == 1 && (27int / n) % n == 2 && 27int % n == 3);
    assert((gl_weights(n)[1] * gl_weights(n)[2]) / (SCALE as int) == 425293303011);
    assert(s[27] == 147940336056i64);
    assert(28int / (n * n) == 1 && (28int / n) % n == 3 && 28int % n == 0);
    assert((gl_weights(n)[1] * gl_weights(n)[3]) / (SCALE as int) == 226851851851);
    assert(s[28] == 78911515794i64);
    assert(29int / (n * n) == 1 && (29int / n) % n == 3 && 29int % n == 1);
    assert((gl_weights(n)[1] * gl_weights(n)[3]) / (SCALE as int) == 226851851851);
    assert(s[29] == 147940336056i64);
    assert(30int / (n * n) == 1 && (30int / n) % n == 3 && 30int % n == 2);
    assert((gl_weights(n)[1] * gl_weights(n)[3]) / (SCALE as int) == 226851851851);
    assert(s[30] == 147940336056i64);
    assert(31int / (n * n) == 1 && (31int / n) % n == 3 && 31int % n == 3);
    assert((gl_weights(n)[1] * gl_weights(n)[3]) / (SCALE as int) == 226851851851);
    assert(s[31] == 78911515794i64);
    assert(32int / (n * n) == 2 && (32int / n) % n == 0 && 32int % n == 0);
    assert((gl_weights(n)[2] * gl_weights(n)[0]) / (SCALE as int) == 226851851851);
    assert(s[32] == 78911515794i64);
    assert(33int / (n * n) == 2 && (33int / n) % n == 0 && 33int % n == 1);
    assert((gl_weights(n)[2] * gl_weights(n)[0]) / (SCALE as int) == 226851851851);
    assert(s[33] == 147940336056i64);
    assert(34int / (n * n) == 2 && (34int / n) % n == 0 && 34int % n == 2);
    assert((gl_weights(n)[2] * gl_weights(n)[0]) / (SCALE as int) == 226851851851);
    assert(s[34] == 147940336056i64);
    assert(35int / (n * n) == 2 && (35int / n) % n == 0 && 35int % n == 3);
    assert((gl_weights(n)[2] * gl_weights(n)[0]) / (SCALE as int) == 226851851851);
    assert(s[35] == 78911515794i64);
    assert(36int / (n * n) == 2 && (36int / n) % n == 1 && 36int % n == 0);
    assert((gl_weights(n)[2] * gl_weights(n)[1]) / (SCALE as int) == 425293303011);
    assert(s[36] == 147940336056i64);
    assert(37int / (n * n) == 2 && (37int / n) % n == 1 && 37int % n == 1);
    assert((gl_weights(n)[2] * gl_weights(n)[1]) / (SCALE as int) == 425293303011);
    assert(s[37] == 277352966954i64);
    assert(38int / (n * n) == 2 && (38int / n) % n == 1 && 38int % n == 2);
    assert((gl_weights(n)[2] * gl_weights(n)[1]) / (SCALE as int) == 425293303011);
    assert(s[38] == 277352966954i64);
    assert(39int / (n * n) == 2 && (39int / n) % n == 1 && 39int % n == 3);
    assert((gl_weights(n)[2] * gl_weights(n)[1]) / (SCALE as int) == 425293303011);
    assert(s[39] == 147940336056i64);
    assert(40int / (n * n) == 2 && (40int / n) % n == 2 && 40int % n == 0);
    assert((gl_weights(n)[2] * gl_weights(n)[2]) / (SCALE as int) == 425293303011);
    assert(s[40] == 147940336056i64);
    assert(41int / (n * n) == 2 && (41int / n) % n == 2 && 41int % n == 1);
    assert((gl_weights(n)[2] * gl_weights(n)[2]) / (SCALE as int) == 425293303011);
    assert(s[41] == 277352966954i64);
    assert(42int / (n * n) == 2 && (42int / n) % n == 2 && 42int % n == 2);
    assert((gl_weights(n)[2] * gl_weights(n)[2]) / (SCALE as int) == 425293303011);
    assert(s[42] == 277352966954i64);
    assert(43int / (n * n) == 2 && (43int / n) % n == 2 && 43int % n == 3);
    assert((gl_weights(n)[2] * gl_weights(n)[2]) / (SCALE as int) == 425293303011);
    assert(s[43] == 147940336056i64);
    assert(44int / (n * n) == 2 && (44int / n) % n == 3 && 44int % n == 0);
    assert((gl_weights(n)[2] * gl_weights(n)[3]) / (SCALE as int) == 226851851851);
    assert(s[44] == 78911515794i64);
    assert(45int / (n * n) == 2 && (45int / n) % n == 3 && 45int % n == 1);
    assert((gl_weights(n)[2] * gl_weights(n)[3]) / (SCALE as int) == 226851851851);
    assert(s[45] == 147940336056i64);
    assert(46int / (n * n) == 2 && (46int / n) % n == 3 && 46int % n == 2);
    assert((gl_weights(n)[2] * gl_weights(n)[3]) / (SCALE as int) == 226851851851);
    assert(s[46] == 147940336056i64);
    assert(47int / (n * n) == 2 && (47int / n) % n == 3 && 47int % n == 3);
    assert((gl_weights(n)[2] * gl_weights(n)[3]) / (SCALE as int) == 226851851851);
    assert(s[47] == 78911515794i64);
    assert(48int / (n * n) == 3 && (48int / n) % n == 0 && 48int % n == 0);
    assert((gl_weights(n)[3] * gl_weights(n)[0]) / (SCALE as int) == 121002993285);
    assert(s[48] == 42091477490i64);
    assert(49int / (n * n) == 3 && (49int / n) % n == 0 && 49int % n == 1);
    assert((gl_weights(n)[3] * gl_weights(n)[0]) / (SCALE as int) == 121002993285);
    assert(s[49] == 78911515794i64);
    assert(50int / (n * n) == 3 && (50int / n) % n == 0 && 50int % n == 2);
    assert((gl_weights(n)[3] * gl_weights(n)[0]) / (SCALE as int) == 121002993285);
    assert(s[50] == 78911515794i64);
    assert(51int / (n * n) == 3 && (51int / n) % n == 0 && 51int % n == 3);
    assert((gl_weights(n)[3] * gl_weights(n)[0]) / (SCALE as int) == 121002993285);
    assert(s[51] == 42091477490i64);
    assert(52int / (n * n) == 3 && (52int / n) % n == 1 && 52int % n == 0);
    assert((gl_weights(n)[3] * gl_weights(n)[1]) / (SCALE as int) == 226851851851);
    assert(s[52] == 78911515794i64);
    assert(53int / (n * n) == 3 && (53int / n) % n == 1 && 53int % n == 1);
    assert((gl_weights(n)[3] * gl_weights(n)[1]) / (SCALE as int) == 226851851851);
    assert(s[53] == 147940336056i64);
    assert(54int / (n * n) == 3 && (54int / n) % n == 1 && 54int % n == 2);
    assert((gl_weights(n)[3] * gl_weights(n)[1]) / (SCALE as int) == 226851851851);
    assert(s[54] == 147940336056i64);
    assert(55int / (n * n) == 3 && (55int / n) % n == 1 && 55int % n == 3);
    assert((gl_weights(n)[3] * gl_weights(n)[1]) / (SCALE as int) == 226851851851);
    assert(s[55] == 78911515794i64);
    assert(56int / (n * n) == 3 && (56int / n) % n == 2 && 56int % n == 0);
    assert((gl_weights(n)[3] * gl_weights(n)[2]) / (SCALE as int) == 226851851851);
    assert(s[56] == 78911515794i64);
    assert(57int / (n * n) == 3 && (57int / n) % n == 2 && 57int % n == 1);
    assert((gl_weights(n)[3] * gl_weights(n)[2]) / (SCALE as int) == 226851851851);
    assert(s[57] == 147940336056i64);
    assert(58int / (n * n) == 3 && (58int / n) % n == 2 && 58int % n == 2);
    assert((gl_weights(n)[3] * gl_weights(n)[2]) / (SCALE as int) == 226851851851);
    assert(s[58] == 147940336056i64);
    assert(59int / (n * n) == 3 && (59int / n) % n == 2 && 59int % n == 3);
    assert((gl_weights(n)[3] * gl_weights(n)[2]) / (SCALE as int) == 226851851851);
    assert(s[59] == 78911515794i64);
    assert(60int / (n * n) == 3 && (60int / n) % n == 3 && 60int % n == 0);
    assert((gl_weights(n)[3] * gl_weights(n)[3]) / (SCALE as int) == 121002993285);
    assert(s[60] == 42091477490i64);
    assert(61int / (n * n) == 3 && (61int / n) % n == 3 && 61int % n == 1);
    assert((gl_weights(n)[3] * gl_weights(n)[3]) / (SCALE as int) == 121002993285);
    assert(s[61] == 78911515794i64);
    assert(62int / (n * n) == 3 && (62int / n) % n == 3 && 62int % n == 2);
    assert((gl_weights(n)[3] * gl_weights(n)[3]) / (SCALE as int) == 121002993285);
    assert(s[62] == 78911515794i64);
    assert(63int / (n * n) == 3 && (63int / n) % n == 3 && 63int % n == 3);
    assert((gl_weights(n)[3] * gl_weights(n)[3]) / (SCALE as int) == 121002993285);
    assert(s[63] == 42091477490i64);
    assert(sum_prefix(s, 16) == 1391419380536);
    assert(sum_prefix(s, 32) == 3999999999976);
    assert(sum_prefix(s, 48) == 6608580619416);
    assert(sum_prefix(s, 64) == 7999999999952);
}

/// Hexahedron tensor weight sum for orders 8 and 9 (the 5-point
/// interval rule).
#[verifier::rlimit(100)]
proof fn lemma_tensor3_sum_5(order: int)
    requires
        8 <= order <= 9,
    ensures
        weight_sum(tensor3_weights(order)) == 7999999999922,
{
    reveal_with_fuel(sum_prefix, 26);
    let n = spec_gl_point_count(order);
    let s = tensor3_weights(order);
    assert(n == 5);
    assert(n * n == 25 && n * n * n == 125) by (nonlinear_arith)
        requires
            n == 5,
    ;
    assert(s.len() == 125);
    assert(0int / (n * n) == 0 && (0int / n) % n == 0 && 0int % n == 0);
    assert((gl_weights(n)[0] * gl_weights(n)[0]) / (SCALE as int) == 56134348862);
    assert(s[0] == 13299736420i64);
    assert(1int / (n * n) == 0 && (1int / n) % n == 0 && 1int % n == 1);
    assert((gl_weights(n)[0] * gl_weights(n)[0]) / (SCALE as int) == 56134348862);
    assert(s[1] == 26867508765i64);
    assert(2int / (n * n) == 0 && (2int / n) % n == 0 && 2int % n == 2);
    assert((gl_weights(n)[0] * gl_weights(n)[0]) / (SCALE as int) == 56134348862);
    assert(s[2] == 31934207352i64);
    assert(3int / (n * n) == 0 && (3int / n) % n == 0 && 3int % n == 3);
    assert((gl_weights(n)[0] * gl_weights(n)[0]) / (SCALE as int) == 56134348862);
    assert(s[3] == 26867508765i64);
    assert(4int / (n * n) == 0 && (4int / n) % n == 0 && 4int % n == 4);
    assert((gl_weights(n)[0] * gl_weights(n)[0]) / (SCALE as int) == 56134348862);
    assert(s[4] == 13299736420i64);
    assert(5int / (n * n) == 0 && (5int / n) % n == 1 && 5int % n == 0);
    assert((gl_weights(n)[0] * gl_weights(n)[1]) / (SCALE as int) == 113399999999);
    assert(s[5] == 26867508765i64);
    assert(6int / (n * n) == 0 && (6int / n) % n == 1 && 6int % n == 1);
    assert((gl_weights(n)[0] * gl_weights(n)[1]) / (SCALE as int) == 113399999999);
    assert(s[6] == 54276491234i64);
    assert(7int / (n * n) == 0 && (7int / n) % n == 1 && 7int % n == 2);
    assert((gl_weights(n)[0] * gl_weights(n)[1]) / (SCALE as int) == 113399999999);
    assert(s[7] == 64511999999i64);
    assert(8int / (n * n) == 0 && (8int / n) % n == 1 && 8int % n == 3);
    assert((gl_weights(n)[0] * gl_weights(n)[1]) / (SCALE as int) == 113399999999);
    assert(s[8] == 54276491234i64);
    assert(9int / (n * n) == 0 && (9int / n) % n == 1 && 9int % n == 4);
    assert((gl_weights(n)[0] * gl_weights(n)[1]) / (SCALE as int) == 113399999999);
    assert(s[9] == 26867508765i64);
    assert(10int / (n * n) == 0 && (10int / n) % n == 2 && 10int % n == 0);
    assert((gl_weights(n)[0] * gl_weights(n)[2]) / (SCALE as int) == 134785072387);
    assert(s[10] == 31934207352i64);
    assert(11int / (n * n) == 0 && (11int / n) % n == 2 && 11int % n == 1);
    assert((gl_weights(n)[0] * gl_weights(n)[2]) / (SCALE as int) == 134785072387);
    assert(s[11] == 64511999999i64);
    assert(12int / (n * n) == 0 && (12int / n) % n == 2 && 12int % n == 2);
    assert((gl_weights(n)[0] * gl_weights(n)[2]) / (SCALE as int) == 134785072387);
    assert(s[12] == 76677730069i64);
    assert(13int / (n * n) == 0 && (13int / n) % n == 2 && 13int % n == 3);
    assert((gl_weights(n)[0] * gl_weights(n)[2]) / (SCALE as int) == 134785072387);
    assert(s[13] == 64511999999i64);
    assert(14int / (n * n) == 0 && (14int / n) % n == 2 && 14int % n == 4);
    assert((gl_weights(n)[0] * gl_weights(n)[2]) / (SCALE as int) == 134785072387);
    assert(s[14] == 31934207352i64);
    assert(15int / (n * n) == 0 && (15int / n) % n == 3 && 15int % n == 0);
    assert((gl_weights(n)[0] * gl_weights(n)[3]) / (SCALE as int) == 113399999999);
    assert(s[15] == 26867508765i64);
    assert(16int / (n * n) == 0 && (16int / n) % n == 3 && 16int % n == 1);
    assert((gl_weights(n)[0] * gl_weights(n)[3]) / (SCALE as int) == 113399999999);
    assert(s[16] == 54276491234i64);
    assert(17int / (n * n) == 0 && (17int / n) % n == 3 && 17int % n == 2);
    assert((gl_weights(n)[0] * gl_weights(n)[3]) / (SCALE as int) == 113399999999);
    assert(s[17] == 64511999999i64);
    assert(18int / (n * n) == 0 && (18int / n) % n == 3 && 18int % n == 3);
    assert((gl_weights(n)[0] * gl_weights(n)[3]) / (SCALE as int) == 113399999999);
    assert(s[18] == 54276491234i64);
    assert(19int / (n * n) == 0 && (19int / n) % n == 3 && 19int % n == 4);
    assert((gl_weights(n)[0] * gl_weights(n)[3]) / (SCALE as int) == 113399999999);
    assert(s[19] == 26867508765i64);
    assert(20int / (n * n) == 0 && (20int / n) % n == 4 && 20int % n == 0);
    assert((gl_weights(n)[0] * gl_weights(n)[4]) / (SCALE as int) == 56134348862);
    assert(s[20] == 13299736420i64);
    assert(21int / (n * n) == 0 && (21int / n) % n == 4 && 21int % n == 1);
    assert((gl_weights(n)[0] * gl_weights(n)[4]) / (SCALE as int) == 56134348862);
    assert(s[21] == 26867508765i64);
    assert(22int / (n * n) == 0 && (22int / n) % n == 4 && 22int % n == 2);
    assert((gl_weights(n)[0] * gl_weights(n)[4]) / (SCALE as int) == 56134348862);
    assert(s[22] == 31934207352i64);
    assert(23int / (n * n) == 0 && (23int / n) % n == 4 && 23int % n == 3);
    assert((gl_weights(n)[0] * gl_weights(n)[4]) / (SCALE as int) == 56134348862);
    assert(s[23] == 26867508765i64);
    assert(24int / (n * n) == 0 && (24int / n) % n == 4 && 24int % n == 4);
    assert((gl_weights(n)[0] * gl_weights(n)[4]) / (SCALE as int) == 56134348862);
    assert(s[24] == 13299736420i64);
    assert(25int / (n * n) == 1 && (25int / n) % n == 0 && 25int % n == 0);
    assert((gl_weights(n)[1] * gl_weights(n)[0]) / (SCALE as int) == 113399999999);
    assert(s[25] == 26867508765i64);
    assert(26int / (n * n) == 1 && (26int / n) % n == 0 && 26int % n == 1);
    assert((gl_weights(n)[1] * gl_weights(n)[0]) / (SCALE as int) == 113399999999);
    assert(s[26] == 54276491234i64);
    assert(27int / (n * n) == 1 && (27int / n) % n == 0 && 27int % n == 2);
    assert((gl_weights(n)[1] * gl_weights(n)[0]) / (SCALE as int) == 113399999999);
    assert(s[27] == 64511999999i64);
    assert(28int / (n * n) == 1 && (28int / n) % n == 0 && 28int % n == 3);
    assert((gl_weights(n)[1] * gl_weights(n)[0]) / (SCALE as int) == 113399999999);
    assert(s[28] == 54276491234i64);
    assert(29int / (n * n) == 1 && (29int / n) % n == 0 && 29int % n == 4);
    assert((gl_weights(n)[1] * gl_weights(n)[0]) / (SCALE as int) == 113399999999);
    assert(s[29] == 26867508765i64);
    assert(30int / (n * n) == 1 && (30int / n) % n == 1 && 30int % n == 0);
    assert((gl_weights(n)[1] * gl_weights(n)[1]) / (SCALE as int) == 229085404223);
    assert(s[30] == 54276491234i64);
    assert(31int / (n * n) == 1 && (31int / n) % n == 1 && 31int % n == 1);
    assert((gl_weights(n)[1] * gl_weights(n)[1]) / (SCALE as int) == 229085404223);
    assert(s[31] == 109646842453i64);
    assert(32int / (n * n) == 1 && (32int / n) % n == 1 && 32int % n == 2);
    assert((gl_weights(n)[1] * gl_weights(n)[1]) / (SCALE as int) == 229085404223);
    assert(s[32] == 130324141069i64);
    assert(33int / (n * n) == 1 && (33int / n) % n == 1 && 33int % n == 3);
    assert((gl_weights(n)[1] * gl_weights(n)[1]) / (SCALE as int) == 229085404223);
    assert(s[33] == 109646842453i64);
    assert(34int / (n * n) == 1 && (34int / n) % n == 1 && 34int % n == 4);
    assert((gl_weights(n)[1] * gl_weights(n)[1]) / (SCALE as int) == 229085404223);
    assert(s[34] == 54276491234i64);
    assert(35int / (n * n) == 1 && (35int / n) % n == 2 && 35int % n == 0);
    assert((gl_weights(n)[1] * gl_weights(n)[2]) / (SCALE as int) == 272286532551);
    assert(s[35] == 64512000000i64);
    assert(36int / (n * n) == 1 && (36int / n) % n == 2 && 36int % n == 1);
    assert((gl_weights(n)[1] * gl_weights(n)[2]) / (SCALE as int) == 272286532551);
    assert(s[36] == 130324141069i64);
    assert(37int / (n * n) == 1 && (37int / n) % n == 2 && 37int % n == 2);
    assert((gl_weights(n)[1] * gl_weights(n)[2]) / (SCALE as int) == 272286532551);
    assert(s[37] == 154900782962i64);
    assert(38int / (n * n) == 1 && (38int / n) % n == 2 && 38int % n == 3);
    assert((gl_weights(n)[1] * gl_weights(n)[2]) / (SCALE as int) == 272286532551);
    assert(s[38] == 130324141069i64);
    assert(39int / (n * n) == 1 && (39int / n) % n == 2 && 39int % n == 4);
    assert((gl_weights(n)[1] * gl_weights(n)[2]) / (SCALE as int) == 272286532551);
    assert(s[39] == 64512000000i64);
    assert(40int / (n * n) == 1 && (40int / n) % n == 3 && 40int % n == 0);
    assert((gl_weights(n)[1] * gl_weights(n)[3]) / (SCALE as int) == 229085404223);
    assert(s[40] == 54276491234i64);
    assert(41int / (n * n) == 1 && (41int / n) % n == 3 && 41int % n == 1);
    assert((gl_weights(n)[1] * gl_weights(n)[3]) / (SCALE as int) == 229085404223);
    assert(s[41] == 109646842453i64);
    assert(42int / (n * n) == 1 && (42int / n) % n == 3 && 42int % n == 2);
    assert((gl_weights(n)[1] * gl_weights(n)[3]) / (SCALE as int) == 229085404223);
    assert(s[42] == 130324141069i64);
    assert(43int / (n * n) == 1 && (43int / n) % n == 3 && 43int % n == 3);
    assert((gl_weights(n)[1] * gl_weights(n)[3]) / (SCALE as int) == 229085404223);
    assert(s[43] == 109646842453i64);
    assert(44int / (n * n) == 1 && (44int / n) % n == 3 && 44int % n == 4);
    assert((gl_weights(n)[1] * gl_weights(n)[3]) / (SCALE as int) == 229085404223);
    assert(s[44] == 54276491234i64);
    assert(45int / (n * n) == 1 && (45int / n) % n == 4 && 45int % n == 0);
    assert((gl_weights(n)[1] * gl_weights(n)[4]) / (SCALE as int) == 113399999999);
    assert(s[45] == 26867508765i64);
    assert(46int / (n * n) == 1 && (46int / n) % n == 4 && 46int % n == 1);
    assert((gl_weights(n)[1] * gl_weights(n)[4]) / (SCALE as int) == 113399999999);
    assert(s[46] == 54276491234i64);
    assert(47int / (n * n) == 1 && (47int / n) % n == 4 && 47int % n == 2);
    assert((gl_weights(n)[1] * gl_weights(n)[4]) / (SCALE as int) == 113399999999);
    assert(s[47] == 64511999999i64);
    assert(48int / (n * n) == 1 && (48int / n) % n == 4 && 48int % n == 3);
    assert((gl_weights(n)[1] * gl_weights(n)[4]) / (SCALE as int) == 113399999999);
    assert(s[48] == 54276491234i64);
    assert(49int / (n * n) == 1 && (49int / n) % n == 4 && 49int % n == 4);
    assert((gl_weights(n)[1] * gl_weights(n)[4]) / (SCALE as int) == 113399999999);
    assert(s[49] == 26867508765i64);
    assert(50int / (n * n) == 2 && (50int / n) % n == 0 && 50int % n == 0);
    assert((gl_weights(n)[2] * gl_weights(n)[0]) / (SCALE as int) == 134785072387);
    assert(s[50] == 31934207352i64);
    assert(51int / (n * n) == 2 && (51int / n) % n == 0 && 51int % n == 1);
    assert((gl_weights(n)[2] * gl_weights(n)[0]) / (SCALE as int) == 134785072387);
    assert(s[51] == 64511999999i64);
    assert(52int / (n * n) == 2 && (52int / n) % n == 0 && 52int % n == 2);
    assert((gl_weights(n)[2] * gl_weights(n)[0]) / (SCALE as int) == 134785072387);
    assert(s[52] == 76677730069i64);
    assert(53int / (n * n) == 2 && (53int / n) % n == 0 && 53int % n == 3);
    assert((gl_weights(n)[2] * gl_weights(n)[0]) / (SCALE as int) == 134785072387);
    assert(s[53] == 64511999999i64);
    assert(54int / (n * n) == 2 && (54int / n) % n == 0 && 54int % n == 4);
    assert((gl_weights(n)[2] * gl_weights(n)[0]) / (SCALE as int) == 134785072387);
    assert(s[54] == 31934207352i64);
    assert(55int / (n * n) == 2 && (55int / n) % n == 1 && 55int % n == 0);
    assert((gl_weights(n)[2] * gl_weights(n)[1]) / (SCALE as int) == 272286532551);
    assert(s[55] == 64512000000i64);
    assert(56int / (n * n) == 2 && (56int / n) % n == 1 && 56int % n == 1);
    assert((gl_weights(n)[2] * gl_weights(n)[1]) / (SCALE as int) == 272286532551);
    assert(s[56] == 130324141069i64);
    assert(57int / (n * n) == 2 && (57int / n) % n == 1 && 57int % n == 2);
    assert((gl_weights(n)[2] * gl_weights(n)[1]) / (SCALE as int) == 272286532551);
    assert(s[57] == 154900782962i64);
    assert(58int / (n * n) == 2 && (58int / n) % n == 1 && 58int % n == 3);
    assert((gl_weights(n)[2] * gl_weights(n)[1]) / (SCALE as int) == 272286532551);
    assert(s[58] == 130324141069i64);
    assert(59int / (n * n) == 2 && (59int / n) % n == 1 && 59int % n == 4);
    assert((gl_weights(n)[2] * gl_weights(n)[1]) / (SCALE as int) == 272286532551);
    assert(s[59] == 64512000000i64);
    assert(60int / (n * n) == 2 && (60int / n) % n == 2 && 60int % n == 0);
    assert((gl_weights(n)[2] * gl_weights(n)[2]) / (SCALE as int) == 323634567902);
    assert(s[60] == 76677730069i64);
    assert(61int / (n * n) == 2 && (61int / n) % n == 2 && 61int % n == 1);
    assert((gl_weights(n)[2] * gl_weights(n)[2]) / (SCALE as int) == 323634567902);
    assert(s[61] == 154900782962i64);
    assert(62int / (n * n) == 2 && (62int / n) % n == 2 && 62int % n == 2);
    assert((gl_weights(n)[2] * gl_weights(n)[2]) / (SCALE as int) == 323634567902);
    assert(s[62] == 184112109740i64);
    assert(63int / (n * n) == 2 && (63int / n) % n == 2 && 63int % n == 3);
    assert((gl_weights(n)[2] * gl_weights(n)[2]) / (SCALE as int) == 323634567902);
    assert(s[63] == 154900782962i64);
    assert(64int / (n * n) == 2 && (64int / n) % n == 2 && 64int % n == 4);
    assert((gl_weights(n)[2] * gl_weights(n)[2]) / (SCALE as int) == 323634567902);
    assert(s[64] == 76677730069i64);
    assert(65int / (n * n) == 2 && (65int / n) % n == 3 && 65int % n == 0);
    assert((gl_weights(n)[2] * gl_weights(n)[3]) / (SCALE as int) == 272286532551);
    assert(s[65] == 64512000000i64);
    assert(66int / (n * n) == 2 && (66int / n) % n == 3 && 66int % n == 1);
    assert((gl_weights(n)[2] * gl_weights(n)[3]) / (SCALE as int) == 272286532551);
    assert(s[66] == 130324141069i64);
    assert(67int / (n * n) == 2 && (67int / n) % n == 3 && 67int % n == 2);
    assert((gl_weights(n)[2] * gl_weights(n)[3]) / (SCALE as int) == 272286532551);
    assert(s[67] == 154900782962i64);
    assert(68int / (n * n) == 2 && (68int / n) % n == 3 && 68int % n == 3);
    assert((gl_weights(n)[2] * gl_weights(n)[3]) / (SCALE as int) == 272286532551);
    assert(s[68] == 130324141069i64);
    assert(69int / (n * n) == 2 && (69int / n) % n == 3 && 69int % n == 4);
    assert((gl_weights(n)[2] * gl_weights(n)[3]) / (SCALE as int) == 272286532551);
    assert(s[69] == 64512000000i64);
    assert(70int / (n * n) == 2 && (70int / n) % n == 4 && 70int % n == 0);
    assert((gl_weights(n)[2] * gl_weights(n)[4]) / (SCALE as int) == 134785072387);
    assert(s[70] == 31934207352i64);
    assert(71int / (n * n) == 2 && (71int / n) % n == 4 && 71int % n == 1);
    assert((gl_weights(n)[2] * gl_weights(n)[4]) / (SCALE as int) == 134785072387);
    assert(s[71] == 64511999999i64);
    assert(72int / (n * n) == 2 && (72int / n) % n == 4 && 72int % n == 2);
    assert((gl_weights(n)[2] * gl_weights(n)[4]) / (SCALE as int) == 134785072387);
    assert(s[72] == 76677730069i64);
    assert(73int / (n * n) == 2 && (73int / n) % n == 4 && 73int % n == 3);
    assert((gl_weights(n)[2] * gl_weights(n)[4]) / (SCALE as int) == 134785072387);
    assert(s[73] == 64511999999i64);
    assert(74int / (n * n) == 2 && (74int / n) % n == 4 && 74int % n == 4);
    assert((gl_weights(n)[2] * gl_weights(n)[4]) / (SCALE as int) == 134785072387);
    assert(s[74] == 31934207352i64);
    assert(75int / (n * n) == 3 && (75int / n) % n == 0 && 75int % n == 0);
    assert((gl_weights(n)[3] * gl_weights(n)[0]) / (SCALE as int) == 113399999999);
    assert(s[75] == 26867508765i64);
    assert(76int / (n * n) == 3 && (76int / n) % n == 0 && 76int % n == 1);
    assert((gl_weights(n)[3] * gl_weights(n)[0]) / (SCALE as int) == 113399999999);
    assert(s[76] == 54276491234i64);
    assert(77int / (n * n) == 3 && (77int / n) % n == 0 && 77int % n == 2);
    assert((gl_weights(n)[3] * gl_weights(n)[0]) / (SCALE as int) == 113399999999);
    assert(s[77] == 64511999999i64);
    assert(78int / (n * n) == 3 && (78int / n) % n == 0 && 78int % n == 3);
    assert((gl_weights(n)[3] * gl_weights(n)[0]) / (SCALE as int) == 113399999999);
    assert(s[78] == 54276491234i64);
    assert(79int / (n * n) == 3 && (79int / n) % n == 0 && 79int % n == 4);
    assert((gl_weights(n)[3] * gl_weights(n)[0]) / (SCALE as int) == 113399999999);
    assert(s[79] == 26867508765i64);
    assert(80int / (n * n) == 3 && (80int / n) % n == 1 && 80int % n == 0);
    assert((gl_weights(n)[3] * gl_weights(n)[1]) / (SCALE as int) == 229085404223);
    assert(s[80] == 54276491234i64);
    assert(81int / (n * n) == 3 && (81int / n) % n == 1 && 81int % n == 1);
    assert((gl_weights(n)[3] * gl_weights(n)[1]) / (SCALE as int) == 229085404223);
    assert(s[81] == 109646842453i64);
    assert(82int / (n * n) == 3 && (82int / n) % n == 1 && 82int % n == 2);
    assert((gl_weights(n)[3] * gl_weights(n)[1]) / (SCALE as int) == 229085404223);
    assert(s[82] == 130324141069i64);
    assert(83int / (n * n) == 3 && (83int / n) % n == 1 && 83int % n == 3);
    assert((gl_weights(n)[3] * gl_weights(n)[1]) / (SCALE as int) == 229085404223);
    assert(s[83] == 109646842453i64);
    assert(84int / (n * n) == 3 && (84int / n) % n == 1 && 84int % n == 4);
    assert((gl_weights(n)[3] * gl_weights(n)[1]) / (SCALE as int) == 229085404223);
    assert(s[84] == 54276491234i64);
    assert(85int / (n * n) == 3 && (85int / n) % n == 2 && 85int % n == 0);
    assert((gl_weights(n)[3] * gl_weights(n)[2]) / (SCALE as int) == 272286532551);
    assert(s[85] == 64512000000i64);
    assert(86int / (n * n) == 3 && (86int / n) % n == 2 && 86int % n == 1);
    assert((gl_weights(n)[3] * gl_weights(n)[2]) / (SCALE as int) == 272286532551);
    assert(s[86] == 130324141069i64);
    assert(87int / (n * n) == 3 && (87int / n) % n == 2 && 87int % n == 2);
    assert((gl_weights(n)[3] * gl_weights(n)[2]) / (SCALE as int) == 272286532551);
    assert(s[87] == 154900782962i64);
    assert(88int / (n * n) == 3 && (88int / n) % n == 2 && 88int % n == 3);
    assert((gl_weights(n)[3] * gl_weights(n)[2]) / (SCALE as int) == 272286532551);
    assert(s[88] == 130324141069i64);
    assert(89int / (n * n) == 3 && (89int / n) % n == 2 && 89int % n == 4);
    assert((gl_weights(n)[3] * gl_weights(n)[2]) / (SCALE as int) == 272286532551);
    assert(s[89] == 64512000000i64);
    assert(90int / (n * n) == 3 && (90int / n) % n == 3 && 90int % n == 0);
    assert((gl_weights(n)[3] * gl_weights(n)[3]) / (SCALE as int) == 229085404223);
    assert(s[90] == 54276491234i64);
    assert(91int / (n * n) == 3 && (91int / n) % n == 3 && 91int % n == 1);
    assert((gl_weights(n)[3] * gl_weights(n)[3]) / (SCALE as int) == 229085404223);
    assert(s[91] == 109646842453i64);
    assert(92int / (n * n) == 3 && (92int / n) % n == 3 && 92int % n == 2);
    assert((gl_weights(n)[3] * gl_weights(n)[3]) / (SCALE as int) == 229085404223);
    assert(s[92] == 130324141069i64);
    assert(93int / (n * n) == 3 && (93int / n) % n == 3 && 93int % n == 3);
    assert((gl_weights(n)[3] * gl_weights(n)[3]) / (SCALE as int) == 229085404223);
    assert(s[93] == 109646842453i64);
    assert(94int / (n * n) == 3 && (94int / n) % n == 3 && 94int % n == 4);
    assert((gl_weights(n)[3] * gl_weights(n)[3]) / (SCALE as int) == 229085404223);
    assert(s[94] == 54276491234i64);
    assert(95int / (n * n) == 3 && (95int / n) % n == 4 && 95int % n == 0);
    assert((gl_weights(n)[3] * gl_weights(n)[4]) / (SCALE as int) == 113399999999);
    assert(s[95] == 26867508765i64);
    assert(96int / (n * n) == 3 && (96int / n) % n == 4 && 96int % n == 1);
    assert((gl_weights(n)[3] * gl_weights(n)[4]) / (SCALE as int) == 113399999999);
    assert(s[96] == 54276491234i64);
    assert(97int / (n * n) == 3 && (97int / n) % n == 4 && 97int % n == 2);
    assert((gl_weights(n)[3] * gl_weights(n)[4]) / (SCALE as int) == 113399999999);
    assert(s[97] == 64511999999i64);
    assert(98int / (n * n) == 3 && (98int / n) % n == 4 && 98int % n == 3);
    assert((gl_weights(n)[3] * gl_weights(n)[4]) / (SCALE as int) == 113399999999);
    assert(s[98] == 54276491234i64);
    assert(99int / (n * n) == 3 && (99int / n) % n == 4 && 99int % n == 4);
    assert((gl_weights(n)[3] * gl_weights(n)[4]) / (SCALE as int) == 113399999999);
    assert(s[99] == 26867508765i64);
    assert(100int / (n * n) == 4 && (100int / n) % n == 0 && 100int % n == 0);
    assert((gl_weights(n)[4] * gl_weights(n)[0]) / (SCALE as int) == 56134348862);
    assert(s[100] == 13299736420i64);
    assert(101int / (n * n) == 4 && (101int / n) % n == 0 && 101int % n == 1);
    assert((gl_weights(n)[4] * gl_weights(n)[0]) / (SCALE as int) == 56134348862);
    assert(s[101] == 26867508765i64);
    assert(102int / (n * n) == 4 && (102int / n) % n == 0 && 102int % n == 2);
    assert((gl_weights(n)[4] * gl_weights(n)[0]) / (SCALE as int) == 56134348862);
    assert(s[102] == 31934207352i64);
    assert(103int / (n * n) == 4 && (103int / n) % n == 0 && 103int % n == 3);
    assert((gl_weights(n)[4] * gl_weights(n)[0]) / (SCALE as int) == 56134348862);
    assert(s[103] == 26867508765i64);
    assert(104int / (n * n) == 4 && (104int / n) % n == 0 && 104int % n == 4);
    assert((gl_weights(n)[4] * gl_weights(n)[0]) / (SCALE as int) == 56134348862);
    assert(s[104] == 13299736420i64);
    assert(105int / (n * n) == 4 && (105int / n) % n == 1 && 105int % n == 0);
    assert((gl_weights(n)[4] * gl_weights(n)[1]) / (SCALE as int) == 113399999999);
    assert(s[105] == 26867508765i64);
    assert(106int / (n * n) == 4 && (106int / n) % n == 1 && 106int % n == 1);
    assert((gl_weights(n)[4] * gl_weights(n)[1]) / (SCALE as int) == 113399999999);
    assert(s[106] == 54276491234i64);
    assert(107int / (n * n) == 4 && (107int / n) % n == 1 && 107int % n == 2);
    assert((gl_weights(n)[4] * gl_weights(n)[1]) / (SCALE as int) == 113399999999);
    assert(s[107] == 64511999999i64);
    assert(108int / (n * n) == 4 && (108int / n) % n == 1 && 108int % n == 3);
    assert((gl_weights(n)[4] * gl_weights(n)[1]) / (SCALE as int) == 113399999999);
    assert(s[108] == 54276491234i64);
    assert(109int / (n * n) == 4 && (109int / n) % n == 1 && 109int % n == 4);
    assert((gl_weights(n)[4] * gl_weights(n)[1]) / (SCALE as int) == 113399999999);
    assert(s[109] == 26867508765i64);
    assert(110int / (n * n) == 4 && (110int / n) % n == 2 && 110int % n == 0);
    assert((gl_weights(n)[4] * gl_weights(n)[2]) / (SCALE as int) == 134785072387);
    assert(s[110] == 31934207352i64);
    assert(111int / (n * n) == 4 && (111int / n) % n == 2 && 111int % n == 1);
    assert((gl_weights(n)[4] * gl_weights(n)[2]) / (SCALE as int) == 134785072387);
    assert(s[111] == 64511999999i64);
    assert(112int / (n * n) == 4 && (112int / n) % n == 2 && 112int % n == 2);
    assert((gl_weights(n)[4] * gl_weights(n)[2]) / (SCALE as int) == 134785072387);
    assert(s[112] == 76677730069i64);
    assert(113int / (n * n) == 4 && (113int / n) % n == 2 && 113int % n == 3);
    assert((gl_weights(n)[4] * gl_weights(n)[2]) / (SCALE as int) == 134785072387);
    assert(s[113] == 64511999999i64);
    assert(114int / (n * n) == 4 && (114int / n) % n == 2 && 114int % n == 4);
    assert((gl_weights(n)[4] * gl_weights(n)[2]) / (SCALE as int) == 134785072387);
    assert(s[114] == 31934207352i64);
    assert(115int / (n * n) == 4 && (115int / n) % n == 3 && 115int % n == 0);
    assert((gl_weights(n)[4] * gl_weights(n)[3]) / (SCALE as int) == 113399999999);
    assert(s[115] == 26867508765i64);
    assert(116int / (n * n) == 4 && (116int / n) % n == 3 && 116int % n == 1);
    assert((gl_weights(n)[4] * gl_weights(n)[3]) / (SCALE as int) == 113399999999);
    assert(s[116] == 54276491234i64);
    assert(117int / (n * n) == 4 && (117int / n) % n == 3 && 117int % n == 2);
    assert((gl_weights(n)[4] * gl_weights(n)[3]) / (SCALE as int) == 113399999999);
    assert(s[117] == 64511999999i64);
    assert(118int / (n * n) == 4 && (118int / n) % n == 3 && 118int % n == 3);
    assert((gl_weights(n)[4] * gl_weights(n)[3]) / (SCALE as int) == 113399999999);
    assert(s[118] == 54276491234i64);
    assert(119int / (n * n) == 4 && (119int / n) % n == 3 && 119int % n == 4);
    assert((gl_weights(n)[4] * gl_weights(n)[3]) / (SCALE as int) == 113399999999);
    assert(s[119] == 26867508765i64);
    assert(120int / (n * n) == 4 && (120int / n) % n == 4 && 120int % n == 0);
    assert((gl_weights(n)[4] * gl_weights(n)[4]) / (SCALE as int) == 56134348862);
    assert(s[120] == 13299736420i64);
    assert(121int / (n * n) == 4 && (121int / n) % n == 4 && 121int % n == 1);
    assert((gl_weights(n)[4] * gl_weights(n)[4]) / (SCALE as int) == 56134348862);
    assert(s[121] == 26867508765i64);
    assert(122int / (n * n) == 4 && (122int / n) % n == 4 && 122int % n == 2);
    assert((gl_weights(n)[4] * gl_weights(n)[4]) / (SCALE as int) == 56134348862);
    assert(s[122] == 31934207352i64);
    assert(123int / (n * n) == 4 && (123int / n) % n == 4 && 123int % n == 3);
    assert((gl_weights(n)[4] * gl_weights(n)[4]) / (SCALE as int) == 56134348862);
    assert(s[123] == 26867508765i64);
    assert(124int / (n * n) == 4 && (124int / n) % n == 4 && 124int % n == 4);
    assert((gl_weights(n)[4] * gl_weights(n)[4]) / (SCALE as int) == 56134348862);
    assert(s[124] == 13299736420i64);
    assert(sum_prefix(s, 25) == 947707540209);
    assert(sum_prefix(s, 50) == 2862222222189);
    assert(sum_prefix(s, 75) == 5137777777733);
    assert(sum_prefix(s, 100) == 7052292459713);
    assert(sum_prefix(s, 125) == 7999999999922);
}

/// The hexahedron grid's weights sum to the hexahedron's reference
/// measure to within eighty units in the last fixed-point place.
pub proof fn lemma_tensor3_weight_sum(order: int)
    requires
        0 <= order <= 9,
    ensures
        8 * SCALE - 80 <= weight_sum(tensor3_weights(order)) <= 8 * SCALE,
{
    if order <= 1 {
        lemma_tensor3_sum_1(order);
    } else if order <= 3 {
        lemma_tensor3_sum_2(order);
    } else if order <= 5 {
        lemma_tensor3_sum_3(order);
    } else if order <= 7 {
        lemma_tensor3_sum_4(order);
    } else {
        lemma_tensor3_sum_5(order);
    }
}

/// Build the hexahedron tensor rule for a requested exactness order:
/// flattened points and weights equal to the tensor-grid spec sequences.
#[verifier::rlimit(100)]
pub(crate) fn hex_rule(order: usize) -> (r: (Vec<i64>, Vec<i64>))
    requires
        order <= 9,
    ensures
        r.0@ == hex_points(order as int),
        r.1@ == tensor3_weights(order as int),
{
    let n = order / 2 + 1;
    let (x, w) = gl_rule(n);
    proof {
        lemma_gl_table_shape(n as int);
        assert(1 * 1 <= n * n <= 5 * 5 && 1 * 1 * 1 <= n * n * n <= 5 * 5 * 5)
            by (nonlinear_arith)
            requires
                1 <= n <= 5,
        ;
    }
    let nn = n * n;
    let nnn = nn * n;
    proof {
        assert(nn * n == n * n * n) by (nonlinear_arith)
            requires
                nn == n * n,
        ;
    }
    let mut pts: Vec<i64> = Vec::new();
    let mut wts: Vec<i64> = Vec::new();
    let mut k: usize = 0;
    while k < nnn
        invariant
            1 <= n <= 5,
            nn == n * n,
            nnn == n * n * n,
            nn <= 25,
            nnn <= 125,
            n == spec_gl_point_count(order as int),
            x@ == gl_nodes(n as int),
            w@ == gl_weights(n as int),
            x@.len() == n,
            w@.len() == n,
            forall|t: int| 0 <= t < n ==> 0 < #[trigger] w@[t] <= 2 * SCALE,
            k <= nnn,
            pts@.len() == 3 * k,
            wts@.len() == k,
            forall|c: int| 0 <= c < 3 * k ==> pts@[c] == hex_points(order as int)[c],
            forall|j: int| 0 <= j < k ==> wts@[j] == tensor3_weights(order as int)[j],
        decreases nnn - k,
    {
        proof {
            assert((k as int) / (n * n) < n && (k / n) % n < n && k % n < n) by (nonlinear_arith)
                requires
                    0 < n,
                    k < n * n * n,
            ;
        }
        let a = k / nn;
        let b = (k / n) % n;
        let c = k % n;
        pts.push(x[a]);
        pts.push(x[b]);
        pts.push(x[c]);
        let t1 = fixed_mul(w[a], w[b]);
        wts.push(fixed_mul(t1, w[c]));
        proof {
            let ko = k as int;
            assert((3 * ko) % 3 == 0 && (3 * ko + 1) % 3 == 1 && (3 * ko + 2) % 3 == 2);
            assert((3 * ko) / 3 == ko && (3 * ko + 1) / 3 == ko && (3 * ko + 2) / 3 == ko);
            assert(pts@[3 * ko] == hex_points(order as int)[3 * ko]);
            assert(pts@[3 * ko + 1] == hex_points(order as int)[3 * ko + 1]);
            assert(pts@[3 * ko + 2] == hex_points(order as int)[3 * ko + 2]);
            assert(wts@[ko] == tensor3_weights(order as int)[ko]);
        }
        k = k + 1;
    }
    proof {
        assert(pts@ =~= hex_points(order as int));
        assert(wts@ =~= tensor3_weights(order as int));
    }
    (pts, wts)
}

/// Truncated fixed-point product of two weights.
fn fixed_mul(wi: i64, wj: i64) -> (t: i64)
    requires
        0 <= wi <= 4 * SCALE,
        0 <= wj <= 2 * SCALE,
    ensures
        t == (wi * wj) / (SCALE as int),
        0 <= t <= 8 * SCALE,
        wi <= 2 * SCALE ==> t <= 4 * SCALE,
{
    proof {
        assert(0 <= wi * wj <= 8 * SCALE * SCALE && 0 <= (wi * wj) / (SCALE as int) <= 8 * SCALE
            && (wi <= 2 * SCALE ==> (wi * wj) / (SCALE as int) <= 4 * SCALE)) by (nonlinear_arith)
            requires
                0 <= wi <= 4 * SCALE,
                0 <= wj <= 2 * SCALE,
                SCALE == 1_000_000_000_000i64,
        ;
    }
    ((wi as i128) * (wj as i128) / (SCALE as i128)) as i64
}

/// Build the quadrilateral tensor rule for a requested exactness order:
/// flattened points and weights equal to the tensor-grid spec sequences.
#[verifier::rlimit(50)]
pub(crate) fn quad_rule(order: usize) -> (r: (Vec<i64>, Vec<i64>))
    requires
        order <= 9,
    ensures
        r.0@ == quad_points(order as int),
        r.1@ == tensor_weights(order as int),
{
    let n = order / 2 + 1;
    let (x, w) = gl_rule(n);
    proof {
        lemma_gl_table_shape(n as int);
        assert(1 * 1 <= n * n <= 5 * 5) by (nonlinear_arith)
            requires
                1 <= n <= 5,
        ;
    }
    let nn = n * n;
    let mut pts: Vec<i64> = Vec::new();
    let mut wts: Vec<i64> = Vec::new();
    let mut k: usize = 0;
    while k < nn
        invariant
            1 <= n <= 5,
            nn == n * n,
            nn <= 25,
            n == spec_gl_point_count(order as int),
            x@ == gl_nodes(n as int),
            w@ == gl_weights(n as int),
            x@.len() == n,
            w@.len() == n,
            forall|t: int| 0 <= t < n ==> 0 < #[trigger] w@[t] <= 2 * SCALE,
            k <= nn,
            pts@.len() == 2 * k,
            wts@.len() == k,
            forall|c: int| 0 <= c < 2 * k ==> pts@[c] == quad_points(order as int)[c],
            forall|j: int| 0 <= j < k ==> wts@[j] == tensor_weights(order as int)[j],
        decreases nn - k,
    {
        proof {
            assert(k / n < n && k % n < n) by (nonlinear_arith)
                requires
                    0 < n,
                    k < n * n,
            ;
        }
        let i = k / n;
        let j = k % n;
        pts.push(x[i]);
        pts.push(x[j]);
        wts.push(fixed_mul(w[i], w[j]));
        proof {
            let ko = k as int;
            let no = n as int;
            assert(2 * no * no == 2 * (no * no)) by (nonlinear_arith);
            assert((2 * ko) % 2 == 0 && (2 * ko + 1) % 2 == 1);
            assert((2 * ko) / 2 == ko && (2 * ko + 1) / 2 == ko);
            assert(pts@[2 * ko] == quad_points(order as int)[2 * ko]);
            assert(pts@[2 * ko + 1] == quad_points(order as int)[2 * ko + 1]);
            assert(wts@[ko] == tensor_weights(order as int)[ko]);
        }
        k = k + 1;
    }
    proof {
        assert(pts@ =~= quad_points(order as int));
        assert(wts@ =~= tensor_weights(order as int));
    }
    (pts, wts)
}

/// Build the paired double-integral rule for a requested exactness order:
/// the two coordinate sequences and the weights of the full tensor grid.
#[verifier::rlimit(50)]
pub(crate) fn pair_rule(order: usize) -> (r: (Vec<i64>, Vec<i64>, Vec<i64>))
    requires
        order <= 9,
    ensures
        r.0@ == pair_points_a(order as int),
        r.1@ == pair_points_b(order as int),
        r.2@ == tensor_weights(order as int),
{
    let n = order / 2 + 1;
    let (x, w) = gl_rule(n);
    proof {
        lemma_gl_table_shape(n as int);
        assert(1 * 1 <= n * n <= 5 * 5) by (nonlinear_arith)
            requires
                1 <= n <= 5,
        ;
    }
    let nn = n * n;
    let mut pa: Vec<i64> = Vec::new();
    let mut pb: Vec<i64> = Vec::new();
    let mut wts: Vec<i64> = Vec::new();
    let mut k: usize = 0;
    while k < nn
        invariant
            1 <= n <= 5,
            nn == n * n,
            nn <= 25,
            n == spec_gl_point_count(order as int),
            x@ == gl_nodes(n as int),
            w@ == gl_weights(n as int),
            x@.len() == n,
            w@.len() == n,
            forall|t: int| 0 <= t < n ==> 0 < #[trigger] w@[t] <= 2 * SCALE,
            k <= nn,
            pa@.len() == k,
            pb@.len() == k,
            wts@.len() == k,
            forall|j: int| 0 <= j < k ==> pa@[j] == pair_points_a(order as int)[j],
            forall|j: int| 0 <= j < k ==> pb@[j] == pair_points_b(order as int)[j],
            forall|j: int| 0 <= j < k ==> wts@[j] == tensor_weights(order as int)[j],
        decreases nn - k,
    {
        proof {
            assert(k / n < n && k % n < n) by (nonlinear_arith)
                requires
                    0 < n,
                    k < n * n,
            ;
        }
        let i = k / n;
        let j = k % n;
        pa.push(x[i]);
        pb.push(x[j]);
        wts.push(fixed_mul(w[i], w[j]));
        proof {
            let ko = k as int;
            assert(pa@[ko] == pair_points_a(order as int)[ko]);
            assert(pb@[ko] == pair_points_b(order as int)[ko]);
            assert(wts@[ko] == tensor_weights(order as int)[ko]);
        }
        k = k + 1;
    }
    proof {
        assert(pa@ =~= pair_points_a(order as int));
        assert(pb@ =~= pair_points_b(order as int));
        assert(wts@ =~= tensor_weights(order as int));
    }
    (pa, pb, wts)
}

} // verus!
