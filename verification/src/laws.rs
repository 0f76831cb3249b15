//! The library-wide guarantees, stated and proved once over the spec
//! sequences that the dispatcher contracts return.

use vstd::prelude::*;

use crate::Domain;
use crate::QuadratureRule;
use crate::fixed::SCALE;
use crate::fixed::weight_sum;
use crate::fixed::weighted_node_sum;
use crate::gauss_legendre::lemma_gl_first_moment;
use crate::gauss_legendre::lemma_gl_table_shape;
use crate::gauss_legendre::lemma_gl_weight_sum;
use crate::gauss_legendre::spec_gl_point_count;
use crate::simplex::lemma_tet_table_shape;
use crate::simplex::lemma_tet_weight_sum;
use crate::simplex::lemma_tri_table_shape;
use crate::simplex::lemma_tri_weight_sum;
use crate::spec_domain_dimension;
use crate::spec_double_points_a;
use crate::spec_double_points_b;
use crate::spec_double_supported;
use crate::spec_double_weights;
use crate::spec_reference_measure;
use crate::spec_single_points;
use crate::spec_single_supported;
use crate::spec_single_weights;
use crate::single_result_matches;
use crate::double_result_matches;
use crate::tensor::lemma_tensor3_weight_sum;
use crate::tensor::lemma_tensor_weight_sum;
use crate::tensor::spec_tensor_point_count;

verus! {

/// How far, in units of `1/SCALE`, a rule's weight sum may sit from the
/// domain's reference measure.
pub const WEIGHT_SUM_TOLERANCE: i64 = 100;

/// Whether point `j` of a flattened fixed-point coordinate sequence lies
/// inside the reference shape of `d`.
pub open spec fn spec_point_in_domain(d: Domain, pts: Seq<i64>, j: int) -> bool {
    match d {
        Domain::Interval => -SCALE <= pts[j] <= SCALE,
        Domain::Triangle => 0 <= pts[2 * j] && 0 <= pts[2 * j + 1] && pts[2 * j] + pts[2 * j + 1]
            <= SCALE,
        Domain::Quadrilateral => -SCALE <= pts[2 * j] <= SCALE && -SCALE <= pts[2 * j + 1] <= SCALE,
        Domain::Tetrahedron => 0 <= pts[3 * j] && 0 <= pts[3 * j + 1] && 0 <= pts[3 * j + 2] && pts[
            3 * j
        ] + pts[3 * j + 1] + pts[3 * j + 2] <= SCALE,
        Domain::Hexahedron => -SCALE <= pts[3 * j] <= SCALE && -SCALE <= pts[3 * j + 1] <= SCALE
            && -SCALE <= pts[3 * j + 2] <= SCALE,
    }
}

/// Every supported single-integral rule returns one weight per point: the
/// flattened coordinate sequence is exactly `dimension` entries per weight.
pub proof fn law_single_lengths(r: QuadratureRule, d: Domain, order: int)
    requires
        spec_single_supported(r, d, order),
    ensures
        spec_single_points(r, d, order).len() == spec_domain_dimension(d) * spec_single_weights(
            r,
            d,
            order,
        ).len(),
{
    match r {
        QuadratureRule::GaussLegendre => lemma_gl_table_shape(spec_gl_point_count(order)),
        QuadratureRule::SymmetricSimplex => {
            if d == Domain::Triangle {
                lemma_tri_table_shape(order);
            } else {
                lemma_tet_table_shape(order);
            }
        },
        QuadratureRule::GaussLegendreTensor => {
            let n = spec_gl_point_count(order);
            assert(2 * n * n == 2 * (n * n) && 0 <= n * n && 0 <= n * n * n) by (nonlinear_arith)
                requires
                    1 <= n <= 5,
            ;
        },
        QuadratureRule::GaussLegendrePairs => (),
    }
}

/// Every supported double-integral rule returns a full tensor grid: the
/// two coordinate sequences and the weight sequence have equal length.
pub proof fn law_double_lengths(r: QuadratureRule, d: Domain, order: int)
    requires
        spec_double_supported(r, d, order),
    ensures
        spec_double_points_a(r, d, order).len() == spec_double_weights(r, d, order).len(),
        spec_double_points_b(r, d, order).len() == spec_double_weights(r, d, order).len(),
        spec_double_weights(r, d, order).len() == spec_tensor_point_count(order),
{
}

/// Every supported single-integral rule's weights sum to the domain's
/// reference measure to within `WEIGHT_SUM_TOLERANCE` units of `1/SCALE`.
pub proof fn law_single_weight_sum(r: QuadratureRule, d: Domain, order: int)
    requires
        spec_single_supported(r, d, order),
    ensures
        spec_reference_measure(d) - WEIGHT_SUM_TOLERANCE <= weight_sum(
            spec_single_weights(r, d, order),
        ) <= spec_reference_measure(d) + WEIGHT_SUM_TOLERANCE,
{
    match r {
        QuadratureRule::GaussLegendre => lemma_gl_weight_sum(spec_gl_point_count(order)),
        QuadratureRule::SymmetricSimplex => {
            if d == Domain::Triangle {
                lemma_tri_weight_sum(order);
            } else {
                lemma_tet_weight_sum(order);
            }
        },
        QuadratureRule::GaussLegendreTensor => {
            if d == Domain::Quadrilateral {
                lemma_tensor_weight_sum(order);
            } else {
                lemma_tensor3_weight_sum(order);
            }
        },
        QuadratureRule::GaussLegendrePairs => (),
    }
}

/// Every supported double-integral rule's weights sum to the square of the
/// interval's reference measure (the measure of the product domain) to
/// within `WEIGHT_SUM_TOLERANCE` units of `1/SCALE`.
pub proof fn law_double_weight_sum(r: QuadratureRule, d: Domain, order: int)
    requires
        spec_double_supported(r, d, order),
    ensures
        4 * SCALE - WEIGHT_SUM_TOLERANCE <= weight_sum(spec_double_weights(r, d, order)) <= 4
            * SCALE + WEIGHT_SUM_TOLERANCE,
{
    lemma_tensor_weight_sum(order);
}

/// Every point of a supported single-integral rule lies inside the
/// domain's reference shape.
pub proof fn law_single_points_in_domain(r: QuadratureRule, d: Domain, order: int)
    requires
        spec_single_supported(r, d, order),
    ensures
        forall|j: int|
            0 <= j < spec_single_weights(r, d, order).len() ==> #[trigger] spec_point_in_domain(
                d,
                spec_single_points(r, d, order),
                j,
            ),
{
    match r {
        QuadratureRule::GaussLegendre => {
            lemma_gl_table_shape(spec_gl_point_count(order));
        },
        QuadratureRule::SymmetricSimplex => {
            if d == Domain::Triangle {
                lemma_tri_table_shape(order);
            } else {
                lemma_tet_table_shape(order);
            }
        },
        QuadratureRule::GaussLegendreTensor => {
            let n = spec_gl_point_count(order);
            lemma_gl_table_shape(n);
            if d == Domain::Quadrilateral {
                assert forall|j: int|
                    0 <= j < spec_single_weights(r, d, order).len() implies #[trigger] spec_point_in_domain(
                    d,
                    spec_single_points(r, d, order),
                    j,
                ) by {
                    assert(j / n < n && j % n < n) by (nonlinear_arith)
                        requires
                            0 < n,
                            j < n * n,
                            0 <= j,
                    ;
                    assert(2 * n * n == 2 * (n * n)) by (nonlinear_arith);
                    assert((2 * j) % 2 == 0 && (2 * j) / 2 == j);
                    assert((2 * j + 1) % 2 == 1 && (2 * j + 1) / 2 == j);
                    assert(spec_single_points(r, d, order)[2 * j]
                        == crate::gauss_legendre::gl_nodes(n)[j / n]);
                    assert(spec_single_points(r, d, order)[2 * j + 1]
                        == crate::gauss_legendre::gl_nodes(n)[j % n]);
                }
            } else {
                assert forall|j: int|
                    0 <= j < spec_single_weights(r, d, order).len() implies #[trigger] spec_point_in_domain(
                    d,
                    spec_single_points(r, d, order),
                    j,
                ) by {
                    assert(j / (n * n) < n && (j / n) % n < n && j % n < n) by (nonlinear_arith)
                        requires
                            0 < n,
                            j < n * n * n,
                            0 <= j,
                    ;
                    assert((3 * j) % 3 == 0 && (3 * j + 1) % 3 == 1 && (3 * j + 2) % 3 == 2);
                    assert((3 * j) / 3 == j && (3 * j + 1) / 3 == j && (3 * j + 2) / 3 == j);
                    assert(spec_single_points(r, d, order)[3 * j]
                        == crate::gauss_legendre::gl_nodes(n)[j / (n * n)]);
                    assert(spec_single_points(r, d, order)[3 * j + 1]
                        == crate::gauss_legendre::gl_nodes(n)[(j / n) % n]);
                    assert(spec_single_points(r, d, order)[3 * j + 2]
                        == crate::gauss_legendre::gl_nodes(n)[j % n]);
                }
            }
        },
        QuadratureRule::GaussLegendrePairs => (),
    }
}

/// Every grid point of a supported double-integral rule lies inside the
/// interval in both integration variables.
pub proof fn law_double_points_in_domain(r: QuadratureRule, d: Domain, order: int)
    requires
        spec_double_supported(r, d, order),
    ensures
        forall|j: int|
            0 <= j < spec_double_weights(r, d, order).len() ==> #[trigger] spec_point_in_domain(
                d,
                spec_double_points_a(r, d, order),
                j,
            ) && spec_point_in_domain(d, spec_double_points_b(r, d, order), j),
{
    let n = spec_gl_point_count(order);
    lemma_gl_table_shape(n);
    assert forall|j: int|
        0 <= j < spec_double_weights(r, d, order).len() implies #[trigger] spec_point_in_domain(
        d,
        spec_double_points_a(r, d, order),
        j,
    ) && spec_point_in_domain(d, spec_double_points_b(r, d, order), j) by {
        assert(j / n < n && j % n < n) by (nonlinear_arith)
            requires
                0 < n,
                j < n * n,
                0 <= j,
        ;
    }
}

/// A supported Gauss-Legendre interval rule integrates the degree-one
/// polynomial exactly: the fixed-point sum of `weight * node` is exactly
/// zero, which is the integral of `x` over `[-1, 1]`.
pub proof fn law_gl_degree_one_exact(r: QuadratureRule, d: Domain, order: int)
    requires
        spec_single_supported(r, d, order),
        r == QuadratureRule::GaussLegendre,
    ensures
        weighted_node_sum(spec_single_weights(r, d, order), spec_single_points(r, d, order)) == 0,
{
    lemma_gl_first_moment(spec_gl_point_count(order));
}

/// Two results that both meet `single_integral_quadrature`'s contract for
/// the same request are identical: same success or failure, same error,
/// same points and weights.
pub proof fn law_single_deterministic(
    r: QuadratureRule,
    d: Domain,
    order: int,
    res1: Result<(Vec<i64>, Vec<i64>), crate::QuadratureError>,
    res2: Result<(Vec<i64>, Vec<i64>), crate::QuadratureError>,
)
    requires
        single_result_matches(res1, r, d, order),
        single_result_matches(res2, r, d, order),
    ensures
        res1 is Ok <==> res2 is Ok,
        res1 matches Ok(a) ==> (res2 matches Ok(b) && a.0@ == b.0@ && a.1@ == b.1@),
        res1 matches Err(e1) ==> (res2 matches Err(e2) && e1 == e2),
{
}

/// Two results that both meet `double_integral_quadrature`'s contract for
/// the same request are identical.
pub proof fn law_double_deterministic(
    r: QuadratureRule,
    d: Domain,
    order: int,
    res1: Result<(Vec<i64>, Vec<i64>, Vec<i64>), crate::QuadratureError>,
    res2: Result<(Vec<i64>, Vec<i64>, Vec<i64>), crate::QuadratureError>,
)
    requires
        double_result_matches(res1, r, d, order),
        double_result_matches(res2, r, d, order),
    ensures
        res1 is Ok <==> res2 is Ok,
        res1 matches Ok(a) ==> (res2 matches Ok(b) && a.0@ == b.0@ && a.1@ == b.1@ && a.2@ == b.2@),
        res1 matches Err(e1) ==> (res2 matches Err(e2) && e1 == e2),
{
}

} // verus!
