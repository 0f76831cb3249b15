//! Quadrature rules for reference integration domains.
//!
//! Given a rule family, a domain and a requested polynomial exactness order,
//! the library produces the evaluation points and weights that approximate an
//! integral over the domain's reference shape.  Coordinates and weights are
//! fixed-point values: an `i64` holds the real value multiplied by `SCALE`
//! (one trillion), so `2.0` is stored as `2 * SCALE`.

use vstd::prelude::*;

pub mod fixed;
pub mod gauss_legendre;
pub mod laws;
pub mod simplex;
pub mod tensor;

verus! {

pub use crate::fixed::SCALE;

/// A reference integration domain.
#[derive(Clone, Copy, Debug, PartialEq, Eq, Hash, PartialOrd, Ord, Structural)]
pub enum Domain {
    /// The interval `[-1, 1]`.
    Interval,
    /// The unit triangle with vertices `(0,0)`, `(1,0)`, `(0,1)`.
    Triangle,
    /// The square `[-1, 1] x [-1, 1]`.
    Quadrilateral,
    /// The unit tetrahedron with vertices `(0,0,0)`, `(1,0,0)`, `(0,1,0)`, `(0,0,1)`.
    Tetrahedron,
    /// The cube `[-1, 1] x [-1, 1] x [-1, 1]`.
    Hexahedron,
}

/// The integer identity of a domain.
pub open spec fn spec_domain_identity(d: Domain) -> u8 {
    match d {
        Domain::Interval => 0,
        Domain::Triangle => 1,
        Domain::Quadrilateral => 2,
        Domain::Tetrahedron => 3,
        Domain::Hexahedron => 4,
    }
}

/// The dimensionality of a domain's reference shape.
pub open spec fn spec_domain_dimension(d: Domain) -> int {
    match d {
        Domain::Interval => 1,
        Domain::Triangle => 2,
        Domain::Quadrilateral => 2,
        Domain::Tetrahedron => 3,
        Domain::Hexahedron => 3,
    }
}

/// The reference measure (length, area or volume) of a domain's reference
/// shape, in fixed point.  The tetrahedron's measure `1/6` is not an exact
/// multiple of `1/SCALE` and is rounded toward zero.
pub open spec fn spec_reference_measure(d: Domain) -> int {
    match d {
        Domain::Interval => 2 * SCALE,
        Domain::Triangle => SCALE / 2,
        Domain::Quadrilateral => 4 * SCALE,
        Domain::Tetrahedron => SCALE / 6,
        Domain::Hexahedron => 8 * SCALE,
    }
}

impl Domain {
    /// The stable integer identity of this domain, independent of
    /// declaration order; intended for serialization by outer layers.
    pub fn identity(self) -> (id: u8)
        ensures
            id == spec_domain_identity(self),
    {
        match self {
            Domain::Interval => 0,
            Domain::Triangle => 1,
            Domain::Quadrilateral => 2,
            Domain::Tetrahedron => 3,
            Domain::Hexahedron => 4,
        }
    }

    /// The dimensionality of the reference shape.
    pub fn dimension(self) -> (dim: usize)
        ensures
            dim == spec_domain_dimension(self),
    {
        match self {
            Domain::Interval => 1,
            Domain::Triangle => 2,
            Domain::Quadrilateral => 2,
            Domain::Tetrahedron => 3,
            Domain::Hexahedron => 3,
        }
    }

    /// The reference measure of the shape, in fixed point.
    pub fn reference_measure(self) -> (m: i64)
        ensures
            m == spec_reference_measure(self),
    {
        match self {
            Domain::Interval => 2 * SCALE,
            Domain::Triangle => SCALE / 2,
            Domain::Quadrilateral => 4 * SCALE,
            Domain::Tetrahedron => 166_666_666_666,
            Domain::Hexahedron => 8 * SCALE,
        }
    }
}

/// A quadrature rule family.
#[derive(Clone, Copy, Debug, PartialEq, Eq, Hash, PartialOrd, Ord, Structural)]
pub enum QuadratureRule {
    /// Gauss-Legendre rules on the interval, for single integrals.
    GaussLegendre,
    /// Symmetric-orbit rules on the triangle and the tetrahedron, for
    /// single integrals.
    SymmetricSimplex,
    /// Tensor products of Gauss-Legendre interval rules on the
    /// quadrilateral and the hexahedron, for single integrals.
    GaussLegendreTensor,
    /// Tensor-grid pairing of Gauss-Legendre interval rules, for double
    /// integrals over the interval.
    GaussLegendrePairs,
}

impl QuadratureRule {
    /// The stable integer identity of this rule family, independent of
    /// declaration order; intended for serialization by outer layers.
    pub fn identity(self) -> (id: u8)
        ensures
            id == spec_rule_identity(self),
    {
        match self {
            QuadratureRule::GaussLegendre => 0,
            QuadratureRule::SymmetricSimplex => 1,
            QuadratureRule::GaussLegendreTensor => 2,
            QuadratureRule::GaussLegendrePairs => 3,
        }
    }

    /// Whether this family produces single-integral rules.
    pub fn supports_single_integrals(self) -> (b: bool)
        ensures
            b == spec_supports_single(self),
    {
        match self {
            QuadratureRule::GaussLegendre => true,
            QuadratureRule::SymmetricSimplex => true,
            QuadratureRule::GaussLegendreTensor => true,
            QuadratureRule::GaussLegendrePairs => false,
        }
    }

    /// Whether this family produces double-integral rules.
    pub fn supports_double_integrals(self) -> (b: bool)
        ensures
            b == spec_supports_double(self),
    {
        match self {
            QuadratureRule::GaussLegendrePairs => true,
            _ => false,
        }
    }

    /// Whether this family has a generator for the given domain.
    pub fn supports_domain(self, domain: Domain) -> (b: bool)
        ensures
            b == spec_supports_domain(self, domain),
    {
        match self {
            QuadratureRule::GaussLegendre => domain == Domain::Interval,
            QuadratureRule::SymmetricSimplex => domain == Domain::Triangle || domain
                == Domain::Tetrahedron,
            QuadratureRule::GaussLegendreTensor => domain == Domain::Quadrilateral || domain
                == Domain::Hexahedron,
            QuadratureRule::GaussLegendrePairs => domain == Domain::Interval,
        }
    }

    /// The largest exactness order this family's generator accepts on the
    /// given domain.
    pub fn max_order(self, domain: Domain) -> (m: usize)
        ensures
            m == spec_max_order(self, domain),
    {
        match self {
            QuadratureRule::GaussLegendre => 9,
            QuadratureRule::SymmetricSimplex => if domain == Domain::Tetrahedron {
                2
            } else {
                5
            },
            QuadratureRule::GaussLegendreTensor => 9,
            QuadratureRule::GaussLegendrePairs => 9,
        }
    }
}

/// The integer identity of a rule family.
pub open spec fn spec_rule_identity(r: QuadratureRule) -> u8 {
    match r {
        QuadratureRule::GaussLegendre => 0,
        QuadratureRule::SymmetricSimplex => 1,
        QuadratureRule::GaussLegendreTensor => 2,
        QuadratureRule::GaussLegendrePairs => 3,
    }
}

/// Whether a rule family produces single-integral rules.
pub open spec fn spec_supports_single(r: QuadratureRule) -> bool {
    match r {
        QuadratureRule::GaussLegendre => true,
        QuadratureRule::SymmetricSimplex => true,
        QuadratureRule::GaussLegendreTensor => true,
        QuadratureRule::GaussLegendrePairs => false,
    }
}

/// Whether a rule family produces double-integral rules.
pub open spec fn spec_supports_double(r: QuadratureRule) -> bool {
    match r {
        QuadratureRule::GaussLegendrePairs => true,
        _ => false,
    }
}

/// Whether a rule family has a generator for a domain.
pub open spec fn spec_supports_domain(r: QuadratureRule, d: Domain) -> bool {
    match r {
        QuadratureRule::GaussLegendre => d == Domain::Interval,
        QuadratureRule::SymmetricSimplex => d == Domain::Triangle || d == Domain::Tetrahedron,
        QuadratureRule::GaussLegendreTensor => d == Domain::Quadrilateral || d
            == Domain::Hexahedron,
        QuadratureRule::GaussLegendrePairs => d == Domain::Interval,
    }
}

/// The largest exactness order a rule family's generator accepts on a
/// domain.
pub open spec fn spec_max_order(r: QuadratureRule, d: Domain) -> int {
    match r {
        QuadratureRule::GaussLegendre => 9,
        QuadratureRule::SymmetricSimplex => if d == Domain::Tetrahedron {
            2
        } else {
            5
        },
        QuadratureRule::GaussLegendreTensor => 9,
        QuadratureRule::GaussLegendrePairs => 9,
    }
}

/// Why a quadrature request failed.
#[derive(Clone, Copy, Debug, PartialEq, Eq, Hash, Structural)]
pub enum QuadratureError {
    /// The rule family does not support the requested integral arity.
    UnsupportedArity,
    /// The rule family has no generator for the requested domain.
    UnsupportedDomain,
    /// The requested order is beyond what the generator can produce.
    OrderOutOfRange,
    /// An internal numerical algorithm failed; never produced by the
    /// table-based generators of this library.
    NumericalFailure,
}

/// Whether a single-integral request is supported: the family must do
/// single integrals, have a generator for the domain, and accept the order.
pub open spec fn spec_single_supported(r: QuadratureRule, d: Domain, order: int) -> bool {
    spec_supports_single(r) && spec_supports_domain(r, d) && 0 <= order <= spec_max_order(r, d)
}

/// Whether a double-integral request is supported.
pub open spec fn spec_double_supported(r: QuadratureRule, d: Domain, order: int) -> bool {
    spec_supports_double(r) && spec_supports_domain(r, d) && 0 <= order <= spec_max_order(r, d)
}

/// The error an unsupported single-integral request fails with: arity is
/// checked first, then the domain, then the order.
pub open spec fn spec_single_error(r: QuadratureRule, d: Domain, order: int) -> QuadratureError {
    if !spec_supports_single(r) {
        QuadratureError::UnsupportedArity
    } else if !spec_supports_domain(r, d) {
        QuadratureError::UnsupportedDomain
    } else {
        QuadratureError::OrderOutOfRange
    }
}

/// The error an unsupported double-integral request fails with.
pub open spec fn spec_double_error(r: QuadratureRule, d: Domain, order: int) -> QuadratureError {
    if !spec_supports_double(r) {
        QuadratureError::UnsupportedArity
    } else if !spec_supports_domain(r, d) {
        QuadratureError::UnsupportedDomain
    } else {
        QuadratureError::OrderOutOfRange
    }
}

/// The flattened point coordinates a supported single-integral request
/// returns.
pub open spec fn spec_single_points(r: QuadratureRule, d: Domain, order: int) -> Seq<i64> {
    match r {
        QuadratureRule::GaussLegendre => crate::gauss_legendre::gl_nodes(
            crate::gauss_legendre::spec_gl_point_count(order),
        ),
        QuadratureRule::SymmetricSimplex => if d == Domain::Triangle {
            crate::simplex::tri_points(order)
        } else {
            crate::simplex::tet_points(order)
        },
        QuadratureRule::GaussLegendreTensor => if d == Domain::Quadrilateral {
            crate::tensor::quad_points(order)
        } else {
            crate::tensor::hex_points(order)
        },
        QuadratureRule::GaussLegendrePairs => Seq::<i64>::empty(),
    }
}

/// The weights a supported single-integral request returns.
pub open spec fn spec_single_weights(r: QuadratureRule, d: Domain, order: int) -> Seq<i64> {
    match r {
        QuadratureRule::GaussLegendre => crate::gauss_legendre::gl_weights(
            crate::gauss_legendre::spec_gl_point_count(order),
        ),
        QuadratureRule::SymmetricSimplex => if d == Domain::Triangle {
            crate::simplex::tri_weights(order)
        } else {
            crate::simplex::tet_weights(order)
        },
        QuadratureRule::GaussLegendreTensor => if d == Domain::Quadrilateral {
            crate::tensor::tensor_weights(order)
        } else {
            crate::tensor::tensor3_weights(order)
        },
        QuadratureRule::GaussLegendrePairs => Seq::<i64>::empty(),
    }
}

/// The first-variable coordinates a supported double-integral request
/// returns.
pub open spec fn spec_double_points_a(r: QuadratureRule, d: Domain, order: int) -> Seq<i64> {
    match r {
        QuadratureRule::GaussLegendrePairs => crate::tensor::pair_points_a(order),
        _ => Seq::<i64>::empty(),
    }
}

/// The second-variable coordinates a supported double-integral request
/// returns.
pub open spec fn spec_double_points_b(r: QuadratureRule, d: Domain, order: int) -> Seq<i64> {
    match r {
        QuadratureRule::GaussLegendrePairs => crate::tensor::pair_points_b(order),
        _ => Seq::<i64>::empty(),
    }
}

/// The weights a supported double-integral request returns.
pub open spec fn spec_double_weights(r: QuadratureRule, d: Domain, order: int) -> Seq<i64> {
    match r {
        QuadratureRule::GaussLegendrePairs => crate::tensor::tensor_weights(order),
        _ => Seq::<i64>::empty(),
    }
}

/// What `single_integral_quadrature` returns, as a predicate on the result:
/// success exactly on supported requests, with the spec point and weight
/// sequences; otherwise the error that `spec_single_error` picks.
pub open spec fn single_result_matches(
    res: Result<(Vec<i64>, Vec<i64>), QuadratureError>,
    r: QuadratureRule,
    d: Domain,
    order: int,
) -> bool {
    match res {
        Ok(pw) => spec_single_supported(r, d, order) && pw.0@ == spec_single_points(r, d, order)
            && pw.1@ == spec_single_weights(r, d, order),
        Err(e) => !spec_single_supported(r, d, order) && e == spec_single_error(r, d, order),
    }
}

/// What `double_integral_quadrature` returns, as a predicate on the result.
pub open spec fn double_result_matches(
    res: Result<(Vec<i64>, Vec<i64>, Vec<i64>), QuadratureError>,
    r: QuadratureRule,
    d: Domain,
    order: int,
) -> bool {
    match res {
        Ok(pw) => spec_double_supported(r, d, order) && pw.0@ == spec_double_points_a(r, d, order)
            && pw.1@ == spec_double_points_b(r, d, order) && pw.2@ == spec_double_weights(
            r,
            d,
            order,
        ),
        Err(e) => !spec_double_supported(r, d, order) && e == spec_double_error(r, d, order),
    }
}

/// Get a quadrature rule for a single integral: the flattened fixed-point
/// point coordinates and the weight of each point.
///
/// Succeeds if and only if the family does single integrals, has a
/// generator for the domain, and accepts the order; the result is a pure
/// function of the three arguments.
pub fn single_integral_quadrature(rtype: QuadratureRule, domain: Domain, order: usize) -> (res:
    Result<(Vec<i64>, Vec<i64>), QuadratureError>)
    ensures
        single_result_matches(res, rtype, domain, order as int),
{
    if !rtype.supports_single_integrals() {
        Err(QuadratureError::UnsupportedArity)
    } else if !rtype.supports_domain(domain) {
        Err(QuadratureError::UnsupportedDomain)
    } else if order > rtype.max_order(domain) {
        Err(QuadratureError::OrderOutOfRange)
    } else {
        match rtype {
            QuadratureRule::GaussLegendre => Ok(crate::gauss_legendre::gl_rule(order / 2 + 1)),
            QuadratureRule::SymmetricSimplex => if domain == Domain::Triangle {
                Ok(crate::simplex::tri_rule(order))
            } else {
                Ok(crate::simplex::tet_rule(order))
            },
            QuadratureRule::GaussLegendreTensor => if domain == Domain::Quadrilateral {
                Ok(crate::tensor::quad_rule(order))
            } else {
                Ok(crate::tensor::hex_rule(order))
            },
            QuadratureRule::GaussLegendrePairs => Err(QuadratureError::UnsupportedArity),
        }
    }
}

/// Get a quadrature rule for a double integral: the fixed-point coordinates
/// of each grid point in the first and second integration variable, and the
/// weight of each grid point.  The three sequences have equal length: the
/// rule is a full tensor grid, not a diagonal pairing.
///
/// Succeeds if and only if the family does double integrals, has a
/// generator for the domain, and accepts the order; the result is a pure
/// function of the three arguments.
pub fn double_integral_quadrature(rtype: QuadratureRule, domain: Domain, order: usize) -> (res:
    Result<(Vec<i64>, Vec<i64>, Vec<i64>), QuadratureError>)
    ensures
        double_result_matches(res, rtype, domain, order as int),
{
    if !rtype.supports_double_integrals() {
        Err(QuadratureError::UnsupportedArity)
    } else if !rtype.supports_domain(domain) {
        Err(QuadratureError::UnsupportedDomain)
    } else if order > rtype.max_order(domain) {
        Err(QuadratureError::OrderOutOfRange)
    } else {
        match rtype {
            QuadratureRule::GaussLegendrePairs => Ok(crate::tensor::pair_rule(order)),
            _ => Err(QuadratureError::UnsupportedArity),
        }
    }
}

} // verus!
