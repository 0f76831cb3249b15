use quadrature::Domain;
use quadrature::QuadratureError;
use quadrature::QuadratureRule;
use quadrature::SCALE;
use quadrature::double_integral_quadrature;
use quadrature::single_integral_quadrature;

fn to_f64(v: i64) -> f64 {
    v as f64 / SCALE as f64
}

fn sum_f64(ws: &[i64]) -> f64 {
    ws.iter().map(|&w| to_f64(w)).sum()
}

const ALL_DOMAINS: [Domain; 5] = [
    Domain::Interval,
    Domain::Triangle,
    Domain::Quadrilateral,
    Domain::Tetrahedron,
    Domain::Hexahedron,
];

const ALL_RULES: [QuadratureRule; 4] = [
    QuadratureRule::GaussLegendre,
    QuadratureRule::SymmetricSimplex,
    QuadratureRule::GaussLegendreTensor,
    QuadratureRule::GaussLegendrePairs,
];

// The weights of a Gauss-Legendre interval rule sum to the interval's
// measure 2.0; held exactly by the fixed-point tables.

#[test]
fn test_sum_weights_1() {
    let weights = single_integral_quadrature(QuadratureRule::GaussLegendre, Domain::Interval, 1)
        .unwrap()
        .1;
    let total: i64 = weights.iter().sum();
    assert_eq!(total, 2 * SCALE);
    assert!((sum_f64(&weights) - 2.0).abs() < 1e-10);
}

#[test]
fn test_sum_weights_2() {
    let weights = single_integral_quadrature(QuadratureRule::GaussLegendre, Domain::Interval, 2)
        .unwrap()
        .1;
    let total: i64 = weights.iter().sum();
    assert_eq!(total, 2 * SCALE);
    assert!((sum_f64(&weights) - 2.0).abs() < 1e-10);
}

#[test]
fn test_sum_weights_3() {
    let weights = single_integral_quadrature(QuadratureRule::GaussLegendre, Domain::Interval, 3)
        .unwrap()
        .1;
    let total: i64 = weights.iter().sum();
    assert_eq!(total, 2 * SCALE);
    assert!((sum_f64(&weights) - 2.0).abs() < 1e-10);
}

// Order 1 on the interval: a single point at the origin with weight 2.0.

#[test]
fn test_gl_order_one_single_point() {
    let (points, weights) =
        single_integral_quadrature(QuadratureRule::GaussLegendre, Domain::Interval, 1).unwrap();
    assert_eq!(points, vec![0]);
    assert_eq!(weights, vec![2 * SCALE]);
}

// Order 3 on the interval: two points at plus/minus 1/sqrt(3), each with
// weight exactly 1.0.

#[test]
fn test_gl_order_three_two_points() {
    let (points, weights) =
        single_integral_quadrature(QuadratureRule::GaussLegendre, Domain::Interval, 3).unwrap();
    assert_eq!(weights, vec![SCALE, SCALE]);
    assert_eq!(points.len(), 2);
    let inv_sqrt3 = 1.0f64 / 3.0f64.sqrt();
    assert!((to_f64(points[0]) + inv_sqrt3).abs() < 1e-10);
    assert!((to_f64(points[1]) - inv_sqrt3).abs() < 1e-10);
    assert_eq!(points[0], -points[1]);
}

// Gauss-Legendre has no triangle generator.

#[test]
fn test_gauss_legendre_on_triangle_unsupported() {
    let res = single_integral_quadrature(QuadratureRule::GaussLegendre, Domain::Triangle, 2);
    assert_eq!(res.unwrap_err(), QuadratureError::UnsupportedDomain);
}

#[test]
fn test_unsupported_domain_errors() {
    let res = single_integral_quadrature(QuadratureRule::GaussLegendre, Domain::Tetrahedron, 1);
    assert_eq!(res.unwrap_err(), QuadratureError::UnsupportedDomain);
    let res =
        single_integral_quadrature(QuadratureRule::GaussLegendreTensor, Domain::Tetrahedron, 1);
    assert_eq!(res.unwrap_err(), QuadratureError::UnsupportedDomain);
    let res = single_integral_quadrature(QuadratureRule::SymmetricSimplex, Domain::Interval, 1);
    assert_eq!(res.unwrap_err(), QuadratureError::UnsupportedDomain);
    let res = single_integral_quadrature(QuadratureRule::GaussLegendre, Domain::Hexahedron, 1);
    assert_eq!(res.unwrap_err(), QuadratureError::UnsupportedDomain);
    let res = double_integral_quadrature(QuadratureRule::GaussLegendrePairs, Domain::Hexahedron, 1);
    assert_eq!(res.unwrap_err(), QuadratureError::UnsupportedDomain);
}

#[test]
fn test_unsupported_arity_errors() {
    let res = single_integral_quadrature(QuadratureRule::GaussLegendrePairs, Domain::Interval, 2);
    assert_eq!(res.unwrap_err(), QuadratureError::UnsupportedArity);
    for &r in &[
        QuadratureRule::GaussLegendre,
        QuadratureRule::SymmetricSimplex,
        QuadratureRule::GaussLegendreTensor,
    ] {
        let res = double_integral_quadrature(r, Domain::Interval, 2);
        assert_eq!(res.unwrap_err(), QuadratureError::UnsupportedArity);
    }
}

#[test]
fn test_order_out_of_range_errors() {
    let res = single_integral_quadrature(QuadratureRule::GaussLegendre, Domain::Interval, 10);
    assert_eq!(res.unwrap_err(), QuadratureError::OrderOutOfRange);
    let res = single_integral_quadrature(QuadratureRule::SymmetricSimplex, Domain::Triangle, 6);
    assert_eq!(res.unwrap_err(), QuadratureError::OrderOutOfRange);
    let res = single_integral_quadrature(QuadratureRule::SymmetricSimplex, Domain::Tetrahedron, 3);
    assert_eq!(res.unwrap_err(), QuadratureError::OrderOutOfRange);
    let res =
        single_integral_quadrature(QuadratureRule::GaussLegendreTensor, Domain::Quadrilateral, 10);
    assert_eq!(res.unwrap_err(), QuadratureError::OrderOutOfRange);
    let res = double_integral_quadrature(QuadratureRule::GaussLegendrePairs, Domain::Interval, 10);
    assert_eq!(res.unwrap_err(), QuadratureError::OrderOutOfRange);
}

// Calling twice with the same arguments gives bit-identical results.

#[test]
fn test_determinism() {
    for order in 0..12 {
        for &r in &ALL_RULES {
            for &d in &ALL_DOMAINS {
                let a = single_integral_quadrature(r, d, order);
                let b = single_integral_quadrature(r, d, order);
                assert_eq!(a, b);
                let a = double_integral_quadrature(r, d, order);
                let b = double_integral_quadrature(r, d, order);
                assert_eq!(a, b);
            }
        }
    }
}

// No well-typed request panics: every combination either succeeds or
// returns an error value.

#[test]
fn test_no_panic_on_any_request() {
    for order in 0..40 {
        for &r in &ALL_RULES {
            for &d in &ALL_DOMAINS {
                let _ = single_integral_quadrature(r, d, order);
                let _ = double_integral_quadrature(r, d, order);
            }
        }
    }
}

// One weight per point: the flattened coordinate vector holds exactly
// `dimension` entries per weight.

#[test]
fn test_single_lengths() {
    for order in 0..=9 {
        let (p, w) = single_integral_quadrature(QuadratureRule::GaussLegendre, Domain::Interval, order)
            .unwrap();
        assert_eq!(p.len(), w.len());
        assert_eq!(w.len(), order / 2 + 1);
        let (p, w) =
            single_integral_quadrature(QuadratureRule::GaussLegendreTensor, Domain::Quadrilateral, order)
                .unwrap();
        assert_eq!(p.len(), 2 * w.len());
        assert_eq!(w.len(), (order / 2 + 1) * (order / 2 + 1));
        let n = order / 2 + 1;
        let (p, w) =
            single_integral_quadrature(QuadratureRule::GaussLegendreTensor, Domain::Hexahedron, order)
                .unwrap();
        assert_eq!(p.len(), 3 * w.len());
        assert_eq!(w.len(), n * n * n);
        if order <= 5 {
            let (p, w) =
                single_integral_quadrature(QuadratureRule::SymmetricSimplex, Domain::Triangle, order)
                    .unwrap();
            assert_eq!(p.len(), 2 * w.len());
        }
    }
}

#[test]
fn test_double_lengths() {
    for order in 0..=9 {
        let (pa, pb, w) =
            double_integral_quadrature(QuadratureRule::GaussLegendrePairs, Domain::Interval, order)
                .unwrap();
        let n = order / 2 + 1;
        assert_eq!(pa.len(), n * n);
        assert_eq!(pb.len(), n * n);
        assert_eq!(w.len(), n * n);
    }
}

// Weight sums stay within tolerance of the domain's reference measure.

#[test]
fn test_weight_sums_match_measure() {
    for order in 0..=9 {
        let w = single_integral_quadrature(QuadratureRule::GaussLegendre, Domain::Interval, order)
            .unwrap()
            .1;
        assert!((sum_f64(&w) - 2.0).abs() < 1e-10);
        let w = single_integral_quadrature(QuadratureRule::GaussLegendreTensor, Domain::Quadrilateral, order)
            .unwrap()
            .1;
        assert!((sum_f64(&w) - 4.0).abs() < 1e-10);
        let w = double_integral_quadrature(QuadratureRule::GaussLegendrePairs, Domain::Interval, order)
            .unwrap()
            .2;
        assert!((sum_f64(&w) - 4.0).abs() < 1e-10);
        let w = single_integral_quadrature(QuadratureRule::GaussLegendreTensor, Domain::Hexahedron, order)
            .unwrap()
            .1;
        assert!((sum_f64(&w) - 8.0).abs() < 1e-9);
        if order <= 5 {
            let w = single_integral_quadrature(QuadratureRule::SymmetricSimplex, Domain::Triangle, order)
                .unwrap()
                .1;
            assert!((sum_f64(&w) - 0.5).abs() < 1e-10);
        }
    }
}

// Every point lies inside the reference shape.

#[test]
fn test_points_inside_domain() {
    for order in 0..=9 {
        let (p, _) = single_integral_quadrature(QuadratureRule::GaussLegendre, Domain::Interval, order)
            .unwrap();
        for &c in &p {
            assert!(-SCALE <= c && c <= SCALE);
        }
        let (p, _) =
            single_integral_quadrature(QuadratureRule::GaussLegendreTensor, Domain::Quadrilateral, order)
                .unwrap();
        for &c in &p {
            assert!(-SCALE <= c && c <= SCALE);
        }
        let (p, _) =
            single_integral_quadrature(QuadratureRule::GaussLegendreTensor, Domain::Hexahedron, order)
                .unwrap();
        for &c in &p {
            assert!(-SCALE <= c && c <= SCALE);
        }
        if order <= 5 {
            let (p, w) =
                single_integral_quadrature(QuadratureRule::SymmetricSimplex, Domain::Triangle, order)
                    .unwrap();
            for j in 0..w.len() {
                let x = p[2 * j];
                let y = p[2 * j + 1];
                assert!(0 <= x && 0 <= y && x + y <= SCALE);
            }
        }
    }
}

// Exactness: the quadrature reproduces the integral of a polynomial of the
// requested degree.

#[test]
fn test_exactness_interval_cubic() {
    // Order 3 on [-1,1]: integral of x^2 is 2/3, of x^3 is 0.
    let (p, w) = single_integral_quadrature(QuadratureRule::GaussLegendre, Domain::Interval, 3)
        .unwrap();
    let approx_sq: f64 = (0..w.len()).map(|i| to_f64(w[i]) * to_f64(p[i]).powi(2)).sum();
    assert!((approx_sq - 2.0 / 3.0).abs() < 1e-9);
    let approx_cu: f64 = (0..w.len()).map(|i| to_f64(w[i]) * to_f64(p[i]).powi(3)).sum();
    assert!(approx_cu.abs() < 1e-9);
}

#[test]
fn test_exactness_interval_high_order() {
    // Order 9 on [-1,1]: integral of x^8 is 2/9.
    let (p, w) = single_integral_quadrature(QuadratureRule::GaussLegendre, Domain::Interval, 9)
        .unwrap();
    let approx: f64 = (0..w.len()).map(|i| to_f64(w[i]) * to_f64(p[i]).powi(8)).sum();
    assert!((approx - 2.0 / 9.0).abs() < 1e-9);
}

#[test]
fn test_exactness_triangle_linear_and_quadratic() {
    // Order 2 on the unit triangle: integral of x is 1/6, of x*y is 1/24.
    let (p, w) = single_integral_quadrature(QuadratureRule::SymmetricSimplex, Domain::Triangle, 2)
        .unwrap();
    let approx_x: f64 = (0..w.len()).map(|j| to_f64(w[j]) * to_f64(p[2 * j])).sum();
    assert!((approx_x - 1.0 / 6.0).abs() < 1e-9);
    let approx_xy: f64 =
        (0..w.len()).map(|j| to_f64(w[j]) * to_f64(p[2 * j]) * to_f64(p[2 * j + 1])).sum();
    assert!((approx_xy - 1.0 / 24.0).abs() < 1e-9);
}

#[test]
fn test_exactness_triangle_degree_five() {
    // Order 5 on the unit triangle: integral of x^5 is 1/42.
    let (p, w) = single_integral_quadrature(QuadratureRule::SymmetricSimplex, Domain::Triangle, 5)
        .unwrap();
    let approx: f64 = (0..w.len()).map(|j| to_f64(w[j]) * to_f64(p[2 * j]).powi(5)).sum();
    assert!((approx - 1.0 / 42.0).abs() < 1e-9);
}

#[test]
fn test_exactness_quadrilateral() {
    // Order 3 on [-1,1]^2: integral of x^2 y^2 is 4/9.
    let (p, w) =
        single_integral_quadrature(QuadratureRule::GaussLegendreTensor, Domain::Quadrilateral, 3)
            .unwrap();
    let approx: f64 = (0..w.len())
        .map(|j| to_f64(w[j]) * to_f64(p[2 * j]).powi(2) * to_f64(p[2 * j + 1]).powi(2))
        .sum();
    assert!((approx - 4.0 / 9.0).abs() < 1e-9);
}

#[test]
fn test_exactness_tetrahedron() {
    // Order 1 on the unit tetrahedron: integral of x is 1/24.
    let (p, w) =
        single_integral_quadrature(QuadratureRule::SymmetricSimplex, Domain::Tetrahedron, 1)
            .unwrap();
    let approx: f64 = (0..w.len()).map(|j| to_f64(w[j]) * to_f64(p[3 * j])).sum();
    assert!((approx - 1.0 / 24.0).abs() < 1e-9);
    // Order 2: integral of x^2 is 1/60.
    let (p, w) =
        single_integral_quadrature(QuadratureRule::SymmetricSimplex, Domain::Tetrahedron, 2)
            .unwrap();
    let approx: f64 = (0..w.len()).map(|j| to_f64(w[j]) * to_f64(p[3 * j]).powi(2)).sum();
    assert!((approx - 1.0 / 60.0).abs() < 1e-9);
}

#[test]
fn test_tetrahedron_rule_shape() {
    for order in 0..=2 {
        let (p, w) =
            single_integral_quadrature(QuadratureRule::SymmetricSimplex, Domain::Tetrahedron, order)
                .unwrap();
        assert_eq!(p.len(), 3 * w.len());
        let total: f64 = sum_f64(&w);
        assert!((total - 1.0 / 6.0).abs() < 1e-9);
        for j in 0..w.len() {
            let (x, y, z) = (p[3 * j], p[3 * j + 1], p[3 * j + 2]);
            assert!(0 <= x && 0 <= y && 0 <= z && x + y + z <= SCALE);
        }
    }
}

#[test]
fn test_exactness_hexahedron() {
    // Order 3 on [-1,1]^3: integral of x^2 y^2 z^2 is 8/27.
    let (p, w) =
        single_integral_quadrature(QuadratureRule::GaussLegendreTensor, Domain::Hexahedron, 3)
            .unwrap();
    let approx: f64 = (0..w.len())
        .map(|j| {
            to_f64(w[j])
                * to_f64(p[3 * j]).powi(2)
                * to_f64(p[3 * j + 1]).powi(2)
                * to_f64(p[3 * j + 2]).powi(2)
        })
        .sum();
    assert!((approx - 8.0 / 27.0).abs() < 1e-9);
}

#[test]
fn test_exactness_double_grid() {
    // Order 3 paired rule: sum of w * a^2 * b^2 approximates the product
    // integral of x^2 over [-1,1] with itself, 4/9.
    let (pa, pb, w) =
        double_integral_quadrature(QuadratureRule::GaussLegendrePairs, Domain::Interval, 3).unwrap();
    let approx: f64 = (0..w.len())
        .map(|k| to_f64(w[k]) * to_f64(pa[k]).powi(2) * to_f64(pb[k]).powi(2))
        .sum();
    assert!((approx - 4.0 / 9.0).abs() < 1e-9);
}

#[test]
fn test_double_grid_structure() {
    // Order 3 gives the 2x2 grid of the two-point interval rule.
    let (pa, pb, w) =
        double_integral_quadrature(QuadratureRule::GaussLegendrePairs, Domain::Interval, 3).unwrap();
    let (x, _) = single_integral_quadrature(QuadratureRule::GaussLegendre, Domain::Interval, 3)
        .unwrap();
    assert_eq!(pa, vec![x[0], x[0], x[1], x[1]]);
    assert_eq!(pb, vec![x[0], x[1], x[0], x[1]]);
    assert_eq!(w, vec![SCALE, SCALE, SCALE, SCALE]);
}

#[test]
fn test_identities_and_metadata() {
    assert_eq!(Domain::Interval.identity(), 0);
    assert_eq!(Domain::Triangle.identity(), 1);
    assert_eq!(Domain::Quadrilateral.identity(), 2);
    assert_eq!(Domain::Tetrahedron.identity(), 3);
    assert_eq!(Domain::Hexahedron.identity(), 4);
    assert_eq!(QuadratureRule::GaussLegendre.identity(), 0);
    assert_eq!(QuadratureRule::SymmetricSimplex.identity(), 1);
    assert_eq!(QuadratureRule::GaussLegendreTensor.identity(), 2);
    assert_eq!(QuadratureRule::GaussLegendrePairs.identity(), 3);

    assert_eq!(Domain::Interval.dimension(), 1);
    assert_eq!(Domain::Triangle.dimension(), 2);
    assert_eq!(Domain::Hexahedron.dimension(), 3);
    assert_eq!(Domain::Interval.reference_measure(), 2 * SCALE);
    assert_eq!(Domain::Triangle.reference_measure(), SCALE / 2);
    assert_eq!(Domain::Quadrilateral.reference_measure(), 4 * SCALE);
    assert_eq!(Domain::Hexahedron.reference_measure(), 8 * SCALE);

    assert!(QuadratureRule::GaussLegendre.supports_single_integrals());
    assert!(!QuadratureRule::GaussLegendre.supports_double_integrals());
    assert!(QuadratureRule::GaussLegendrePairs.supports_double_integrals());
    assert!(!QuadratureRule::GaussLegendrePairs.supports_single_integrals());
    assert!(QuadratureRule::GaussLegendre.supports_domain(Domain::Interval));
    assert!(!QuadratureRule::GaussLegendre.supports_domain(Domain::Triangle));
    assert!(QuadratureRule::GaussLegendreTensor.supports_domain(Domain::Hexahedron));
    assert!(!QuadratureRule::GaussLegendreTensor.supports_domain(Domain::Tetrahedron));
    assert!(QuadratureRule::SymmetricSimplex.supports_domain(Domain::Tetrahedron));
    assert_eq!(QuadratureRule::GaussLegendre.max_order(Domain::Interval), 9);
    assert_eq!(QuadratureRule::SymmetricSimplex.max_order(Domain::Triangle), 5);
    assert_eq!(QuadratureRule::SymmetricSimplex.max_order(Domain::Tetrahedron), 2);
}

#[test]
fn test_triangle_order_zero_centroid() {
    let (p, w) = single_integral_quadrature(QuadratureRule::SymmetricSimplex, Domain::Triangle, 0)
        .unwrap();
    assert_eq!(w, vec![SCALE / 2]);
    assert_eq!(p.len(), 2);
    assert!((to_f64(p[0]) - 1.0 / 3.0).abs() < 1e-10);
    assert_eq!(p[0], p[1]);
}

#[test]
fn test_largest_supported_orders() {
    let (p, w) = single_integral_quadrature(QuadratureRule::GaussLegendre, Domain::Interval, 9)
        .unwrap();
    assert_eq!(p.len(), 5);
    assert_eq!(w.len(), 5);
    let (p, w) =
        single_integral_quadrature(QuadratureRule::GaussLegendreTensor, Domain::Quadrilateral, 9)
            .unwrap();
    assert_eq!(p.len(), 50);
    assert_eq!(w.len(), 25);
    let (p, w) = single_integral_quadrature(QuadratureRule::SymmetricSimplex, Domain::Triangle, 5)
        .unwrap();
    assert_eq!(p.len(), 14);
    assert_eq!(w.len(), 7);
    let (p, w) =
        single_integral_quadrature(QuadratureRule::GaussLegendreTensor, Domain::Hexahedron, 9)
            .unwrap();
    assert_eq!(p.len(), 375);
    assert_eq!(w.len(), 125);
}
