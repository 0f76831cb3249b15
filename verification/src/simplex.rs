//! Symmetric-orbit rules on the unit triangle and unit tetrahedron.
//!
//! Each rule is a short table of symmetry orbits: the centroid orbit (one
//! point) and symmetric orbits such as `(a,a)`, `(1-2a,a)`, `(a,1-2a)` on
//! the triangle, with one weight per orbit replicated across the orbit's
//! points.  Point coordinates are flattened as `x0, y0, x1, y1, ...` (and
//! `x0, y0, z0, ...` on the tetrahedron) in fixed point.

use vstd::prelude::*;

use crate::fixed::SCALE;
use crate::fixed::sum_prefix;
use crate::fixed::weight_sum;

verus! {

/// How many points the triangle rule for a requested exactness order uses.
pub open spec fn spec_tri_point_count(order: int) -> int {
    if order <= 1 {
        1
    } else if order == 2 {
        3
    } else if order <= 4 {
        6
    } else {
        7
    }
}

/// The flattened fixed-point coordinates of the triangle rule for a
/// requested exactness order: `2 * spec_tri_point_count(order)` entries.
pub open spec fn tri_points(order: int) -> Seq<i64> {
    if order <= 1 {
        // Centroid rule, exact for degree 1.
        seq![333333333333i64, 333333333333i64]
    } else if order == 2 {
        // One three-point orbit with a = 1/6, exact for degree 2.
        seq![
            166666666667i64, 166666666667i64,
            666666666667i64, 166666666667i64,
            166666666667i64, 666666666667i64,
        ]
    } else if order <= 4 {
        // Two three-point orbits, exact for degree 4.
        seq![
            445948490916i64, 445948490916i64,
            108103018168i64, 445948490916i64,
            445948490916i64, 108103018168i64,
            91576213510i64, 91576213510i64,
            816847572980i64, 91576213510i64,
            91576213510i64, 816847572980i64,
        ]
    } else {
        // Centroid plus two three-point orbits, exact for degree 5.
        seq![
            333333333333i64, 333333333333i64,
            470142064105i64, 470142064105i64,
            59715871790i64, 470142064105i64,
            470142064105i64, 59715871790i64,
            101286507323i64, 101286507323i64,
            797426985353i64, 101286507323i64,
            101286507323i64, 797426985353i64,
        ]
    }
}

/// The fixed-point weights of the triangle rule for a requested exactness
/// order, one entry per point, equal within each orbit.
pub open spec fn tri_weights(order: int) -> Seq<i64> {
    if order <= 1 {
        seq![500000000000i64]
    } else if order == 2 {
        seq![166666666667i64, 166666666667i64, 166666666667i64]
    } else if order <= 4 {
        seq![
            111690794839i64, 111690794839i64, 111690794839i64,
            54975871828i64, 54975871828i64, 54975871828i64,
        ]
    } else {
        seq![
            112500000000i64,
            66197076394i64, 66197076394i64, 66197076394i64,
            62969590272i64, 62969590272i64, 62969590272i64,
        ]
    }
}

/// The tables are well formed: matching lengths, every point inside the
/// unit triangle, weights positive and at most the triangle's measure.
pub proof fn lemma_tri_table_shape(order: int)
    requires
        0 <= order <= 5,
    ensures
        tri_points(order).len() == 2 * spec_tri_point_count(order),
        tri_weights(order).len() == spec_tri_point_count(order),
        forall|j: int|
            0 <= j < spec_tri_point_count(order) ==> 0 <= #[trigger] tri_points(order)[2 * j]
                && 0 <= tri_points(order)[2 * j + 1]
                && tri_points(order)[2 * j] + tri_points(order)[2 * j + 1] <= SCALE,
        forall|j: int|
            0 <= j < spec_tri_point_count(order) ==> 0 < #[trigger] tri_weights(order)[j] <= SCALE
                / 2,
{
}

/// Each triangle table's weights sum to the triangle's reference measure
/// to within two units in the last fixed-point place.
pub proof fn lemma_tri_weight_sum(order: int)
    requires
        0 <= order <= 5,
    ensures
        SCALE / 2 - 2 <= weight_sum(tri_weights(order)) <= SCALE / 2 + 2,
{
    reveal_with_fuel(sum_prefix, 8);
}

/// How many points the tetrahedron rule for a requested exactness order
/// uses.
pub open spec fn spec_tet_point_count(order: int) -> int {
    if order <= 1 {
        1
    } else {
        4
    }
}

/// The flattened fixed-point coordinates of the tetrahedron rule for a
/// requested exactness order: `3 * spec_tet_point_count(order)` entries.
pub open spec fn tet_points(order: int) -> Seq<i64> {
    if order <= 1 {
        // Centroid rule, exact for degree 1.
        seq![250000000000i64, 250000000000i64, 250000000000i64]
    } else {
        // One four-point orbit with a = (5 - sqrt(5))/20, exact for
        // degree 2.
        seq![
            138196601125i64, 138196601125i64, 138196601125i64,
            585410196625i64, 138196601125i64, 138196601125i64,
            138196601125i64, 585410196625i64, 138196601125i64,
            138196601125i64, 138196601125i64, 585410196625i64,
        ]
    }
}

/// The fixed-point weights of the tetrahedron rule for a requested
/// exactness order, one entry per point, equal within each orbit.
pub open spec fn tet_weights(order: int) -> Seq<i64> {
    if order <= 1 {
        seq![166666666667i64]
    } else {
        seq![41666666667i64, 41666666667i64, 41666666667i64, 41666666667i64]
    }
}

/// The tetrahedron tables are well formed: matching lengths, every point
/// inside the unit tetrahedron, weights positive and at most the
/// tetrahedron's measure rounded up.
pub proof fn lemma_tet_table_shape(order: int)
    requires
        0 <= order <= 2,
    ensures
        tet_points(order).len() == 3 * spec_tet_point_count(order),
        tet_weights(order).len() == spec_tet_point_count(order),
        forall|j: int|
            0 <= j < spec_tet_point_count(order) ==> 0 <= #[trigger] tet_points(order)[3 * j]
                && 0 <= tet_points(order)[3 * j + 1] && 0 <= tet_points(order)[3 * j + 2]
                && tet_points(order)[3 * j] + tet_points(order)[3 * j + 1] + tet_points(order)[3 * j
                + 2] <= SCALE,
        forall|j: int|
            0 <= j < spec_tet_point_count(order) ==> 0 < #[trigger] tet_weights(order)[j] <= SCALE
                / 6 + 1,
{
}

/// Each tetrahedron table's weights sum to the tetrahedron's reference
/// measure to within two units in the last fixed-point place.
pub proof fn lemma_tet_weight_sum(order: int)
    requires
        0 <= order <= 2,
    ensures
        SCALE / 6 - 2 <= weight_sum(tet_weights(order)) <= SCALE / 6 + 2,
{
    reveal_with_fuel(sum_prefix, 5);
}

/// Build the tetrahedron rule for a requested exactness order: flattened
/// points and weights whose contents equal the spec tables.
pub(crate) fn tet_rule(order: usize) -> (r: (Vec<i64>, Vec<i64>))
    requires
        order <= 2,
    ensures
        r.0@ == tet_points(order as int),
        r.1@ == tet_weights(order as int),
{
    let mut p: Vec<i64> = Vec::new();
    let mut w: Vec<i64> = Vec::new();
    if order <= 1 {
        p.push(250000000000);
        p.push(250000000000);
        p.push(250000000000);
        w.push(166666666667);
    } else {
        p.push(138196601125);
        p.push(138196601125);
        p.push(138196601125);
        p.push(585410196625);
        p.push(138196601125);
        p.push(138196601125);
        p.push(138196601125);
        p.push(585410196625);
        p.push(138196601125);
        p.push(138196601125);
        p.push(138196601125);
        p.push(585410196625);
        w.push(41666666667);
        w.push(41666666667);
        w.push(41666666667);
        w.push(41666666667);
    }
    proof {
        assert(p@ =~= tet_points(order as int));
        assert(w@ =~= tet_weights(order as int));
    }
    (p, w)
}

/// Build the triangle rule for a requested exactness order: flattened
/// points and weights whose contents equal the spec tables.
pub(crate) fn tri_rule(order: usize) -> (r: (Vec<i64>, Vec<i64>))
    requires
        order <= 5,
    ensures
        r.0@ == tri_points(order as int),
        r.1@ == tri_weights(order as int),
{
    let mut p: Vec<i64> = Vec::new();
    let mut w: Vec<i64> = Vec::new();
    if order <= 1 {
        p.push(333333333333);
        p.push(333333333333);
        w.push(500000000000);
    } else if order == 2 {
        p.push(166666666667);
        p.push(166666666667);
        p.push(666666666667);
        p.push(166666666667);
        p.push(166666666667);
        p.push(666666666667);
        w.push(166666666667);
        w.push(166666666667);
        w.push(166666666667);
    } else if order <= 4 {
        p.push(445948490916);
        p.push(445948490916);
        p.push(108103018168);
        p.push(445948490916);
        p.push(445948490916);
        p.push(108103018168);
        p.push(91576213510);
        p.push(91576213510);
        p.push(816847572980);
        p.push(91576213510);
        p.push(91576213510);
        p.push(816847572980);
        w.push(111690794839);
        w.push(111690794839);
        w.push(111690794839);
        w.push(54975871828);
        w.push(54975871828);
        w.push(54975871828);
    } else {
        p.push(333333333333);
        p.push(333333333333);
        p.push(470142064105);
        p.push(470142064105);
        p.push(59715871790);
        p.push(470142064105);
        p.push(470142064105);
        p.push(59715871790);
        p.push(101286507323);
        p.push(101286507323);
        p.push(797426985353);
        p.push(101286507323);
        p.push(101286507323);
        p.push(797426985353);
        w.push(112500000000);
        w.push(66197076394);
        w.push(66197076394);
        w.push(66197076394);
        w.push(62969590272);
        w.push(62969590272);
        w.push(62969590272);
    }
    proof {
        assert(p@ =~= tri_points(order as int));
        assert(w@ =~= tri_weights(order as int));
    }
    (p, w)
}

} // verus!
