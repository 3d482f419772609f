//! Intersection over union of axis-aligned boxes.

use vstd::prelude::*;
use vstd::arithmetic::div_mod::lemma_fundamental_div_mod;
use crate::fixed::UNIT;

verus! {

/// A box as `(x_min, y_min, x_max, y_max)` in normalized coordinates.
pub type BBox = (i64, i64, i64, i64);

/// Guard added to the union so that it never vanishes: one millionth of the
/// frame, in squared coordinate units.
pub const AREA_EPSILON: i64 = 1_000_000;

/// The larger of two integers.
pub open spec fn larger(a: int, b: int) -> int {
    if a >= b {
        a
    } else {
        b
    }
}

/// The smaller of two integers.
pub open spec fn smaller(a: int, b: int) -> int {
    if a <= b {
        a
    } else {
        b
    }
}

/// Signed area of a box, in squared coordinate units.
pub open spec fn spec_area(b: BBox) -> int {
    (b.2 - b.0) * (b.3 - b.1)
}

/// Width of the overlap of two boxes, zero when they do not overlap.
pub open spec fn overlap_width(a: BBox, b: BBox) -> int {
    larger(0, smaller(a.2 as int, b.2 as int) - larger(a.0 as int, b.0 as int))
}

/// Height of the overlap of two boxes, zero when they do not overlap.
pub open spec fn overlap_height(a: BBox, b: BBox) -> int {
    larger(0, smaller(a.3 as int, b.3 as int) - larger(a.1 as int, b.1 as int))
}

/// Area of the overlap of two boxes, in squared coordinate units.
pub open spec fn spec_intersection(a: BBox, b: BBox) -> int {
    overlap_width(a, b) * overlap_height(a, b)
}

/// Area covered by either box plus the guard, in squared coordinate units.
pub open spec fn spec_union(a: BBox, b: BBox) -> int {
    spec_area(a) + spec_area(b) - spec_intersection(a, b) + AREA_EPSILON
}

/// Intersection over union in millionths, rounded down.  Boxes that share no
/// area have overlap zero.
pub open spec fn spec_iou(a: BBox, b: BBox) -> int {
    let inter = spec_intersection(a, b);
    if inter == 0 {
        0
    } else {
        inter * UNIT / spec_union(a, b)
    }
}

/// Two boxes that share area are both properly oriented, and their
/// intersection is no larger than either of them.
pub proof fn lemma_intersection_bounds(a: BBox, b: BBox)
    requires
        spec_intersection(a, b) != 0,
    ensures
        0 < spec_intersection(a, b) <= spec_area(a),
        spec_intersection(a, b) <= spec_area(b),
        spec_union(a, b) >= spec_intersection(a, b) + AREA_EPSILON,
{
    let w = overlap_width(a, b);
    let h = overlap_height(a, b);
    assert(w != 0 && h != 0) by (nonlinear_arith)
        requires
            w * h != 0,
    ;
    let wa = a.2 - a.0;
    let ha = a.3 - a.1;
    let wb = b.2 - b.0;
    let hb = b.3 - b.1;
    assert(0 < w * h && w * h <= wa * ha && w * h <= wb * hb) by (nonlinear_arith)
        requires
            0 < w <= wa,
            0 < h <= ha,
            w <= wb,
            h <= hb,
    ;
}

/// The overlap of boxes inside the frame lies in the unit interval.
pub proof fn lemma_iou_range(a: BBox, b: BBox)
    ensures
        0 <= spec_iou(a, b) <= UNIT,
{
    let inter = spec_intersection(a, b);
    if inter != 0 {
        lemma_intersection_bounds(a, b);
        let u = spec_union(a, b);
        let n = inter * UNIT;
        assert(n == inter * 1_000_000);
        lemma_fundamental_div_mod(n, u);
        let q = n / u;
        assert(0 <= n % u < u);
        assert(q <= UNIT) by (nonlinear_arith)
            requires
                n == u * q + n % u,
                0 <= n % u,
                n == inter * 1_000_000,
                0 < inter < u,
        ;
        assert(q >= 0) by (nonlinear_arith)
            requires
                n == u * q + n % u,
                n % u < u,
                n >= 0,
                u > 0,
        ;
    }
}

/// Intersection over union does not depend on the order of the two boxes.
pub proof fn lemma_iou_symmetric(a: BBox, b: BBox)
    ensures
        spec_iou(a, b) == spec_iou(b, a),
{
    assert(overlap_width(a, b) == overlap_width(b, a));
    assert(overlap_height(a, b) == overlap_height(b, a));
    assert(spec_intersection(a, b) == spec_intersection(b, a));
    assert(spec_union(a, b) == spec_union(b, a));
}

/// Boxes that do not overlap along one of the axes have overlap zero.
pub proof fn lemma_iou_disjoint(a: BBox, b: BBox)
    requires
        smaller(a.2 as int, b.2 as int) <= larger(a.0 as int, b.0 as int) || smaller(
            a.3 as int,
            b.3 as int,
        ) <= larger(a.1 as int, b.1 as int),
    ensures
        spec_iou(a, b) == 0,
{
    assert(overlap_width(a, b) == 0 || overlap_height(a, b) == 0);
    assert(spec_intersection(a, b) == 0) by (nonlinear_arith)
        requires
            overlap_width(a, b) == 0 || overlap_height(a, b) == 0,
            spec_intersection(a, b) == overlap_width(a, b) * overlap_height(a, b),
    ;
}

/// The overlap of a box with itself is its area over its area plus the guard.
/// It comes within a thousandth of one exactly when the box covers a little
/// more than a thousandth of the frame.
pub proof fn lemma_iou_self(b: BBox)
    requires
        b.0 <= b.2,
        b.1 <= b.3,
    ensures
        spec_intersection(b, b) == spec_area(b),
        spec_iou(b, b) <= UNIT,
        spec_iou(b, b) > UNIT - 1000 <==> spec_area(b) > 1_000_001_001,
{
    let area = spec_area(b);
    assert(overlap_width(b, b) == b.2 - b.0);
    assert(overlap_height(b, b) == b.3 - b.1);
    assert(spec_intersection(b, b) == area);
    lemma_iou_range(b, b);
    assert(area >= 0) by (nonlinear_arith)
        requires
            area == (b.2 - b.0) * (b.3 - b.1),
            b.0 <= b.2,
            b.1 <= b.3,
    ;
    if area != 0 {
        let u = area + 1_000_000;
        assert(spec_union(b, b) == u);
        let n = area * UNIT;
        assert(n == area * 1_000_000);
        lemma_fundamental_div_mod(n, u);
        let q = n / u;
        assert(0 <= n % u < u);
        assert(q > 999_000 <==> area > 1_000_001_001) by (nonlinear_arith)
            requires
                n == u * q + n % u,
                0 <= n % u < u,
                n == area * 1_000_000,
                u == area + 1_000_000,
                area > 0,
        ;
    }
}

} // verus!
