//! Distances and the spatial covariance kernel.
//!
//! A point is a pair of binary64 coordinates, carried as bit patterns. The
//! distance and the kernel are the composition of the named scalar
//! operations of `fp`, in the exact order stated by their spec functions;
//! the executable functions additionally carry the properties of the kernel
//! at the boundary distances and the symmetry of the distance.

use vstd::prelude::*;
use crate::fp::{
    add_bits, sub_bits, mul_bits, div_bits, sqrt_bits, exp_bits,
    fp_add, fp_sub, fp_mul, fp_div, fp_sqrt, fp_exp,
    is_finite_bits, is_zero_bits, gt_zero_bits,
    POS_ZERO, ONE_BITS, NEG_THREE_BITS, POS_INF_BITS,
};
use crate::matrix::Matrix;

verus! {

/// A 2-D location; each coordinate is the bit pattern of a binary64 value.
#[derive(Clone, Copy)]
pub struct Point {
    pub x: u64,
    pub y: u64,
}

/// Both coordinates are finite.
pub open spec fn finite_point(p: Point) -> bool {
    is_finite_bits(p.x) && is_finite_bits(p.y)
}

/// The Euclidean distance between `(x1, y1)` and `(x2, y2)` in binary64
/// arithmetic: `sqrt((x1 - x2)^2 + (y1 - y2)^2)`, each square computed as a
/// product.
pub open spec fn dist_bits(x1: u64, y1: u64, x2: u64, y2: u64) -> u64 {
    sqrt_bits(add_bits(
        mul_bits(sub_bits(x1, x2), sub_bits(x1, x2)),
        mul_bits(sub_bits(y1, y2), sub_bits(y1, y2)),
    ))
}

/// Distance between points, as `dist_bits` states it. For finite
/// coordinates the distance is symmetric in its two points, and the
/// distance from a point to itself is exactly +0.0.
pub fn distance(x1: u64, y1: u64, x2: u64, y2: u64) -> (r: u64)
    ensures
        r == dist_bits(x1, y1, x2, y2),
        is_finite_bits(x1) && is_finite_bits(y1) && is_finite_bits(x2) && is_finite_bits(y2)
            ==> dist_bits(x2, y2, x1, y1) == r,
        x1 == x2 && y1 == y2 && is_finite_bits(x1) && is_finite_bits(y1) ==> r == POS_ZERO,
{
    proof {
        crate::fp::lemma_bit_classes();
    }
    let dx = fp_sub(x1, x2);
    let qx = fp_mul(dx, dx);
    let dy = fp_sub(y1, y2);
    let qy = fp_mul(dy, dy);
    let s = fp_add(qx, qy);
    let r = fp_sqrt(s);
    proof {
        if is_finite_bits(x1) && is_finite_bits(y1) && is_finite_bits(x2) && is_finite_bits(y2) {
            // The swapped difference is either the negation of a nonzero
            // difference (and squares of negations agree) or, when the
            // difference is a zero, the other zero at worst.
            crate::fp::lemma_zero_forms(dx);
            crate::fp::lemma_zero_forms(sub_bits(x2, x1));
            crate::fp::lemma_zero_forms(dy);
            crate::fp::lemma_zero_forms(sub_bits(y2, y1));
            assert(mul_bits(sub_bits(x2, x1), sub_bits(x2, x1)) == qx);
            assert(mul_bits(sub_bits(y2, y1), sub_bits(y2, y1)) == qy);
        }
    }
    r
}

/// The kernel parameters are positive finite values, the setting in which
/// the posterior model is stated.
pub open spec fn valid_params(cov0: u64, cov_inf: u64, h95: u64) -> bool {
    gt_zero_bits(cov0) && is_finite_bits(cov0)
    && gt_zero_bits(cov_inf) && is_finite_bits(cov_inf)
    && gt_zero_bits(h95) && is_finite_bits(h95)
}

/// The exponential-decay covariance kernel in binary64 arithmetic:
/// `cov0 - cov_inf * (1 - exp(-3 * d / h95))`.
pub open spec fn kernel_bits(cov0: u64, cov_inf: u64, h95: u64, d: u64) -> u64 {
    sub_bits(cov0, mul_bits(cov_inf, sub_bits(ONE_BITS, exp_bits(
        div_bits(mul_bits(NEG_THREE_BITS, d), h95),
    ))))
}

/// Covariance of two locations at distance `d`, as `kernel_bits` states it.
/// At distance +0.0 the kernel returns `cov0` exactly, and at distance
/// +infinity it returns the binary64 difference `cov0 - cov_inf`, its
/// asymptotic floor.
pub fn cov_value(cov0: u64, cov_inf: u64, h95: u64, d: u64) -> (r: u64)
    requires
        !is_zero_bits(h95),
    ensures
        r == kernel_bits(cov0, cov_inf, h95, d),
        d == POS_ZERO && valid_params(cov0, cov_inf, h95) ==> r == cov0,
        d == POS_INF_BITS && valid_params(cov0, cov_inf, h95) ==> r == sub_bits(cov0, cov_inf),
{
    proof {
        crate::fp::lemma_bit_classes();
    }
    let m = fp_mul(NEG_THREE_BITS, d);
    let q = fp_div(m, h95);
    let e = fp_exp(q);
    let u = fp_sub(ONE_BITS, e);
    let v = fp_mul(cov_inf, u);
    fp_sub(cov0, v)
}

/// The matrix of pairwise distances: entry `(i, j)` is the distance from
/// point `i` of `pos1` to point `j` of `pos2`.
pub open spec fn dist_mat_spec(pos1: Seq<Point>, pos2: Seq<Point>) -> Seq<Seq<u64>> {
    Seq::new(pos1.len(), |i: int| Seq::new(pos2.len(), |j: int|
        dist_bits(pos1[i].x, pos1[i].y, pos2[j].x, pos2[j].y)))
}

/// All points of the sequence have finite coordinates.
pub open spec fn finite_points(ps: Seq<Point>) -> bool {
    forall|i: int| 0 <= i < ps.len() ==> finite_point(#[trigger] ps[i])
}

/// Pairwise distance matrix. When every coordinate is finite, the
/// underlying distance is symmetric: the entry for the pair `(i, j)` equals
/// the distance taken in the opposite direction.
pub fn distance_matrix(pos1: &Vec<Point>, pos2: &Vec<Point>) -> (r: Matrix)
    ensures
        r.wf(),
        r.rows == pos1@.len(),
        r.cols == pos2@.len(),
        r.ent() == dist_mat_spec(pos1@, pos2@),
        finite_points(pos1@) && finite_points(pos2@)
            ==> forall|i: int, j: int| 0 <= i < pos1@.len() && 0 <= j < pos2@.len()
                ==> dist_bits(pos2@[j].x, pos2@[j].y, pos1@[i].x, pos1@[i].y)
                    == #[trigger] dist_mat_spec(pos1@, pos2@)[i][j],
        forall|i: int, j: int| 0 <= i < pos1@.len() && 0 <= j < pos2@.len()
            && pos1@[i].x == pos2@[j].x && pos1@[i].y == pos2@[j].y
            && finite_point(pos1@[i])
            ==> #[trigger] dist_mat_spec(pos1@, pos2@)[i][j] == POS_ZERO,
{
    let ghost gspec = dist_mat_spec(pos1@, pos2@);
    let r = pos1.len();
    let c = pos2.len();
    let mut data: Vec<Vec<u64>> = Vec::new();
    let mut i: usize = 0;
    while i < r
        invariant
            r == pos1@.len(),
            c == pos2@.len(),
            i <= r,
            data@.len() == i,
            gspec == dist_mat_spec(pos1@, pos2@),
            forall|ii: int| 0 <= ii < i ==> (#[trigger] data@[ii])@ == gspec[ii],
            forall|ii: int, jj: int| 0 <= ii < i && 0 <= jj < c
                && finite_point(pos1@[ii]) && finite_point(pos2@[jj])
                ==> dist_bits(pos2@[jj].x, pos2@[jj].y, pos1@[ii].x, pos1@[ii].y)
                    == #[trigger] gspec[ii][jj],
            forall|ii: int, jj: int| 0 <= ii < i && 0 <= jj < c
                && pos1@[ii].x == pos2@[jj].x && pos1@[ii].y == pos2@[jj].y
                && finite_point(pos1@[ii])
                ==> #[trigger] gspec[ii][jj] == POS_ZERO,
        decreases r - i,
    {
        let mut row: Vec<u64> = Vec::new();
        let mut j: usize = 0;
        while j < c
            invariant
                r == pos1@.len(),
                c == pos2@.len(),
                i < r,
                j <= c,
                row@.len() == j,
                gspec == dist_mat_spec(pos1@, pos2@),
                forall|jj: int| 0 <= jj < j ==> row@[jj] == gspec[i as int][jj],
                forall|jj: int| 0 <= jj < j
                    && finite_point(pos1@[i as int]) && finite_point(pos2@[jj])
                    ==> dist_bits(pos2@[jj].x, pos2@[jj].y, pos1@[i as int].x, pos1@[i as int].y)
                        == #[trigger] gspec[i as int][jj],
                forall|jj: int| 0 <= jj < j
                    && pos1@[i as int].x == pos2@[jj].x && pos1@[i as int].y == pos2@[jj].y
                    && finite_point(pos1@[i as int])
                    ==> #[trigger] gspec[i as int][jj] == POS_ZERO,
            decreases c - j,
        {
            let p = &pos1[i];
            let q = &pos2[j];
            let d = distance(p.x, p.y, q.x, q.y);
            row.push(d);
            j = j + 1;
        }
        proof {
            assert(row@ =~= gspec[i as int]);
        }
        data.push(row);
        i = i + 1;
    }
    let m = Matrix { rows: r, cols: c, data };
    proof {
        assert(m.ent() =~= gspec);
    }
    m
}

} // verus!
