//! Cholesky factorization and inversion through the factor.
//!
//! A symmetric positive-definite matrix `A` factors as `L * L^T` with `L`
//! lower triangular. The factor is stored transposed (row `j` of the stored
//! matrix is column `j` of `L`), which lets the factorization build it one
//! complete row at a time. The inverse of `A` is recovered by solving
//! `L y = e_c` and then `L^T x = y` for each unit vector `e_c`.
//!
//! Every value is pinned by a spec-level recurrence over the named scalar
//! operations of `fp`, in the exact order the loops apply them; the
//! factorization reports failure exactly when some pivot reduction is not a
//! positive value.

use vstd::prelude::*;
use crate::fp::{
    sub_bits, mul_bits, div_bits, sqrt_bits,
    fp_sub, fp_mul, fp_div, fp_sqrt, positive_bits,
    gt_zero_bits, POS_ZERO, ONE_BITS,
};
use crate::matrix::{Matrix, transpose, transpose_spec};

verus! {

/// The rows of a vector of rows, as a sequence of sequences.
pub open spec fn rows_view(v: Seq<Vec<u64>>) -> Seq<Seq<u64>> {
    Seq::new(v.len(), |i: int| v[i]@)
}

/// `a[i][j]` minus the first `k` products `L[i][t] * L[j][t]` (with
/// `L[i][t]` stored as `lt[t][i]`), accumulated left to right.
pub open spec fn red_spec(lt: Seq<Seq<u64>>, a: Seq<Seq<u64>>, i: int, j: int, k: int) -> u64
    decreases k,
{
    if k <= 0 {
        a[i][j]
    } else {
        sub_bits(red_spec(lt, a, i, j, k - 1), mul_bits(lt[k - 1][i], lt[k - 1][j]))
    }
}

/// Row `j` of the stored (transposed) factor, given the rows before it:
/// zeros left of the diagonal, the square root of the reduced pivot on it,
/// and reduced entries divided by that square root after it.
pub open spec fn lt_row_spec(lt: Seq<Seq<u64>>, a: Seq<Seq<u64>>, n: int, j: int) -> Seq<u64> {
    Seq::new(n as nat, |i: int|
        if i < j {
            POS_ZERO
        } else if i == j {
            sqrt_bits(red_spec(lt, a, j, j, j))
        } else {
            div_bits(red_spec(lt, a, i, j, j), sqrt_bits(red_spec(lt, a, j, j, j)))
        })
}

/// The first `j` rows of the stored factor of the `n` x `n` matrix `a`.
pub open spec fn lt_upto(a: Seq<Seq<u64>>, n: int, j: int) -> Seq<Seq<u64>>
    decreases j,
{
    if j <= 0 {
        Seq::empty()
    } else {
        let p = lt_upto(a, n, j - 1);
        p.push(lt_row_spec(p, a, n, j - 1))
    }
}

/// The reduced pivot of column `j`.
pub open spec fn pivot_spec(a: Seq<Seq<u64>>, n: int, j: int) -> u64 {
    red_spec(lt_upto(a, n, j), a, j, j, j)
}

/// The first `j` pivots are positive values.
pub open spec fn chol_ok_upto(a: Seq<Seq<u64>>, n: int, j: int) -> bool {
    forall|k: int| 0 <= k < j ==> gt_zero_bits(#[trigger] pivot_spec(a, n, k))
}

/// The factorization of the `n` x `n` matrix `a` succeeds.
pub open spec fn chol_ok(a: Seq<Seq<u64>>, n: int) -> bool {
    chol_ok_upto(a, n, n)
}

/// The complete stored factor.
pub open spec fn chol_upper_spec(a: Seq<Seq<u64>>, n: int) -> Seq<Seq<u64>> {
    lt_upto(a, n, n)
}

/// The partial factor has `j` rows of length `n`.
pub proof fn lemma_lt_upto_len(a: Seq<Seq<u64>>, n: int, j: int)
    requires
        n >= 0,
        j >= 0,
    ensures
        lt_upto(a, n, j).len() == j,
        forall|r: int| 0 <= r < j ==> (#[trigger] lt_upto(a, n, j)[r]).len() == n,
    decreases j,
{
    if j > 0 {
        lemma_lt_upto_len(a, n, j - 1);
    }
}

/// Cholesky factorization, returning the factor stored transposed (row `j`
/// holds column `j` of the lower-triangular factor), or `None` exactly when
/// some reduced pivot is not a positive value.
pub fn cholesky_upper(a: &Matrix) -> (r: Option<Matrix>)
    requires
        a.wf(),
        a.rows == a.cols,
    ensures
        match r {
            Some(u) => u.wf() && u.rows == a.rows && u.cols == a.rows
                && chol_ok(a.ent(), a.rows as int)
                && u.ent() == chol_upper_spec(a.ent(), a.rows as int),
            None => !chol_ok(a.ent(), a.rows as int),
        },
{
    let n = a.rows;
    let mut lt: Vec<Vec<u64>> = Vec::new();
    let mut j: usize = 0;
    while j < n
        invariant
            a.wf(),
            a.rows == n,
            a.cols == n,
            j <= n,
            lt@.len() == j,
            forall|r: int| 0 <= r < j ==> (#[trigger] lt@[r])@.len() == n,
            rows_view(lt@) == lt_upto(a.ent(), n as int, j as int),
            chol_ok_upto(a.ent(), n as int, j as int),
        decreases n - j,
    {
        proof {
            lemma_lt_upto_len(a.ent(), n as int, j as int);
        }
        let ghost ltv = lt_upto(a.ent(), n as int, j as int);
        let mut s: u64 = a.data[j][j];
        let mut k: usize = 0;
        while k < j
            invariant
                a.wf(),
                a.rows == n,
                a.cols == n,
                j < n,
                k <= j,
                lt@.len() == j,
                forall|r: int| 0 <= r < j ==> (#[trigger] lt@[r])@.len() == n,
                rows_view(lt@) == ltv,
                ltv.len() == j,
                forall|r: int| 0 <= r < j ==> (#[trigger] ltv[r]).len() == n,
                s == red_spec(ltv, a.ent(), j as int, j as int, k as int),
            decreases j - k,
        {
            s = fp_sub(s, fp_mul(lt[k][j], lt[k][j]));
            k = k + 1;
        }
        if !positive_bits(s) {
            proof {
                assert(!gt_zero_bits(pivot_spec(a.ent(), n as int, j as int)));
            }
            return None;
        }
        let piv = fp_sqrt(s);
        let mut row: Vec<u64> = Vec::new();
        let ghost rspec = lt_row_spec(ltv, a.ent(), n as int, j as int);
        let mut c: usize = 0;
        while c < j
            invariant
                c <= j,
                j < n,
                row@.len() == c,
                rspec == lt_row_spec(ltv, a.ent(), n as int, j as int),
                forall|ii: int| 0 <= ii < c ==> row@[ii] == rspec[ii],
            decreases j - c,
        {
            row.push(POS_ZERO);
            c = c + 1;
        }
        row.push(piv);
        let mut i: usize = j + 1;
        while i < n
            invariant
                a.wf(),
                a.rows == n,
                a.cols == n,
                j < n,
                j + 1 <= i <= n,
                lt@.len() == j,
                forall|r: int| 0 <= r < j ==> (#[trigger] lt@[r])@.len() == n,
                rows_view(lt@) == ltv,
                ltv.len() == j,
                forall|r: int| 0 <= r < j ==> (#[trigger] ltv[r]).len() == n,
                row@.len() == i,
                s == red_spec(ltv, a.ent(), j as int, j as int, j as int),
                piv == sqrt_bits(red_spec(ltv, a.ent(), j as int, j as int, j as int)),
                rspec == lt_row_spec(ltv, a.ent(), n as int, j as int),
                forall|ii: int| 0 <= ii < i ==> row@[ii] == rspec[ii],
            decreases n - i,
        {
            let mut t: u64 = a.data[i][j];
            let mut k2: usize = 0;
            while k2 < j
                invariant
                    a.wf(),
                    a.rows == n,
                    a.cols == n,
                    j < n,
                    i < n,
                    k2 <= j,
                    lt@.len() == j,
                    forall|r: int| 0 <= r < j ==> (#[trigger] lt@[r])@.len() == n,
                    rows_view(lt@) == ltv,
                    ltv.len() == j,
                    forall|r: int| 0 <= r < j ==> (#[trigger] ltv[r]).len() == n,
                    t == red_spec(ltv, a.ent(), i as int, j as int, k2 as int),
                decreases j - k2,
            {
                t = fp_sub(t, fp_mul(lt[k2][i], lt[k2][j]));
                k2 = k2 + 1;
            }
            row.push(fp_div(t, piv));
            i = i + 1;
        }
        proof {
            assert(row@ =~= rspec);
            assert(rows_view(lt@.push(row)) =~= ltv.push(rspec));
        }
        lt.push(row);
        j = j + 1;
    }
    let m = Matrix { rows: n, cols: n, data: lt };
    proof {
        lemma_lt_upto_len(a.ent(), n as int, n as int);
        assert(m.ent() =~= rows_view(lt@));
        assert forall|r: int| 0 <= r < n implies (#[trigger] m.data@[r])@.len() == n by {
            assert(m.ent()[r].len() == n);
        }
    }
    Some(m)
}

/// The running value of the forward-substitution reduction for row `i`:
/// `b[i]` minus the first `k` products `L[i][t] * y[t]`.
pub open spec fn fsum_spec(lt: Seq<Seq<u64>>, y: Seq<u64>, i: int, bi: u64, k: int) -> u64
    decreases k,
{
    if k <= 0 {
        bi
    } else {
        sub_bits(fsum_spec(lt, y, i, bi, k - 1), mul_bits(lt[k - 1][i], y[k - 1]))
    }
}

/// The first `i` entries of the solution of `L y = b`, built top down.
pub open spec fn fwd_upto(lt: Seq<Seq<u64>>, b: Seq<u64>, i: int) -> Seq<u64>
    decreases i,
{
    if i <= 0 {
        Seq::empty()
    } else {
        let p = fwd_upto(lt, b, i - 1);
        p.push(div_bits(fsum_spec(lt, p, i - 1, b[i - 1], i - 1), lt[i - 1][i - 1]))
    }
}

/// Solve `L y = b` by forward substitution, `L` given through its stored
/// transpose.
pub fn fwd_solve(ut: &Matrix, b: &Vec<u64>) -> (r: Vec<u64>)
    requires
        ut.wf(),
        ut.rows == ut.cols,
        b@.len() == ut.rows,
    ensures
        r@ == fwd_upto(ut.ent(), b@, ut.rows as int),
        r@.len() == ut.rows,
{
    let n = ut.rows;
    let mut y: Vec<u64> = Vec::new();
    let mut i: usize = 0;
    while i < n
        invariant
            ut.wf(),
            ut.rows == n,
            ut.cols == n,
            b@.len() == n,
            i <= n,
            y@.len() == i,
            y@ == fwd_upto(ut.ent(), b@, i as int),
        decreases n - i,
    {
        let mut s: u64 = b[i];
        let mut k: usize = 0;
        while k < i
            invariant
                ut.wf(),
                ut.rows == n,
                ut.cols == n,
                b@.len() == n,
                i < n,
                k <= i,
                y@.len() == i,
                s == fsum_spec(ut.ent(), y@, i as int, b@[i as int], k as int),
            decreases i - k,
        {
            s = fp_sub(s, fp_mul(ut.data[k][i], y[k]));
            k = k + 1;
        }
        y.push(fp_div(s, ut.data[i][i]));
        i = i + 1;
    }
    y
}

/// The running value of the back-substitution reduction for row `i`:
/// `y[i]` minus the products `L[t][i] * x[t]` for `t` from `i + 1` up to
/// `k - 1`, the solved entries `x[t]` held reversed in `xr`.
pub open spec fn bsum_spec(ut: Seq<Seq<u64>>, xr: Seq<u64>, n: int, i: int, yi: u64, k: int) -> u64
    decreases k - i,
{
    if k <= i + 1 {
        yi
    } else {
        sub_bits(bsum_spec(ut, xr, n, i, yi, k - 1), mul_bits(ut[i][k - 1], xr[n - k]))
    }
}

/// The last `m` entries of the solution of `L^T x = y`, built bottom up and
/// held reversed (entry `t` of the result is row `n - 1 - t` of the
/// solution).
pub open spec fn bwd_upto(ut: Seq<Seq<u64>>, y: Seq<u64>, n: int, m: int) -> Seq<u64>
    decreases m,
{
    if m <= 0 {
        Seq::empty()
    } else {
        let p = bwd_upto(ut, y, n, m - 1);
        let i = n - m;
        p.push(div_bits(bsum_spec(ut, p, n, i, y[i], n), ut[i][i]))
    }
}

/// The solution of `L^T x = y` in natural order.
pub open spec fn bwd_solve_spec(ut: Seq<Seq<u64>>, y: Seq<u64>, n: int) -> Seq<u64> {
    Seq::new(n as nat, |i: int| bwd_upto(ut, y, n, n)[n - 1 - i])
}

/// Solve `L^T x = y` by back substitution, `L` given through its stored
/// transpose.
pub fn bwd_solve(ut: &Matrix, y: &Vec<u64>) -> (r: Vec<u64>)
    requires
        ut.wf(),
        ut.rows == ut.cols,
        y@.len() == ut.rows,
    ensures
        r@ == bwd_solve_spec(ut.ent(), y@, ut.rows as int),
        r@.len() == ut.rows,
{
    let n = ut.rows;
    let mut xr: Vec<u64> = Vec::new();
    let mut m: usize = 0;
    while m < n
        invariant
            ut.wf(),
            ut.rows == n,
            ut.cols == n,
            y@.len() == n,
            m <= n,
            xr@.len() == m,
            xr@ == bwd_upto(ut.ent(), y@, n as int, m as int),
        decreases n - m,
    {
        let i = n - 1 - m;
        let mut s: u64 = y[i];
        let mut k: usize = i + 1;
        while k < n
            invariant
                ut.wf(),
                ut.rows == n,
                ut.cols == n,
                y@.len() == n,
                m < n,
                i == n - 1 - m,
                i + 1 <= k <= n,
                xr@.len() == m,
                s == bsum_spec(ut.ent(), xr@, n as int, i as int, y@[i as int], k as int),
            decreases n - k,
        {
            s = fp_sub(s, fp_mul(ut.data[i][k], xr[n - 1 - k]));
            k = k + 1;
        }
        xr.push(fp_div(s, ut.data[i][i]));
        m = m + 1;
    }
    let mut x: Vec<u64> = Vec::new();
    let mut t: usize = 0;
    while t < n
        invariant
            t <= n,
            xr@.len() == n,
            x@.len() == t,
            xr@ == bwd_upto(ut.ent(), y@, n as int, n as int),
            forall|ii: int| 0 <= ii < t ==> x@[ii] == xr@[n - 1 - ii],
        decreases n - t,
    {
        x.push(xr[n - 1 - t]);
        t = t + 1;
    }
    proof {
        assert(x@ =~= bwd_solve_spec(ut.ent(), y@, n as int));
    }
    x
}

/// The unit vector of length `n` with 1.0 at index `c`.
pub open spec fn unit_spec(n: int, c: int) -> Seq<u64> {
    Seq::new(n as nat, |i: int| if i == c { ONE_BITS } else { POS_ZERO })
}

/// The inverse recovered from the stored factor: column `c` solves the two
/// triangular systems against the unit vector `e_c`.
pub open spec fn inv_spec(ut: Seq<Seq<u64>>, n: int) -> Seq<Seq<u64>> {
    transpose_spec(
        Seq::new(n as nat, |c: int| bwd_solve_spec(ut, fwd_upto(ut, unit_spec(n, c), n), n)),
        n,
        n,
    )
}

/// Invert the factored matrix: solve the two triangular systems for each
/// unit vector and lay the solutions out as columns.
pub fn chol_inverse(ut: &Matrix) -> (r: Matrix)
    requires
        ut.wf(),
        ut.rows == ut.cols,
    ensures
        r.wf(),
        r.rows == ut.rows,
        r.cols == ut.rows,
        r.ent() == inv_spec(ut.ent(), ut.rows as int),
{
    let n = ut.rows;
    let ghost colspec = Seq::new(n as nat, |c: int|
        bwd_solve_spec(ut.ent(), fwd_upto(ut.ent(), unit_spec(n as int, c), n as int), n as int));
    let mut cols: Vec<Vec<u64>> = Vec::new();
    let mut c: usize = 0;
    while c < n
        invariant
            ut.wf(),
            ut.rows == n,
            ut.cols == n,
            c <= n,
            cols@.len() == c,
            colspec == Seq::new(n as nat, |cc: int|
                bwd_solve_spec(ut.ent(), fwd_upto(ut.ent(), unit_spec(n as int, cc), n as int), n as int)),
            forall|cc: int| 0 <= cc < c ==> (#[trigger] cols@[cc])@ == colspec[cc],
        decreases n - c,
    {
        let mut e: Vec<u64> = Vec::new();
        let mut i: usize = 0;
        while i < n
            invariant
                i <= n,
                c < n,
                e@.len() == i,
                forall|ii: int| 0 <= ii < i ==> e@[ii] == unit_spec(n as int, c as int)[ii],
            decreases n - i,
        {
            if i == c {
                e.push(ONE_BITS);
            } else {
                e.push(POS_ZERO);
            }
            i = i + 1;
        }
        proof {
            assert(e@ =~= unit_spec(n as int, c as int));
        }
        let y = fwd_solve(ut, &e);
        let x = bwd_solve(ut, &y);
        cols.push(x);
        c = c + 1;
    }
    let cm = Matrix { rows: n, cols: n, data: cols };
    proof {
        assert forall|cc: int| 0 <= cc < n implies (#[trigger] cm.data@[cc])@.len() == n by {
            assert(cm.data@[cc]@ == colspec[cc]);
        }
        assert(cm.ent() =~= colspec);
    }
    let r = transpose(&cm);
    proof {
        assert(r.ent() =~= inv_spec(ut.ent(), n as int));
    }
    r
}

} // verus!
