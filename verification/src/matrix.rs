//! Dense matrices and vectors of binary64 bit patterns.
//!
//! Every operation has a functional contract: the result's entries are
//! pinned, entry by entry, to spec-level expressions over the named scalar
//! operations of `fp`, in the exact order the executable code applies them.

use vstd::prelude::*;
use crate::fp::{add_bits, sub_bits, mul_bits, fp_add, fp_sub, fp_mul};

verus! {

/// A rectangular matrix stored row-major; each entry is the bit pattern of
/// an IEEE-754 binary64 value.
pub struct Matrix {
    pub rows: usize,
    pub cols: usize,
    pub data: Vec<Vec<u64>>,
}

impl Matrix {
    /// The stored rows agree with the stated dimensions.
    pub open spec fn wf(self) -> bool {
        self.data@.len() == self.rows
        && forall|i: int| 0 <= i < self.rows ==> (#[trigger] self.data@[i])@.len() == self.cols
    }

    /// The entries as a sequence of row sequences.
    pub open spec fn ent(self) -> Seq<Seq<u64>> {
        Seq::new(self.data@.len(), |i: int| self.data@[i]@)
    }

    /// Entry access.
    pub fn get(&self, i: usize, j: usize) -> (r: u64)
        requires
            self.wf(),
            i < self.rows,
            j < self.cols,
        ensures
            r == self.ent()[i as int][j as int],
    {
        self.data[i][j]
    }
}

/// Column `j` of `m`, of length `n`.
pub open spec fn col_spec(m: Seq<Seq<u64>>, j: int, n: int) -> Seq<u64> {
    Seq::new(n as nat, |k: int| m[k][j])
}

/// Left-to-right accumulation of the first `k` products of paired entries:
/// `r[0]*c[0] + r[1]*c[1] + ...` in binary64 arithmetic.
pub open spec fn dot_spec(r: Seq<u64>, c: Seq<u64>, k: int) -> u64
    decreases k,
{
    if k <= 1 {
        mul_bits(r[0], c[0])
    } else {
        add_bits(dot_spec(r, c, k - 1), mul_bits(r[k - 1], c[k - 1]))
    }
}

/// The matrix product of `a` (with `inner` columns) and `b` (with `inner`
/// rows and `bcols` columns).
pub open spec fn mat_mul_spec(a: Seq<Seq<u64>>, b: Seq<Seq<u64>>, inner: int, bcols: int) -> Seq<Seq<u64>> {
    Seq::new(a.len(), |i: int| Seq::new(bcols as nat, |j: int| dot_spec(a[i], col_spec(b, j, inner), inner)))
}

/// The transpose of the `rows` x `cols` matrix `m`.
pub open spec fn transpose_spec(m: Seq<Seq<u64>>, rows: int, cols: int) -> Seq<Seq<u64>> {
    Seq::new(cols as nat, |i: int| Seq::new(rows as nat, |j: int| m[j][i]))
}

/// Elementwise binary64 difference of same-shape matrices.
pub open spec fn mat_sub_spec(a: Seq<Seq<u64>>, b: Seq<Seq<u64>>, cols: int) -> Seq<Seq<u64>> {
    Seq::new(a.len(), |i: int| Seq::new(cols as nat, |j: int| sub_bits(a[i][j], b[i][j])))
}

/// Elementwise binary64 sum of same-length vectors.
pub open spec fn vec_add_spec(a: Seq<u64>, b: Seq<u64>) -> Seq<u64> {
    Seq::new(a.len(), |i: int| add_bits(a[i], b[i]))
}

/// Elementwise binary64 difference of same-length vectors.
pub open spec fn vec_sub_spec(a: Seq<u64>, b: Seq<u64>) -> Seq<u64> {
    Seq::new(a.len(), |i: int| sub_bits(a[i], b[i]))
}

/// Matrix-vector product: row `i` of the result is the accumulated dot
/// product of row `i` of `a` with `v`.
pub open spec fn mat_vec_spec(a: Seq<Seq<u64>>, v: Seq<u64>, inner: int) -> Seq<u64> {
    Seq::new(a.len(), |i: int| dot_spec(a[i], v, inner))
}

/// Matrix product, accumulating each entry left to right.
pub fn mat_mul(a: &Matrix, b: &Matrix) -> (r: Matrix)
    requires
        a.wf(),
        b.wf(),
        a.cols == b.rows,
        a.cols >= 1,
    ensures
        r.wf(),
        r.rows == a.rows,
        r.cols == b.cols,
        r.ent() == mat_mul_spec(a.ent(), b.ent(), a.cols as int, b.cols as int),
{
    let ghost gspec = mat_mul_spec(a.ent(), b.ent(), a.cols as int, b.cols as int);
    let mut data: Vec<Vec<u64>> = Vec::new();
    let mut i: usize = 0;
    while i < a.rows
        invariant
            a.wf(),
            b.wf(),
            a.cols == b.rows,
            a.cols >= 1,
            i <= a.rows,
            data@.len() == i,
            gspec == mat_mul_spec(a.ent(), b.ent(), a.cols as int, b.cols as int),
            forall|ii: int| 0 <= ii < i ==> (#[trigger] data@[ii])@ == gspec[ii],
        decreases a.rows - i,
    {
        let mut row: Vec<u64> = Vec::new();
        let mut j: usize = 0;
        while j < b.cols
            invariant
                a.wf(),
                b.wf(),
                a.cols == b.rows,
                a.cols >= 1,
                i < a.rows,
                j <= b.cols,
                row@.len() == j,
                gspec == mat_mul_spec(a.ent(), b.ent(), a.cols as int, b.cols as int),
                forall|jj: int| 0 <= jj < j ==> row@[jj] == gspec[i as int][jj],
            decreases b.cols - j,
        {
            let mut s: u64 = fp_mul(a.data[i][0], b.data[0][j]);
            let mut k: usize = 1;
            while k < a.cols
                invariant
                    a.wf(),
                    b.wf(),
                    a.cols == b.rows,
                    a.cols >= 1,
                    i < a.rows,
                    j < b.cols,
                    1 <= k <= a.cols,
                    s == dot_spec(a.ent()[i as int], col_spec(b.ent(), j as int, a.cols as int), k as int),
                decreases a.cols - k,
            {
                s = fp_add(s, fp_mul(a.data[i][k], b.data[k][j]));
                k = k + 1;
            }
            row.push(s);
            j = j + 1;
        }
        proof {
            assert(row@ =~= gspec[i as int]);
        }
        data.push(row);
        i = i + 1;
    }
    let r = Matrix { rows: a.rows, cols: b.cols, data };
    proof {
        assert(r.ent() =~= gspec);
    }
    r
}

/// Transpose.
pub fn transpose(m: &Matrix) -> (r: Matrix)
    requires
        m.wf(),
    ensures
        r.wf(),
        r.rows == m.cols,
        r.cols == m.rows,
        r.ent() == transpose_spec(m.ent(), m.rows as int, m.cols as int),
{
    let ghost gspec = transpose_spec(m.ent(), m.rows as int, m.cols as int);
    let mut data: Vec<Vec<u64>> = Vec::new();
    let mut i: usize = 0;
    while i < m.cols
        invariant
            m.wf(),
            i <= m.cols,
            data@.len() == i,
            gspec == transpose_spec(m.ent(), m.rows as int, m.cols as int),
            forall|ii: int| 0 <= ii < i ==> (#[trigger] data@[ii])@ == gspec[ii],
        decreases m.cols - i,
    {
        let mut row: Vec<u64> = Vec::new();
        let mut j: usize = 0;
        while j < m.rows
            invariant
                m.wf(),
                i < m.cols,
                j <= m.rows,
                row@.len() == j,
                gspec == transpose_spec(m.ent(), m.rows as int, m.cols as int),
                forall|jj: int| 0 <= jj < j ==> row@[jj] == gspec[i as int][jj],
            decreases m.rows - j,
        {
            row.push(m.data[j][i]);
            j = j + 1;
        }
        proof {
            assert(row@ =~= gspec[i as int]);
        }
        data.push(row);
        i = i + 1;
    }
    let r = Matrix { rows: m.cols, cols: m.rows, data };
    proof {
        assert(r.ent() =~= gspec);
    }
    r
}

/// Elementwise difference of same-shape matrices.
pub fn mat_sub(a: &Matrix, b: &Matrix) -> (r: Matrix)
    requires
        a.wf(),
        b.wf(),
        a.rows == b.rows,
        a.cols == b.cols,
    ensures
        r.wf(),
        r.rows == a.rows,
        r.cols == a.cols,
        r.ent() == mat_sub_spec(a.ent(), b.ent(), a.cols as int),
{
    let ghost gspec = mat_sub_spec(a.ent(), b.ent(), a.cols as int);
    let mut data: Vec<Vec<u64>> = Vec::new();
    let mut i: usize = 0;
    while i < a.rows
        invariant
            a.wf(),
            b.wf(),
            a.rows == b.rows,
            a.cols == b.cols,
            i <= a.rows,
            data@.len() == i,
            gspec == mat_sub_spec(a.ent(), b.ent(), a.cols as int),
            forall|ii: int| 0 <= ii < i ==> (#[trigger] data@[ii])@ == gspec[ii],
        decreases a.rows - i,
    {
        let mut row: Vec<u64> = Vec::new();
        let mut j: usize = 0;
        while j < a.cols
            invariant
                a.wf(),
                b.wf(),
                a.rows == b.rows,
                a.cols == b.cols,
                i < a.rows,
                j <= a.cols,
                row@.len() == j,
                gspec == mat_sub_spec(a.ent(), b.ent(), a.cols as int),
                forall|jj: int| 0 <= jj < j ==> row@[jj] == gspec[i as int][jj],
            decreases a.cols - j,
        {
            row.push(fp_sub(a.data[i][j], b.data[i][j]));
            j = j + 1;
        }
        proof {
            assert(row@ =~= gspec[i as int]);
        }
        data.push(row);
        i = i + 1;
    }
    let r = Matrix { rows: a.rows, cols: a.cols, data };
    proof {
        assert(r.ent() =~= gspec);
    }
    r
}

/// Elementwise sum of same-length vectors.
pub fn vec_add(a: &Vec<u64>, b: &Vec<u64>) -> (r: Vec<u64>)
    requires
        a@.len() == b@.len(),
    ensures
        r@ == vec_add_spec(a@, b@),
{
    let mut out: Vec<u64> = Vec::new();
    let mut i: usize = 0;
    while i < a.len()
        invariant
            a@.len() == b@.len(),
            i <= a@.len(),
            out@.len() == i,
            forall|ii: int| 0 <= ii < i ==> out@[ii] == vec_add_spec(a@, b@)[ii],
        decreases a@.len() - i,
    {
        out.push(fp_add(a[i], b[i]));
        i = i + 1;
    }
    proof {
        assert(out@ =~= vec_add_spec(a@, b@));
    }
    out
}

/// Elementwise difference of same-length vectors.
pub fn vec_sub(a: &Vec<u64>, b: &Vec<u64>) -> (r: Vec<u64>)
    requires
        a@.len() == b@.len(),
    ensures
        r@ == vec_sub_spec(a@, b@),
{
    let mut out: Vec<u64> = Vec::new();
    let mut i: usize = 0;
    while i < a.len()
        invariant
            a@.len() == b@.len(),
            i <= a@.len(),
            out@.len() == i,
            forall|ii: int| 0 <= ii < i ==> out@[ii] == vec_sub_spec(a@, b@)[ii],
        decreases a@.len() - i,
    {
        out.push(fp_sub(a[i], b[i]));
        i = i + 1;
    }
    proof {
        assert(out@ =~= vec_sub_spec(a@, b@));
    }
    out
}

/// Matrix-vector product, accumulating each entry left to right.
pub fn mat_vec_mul(a: &Matrix, v: &Vec<u64>) -> (r: Vec<u64>)
    requires
        a.wf(),
        a.cols == v@.len(),
        a.cols >= 1,
    ensures
        r@ == mat_vec_spec(a.ent(), v@, a.cols as int),
{
    let ghost gspec = mat_vec_spec(a.ent(), v@, a.cols as int);
    let mut out: Vec<u64> = Vec::new();
    let mut i: usize = 0;
    while i < a.rows
        invariant
            a.wf(),
            a.cols == v@.len(),
            a.cols >= 1,
            i <= a.rows,
            out@.len() == i,
            gspec == mat_vec_spec(a.ent(), v@, a.cols as int),
            forall|ii: int| 0 <= ii < i ==> out@[ii] == gspec[ii],
        decreases a.rows - i,
    {
        let mut s: u64 = fp_mul(a.data[i][0], v[0]);
        let mut k: usize = 1;
        while k < a.cols
            invariant
                a.wf(),
                a.cols == v@.len(),
                a.cols >= 1,
                i < a.rows,
                1 <= k <= a.cols,
                s == dot_spec(a.ent()[i as int], v@, k as int),
            decreases a.cols - k,
        {
            s = fp_add(s, fp_mul(a.data[i][k], v[k]));
            k = k + 1;
        }
        out.push(s);
        i = i + 1;
    }
    proof {
        assert(out@ =~= gspec);
    }
    out
}

} // verus!
