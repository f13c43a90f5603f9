//! The posterior solver: covariance matrices and conditional-Gaussian
//! updates.
//!
//! Given sample locations with observed values and target locations, the
//! solver builds the sample-sample, target-sample and target-target
//! covariance matrices from the kernel, inverts the sample-sample block
//! through its Cholesky factorization, and forms the conditional mean and
//! covariance. Every function's result is pinned to a spec-level expression
//! over the named scalar operations, so repeated calls with identical
//! inputs are bit-identical by contract.

use vstd::prelude::*;
use crate::fp::{is_zero_bits, zero_value_bits, POS_ZERO};
use crate::geometry::{
    Point, cov_value, distance_matrix, dist_bits, dist_mat_spec, kernel_bits,
    finite_point, finite_points, valid_params,
};
use crate::matrix::{
    Matrix, mat_mul, mat_sub, mat_vec_mul, transpose, vec_add, vec_sub,
    mat_mul_spec, mat_sub_spec, mat_vec_spec, transpose_spec, vec_add_spec, vec_sub_spec,
};
use crate::chol::{cholesky_upper, chol_inverse, chol_ok, chol_upper_spec, inv_spec};

verus! {

/// Why a computation was refused or abandoned.
#[derive(Clone, Copy, Debug, PartialEq, Eq, Structural)]
pub enum Error {
    /// A value or mean vector's length does not match its point set's row
    /// count, or there are no sample points at all.
    DimensionMismatch,
    /// The kernel's distance scale `h95` is zero, which would divide by
    /// zero inside the kernel.
    InvalidKernelConfig,
    /// The sample-sample covariance matrix is not positive definite, so its
    /// Cholesky factorization fails.
    NotPositiveDefinite,
    /// The operation is a declared placeholder that performs no
    /// computation.
    Unimplemented,
}

/// The posterior distribution at the target points: a mean vector and a
/// covariance matrix, both over binary64 bit patterns.
pub struct GaussianResult {
    /// Posterior mean, one entry per target point.
    pub mean: Vec<u64>,
    /// Posterior covariance, target x target.
    pub var: Matrix,
}

/// The covariance matrix between two point sets: the kernel applied to
/// every pairwise distance.
pub open spec fn cov_mat_spec(cov0: u64, cov_inf: u64, h95: u64, pos1: Seq<Point>, pos2: Seq<Point>) -> Seq<Seq<u64>> {
    Seq::new(pos1.len(), |i: int| Seq::new(pos2.len(), |j: int|
        kernel_bits(cov0, cov_inf, h95, dist_bits(pos1[i].x, pos1[i].y, pos2[j].x, pos2[j].y))))
}

/// Covariance matrix between two point sets, for an already validated
/// kernel configuration.
#[verifier::loop_isolation(false)]
fn cov_matrix_for(cov0: u64, cov_inf: u64, h95: u64, pos1: &Vec<Point>, pos2: &Vec<Point>) -> (r: Matrix)
    requires
        !is_zero_bits(h95),
    ensures
        r.wf(),
        r.rows == pos1@.len(),
        r.cols == pos2@.len(),
        r.ent() == cov_mat_spec(cov0, cov_inf, h95, pos1@, pos2@),
        pos1@ == pos2@ && finite_points(pos1@) ==> forall|i: int, j: int|
            0 <= i < pos1@.len() && 0 <= j < pos1@.len()
            ==> #[trigger] cov_mat_spec(cov0, cov_inf, h95, pos1@, pos2@)[i][j]
                == cov_mat_spec(cov0, cov_inf, h95, pos1@, pos2@)[j][i],
        pos1@ == pos2@ && finite_points(pos1@) && valid_params(cov0, cov_inf, h95)
            ==> forall|i: int| 0 <= i < pos1@.len()
                ==> #[trigger] cov_mat_spec(cov0, cov_inf, h95, pos1@, pos2@)[i][i] == cov0,
{
    let ghost gspec = cov_mat_spec(cov0, cov_inf, h95, pos1@, pos2@);
    let d = distance_matrix(pos1, pos2);
    let rws = d.rows;
    let cls = d.cols;
    let mut data: Vec<Vec<u64>> = Vec::new();
    let mut i: usize = 0;
    while i < rws
        invariant
            d.wf(),
            d.rows == rws,
            d.cols == cls,
            rws == pos1@.len(),
            cls == pos2@.len(),
            !is_zero_bits(h95),
            d.ent() == dist_mat_spec(pos1@, pos2@),
            i <= rws,
            data@.len() == i,
            gspec == cov_mat_spec(cov0, cov_inf, h95, pos1@, pos2@),
            forall|ii: int| 0 <= ii < i ==> (#[trigger] data@[ii])@ == gspec[ii],
            pos1@ == pos2@ && finite_points(pos1@) && valid_params(cov0, cov_inf, h95)
                && i > 0 && cls > 0
                ==> kernel_bits(cov0, cov_inf, h95, POS_ZERO) == cov0,
        decreases rws - i,
    {
        let mut row: Vec<u64> = Vec::new();
        let mut j: usize = 0;
        while j < cls
            invariant
                d.wf(),
                d.rows == rws,
                d.cols == cls,
                rws == pos1@.len(),
                cls == pos2@.len(),
                !is_zero_bits(h95),
                d.ent() == dist_mat_spec(pos1@, pos2@),
                i < rws,
                j <= cls,
                row@.len() == j,
                gspec == cov_mat_spec(cov0, cov_inf, h95, pos1@, pos2@),
                forall|jj: int| 0 <= jj < j ==> row@[jj] == gspec[i as int][jj],
                pos1@ == pos2@ && finite_points(pos1@) && valid_params(cov0, cov_inf, h95)
                    && (j > i || i > 0)
                    ==> kernel_bits(cov0, cov_inf, h95, POS_ZERO) == cov0,
            decreases cls - j,
        {
            let dij = d.data[i][j];
            proof {
                assert(dij == dist_mat_spec(pos1@, pos2@)[i as int][j as int]);
            }
            let v = cov_value(cov0, cov_inf, h95, dij);
            proof {
                if pos1@ == pos2@ && finite_points(pos1@) && valid_params(cov0, cov_inf, h95)
                    && i == j {
                    assert(finite_point(pos1@[i as int]));
                    assert(pos1@[i as int].x == pos2@[j as int].x
                        && pos1@[i as int].y == pos2@[j as int].y);
                    assert(dist_mat_spec(pos1@, pos2@)[i as int][j as int] == POS_ZERO);
                    assert(dij == POS_ZERO);
                }
            }
            row.push(v);
            j = j + 1;
        }
        proof {
            assert(row@ =~= gspec[i as int]);
        }
        data.push(row);
        i = i + 1;
    }
    let m = Matrix { rows: rws, cols: cls, data };
    proof {
        assert(m.ent() =~= gspec);
        if pos1@ == pos2@ && finite_points(pos1@) {
            assert forall|i: int, j: int| 0 <= i < pos1@.len() && 0 <= j < pos1@.len()
                implies #[trigger] gspec[i][j] == gspec[j][i] by {
                assert(finite_point(pos1@[i]));
                assert(finite_point(pos1@[j]));
                assert(dist_bits(pos2@[j].x, pos2@[j].y, pos1@[i].x, pos1@[i].y)
                    == dist_mat_spec(pos1@, pos2@)[i][j]);
                assert(dist_mat_spec(pos1@, pos2@)[i][j]
                    == dist_bits(pos1@[i].x, pos1@[i].y, pos2@[j].x, pos2@[j].y));
            }
            if valid_params(cov0, cov_inf, h95) {
                assert forall|i: int| 0 <= i < pos1@.len()
                    implies #[trigger] gspec[i][i] == cov0 by {
                    assert(finite_point(pos1@[i]));
                    assert(dist_mat_spec(pos1@, pos2@)[i][i] == POS_ZERO);
                }
            }
        }
    }
    m
}

/// Covariance matrix between two point sets under the exponential-decay
/// kernel. Fails exactly when `h95` is zero, the invalid kernel
/// configuration. On success the entries are the kernel applied to the
/// pairwise distances; when both point sets are the same finite sequence
/// the matrix is symmetric, and with positive finite parameters its
/// diagonal is exactly `cov0`.
pub fn create_cov_matrix(cov0: u64, cov_inf: u64, h95: u64, pos1: &Vec<Point>, pos2: &Vec<Point>) -> (r: Result<Matrix, Error>)
    ensures
        match r {
            Ok(m) => !is_zero_bits(h95)
                && m.wf()
                && m.rows == pos1@.len()
                && m.cols == pos2@.len()
                && m.ent() == cov_mat_spec(cov0, cov_inf, h95, pos1@, pos2@)
                && (pos1@ == pos2@ && finite_points(pos1@) ==> forall|i: int, j: int|
                    0 <= i < pos1@.len() && 0 <= j < pos1@.len()
                    ==> #[trigger] m.ent()[i][j] == m.ent()[j][i])
                && (pos1@ == pos2@ && finite_points(pos1@) && valid_params(cov0, cov_inf, h95)
                    ==> forall|i: int| 0 <= i < pos1@.len() ==> #[trigger] m.ent()[i][i] == cov0),
            Err(e) => is_zero_bits(h95) && e == Error::InvalidKernelConfig,
        },
{
    if zero_value_bits(h95) {
        return Err(Error::InvalidKernelConfig);
    }
    Ok(cov_matrix_for(cov0, cov_inf, h95, pos1, pos2))
}

/// The conditional mean: `mu_r + sigma_rs * sigma_inv_ss * (y_s - mu_s)`.
pub open spec fn mean_spec(mur: Seq<u64>, mus: Seq<u64>, ys: Seq<u64>, srs: Seq<Seq<u64>>, sinv: Seq<Seq<u64>>, s: int) -> Seq<u64> {
    vec_add_spec(mur, mat_vec_spec(mat_mul_spec(srs, sinv, s, s), vec_sub_spec(ys, mus), s))
}

/// The conditional covariance: `sigma_rr - sigma_rs * sigma_inv_ss *
/// sigma_sr`.
pub open spec fn var_spec(srr: Seq<Seq<u64>>, srs: Seq<Seq<u64>>, sinv: Seq<Seq<u64>>, ssr: Seq<Seq<u64>>, s: int, t: int) -> Seq<Seq<u64>> {
    mat_sub_spec(srr, mat_mul_spec(mat_mul_spec(srs, sinv, s, s), ssr, s, t), t)
}

/// The conditional-Gaussian mean update: the target prior means adjusted by
/// the cross-covariance-weighted residual of the observed values from their
/// prior means.
pub fn gaussian_mean(mu_r: &Vec<u64>, mu_s: &Vec<u64>, y_s: &Vec<u64>, sigma_rs: &Matrix, sigma_inv_ss: &Matrix) -> (r: Vec<u64>)
    requires
        sigma_rs.wf(),
        sigma_inv_ss.wf(),
        sigma_rs.cols >= 1,
        sigma_inv_ss.rows == sigma_rs.cols,
        sigma_inv_ss.cols == sigma_rs.cols,
        mu_s@.len() == sigma_rs.cols,
        y_s@.len() == sigma_rs.cols,
        mu_r@.len() == sigma_rs.rows,
    ensures
        r@ == mean_spec(mu_r@, mu_s@, y_s@, sigma_rs.ent(), sigma_inv_ss.ent(), sigma_rs.cols as int),
        r@.len() == mu_r@.len(),
{
    let m1 = mat_mul(sigma_rs, sigma_inv_ss);
    let resid = vec_sub(y_s, mu_s);
    let w = mat_vec_mul(&m1, &resid);
    vec_add(mu_r, &w)
}

/// The conditional-Gaussian covariance update: the variance reduction due
/// to conditioning on the observations.
pub fn gaussian_var(sigma_rr: &Matrix, sigma_rs: &Matrix, sigma_inv_ss: &Matrix, sigma_sr: &Matrix) -> (r: Matrix)
    requires
        sigma_rr.wf(),
        sigma_rs.wf(),
        sigma_inv_ss.wf(),
        sigma_sr.wf(),
        sigma_rs.cols >= 1,
        sigma_inv_ss.rows == sigma_rs.cols,
        sigma_inv_ss.cols == sigma_rs.cols,
        sigma_sr.rows == sigma_rs.cols,
        sigma_sr.cols == sigma_rs.rows,
        sigma_rr.rows == sigma_rs.rows,
        sigma_rr.cols == sigma_rs.rows,
    ensures
        r.wf(),
        r.rows == sigma_rr.rows,
        r.cols == sigma_rr.cols,
        r.ent() == var_spec(sigma_rr.ent(), sigma_rs.ent(), sigma_inv_ss.ent(), sigma_sr.ent(),
            sigma_rs.cols as int, sigma_rs.rows as int),
{
    let m1 = mat_mul(sigma_rs, sigma_inv_ss);
    let m2 = mat_mul(&m1, sigma_sr);
    mat_sub(sigma_rr, &m2)
}

/// What `gaussian_posterior` returns, as a function of its inputs alone:
/// either the posterior mean and covariance entries, or the error the
/// inputs force. The dimensions are validated first, then the kernel
/// configuration, then the factorization of the sample-sample covariance.
pub open spec fn posterior_spec(ps: Seq<Point>, pr: Seq<Point>, mus: Seq<u64>, mur: Seq<u64>, vals: Seq<u64>, cov0: u64, cov_inf: u64, h95: u64) -> Result<(Seq<u64>, Seq<Seq<u64>>), Error> {
    let s = ps.len() as int;
    let t = pr.len() as int;
    if s == 0 || mus.len() != s || vals.len() != s || mur.len() != t {
        Err(Error::DimensionMismatch)
    } else if is_zero_bits(h95) {
        Err(Error::InvalidKernelConfig)
    } else if !chol_ok(cov_mat_spec(cov0, cov_inf, h95, ps, ps), s) {
        Err(Error::NotPositiveDefinite)
    } else {
        let sinv = inv_spec(chol_upper_spec(cov_mat_spec(cov0, cov_inf, h95, ps, ps), s), s);
        let srs = cov_mat_spec(cov0, cov_inf, h95, pr, ps);
        let ssr = transpose_spec(srs, t, s);
        let srr = cov_mat_spec(cov0, cov_inf, h95, pr, pr);
        Ok((mean_spec(mur, mus, vals, srs, sinv, s), var_spec(srr, srs, sinv, ssr, s, t)))
    }
}

/// Posterior mean and covariance of the field at the target points, given
/// observed values at the sample points: the conditional multivariate
/// Gaussian under the exponential-decay kernel. The result, success or
/// error, is exactly `posterior_spec` of the inputs.
pub fn gaussian_posterior(pos_s: &Vec<Point>, pos_r: &Vec<Point>, mu_s: &Vec<u64>, mu_r: &Vec<u64>, val_s: &Vec<u64>, cov0: u64, cov_inf: u64, h95: u64) -> (r: Result<GaussianResult, Error>)
    ensures
        match r {
            Ok(g) => posterior_spec(pos_s@, pos_r@, mu_s@, mu_r@, val_s@, cov0, cov_inf, h95)
                    == Ok::<(Seq<u64>, Seq<Seq<u64>>), Error>((g.mean@, g.var.ent()))
                && g.mean@.len() == pos_r@.len()
                && g.var.wf()
                && g.var.rows == pos_r@.len()
                && g.var.cols == pos_r@.len(),
            Err(e) => posterior_spec(pos_s@, pos_r@, mu_s@, mu_r@, val_s@, cov0, cov_inf, h95)
                    == Err::<(Seq<u64>, Seq<Seq<u64>>), Error>(e),
        },
{
    if pos_s.len() == 0 || mu_s.len() != pos_s.len() || val_s.len() != pos_s.len()
        || mu_r.len() != pos_r.len() {
        return Err(Error::DimensionMismatch);
    }
    if zero_value_bits(h95) {
        return Err(Error::InvalidKernelConfig);
    }
    let sigma_ss = cov_matrix_for(cov0, cov_inf, h95, pos_s, pos_s);
    let ut = match cholesky_upper(&sigma_ss) {
        Some(u) => u,
        None => {
            return Err(Error::NotPositiveDefinite);
        },
    };
    let sigma_inv_ss = chol_inverse(&ut);
    let sigma_rs = cov_matrix_for(cov0, cov_inf, h95, pos_r, pos_s);
    let sigma_sr = transpose(&sigma_rs);
    let sigma_rr = cov_matrix_for(cov0, cov_inf, h95, pos_r, pos_r);
    let mean = gaussian_mean(mu_r, mu_s, val_s, &sigma_rs, &sigma_inv_ss);
    let var = gaussian_var(&sigma_rr, &sigma_rs, &sigma_inv_ss, &sigma_sr);
    Ok(GaussianResult { mean, var })
}

/// The posterior is a pure function of the inputs: any two results that
/// satisfy `gaussian_posterior`'s contract for the same inputs are
/// bit-identical, success and error alike.
pub proof fn lemma_posterior_deterministic(ps: Seq<Point>, pr: Seq<Point>, mus: Seq<u64>, mur: Seq<u64>, vals: Seq<u64>, cov0: u64, cov_inf: u64, h95: u64, r1: Result<(Seq<u64>, Seq<Seq<u64>>), Error>, r2: Result<(Seq<u64>, Seq<Seq<u64>>), Error>)
    requires
        r1 == posterior_spec(ps, pr, mus, mur, vals, cov0, cov_inf, h95),
        r2 == posterior_spec(ps, pr, mus, mur, vals, cov0, cov_inf, h95),
    ensures
        r1 == r2,
{
}

/// Drawing a sample from the posterior distribution: a declared placeholder
/// that performs no computation and reports itself as unimplemented.
pub fn gaussian_sample(mu: &Vec<u64>, sigma: &Matrix) -> (r: Result<Vec<u64>, Error>)
    ensures
        r == Err::<Vec<u64>, Error>(Error::Unimplemented),
{
    Err(Error::Unimplemented)
}

} // verus!
