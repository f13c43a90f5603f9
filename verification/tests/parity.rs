// Replays the same conditional-Gaussian computation directly on nalgebra
// matrices and compares it against the library.

use gaussian::{gaussian_posterior, Point};
use nalgebra::{DMatrix, DVector};

fn reference_posterior(
    pos_s: &[(f64, f64)],
    pos_r: &[(f64, f64)],
    mu_s: &[f64],
    mu_r: &[f64],
    val_s: &[f64],
    cov0: f64,
    cov_inft: f64,
    h95: f64,
) -> (DVector<f64>, DMatrix<f64>) {
    let dist = |a: (f64, f64), b: (f64, f64)| f64::sqrt((a.0 - b.0).powi(2) + (a.1 - b.1).powi(2));
    let cov = |d: f64| cov0 - cov_inft * (1.0 - f64::exp(-3.0 * d / h95));
    let cm = |p1: &[(f64, f64)], p2: &[(f64, f64)]| {
        DMatrix::from_fn(p1.len(), p2.len(), |i, j| cov(dist(p1[i], p2[j])))
    };
    let sigma_ss = cm(pos_s, pos_s);
    let sigma_rs = cm(pos_r, pos_s);
    let sigma_sr = sigma_rs.transpose();
    let sigma_rr = cm(pos_r, pos_r);
    let sigma_inv_ss = sigma_ss.cholesky().expect("not positive definite").inverse();
    let mu_r_v = DVector::from_row_slice(mu_r);
    let mu_s_v = DVector::from_row_slice(mu_s);
    let val_s_v = DVector::from_row_slice(val_s);
    let mean = &mu_r_v + &sigma_rs * &sigma_inv_ss * (&val_s_v - &mu_s_v);
    let var = &sigma_rr - &sigma_rs * &sigma_inv_ss * &sigma_sr;
    (mean, var)
}

fn lib_posterior(
    pos_s: &[(f64, f64)],
    pos_r: &[(f64, f64)],
    mu_s: &[f64],
    mu_r: &[f64],
    val_s: &[f64],
    cov0: f64,
    cov_inft: f64,
    h95: f64,
) -> (Vec<u64>, Vec<Vec<u64>>) {
    let ps: Vec<Point> = pos_s.iter().map(|p| Point { x: p.0.to_bits(), y: p.1.to_bits() }).collect();
    let pr: Vec<Point> = pos_r.iter().map(|p| Point { x: p.0.to_bits(), y: p.1.to_bits() }).collect();
    let ms: Vec<u64> = mu_s.iter().map(|v| v.to_bits()).collect();
    let mr: Vec<u64> = mu_r.iter().map(|v| v.to_bits()).collect();
    let vs: Vec<u64> = val_s.iter().map(|v| v.to_bits()).collect();
    let r = gaussian_posterior(&ps, &pr, &ms, &mr, &vs, cov0.to_bits(), cov_inft.to_bits(), h95.to_bits())
        .expect("posterior should succeed");
    (r.mean, r.var.data)
}

#[test]
fn single_sample_parity_is_exact() {
    let pos_s = [(1.0, 1.0)];
    let pos_r = [(0.0, 0.0), (1.0, 0.0), (0.0, 1.1)];
    let mu_s = [0.0];
    let mu_r = [0.0, 0.0, 0.0];
    let val_s = [1.0];
    let (mean, var) = reference_posterior(&pos_s, &pos_r, &mu_s, &mu_r, &val_s, 1.0, 0.5, 1.0);
    let (lmean, lvar) = lib_posterior(&pos_s, &pos_r, &mu_s, &mu_r, &val_s, 1.0, 0.5, 1.0);
    for i in 0..3 {
        assert_eq!(lmean[i], mean[i].to_bits());
        for j in 0..3 {
            assert_eq!(lvar[i][j], var[(i, j)].to_bits());
        }
    }
}

#[test]
fn two_sample_parity_within_tolerance() {
    let pos_s = [(1.0, 1.0), (0.0, 0.5)];
    let pos_r = [(0.0, 0.0), (1.0, 0.0), (0.0, 1.1)];
    let mu_s = [0.25, -0.5];
    let mu_r = [0.0, 0.125, -0.25];
    let val_s = [1.0, 2.0];
    let (mean, var) = reference_posterior(&pos_s, &pos_r, &mu_s, &mu_r, &val_s, 1.5, 0.75, 2.0);
    let (lmean, lvar) = lib_posterior(&pos_s, &pos_r, &mu_s, &mu_r, &val_s, 1.5, 0.75, 2.0);
    let tol = 1.0e-12;
    for i in 0..3 {
        let dm = (f64::from_bits(lmean[i]) - mean[i]).abs();
        assert!(dm < tol, "mean {i} differs by {dm}");
        for j in 0..3 {
            let dv = (f64::from_bits(lvar[i][j]) - var[(i, j)]).abs();
            assert!(dv < tol, "var ({i},{j}) differs by {dv}");
        }
    }
}
