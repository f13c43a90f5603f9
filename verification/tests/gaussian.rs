use gaussian::{
    create_cov_matrix, gaussian_posterior, gaussian_sample, Error, Point,
};

fn pt(x: f64, y: f64) -> Point {
    Point { x: x.to_bits(), y: y.to_bits() }
}

fn bits(v: f64) -> u64 {
    v.to_bits()
}

#[test]
fn test_gaussian_posterior() {
    let pos_s = vec![pt(1.0, 1.0)];
    let pos_r = vec![pt(0.0, 0.0), pt(1.0, 0.0), pt(0.0, 1.1)];
    let val_s = vec![bits(1.0)];
    let mu_s = vec![bits(0.0)];
    let mu_r = vec![bits(0.0), bits(0.0), bits(0.0)];
    let cov0 = bits(1.0);
    let cov_inft = bits(0.5);
    let h95 = bits(1.0);

    let result = gaussian_posterior(&pos_s, &pos_r, &mu_s, &mu_r, &val_s, cov0, cov_inft, h95)
        .expect("posterior should succeed");
    assert_eq!(result.mean[0], bits(0.5071847980452195));
    assert_eq!(result.mean[1], bits(0.524893534183932));
    assert_eq!(result.mean[2], bits(0.5245238328004868));
    assert_eq!(result.var.data[0][0], bits(0.7427635806318298));
    assert_eq!(result.var.data[2][2], bits(0.724874748824287));
    assert_eq!(result.var.data[0][1], bits(0.2586755130536129));
    assert_eq!(result.var.data[0][2], bits(0.2524110694918006));
    assert_eq!(result.var.data[1][2], bits(0.23046305037850517));
}

#[test]
fn kernel_value_matches_formula() {
    // One sample at distance 1 from one target: the single covariance entry
    // must be exactly cov0 - cov_inf * (1 - exp(-3 * d / h95)) in binary64
    // arithmetic.
    let a = vec![pt(0.0, 0.0)];
    let b = vec![pt(1.0, 0.0)];
    let m = create_cov_matrix(bits(1.0), bits(0.5), bits(2.0), &a, &b).unwrap();
    let d: f64 = 1.0;
    let expected = 1.0 - 0.5 * (1.0 - f64::exp(-3.0 * d / 2.0));
    assert_eq!(m.data[0][0], expected.to_bits());
}

#[test]
fn kernel_at_zero_distance_is_cov0() {
    // Covariance of a point with itself is exactly cov0.
    let a = vec![pt(2.5, -3.75), pt(0.125, 7.0)];
    let m = create_cov_matrix(bits(1.75), bits(0.25), bits(3.0), &a, &a).unwrap();
    assert_eq!(m.data[0][0], bits(1.75));
    assert_eq!(m.data[1][1], bits(1.75));
}

#[test]
fn kernel_at_large_distance_approaches_floor() {
    // Far apart, the covariance approaches cov0 - cov_inf.
    let a = vec![pt(0.0, 0.0)];
    let b = vec![pt(1.0e9, 0.0)];
    let m = create_cov_matrix(bits(1.0), bits(0.5), bits(1.0), &a, &b).unwrap();
    let got = f64::from_bits(m.data[0][0]);
    assert!((got - 0.5).abs() < 1.0e-12, "got {got}");
}

#[test]
fn cov_matrix_shape_is_rows_by_cols() {
    let a = vec![pt(0.0, 0.0), pt(1.0, 0.0)];
    let b = vec![pt(0.0, 1.0), pt(1.0, 1.0), pt(2.0, 2.0)];
    let m = create_cov_matrix(bits(1.0), bits(0.5), bits(1.0), &a, &b).unwrap();
    assert_eq!(m.rows, 2);
    assert_eq!(m.cols, 3);
    assert_eq!(m.data.len(), 2);
    for row in &m.data {
        assert_eq!(row.len(), 3);
    }
}

#[test]
fn cov_matrix_of_set_with_itself_is_symmetric() {
    let a = vec![pt(0.0, 0.0), pt(1.0, 0.5), pt(-2.0, 3.0), pt(0.25, -0.75)];
    let m = create_cov_matrix(bits(1.0), bits(0.5), bits(1.5), &a, &a).unwrap();
    for i in 0..4 {
        for j in 0..4 {
            assert_eq!(m.data[i][j], m.data[j][i]);
        }
    }
}

#[test]
fn repeated_calls_are_bit_identical() {
    let pos_s = vec![pt(1.0, 1.0), pt(0.5, -0.25)];
    let pos_r = vec![pt(0.0, 0.0), pt(1.0, 0.0)];
    let val_s = vec![bits(1.0), bits(2.0)];
    let mu_s = vec![bits(0.5), bits(0.5)];
    let mu_r = vec![bits(0.25), bits(0.25)];
    let r1 = gaussian_posterior(&pos_s, &pos_r, &mu_s, &mu_r, &val_s, bits(1.0), bits(0.5), bits(1.0)).unwrap();
    let r2 = gaussian_posterior(&pos_s, &pos_r, &mu_s, &mu_r, &val_s, bits(1.0), bits(0.5), bits(1.0)).unwrap();
    assert_eq!(r1.mean, r2.mean);
    assert_eq!(r1.var.data, r2.var.data);
}

#[test]
fn conditioning_does_not_increase_variance() {
    // Diagonal entries of the posterior covariance stay at or below the
    // unconditioned prior variance cov0 (the diagonal of sigma_rr).
    let pos_s = vec![pt(1.0, 1.0)];
    let pos_r = vec![pt(0.0, 0.0), pt(1.0, 0.0), pt(0.0, 1.1)];
    let val_s = vec![bits(1.0)];
    let mu_s = vec![bits(0.0)];
    let mu_r = vec![bits(0.0), bits(0.0), bits(0.0)];
    let result = gaussian_posterior(&pos_s, &pos_r, &mu_s, &mu_r, &val_s, bits(1.0), bits(0.5), bits(1.0)).unwrap();
    let tol = 1.0e-9;
    for i in 0..3 {
        let post = f64::from_bits(result.var.data[i][i]);
        assert!(post <= 1.0 + tol, "diagonal {i} grew: {post}");
    }
}

#[test]
fn zero_h95_is_a_configuration_error() {
    let a = vec![pt(0.0, 0.0)];
    let r = create_cov_matrix(bits(1.0), bits(0.5), bits(0.0), &a, &a);
    assert_eq!(r.err(), Some(Error::InvalidKernelConfig));
    let r2 = create_cov_matrix(bits(1.0), bits(0.5), bits(-0.0), &a, &a);
    assert_eq!(r2.err(), Some(Error::InvalidKernelConfig));

    let val_s = vec![bits(1.0)];
    let mu_s = vec![bits(0.0)];
    let mu_r = vec![bits(0.0)];
    let b = vec![pt(1.0, 1.0)];
    let p = gaussian_posterior(&a, &b, &mu_s, &mu_r, &val_s, bits(1.0), bits(0.5), bits(0.0));
    assert_eq!(p.err(), Some(Error::InvalidKernelConfig));
}

#[test]
fn mismatched_lengths_are_rejected() {
    let pos_s = vec![pt(1.0, 1.0)];
    let pos_r = vec![pt(0.0, 0.0)];
    let two = vec![bits(1.0), bits(2.0)];
    let one = vec![bits(0.0)];
    let r = gaussian_posterior(&pos_s, &pos_r, &two, &one, &one, bits(1.0), bits(0.5), bits(1.0));
    assert_eq!(r.err(), Some(Error::DimensionMismatch));
    let r2 = gaussian_posterior(&pos_s, &pos_r, &one, &one, &two, bits(1.0), bits(0.5), bits(1.0));
    assert_eq!(r2.err(), Some(Error::DimensionMismatch));
    let r3 = gaussian_posterior(&pos_s, &pos_r, &one, &two, &one, bits(1.0), bits(0.5), bits(1.0));
    assert_eq!(r3.err(), Some(Error::DimensionMismatch));
}

#[test]
fn empty_sample_set_is_rejected() {
    let pos_s: Vec<Point> = vec![];
    let pos_r = vec![pt(0.0, 0.0)];
    let none: Vec<u64> = vec![];
    let one = vec![bits(0.0)];
    let r = gaussian_posterior(&pos_s, &pos_r, &none, &one, &none, bits(1.0), bits(0.5), bits(1.0));
    assert_eq!(r.err(), Some(Error::DimensionMismatch));
}

#[test]
fn coincident_samples_are_not_positive_definite() {
    // Two identical sample points give a singular sample-sample covariance;
    // the Cholesky factorization must fail.
    let pos_s = vec![pt(1.0, 1.0), pt(1.0, 1.0)];
    let pos_r = vec![pt(0.0, 0.0)];
    let val_s = vec![bits(1.0), bits(1.0)];
    let mu_s = vec![bits(0.0), bits(0.0)];
    let mu_r = vec![bits(0.0)];
    let r = gaussian_posterior(&pos_s, &pos_r, &mu_s, &mu_r, &val_s, bits(1.0), bits(0.5), bits(1.0));
    assert_eq!(r.err(), Some(Error::NotPositiveDefinite));
}

#[test]
fn sampling_is_unimplemented() {
    let pos = vec![pt(0.0, 0.0)];
    let m = create_cov_matrix(bits(1.0), bits(0.5), bits(1.0), &pos, &pos).unwrap();
    let mu = vec![bits(0.0)];
    let r = gaussian_sample(&mu, &m);
    assert_eq!(r.err(), Some(Error::Unimplemented));
}
