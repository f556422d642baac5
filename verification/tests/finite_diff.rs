use linreg::finite_diff::{approx_fprime, hessian_mtx};

fn gradient_of(x: &[f64], f: impl Fn(f64) -> f64, eps: f64) -> Vec<f64> {
    approx_fprime(&x.to_vec(), &f, eps, &|v, step| v + step, &|ahead, here, step| (ahead - here) / step)
}

fn hessian_of(x0: &[f32], f: impl Fn(f32) -> f32, eps: f32) -> Vec<Vec<f32>> {
    hessian_mtx(
        &x0.to_vec(),
        &f,
        eps,
        0.0,
        &|v, step| v + step,
        &|ahead, here, step| (ahead - here) / step,
    )
}

#[test]
fn gradient_of_square_at_two() {
    let g = gradient_of(&[2.0], |v| v * v, 1e-3);
    assert_eq!(g.len(), 1);
    assert!((g[0] - 4.0).abs() <= 0.01 * 4.0, "g = {}", g[0]);
    // The forward difference of a square is off by the step itself.
    assert!((g[0] - 4.001).abs() < 1e-9, "g = {}", g[0]);
}

#[test]
fn gradient_is_taken_coordinate_by_coordinate() {
    let g = approx_fprime(
        &vec![2i64, 3, -1],
        &|v| v * v,
        1,
        &|v, step| v + step,
        &|ahead, here, step| (ahead - here) / step,
    );
    assert_eq!(g, vec![5, 7, -1]);
    let none = approx_fprime(&Vec::<i64>::new(), &|v| v * v, 1, &|v, e| v + e, &|a, b, e| (a - b) / e);
    assert!(none.is_empty());
}

#[test]
fn gradient_gives_the_shifted_value_first() {
    let g = approx_fprime(
        &vec![10i64],
        &|v| v * 3,
        2,
        &|v, step| v + step,
        &|ahead, here, step| ahead * 1000 + here * 10 + step,
    );
    assert_eq!(g, vec![36302]);
}

#[test]
fn gradient_with_zero_step_is_not_finite() {
    let g = gradient_of(&[2.0], |v| v * v, 0.0);
    assert!(!g[0].is_finite());
}

#[test]
fn hessian_columns_over_integers() {
    // The gradient at [0, 0] is [1, 1]; the probes [1, 0] and [0, 1] give [3, 1] and [1, 3].
    let h = hessian_mtx(
        &vec![2i64, 3],
        &|v| v * v,
        1,
        0,
        &|v, step| v + step,
        &|ahead, here, step| (ahead - here) / step,
    );
    assert_eq!(h, vec![vec![2, 0], vec![0, 2]]);
    let empty = hessian_mtx(&Vec::<i64>::new(), &|v| v * v, 1, 0, &|v, e| v + e, &|a, b, e| (a - b) / e);
    assert!(empty.is_empty());
}

#[test]
fn hessian_keeps_rows_and_columns_apart() {
    // With a cube the probed coordinate and the others differ, and so do the
    // shifted value and the value in the quotient.
    let h = hessian_mtx(
        &vec![5i64, 7, 9],
        &|v| v * v * v,
        2,
        0,
        &|v, step| v + step,
        &|ahead, here, _| ahead * 1000 + here,
    );
    // Unperturbed: 8 * 1000 + 0 = 8000. Probed: 64 * 1000 + 8 = 64008.
    let on = 64008 * 1000 + 8000;
    let off = 8000 * 1000 + 8000;
    assert_eq!(h, vec![vec![on, off, off], vec![off, on, off], vec![off, off, on]]);
}

#[test]
fn hessian_of_square_away_from_the_origin_is_exact() {
    let h = hessian_of(&[1.0, 2.0], |v| v * v, 0.5);
    assert_eq!(h, vec![vec![2.0, 0.0], vec![0.0, 2.0]]);
}

#[test]
fn hessian_does_not_depend_on_the_point() {
    let c = 3.0f32;
    let f = |v: f32| c * v * v / 2.0;
    let at_origin = hessian_of(&[0.0, 0.0, 0.0], f, 1e-2);
    let away = hessian_of(&[4.0, -7.5, 100.0], f, 1e-2);
    assert_eq!(at_origin, away);
    for i in 0..3 {
        for r in 0..3 {
            let expected = if r == i { c } else { 0.0 };
            assert!((away[i][r] - expected).abs() <= 0.05, "column {}, row {}: {}", i, r, away[i][r]);
        }
    }
}

#[test]
fn hessian_of_scaled_square_is_near_diagonal() {
    let c = 3.0f32;
    let steps = [(0.5f32, 0.05f32), (0.05, 0.05), (0.005, 0.2), (0.0005, 1.5)];
    for (eps, band) in steps {
        let h = hessian_of(&[1.5, -2.0, 30.0], |v| c * v * v / 2.0, eps);
        assert_eq!(h.len(), 3);
        for i in 0..3 {
            assert_eq!(h[i].len(), 3);
            for r in 0..3 {
                let expected = if r == i { c } else { 0.0 };
                assert!(
                    (h[i][r] - expected).abs() <= band,
                    "eps = {}, column {}, row {}: {}",
                    eps,
                    i,
                    r,
                    h[i][r]
                );
            }
        }
    }
}

#[test]
fn hessian_of_exponential_sum_at_origin() {
    let f = |value: f32| (3.0_f32 * value).exp() + (value - 0.1).exp() + (-value - 0.1).exp();
    let h = hessian_of(&[0.0], f, 0.05);
    assert_eq!(h.len(), 1);
    assert_eq!(h[0].len(), 1);
    // The second derivative at the origin is 9 + 2 exp(-0.1), about 10.81; the
    // forward differences overshoot it at this step.
    assert!((h[0][0] - 10.81).abs() < 2.0, "h = {}", h[0][0]);
}
