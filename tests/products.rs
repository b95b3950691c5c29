use rust_tut1::{
    check_dot, dot, matrix_dot_matrix, matrix_dot_vec, vec_dot_matrix_dot_vec, x_dot_x, DimError,
    ScalarOps,
};

fn float_ops() -> ScalarOps<f64, impl Fn(f64, f64) -> f64, impl Fn(f64, f64) -> f64> {
    ScalarOps { zero: 0.0, add: |p: f64, q: f64| p + q, mul: |p: f64, q: f64| p * q }
}

fn int_ops() -> ScalarOps<i64, impl Fn(i64, i64) -> i64, impl Fn(i64, i64) -> i64> {
    ScalarOps { zero: 0, add: |p: i64, q: i64| p + q, mul: |p: i64, q: i64| p * q }
}

#[test]
fn do_x_dot_x() {
    let x = vec![1.0, 2.0];
    assert_eq!(x_dot_x(&x, &float_ops()), 5.0);
}

#[test]
fn do_matrix_dot_x() {
    let matrix = vec![vec![1.0, 2.0], vec![2.0, 1.0]];
    let x = vec![0.0, 1.0];

    let y = vec![2.0, 1.0];

    assert_eq!(matrix_dot_vec(&matrix, &x, &float_ops()), y);
}

#[test]
fn do_matrix_dot_matrix() {
    let a = vec![vec![1.0, 1.0], vec![2.0, 0.0]];
    let y = vec![vec![3.0, 1.0], vec![2.0, 2.0]];

    assert_eq!(matrix_dot_matrix(&a, &float_ops()), y);
}

#[test]
fn do_vec_dot_matrix_dot_x() {
    let a = vec![vec![1.0, 0.0], vec![0.0, 1.0]];
    let x = vec![2.0, 1.0];

    assert_eq!(vec_dot_matrix_dot_vec(&a, &x, &float_ops()), 5.0)
}

#[test]
fn x_dot_x_is_sum_of_squares() {
    let x = vec![3, -4, 12];
    assert_eq!(x_dot_x(&x, &int_ops()), 9 + 16 + 144);
}

#[test]
fn x_dot_x_of_empty_is_zero() {
    let x: Vec<f64> = Vec::new();
    assert_eq!(x_dot_x(&x, &float_ops()), 0.0);
}

#[test]
fn dot_of_equal_lengths() {
    let a = vec![1.5, -2.0, 4.0];
    let x = vec![2.0, 0.5, 0.25];
    assert_eq!(dot(&a, &x, &float_ops()), Ok(3.0));
}

#[test]
fn dot_reports_mismatch() {
    let a = vec![1.0, 2.0, 3.0];
    let x = vec![1.0, 2.0];
    assert_eq!(
        dot(&a, &x, &float_ops()),
        Err(DimError::DimensionMismatch { left: 3, right: 2 })
    );
    assert_eq!(
        dot(&x, &a, &float_ops()),
        Err(DimError::DimensionMismatch { left: 2, right: 3 })
    );
}

#[test]
fn dot_of_empty_vectors() {
    let a: Vec<i64> = Vec::new();
    assert_eq!(dot(&a, &a, &int_ops()), Ok(0));
}

#[test]
fn check_dot_shapes() {
    assert_eq!(check_dot(4, 4), Ok(4));
    assert_eq!(check_dot(0, 0), Ok(0));
    assert_eq!(check_dot(4, 5), Err(DimError::DimensionMismatch { left: 4, right: 5 }));
}

#[test]
fn matrix_dot_vec_rows_are_dots() {
    let m = vec![vec![1, 2, 3], vec![-1, 0, 5]];
    let x = vec![2, 1, -1];
    let y = matrix_dot_vec(&m, &x, &int_ops());
    assert_eq!(y.len(), 2);
    for i in 0..m.len() {
        assert_eq!(Ok(y[i]), dot(&m[i], &x, &int_ops()));
    }
    assert_eq!(y, vec![1, -7]);
}

#[test]
fn matrix_dot_vec_with_no_rows() {
    let m: Vec<Vec<i64>> = Vec::new();
    let x = vec![1, 2];
    assert_eq!(matrix_dot_vec(&m, &x, &int_ops()), Vec::<i64>::new());
}

#[test]
fn matrix_dot_matrix_three_by_three() {
    let m = vec![vec![1, 2, 0], vec![0, 1, 3], vec![4, 0, 1]];
    let expected = vec![vec![1, 4, 6], vec![12, 1, 6], vec![8, 8, 1]];
    assert_eq!(matrix_dot_matrix(&m, &int_ops()), expected);
}

#[test]
fn matrix_dot_matrix_of_empty() {
    let m: Vec<Vec<i64>> = Vec::new();
    assert_eq!(matrix_dot_matrix(&m, &int_ops()), Vec::<Vec<i64>>::new());
}

#[test]
fn quadratic_form_matches_composition() {
    let m = vec![vec![2, 1], vec![0, 3]];
    let x = vec![1, -2];
    let y = matrix_dot_vec(&m, &x, &int_ops());
    let q = vec_dot_matrix_dot_vec(&m, &x, &int_ops());
    assert_eq!(Ok(q), dot(&y, &x, &int_ops()));
    assert_eq!(q, 12);
}

#[test]
fn repeated_calls_agree_bit_for_bit() {
    let m = vec![vec![0.1, 0.7, -0.3], vec![0.25, -1.0, 0.9], vec![0.33, 0.5, 0.125]];
    let x = vec![0.3, -0.6, 0.7];
    let ops = float_ops();
    assert_eq!(x_dot_x(&x, &ops).to_bits(), x_dot_x(&x, &ops).to_bits());
    let y1: Vec<u64> = matrix_dot_vec(&m, &x, &ops).iter().map(|v| v.to_bits()).collect();
    let y2: Vec<u64> = matrix_dot_vec(&m, &x, &ops).iter().map(|v| v.to_bits()).collect();
    assert_eq!(y1, y2);
    assert_eq!(matrix_dot_matrix(&m, &ops), matrix_dot_matrix(&m, &ops));
    assert_eq!(
        vec_dot_matrix_dot_vec(&m, &x, &ops).to_bits(),
        vec_dot_matrix_dot_vec(&m, &x, &ops).to_bits()
    );
}
