use cgmath::Matrix;
use gpgpu::fonts::bezier::binomial_coeffs;

#[test]
fn test_binomial_coeffs() {
    assert_eq!(binomial_coeffs(0).unwrap(), vec![1]);
    assert_eq!(binomial_coeffs(1).unwrap(), vec![1, 1]);
    assert_eq!(binomial_coeffs(2).unwrap(), vec![1, 2, 1]);
    assert_eq!(binomial_coeffs(3).unwrap(), vec![1, 3, 3, 1]);
    assert_eq!(binomial_coeffs(4).unwrap(), vec![1, 4, 6, 4, 1]);
    assert_eq!(binomial_coeffs(5).unwrap(), vec![1, 5, 10, 10, 5, 1]);
    assert_eq!(binomial_coeffs(6).unwrap(), vec![1, 6, 15, 20, 15, 6, 1]);
}

#[test]
fn binomial_row_is_symmetric_and_sums_to_power_of_two() {
    for n in 0..40usize {
        let row = binomial_coeffs(n).unwrap();
        assert_eq!(row.len(), n + 1);
        for k in 0..=n {
            assert_eq!(row[k], row[n - k]);
        }
        assert_eq!(row.iter().sum::<u128>(), 1u128 << n);
    }
}

#[test]
fn binomial_row_largest_that_fits() {
    let row = binomial_coeffs(67).unwrap();
    assert_eq!(row[33], 14226520737620288370);
    let row = binomial_coeffs(131).unwrap();
    assert_eq!(row[65], 188694833082770476622296176145946360850);
    assert_eq!(binomial_coeffs(132), None);
    assert_eq!(binomial_coeffs(200), None);
}

#[test]
fn test_matrix3() {
    let m1: cgmath::Matrix3<f32> = [[1.0, 0.0, 0.0], [-2.0, 2.0, 0.0], [1.0, -2.0, 1.0]].into();
    let m2: cgmath::Matrix3<f32> = cgmath::Matrix3::from_cols(
        [1.0, 0.0, 0.0].into(),
        [-2.0, 2.0, 0.0].into(),
        [1.0, -2.0, 1.0].into(),
    );
    assert_eq!(m1, m2);
}
