use matrixnum::basic::BasicMatrix;
use matrixnum::matrix_trait::MatrixError;
use matrixnum::matrix_trait::MatrixTrait;
use matrixnum::Backend;
use matrixnum::ConfigError;
use matrixnum::Matrixnum;

#[test]
fn empty_matrix_test() {
    let test = BasicMatrix(vec![vec![0i64, 0], vec![0, 0]]);
    let zero: BasicMatrix<i64> = BasicMatrix::zero(2, 2);
    assert_eq!(zero, test);
}

#[test]
fn random_matrix_test() {
    let test: BasicMatrix<i64> = BasicMatrix::random(2, 2);

    assert_ne!(test.0[0][0], test.0[0][1]);
    assert_ne!(test.0[1][0], test.0[1][1]);
}

#[test]
fn random_matrix_get() {
    let test: BasicMatrix<i64> = BasicMatrix::random(2, 2);

    assert_eq!(test.get(0, 1), test.0[0][1]);
    assert_eq!(test.get(1, 0), test.0[1][0]);
    assert_eq!(test.get(1, 1), test.0[1][1]);
    assert_eq!(test.get(0, 0), test.0[0][0]);
}

#[test]
fn random_mul_test1() {
    let a = BasicMatrix(vec![vec![1i64, 2], vec![3, 4]]);
    let b = BasicMatrix(vec![vec![2i64, 0], vec![1, 2]]);
    let result = BasicMatrix(vec![vec![4i64, 4], vec![10, 8]]);

    assert_eq!(a.dot(&b), result);
}

#[test]
fn random_mul_test2() {
    let a = BasicMatrix(vec![vec![1i64, 2], vec![3, 4]]);
    let b = BasicMatrix(vec![vec![2i64, 0], vec![1, 2]]);
    let result = BasicMatrix(vec![vec![2i64, 4], vec![7, 10]]);

    assert_eq!(b.dot(&a), result);
}

#[test]
fn random_mul_test3() {
    let a = BasicMatrix(vec![vec![1i64, 2, 3], vec![4, 5, 6]]);
    let b = BasicMatrix(vec![vec![7i64, 8], vec![9, 10], vec![11, 12]]);
    let result = BasicMatrix(vec![vec![58i64, 64], vec![139, 154]]);

    assert_eq!(a.dot(&b), result);
}

#[test]
fn random_mul_test4() {
    let a = BasicMatrix(vec![vec![1i64, 0]]);

    let b = BasicMatrix(vec![vec![3i64, 4, 5], vec![2, 3, 5]]);

    let result = BasicMatrix(vec![vec![3i64, 4, 5]]);

    assert_eq!(a.dot(&b), result);
}

#[test]
fn from_vec() {
    let v: Vec<i64> = vec![5, 1];

    let test = BasicMatrix::from_vec(&v);

    let result = BasicMatrix(vec![vec![5i64, 1]]);

    assert_eq!(test, result);
}

#[test]
fn transpose() {
    let a = BasicMatrix(vec![vec![4i64, 7, 2, 1], vec![3, 9, 8, 6]]);
    let b = BasicMatrix(vec![vec![4i64, 3], vec![7, 9], vec![2, 8], vec![1, 6]]);

    assert_eq!(a.transpose(), b);
}

#[test]
fn generate_shape_law() {
    let m: BasicMatrix<i64> = BasicMatrix::generate(3, 4, |i, j| (i * 10 + j) as i64);
    assert_eq!(m.rows(), 3);
    assert_eq!(m.cols(), 4);
    assert_eq!(m.get(0, 0), 0);
    assert_eq!(m.get(2, 3), 23);
}

#[test]
fn zero_law() {
    let z: BasicMatrix<i64> = BasicMatrix::zero(2, 3);
    assert_eq!(z.rows(), 2);
    assert_eq!(z.cols(), 3);
    for i in 0..2 {
        for j in 0..3 {
            assert_eq!(z.get(i, j), 0);
        }
    }
}

#[test]
fn from_vec_law() {
    let v: Vec<i64> = vec![9, -2, 7];
    let m = BasicMatrix::from_vec(&v);
    assert_eq!(m.rows(), 1);
    assert_eq!(m.cols(), 3);
    for (i, x) in v.iter().enumerate() {
        assert_eq!(m.get(0, i), *x);
    }
}

#[test]
fn transpose_involution_example() {
    let m = BasicMatrix(vec![vec![4i64, 7, 2], vec![3, 9, 8]]);
    assert_eq!(m.transpose().transpose(), m);
}

#[test]
fn map_preserves_shape() {
    let m = BasicMatrix(vec![vec![1i64, -2, 3], vec![4, 5, -6]]);
    let doubled = m.map(|x| x * 2);
    assert_eq!(doubled.rows(), m.rows());
    assert_eq!(doubled.cols(), m.cols());
    assert_eq!(doubled, BasicMatrix(vec![vec![2i64, -4, 6], vec![8, 10, -12]]));
}

#[test]
fn row_query() {
    let m = BasicMatrix(vec![vec![1i64, 2], vec![3, 4]]);
    assert_eq!(m.row(1), &vec![3i64, 4]);
}

#[test]
fn equals_structural() {
    let a = BasicMatrix(vec![vec![1i64, 2], vec![3, 4]]);
    let b = BasicMatrix(vec![vec![1i64, 2], vec![3, 4]]);
    let c = BasicMatrix(vec![vec![1i64, 2], vec![3, 5]]);
    let d = BasicMatrix(vec![vec![1i64, 2]]);
    assert!(a.equals(&b));
    assert!(!a.equals(&c));
    assert!(!a.equals(&d));
}

#[test]
fn shape_mismatch_failure() {
    let a = BasicMatrix(vec![vec![1i64, 2, 3], vec![4, 5, 6]]);
    let b = BasicMatrix(vec![vec![1i64, 2], vec![3, 4]]);
    assert_eq!(a.try_dot(&b), Err(MatrixError::ShapeMismatch));
}

#[test]
fn try_dot_agrees_with_dot() {
    let a = BasicMatrix(vec![vec![1i64, 2], vec![3, 4]]);
    let b = BasicMatrix(vec![vec![2i64, 0], vec![1, 2]]);
    assert_eq!(a.try_dot(&b), Ok(a.dot(&b)));
}

#[test]
fn try_dot_degenerate() {
    let empty: BasicMatrix<i64> = BasicMatrix(vec![]);
    let b = BasicMatrix(vec![vec![1i64, 2]]);
    assert_eq!(empty.try_dot(&b), Err(MatrixError::DegenerateShapeQuery));
}

#[test]
fn try_get_bounds() {
    let m = BasicMatrix(vec![vec![1i64, 2], vec![3, 4]]);
    assert_eq!(m.try_get(1, 1), Ok(4));
    assert_eq!(m.try_get(2, 0), Err(MatrixError::IndexOutOfBounds));
    assert_eq!(m.try_get(0, 2), Err(MatrixError::IndexOutOfBounds));
}

#[test]
fn try_row_bounds() {
    let m = BasicMatrix(vec![vec![1i64, 2], vec![3, 4]]);
    assert_eq!(m.try_row(0), Ok(&vec![1i64, 2]));
    assert_eq!(m.try_row(2), Err(MatrixError::IndexOutOfBounds));
}

#[test]
fn try_cols_degenerate() {
    let empty: BasicMatrix<i64> = BasicMatrix(vec![]);
    let m = BasicMatrix(vec![vec![1i64, 2, 3]]);
    assert_eq!(empty.try_cols(), Err(MatrixError::DegenerateShapeQuery));
    assert_eq!(m.try_cols(), Ok(3));
}

#[test]
fn wrapping_product() {
    let a = BasicMatrix(vec![vec![i64::MAX]]);
    let b = BasicMatrix(vec![vec![2i64]]);
    assert_eq!(a.dot(&b), BasicMatrix(vec![vec![-2i64]]));
}

#[test]
fn backend_selection() {
    let dense: Result<BasicMatrix<i64>, ConfigError> = Matrixnum::new(Backend::Basic);
    let m = dense.expect("the dense backend exists");
    assert_eq!(m.rows(), 0);

    let missing: Result<BasicMatrix<i64>, ConfigError> = Matrixnum::new(Backend::Ndarray);
    assert_eq!(missing, Err(ConfigError::UnsupportedBackend));
}
