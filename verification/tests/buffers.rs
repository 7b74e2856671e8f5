use phasey::buftools;

/// `set` fills every element.
#[test]
fn set_fills() {
    let mut buf: Vec<i64> = vec![1, 2, 3, 4];
    buftools::set(&mut buf, 9);
    assert_eq!(buf, vec![9, 9, 9, 9]);
}

/// `copy` overwrites up to the shorter length and keeps the tail.
#[test]
fn copy_prefix() {
    let mut dst: Vec<i64> = vec![0, 0, 0];
    let src: Vec<i64> = vec![5, 6];
    buftools::copy(&mut dst, &src);
    assert_eq!(dst, vec![5, 6, 0]);
}

/// `add_c` offsets every element.
#[test]
fn add_constant() {
    let mut buf: Vec<i64> = vec![1, -2, 3];
    buftools::add_c(&mut buf, 10);
    assert_eq!(buf, vec![11, 8, 13]);
}

/// `add` sums element-wise up to the shorter length.
#[test]
fn add_elementwise() {
    let mut a: Vec<i64> = vec![1, 2, 3];
    let b: Vec<i64> = vec![10, 20];
    buftools::add(&mut a, &b);
    assert_eq!(a, vec![11, 22, 3]);
}

/// `mul_c` scales every element.
#[test]
fn mul_constant() {
    let mut buf: Vec<i64> = vec![1, -2, 3];
    buftools::mul_c(&mut buf, -3);
    assert_eq!(buf, vec![-3, 6, -9]);
}

/// `mul` multiplies element-wise up to the shorter length.
#[test]
fn mul_elementwise() {
    let mut a: Vec<i64> = vec![2, 3, 4];
    let b: Vec<i64> = vec![5, -1];
    buftools::mul(&mut a, &b);
    assert_eq!(a, vec![10, -3, 4]);
}
