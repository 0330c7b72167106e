//! Vector construction, conversion and integer arithmetic.

use pix_engine::vector::Vector;

#[test]
fn test_tuple_conversions() {
    let _: Vector<u8> = 50u8.into();
    let _: Vector<i8> = 50i8.into();
    let _: Vector<u16> = 50u16.into();
    let _: Vector<i16> = 50i16.into();
    let _: Vector<u32> = 50u32.into();
    let _: Vector<i32> = 50i32.into();
    let _: Vector<f32> = 50.0f32.into();
    let _: Vector<f64> = 50.0f64.into();

    let _: Vector<u8> = (50u8, 100).into();
    let _: Vector<i8> = (50i8, 100).into();
    let _: Vector<u16> = (50u16, 100).into();
    let _: Vector<i16> = (50i16, 100).into();
    let _: Vector<u32> = (50u32, 100).into();
    let _: Vector<i32> = (50i32, 100).into();
    let _: Vector<f32> = (50.0f32, 100.0).into();
    let _: Vector<f64> = (50.0f64, 100.0).into();

    let _: Vector<u8> = (50u8, 100, 55).into();
    let _: Vector<i8> = (50i8, 100, 55).into();
    let _: Vector<u16> = (50u16, 100, 55).into();
    let _: Vector<i16> = (50i16, 100, 55).into();
    let _: Vector<u32> = (50u32, 100, 55).into();
    let _: Vector<i32> = (50i32, 100, 55).into();
    let _: Vector<f32> = (50.0f32, 100.0, 55.0).into();
    let _: Vector<f64> = (50.0f64, 100.0, 55.0).into();
}

#[test]
fn test_slice_conversions() {
    let _: Vector<u8> = [50u8].into();
    let _: Vector<i8> = [50i8].into();
    let _: Vector<u16> = [50u16].into();
    let _: Vector<i16> = [50i16].into();
    let _: Vector<u32> = [50u32].into();
    let _: Vector<i32> = [50i32].into();
    let _: Vector<f32> = [50.0f32].into();
    let _: Vector<f64> = [50.0f64].into();

    let _: Vector<u8> = [50u8, 100].into();
    let _: Vector<i8> = [50i8, 100].into();
    let _: Vector<u16> = [50u16, 100].into();
    let _: Vector<i16> = [50i16, 100].into();
    let _: Vector<u32> = [50u32, 100].into();
    let _: Vector<i32> = [50i32, 100].into();
    let _: Vector<f32> = [50.0f32, 100.0].into();
    let _: Vector<f64> = [50.0f64, 100.0].into();

    let _: Vector<u8> = [50u8, 100, 55].into();
    let _: Vector<i8> = [50i8, 100, 55].into();
    let _: Vector<u16> = [50u16, 100, 55].into();
    let _: Vector<i16> = [50i16, 100, 55].into();
    let _: Vector<u32> = [50u32, 100, 55].into();
    let _: Vector<i32> = [50i32, 100, 55].into();
    let _: Vector<f32> = [50.0f32, 100.0, 55.0].into();
    let _: Vector<f64> = [50.0f64, 100.0, 55.0].into();
}

#[test]
fn conversion_values() {
    let v: Vector<i32> = 7i32.into();
    assert_eq!(v, Vector::new(7, 7, 7));
    let v: Vector<i32> = (1i32, 2).into();
    assert_eq!(v, Vector::new(1, 2, 0));
    let v: Vector<i32> = [4i32, 5].into();
    assert_eq!(v, Vector::new(4, 5, 0));
    let v: Vector<i32> = [4i32, 5, 6].into();
    assert_eq!(v, Vector::new(4, 5, 6));
}

#[test]
fn structural_ops() {
    let v1: Vector<i64> = Vector::new(1, 0, 1);
    let mut v2 = v1.copy();
    v2.x = 2;
    assert_eq!(v1.get(), [1, 0, 1]);
    assert_eq!(v2.get(), [2, 0, 1]);
    v2.set(Vector::new(-2, 5, 1));
    assert_eq!(v2.to_vec(), vec![-2, 5, 1]);
}

#[test]
fn integer_arithmetic() {
    let v: Vector<i64> = Vector::new(1, 2, 3);
    assert_eq!(v.mag_sq(), 14);
    assert_eq!(v.dot(Vector::new(2, 3, 4)), 20);
    let cross = v.cross(Vector::new(1, 2, 3));
    assert_eq!(cross.get(), [0, 0, 0]);
    let cross = Vector::new(1i64, 0, 0).cross(Vector::new(0, 1, 0));
    assert_eq!(cross.get(), [0, 0, 1]);
}

#[test]
fn wrapping() {
    let mut v: Vector<i64> = Vector::new(200, 300, 0);
    v.wrap_2d(150, 400, 10);
    assert_eq!(v.x, -10);
    assert_eq!(v.y, 300);

    let mut v: Vector<i64> = Vector::new(200, 300, 0);
    v.wrap_2d(300, 200, 10);
    assert_eq!(v.x, 200);
    assert_eq!(v.y, -10);
}
