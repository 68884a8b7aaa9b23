use wasm_ui::math::order::{greatest_of, least_of};
use wasm_ui::{Vector2, Vector3, Vector4};

#[test]
fn integer_vector_operators_work_per_component() {
    let a: Vector2<i32> = Vector2::new(7, -3);
    let b: Vector2<i32> = Vector2::new(2, 5);
    assert_eq!(a + b, Vector2::new(9, 2));
    assert_eq!(a - b, Vector2::new(5, -8));
    assert_eq!(a * b, Vector2::new(14, -15));
    assert_eq!(a / b, Vector2::new(3, 0));
    assert_eq!(a % b, Vector2::new(1, -3));
    assert_eq!(-a, Vector2::new(-7, 3));
    assert_eq!(a + 1, Vector2::new(8, -2));
    assert_eq!(a * 2, Vector2::new(14, -6));
}

#[test]
fn integer_vector_assign_operators_match_operators() {
    let a: Vector3<i64> = Vector3::new(10, -20, 30);
    let b: Vector3<i64> = Vector3::new(3, 4, -7);
    let mut c = a;
    c += b;
    assert_eq!(c, a + b);
    let mut c = a;
    c -= b;
    assert_eq!(c, a - b);
    let mut c = a;
    c *= b;
    assert_eq!(c, a * b);
    let mut c = a;
    c /= b;
    assert_eq!(c, Vector3::new(3, -5, -4));
    let mut c = a;
    c %= b;
    assert_eq!(c, Vector3::new(1, 0, 2));
    let mut c = a;
    c %= 7;
    assert_eq!(c, Vector3::new(3, -6, 2));
}

#[test]
fn vector3_sum_product_and_dot() {
    let v: Vector3<i64> = Vector3::new(3, -7, 5);
    assert_eq!(v.sum(), 1);
    assert_eq!(v.product(), -105);
    assert_eq!(Vector3::dot(v, v), 83);
    assert_eq!(Vector3::dot(v, Vector3::new(1, 1, 1)), v.sum());
}

#[test]
fn vector4_sum_product_and_dot() {
    let v: Vector4<f32> = Vector4::new(1.0, 2.0, 3.0, 4.0);
    assert_eq!(v.sum(), 10.0);
    assert_eq!(v.product(), 24.0);
    assert_eq!(Vector4::dot(v, Vector4::new(4.0, 3.0, 2.0, 1.0)), 20.0);
}

#[test]
fn vector3_and_vector4_min_and_max() {
    let v: Vector3<i32> = Vector3::new(3, -7, 5);
    assert_eq!(v.min(), -7);
    assert_eq!(v.max(), 5);
    let w: Vector4<f32> = Vector4::new(2.0, 9.0, -4.0, 1.0);
    assert_eq!(w.min(), -4.0);
    assert_eq!(w.max(), 9.0);
}

#[test]
fn min_and_max_pass_over_nan_components() {
    let v: Vector3<f32> = Vector3::new(f32::NAN, 2.0, 1.0);
    assert_eq!(v.min(), 1.0);
    assert_eq!(v.max(), 2.0);
    let w: Vector4<f32> = Vector4::new(3.0, f32::NAN, -1.0, f32::NAN);
    assert_eq!(w.min(), -1.0);
    assert_eq!(w.max(), 3.0);
}

#[test]
fn least_and_greatest_of_two_values() {
    assert_eq!(least_of(3, 8), 3);
    assert_eq!(least_of(8, 3), 3);
    assert_eq!(greatest_of(3, 8), 8);
    assert_eq!(greatest_of(8, 3), 8);
    assert_eq!(least_of(f32::NAN, 1.5), 1.5);
    assert_eq!(least_of(1.5, f32::NAN), 1.5);
    assert_eq!(greatest_of(f32::NAN, 1.5), 1.5);
    assert_eq!(greatest_of(1.5, f32::NAN), 1.5);
}

#[test]
fn vector2_min_and_max_compare_x_with_y() {
    let v: Vector2<i32> = Vector2::new(4, 4);
    assert_eq!(v.min(), 4);
    assert_eq!(v.max(), 4);
}

#[test]
fn unit_vectors_of_three_and_four_components() {
    assert_eq!(Vector3::<i32>::zero(), Vector3::new(0, 0, 0));
    assert_eq!(Vector3::<i32>::up(), Vector3::new(0, 1, 0));
    assert_eq!(Vector3::<i32>::down(), Vector3::new(0, -1, 0));
    assert_eq!(Vector3::<i32>::left(), Vector3::new(-1, 0, 0));
    assert_eq!(Vector3::<i32>::right(), Vector3::new(1, 0, 0));
    assert_eq!(Vector3::<i32>::forward(), Vector3::new(0, 0, 1));
    assert_eq!(Vector3::<i32>::backward(), Vector3::new(0, 0, -1));
    assert_eq!(Vector4::<f32>::forward(), Vector4::new(0.0, 0.0, 1.0, 0.0));
    assert_eq!(Vector4::<f32>::backward(), Vector4::new(0.0, 0.0, -1.0, 0.0));
}

#[test]
fn is_checks_recognise_only_their_vector() {
    let up: Vector2<f32> = Vector2::up();
    assert!(up.is_up());
    assert!(!up.is_down());
    assert!(!up.is_zero());
    assert!(Vector2::<i16>::zero().is_zero());
    assert!(Vector2::<i16>::left().is_left());
    assert!(Vector2::<i16>::right().is_right());
    assert!(!Vector2::<i16>::right().is_left());
    assert!(Vector3::<i8>::forward().is_forward());
    assert!(!Vector3::<i8>::forward().is_backward());
    assert!(Vector4::<f32>::backward().is_backward());
    assert!(Vector4::<f32>::down().is_down());
    assert!(!Vector4::<f32>::new(0.0, -1.0, 0.0, 1.0).is_down());
}

#[test]
fn defaults_are_zero() {
    assert_eq!(Vector3::<u8>::default(), Vector3::new(0, 0, 0));
    assert_eq!(Vector4::<f32>::default(), Vector4::zero());
}

#[test]
fn conversions_to_and_from_arrays_and_tuples() {
    let v: Vector2<i32> = [4, 5].into();
    assert_eq!(v, Vector2::new(4, 5));
    let v: Vector2<i32> = (6, 7).into();
    assert_eq!(v, Vector2::new(6, 7));
    let a: [i32; 2] = Vector2::new(1, 2).into();
    assert_eq!(a, [1, 2]);
    let t: (i32, i32) = Vector2::new(1, 2).into();
    assert_eq!(t, (1, 2));
    let v3: Vector3<f32> = [1.0, 2.0, 3.0].into();
    assert_eq!(v3, Vector3::new(1.0, 2.0, 3.0));
    let t3: (f32, f32, f32) = v3.into();
    assert_eq!(t3, (1.0, 2.0, 3.0));
    let v4: Vector4<u16> = (1, 2, 3, 4).into();
    let a4: [u16; 4] = v4.into();
    assert_eq!(a4, [1, 2, 3, 4]);
    let lifted: Vector3<i32> = Vector2::new(8, 9).into();
    assert_eq!(lifted, Vector3::new(8, 9, 0));
}

#[test]
fn scalar_operation_equals_operation_with_splatted_vector() {
    let v: Vector4<i32> = Vector4::new(9, -4, 6, 1);
    let s = 3;
    let splat = Vector4::new(s, s, s, s);
    assert_eq!(v + s, v + splat);
    assert_eq!(v - s, v - splat);
    assert_eq!(v * s, v * splat);
    assert_eq!(v / s, v / splat);
    assert_eq!(v % s, v % splat);
}

#[test]
fn dot_equals_sum_of_pairwise_product() {
    let a: Vector3<i32> = Vector3::new(2, -3, 4);
    let b: Vector3<i32> = Vector3::new(5, 6, -7);
    assert_eq!(Vector3::dot(a, b), (a * b).sum());
    assert_eq!(Vector3::dot(a, b), -36);
}

#[test]
fn round_trips_negation_and_cancellation() {
    let v: Vector2<i32> = Vector2::new(12, -5);
    let w: Vector2<i32> = Vector2::new(-3, 8);
    let arr: [i32; 2] = v.into();
    assert_eq!(Vector2::from(arr), v);
    assert_eq!(-(-v), v);
    assert_eq!((v + w) - w, v);
    assert_eq!(v + (-v), Vector2::zero());
}

#[test]
fn addition_and_dot_do_not_depend_on_order() {
    let a: Vector4<i64> = Vector4::new(1, -2, 3, -4);
    let b: Vector4<i64> = Vector4::new(-5, 6, 7, 8);
    assert_eq!(a + b, b + a);
    assert_eq!(Vector4::dot(a, b), Vector4::dot(b, a));
    assert_eq!(Vector4::dot(a, b), -5 - 12 + 21 - 32);
}
