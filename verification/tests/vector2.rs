use wasm_ui::math::vector2::Vector2;

#[test]
fn macro_constructor_is_equal_to_new_constructor() {
    let actual: Vector2<f32> = Vector2 { x: 199.0, y: -512.0 };
    let expected = Vector2::new(199.0, -512.0);
    assert_eq!(expected, actual);
}

#[test]
fn up_constructor_is_up() {
    let actual = Vector2::<f32>::up();
    let expected = Vector2::new(0.0, 1.0);
    assert_eq!(expected, actual);
}

#[test]
fn down_constructor_is_down() {
    let actual = Vector2::<f32>::down();
    let expected = Vector2::new(0.0, -1.0);
    assert_eq!(expected, actual);
}

#[test]
fn left_constructor_is_left() {
    let actual = Vector2::<f32>::left();
    let expected = Vector2::new(-1.0, 0.0);
    assert_eq!(expected, actual);
}

#[test]
fn right_constructor_is_right() {
    let actual = Vector2::<f32>::right();
    let expected = Vector2::new(1.0, 0.0);
    assert_eq!(expected, actual);
}

#[test]
fn sum_gives_expected_result() {
    let vec = Vector2::<f32>::new(-50.0, 100.0);

    let actual = vec.sum();
    let expected = 50.0;
    assert_eq!(expected, actual);
}

#[test]
fn product_gives_expected_result() {
    let vec = Vector2::<f32>::new(-50.0, 100.0);

    let actual = vec.product();
    let expected = -5000.0;
    assert_eq!(expected, actual);
}

#[test]
fn dot_product_is_zero_for_equal_vectors() {
    let a = Vector2::<f32>::new(0.0, 1.0);
    let b = Vector2::<f32>::new(0.0, 1.0);

    let actual = Vector2::dot(a, b);
    let expected = 1.0;
    assert_eq!(expected, actual);
}

#[test]
fn dot_product_gives_expected_result() {
    let a = Vector2::<f32>::new(50.0, -100.0);
    let b = Vector2::<f32>::new(-20.0, 100.0);

    let actual = Vector2::dot(a, b);
    let expected = -11000.0;
    assert_eq!(expected, actual);
}

#[test]
fn min_gives_expected_result_when_x_is_less_than_y() {
    let vec = Vector2::<f32>::new(-100.0, 50.0);
    assert_eq!(-100.0, vec.min());
}

#[test]
fn min_gives_expected_result_when_y_is_less_than_x() {
    let vec = Vector2::<f32>::new(50.0, -100.0);
    assert_eq!(-100.0, vec.min());
}

#[test]
fn max_gives_expected_result_when_x_is_greater_than_y() {
    let vec = Vector2::<f32>::new(50.0, -100.0);
    assert_eq!(50.0, vec.max());
}

#[test]
fn max_gives_expected_result_when_y_is_greater_than_x() {
    let vec = Vector2::<f32>::new(-100.0, 50.0);
    assert_eq!(50.0, vec.max());
}

#[test]
fn default_constructor_is_zero() {
    let actual = Default::default();
    let expected = Vector2::<f32>::zero();
    assert_eq!(expected, actual);
}

#[test]
fn negate_gives_expected_result() {
    let vec = Vector2::<f32>::new(-100.0, 50.0);

    let actual = -vec;
    let expected = Vector2::<f32>::new(100.0, -50.0);
    assert_eq!(expected, actual);
}

#[test]
fn adding_vector_to_vector_gives_expected_result() {
    let a = Vector2::<f32>::new(-100.0, 50.0);
    let b = Vector2::<f32>::new(100.0, -50.0);

    let actual = a + b;
    let expected = Vector2::<f32>::zero();
    assert_eq!(expected, actual);
}

#[test]
fn add_assign_vector_to_vector_gives_expected_result() {
    let mut actual = Vector2::<f32>::new(-100.0, 50.0);
    actual += Vector2::<f32>::new(100.0, -50.0);

    let expected = Vector2::<f32>::zero();
    assert_eq!(expected, actual);
}

#[test]
fn subtracting_vector_from_vector_gives_expected_result() {
    let a = Vector2::<f32>::new(-100.0, 50.0);
    let b = Vector2::<f32>::new(100.0, -50.0);

    let actual = a - b;
    let expected = Vector2::<f32>::new(-200.0, 100.0);
    assert_eq!(expected, actual);
}

#[test]
fn subtract_assign_vector_to_vector_gives_expected_result() {
    let mut actual = Vector2::<f32>::new(-100.0, 50.0);
    actual -= Vector2::<f32>::new(100.0, -50.0);

    let expected = Vector2::<f32>::new(-200.0, 100.0);
    assert_eq!(expected, actual);
}

#[test]
fn multiplying_vector_by_vector_gives_expected_result() {
    let a = Vector2::<f32>::new(-100.0, 50.0);
    let b = Vector2::<f32>::new(100.0, -50.0);

    let actual = a * b;
    let expected = Vector2::<f32>::new(-10000.0, -2500.0);
    assert_eq!(expected, actual);
}

#[test]
fn multiply_assign_vector_to_vector_gives_expected_result() {
    let mut actual = Vector2::<f32>::new(-100.0, 50.0);
    actual *= Vector2::<f32>::new(100.0, -50.0);

    let expected = Vector2::<f32>::new(-10000.0, -2500.0);
    assert_eq!(expected, actual);
}

#[test]
fn dividing_vector_by_vector_gives_expected_result() {
    let a = Vector2::<f32>::new(-100.0, 50.0);
    let b = Vector2::<f32>::new(100.0, -50.0);

    let actual = a / b;
    let expected = Vector2::<f32>::new(-1.0, -1.0);
    assert_eq!(expected, actual);
}

#[test]
fn div_assign_vector_to_vector_gives_expected_result() {
    let mut actual = Vector2::<f32>::new(-100.0, 50.0);
    actual /= Vector2::<f32>::new(100.0, -50.0);

    let expected = Vector2::<f32>::new(-1.0, -1.0);
    assert_eq!(expected, actual);
}

#[test]
fn remainder_vector_by_vector_gives_expected_result() {
    let a = Vector2::<f32>::new(-100.0, 50.0);
    let b = Vector2::<f32>::new(100.0, -50.0);

    let actual = a % b;
    let expected = Vector2::<f32>::zero();
    assert_eq!(expected, actual);
}

#[test]
fn remainder_assign_vector_to_vector_gives_expected_result() {
    let mut actual = Vector2::<f32>::new(-100.0, 50.0);
    actual %= Vector2::<f32>::new(100.0, -50.0);

    let expected = Vector2::<f32>::zero();
    assert_eq!(expected, actual);
}

#[test]
fn add_scalar_to_vector_gives_expected_result() {
    let vec = Vector2::<f32>::new(-100.0, 50.0);
    let scalar = 100.0;

    let actual = vec + scalar;
    let expected = Vector2::<f32>::new(0.0, 150.0);
    assert_eq!(expected, actual);
}

#[test]
fn add_assign_scalar_to_vector_gives_expected_result() {
    let mut actual = Vector2::<f32>::new(-100.0, 50.0);
    actual += 100.0;

    let expected = Vector2::<f32>::new(0.0, 150.0);
    assert_eq!(expected, actual);
}

#[test]
fn subtract_scalar_from_vector_gives_expected_result() {
    let vec = Vector2::<f32>::new(-100.0, 50.0);
    let scalar = 100.0;

    let actual = vec - scalar;
    let expected = Vector2::<f32>::new(-200.0, -50.0);
    assert_eq!(expected, actual);
}

#[test]
fn subtract_assign_scalar_to_vector_gives_expected_result() {
    let mut actual = Vector2::<f32>::new(-100.0, 50.0);
    actual -= 100.0;

    let expected = Vector2::<f32>::new(-200.0, -50.0);
    assert_eq!(expected, actual);
}

#[test]
fn multiply_vector_by_scalar_gives_expected_result() {
    let vec = Vector2::<f32>::new(-100.0, 50.0);
    let scalar = 100.0;

    let actual = vec * scalar;
    let expected = Vector2::<f32>::new(-10000.0, 5000.0);
    assert_eq!(expected, actual);
}

#[test]
fn multiply_assign_scalar_to_vector_gives_expected_result() {
    let mut actual = Vector2::<f32>::new(-100.0, 50.0);
    actual *= 100.0;

    let expected = Vector2::<f32>::new(-10000.0, 5000.0);
    assert_eq!(expected, actual);
}

#[test]
fn divide_vector_by_scalar_gives_expected_result() {
    let vec = Vector2::<f32>::new(-100.0, 50.0);
    let scalar = 100.0;

    let actual = vec / scalar;
    let expected = Vector2::<f32>::new(-1.0, 0.5);
    assert_eq!(expected, actual);
}

#[test]
fn divide_assign_scalar_to_vector_gives_expected_result() {
    let mut actual = Vector2::<f32>::new(-100.0, 50.0);
    actual /= 100.0;

    let expected = Vector2::<f32>::new(-1.0, 0.5);
    assert_eq!(expected, actual);
}

#[test]
fn remainder_vector_by_scalar_gives_expected_result() {
    let vec = Vector2::<f32>::new(-100.0, 50.0);
    let scalar = 100.0;

    let actual = vec % scalar;
    let expected = Vector2::<f32>::new(0.0, 50.0);
    assert_eq!(expected, actual);
}

#[test]
fn remainder_assign_scalar_to_vector_gives_expected_result() {
    let mut actual = Vector2::<f32>::new(-100.0, 50.0);
    actual %= 100.0;

    let expected = Vector2::<f32>::new(0.0, 50.0);
    assert_eq!(expected, actual);
}
