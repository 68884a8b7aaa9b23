use wasm_ui::MatrixStack;

#[test]
fn new_stack_has_no_current_transform() {
    let mut stack: MatrixStack<i64> = MatrixStack::new();
    assert_eq!(stack.current(), None);
    assert_eq!(stack.pop(), None);
    let default: MatrixStack<i64> = MatrixStack::default();
    assert!(default.matrices.is_empty());
}

#[test]
fn transforms_come_out_in_the_order_they_went_in() {
    let mut stack = MatrixStack::new();
    stack.push(1).push(2).push(3);
    assert_eq!(stack.current(), Some(&1));
    assert_eq!(stack.pop(), Some(1));
    assert_eq!(stack.current(), Some(&2));
    assert_eq!(stack.pop(), Some(2));
    assert_eq!(stack.pop(), Some(3));
    assert_eq!(stack.pop(), None);
}

#[test]
fn push_keeps_the_current_transform() {
    let mut stack = MatrixStack::new();
    stack.push(7);
    stack.push(8);
    assert_eq!(stack.current(), Some(&7));
}

#[test]
fn product_multiplies_from_front_to_back() {
    let mut stack: MatrixStack<i64> = MatrixStack::new();
    assert_eq!(stack.product(1), 1);
    stack.push(2).push(3).push(5);
    assert_eq!(stack.product(1), 30);
    let before = stack.product(1);
    stack.push(7);
    assert_eq!(stack.product(1), before * 7);
}
