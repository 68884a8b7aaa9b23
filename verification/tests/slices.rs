use wasm_ui::{assert_slice_eq, compare_slices, Backend, RenderError, SliceMismatch, Spacer};

#[test]
fn equal_slices_match() {
    assert_eq!(compare_slices(&[1, 2, 3], &[1, 2, 3]), Ok(()));
    let empty: [u8; 0] = [];
    assert_eq!(compare_slices(&empty, &empty), Ok(()));
}

#[test]
fn asserting_equal_slices_returns() {
    assert_slice_eq(&[1, 2, 3], &[1, 2, 3]);
    let empty: [u8; 0] = [];
    assert_slice_eq(&empty, &empty);
}

#[test]
fn slices_of_different_length_report_both_lengths() {
    assert_eq!(
        compare_slices(&[1, 2, 3], &[1, 2]),
        Err(SliceMismatch::Length { expected: 3, actual: 2 })
    );
}

#[test]
fn slices_report_the_first_differing_item() {
    assert_eq!(compare_slices(&[1, 2, 3, 4], &[1, 9, 3, 8]), Err(SliceMismatch::Item { index: 1 }));
    assert_eq!(compare_slices(&["a"], &["b"]), Err(SliceMismatch::Item { index: 0 }));
}

struct CountingBackend {
    fail: bool,
}

impl Backend for CountingBackend {
    fn render(&self) -> Result<(), RenderError> {
        if self.fail {
            Err(RenderError { message: String::from("no canvas") })
        } else {
            Ok(())
        }
    }
}

#[test]
fn backends_report_render_errors() {
    assert!(CountingBackend { fail: false }.render().is_ok());
    let err = CountingBackend { fail: true }.render().unwrap_err();
    assert_eq!(err.message, "no canvas");
    let _spacer = Spacer {};
}
