use wasm_ui::{Axis, CrossAxisAlignment, MainAxisAlignment, MainAxisSize};

#[test]
fn flex_defaults() {
    assert_eq!(Axis::default(), Axis::Vertical);
    assert_eq!(MainAxisAlignment::default(), MainAxisAlignment::Start);
    assert!(matches!(CrossAxisAlignment::default(), CrossAxisAlignment::Start));
    assert_eq!(MainAxisSize::default(), MainAxisSize::Min);
}

#[test]
fn axis_reads_the_main_and_cross_components() {
    assert_eq!(Axis::Horizontal.main_axis(10.0, 20.0), 10.0);
    assert_eq!(Axis::Horizontal.cross_axis(10.0, 20.0), 20.0);
    assert_eq!(Axis::Vertical.main_axis(10.0, 20.0), 20.0);
    assert_eq!(Axis::Vertical.cross_axis(10.0, 20.0), 10.0);
}

#[test]
fn align_to_axis_builds_the_pair() {
    assert_eq!(Axis::Horizontal.align_to_axis(1, 2), (1, 2));
    assert_eq!(Axis::Vertical.align_to_axis(1, 2), (2, 1));
}

#[test]
fn align_then_read_gives_the_components_back() {
    for axis in [Axis::Horizontal, Axis::Vertical] {
        let (x, y) = axis.align_to_axis("main", "cross");
        assert_eq!(axis.main_axis(x, y), "main");
        assert_eq!(axis.cross_axis(x, y), "cross");
        let (x2, y2) = axis.align_to_axis(axis.main_axis(3, 4), axis.cross_axis(3, 4));
        assert_eq!((x2, y2), (3, 4));
    }
    assert_eq!(Axis::Horizontal.main_axis(5, 6), Axis::Vertical.cross_axis(5, 6));
}
