//! The verified core of a small user-interface library that lays out boxes
//! like Flutter and CSS flexbox and paints them on a WebGL canvas.

pub mod backend;
pub mod container;
pub mod flex;
pub mod input;
pub mod math;
pub mod mesh;
pub mod test_util;
pub mod tree;

pub use backend::{Backend, RenderError};
pub use container::Spacer;
pub use flex::{Axis, CrossAxisAlignment, MainAxisAlignment, MainAxisSize};
pub use input::{InputState, Key, Keyboard};
pub use math::vector2::Vector2;
pub use math::vector3::Vector3;
pub use math::vector4::Vector4;
pub use mesh::MatrixStack;
pub use test_util::{assert_slice_eq, compare_slices, SliceMismatch};
pub use tree::{LayoutBoxId, LayoutTree};
