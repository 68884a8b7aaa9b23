//! Vectors of two, three and four components, with the arithmetic that
//! positions and sizes on the screen need.

pub mod order;
pub mod vector2;
pub mod vector3;
pub mod vector4;
