//! A minimal 2-dimensional vector value type: construction, component
//! access, a zero constant, and exact polar-angle ordering.

pub mod vector2d;

pub use crate::vector2d::Vector2D;
