//! Fixed-size vectors and points over a scalar type, with axis-aligned boxes
//! and rays built on them.
//!
//! A scalar (`numeric`) is a bounded integer type with a value in `int`. The
//! view of a vector (`vector`, `dims`, `point`) is the sequence of the values
//! of its components, and `model` says on such sequences what each operation
//! computes. The operators (`ops`) and the other operations require that every
//! intermediate result fits the scalar, and ensure the result that `model`
//! gives. Boxes (`aabb`) and rays (`ray`) are stated over the same views, and
//! each module proves the laws that its operations obey.
pub mod aabb;
pub mod dims;
pub mod model;
pub mod numeric;
pub mod ops;
pub mod point;
pub mod ray;
pub mod vector;

pub use crate::aabb::Bounds;
pub use crate::dims::Vec2;
pub use crate::dims::Vec3;
pub use crate::dims::Vec4;
pub use crate::numeric::Numeric;
pub use crate::point::Point;
pub use crate::point::Point2;
pub use crate::point::Point3;
pub use crate::point::Point4;
pub use crate::ray::Ray;
pub use crate::vector::Vector;
