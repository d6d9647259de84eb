//! Square matrices of order 2, 3 and 4 over a generic scalar, for 3-D
//! transforms: construction, arithmetic, determinants and inverses,
//! rotations and projections.

pub mod angle;
pub mod mat2;
pub mod mat3;
pub mod mat4;
pub mod matrix;
pub mod projection;
pub mod quat;
pub mod scalar;
pub mod vec;

pub use angle::Angle;
pub use mat2::Mat2;
pub use mat3::Mat3;
pub use mat4::Mat4;
pub use matrix::{Matrix, Matrix2, Matrix3, Matrix4, MutableMatrix};
pub use projection::{frustum, ortho, perspective};
pub use quat::Quat;
pub use scalar::Scalar;
pub use vec::{Vec2, Vec3, Vec4};
