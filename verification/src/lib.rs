//! Vectors of two, three and four components and small matrices, over any
//! scalar type: arithmetic, swizzling, conversions, and the matrices of
//! the affine transforms.
//!
//! A scalar is a number type with the usual operators (`Scalar`). The
//! machine integers qualify, and so do the floating-point types, whose
//! arithmetic rounds. For that reason every contract speaks of the
//! scalar's own operators: a component of a sum is "a value that `+` may
//! give for these two components" (`scalar::sum_of`), and it is one fixed
//! value only where the scalar's `+` is exact.
//!
//! What the scalar type cannot do itself is handed in: `magnitude` takes
//! the square root to use, `angle` the arc cosine, and rotations take the
//! cosine and sine of their angle.
//!
//! Misuse is ruled out by preconditions, not by run-time failure. For
//! each precondition that depends on values there is a function that
//! tests it: `can_swizzle`, `has_comp`, `zero_by_zero`, `has_zero`,
//! `verify_mat_index`, `verify_content`, `is_rectangular`, `can_be_from`.

pub mod dot;
pub mod lemmas;
pub mod mat;
pub mod scalar;
pub mod vec2;
pub mod vec3;
pub mod vec4;
pub mod vecx;

pub use crate::mat::Matrix;
pub use crate::scalar::Scalar;
pub use crate::vec2::Vec2;
pub use crate::vec3::Vec3;
pub use crate::vec4::Vec4;
pub use crate::vecx::Components;
pub use crate::vecx::VecX;
