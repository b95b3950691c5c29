//! Dense vector and matrix products over a caller-supplied scalar type.
//!
//! The kernel fixes the shape rules and the order in which products are
//! accumulated; the scalar arithmetic itself is handed in as a pair of
//! closures (see [`ScalarOps`]), so the same code serves any number type.
pub mod shape;
pub mod kernel;
pub mod laws;

pub use shape::{check_dot, DimError};
pub use kernel::{
    dot, matrix_dot_matrix, matrix_dot_vec, vec_dot_matrix_dot_vec, x_dot_x, Matrix, ScalarOps,
};
