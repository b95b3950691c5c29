//! Dimension rules shared by every product of the kernel.
use vstd::prelude::*;

verus! {

/// Why two operands cannot be combined.
#[derive(Debug, Clone, Copy, PartialEq, Eq, Structural)]
pub enum DimError {
    /// Two vectors that are multiplied element by element differ in length.
    DimensionMismatch { left: usize, right: usize },
}

/// What a dot product of operands of lengths `a_len` and `x_len` yields in
/// shape: their common length, or the mismatch.
pub open spec fn dot_shape(a_len: nat, x_len: nat) -> Result<usize, DimError> {
    if a_len == x_len {
        Ok(a_len as usize)
    } else {
        Err(DimError::DimensionMismatch { left: a_len as usize, right: x_len as usize })
    }
}

/// Checks that two vectors of lengths `a_len` and `x_len` can be dotted;
/// on success returns their common length.
pub fn check_dot(a_len: usize, x_len: usize) -> (r: Result<usize, DimError>)
    ensures
        r == dot_shape(a_len as nat, x_len as nat),
        r is Ok <==> a_len == x_len,
{
    if a_len != x_len {
        Err(DimError::DimensionMismatch { left: a_len, right: x_len })
    } else {
        Ok(a_len)
    }
}

} // verus!
