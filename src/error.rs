use vstd::prelude::*;
use crate::dtype::GgmlDType;

verus! {

/// Why an operation on quantized storage failed.
#[derive(Clone, Copy, Debug, PartialEq, Eq, Structural)]
pub enum QError {
    /// The scheme has no kernel or decoder for the requested operation.
    UnsupportedDtype(GgmlDType),
    /// Operand element counts do not fit the matrix-vector contract.
    ShapeMismatch,
    /// The inner dimensions of a matmul differ.
    DimensionMismatch,
    /// The stored matrix or the right-hand operand has a rank the dispatcher does not take.
    UnsupportedShape,
    /// The vector path was given a strided operand.
    RequiresContiguous,
    /// The device refused an allocation or a copy.
    Device,
}

} // verus!
