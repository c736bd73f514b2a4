//! The errors a draw call can return.  Every detected error aborts the call
//! immediately and is handed to the caller; none is retried or swallowed.

use vstd::prelude::*;
use crate::uniforms::UniformType;

verus! {

/// Why a draw call was refused.
#[derive(Clone, Debug, PartialEq, Eq)]
pub enum DrawError {
    /// A uniform value was supplied for a uniform of an incompatible type.
    UniformTypeMismatch {
        /// The uniform's name.
        name: String,
        /// The type the program declares for it.
        expected: UniformType,
    },
    /// A buffer was bound to a uniform block whose layout does not match
    /// the CPU-side layout of the value in the buffer.
    UniformBlockLayoutMismatch {
        /// The block's name.
        name: String,
    },
    /// A plain uniform value was supplied for a name the program declares
    /// as a uniform block.
    UniformValueToBlock {
        /// The name.
        name: String,
    },
    /// A uniform-block buffer was supplied for a name the program declares
    /// as a plain uniform.
    UniformBufferToValue {
        /// The name.
        name: String,
    },
    /// The per-instance vertex sources do not agree on the instance count.
    InstancesCountMismatch,
    /// A draw without indices needs the vertex count, but the non-instanced
    /// vertex sources do not agree on it.
    VerticesSourcesLengthMismatch,
    /// The number of vertices per patch is zero or above the device's limit.
    UnsupportedVerticesPerPatch,
    /// The request uses tessellation patches but the device has no
    /// tessellation stage.
    TessellationNotSupported,
    /// A query object that has already been used was asked to start again,
    /// or a query begin/end does not match the running queries.
    WrongQueryOperation,
}

} // verus!
