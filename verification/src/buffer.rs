//! Handles to device buffers, as the core sees them.

use vstd::prelude::*;

verus! {

/// A handle to an already-created device buffer.
///
/// The core never creates, destroys or uploads buffers; it only needs the
/// buffer's name on the device, how many elements it holds, where its slice
/// begins, and whether reads of it by in-flight device commands must be
/// fenced.
#[derive(Clone, Copy, Debug, PartialEq, Eq, Structural)]
pub struct BufferRef {
    /// The buffer's name on the device.
    pub id: u32,
    /// Number of elements in the slice this handle describes.
    pub elements_count: usize,
    /// Byte offset of the slice inside the buffer.
    pub offset_bytes: usize,
    /// Whether CPU-side accesses to this buffer must synchronize with the
    /// device, so that a fence has to be installed after a command reads it.
    pub fenced: bool,
}

} // verus!
