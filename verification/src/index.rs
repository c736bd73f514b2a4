//! Sources of indices: how vertices are linked together into primitives.
//!
//! A draw call assembles its vertices either through an explicit index buffer,
//! through an indirect multidraw buffer, or in the order in which the vertices
//! stand in their sources (`NoIndices`).

use vstd::prelude::*;
use crate::buffer::BufferRef;

verus! {

/// List of available primitives.
#[derive(Clone, Copy, Debug, PartialEq, Eq, Structural)]
pub enum PrimitiveType {
    Points,
    LinesList,
    LinesListAdjacency,
    LineStrip,
    LineStripAdjacency,
    TrianglesList,
    TrianglesListAdjacency,
    TriangleStrip,
    TriangleStripAdjacency,
    TriangleFan,
    /// A tessellation patch of a caller-chosen number of control points.
    Patches {
        /// Number of vertices per patch.
        vertices_per_patch: u16,
    },
}

/// Describes a source of indices used for drawing.
#[derive(Clone, Copy, Debug, PartialEq, Eq, Structural)]
pub enum IndicesSource {
    /// A buffer of indices uploaded in video memory.
    IndexBuffer {
        /// The buffer.
        buffer: BufferRef,
        /// Type of the indices in the buffer.
        data_type: IndexType,
        /// Type of primitives contained in the vertex source.
        primitives: PrimitiveType,
    },
    /// A multidraw indirect buffer without indices.
    MultidrawArray {
        /// The buffer of draw records.
        buffer: BufferRef,
        /// Type of primitives contained in the vertex source.
        primitives: PrimitiveType,
    },
    /// Don't use indices: assemble primitives in the order in which the
    /// vertices stand in the vertices source.
    NoIndices {
        /// Type of primitives contained in the vertex source.
        primitives: PrimitiveType,
    },
}

impl IndicesSource {
    /// The type of the primitives, whichever variant carries it.
    pub open spec fn primitives_type(self) -> PrimitiveType {
        match self {
            IndicesSource::IndexBuffer { primitives, .. } => primitives,
            IndicesSource::MultidrawArray { primitives, .. } => primitives,
            IndicesSource::NoIndices { primitives } => primitives,
        }
    }

    /// Returns the type of the primitives.
    pub fn get_primitives_type(&self) -> (r: PrimitiveType)
        ensures
            r == self.primitives_type(),
    {
        match self {
            IndicesSource::IndexBuffer { primitives, .. } => *primitives,
            IndicesSource::MultidrawArray { primitives, .. } => *primitives,
            IndicesSource::NoIndices { primitives } => *primitives,
        }
    }
}

/// Marker that can be used as an indices source when you don't need indices:
/// primitives are built from the vertices in source order.
#[derive(Clone, Copy, Debug, PartialEq, Eq, Structural)]
pub struct NoIndices(pub PrimitiveType);

impl From<NoIndices> for IndicesSource {
    /// Turns the marker into the `NoIndices` indices source.
    fn from(marker: NoIndices) -> (r: IndicesSource) {
        IndicesSource::NoIndices { primitives: marker.0 }
    }
}

impl vstd::std_specs::convert::FromSpecImpl<NoIndices> for IndicesSource {
    open spec fn obeys_from_spec() -> bool {
        true
    }

    open spec fn from_spec(marker: NoIndices) -> IndicesSource {
        IndicesSource::NoIndices { primitives: marker.0 }
    }
}

/// Type of the indices in an index source.
#[derive(Clone, Copy, Debug, PartialEq, Eq, Structural)]
pub enum IndexType {
    /// `u8` indices.
    U8,
    /// `u16` indices.
    U16,
    /// `u32` indices.
    U32,
}

impl IndexType {
    /// The size in bytes of one index of this type.
    pub open spec fn size_bytes(self) -> usize {
        match self {
            IndexType::U8 => 1usize,
            IndexType::U16 => 2usize,
            IndexType::U32 => 4usize,
        }
    }

    /// Returns the size in bytes of each index of this type.
    pub fn get_size(&self) -> (r: usize)
        ensures
            r == self.size_bytes(),
    {
        match *self {
            IndexType::U8 => 1,
            IndexType::U16 => 2,
            IndexType::U32 => 4,
        }
    }
}

/// An index from an index buffer.
pub trait Index: Copy {
    /// The `IndexType` that values of this type fill a buffer with.
    spec fn index_type() -> IndexType;

    /// Returns the `IndexType` corresponding to this type.
    fn get_type() -> (r: IndexType)
        ensures
            r == Self::index_type(),
    ;
}

impl Index for u8 {
    open spec fn index_type() -> IndexType {
        IndexType::U8
    }

    fn get_type() -> IndexType {
        IndexType::U8
    }
}

impl Index for u16 {
    open spec fn index_type() -> IndexType {
        IndexType::U16
    }

    fn get_type() -> IndexType {
        IndexType::U16
    }
}

impl Index for u32 {
    open spec fn index_type() -> IndexType {
        IndexType::U32
    }

    fn get_type() -> IndexType {
        IndexType::U32
    }
}

} // verus!
