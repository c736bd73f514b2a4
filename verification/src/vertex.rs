//! The vertex sources of a draw request, and the inference of the vertex
//! and instance counts they imply.
//!
//! The sources are walked once, in order, and every buffer-backed source is
//! bound and fenced.  Non-instanced sources must all agree on the element
//! count; a disagreement makes the vertex count indeterminate, which only
//! becomes an error if the draw needs it.  Per-instance sources must all
//! agree on the instance count; a disagreement there fails the whole call
//! at once, wherever in the walk it stands.

use vstd::prelude::*;
use crate::buffer::BufferRef;
use crate::commands::AttributeSource;
use crate::error::DrawError;

verus! {

/// One source of vertices.
#[derive(Clone, Copy, Debug, PartialEq, Eq)]
pub enum VerticesSource {
    /// A buffer of vertex data.
    VertexBuffer {
        /// The backing buffer.
        buffer: BufferRef,
        /// Whether the source advances once per instance instead of once
        /// per vertex.
        per_instance: bool,
    },
    /// A marker that only describes a number of vertices, without backing
    /// storage: it contributes to count inference, not to binding.
    Marker {
        /// The number of vertices.
        len: usize,
        /// Whether the count is an instance count.
        per_instance: bool,
    },
}

impl VerticesSource {
    /// Whether the source advances per instance.
    pub open spec fn is_per_instance(self) -> bool {
        match self {
            VerticesSource::VertexBuffer { per_instance, .. } => per_instance,
            VerticesSource::Marker { per_instance, .. } => per_instance,
        }
    }

    /// The element count the source reports.
    pub open spec fn count(self) -> usize {
        match self {
            VerticesSource::VertexBuffer { buffer, .. } => buffer.elements_count,
            VerticesSource::Marker { len, .. } => len,
        }
    }
}

/// The outcome of walking the vertex sources from position `i` with the
/// counts inferred so far: the vertex count (`None` when the non-instanced
/// sources disagreed), the instance count, and the error, if any.
/// `poisoned` records that a disagreement already made the vertex count
/// indeterminate for good.
pub open spec fn scan_sources_from(
    srcs: Seq<VerticesSource>,
    i: int,
    vertices: Option<usize>,
    poisoned: bool,
    instances: Option<usize>,
) -> (Option<usize>, Option<usize>, Option<DrawError>)
    decreases srcs.len() - i,
{
    if i < 0 || i >= srcs.len() {
        ((if poisoned {
            None
        } else {
            vertices
        }), instances, None)
    } else {
        let s = srcs[i];
        if !s.is_per_instance() {
            if poisoned {
                scan_sources_from(srcs, i + 1, vertices, true, instances)
            } else {
                match vertices {
                    Some(c) => if c != s.count() {
                        scan_sources_from(srcs, i + 1, None, true, instances)
                    } else {
                        scan_sources_from(srcs, i + 1, vertices, false, instances)
                    },
                    None => scan_sources_from(srcs, i + 1, Some(s.count()), false, instances),
                }
            }
        } else {
            match instances {
                Some(c) => if c != s.count() {
                    ((if poisoned {
                        None
                    } else {
                        vertices
                    }), instances, Some(DrawError::InstancesCountMismatch))
                } else {
                    scan_sources_from(srcs, i + 1, vertices, poisoned, instances)
                },
                None => scan_sources_from(srcs, i + 1, vertices, poisoned, Some(s.count())),
            }
        }
    }
}

/// The outcome of walking all the vertex sources.
pub open spec fn scan_sources(srcs: Seq<VerticesSource>) -> (
    Option<usize>,
    Option<usize>,
    Option<DrawError>,
) {
    scan_sources_from(srcs, 0, None, false, None)
}

/// The attribute bindings of the buffer-backed sources among the first
/// `upto` sources, in order.
pub open spec fn attribute_list(srcs: Seq<VerticesSource>, upto: int) -> Seq<AttributeSource>
    decreases upto,
{
    if upto <= 0 {
        Seq::empty()
    } else {
        let prev = attribute_list(srcs, upto - 1);
        match srcs[upto - 1] {
            VerticesSource::VertexBuffer { buffer, per_instance } => prev.push(
                AttributeSource {
                    buffer: buffer.id,
                    divisor: if per_instance {
                        Some(1u32)
                    } else {
                        None
                    },
                },
            ),
            VerticesSource::Marker { .. } => prev,
        }
    }
}

/// The buffers among the first `upto` sources whose reads must be fenced,
/// in order.
pub open spec fn fence_list(srcs: Seq<VerticesSource>, upto: int) -> Seq<u32>
    decreases upto,
{
    if upto <= 0 {
        Seq::empty()
    } else {
        let prev = fence_list(srcs, upto - 1);
        match srcs[upto - 1] {
            VerticesSource::VertexBuffer { buffer, .. } => if buffer.fenced {
                prev.push(buffer.id)
            } else {
                prev
            },
            VerticesSource::Marker { .. } => prev,
        }
    }
}

/// Walks all the vertex sources once: infers the vertex and instance counts
/// and collects the attribute bindings and the buffers to fence.
pub fn scan_vertex_sources(sources: &Vec<VerticesSource>) -> (r: Result<
    (Option<usize>, Option<usize>, Vec<AttributeSource>, Vec<u32>),
    DrawError,
>)
    ensures
        ({
            let (v, ins, e) = scan_sources(sources@);
            match r {
                Ok((rv, rins, attrs, fences)) => e is None && rv == v && rins == ins && attrs@
                    == attribute_list(sources@, sources@.len() as int) && fences@ == fence_list(
                    sources@,
                    sources@.len() as int,
                ),
                Err(err) => e == Some(err),
            }
        }),
{
    let mut vertices: Option<usize> = None;
    let mut poisoned: bool = false;
    let mut instances: Option<usize> = None;
    let mut attrs: Vec<AttributeSource> = Vec::new();
    let mut fences: Vec<u32> = Vec::new();
    let n = sources.len();
    let mut i: usize = 0;
    proof {
        assert(attrs@ =~= attribute_list(sources@, 0));
        assert(fences@ =~= fence_list(sources@, 0));
    }
    while i < n
        invariant
            n == sources@.len(),
            i <= n,
            scan_sources(sources@) == scan_sources_from(
                sources@,
                i as int,
                vertices,
                poisoned,
                instances,
            ),
            poisoned ==> vertices is None,
            attrs@ == attribute_list(sources@, i as int),
            fences@ == fence_list(sources@, i as int),
        decreases n - i,
    {
        let src = sources[i];
        match src {
            VerticesSource::VertexBuffer { buffer, per_instance } => {
                if buffer.fenced {
                    fences.push(buffer.id);
                }
                attrs.push(
                    AttributeSource {
                        buffer: buffer.id,
                        divisor: if per_instance {
                            Some(1)
                        } else {
                            None
                        },
                    },
                );
            },
            VerticesSource::Marker { .. } => {},
        }
        proof {
            assert(attrs@ =~= attribute_list(sources@, i + 1));
            assert(fences@ =~= fence_list(sources@, i + 1));
        }
        let per_instance = match src {
            VerticesSource::VertexBuffer { per_instance, .. } => per_instance,
            VerticesSource::Marker { per_instance, .. } => per_instance,
        };
        let count = match src {
            VerticesSource::VertexBuffer { buffer, .. } => buffer.elements_count,
            VerticesSource::Marker { len, .. } => len,
        };
        if !per_instance {
            if !poisoned {
                match vertices {
                    Some(c) => {
                        if c != count {
                            vertices = None;
                            poisoned = true;
                        }
                    },
                    None => {
                        vertices = Some(count);
                    },
                }
            }
        } else {
            match instances {
                Some(c) => {
                    if c != count {
                        return Err(DrawError::InstancesCountMismatch);
                    }
                },
                None => {
                    instances = Some(count);
                },
            }
        }
        i += 1;
    }
    Ok((vertices, instances, attrs, fences))
}

} // verus!
