//! The vocabulary of device commands the core can issue.
//!
//! The core does not talk to the device directly: it appends every command it
//! decides on to the context's command log, in issue order.  The layer that
//! owns the real device drains the log and performs each command; the driver
//! guarantees in-order execution, so the log order is the device order.

use vstd::prelude::*;
use crate::index::{IndexType, PrimitiveType};
use crate::params::{
    BlendEquation, ComparisonFunction, ConditionMode, Face, LinearBlendingFactor, PolygonMode,
    StencilOperation,
};
use crate::uniforms::{NumericValue, TextureDimension};

verus! {

/// A device capability that can be enabled or disabled.
#[derive(Clone, Copy, Debug, PartialEq, Eq, Structural)]
pub enum Capability {
    DepthTest,
    StencilTest,
    Blend,
    CullFace,
    Multisample,
    Dither,
    ScissorTest,
    /// Rasterizer discard through the core entry point.
    RasterizerDiscard,
    /// Rasterizer discard through the transform-feedback extension.
    RasterizerDiscardExt,
    FramebufferSrgb,
}

/// The slot a query runs in.
#[derive(Clone, Copy, Debug, PartialEq, Eq, Structural)]
pub enum QueryTarget {
    SamplesPassed,
    AnySamplesPassed,
    AnySamplesPassedConservative,
    TimeElapsed,
    PrimitivesGenerated,
    TransformFeedbackPrimitivesWritten,
}

/// One vertex source as handed to the attribute binder: the backing buffer
/// and the divisor (`Some(1)` advances the source once per instance instead
/// of once per vertex).
#[derive(Clone, Copy, Debug, PartialEq, Eq, Structural)]
pub struct AttributeSource {
    /// The backing buffer's name on the device.
    pub buffer: u32,
    /// The attribute divisor, or `None` for a per-vertex source.
    pub divisor: Option<u32>,
}

/// One command issued to the device, in the order the core decided on it.
#[derive(Clone, Debug, PartialEq, Eq)]
pub enum DeviceCommand {
    /// Enable a capability.
    Enable(Capability),
    /// Disable a capability.
    Disable(Capability),
    /// Set the depth comparison function.
    DepthFunc(ComparisonFunction),
    /// Set whether the depth buffer is written.
    DepthMask(bool),
    /// Set the depth range, as two device-encoded scalar patterns.
    DepthRange(u32, u32),
    /// Set the stencil function, reference value and read mask of one face.
    StencilFuncSeparate(Face, ComparisonFunction, i32, u32),
    /// Set the stencil write mask of one face.
    StencilMaskSeparate(Face, u32),
    /// Set the three stencil operations (fail, pass-depth-fail, pass) of one face.
    StencilOpSeparate(Face, StencilOperation, StencilOperation, StencilOperation),
    /// Set the blending equation.
    BlendEquation(BlendEquation),
    /// Set the source and destination blending factors.
    BlendFunc(LinearBlendingFactor, LinearBlendingFactor),
    /// Set which color channels are written.
    ColorMask(bool, bool, bool, bool),
    /// Set the line width, as a device-encoded scalar pattern.
    LineWidth(u32),
    /// Set the point size, as a device-encoded scalar pattern.
    PointSize(u32),
    /// Set which face is culled.
    CullFace(Face),
    /// Set how polygons are rasterized, for both faces.
    PolygonMode(PolygonMode),
    /// Set the viewport rectangle.
    Viewport(u32, u32, u32, u32),
    /// Set the scissor rectangle.
    Scissor(u32, u32, u32, u32),
    /// Set the number of vertices per tessellation patch.
    PatchParameter(u16),
    /// Begin a query in a slot.
    BeginQuery(QueryTarget, u32),
    /// End the query running in a slot.
    EndQuery(QueryTarget),
    /// Begin conditional rendering on a query; the flag says whether the
    /// extension entry point is used instead of the core one.
    BeginConditionalRender(u32, ConditionMode, bool),
    /// End conditional rendering; the flag says whether the extension entry
    /// point is used instead of the core one.
    EndConditionalRender(bool),
    /// Make a program current.
    UseProgram(u32),
    /// Bind a framebuffer for drawing.
    BindDrawFramebuffer(u32),
    /// Hand the vertex sources and the index buffer to the attribute binder,
    /// which attaches them to the attribute slots the program declares.
    BindVertexAttributes(Vec<AttributeSource>, u32, u32),
    /// Upload a plain uniform value to a location of a program.
    Uniform(u32, u32, NumericValue),
    /// Attach a program's uniform block to a buffer binding point.
    UniformBlockBinding(u32, u32, u32),
    /// Bind a buffer to an indexed uniform-buffer binding point.
    BindBufferBaseUniform(u32, u32),
    /// Select the active texture unit.
    ActiveTexture(u32),
    /// Bind a texture to the active unit's target of the given dimensionality.
    BindTexture(TextureDimension, u32),
    /// Bind a sampler object (0 for none) to a texture unit.
    BindSampler(u32, u32),
    /// Bind a buffer as the indirect draw command source.
    BindDrawIndirectBuffer(u32),
    /// Draw consecutive vertices: primitives, first vertex, vertex count.
    DrawArrays(PrimitiveType, u32, usize),
    /// Instanced form of `DrawArrays`: the last field is the instance count.
    DrawArraysInstanced(PrimitiveType, u32, usize, usize),
    /// Indexed draw: primitives, index count, index type, byte offset into
    /// the bound index buffer.
    DrawElements(PrimitiveType, usize, IndexType, usize),
    /// Instanced form of `DrawElements`: the last field is the instance count.
    DrawElementsInstanced(PrimitiveType, usize, IndexType, usize, usize),
    /// Multi-draw-indirect: primitives, byte offset into the indirect buffer,
    /// number of draw records to read.
    MultiDrawArraysIndirect(PrimitiveType, usize, usize),
    /// Install a fence that signals when every command issued so far has
    /// retired.  The value is the token the core tracks it under.
    FenceSync(u64),
    /// Destroy a fence token.
    DeleteSync(u64),
}

impl DeviceCommand {
    /// Whether this command is one of the terminal draw operations.
    pub open spec fn is_draw(self) -> bool {
        match self {
            DeviceCommand::DrawArrays(..) => true,
            DeviceCommand::DrawArraysInstanced(..) => true,
            DeviceCommand::DrawElements(..) => true,
            DeviceCommand::DrawElementsInstanced(..) => true,
            DeviceCommand::MultiDrawArraysIndirect(..) => true,
            _ => false,
        }
    }


    /// Whether this command is part of the state synchronizer's vocabulary:
    /// a render-state change, a query begin/end or conditional rendering —
    /// as opposed to resource binding, uniform upload, the terminal draw
    /// operations and fence handling.
    pub open spec fn is_render_state_call(self) -> bool {
        match self {
            DeviceCommand::Enable(..) => true,
            DeviceCommand::Disable(..) => true,
            DeviceCommand::DepthFunc(..) => true,
            DeviceCommand::DepthMask(..) => true,
            DeviceCommand::DepthRange(..) => true,
            DeviceCommand::StencilFuncSeparate(..) => true,
            DeviceCommand::StencilMaskSeparate(..) => true,
            DeviceCommand::StencilOpSeparate(..) => true,
            DeviceCommand::BlendEquation(..) => true,
            DeviceCommand::BlendFunc(..) => true,
            DeviceCommand::ColorMask(..) => true,
            DeviceCommand::LineWidth(..) => true,
            DeviceCommand::PointSize(..) => true,
            DeviceCommand::CullFace(..) => true,
            DeviceCommand::PolygonMode(..) => true,
            DeviceCommand::Viewport(..) => true,
            DeviceCommand::Scissor(..) => true,
            DeviceCommand::PatchParameter(..) => true,
            DeviceCommand::BeginQuery(..) => true,
            DeviceCommand::EndQuery(..) => true,
            DeviceCommand::BeginConditionalRender(..) => true,
            DeviceCommand::EndConditionalRender(..) => true,
            _ => false,
        }
    }
}

/// The log grew only by commands that are not draw operations.
pub open spec fn appended_no_draw(before: Seq<DeviceCommand>, after: Seq<DeviceCommand>) -> bool {
    &&& after.len() >= before.len()
    &&& (forall|i: int| 0 <= i < before.len() ==> after[i] == before[i])
    &&& (forall|i: int| before.len() <= i < after.len() ==> !(#[trigger] after[i]).is_draw())
}

/// Growing without draws is transitive.
pub proof fn lemma_appended_no_draw_trans(
    a: Seq<DeviceCommand>,
    b: Seq<DeviceCommand>,
    c: Seq<DeviceCommand>,
)
    requires
        appended_no_draw(a, b),
        appended_no_draw(b, c),
    ensures
        appended_no_draw(a, c),
{
}

/// The log grew only by commands outside the state synchronizer's
/// vocabulary: resource binds, uniform uploads, draw operations and fence
/// handling, but no render-state call.
pub open spec fn appended_no_render_state(
    before: Seq<DeviceCommand>,
    after: Seq<DeviceCommand>,
) -> bool {
    &&& after.len() >= before.len()
    &&& (forall|i: int| 0 <= i < before.len() ==> after[i] == before[i])
    &&& (forall|i: int|
        before.len() <= i < after.len() ==> !(#[trigger] after[i]).is_render_state_call())
}

/// Growing without render-state calls is transitive.
pub proof fn lemma_appended_no_render_state_trans(
    a: Seq<DeviceCommand>,
    b: Seq<DeviceCommand>,
    c: Seq<DeviceCommand>,
)
    requires
        appended_no_render_state(a, b),
        appended_no_render_state(b, c),
    ensures
        appended_no_render_state(a, c),
{
}

} // verus!

