//! The render-state configuration of one draw request, and the enums its
//! axes are made of.
//!
//! Scalar values that the device takes as floating point (depth range, line
//! width, point size) are carried as the 32-bit patterns the device will
//! receive.  The core never interprets them: it only compares them against
//! the mirrored pattern to decide whether a device call is needed.

use vstd::prelude::*;

verus! {

/// A rectangle, in pixels, used for viewports and scissor boxes.
#[derive(Clone, Copy, Debug, PartialEq, Eq, Structural)]
pub struct Rect {
    /// Distance of the left border from the left of the surface.
    pub left: u32,
    /// Distance of the bottom border from the bottom of the surface.
    pub bottom: u32,
    /// Width of the rectangle.
    pub width: u32,
    /// Height of the rectangle.
    pub height: u32,
}

/// Function the device uses to compare an incoming depth value with the
/// stored one.
#[derive(Clone, Copy, Debug, PartialEq, Eq, Structural)]
pub enum DepthTest {
    /// Do not test: every incoming fragment overwrites the stored depth.
    Overwrite,
    /// Keep the fragment if its depth is equal to the stored depth.
    IfEqual,
    /// Keep the fragment if its depth is different from the stored depth.
    IfNotEqual,
    /// Keep the fragment if its depth is greater than the stored depth.
    IfMore,
    /// Keep the fragment if its depth is greater than or equal.
    IfMoreOrEqual,
    /// Keep the fragment if its depth is less than the stored depth.
    IfLess,
    /// Keep the fragment if its depth is less than or equal.
    IfLessOrEqual,
}

/// The comparison functions the device knows, as mirrored for the depth and
/// stencil axes.
#[derive(Clone, Copy, Debug, PartialEq, Eq, Structural)]
pub enum ComparisonFunction {
    Never,
    Less,
    Equal,
    LessOrEqual,
    Greater,
    NotEqual,
    GreaterOrEqual,
    Always,
}

impl DepthTest {
    /// The device comparison function of a depth test; `Overwrite` has none,
    /// the test is disabled instead.
    pub open spec fn comparison(self) -> ComparisonFunction {
        match self {
            DepthTest::Overwrite => ComparisonFunction::Always,
            DepthTest::IfEqual => ComparisonFunction::Equal,
            DepthTest::IfNotEqual => ComparisonFunction::NotEqual,
            DepthTest::IfMore => ComparisonFunction::Greater,
            DepthTest::IfMoreOrEqual => ComparisonFunction::GreaterOrEqual,
            DepthTest::IfLess => ComparisonFunction::Less,
            DepthTest::IfLessOrEqual => ComparisonFunction::LessOrEqual,
        }
    }
}

/// A stencil test, with the mask that is ANDed with both operands before the
/// comparison.
#[derive(Clone, Copy, Debug, PartialEq, Eq, Structural)]
pub enum StencilTest {
    /// The test always passes.
    AlwaysPass,
    /// The test always fails.
    AlwaysFail,
    /// `reference & mask < stored & mask`.
    IfLess { mask: u32 },
    /// `reference & mask <= stored & mask`.
    IfLessOrEqual { mask: u32 },
    /// `reference & mask > stored & mask`.
    IfMore { mask: u32 },
    /// `reference & mask >= stored & mask`.
    IfMoreOrEqual { mask: u32 },
    /// `reference & mask == stored & mask`.
    IfEqual { mask: u32 },
    /// `reference & mask != stored & mask`.
    IfNotEqual { mask: u32 },
}

impl StencilTest {
    /// The device encoding of the test: comparison function and read mask.
    pub open spec fn encoding(self) -> (ComparisonFunction, u32) {
        match self {
            StencilTest::AlwaysPass => (ComparisonFunction::Always, 0u32),
            StencilTest::AlwaysFail => (ComparisonFunction::Never, 0u32),
            StencilTest::IfLess { mask } => (ComparisonFunction::Less, mask),
            StencilTest::IfLessOrEqual { mask } => (ComparisonFunction::LessOrEqual, mask),
            StencilTest::IfMore { mask } => (ComparisonFunction::Greater, mask),
            StencilTest::IfMoreOrEqual { mask } => (ComparisonFunction::GreaterOrEqual, mask),
            StencilTest::IfEqual { mask } => (ComparisonFunction::Equal, mask),
            StencilTest::IfNotEqual { mask } => (ComparisonFunction::NotEqual, mask),
        }
    }
}

/// What the device does to a stored stencil value.
#[derive(Clone, Copy, Debug, PartialEq, Eq, Structural)]
pub enum StencilOperation {
    Keep,
    Zero,
    Replace,
    Increment,
    IncrementWrap,
    Decrement,
    DecrementWrap,
    Invert,
}

/// The blending equation the device mirror tracks.
#[derive(Clone, Copy, Debug, PartialEq, Eq, Structural)]
pub enum BlendEquation {
    Addition,
    Subtraction,
    ReverseSubtraction,
    Min,
    Max,
}

/// A source or destination factor of an arithmetic blending function.
#[derive(Clone, Copy, Debug, PartialEq, Eq, Structural)]
pub enum LinearBlendingFactor {
    Zero,
    One,
    SourceColor,
    OneMinusSourceColor,
    DestinationColor,
    OneMinusDestinationColor,
    SourceAlpha,
    OneMinusSourceAlpha,
    DestinationAlpha,
    OneMinusDestinationAlpha,
    SourceAlphaSaturate,
    ConstantColor,
    OneMinusConstantColor,
    ConstantAlpha,
    OneMinusConstantAlpha,
}

/// How an incoming fragment is combined with the stored color.
#[derive(Clone, Copy, Debug, PartialEq, Eq, Structural)]
pub enum BlendingFunction {
    /// The incoming fragment replaces the stored color; blending is disabled.
    AlwaysReplace,
    /// Component-wise minimum.
    Min,
    /// Component-wise maximum.
    Max,
    /// `source * source_factor + destination * destination_factor`.
    Addition { source: LinearBlendingFactor, destination: LinearBlendingFactor },
    /// `source * source_factor - destination * destination_factor`.
    Subtraction { source: LinearBlendingFactor, destination: LinearBlendingFactor },
    /// `destination * destination_factor - source * source_factor`.
    ReverseSubtraction { source: LinearBlendingFactor, destination: LinearBlendingFactor },
}

/// Which triangles are discarded by face culling.  The device's winding
/// convention is never changed: counter-clockwise stays the front face, and
/// culling clockwise triangles is expressed by culling the back face.
#[derive(Clone, Copy, Debug, PartialEq, Eq, Structural)]
pub enum BackfaceCullingMode {
    /// All triangles are drawn.
    CullingDisabled,
    /// Triangles whose vertices are counter-clockwise on the surface are not drawn.
    CullCounterClockWise,
    /// Triangles whose vertices are clockwise on the surface are not drawn.
    CullClockWise,
}

/// The face the device culls, in its fixed counter-clockwise-is-front
/// convention.
#[derive(Clone, Copy, Debug, PartialEq, Eq, Structural)]
pub enum Face {
    Front,
    Back,
}

/// How polygons are rasterized.
#[derive(Clone, Copy, Debug, PartialEq, Eq, Structural)]
pub enum PolygonMode {
    /// Only the vertices.
    Point,
    /// Only the edges.
    Line,
    /// The whole polygon, filled.
    Fill,
}

/// The kind of an occlusion-style samples query.  The three kinds share one
/// logical device slot and are mutually exclusive.
#[derive(Clone, Copy, Debug, PartialEq, Eq, Structural)]
pub enum SamplesQueryType {
    /// Counts the exact number of samples that pass.
    SamplesPassed,
    /// Tells whether any sample passed.
    AnySamplesPassed,
    /// Tells whether any sample passed, allowing false positives.
    AnySamplesPassedConservative,
}

/// An occlusion-style query to run over the draw.
#[derive(Clone, Copy, Debug, PartialEq, Eq, Structural)]
pub struct SamplesQueryParam {
    /// Which of the three mutually exclusive kinds this query is.
    pub kind: SamplesQueryType,
    /// The query object's name on the device; never zero.
    pub id: u32,
}

/// A query occupying one of the three independent non-occlusion slots
/// (time elapsed, primitives generated, transform-feedback primitives
/// written).
#[derive(Clone, Copy, Debug, PartialEq, Eq, Structural)]
pub struct QueryRef {
    /// The query object's name on the device; never zero.
    pub id: u32,
}

/// Mode of conditional rendering: whether the device waits for the query
/// result, and whether suppression is decided per region.
#[derive(Clone, Copy, Debug, PartialEq, Eq, Structural)]
pub struct ConditionMode {
    /// Wait for the query result rather than guessing.
    pub wait: bool,
    /// Decide per framebuffer region rather than for the whole draw.
    pub per_region: bool,
}

/// Suppresses the draw's visible effect depending on the outcome of a
/// previously recorded samples query.
#[derive(Clone, Copy, Debug, PartialEq, Eq, Structural)]
pub struct ConditionalRendering {
    /// The query whose outcome decides.
    pub query: SamplesQueryParam,
    /// Wait for the query result rather than guessing.
    pub wait: bool,
    /// Decide per framebuffer region rather than for the whole draw.
    pub per_region: bool,
}

/// The whole render-state configuration of one draw request.  Every axis is
/// independently diffed against the device mirror.
#[derive(Clone, Copy, Debug, PartialEq, Eq)]
pub struct DrawParameters {
    /// The depth comparison function.
    pub depth_test: DepthTest,
    /// Whether the depth buffer is written.
    pub depth_write: bool,
    /// Range the depth values are mapped to, as the two device-encoded
    /// scalar patterns.
    pub depth_range: (u32, u32),
    /// Stencil test for clockwise (back-facing) triangles.
    pub stencil_test_clockwise: StencilTest,
    /// Reference value for the clockwise stencil test.
    pub stencil_reference_value_clockwise: i32,
    /// Write mask for clockwise triangles.
    pub stencil_write_mask_clockwise: u32,
    /// Operation when the clockwise stencil test fails.
    pub stencil_fail_operation_clockwise: StencilOperation,
    /// Operation when the clockwise stencil test passes but the depth test fails.
    pub stencil_pass_depth_fail_operation_clockwise: StencilOperation,
    /// Operation when both the clockwise stencil and the depth test pass.
    pub stencil_depth_pass_operation_clockwise: StencilOperation,
    /// Stencil test for counter-clockwise (front-facing) triangles.
    pub stencil_test_counter_clockwise: StencilTest,
    /// Reference value for the counter-clockwise stencil test.
    pub stencil_reference_value_counter_clockwise: i32,
    /// Write mask for counter-clockwise triangles.
    pub stencil_write_mask_counter_clockwise: u32,
    /// Operation when the counter-clockwise stencil test fails.
    pub stencil_fail_operation_counter_clockwise: StencilOperation,
    /// Operation when the counter-clockwise stencil test passes but the depth test fails.
    pub stencil_pass_depth_fail_operation_counter_clockwise: StencilOperation,
    /// Operation when both the counter-clockwise stencil and the depth test pass.
    pub stencil_depth_pass_operation_counter_clockwise: StencilOperation,
    /// The blending function, or `None` to leave the blending state untouched.
    pub blending_function: Option<BlendingFunction>,
    /// Which color channels are written.
    pub color_mask: (bool, bool, bool, bool),
    /// Width of lines, as a device-encoded scalar pattern; `None` leaves the
    /// device value untouched.
    pub line_width: Option<u32>,
    /// Size of points, as a device-encoded scalar pattern; `None` leaves the
    /// device value untouched.
    pub point_size: Option<u32>,
    /// Which faces, if any, are culled.
    pub backface_culling: BackfaceCullingMode,
    /// How polygons are rasterized.
    pub polygon_mode: PolygonMode,
    /// Whether multisample anti-aliasing is enabled.
    pub multisampling: bool,
    /// Whether dithering is enabled.
    pub dithering: bool,
    /// The viewport, or `None` to cover the whole surface.
    pub viewport: Option<Rect>,
    /// The scissor box, or `None` to disable the scissor test.
    pub scissor: Option<Rect>,
    /// Whether primitives are rasterized at all; `false` discards them after
    /// the vertex stages.
    pub draw_primitives: bool,
    /// The occlusion-style query to run over the draw, if any.
    pub samples_passed_query: Option<SamplesQueryParam>,
    /// The time-elapsed query to run over the draw, if any.
    pub time_elapsed_query: Option<QueryRef>,
    /// The primitives-generated query to run over the draw, if any.
    pub primitives_generated_query: Option<QueryRef>,
    /// The transform-feedback-primitives-written query to run, if any.
    pub transform_feedback_primitives_written_query: Option<QueryRef>,
    /// Conditional rendering over a recorded query, if any.
    pub condition: Option<ConditionalRendering>,
}

} // verus!
