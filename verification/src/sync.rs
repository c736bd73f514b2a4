//! The state synchronizer: one routine per independent axis of device state.
//!
//! Every routine follows one pattern: compute the device-level encoding of
//! the requested value, compare it to the mirrored value, do nothing when
//! they agree, and otherwise emit the minimal device calls and update the
//! mirror.  Each routine's contract gives the exact commands it appends to
//! the log (`*_emitted`, a chain of conditional appends) and the exact
//! mirror it leaves behind (`*_target`), so setting the same axis value
//! twice in a row provably emits nothing the second time (the
//! `lemma_*_idempotent` laws).

use vstd::prelude::*;
use crate::commands::{Capability, DeviceCommand};
use crate::context::{Context, CullingMirror, DepthMirror, DeviceState, ViewportMirror};
use crate::context::{BlendMirror, StencilFaceMirror, StencilMirror};
use crate::params::{
    BackfaceCullingMode, BlendEquation, BlendingFunction, ComparisonFunction, DepthTest, Face,
    PolygonMode, Rect, StencilOperation, StencilTest,
};
use crate::params::DrawParameters;

verus! {

/// The command log after one diff-then-apply step: the command is appended
/// exactly when the mirrored value differs from the requested one.
pub open spec fn emit_step(
    c: Seq<DeviceCommand>,
    differs: bool,
    cmd: DeviceCommand,
) -> Seq<DeviceCommand> {
    if differs {
        c.push(cmd)
    } else {
        c
    }
}

// ---------------------------------------------------------------- depth

/// The depth mirror the request asks for: the shared "always overwrite"
/// mode disables the test and keeps the mirrored comparison function; any
/// comparison mode enables the test and sets it.
pub open spec fn depth_target(
    m: DepthMirror,
    test: DepthTest,
    write: bool,
    range: (u32, u32),
) -> DepthMirror {
    DepthMirror {
        test_enabled: test != DepthTest::Overwrite,
        func: if test == DepthTest::Overwrite {
            m.func
        } else {
            test.comparison()
        },
        write,
        range,
    }
}

/// The log after the depth axis ran: test toggle and comparison function,
/// then write mask, then range, each appended only on change.
pub open spec fn depth_emitted(
    c: Seq<DeviceCommand>,
    m: DepthMirror,
    test: DepthTest,
    write: bool,
    range: (u32, u32),
) -> Seq<DeviceCommand> {
    let c_test = if test == DepthTest::Overwrite {
        emit_step(c, m.test_enabled, DeviceCommand::Disable(Capability::DepthTest))
    } else {
        emit_step(
            emit_step(
                c,
                m.func != test.comparison(),
                DeviceCommand::DepthFunc(test.comparison()),
            ),
            !m.test_enabled,
            DeviceCommand::Enable(Capability::DepthTest),
        )
    };
    let c_mask = emit_step(c_test, write != m.write, DeviceCommand::DepthMask(write));
    emit_step(c_mask, range != m.range, DeviceCommand::DepthRange(range.0, range.1))
}

/// Synchronizes the depth test, depth write mask and depth range.
pub fn sync_depth(ctxt: &mut Context, depth_test: DepthTest, depth_write: bool, depth_range: (
    u32,
    u32,
))
    ensures
        final(ctxt).state == (DeviceState {
            depth: depth_target(old(ctxt).state.depth, depth_test, depth_write, depth_range),
            ..old(ctxt).state
        }),
        final(ctxt).commands@ == depth_emitted(
            old(ctxt).commands@,
            old(ctxt).state.depth,
            depth_test,
            depth_write,
            depth_range,
        ),
        final(ctxt).same_registries(*old(ctxt)),
{
    match depth_test {
        DepthTest::Overwrite => {
            if ctxt.state.depth.test_enabled {
                ctxt.emit(DeviceCommand::Disable(Capability::DepthTest));
                ctxt.state.depth.test_enabled = false;
            }
        },
        _ => {
            let f = match depth_test {
                DepthTest::Overwrite => ComparisonFunction::Always,
                DepthTest::IfEqual => ComparisonFunction::Equal,
                DepthTest::IfNotEqual => ComparisonFunction::NotEqual,
                DepthTest::IfMore => ComparisonFunction::Greater,
                DepthTest::IfMoreOrEqual => ComparisonFunction::GreaterOrEqual,
                DepthTest::IfLess => ComparisonFunction::Less,
                DepthTest::IfLessOrEqual => ComparisonFunction::LessOrEqual,
            };
            if ctxt.state.depth.func != f {
                ctxt.emit(DeviceCommand::DepthFunc(f));
                ctxt.state.depth.func = f;
            }
            if !ctxt.state.depth.test_enabled {
                ctxt.emit(DeviceCommand::Enable(Capability::DepthTest));
                ctxt.state.depth.test_enabled = true;
            }
        },
    }
    if depth_write != ctxt.state.depth.write {
        ctxt.emit(DeviceCommand::DepthMask(depth_write));
        ctxt.state.depth.write = depth_write;
    }
    if depth_range.0 != ctxt.state.depth.range.0 || depth_range.1 != ctxt.state.depth.range.1 {
        ctxt.emit(DeviceCommand::DepthRange(depth_range.0, depth_range.1));
        ctxt.state.depth.range = depth_range;
    }
}

/// Setting the depth axis twice in a row: the second call finds the mirror
/// already in the target state and appends no command.
pub proof fn lemma_depth_sync_idempotent(
    c: Seq<DeviceCommand>,
    m: DepthMirror,
    test: DepthTest,
    write: bool,
    range: (u32, u32),
)
    ensures
        depth_emitted(c, depth_target(m, test, write, range), test, write, range) == c,
{
}

// ---------------------------------------------------------------- stencil

/// The stencil mirror of one face the request asks for.
pub open spec fn stencil_face_target(
    test: StencilTest,
    reference: i32,
    write_mask: u32,
    fail_op: StencilOperation,
    depth_fail_op: StencilOperation,
    pass_op: StencilOperation,
) -> StencilFaceMirror {
    StencilFaceMirror {
        func: (test.encoding().0, reference, test.encoding().1),
        write_mask,
        op: (fail_op, depth_fail_op, pass_op),
    }
}

/// The stencil mirror the request asks for.
pub open spec fn stencil_target(params: DrawParameters) -> StencilMirror {
    StencilMirror {
        back: stencil_face_target(
            params.stencil_test_clockwise,
            params.stencil_reference_value_clockwise,
            params.stencil_write_mask_clockwise,
            params.stencil_fail_operation_clockwise,
            params.stencil_pass_depth_fail_operation_clockwise,
            params.stencil_depth_pass_operation_clockwise,
        ),
        front: stencil_face_target(
            params.stencil_test_counter_clockwise,
            params.stencil_reference_value_counter_clockwise,
            params.stencil_write_mask_counter_clockwise,
            params.stencil_fail_operation_counter_clockwise,
            params.stencil_pass_depth_fail_operation_counter_clockwise,
            params.stencil_depth_pass_operation_counter_clockwise,
        ),
        test_enabled: stencil_test_enabled(params),
    }
}

/// Whether the request needs the stencil test enabled: some face's function
/// is not "always pass", or some face's fail operation is not "keep".
pub open spec fn stencil_test_enabled(params: DrawParameters) -> bool {
    ||| params.stencil_test_clockwise.encoding().0 != ComparisonFunction::Always
    ||| params.stencil_test_counter_clockwise.encoding().0 != ComparisonFunction::Always
    ||| params.stencil_fail_operation_clockwise != StencilOperation::Keep
    ||| params.stencil_fail_operation_counter_clockwise != StencilOperation::Keep
}

/// The log after one face of the stencil axis ran: function, write mask
/// and operations, each appended only on change.
pub open spec fn stencil_face_emitted(
    c: Seq<DeviceCommand>,
    face: Face,
    m: StencilFaceMirror,
    t: StencilFaceMirror,
) -> Seq<DeviceCommand> {
    let c1 = emit_step(
        c,
        m.func != t.func,
        DeviceCommand::StencilFuncSeparate(face, t.func.0, t.func.1, t.func.2),
    );
    let c2 = emit_step(
        c1,
        m.write_mask != t.write_mask,
        DeviceCommand::StencilMaskSeparate(face, t.write_mask),
    );
    emit_step(c2, m.op != t.op, DeviceCommand::StencilOpSeparate(face, t.op.0, t.op.1, t.op.2))
}

/// The log after the stencil axis ran: the back face, the front face, then
/// the enable toggle, each piece appended only on change.
pub open spec fn stencil_emitted(
    c: Seq<DeviceCommand>,
    m: StencilMirror,
    params: DrawParameters,
) -> Seq<DeviceCommand> {
    let t = stencil_target(params);
    let c_faces = stencil_face_emitted(
        stencil_face_emitted(c, Face::Back, m.back, t.back),
        Face::Front,
        m.front,
        t.front,
    );
    emit_step(
        c_faces,
        m.test_enabled != t.test_enabled,
        if t.test_enabled {
            DeviceCommand::Enable(Capability::StencilTest)
        } else {
            DeviceCommand::Disable(Capability::StencilTest)
        },
    )
}

/// The device encoding of a stencil test.
fn stencil_test_encoding(test: StencilTest) -> (r: (ComparisonFunction, u32))
    ensures
        r == test.encoding(),
{
    match test {
        StencilTest::AlwaysPass => (ComparisonFunction::Always, 0),
        StencilTest::AlwaysFail => (ComparisonFunction::Never, 0),
        StencilTest::IfLess { mask } => (ComparisonFunction::Less, mask),
        StencilTest::IfLessOrEqual { mask } => (ComparisonFunction::LessOrEqual, mask),
        StencilTest::IfMore { mask } => (ComparisonFunction::Greater, mask),
        StencilTest::IfMoreOrEqual { mask } => (ComparisonFunction::GreaterOrEqual, mask),
        StencilTest::IfEqual { mask } => (ComparisonFunction::Equal, mask),
        StencilTest::IfNotEqual { mask } => (ComparisonFunction::NotEqual, mask),
    }
}

/// Synchronizes the back (clockwise) face of the stencil axis.
fn sync_stencil_back(ctxt: &mut Context, func: (ComparisonFunction, i32, u32), write_mask: u32, op: (
    StencilOperation,
    StencilOperation,
    StencilOperation,
))
    ensures
        final(ctxt).state == (DeviceState {
            stencil: (StencilMirror {
                back: (StencilFaceMirror { func, write_mask, op }),
                ..old(ctxt).state.stencil
            }),
            ..old(ctxt).state
        }),
        final(ctxt).commands@ == stencil_face_emitted(
            old(ctxt).commands@,
            Face::Back,
            old(ctxt).state.stencil.back,
            (StencilFaceMirror { func, write_mask, op }),
        ),
        final(ctxt).same_registries(*old(ctxt)),
{
    if ctxt.state.stencil.back.func.0 != func.0 || ctxt.state.stencil.back.func.1 != func.1
        || ctxt.state.stencil.back.func.2 != func.2 {
        ctxt.emit(DeviceCommand::StencilFuncSeparate(Face::Back, func.0, func.1, func.2));
        ctxt.state.stencil.back.func = func;
    }
    if ctxt.state.stencil.back.write_mask != write_mask {
        ctxt.emit(DeviceCommand::StencilMaskSeparate(Face::Back, write_mask));
        ctxt.state.stencil.back.write_mask = write_mask;
    }
    if ctxt.state.stencil.back.op.0 != op.0 || ctxt.state.stencil.back.op.1 != op.1
        || ctxt.state.stencil.back.op.2 != op.2 {
        ctxt.emit(DeviceCommand::StencilOpSeparate(Face::Back, op.0, op.1, op.2));
        ctxt.state.stencil.back.op = op;
    }
}

/// Synchronizes the front (counter-clockwise) face of the stencil axis.
fn sync_stencil_front(
    ctxt: &mut Context,
    func: (ComparisonFunction, i32, u32),
    write_mask: u32,
    op: (StencilOperation, StencilOperation, StencilOperation),
)
    ensures
        final(ctxt).state == (DeviceState {
            stencil: (StencilMirror {
                front: (StencilFaceMirror { func, write_mask, op }),
                ..old(ctxt).state.stencil
            }),
            ..old(ctxt).state
        }),
        final(ctxt).commands@ == stencil_face_emitted(
            old(ctxt).commands@,
            Face::Front,
            old(ctxt).state.stencil.front,
            (StencilFaceMirror { func, write_mask, op }),
        ),
        final(ctxt).same_registries(*old(ctxt)),
{
    if ctxt.state.stencil.front.func.0 != func.0 || ctxt.state.stencil.front.func.1 != func.1
        || ctxt.state.stencil.front.func.2 != func.2 {
        ctxt.emit(DeviceCommand::StencilFuncSeparate(Face::Front, func.0, func.1, func.2));
        ctxt.state.stencil.front.func = func;
    }
    if ctxt.state.stencil.front.write_mask != write_mask {
        ctxt.emit(DeviceCommand::StencilMaskSeparate(Face::Front, write_mask));
        ctxt.state.stencil.front.write_mask = write_mask;
    }
    if ctxt.state.stencil.front.op.0 != op.0 || ctxt.state.stencil.front.op.1 != op.1
        || ctxt.state.stencil.front.op.2 != op.2 {
        ctxt.emit(DeviceCommand::StencilOpSeparate(Face::Front, op.0, op.1, op.2));
        ctxt.state.stencil.front.op = op;
    }
}

/// Synchronizes the stencil axis: function, reference value, read mask,
/// write mask and operations, each tracked independently for the clockwise
/// (back) and counter-clockwise (front) winding directions.  The test is
/// enabled exactly when either face\'s function is not "always pass" or
/// either face\'s fail operation is not "keep".
pub fn sync_stencil(ctxt: &mut Context, params: &DrawParameters)
    ensures
        final(ctxt).state == (DeviceState {
            stencil: stencil_target(*params),
            ..old(ctxt).state
        }),
        final(ctxt).commands@ == stencil_emitted(
            old(ctxt).commands@,
            old(ctxt).state.stencil,
            *params,
        ),
        final(ctxt).same_registries(*old(ctxt)),
{
    let ghost t = stencil_target(*params);
    let (test_cw, read_mask_cw) = stencil_test_encoding(params.stencil_test_clockwise);
    let (test_ccw, read_mask_ccw) = stencil_test_encoding(params.stencil_test_counter_clockwise);

    sync_stencil_back(
        ctxt,
        (test_cw, params.stencil_reference_value_clockwise, read_mask_cw),
        params.stencil_write_mask_clockwise,
        (
            params.stencil_fail_operation_clockwise,
            params.stencil_pass_depth_fail_operation_clockwise,
            params.stencil_depth_pass_operation_clockwise,
        ),
    );
    proof {
        assert(ctxt.state.stencil.back == t.back);
    }
    sync_stencil_front(
        ctxt,
        (test_ccw, params.stencil_reference_value_counter_clockwise, read_mask_ccw),
        params.stencil_write_mask_counter_clockwise,
        (
            params.stencil_fail_operation_counter_clockwise,
            params.stencil_pass_depth_fail_operation_counter_clockwise,
            params.stencil_depth_pass_operation_counter_clockwise,
        ),
    );
    proof {
        assert(ctxt.state.stencil.front == t.front);
    }

    let enable_stencil = test_cw != ComparisonFunction::Always || test_ccw
        != ComparisonFunction::Always || params.stencil_fail_operation_clockwise
        != StencilOperation::Keep || params.stencil_fail_operation_counter_clockwise
        != StencilOperation::Keep;
    proof {
        assert(enable_stencil == t.test_enabled);
    }
    if ctxt.state.stencil.test_enabled != enable_stencil {
        if enable_stencil {
            ctxt.emit(DeviceCommand::Enable(Capability::StencilTest));
        } else {
            ctxt.emit(DeviceCommand::Disable(Capability::StencilTest));
        }
        ctxt.state.stencil.test_enabled = enable_stencil;
    }
    proof {
        assert(ctxt.state.stencil == t);
    }
}

/// Setting the stencil axis twice in a row: the second call appends nothing.
pub proof fn lemma_stencil_sync_idempotent(c: Seq<DeviceCommand>, params: DrawParameters)
    ensures
        stencil_emitted(c, stencil_target(params), params) == c,
{
}

// ---------------------------------------------------------------- blending

/// The blend mirror the request asks for; `None` leaves the axis untouched.
pub open spec fn blend_target(m: BlendMirror, function: Option<BlendingFunction>) -> BlendMirror {
    match function {
        None => m,
        Some(BlendingFunction::AlwaysReplace) => BlendMirror { enabled: false, ..m },
        Some(BlendingFunction::Min) => BlendMirror {
            enabled: true,
            equation: BlendEquation::Min,
            ..m
        },
        Some(BlendingFunction::Max) => BlendMirror {
            enabled: true,
            equation: BlendEquation::Max,
            ..m
        },
        Some(BlendingFunction::Addition { source, destination }) => BlendMirror {
            enabled: true,
            equation: BlendEquation::Addition,
            func: (source, destination),
        },
        Some(BlendingFunction::Subtraction { source, destination }) => BlendMirror {
            enabled: true,
            equation: BlendEquation::Subtraction,
            func: (source, destination),
        },
        Some(BlendingFunction::ReverseSubtraction { source, destination }) => BlendMirror {
            enabled: true,
            equation: BlendEquation::ReverseSubtraction,
            func: (source, destination),
        },
    }
}

/// The log after one arithmetic or min/max blending mode ran: equation on
/// change, then enable on change.
pub open spec fn blend_mode_emitted(
    c: Seq<DeviceCommand>,
    m: BlendMirror,
    equation: BlendEquation,
) -> Seq<DeviceCommand> {
    emit_step(
        emit_step(c, m.equation != equation, DeviceCommand::BlendEquation(equation)),
        !m.enabled,
        DeviceCommand::Enable(Capability::Blend),
    )
}

/// The log after the blending axis ran.
pub open spec fn blend_emitted(
    c: Seq<DeviceCommand>,
    m: BlendMirror,
    function: Option<BlendingFunction>,
) -> Seq<DeviceCommand> {
    match function {
        None => c,
        Some(BlendingFunction::AlwaysReplace) => emit_step(
            c,
            m.enabled,
            DeviceCommand::Disable(Capability::Blend),
        ),
        Some(BlendingFunction::Min) => blend_mode_emitted(c, m, BlendEquation::Min),
        Some(BlendingFunction::Max) => blend_mode_emitted(c, m, BlendEquation::Max),
        Some(BlendingFunction::Addition { source, destination }) => emit_step(
            blend_mode_emitted(c, m, BlendEquation::Addition),
            m.func != (source, destination),
            DeviceCommand::BlendFunc(source, destination),
        ),
        Some(BlendingFunction::Subtraction { source, destination }) => emit_step(
            blend_mode_emitted(c, m, BlendEquation::Subtraction),
            m.func != (source, destination),
            DeviceCommand::BlendFunc(source, destination),
        ),
        Some(BlendingFunction::ReverseSubtraction { source, destination }) => emit_step(
            blend_mode_emitted(c, m, BlendEquation::ReverseSubtraction),
            m.func != (source, destination),
            DeviceCommand::BlendFunc(source, destination),
        ),
    }
}

/// Synchronizes the blending axis: replace disables blending; min and max
/// set the equation; the three arithmetic modes set the equation and diff
/// their source/destination factor pair.  `None` leaves the axis untouched.
#[verifier::rlimit(60)]
pub fn sync_blending(ctxt: &mut Context, blending_function: Option<BlendingFunction>)
    ensures
        final(ctxt).state == (DeviceState {
            blend: blend_target(old(ctxt).state.blend, blending_function),
            ..old(ctxt).state
        }),
        final(ctxt).commands@ == blend_emitted(
            old(ctxt).commands@,
            old(ctxt).state.blend,
            blending_function,
        ),
        final(ctxt).same_registries(*old(ctxt)),
{
    let factors: Option<(crate::params::LinearBlendingFactor, crate::params::LinearBlendingFactor)> =
        match blending_function {
        None => None,
        Some(BlendingFunction::AlwaysReplace) => {
            if ctxt.state.blend.enabled {
                ctxt.emit(DeviceCommand::Disable(Capability::Blend));
                ctxt.state.blend.enabled = false;
            }
            None
        },
        Some(BlendingFunction::Min) => {
            if ctxt.state.blend.equation != BlendEquation::Min {
                ctxt.emit(DeviceCommand::BlendEquation(BlendEquation::Min));
                ctxt.state.blend.equation = BlendEquation::Min;
            }
            if !ctxt.state.blend.enabled {
                ctxt.emit(DeviceCommand::Enable(Capability::Blend));
                ctxt.state.blend.enabled = true;
            }
            None
        },
        Some(BlendingFunction::Max) => {
            if ctxt.state.blend.equation != BlendEquation::Max {
                ctxt.emit(DeviceCommand::BlendEquation(BlendEquation::Max));
                ctxt.state.blend.equation = BlendEquation::Max;
            }
            if !ctxt.state.blend.enabled {
                ctxt.emit(DeviceCommand::Enable(Capability::Blend));
                ctxt.state.blend.enabled = true;
            }
            None
        },
        Some(BlendingFunction::Addition { source, destination }) => {
            if ctxt.state.blend.equation != BlendEquation::Addition {
                ctxt.emit(DeviceCommand::BlendEquation(BlendEquation::Addition));
                ctxt.state.blend.equation = BlendEquation::Addition;
            }
            if !ctxt.state.blend.enabled {
                ctxt.emit(DeviceCommand::Enable(Capability::Blend));
                ctxt.state.blend.enabled = true;
            }
            Some((source, destination))
        },
        Some(BlendingFunction::Subtraction { source, destination }) => {
            if ctxt.state.blend.equation != BlendEquation::Subtraction {
                ctxt.emit(DeviceCommand::BlendEquation(BlendEquation::Subtraction));
                ctxt.state.blend.equation = BlendEquation::Subtraction;
            }
            if !ctxt.state.blend.enabled {
                ctxt.emit(DeviceCommand::Enable(Capability::Blend));
                ctxt.state.blend.enabled = true;
            }
            Some((source, destination))
        },
        Some(BlendingFunction::ReverseSubtraction { source, destination }) => {
            if ctxt.state.blend.equation != BlendEquation::ReverseSubtraction {
                ctxt.emit(DeviceCommand::BlendEquation(BlendEquation::ReverseSubtraction));
                ctxt.state.blend.equation = BlendEquation::ReverseSubtraction;
            }
            if !ctxt.state.blend.enabled {
                ctxt.emit(DeviceCommand::Enable(Capability::Blend));
                ctxt.state.blend.enabled = true;
            }
            Some((source, destination))
        },
    };
    if let Some((source, destination)) = factors {
        if ctxt.state.blend.func.0 != source || ctxt.state.blend.func.1 != destination {
            ctxt.emit(DeviceCommand::BlendFunc(source, destination));
            ctxt.state.blend.func = (source, destination);
        }
    }
}

/// Setting the blending axis twice in a row: the second call appends nothing.
pub proof fn lemma_blending_sync_idempotent(
    c: Seq<DeviceCommand>,
    m: BlendMirror,
    function: Option<BlendingFunction>,
)
    ensures
        blend_emitted(c, blend_target(m, function), function) == c,
{
}

// ---------------------------------------------------------------- color mask

/// The log after the color-mask axis ran.
pub open spec fn color_mask_emitted(
    c: Seq<DeviceCommand>,
    current: (bool, bool, bool, bool),
    mask: (bool, bool, bool, bool),
) -> Seq<DeviceCommand> {
    emit_step(c, mask != current, DeviceCommand::ColorMask(mask.0, mask.1, mask.2, mask.3))
}

/// Synchronizes which color channels are written.
pub fn sync_color_mask(ctxt: &mut Context, mask: (bool, bool, bool, bool))
    ensures
        final(ctxt).state == (DeviceState { color_mask: mask, ..old(ctxt).state }),
        final(ctxt).commands@ == color_mask_emitted(
            old(ctxt).commands@,
            old(ctxt).state.color_mask,
            mask,
        ),
        final(ctxt).same_registries(*old(ctxt)),
{
    if mask.0 != ctxt.state.color_mask.0 || mask.1 != ctxt.state.color_mask.1 || mask.2
        != ctxt.state.color_mask.2 || mask.3 != ctxt.state.color_mask.3 {
        ctxt.emit(DeviceCommand::ColorMask(mask.0, mask.1, mask.2, mask.3));
        ctxt.state.color_mask = mask;
    }
}

// ---------------------------------------------------------------- line width

/// The log after the line-width axis ran; `None` leaves the device value
/// untouched.
pub open spec fn line_width_emitted(
    c: Seq<DeviceCommand>,
    current: u32,
    width: Option<u32>,
) -> Seq<DeviceCommand> {
    match width {
        Some(w) => emit_step(c, w != current, DeviceCommand::LineWidth(w)),
        None => c,
    }
}

/// Synchronizes the line width.
pub fn sync_line_width(ctxt: &mut Context, line_width: Option<u32>)
    ensures
        final(ctxt).state == (DeviceState {
            line_width: if line_width is Some {
                line_width->0
            } else {
                old(ctxt).state.line_width
            },
            ..old(ctxt).state
        }),
        final(ctxt).commands@ == line_width_emitted(
            old(ctxt).commands@,
            old(ctxt).state.line_width,
            line_width,
        ),
        final(ctxt).same_registries(*old(ctxt)),
{
    if let Some(w) = line_width {
        if w != ctxt.state.line_width {
            ctxt.emit(DeviceCommand::LineWidth(w));
            ctxt.state.line_width = w;
        }
    }
}

// ---------------------------------------------------------------- point size

/// The log after the point-size axis ran; `None` leaves the device value
/// untouched.
pub open spec fn point_size_emitted(c: Seq<DeviceCommand>, current: u32, size: Option<u32>) -> Seq<
    DeviceCommand,
> {
    match size {
        Some(p) => emit_step(c, p != current, DeviceCommand::PointSize(p)),
        None => c,
    }
}

/// Synchronizes the point size.
pub fn sync_point_size(ctxt: &mut Context, point_size: Option<u32>)
    ensures
        final(ctxt).state == (DeviceState {
            point_size: if point_size is Some {
                point_size->0
            } else {
                old(ctxt).state.point_size
            },
            ..old(ctxt).state
        }),
        final(ctxt).commands@ == point_size_emitted(
            old(ctxt).commands@,
            old(ctxt).state.point_size,
            point_size,
        ),
        final(ctxt).same_registries(*old(ctxt)),
{
    if let Some(p) = point_size {
        if p != ctxt.state.point_size {
            ctxt.emit(DeviceCommand::PointSize(p));
            ctxt.state.point_size = p;
        }
    }
}

// ---------------------------------------------------------------- polygon mode

/// The culling mirror the request asks for.  The device's winding convention
/// is never changed: culling clockwise triangles culls the back face,
/// culling counter-clockwise triangles culls the front face.
pub open spec fn culling_target(m: CullingMirror, mode: BackfaceCullingMode) -> CullingMirror {
    match mode {
        BackfaceCullingMode::CullingDisabled => CullingMirror { enabled: false, ..m },
        BackfaceCullingMode::CullCounterClockWise => CullingMirror {
            enabled: true,
            face: Face::Front,
        },
        BackfaceCullingMode::CullClockWise => CullingMirror { enabled: true, face: Face::Back },
    }
}

/// The log after the culling part of the axis ran.
pub open spec fn culling_emitted(
    c: Seq<DeviceCommand>,
    m: CullingMirror,
    mode: BackfaceCullingMode,
) -> Seq<DeviceCommand> {
    match mode {
        BackfaceCullingMode::CullingDisabled => emit_step(
            c,
            m.enabled,
            DeviceCommand::Disable(Capability::CullFace),
        ),
        BackfaceCullingMode::CullCounterClockWise => emit_step(
            emit_step(c, !m.enabled, DeviceCommand::Enable(Capability::CullFace)),
            m.face != Face::Front,
            DeviceCommand::CullFace(Face::Front),
        ),
        BackfaceCullingMode::CullClockWise => emit_step(
            emit_step(c, !m.enabled, DeviceCommand::Enable(Capability::CullFace)),
            m.face != Face::Back,
            DeviceCommand::CullFace(Face::Back),
        ),
    }
}

/// The log after the whole axis (culling, then polygon mode) ran.
pub open spec fn polygon_mode_emitted(
    c: Seq<DeviceCommand>,
    m: CullingMirror,
    current_mode: PolygonMode,
    culling: BackfaceCullingMode,
    mode: PolygonMode,
) -> Seq<DeviceCommand> {
    emit_step(
        culling_emitted(c, m, culling),
        current_mode != mode,
        DeviceCommand::PolygonMode(mode),
    )
}

/// Synchronizes face culling and the polygon mode.
pub fn sync_polygon_mode(
    ctxt: &mut Context,
    backface_culling: BackfaceCullingMode,
    polygon_mode: PolygonMode,
)
    ensures
        final(ctxt).state == (DeviceState {
            culling: culling_target(old(ctxt).state.culling, backface_culling),
            polygon_mode: polygon_mode,
            ..old(ctxt).state
        }),
        final(ctxt).commands@ == polygon_mode_emitted(
            old(ctxt).commands@,
            old(ctxt).state.culling,
            old(ctxt).state.polygon_mode,
            backface_culling,
            polygon_mode,
        ),
        final(ctxt).same_registries(*old(ctxt)),
{
    match backface_culling {
        BackfaceCullingMode::CullingDisabled => {
            if ctxt.state.culling.enabled {
                ctxt.emit(DeviceCommand::Disable(Capability::CullFace));
                ctxt.state.culling.enabled = false;
            }
        },
        BackfaceCullingMode::CullCounterClockWise => {
            if !ctxt.state.culling.enabled {
                ctxt.emit(DeviceCommand::Enable(Capability::CullFace));
                ctxt.state.culling.enabled = true;
            }
            if ctxt.state.culling.face != Face::Front {
                ctxt.emit(DeviceCommand::CullFace(Face::Front));
                ctxt.state.culling.face = Face::Front;
            }
        },
        BackfaceCullingMode::CullClockWise => {
            if !ctxt.state.culling.enabled {
                ctxt.emit(DeviceCommand::Enable(Capability::CullFace));
                ctxt.state.culling.enabled = true;
            }
            if ctxt.state.culling.face != Face::Back {
                ctxt.emit(DeviceCommand::CullFace(Face::Back));
                ctxt.state.culling.face = Face::Back;
            }
        },
    }
    if ctxt.state.polygon_mode != polygon_mode {
        ctxt.emit(DeviceCommand::PolygonMode(polygon_mode));
        ctxt.state.polygon_mode = polygon_mode;
    }
}

/// Setting the culling and polygon-mode axis twice in a row: the second
/// call appends nothing.
pub proof fn lemma_polygon_mode_sync_idempotent(
    c: Seq<DeviceCommand>,
    m: CullingMirror,
    culling: BackfaceCullingMode,
    mode: PolygonMode,
)
    ensures
        polygon_mode_emitted(c, culling_target(m, culling), mode, culling, mode) == c,
{
}

// ---------------------------------------------------------------- multisampling

/// The log after the multisampling axis ran.
pub open spec fn multisampling_emitted(
    c: Seq<DeviceCommand>,
    current: bool,
    multisampling: bool,
) -> Seq<DeviceCommand> {
    emit_step(
        c,
        current != multisampling,
        if multisampling {
            DeviceCommand::Enable(Capability::Multisample)
        } else {
            DeviceCommand::Disable(Capability::Multisample)
        },
    )
}

/// Synchronizes multisample anti-aliasing.
pub fn sync_multisampling(ctxt: &mut Context, multisampling: bool)
    ensures
        final(ctxt).state == (DeviceState {
            multisample_enabled: multisampling,
            ..old(ctxt).state
        }),
        final(ctxt).commands@ == multisampling_emitted(
            old(ctxt).commands@,
            old(ctxt).state.multisample_enabled,
            multisampling,
        ),
        final(ctxt).same_registries(*old(ctxt)),
{
    if ctxt.state.multisample_enabled != multisampling {
        if multisampling {
            ctxt.emit(DeviceCommand::Enable(Capability::Multisample));
        } else {
            ctxt.emit(DeviceCommand::Disable(Capability::Multisample));
        }
        ctxt.state.multisample_enabled = multisampling;
    }
}

// ---------------------------------------------------------------- dithering

/// The log after the dithering axis ran.
pub open spec fn dithering_emitted(c: Seq<DeviceCommand>, current: bool, dithering: bool) -> Seq<
    DeviceCommand,
> {
    emit_step(
        c,
        current != dithering,
        if dithering {
            DeviceCommand::Enable(Capability::Dither)
        } else {
            DeviceCommand::Disable(Capability::Dither)
        },
    )
}

/// Synchronizes dithering.
pub fn sync_dithering(ctxt: &mut Context, dithering: bool)
    ensures
        final(ctxt).state == (DeviceState { dither_enabled: dithering, ..old(ctxt).state }),
        final(ctxt).commands@ == dithering_emitted(
            old(ctxt).commands@,
            old(ctxt).state.dither_enabled,
            dithering,
        ),
        final(ctxt).same_registries(*old(ctxt)),
{
    if ctxt.state.dither_enabled != dithering {
        if dithering {
            ctxt.emit(DeviceCommand::Enable(Capability::Dither));
        } else {
            ctxt.emit(DeviceCommand::Disable(Capability::Dither));
        }
        ctxt.state.dither_enabled = dithering;
    }
}

// ---------------------------------------------------------------- viewport and scissor

/// The viewport rectangle the request asks for: the explicit one, or the
/// whole surface.
pub open spec fn viewport_rect(viewport: Option<Rect>, dimensions: (u32, u32)) -> (
    u32,
    u32,
    u32,
    u32,
) {
    match viewport {
        Some(r) => (r.left, r.bottom, r.width, r.height),
        None => (0u32, 0u32, dimensions.0, dimensions.1),
    }
}

/// The viewport/scissor mirror the request asks for.
pub open spec fn viewport_target(
    m: ViewportMirror,
    viewport: Option<Rect>,
    scissor: Option<Rect>,
    dimensions: (u32, u32),
) -> ViewportMirror {
    ViewportMirror {
        viewport: Some(viewport_rect(viewport, dimensions)),
        scissor: match scissor {
            Some(r) => Some((r.left, r.bottom, r.width, r.height)),
            None => m.scissor,
        },
        scissor_test_enabled: scissor is Some,
    }
}

/// The log after the viewport and scissor axis ran.
pub open spec fn viewport_emitted(
    c: Seq<DeviceCommand>,
    m: ViewportMirror,
    viewport: Option<Rect>,
    scissor: Option<Rect>,
    dimensions: (u32, u32),
) -> Seq<DeviceCommand> {
    let v = viewport_rect(viewport, dimensions);
    let c1 = emit_step(c, m.viewport != Some(v), DeviceCommand::Viewport(v.0, v.1, v.2, v.3));
    match scissor {
        Some(r) => emit_step(
            emit_step(
                c1,
                m.scissor != Some((r.left, r.bottom, r.width, r.height)),
                DeviceCommand::Scissor(r.left, r.bottom, r.width, r.height),
            ),
            !m.scissor_test_enabled,
            DeviceCommand::Enable(Capability::ScissorTest),
        ),
        None => emit_step(
            c1,
            m.scissor_test_enabled,
            DeviceCommand::Disable(Capability::ScissorTest),
        ),
    }
}

/// Synchronizes the viewport and the scissor box.  A missing viewport means
/// the whole surface; a missing scissor box disables the scissor test.  The
/// dimensions must fit the device's viewport limits.
#[verifier::rlimit(60)]
pub fn sync_viewport_scissor(
    ctxt: &mut Context,
    viewport: Option<Rect>,
    scissor: Option<Rect>,
    surface_dimensions: (u32, u32),
)
    requires
        match viewport {
            Some(r) => r.width <= old(ctxt).capabilities.max_viewport_dims.0 && r.height <= old(
                ctxt,
            ).capabilities.max_viewport_dims.1,
            None => surface_dimensions.0 <= old(ctxt).capabilities.max_viewport_dims.0
                && surface_dimensions.1 <= old(ctxt).capabilities.max_viewport_dims.1,
        },
    ensures
        final(ctxt).state == (DeviceState {
            viewport: viewport_target(
                old(ctxt).state.viewport,
                viewport,
                scissor,
                surface_dimensions,
            ),
            ..old(ctxt).state
        }),
        final(ctxt).commands@ == viewport_emitted(
            old(ctxt).commands@,
            old(ctxt).state.viewport,
            viewport,
            scissor,
            surface_dimensions,
        ),
        final(ctxt).same_registries(*old(ctxt)),
{
    let target: (u32, u32, u32, u32) = match viewport {
        Some(r) => (r.left, r.bottom, r.width, r.height),
        None => (0, 0, surface_dimensions.0, surface_dimensions.1),
    };
    let apply_viewport: bool = match ctxt.state.viewport.viewport {
        Some(v) => v.0 != target.0 || v.1 != target.1 || v.2 != target.2 || v.3 != target.3,
        None => true,
    };
    if apply_viewport {
        ctxt.emit(DeviceCommand::Viewport(target.0, target.1, target.2, target.3));
        ctxt.state.viewport.viewport = Some(target);
    }

    if let Some(r) = scissor {
        let apply_scissor: bool = match ctxt.state.viewport.scissor {
            Some(s) => s.0 != r.left || s.1 != r.bottom || s.2 != r.width || s.3 != r.height,
            None => true,
        };
        if apply_scissor {
            ctxt.emit(DeviceCommand::Scissor(r.left, r.bottom, r.width, r.height));
            ctxt.state.viewport.scissor = Some((r.left, r.bottom, r.width, r.height));
        }
        if !ctxt.state.viewport.scissor_test_enabled {
            ctxt.emit(DeviceCommand::Enable(Capability::ScissorTest));
            ctxt.state.viewport.scissor_test_enabled = true;
        }
    } else {
        if ctxt.state.viewport.scissor_test_enabled {
            ctxt.emit(DeviceCommand::Disable(Capability::ScissorTest));
            ctxt.state.viewport.scissor_test_enabled = false;
        }
    }
}

/// Setting the viewport and scissor axis twice in a row: the second call
/// appends nothing.
pub proof fn lemma_viewport_sync_idempotent(
    c: Seq<DeviceCommand>,
    m: ViewportMirror,
    viewport: Option<Rect>,
    scissor: Option<Rect>,
    dimensions: (u32, u32),
)
    ensures
        viewport_emitted(
            c,
            viewport_target(m, viewport, scissor, dimensions),
            viewport,
            scissor,
            dimensions,
        ) == c,
{
}

// ---------------------------------------------------------------- rasterizer discard

/// The log after the rasterizer-discard axis ran: a toggle through the core
/// entry point when available, else through the extension.
pub open spec fn rasterizer_discard_emitted(
    c: Seq<DeviceCommand>,
    current: bool,
    draw_primitives: bool,
    core_entry: bool,
) -> Seq<DeviceCommand> {
    let cap = if core_entry {
        Capability::RasterizerDiscard
    } else {
        Capability::RasterizerDiscardExt
    };
    emit_step(
        c,
        current == draw_primitives,
        if draw_primitives {
            DeviceCommand::Disable(cap)
        } else {
            DeviceCommand::Enable(cap)
        },
    )
}

/// Synchronizes rasterizer discard: primitives are rasterized exactly when
/// `draw_primitives` holds.  When a toggle is needed, the device must offer
/// the core entry point or the transform-feedback extension.
pub fn sync_rasterizer_discard(ctxt: &mut Context, draw_primitives: bool)
    requires
        old(ctxt).state.rasterizer_discard_enabled == draw_primitives ==> old(
            ctxt,
        ).capabilities.supports_rasterizer_discard(),
    ensures
        final(ctxt).state == (DeviceState {
            rasterizer_discard_enabled: !draw_primitives,
            ..old(ctxt).state
        }),
        final(ctxt).commands@ == rasterizer_discard_emitted(
            old(ctxt).commands@,
            old(ctxt).state.rasterizer_discard_enabled,
            draw_primitives,
            old(ctxt).capabilities.gl_version_3,
        ),
        final(ctxt).same_registries(*old(ctxt)),
{
    if ctxt.state.rasterizer_discard_enabled == draw_primitives {
        let cap = if ctxt.capabilities.gl_version_3 {
            Capability::RasterizerDiscard
        } else {
            Capability::RasterizerDiscardExt
        };
        if draw_primitives {
            ctxt.emit(DeviceCommand::Disable(cap));
            ctxt.state.rasterizer_discard_enabled = false;
        } else {
            ctxt.emit(DeviceCommand::Enable(cap));
            ctxt.state.rasterizer_discard_enabled = true;
        }
    }
}

// ---------------------------------------------------------------- patch vertices

/// The log after the tessellation-patch axis ran; `None` (no tessellation
/// in this draw) leaves the device value untouched.
pub open spec fn vertices_per_patch_emitted(
    c: Seq<DeviceCommand>,
    current: u16,
    vertices: Option<u16>,
) -> Seq<DeviceCommand> {
    match vertices {
        Some(n) => emit_step(c, n != current, DeviceCommand::PatchParameter(n)),
        None => c,
    }
}

/// Synchronizes the number of vertices per tessellation patch.
pub fn sync_vertices_per_patch(ctxt: &mut Context, vertices_per_patch: Option<u16>)
    ensures
        final(ctxt).state == (DeviceState {
            patch_vertices: if vertices_per_patch is Some {
                vertices_per_patch->0
            } else {
                old(ctxt).state.patch_vertices
            },
            ..old(ctxt).state
        }),
        final(ctxt).commands@ == vertices_per_patch_emitted(
            old(ctxt).commands@,
            old(ctxt).state.patch_vertices,
            vertices_per_patch,
        ),
        final(ctxt).same_registries(*old(ctxt)),
{
    if let Some(n) = vertices_per_patch {
        if n != ctxt.state.patch_vertices {
            ctxt.emit(DeviceCommand::PatchParameter(n));
            ctxt.state.patch_vertices = n;
        }
    }
}


// ---------------------------------------------------------------- classification

/// None of the axes issues a draw operation: every routine only appends
/// state-changing commands.
#[verifier::spinoff_prover]
#[verifier::rlimit(100)]
pub proof fn lemma_axes_emit_no_draw(
    c: Seq<DeviceCommand>,
    s: crate::context::DeviceState,
    params: DrawParameters,
    vertices_per_patch: Option<u16>,
    dimensions: (u32, u32),
    core_entry: bool,
)
    ensures
        crate::commands::appended_no_draw(
            c,
            depth_emitted(c, s.depth, params.depth_test, params.depth_write, params.depth_range),
        ),
        forall|c2: Seq<DeviceCommand>|
            crate::commands::appended_no_draw(c2, #[trigger] stencil_emitted(c2, s.stencil, params)),
        forall|c2: Seq<DeviceCommand>|
            crate::commands::appended_no_draw(
                c2,
                #[trigger] blend_emitted(c2, s.blend, params.blending_function),
            ),
        forall|c2: Seq<DeviceCommand>|
            crate::commands::appended_no_draw(
                c2,
                #[trigger] color_mask_emitted(c2, s.color_mask, params.color_mask),
            ),
        forall|c2: Seq<DeviceCommand>|
            crate::commands::appended_no_draw(
                c2,
                #[trigger] line_width_emitted(c2, s.line_width, params.line_width),
            ),
        forall|c2: Seq<DeviceCommand>|
            crate::commands::appended_no_draw(
                c2,
                #[trigger] point_size_emitted(c2, s.point_size, params.point_size),
            ),
        forall|c2: Seq<DeviceCommand>|
            crate::commands::appended_no_draw(
                c2,
                #[trigger] polygon_mode_emitted(
                    c2,
                    s.culling,
                    s.polygon_mode,
                    params.backface_culling,
                    params.polygon_mode,
                ),
            ),
        forall|c2: Seq<DeviceCommand>|
            crate::commands::appended_no_draw(
                c2,
                #[trigger] multisampling_emitted(c2, s.multisample_enabled, params.multisampling),
            ),
        forall|c2: Seq<DeviceCommand>|
            crate::commands::appended_no_draw(
                c2,
                #[trigger] dithering_emitted(c2, s.dither_enabled, params.dithering),
            ),
        forall|c2: Seq<DeviceCommand>|
            crate::commands::appended_no_draw(
                c2,
                #[trigger] viewport_emitted(
                    c2,
                    s.viewport,
                    params.viewport,
                    params.scissor,
                    dimensions,
                ),
            ),
        forall|c2: Seq<DeviceCommand>|
            crate::commands::appended_no_draw(
                c2,
                #[trigger] rasterizer_discard_emitted(
                    c2,
                    s.rasterizer_discard_enabled,
                    params.draw_primitives,
                    core_entry,
                ),
            ),
        forall|c2: Seq<DeviceCommand>|
            crate::commands::appended_no_draw(
                c2,
                #[trigger] vertices_per_patch_emitted(c2, s.patch_vertices, vertices_per_patch),
            ),
{
}

} // verus!

