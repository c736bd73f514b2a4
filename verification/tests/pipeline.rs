//! Exercises the draw core end to end: index sources, the state
//! synchronizer's redundancy avoidance, texture-unit allocation, uniform
//! binding, the dispatcher's error detection and its fence installs.

use draw_core::buffer::BufferRef;
use draw_core::commands::{Capability, DeviceCommand, QueryTarget};
use draw_core::context::{Capabilities, Context};
use draw_core::error::DrawError;
use draw_core::index::{Index, IndexType, IndicesSource, NoIndices, PrimitiveType};
use draw_core::params::{
    BackfaceCullingMode, BlendingFunction, ConditionMode, ConditionalRendering, DepthTest,
    DrawParameters, Face, LinearBlendingFactor, PolygonMode, QueryRef, Rect, SamplesQueryParam,
    SamplesQueryType, StencilOperation, StencilTest,
};
use draw_core::program::Program;
use draw_core::sync::{sync_blending, sync_depth, sync_polygon_mode};
use draw_core::draw::{draw, sync_draw_parameters};
use draw_core::uniforms::UniformsStorage;
use draw_core::vertex::VerticesSource;

const ENCODED_ZERO: u32 = 0;
const ENCODED_ONE: u32 = 0x3f80_0000;

fn full_caps() -> Capabilities {
    Capabilities {
        max_patch_vertices: Some(32),
        max_combined_texture_image_units: 16,
        max_uniform_buffer_bindings: 36,
        max_viewport_dims: (16384, 16384),
        gl_version_3: true,
        gl_version_3_3: true,
        extension_framebuffer_srgb: false,
        extension_sampler_objects: false,
        extension_transform_feedback: false,
        extension_conditional_render: false,
        fence_sync: true,
    }
}

fn fresh_context() -> Context {
    Context::new(full_caps(), ENCODED_ZERO, ENCODED_ONE)
}

/// A configuration that matches the device's initial state on most axes.
fn plain_parameters() -> DrawParameters {
    DrawParameters {
        depth_test: DepthTest::Overwrite,
        depth_write: true,
        depth_range: (ENCODED_ZERO, ENCODED_ONE),
        stencil_test_clockwise: StencilTest::AlwaysPass,
        stencil_reference_value_clockwise: 0,
        stencil_write_mask_clockwise: 0xffff_ffff,
        stencil_fail_operation_clockwise: StencilOperation::Keep,
        stencil_pass_depth_fail_operation_clockwise: StencilOperation::Keep,
        stencil_depth_pass_operation_clockwise: StencilOperation::Keep,
        stencil_test_counter_clockwise: StencilTest::AlwaysPass,
        stencil_reference_value_counter_clockwise: 0,
        stencil_write_mask_counter_clockwise: 0xffff_ffff,
        stencil_fail_operation_counter_clockwise: StencilOperation::Keep,
        stencil_pass_depth_fail_operation_counter_clockwise: StencilOperation::Keep,
        stencil_depth_pass_operation_counter_clockwise: StencilOperation::Keep,
        blending_function: None,
        color_mask: (true, true, true, true),
        line_width: None,
        point_size: None,
        backface_culling: BackfaceCullingMode::CullingDisabled,
        polygon_mode: PolygonMode::Fill,
        multisampling: true,
        dithering: true,
        viewport: None,
        scissor: None,
        draw_primitives: true,
        samples_passed_query: None,
        time_elapsed_query: None,
        primitives_generated_query: None,
        transform_feedback_primitives_written_query: None,
        condition: None,
    }
}

fn plain_buffer(id: u32, elements: usize) -> BufferRef {
    BufferRef { id, elements_count: elements, offset_bytes: 0, fenced: false }
}

fn empty_program(id: u32) -> Program {
    Program { id, uniforms: vec![], uniform_blocks: vec![], has_srgb_output: true }
}

fn no_uniforms() -> UniformsStorage {
    UniformsStorage { entries: vec![] }
}

// ---------------------------------------------------------------- index sources

#[test]
fn index_type_sizes() {
    assert_eq!(IndexType::U8.get_size(), 1);
    assert_eq!(IndexType::U16.get_size(), 2);
    assert_eq!(IndexType::U32.get_size(), 4);
}

#[test]
fn index_trait_types() {
    assert_eq!(u8::get_type(), IndexType::U8);
    assert_eq!(u16::get_type(), IndexType::U16);
    assert_eq!(u32::get_type(), IndexType::U32);
}

#[test]
fn primitives_type_of_each_source() {
    let buffer = plain_buffer(3, 6);
    let with_indices = IndicesSource::IndexBuffer {
        buffer,
        data_type: IndexType::U16,
        primitives: PrimitiveType::TriangleStrip,
    };
    assert_eq!(with_indices.get_primitives_type(), PrimitiveType::TriangleStrip);
    let multidraw = IndicesSource::MultidrawArray { buffer, primitives: PrimitiveType::Points };
    assert_eq!(multidraw.get_primitives_type(), PrimitiveType::Points);
    let none: IndicesSource = NoIndices(PrimitiveType::TrianglesList).into();
    assert_eq!(none.get_primitives_type(), PrimitiveType::TrianglesList);
}

// ---------------------------------------------------------------- state synchronizer

#[test]
fn depth_sync_emits_only_on_change() {
    let mut ctxt = fresh_context();
    sync_depth(&mut ctxt, DepthTest::IfLess, true, (ENCODED_ZERO, ENCODED_ONE));
    // the device starts with the test disabled and the function at Less:
    // only the enable is needed
    assert_eq!(ctxt.commands, vec![DeviceCommand::Enable(Capability::DepthTest)]);
    let before = ctxt.commands.len();
    sync_depth(&mut ctxt, DepthTest::IfLess, true, (ENCODED_ZERO, ENCODED_ONE));
    assert_eq!(ctxt.commands.len(), before);
}

#[test]
fn blending_sync_tracks_equation_and_factors() {
    let mut ctxt = fresh_context();
    let function = BlendingFunction::Addition {
        source: LinearBlendingFactor::SourceAlpha,
        destination: LinearBlendingFactor::OneMinusSourceAlpha,
    };
    sync_blending(&mut ctxt, Some(function));
    assert_eq!(
        ctxt.commands,
        vec![
            DeviceCommand::Enable(Capability::Blend),
            DeviceCommand::BlendFunc(
                LinearBlendingFactor::SourceAlpha,
                LinearBlendingFactor::OneMinusSourceAlpha,
            ),
        ]
    );
    let before = ctxt.commands.len();
    sync_blending(&mut ctxt, Some(function));
    assert_eq!(ctxt.commands.len(), before);
    // replace disables blending again
    sync_blending(&mut ctxt, Some(BlendingFunction::AlwaysReplace));
    assert_eq!(ctxt.commands.last(), Some(&DeviceCommand::Disable(Capability::Blend)));
}

#[test]
fn cull_clockwise_culls_the_back_face() {
    let mut ctxt = fresh_context();
    sync_polygon_mode(&mut ctxt, BackfaceCullingMode::CullClockWise, PolygonMode::Fill);
    // the device's default culled face is already the back face: only the
    // enable is needed
    assert_eq!(ctxt.commands, vec![DeviceCommand::Enable(Capability::CullFace)]);
    assert_eq!(ctxt.state.culling.face, Face::Back);
    assert!(ctxt.state.culling.enabled);
}

#[test]
fn cull_counterclockwise_culls_the_front_face() {
    let mut ctxt = fresh_context();
    sync_polygon_mode(&mut ctxt, BackfaceCullingMode::CullCounterClockWise, PolygonMode::Fill);
    assert_eq!(
        ctxt.commands,
        vec![DeviceCommand::Enable(Capability::CullFace), DeviceCommand::CullFace(Face::Front)]
    );
}

#[test]
fn identical_render_state_resync_is_silent() {
    let mut ctxt = fresh_context();
    let mut params = plain_parameters();
    params.depth_test = DepthTest::IfLessOrEqual;
    params.depth_write = false;
    params.backface_culling = BackfaceCullingMode::CullClockWise;
    params.blending_function = Some(BlendingFunction::Max);
    params.stencil_test_clockwise = StencilTest::IfEqual { mask: 0xff };
    params.dithering = false;
    assert!(sync_draw_parameters(&mut ctxt, &params, Some(4), (640, 480)).is_ok());
    let after_first = ctxt.commands.len();
    assert!(after_first > 0);
    assert!(sync_draw_parameters(&mut ctxt, &params, Some(4), (640, 480)).is_ok());
    assert_eq!(ctxt.commands.len(), after_first);
}

// ---------------------------------------------------------------- dispatcher

#[test]
fn no_indices_draw_covers_the_common_count() {
    let mut ctxt = fresh_context();
    let sources = vec![
        VerticesSource::VertexBuffer { buffer: plain_buffer(10, 3), per_instance: false },
        VerticesSource::VertexBuffer { buffer: plain_buffer(11, 3), per_instance: false },
    ];
    let indices = IndicesSource::NoIndices { primitives: PrimitiveType::TrianglesList };
    let result = draw(
        &mut ctxt,
        None,
        &sources,
        &indices,
        &empty_program(1),
        &no_uniforms(),
        &plain_parameters(),
        (640, 480),
    );
    assert!(result.is_ok());
    assert!(ctxt.commands.contains(&DeviceCommand::DrawArrays(PrimitiveType::TrianglesList, 0, 3)));
}

#[test]
fn instanced_draw_uses_the_instance_count() {
    let mut ctxt = fresh_context();
    let sources = vec![
        VerticesSource::VertexBuffer { buffer: plain_buffer(10, 4), per_instance: false },
        VerticesSource::VertexBuffer { buffer: plain_buffer(11, 8), per_instance: true },
    ];
    let indices = IndicesSource::NoIndices { primitives: PrimitiveType::TrianglesList };
    let result = draw(
        &mut ctxt,
        None,
        &sources,
        &indices,
        &empty_program(1),
        &no_uniforms(),
        &plain_parameters(),
        (640, 480),
    );
    assert!(result.is_ok());
    assert!(ctxt.commands.contains(
        &DeviceCommand::DrawArraysInstanced(PrimitiveType::TrianglesList, 0, 4, 8)
    ));
}

#[test]
fn instance_count_mismatch_fails_before_any_command() {
    let mut ctxt = fresh_context();
    let sources = vec![
        VerticesSource::VertexBuffer { buffer: plain_buffer(10, 8), per_instance: true },
        VerticesSource::VertexBuffer { buffer: plain_buffer(11, 9), per_instance: true },
    ];
    let indices = IndicesSource::NoIndices { primitives: PrimitiveType::TrianglesList };
    let result = draw(
        &mut ctxt,
        None,
        &sources,
        &indices,
        &empty_program(1),
        &no_uniforms(),
        &plain_parameters(),
        (640, 480),
    );
    assert_eq!(result, Err(DrawError::InstancesCountMismatch));
    assert!(ctxt.commands.is_empty());
}

#[test]
fn vertex_count_mismatch_fails_only_without_indices() {
    let sources = vec![
        VerticesSource::VertexBuffer { buffer: plain_buffer(10, 3), per_instance: false },
        VerticesSource::Marker { len: 5, per_instance: false },
    ];
    // without indices the count is needed: the call fails
    let mut ctxt = fresh_context();
    let indices = IndicesSource::NoIndices { primitives: PrimitiveType::TrianglesList };
    let result = draw(
        &mut ctxt,
        None,
        &sources,
        &indices,
        &empty_program(1),
        &no_uniforms(),
        &plain_parameters(),
        (640, 480),
    );
    assert_eq!(result, Err(DrawError::VerticesSourcesLengthMismatch));
    // with an index buffer the count is not needed: the call succeeds
    let mut ctxt = fresh_context();
    let indices = IndicesSource::IndexBuffer {
        buffer: plain_buffer(12, 6),
        data_type: IndexType::U16,
        primitives: PrimitiveType::TrianglesList,
    };
    let result = draw(
        &mut ctxt,
        None,
        &sources,
        &indices,
        &empty_program(1),
        &no_uniforms(),
        &plain_parameters(),
        (640, 480),
    );
    assert!(result.is_ok());
    assert!(ctxt.commands.contains(
        &DeviceCommand::DrawElements(PrimitiveType::TrianglesList, 6, IndexType::U16, 0)
    ));
}

#[test]
fn patches_with_zero_vertices_are_refused() {
    let mut ctxt = fresh_context();
    let sources = vec![
        VerticesSource::VertexBuffer { buffer: plain_buffer(10, 3), per_instance: false },
    ];
    let indices = IndicesSource::NoIndices {
        primitives: PrimitiveType::Patches { vertices_per_patch: 0 },
    };
    let result = draw(
        &mut ctxt,
        None,
        &sources,
        &indices,
        &empty_program(1),
        &no_uniforms(),
        &plain_parameters(),
        (640, 480),
    );
    assert_eq!(result, Err(DrawError::UnsupportedVerticesPerPatch));
    assert!(ctxt.commands.is_empty());
}

#[test]
fn patches_without_tessellation_stage_are_refused() {
    let mut caps = full_caps();
    caps.max_patch_vertices = None;
    let mut ctxt = Context::new(caps, ENCODED_ZERO, ENCODED_ONE);
    let sources = vec![
        VerticesSource::VertexBuffer { buffer: plain_buffer(10, 3), per_instance: false },
    ];
    let indices = IndicesSource::NoIndices {
        primitives: PrimitiveType::Patches { vertices_per_patch: 3 },
    };
    let result = draw(
        &mut ctxt,
        None,
        &sources,
        &indices,
        &empty_program(1),
        &no_uniforms(),
        &plain_parameters(),
        (640, 480),
    );
    assert_eq!(result, Err(DrawError::TessellationNotSupported));
}

#[test]
fn patches_sync_the_patch_vertex_count() {
    let mut ctxt = fresh_context();
    let sources = vec![
        VerticesSource::VertexBuffer { buffer: plain_buffer(10, 9), per_instance: false },
    ];
    let indices = IndicesSource::NoIndices {
        primitives: PrimitiveType::Patches { vertices_per_patch: 9 },
    };
    let result = draw(
        &mut ctxt,
        None,
        &sources,
        &indices,
        &empty_program(1),
        &no_uniforms(),
        &plain_parameters(),
        (640, 480),
    );
    assert!(result.is_ok());
    assert!(ctxt.commands.contains(&DeviceCommand::PatchParameter(9)));
    assert_eq!(ctxt.state.patch_vertices, 9);
}

#[test]
fn query_conflict_on_second_draw() {
    let mut ctxt = fresh_context();
    let sources = vec![
        VerticesSource::VertexBuffer { buffer: plain_buffer(10, 3), per_instance: false },
    ];
    let indices = IndicesSource::NoIndices { primitives: PrimitiveType::TrianglesList };
    let mut params = plain_parameters();
    params.samples_passed_query = Some(SamplesQueryParam {
        kind: SamplesQueryType::AnySamplesPassed,
        id: 5,
    });
    let first = draw(
        &mut ctxt,
        None,
        &sources,
        &indices,
        &empty_program(1),
        &no_uniforms(),
        &params,
        (640, 480),
    );
    assert!(first.is_ok());
    assert!(ctxt.commands.contains(&DeviceCommand::BeginQuery(QueryTarget::AnySamplesPassed, 5)));
    // the same query object cannot be started again in another slot kind
    params.samples_passed_query = Some(SamplesQueryParam {
        kind: SamplesQueryType::SamplesPassed,
        id: 5,
    });
    let second = draw(
        &mut ctxt,
        None,
        &sources,
        &indices,
        &empty_program(1),
        &no_uniforms(),
        &params,
        (640, 480),
    );
    assert_eq!(second, Err(DrawError::WrongQueryOperation));
}

#[test]
fn fences_are_installed_and_replaced() {
    let mut ctxt = fresh_context();
    let fenced = BufferRef { id: 42, elements_count: 3, offset_bytes: 0, fenced: true };
    let sources = vec![VerticesSource::VertexBuffer { buffer: fenced, per_instance: false }];
    let indices = IndicesSource::NoIndices { primitives: PrimitiveType::TrianglesList };
    let result = draw(
        &mut ctxt,
        None,
        &sources,
        &indices,
        &empty_program(1),
        &no_uniforms(),
        &plain_parameters(),
        (640, 480),
    );
    assert!(result.is_ok());
    assert_eq!(ctxt.fences.entries, vec![(42, 1)]);
    assert!(ctxt.commands.contains(&DeviceCommand::FenceSync(1)));
    // a second draw replaces the fence and destroys the previous token
    let result = draw(
        &mut ctxt,
        None,
        &sources,
        &indices,
        &empty_program(1),
        &no_uniforms(),
        &plain_parameters(),
        (640, 480),
    );
    assert!(result.is_ok());
    assert_eq!(ctxt.fences.entries, vec![(42, 2)]);
    assert!(ctxt.commands.contains(&DeviceCommand::DeleteSync(1)));
}

#[test]
fn scissor_box_toggles_the_scissor_test() {
    let mut ctxt = fresh_context();
    let mut params = plain_parameters();
    params.scissor = Some(Rect { left: 10, bottom: 20, width: 30, height: 40 });
    assert!(sync_draw_parameters(&mut ctxt, &params, None, (640, 480)).is_ok());
    assert!(ctxt.commands.contains(&DeviceCommand::Scissor(10, 20, 30, 40)));
    assert!(ctxt.commands.contains(&DeviceCommand::Enable(Capability::ScissorTest)));
    params.scissor = None;
    assert!(sync_draw_parameters(&mut ctxt, &params, None, (640, 480)).is_ok());
    assert_eq!(ctxt.commands.last(), Some(&DeviceCommand::Disable(Capability::ScissorTest)));
}

#[test]
fn time_elapsed_query_begins_and_ends() {
    let mut ctxt = fresh_context();
    let mut params = plain_parameters();
    params.time_elapsed_query = Some(QueryRef { id: 3 });
    assert!(sync_draw_parameters(&mut ctxt, &params, None, (640, 480)).is_ok());
    assert!(ctxt.commands.contains(&DeviceCommand::BeginQuery(QueryTarget::TimeElapsed, 3)));
    params.time_elapsed_query = None;
    assert!(sync_draw_parameters(&mut ctxt, &params, None, (640, 480)).is_ok());
    assert_eq!(ctxt.commands.last(), Some(&DeviceCommand::EndQuery(QueryTarget::TimeElapsed)));
    // the same query object cannot be started a second time
    params.time_elapsed_query = Some(QueryRef { id: 3 });
    assert_eq!(
        sync_draw_parameters(&mut ctxt, &params, None, (640, 480)),
        Err(DrawError::WrongQueryOperation)
    );
}

#[test]
fn conditional_render_keeps_a_covering_wait_mode() {
    let mut ctxt = fresh_context();
    let mut params = plain_parameters();
    params.condition = Some(ConditionalRendering {
        query: SamplesQueryParam { kind: SamplesQueryType::AnySamplesPassed, id: 9 },
        wait: true,
        per_region: false,
    });
    assert!(sync_draw_parameters(&mut ctxt, &params, None, (640, 480)).is_ok());
    assert!(ctxt.commands.contains(&DeviceCommand::BeginConditionalRender(
        9,
        ConditionMode { wait: true, per_region: false },
        false,
    )));
    let before = ctxt.commands.len();
    // weakening wait to no-wait is covered by the running predication
    params.condition = Some(ConditionalRendering {
        query: SamplesQueryParam { kind: SamplesQueryType::AnySamplesPassed, id: 9 },
        wait: false,
        per_region: false,
    });
    assert!(sync_draw_parameters(&mut ctxt, &params, None, (640, 480)).is_ok());
    assert_eq!(ctxt.commands.len(), before);
    // ending the predication emits the end call
    params.condition = None;
    assert!(sync_draw_parameters(&mut ctxt, &params, None, (640, 480)).is_ok());
    assert_eq!(ctxt.commands.last(), Some(&DeviceCommand::EndConditionalRender(false)));
}

#[test]
fn late_instance_mismatch_is_still_detected() {
    // a vertex-count disagreement early in the walk does not stop it: the
    // per-instance mismatch behind it still fails the call, and the count
    // disagreement alone is no error for an indexed draw
    let mut ctxt = fresh_context();
    let sources = vec![
        VerticesSource::VertexBuffer { buffer: plain_buffer(10, 3), per_instance: false },
        VerticesSource::VertexBuffer { buffer: plain_buffer(11, 5), per_instance: false },
        VerticesSource::VertexBuffer { buffer: plain_buffer(12, 7), per_instance: true },
        VerticesSource::VertexBuffer { buffer: plain_buffer(13, 8), per_instance: true },
    ];
    let indices = IndicesSource::IndexBuffer {
        buffer: plain_buffer(14, 6),
        data_type: IndexType::U16,
        primitives: PrimitiveType::TrianglesList,
    };
    let result = draw(
        &mut ctxt,
        None,
        &sources,
        &indices,
        &empty_program(1),
        &no_uniforms(),
        &plain_parameters(),
        (640, 480),
    );
    assert_eq!(result, Err(DrawError::InstancesCountMismatch));
    assert!(ctxt.commands.is_empty());
}

#[test]
fn second_identical_draw_emits_no_state_change() {
    // a full draw with a distinctive configuration, repeated unchanged: the
    // second call re-binds resources and re-issues the draw, but emits not
    // one render-state call
    fn is_state_call(c: &DeviceCommand) -> bool {
        matches!(
            c,
            DeviceCommand::Enable(..)
                | DeviceCommand::Disable(..)
                | DeviceCommand::DepthFunc(..)
                | DeviceCommand::DepthMask(..)
                | DeviceCommand::DepthRange(..)
                | DeviceCommand::StencilFuncSeparate(..)
                | DeviceCommand::StencilMaskSeparate(..)
                | DeviceCommand::StencilOpSeparate(..)
                | DeviceCommand::BlendEquation(..)
                | DeviceCommand::BlendFunc(..)
                | DeviceCommand::ColorMask(..)
                | DeviceCommand::LineWidth(..)
                | DeviceCommand::PointSize(..)
                | DeviceCommand::CullFace(..)
                | DeviceCommand::PolygonMode(..)
                | DeviceCommand::Viewport(..)
                | DeviceCommand::Scissor(..)
                | DeviceCommand::PatchParameter(..)
                | DeviceCommand::BeginQuery(..)
                | DeviceCommand::EndQuery(..)
                | DeviceCommand::BeginConditionalRender(..)
                | DeviceCommand::EndConditionalRender(..)
        )
    }
    let mut ctxt = fresh_context();
    let sources = vec![
        VerticesSource::VertexBuffer { buffer: plain_buffer(10, 3), per_instance: false },
    ];
    let indices = IndicesSource::NoIndices { primitives: PrimitiveType::TrianglesList };
    let mut params = plain_parameters();
    params.depth_test = DepthTest::IfLess;
    params.backface_culling = BackfaceCullingMode::CullClockWise;
    params.blending_function = Some(BlendingFunction::Addition {
        source: LinearBlendingFactor::One,
        destination: LinearBlendingFactor::OneMinusSourceAlpha,
    });
    let program = empty_program(1);
    let uniforms = no_uniforms();
    assert!(
        draw(&mut ctxt, None, &sources, &indices, &program, &uniforms, &params, (640, 480)).is_ok()
    );
    let first_len = ctxt.commands.len();
    assert!(ctxt.commands.iter().any(is_state_call));
    assert!(
        draw(&mut ctxt, None, &sources, &indices, &program, &uniforms, &params, (640, 480)).is_ok()
    );
    assert!(!ctxt.commands[first_len..].iter().any(is_state_call));
    // the draw itself still happened
    assert!(ctxt.commands[first_len..].contains(
        &DeviceCommand::DrawArrays(PrimitiveType::TrianglesList, 0, 3)
    ));
}
