//! Exercises the uniform binder: direct values, texture-unit allocation
//! with its tie-break order, uniform blocks and their layout check, and the
//! kind-confusion errors.

use draw_core::buffer::BufferRef;
use draw_core::commands::DeviceCommand;
use draw_core::context::{Capabilities, Context};
use draw_core::error::DrawError;
use draw_core::index::{IndicesSource, PrimitiveType};
use draw_core::params::{
    BackfaceCullingMode, DepthTest, DrawParameters, PolygonMode, StencilOperation, StencilTest,
};
use draw_core::program::{Program, Uniform, UniformBlock};
use draw_core::uniforms::{
    BlockLayout, EmptyUniforms, NumericValue, SampleKind, SamplerClass, TextureDimension,
    UniformEntry, UniformType, UniformValue, Uniforms, UniformsStorage,
};
use draw_core::vertex::VerticesSource;

const ENCODED_ZERO: u32 = 0;
const ENCODED_ONE: u32 = 0x3f80_0000;

fn small_caps() -> Capabilities {
    Capabilities {
        max_patch_vertices: Some(32),
        max_combined_texture_image_units: 16,
        max_uniform_buffer_bindings: 36,
        max_viewport_dims: (16384, 16384),
        gl_version_3: true,
        gl_version_3_3: true,
        extension_framebuffer_srgb: false,
        extension_sampler_objects: false,
        extension_transform_feedback: false,
        extension_conditional_render: false,
        fence_sync: true,
    }
}

fn context() -> Context {
    Context::new(small_caps(), ENCODED_ZERO, ENCODED_ONE)
}

fn base_parameters() -> DrawParameters {
    DrawParameters {
        depth_test: DepthTest::Overwrite,
        depth_write: true,
        depth_range: (ENCODED_ZERO, ENCODED_ONE),
        stencil_test_clockwise: StencilTest::AlwaysPass,
        stencil_reference_value_clockwise: 0,
        stencil_write_mask_clockwise: 0xffff_ffff,
        stencil_fail_operation_clockwise: StencilOperation::Keep,
        stencil_pass_depth_fail_operation_clockwise: StencilOperation::Keep,
        stencil_depth_pass_operation_clockwise: StencilOperation::Keep,
        stencil_test_counter_clockwise: StencilTest::AlwaysPass,
        stencil_reference_value_counter_clockwise: 0,
        stencil_write_mask_counter_clockwise: 0xffff_ffff,
        stencil_fail_operation_counter_clockwise: StencilOperation::Keep,
        stencil_pass_depth_fail_operation_counter_clockwise: StencilOperation::Keep,
        stencil_depth_pass_operation_counter_clockwise: StencilOperation::Keep,
        blending_function: None,
        color_mask: (true, true, true, true),
        line_width: None,
        point_size: None,
        backface_culling: BackfaceCullingMode::CullingDisabled,
        polygon_mode: PolygonMode::Fill,
        multisampling: true,
        dithering: true,
        viewport: None,
        scissor: None,
        draw_primitives: true,
        samples_passed_query: None,
        time_elapsed_query: None,
        primitives_generated_query: None,
        transform_feedback_primitives_written_query: None,
        condition: None,
    }
}

fn triangle() -> Vec<VerticesSource> {
    vec![VerticesSource::VertexBuffer {
        buffer: BufferRef { id: 10, elements_count: 3, offset_bytes: 0, fenced: false },
        per_instance: false,
    }]
}

fn no_indices() -> IndicesSource {
    IndicesSource::NoIndices { primitives: PrimitiveType::TrianglesList }
}

fn run(ctxt: &mut Context, program: &Program, uniforms: &UniformsStorage) -> Result<
    (),
    DrawError,
> {
    draw_core::draw::draw(
        ctxt,
        None,
        &triangle(),
        &no_indices(),
        program,
        uniforms,
        &base_parameters(),
        (640, 480),
    )
}

fn entry(name: &str, value: UniformValue) -> UniformEntry {
    UniformEntry { name: name.to_string(), value }
}

#[test]
fn empty_uniforms_visit_nothing() {
    assert_eq!(EmptyUniforms.visit_values(), vec![]);
}

#[test]
fn numeric_uniform_is_uploaded() {
    let program = Program {
        id: 7,
        uniforms: vec![(
            "weight".to_string(),
            Uniform { location: 3, ty: UniformType::SignedInt, size: None },
        )],
        uniform_blocks: vec![],
        has_srgb_output: true,
    };
    let uniforms = UniformsStorage {
        entries: vec![entry("weight", UniformValue::Numeric(NumericValue::SignedInt(-4)))],
    };
    let mut ctxt = context();
    assert!(run(&mut ctxt, &program, &uniforms).is_ok());
    assert!(ctxt.commands.contains(&DeviceCommand::Uniform(7, 3, NumericValue::SignedInt(-4))));
}

#[test]
fn undeclared_uniform_is_ignored() {
    let program = Program { id: 7, uniforms: vec![], uniform_blocks: vec![], has_srgb_output: true };
    let uniforms = UniformsStorage {
        entries: vec![entry("stray", UniformValue::Numeric(NumericValue::Scalar(5)))],
    };
    let mut ctxt = context();
    assert!(run(&mut ctxt, &program, &uniforms).is_ok());
}

#[test]
fn uniform_type_mismatch_is_detected() {
    let program = Program {
        id: 7,
        uniforms: vec![(
            "weight".to_string(),
            Uniform { location: 3, ty: UniformType::Scalar, size: None },
        )],
        uniform_blocks: vec![],
        has_srgb_output: true,
    };
    let uniforms = UniformsStorage {
        entries: vec![entry("weight", UniformValue::Numeric(NumericValue::UnsignedInt(2)))],
    };
    let mut ctxt = context();
    assert_eq!(
        run(&mut ctxt, &program, &uniforms),
        Err(DrawError::UniformTypeMismatch {
            name: "weight".to_string(),
            expected: UniformType::Scalar,
        })
    );
}

#[test]
fn texture_units_prefer_an_exact_pair_over_a_new_slot() {
    let program = Program {
        id: 7,
        uniforms: vec![
            (
                "first".to_string(),
                Uniform {
                    location: 0,
                    ty: UniformType::Sampler(TextureDimension::Texture2d, SamplerClass::Float),
                    size: None,
                },
            ),
            (
                "second".to_string(),
                Uniform {
                    location: 1,
                    ty: UniformType::Sampler(TextureDimension::Texture2d, SamplerClass::Float),
                    size: None,
                },
            ),
        ],
        uniform_blocks: vec![],
        has_srgb_output: true,
    };
    let texture = UniformValue::Texture {
        dimension: TextureDimension::Texture2d,
        kind: SampleKind::Regular,
        texture: 99,
        sampler: 0,
    };
    let uniforms = UniformsStorage {
        entries: vec![entry("first", texture), entry("second", texture)],
    };
    let mut ctxt = context();
    assert!(run(&mut ctxt, &program, &uniforms).is_ok());
    // the first bind claims unit 0 and binds the texture once; the second
    // finds the exact pair already bound and only points its uniform there
    let binds = ctxt
        .commands
        .iter()
        .filter(|c| matches!(c, DeviceCommand::BindTexture(..)))
        .count();
    assert_eq!(binds, 1);
    assert!(ctxt.commands.contains(&DeviceCommand::Uniform(7, 0, NumericValue::SignedInt(0))));
    assert!(ctxt.commands.contains(&DeviceCommand::Uniform(7, 1, NumericValue::SignedInt(0))));
    assert_eq!(ctxt.state.textures.units[0].texture, 99);
}

#[test]
fn distinct_textures_claim_distinct_units() {
    let program = Program {
        id: 7,
        uniforms: vec![
            (
                "first".to_string(),
                Uniform {
                    location: 0,
                    ty: UniformType::Sampler(TextureDimension::Texture2d, SamplerClass::Float),
                    size: None,
                },
            ),
            (
                "second".to_string(),
                Uniform {
                    location: 1,
                    ty: UniformType::Sampler(TextureDimension::Texture2d, SamplerClass::Float),
                    size: None,
                },
            ),
        ],
        uniform_blocks: vec![],
        has_srgb_output: true,
    };
    let tex = |id: u32| UniformValue::Texture {
        dimension: TextureDimension::Texture2d,
        kind: SampleKind::Regular,
        texture: id,
        sampler: 0,
    };
    let uniforms = UniformsStorage {
        entries: vec![entry("first", tex(99)), entry("second", tex(100))],
    };
    let mut ctxt = context();
    assert!(run(&mut ctxt, &program, &uniforms).is_ok());
    assert_eq!(ctxt.state.textures.units[0].texture, 99);
    assert_eq!(ctxt.state.textures.units[1].texture, 100);
    assert!(ctxt.commands.contains(&DeviceCommand::Uniform(7, 1, NumericValue::SignedInt(1))));
}

#[test]
fn block_binds_to_an_allocated_point() {
    let layout = BlockLayout { size: 12, signature: 77 };
    let program = Program {
        id: 7,
        uniforms: vec![],
        uniform_blocks: vec![(
            "MyBlock".to_string(),
            UniformBlock { binding: 2, layout },
        )],
        has_srgb_output: true,
    };
    let buffer = BufferRef { id: 55, elements_count: 1, offset_bytes: 0, fenced: true };
    let uniforms = UniformsStorage {
        entries: vec![entry("MyBlock", UniformValue::Block { buffer, layout })],
    };
    let mut ctxt = context();
    assert!(run(&mut ctxt, &program, &uniforms).is_ok());
    assert!(ctxt.commands.contains(&DeviceCommand::BindBufferBaseUniform(0, 55)));
    assert!(ctxt.commands.contains(&DeviceCommand::UniformBlockBinding(7, 2, 0)));
    // the block's buffer got a fence
    assert_eq!(ctxt.fences.entries, vec![(55, 1)]);
}

#[test]
fn block_layout_mismatch_is_never_bound() {
    let declared = BlockLayout { size: 12, signature: 77 };
    let supplied = BlockLayout { size: 12, signature: 78 };
    let program = Program {
        id: 7,
        uniforms: vec![],
        uniform_blocks: vec![(
            "MyBlock".to_string(),
            UniformBlock { binding: 2, layout: declared },
        )],
        has_srgb_output: true,
    };
    let buffer = BufferRef { id: 55, elements_count: 1, offset_bytes: 0, fenced: false };
    let uniforms = UniformsStorage {
        entries: vec![entry("MyBlock", UniformValue::Block { buffer, layout: supplied })],
    };
    let mut ctxt = context();
    assert_eq!(
        run(&mut ctxt, &program, &uniforms),
        Err(DrawError::UniformBlockLayoutMismatch { name: "MyBlock".to_string() })
    );
    assert!(!ctxt.commands.iter().any(|c| matches!(c, DeviceCommand::BindBufferBaseUniform(..))));
}

#[test]
fn kind_confusion_is_detected_both_ways() {
    let layout = BlockLayout { size: 12, signature: 77 };
    let program = Program {
        id: 7,
        uniforms: vec![(
            "weight".to_string(),
            Uniform { location: 3, ty: UniformType::Scalar, size: None },
        )],
        uniform_blocks: vec![(
            "MyBlock".to_string(),
            UniformBlock { binding: 2, layout },
        )],
        has_srgb_output: true,
    };
    let buffer = BufferRef { id: 55, elements_count: 1, offset_bytes: 0, fenced: false };
    // a buffer for a plain uniform
    let uniforms = UniformsStorage {
        entries: vec![entry("weight", UniformValue::Block { buffer, layout })],
    };
    let mut ctxt = context();
    assert_eq!(
        run(&mut ctxt, &program, &uniforms),
        Err(DrawError::UniformBufferToValue { name: "weight".to_string() })
    );
    // a plain value for a block
    let uniforms = UniformsStorage {
        entries: vec![entry("MyBlock", UniformValue::Numeric(NumericValue::Scalar(1)))],
    };
    let mut ctxt = context();
    assert_eq!(
        run(&mut ctxt, &program, &uniforms),
        Err(DrawError::UniformValueToBlock { name: "MyBlock".to_string() })
    );
}

#[test]
fn sampler_rebind_reuses_a_unit_holding_the_texture() {
    // unit 0 will hold (99, sampler 4) after the first draw; asking for
    // (99, sampler 6) in a fresh call prefers rebinding that unit's sampler
    // over growing into a new unit
    let program = Program {
        id: 7,
        uniforms: vec![(
            "first".to_string(),
            Uniform {
                location: 0,
                ty: UniformType::Sampler(TextureDimension::Texture2d, SamplerClass::Float),
                size: None,
            },
        )],
        uniform_blocks: vec![],
        has_srgb_output: true,
    };
    let tex = |sampler: u32| UniformValue::Texture {
        dimension: TextureDimension::Texture2d,
        kind: SampleKind::Regular,
        texture: 99,
        sampler,
    };
    let mut ctxt = context();
    let uniforms = UniformsStorage { entries: vec![entry("first", tex(4))] };
    assert!(run(&mut ctxt, &program, &uniforms).is_ok());
    assert_eq!(ctxt.state.textures.units[0].sampler, 4);
    let uniforms = UniformsStorage { entries: vec![entry("first", tex(6))] };
    assert!(run(&mut ctxt, &program, &uniforms).is_ok());
    assert_eq!(ctxt.state.textures.units.len(), 1);
    assert_eq!(ctxt.state.textures.units[0].sampler, 6);
    assert!(ctxt.commands.contains(&DeviceCommand::BindSampler(0, 6)));
}

#[test]
fn exact_pair_is_preferred_even_over_a_sampler_rebind() {
    // after the first draw, unit 0 holds (99, sampler 4) and unit 1 holds
    // (99, sampler 6); asking for (99, sampler 6) again picks unit 1, the
    // exact pair, instead of rebinding unit 0\'s sampler
    let program = Program {
        id: 7,
        uniforms: vec![
            (
                "first".to_string(),
                Uniform {
                    location: 0,
                    ty: UniformType::Sampler(TextureDimension::Texture2d, SamplerClass::Float),
                    size: None,
                },
            ),
            (
                "second".to_string(),
                Uniform {
                    location: 1,
                    ty: UniformType::Sampler(TextureDimension::Texture2d, SamplerClass::Float),
                    size: None,
                },
            ),
        ],
        uniform_blocks: vec![],
        has_srgb_output: true,
    };
    let tex = |sampler: u32| UniformValue::Texture {
        dimension: TextureDimension::Texture2d,
        kind: SampleKind::Regular,
        texture: 99,
        sampler,
    };
    let mut ctxt = context();
    let uniforms = UniformsStorage {
        entries: vec![entry("first", tex(4)), entry("second", tex(6))],
    };
    assert!(run(&mut ctxt, &program, &uniforms).is_ok());
    assert_eq!(ctxt.state.textures.units[0].sampler, 4);
    assert_eq!(ctxt.state.textures.units[1].sampler, 6);
    let commands_before = ctxt.commands.len();
    let single = Program {
        id: 7,
        uniforms: vec![(
            "first".to_string(),
            Uniform {
                location: 0,
                ty: UniformType::Sampler(TextureDimension::Texture2d, SamplerClass::Float),
                size: None,
            },
        )],
        uniform_blocks: vec![],
        has_srgb_output: true,
    };
    let uniforms = UniformsStorage { entries: vec![entry("first", tex(6))] };
    assert!(run(&mut ctxt, &program_or(&single), &uniforms).is_ok());
    // the second draw points the uniform at unit 1 and rebinds nothing
    assert!(ctxt.commands[commands_before..].contains(
        &DeviceCommand::Uniform(7, 0, NumericValue::SignedInt(1))
    ));
    assert!(!ctxt.commands[commands_before..].iter().any(|c| matches!(
        c,
        DeviceCommand::BindTexture(..) | DeviceCommand::BindSampler(..)
    )));
    assert_eq!(ctxt.state.textures.units.len(), 2);
    assert_eq!(ctxt.state.textures.units[0].sampler, 4);
}

fn program_or(p: &Program) -> Program {
    Program {
        id: p.id,
        uniforms: p.uniforms.clone(),
        uniform_blocks: p.uniform_blocks.clone(),
        has_srgb_output: p.has_srgb_output,
    }
}
