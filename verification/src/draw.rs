//! The draw dispatcher: turns one draw request into the minimal, correctly
//! ordered sequence of device commands.
//!
//! A request is validated, its vertex sources are bound and counted, the
//! target framebuffer and program are made current, the uniforms are bound,
//! every state-synchronizer axis runs, exactly one draw command is issued,
//! and fences are installed on every resource an issued command will read.
//! Every detected error aborts the call before a draw command is issued;
//! side effects already applied by earlier steps are not rolled back.

use vstd::prelude::*;
use crate::bitsfield::Bitsfield;
use crate::commands::{appended_no_draw, appended_no_render_state, DeviceCommand};
use crate::commands::lemma_appended_no_draw_trans;
use crate::context::{BindingMirror, Context, DeviceState};
use crate::error::DrawError;
use crate::index::{IndicesSource, PrimitiveType};
use crate::params::DrawParameters;
use crate::program::{seq_lookup_block, seq_lookup_uniform, Program};
use crate::texture_units::bind_texture_uniform;
use crate::uniforms::{UniformEntry, UniformValue, Uniforms};
use crate::vertex::{attribute_list, fence_list, scan_sources, VerticesSource};
use crate::queries::{queries_outcome, sync_conditional_render, sync_queries};
use crate::queries::conditional_render_target;
use crate::sync::{
    sync_blending, sync_color_mask, sync_depth, sync_dithering, sync_line_width,
    sync_multisampling, sync_point_size, sync_polygon_mode, sync_rasterizer_discard,
    sync_stencil, sync_vertices_per_patch, sync_viewport_scissor,
};
use crate::context::Capabilities;

verus! {

// ---------------------------------------------------------------- uniform binding

/// Why one named uniform value cannot be bound, if it cannot.  A name the
/// program does not declare is silently ignored: the program was validated
/// at link time, so an unresolved uniform is not an error here.
pub open spec fn uniform_entry_error(e: UniformEntry, p: Program) -> Option<DrawError> {
    match seq_lookup_uniform(p.uniforms@, e.name@) {
        Some(u) => match e.value {
            UniformValue::Block { .. } => Some(DrawError::UniformBufferToValue { name: e.name }),
            _ => if !e.value.usable_with(u.ty) {
                Some(DrawError::UniformTypeMismatch { name: e.name, expected: u.ty })
            } else {
                None
            },
        },
        None => match seq_lookup_block(p.uniform_blocks@, e.name@) {
            Some(b) => match e.value {
                UniformValue::Block { buffer, layout } => if layout != b.layout {
                    Some(DrawError::UniformBlockLayoutMismatch { name: e.name })
                } else {
                    None
                },
                _ => Some(DrawError::UniformValueToBlock { name: e.name }),
            },
            None => None,
        },
    }
}

/// The first binding error among the entries from position `i` on.
pub open spec fn first_uniform_error(
    entries: Seq<UniformEntry>,
    p: Program,
    i: int,
) -> Option<DrawError>
    decreases entries.len() - i,
{
    if i < 0 || i >= entries.len() {
        None
    } else {
        match uniform_entry_error(entries[i], p) {
            Some(e) => Some(e),
            None => first_uniform_error(entries, p, i + 1),
        }
    }
}

/// How many of the first `upto` entries bind a texture to a declared
/// uniform, each of which claims one texture unit.
pub open spec fn matched_texture_count(entries: Seq<UniformEntry>, p: Program, upto: int) -> int
    decreases upto,
{
    if upto <= 0 {
        0
    } else {
        matched_texture_count(entries, p, upto - 1) + (if entries[upto - 1].value is Texture
            && seq_lookup_uniform(p.uniforms@, entries[upto - 1].name@) is Some {
            1int
        } else {
            0int
        })
    }
}

/// Counting matched textures grows with the prefix.
pub proof fn lemma_matched_texture_count_monotonic(
    entries: Seq<UniformEntry>,
    p: Program,
    i: int,
    j: int,
)
    requires
        0 <= i <= j,
    ensures
        matched_texture_count(entries, p, i) <= matched_texture_count(entries, p, j),
    decreases j - i,
{
    if i < j {
        lemma_matched_texture_count_monotonic(entries, p, i, j - 1);
    }
}

/// How many of the first `upto` entries bind a buffer to a declared
/// uniform block with a matching layout, each of which claims one buffer
/// binding point.
pub open spec fn matched_block_count(entries: Seq<UniformEntry>, p: Program, upto: int) -> int
    decreases upto,
{
    if upto <= 0 {
        0
    } else {
        matched_block_count(entries, p, upto - 1) + (if is_bound_block(entries[upto - 1], p) {
            1int
        } else {
            0int
        })
    }
}

/// Counting bound blocks grows with the prefix.
pub proof fn lemma_matched_block_count_monotonic(
    entries: Seq<UniformEntry>,
    p: Program,
    i: int,
    j: int,
)
    requires
        0 <= i <= j,
    ensures
        matched_block_count(entries, p, i) <= matched_block_count(entries, p, j),
    decreases j - i,
{
    if i < j {
        lemma_matched_block_count_monotonic(entries, p, i, j - 1);
    }
}

/// Whether an entry binds a buffer to a declared uniform block whose layout
/// matches, so that the bind happens and the buffer may need a fence.
pub open spec fn is_bound_block(e: UniformEntry, p: Program) -> bool {
    &&& seq_lookup_uniform(p.uniforms@, e.name@) is None
    &&& match seq_lookup_block(p.uniform_blocks@, e.name@) {
        Some(b) => match e.value {
            UniformValue::Block { buffer, layout } => layout == b.layout,
            _ => false,
        },
        None => false,
    }
}

/// The buffers bound to uniform blocks among the first `upto` entries whose
/// reads must be fenced, in order.
pub open spec fn block_fence_list(entries: Seq<UniformEntry>, p: Program, upto: int) -> Seq<u32>
    decreases upto,
{
    if upto <= 0 {
        Seq::empty()
    } else {
        let prev = block_fence_list(entries, p, upto - 1);
        let e = entries[upto - 1];
        if is_bound_block(e, p) && (match e.value {
            UniformValue::Block { buffer, .. } => buffer.fenced,
            _ => false,
        }) {
            prev.push(
                match e.value {
                    UniformValue::Block { buffer, .. } => buffer.id,
                    _ => 0u32,
                },
            )
        } else {
            prev
        }
    }
}

/// Binds one named value to a declared uniform block: validates the layout,
/// allocates a buffer binding point for this call, binds the buffer to it
/// and attaches the program's block to the same point.  Returns the
/// buffer's name when its reads must be fenced.
pub fn bind_uniform_block(
    ctxt: &mut Context,
    value: &UniformValue,
    block: crate::program::UniformBlock,
    program_id: u32,
    buffer_bind_points: &mut Bitsfield,
    name: &String,
) -> (r: Result<Option<u32>, DrawError>)
    requires
        old(buffer_bind_points).used@.len() < usize::MAX - 1,
        old(ctxt).capabilities.max_uniform_buffer_bindings <= 0x7fff_ffffu32,
        (match *value {
            UniformValue::Block { buffer, layout } => layout == block.layout ==> (
            buffer.offset_bytes == 0 && old(buffer_bind_points).count_spec() < old(
                ctxt,
            ).capabilities.max_uniform_buffer_bindings),
            _ => true,
        }),
    ensures
        (*value) matches UniformValue::Block { buffer, layout } ==> (if layout != block.layout {
            r == Err::<Option<u32>, DrawError>(
                DrawError::UniformBlockLayoutMismatch { name: *name },
            ) && *final(ctxt) == *old(ctxt) && *final(buffer_bind_points) == *old(
                buffer_bind_points,
            )
        } else {
            r == Ok::<Option<u32>, DrawError>(
                (if buffer.fenced {
                    Some(buffer.id)
                } else {
                    None::<u32>
                }),
            ) && final(ctxt).state == old(ctxt).state && final(ctxt).same_registries(*old(ctxt))
                && appended_no_draw(old(ctxt).commands@, final(ctxt).commands@)
                && appended_no_render_state(old(ctxt).commands@, final(ctxt).commands@) && final(buffer_bind_points).count_spec() <= old(buffer_bind_points).count_spec() + 1 && old(
                buffer_bind_points,
            ).count_spec() <= final(buffer_bind_points).count_spec() && final(buffer_bind_points).used@.len() <= old(buffer_bind_points).used@.len() + 1 && ({
                let p = Bitsfield::first_unused_at(old(buffer_bind_points).used@, 0);
                final(ctxt).commands@ == old(ctxt).commands@.push(
                    DeviceCommand::BindBufferBaseUniform(p as u32, buffer.id),
                ).push(DeviceCommand::UniformBlockBinding(program_id, block.binding, p as u32))
                    && final(buffer_bind_points).used@ == Bitsfield::set_used_seq(
                    old(buffer_bind_points).used@,
                    p,
                )
            })
        }),
        !((*value) is Block) ==> (r == Err::<Option<u32>, DrawError>(
            DrawError::UniformValueToBlock { name: *name },
        ) && *final(ctxt) == *old(ctxt) && *final(buffer_bind_points) == *old(buffer_bind_points)),
{
    match value {
        UniformValue::Block { buffer, layout } => {
            if !layout.matches(&block.layout) {
                return Err(DrawError::UniformBlockLayoutMismatch { name: name.clone() });
            }
            let bind_point = buffer_bind_points.get_unused();
            proof {
                Bitsfield::lemma_count_at_most_len(old(buffer_bind_points).used@);
            }
            buffer_bind_points.set_used(bind_point);
            ctxt.emit(DeviceCommand::BindBufferBaseUniform(bind_point as u32, buffer.id));
            ctxt.emit(DeviceCommand::UniformBlockBinding(program_id, block.binding, bind_point as u32));
            if buffer.fenced {
                Ok(Some(buffer.id))
            } else {
                Ok(None)
            }
        },
        _ => Err(DrawError::UniformValueToBlock { name: name.clone() }),
    }
}

/// Binds one named value to a declared plain uniform: numeric values are
/// uploaded directly; textures resolve to a texture unit allocated for the
/// call; a buffer supplied here is the kind-confusion error.
pub fn bind_uniform(
    ctxt: &mut Context,
    value: &UniformValue,
    program_id: u32,
    location: u32,
    texture_bind_points: &mut Bitsfield,
    name: &String,
) -> (r: Result<(), DrawError>)
    requires
        old(ctxt).wf(),
        old(ctxt).capabilities.max_combined_texture_image_units <= 0x7fff_ffffu32,
        old(texture_bind_points).used@.len() < usize::MAX - 1,
        (*value) is Texture ==> old(texture_bind_points).count_spec() < old(ctxt).capabilities.max_combined_texture_image_units,
        (match *value {
            UniformValue::Texture { sampler, .. } => sampler != 0 ==> old(ctxt).capabilities.supports_samplers(),
            _ => true,
        }),
    ensures
        ((*value) is Block) ==> (
        r == Err::<(), DrawError>(DrawError::UniformBufferToValue { name: *name })
            && *final(ctxt) == *old(ctxt) && *final(texture_bind_points) == *old(texture_bind_points)
        ),
        !((*value) is Block) ==> (
        r == Ok::<(), DrawError>(()) && final(ctxt).same_registries(*old(ctxt)) && final(ctxt).wf()
            && appended_no_draw(old(ctxt).commands@, final(ctxt).commands@)
            && appended_no_render_state(old(ctxt).commands@, final(ctxt).commands@)
            && final(ctxt).state == (DeviceState {
            textures: final(ctxt).state.textures,
            ..old(ctxt).state
        }) && final(texture_bind_points).count_spec() <= old(texture_bind_points).count_spec() + (
        if (*value) is Texture {
            1int
        } else {
            0int
        }) && old(texture_bind_points).count_spec() <= final(texture_bind_points).count_spec() && (
        final(texture_bind_points).used@.len() <= old(texture_bind_points).used@.len() || final(texture_bind_points).used@.len() <= old(ctxt).capabilities.max_combined_texture_image_units)
        ),
        !((*value) is Texture) ==> *final(texture_bind_points) == *old(texture_bind_points),
        (*value) matches UniformValue::Numeric(v) ==> (final(ctxt).commands@ == old(
            ctxt,
        ).commands@.push(DeviceCommand::Uniform(program_id, location, v)) && final(ctxt).state
            == old(ctxt).state),
        (*value) matches UniformValue::Texture { dimension, texture, sampler, .. } ==> ({
            let u = crate::texture_units::chosen_unit(
                old(ctxt).state.textures.units@,
                old(texture_bind_points).used@,
                texture,
                sampler,
                old(ctxt).capabilities.max_combined_texture_image_units as int,
            );
            final(ctxt).commands@ == crate::texture_units::texture_bind_emitted(
                old(ctxt).commands@,
                old(ctxt).state.textures.units@,
                old(ctxt).state.textures.active_unit,
                u,
                texture,
                sampler,
                location,
                program_id,
                dimension,
            ) && final(ctxt).state.textures.units@ == crate::texture_units::units_after_bind(
                old(ctxt).state.textures.units@,
                u,
                texture,
                sampler,
            ) && final(texture_bind_points).used@ == Bitsfield::set_used_seq(
                old(texture_bind_points).used@,
                u,
            ) && final(texture_bind_points).used_spec(u)
        }),
{
    match value {
        UniformValue::Block { .. } => Err(DrawError::UniformBufferToValue { name: name.clone() }),
        UniformValue::Numeric(v) => {
            ctxt.emit(DeviceCommand::Uniform(program_id, location, *v));
            Ok(())
        },
        UniformValue::Texture { dimension, kind: _, texture, sampler } => {
            bind_texture_uniform(
                ctxt,
                *texture,
                *sampler,
                location,
                program_id,
                texture_bind_points,
                *dimension,
            );
            Ok(())
        },
    }
}

/// Binds every named uniform value of the request: plain uniforms and
/// samplers against the program\'s declared uniforms, buffers against its
/// declared uniform blocks; a name the program does not declare is silently
/// ignored.  Aborts on the first unusable value.  Returns the buffers bound
/// to blocks whose reads must be fenced, in binding order.
#[verifier::rlimit(60)]
pub fn bind_uniforms(ctxt: &mut Context, entries: &Vec<UniformEntry>, program: &Program) -> (r:
    Result<Vec<u32>, DrawError>)
    requires
        old(ctxt).wf(),
        old(ctxt).capabilities.max_combined_texture_image_units <= 0x7fff_ffffu32,
        old(ctxt).capabilities.max_uniform_buffer_bindings <= 0x7fff_ffffu32,
        entries@.len() < 0x7fff_ffff,
        matched_texture_count(entries@, *program, entries@.len() as int) <= old(ctxt).capabilities.max_combined_texture_image_units,
        matched_block_count(entries@, *program, entries@.len() as int) <= old(
            ctxt,
        ).capabilities.max_uniform_buffer_bindings,
        forall|i: int|
            0 <= i < entries@.len() ==> ((#[trigger] entries@[i]).value matches
            UniformValue::Texture { sampler, .. } ==> (sampler != 0 ==> old(ctxt).capabilities.supports_samplers())),
        forall|i: int|
            0 <= i < entries@.len() ==> (is_bound_block(#[trigger] entries@[i], *program)
                ==> ((entries@[i]).value matches UniformValue::Block { buffer, .. }
                ==> buffer.offset_bytes == 0)),
    ensures
        final(ctxt).same_registries(*old(ctxt)),
        final(ctxt).wf(),
        appended_no_draw(old(ctxt).commands@, final(ctxt).commands@),
        appended_no_render_state(old(ctxt).commands@, final(ctxt).commands@),
        final(ctxt).state == (DeviceState {
            textures: final(ctxt).state.textures,
            ..old(ctxt).state
        }),
        (match r {
            Ok(fences) => first_uniform_error(entries@, *program, 0) is None && fences@
                == block_fence_list(entries@, *program, entries@.len() as int),
            Err(e) => first_uniform_error(entries@, *program, 0) == Some(e),
        }),
{
    let mut texture_bind_points = Bitsfield::new();
    let mut buffer_bind_points = Bitsfield::new();
    let mut fences: Vec<u32> = Vec::new();
    let n = entries.len();
    let mut i: usize = 0;
    proof {
        assert(fences@ =~= block_fence_list(entries@, *program, 0));
    }
    while i < n
        invariant
            old(ctxt).wf(),
            old(ctxt).capabilities.max_combined_texture_image_units <= 0x7fff_ffffu32,
            old(ctxt).capabilities.max_uniform_buffer_bindings <= 0x7fff_ffffu32,
            n == entries@.len(),
            entries@.len() < 0x7fff_ffff,
            matched_texture_count(entries@, *program, entries@.len() as int) <= old(ctxt).capabilities.max_combined_texture_image_units,
            matched_block_count(entries@, *program, entries@.len() as int) <= old(
                ctxt,
            ).capabilities.max_uniform_buffer_bindings,
            forall|k: int|
                0 <= k < entries@.len() ==> ((#[trigger] entries@[k]).value matches
                UniformValue::Texture { sampler, .. } ==> (sampler != 0 ==> old(ctxt).capabilities.supports_samplers())),
            forall|k: int|
                0 <= k < entries@.len() ==> (is_bound_block(#[trigger] entries@[k], *program)
                    ==> ((entries@[k]).value matches UniformValue::Block { buffer, .. }
                    ==> buffer.offset_bytes == 0)),
            i <= n,
            first_uniform_error(entries@, *program, 0) == first_uniform_error(
                entries@,
                *program,
                i as int,
            ),
            fences@ == block_fence_list(entries@, *program, i as int),
            texture_bind_points.count_spec() <= matched_texture_count(
                entries@,
                *program,
                i as int,
            ),
            texture_bind_points.used@.len() <= old(ctxt).capabilities.max_combined_texture_image_units,
            buffer_bind_points.count_spec() <= matched_block_count(entries@, *program, i as int),
            buffer_bind_points.used@.len() <= i,
            ctxt.same_registries(*old(ctxt)),
            ctxt.wf(),
            appended_no_draw(old(ctxt).commands@, ctxt.commands@),
            appended_no_render_state(old(ctxt).commands@, ctxt.commands@),
            ctxt.state == (DeviceState { textures: ctxt.state.textures, ..old(ctxt).state }),
        decreases n - i,
    {
        let ghost pre = *ctxt;
        let found_uniform = program.get_uniform(&entries[i].name);
        match found_uniform {
            Some(u) => {
                match &entries[i].value {
                    UniformValue::Block { .. } => {
                        return Err(
                            DrawError::UniformBufferToValue { name: entries[i].name.clone() },
                        );
                    },
                    _ => {},
                }
                if !entries[i].value.is_usable_with(&u.ty) {
                    return Err(
                        DrawError::UniformTypeMismatch {
                            name: entries[i].name.clone(),
                            expected: u.ty,
                        },
                    );
                }
                proof {
                    lemma_matched_texture_count_monotonic(
                        entries@,
                        *program,
                        i + 1,
                        entries@.len() as int,
                    );
                }
                let res = bind_uniform(
                    ctxt,
                    &entries[i].value,
                    program.id,
                    u.location,
                    &mut texture_bind_points,
                    &entries[i].name,
                );
                if let Err(e) = res {
                    return Err(e);
                }
                proof {
                    assert(uniform_entry_error(entries@[i as int], *program) is None);
                }
            },
            None => {
                let found_block = program.get_uniform_block(&entries[i].name);
                match found_block {
                    Some(b) => {
                        proof {
                            lemma_matched_block_count_monotonic(
                                entries@,
                                *program,
                                i + 1,
                                entries@.len() as int,
                            );
                            match entries@[i as int].value {
                                UniformValue::Block { buffer, layout } => {
                                    if layout == b.layout {
                                        assert(is_bound_block(entries@[i as int], *program));
                                        assert(matched_block_count(entries@, *program, i + 1)
                                            == matched_block_count(
                                            entries@,
                                            *program,
                                            i as int,
                                        ) + 1);
                                    }
                                },
                                _ => {},
                            }
                        }
                        let res = bind_uniform_block(
                            ctxt,
                            &entries[i].value,
                            b,
                            program.id,
                            &mut buffer_bind_points,
                            &entries[i].name,
                        );
                        match res {
                            Ok(Some(id)) => {
                                fences.push(id);
                                proof {
                                    assert(is_bound_block(entries@[i as int], *program));
                                    assert(fences@ =~= block_fence_list(
                                        entries@,
                                        *program,
                                        i + 1,
                                    ));
                                }
                            },
                            Ok(None) => {
                                proof {
                                    assert(fences@ =~= block_fence_list(
                                        entries@,
                                        *program,
                                        i + 1,
                                    ));
                                }
                            },
                            Err(e) => {
                                return Err(e);
                            },
                        }
                    },
                    None => {
                        proof {
                            assert(uniform_entry_error(entries@[i as int], *program) is None);
                            assert(fences@ =~= block_fence_list(entries@, *program, i + 1));
                        }
                    },
                }
            },
        }
        proof {
            assert(uniform_entry_error(entries@[i as int], *program) is None);
            assert(fences@ =~= block_fence_list(entries@, *program, i + 1));
        }
        i += 1;
    }
    Ok(fences)
}

// ---------------------------------------------------------------- render-state synchronization

/// The command log after the twelve diff-and-apply axes ran, before the
/// query slots and conditional rendering.  Opaque: proofs that need the
/// chain reveal it.
#[verifier::opaque]
pub open spec fn axes_emitted(
    c: Seq<DeviceCommand>,
    s: DeviceState,
    params: DrawParameters,
    vertices_per_patch: Option<u16>,
    dimensions: (u32, u32),
    core_entry: bool,
) -> Seq<DeviceCommand> {
    let c1 = crate::sync::depth_emitted(
        c,
        s.depth,
        params.depth_test,
        params.depth_write,
        params.depth_range,
    );
    let c2 = crate::sync::stencil_emitted(c1, s.stencil, params);
    let c3 = crate::sync::blend_emitted(c2, s.blend, params.blending_function);
    let c4 = crate::sync::color_mask_emitted(c3, s.color_mask, params.color_mask);
    let c5 = crate::sync::line_width_emitted(c4, s.line_width, params.line_width);
    let c6 = crate::sync::point_size_emitted(c5, s.point_size, params.point_size);
    let c7 = crate::sync::polygon_mode_emitted(
        c6,
        s.culling,
        s.polygon_mode,
        params.backface_culling,
        params.polygon_mode,
    );
    let c8 = crate::sync::multisampling_emitted(c7, s.multisample_enabled, params.multisampling);
    let c9 = crate::sync::dithering_emitted(c8, s.dither_enabled, params.dithering);
    let c10 = crate::sync::viewport_emitted(
        c9,
        s.viewport,
        params.viewport,
        params.scissor,
        dimensions,
    );
    let c11 = crate::sync::rasterizer_discard_emitted(
        c10,
        s.rasterizer_discard_enabled,
        params.draw_primitives,
        core_entry,
    );
    crate::sync::vertices_per_patch_emitted(c11, s.patch_vertices, vertices_per_patch)
}

/// What running every state-synchronizer axis does, in order: the device
/// state it leaves, the command log, the used-query registry, and the query
/// conflict, if one aborts the pass.  Conditional rendering is applied
/// last: it decides whether the draw that follows emits anything at all.
pub open spec fn params_sync_outcome(
    s: DeviceState,
    c: Seq<DeviceCommand>,
    used: Seq<u32>,
    caps: Capabilities,
    params: DrawParameters,
    vertices_per_patch: Option<u16>,
    dimensions: (u32, u32),
) -> (DeviceState, Seq<DeviceCommand>, Seq<u32>, Option<DrawError>) {
    let c12 = axes_emitted(c, s, params, vertices_per_patch, dimensions, caps.gl_version_3);
    let q = queries_outcome(
        c12,
        s.queries,
        used,
        params.samples_passed_query,
        params.time_elapsed_query,
        params.primitives_generated_query,
        params.transform_feedback_primitives_written_query,
    );
    let s_axes = DeviceState {
        depth: crate::sync::depth_target(
            s.depth,
            params.depth_test,
            params.depth_write,
            params.depth_range,
        ),
        stencil: crate::sync::stencil_target(params),
        blend: crate::sync::blend_target(s.blend, params.blending_function),
        color_mask: params.color_mask,
        line_width: if params.line_width is Some {
            params.line_width->0
        } else {
            s.line_width
        },
        point_size: if params.point_size is Some {
            params.point_size->0
        } else {
            s.point_size
        },
        culling: crate::sync::culling_target(s.culling, params.backface_culling),
        polygon_mode: params.polygon_mode,
        multisample_enabled: params.multisampling,
        dither_enabled: params.dithering,
        viewport: crate::sync::viewport_target(
            s.viewport,
            params.viewport,
            params.scissor,
            dimensions,
        ),
        rasterizer_discard_enabled: !params.draw_primitives,
        patch_vertices: if vertices_per_patch is Some {
            vertices_per_patch->0
        } else {
            s.patch_vertices
        },
        queries: q.1,
        ..s
    };
    if q.3 is Some {
        (s_axes, q.0, q.2, q.3)
    } else {
        (
            DeviceState {
                conditional_render: conditional_render_target(params.condition),
                ..s_axes
            },
            crate::queries::conditional_render_emitted(
                q.0,
                s.conditional_render,
                params.condition,
                !caps.gl_version_3,
            ),
            q.2,
            None::<DrawError>,
        )
    }
}

/// Runs every state-synchronizer axis for one draw, in an order where
/// independent axes may come in any order but the tessellation patch count
/// is synchronized for every draw and conditional rendering is applied
/// last.  Returns the first query conflict; what earlier axes did is not
/// rolled back.
#[verifier::spinoff_prover]
#[verifier::rlimit(100)]
pub fn sync_draw_parameters(
    ctxt: &mut Context,
    params: &DrawParameters,
    vertices_per_patch: Option<u16>,
    dimensions: (u32, u32),
) -> (r: Result<(), DrawError>)
    requires
        (match params.viewport {
            Some(rect) => rect.width <= old(ctxt).capabilities.max_viewport_dims.0 && rect.height
                <= old(ctxt).capabilities.max_viewport_dims.1,
            None => dimensions.0 <= old(ctxt).capabilities.max_viewport_dims.0 && dimensions.1
                <= old(ctxt).capabilities.max_viewport_dims.1,
        }),
        old(ctxt).state.rasterizer_discard_enabled == params.draw_primitives ==> old(ctxt).capabilities.supports_rasterizer_discard(),
        (old(ctxt).state.conditional_render is Some || params.condition is Some) ==> old(ctxt).capabilities.supports_conditional_render(),
        old(ctxt).used_queries@.len() + 4 < usize::MAX,
    ensures
        ({
            let (st, c, u, e) = params_sync_outcome(
                old(ctxt).state,
                old(ctxt).commands@,
                old(ctxt).used_queries@,
                old(ctxt).capabilities,
                *params,
                vertices_per_patch,
                dimensions,
            );
            final(ctxt).state == st && final(ctxt).commands@ == c && final(ctxt).used_queries@
                == u && r == (match e {
                Some(err) => Err::<(), DrawError>(err),
                None => Ok::<(), DrawError>(()),
            })
        }),
        final(ctxt).capabilities == old(ctxt).capabilities,
        final(ctxt).fences == old(ctxt).fences,
        final(ctxt).next_fence == old(ctxt).next_fence,
{
    proof {
        reveal(axes_emitted);
    }
    sync_depth(ctxt, params.depth_test, params.depth_write, params.depth_range);
    sync_stencil(ctxt, params);
    sync_blending(ctxt, params.blending_function);
    sync_color_mask(ctxt, params.color_mask);
    sync_line_width(ctxt, params.line_width);
    sync_point_size(ctxt, params.point_size);
    sync_polygon_mode(ctxt, params.backface_culling, params.polygon_mode);
    sync_multisampling(ctxt, params.multisampling);
    sync_dithering(ctxt, params.dithering);
    sync_viewport_scissor(ctxt, params.viewport, params.scissor, dimensions);
    sync_rasterizer_discard(ctxt, params.draw_primitives);
    sync_vertices_per_patch(ctxt, vertices_per_patch);
    let q = sync_queries(
        ctxt,
        params.samples_passed_query,
        params.time_elapsed_query,
        params.primitives_generated_query,
        params.transform_feedback_primitives_written_query,
    );
    if let Err(e) = q {
        return Err(e);
    }
    sync_conditional_render(ctxt, params.condition);
    Ok(())
}

/// Two consecutive draws with the identical render-state configuration: the
/// second pass over the state synchronizer finds every axis already in the
/// requested state and emits zero device commands.
#[verifier::spinoff_prover]
#[verifier::rlimit(100)]
pub proof fn lemma_render_state_resync_is_silent(
    s: DeviceState,
    c: Seq<DeviceCommand>,
    used: Seq<u32>,
    caps: Capabilities,
    params: DrawParameters,
    vertices_per_patch: Option<u16>,
    dimensions: (u32, u32),
)
    requires
        params_sync_outcome(s, c, used, caps, params, vertices_per_patch, dimensions).3 is None,
    ensures
        ({
            let first = params_sync_outcome(
                s,
                c,
                used,
                caps,
                params,
                vertices_per_patch,
                dimensions,
            );
            params_sync_outcome(
                first.0,
                first.1,
                first.2,
                caps,
                params,
                vertices_per_patch,
                dimensions,
            ) == (first.0, first.1, first.2, None::<DrawError>)
        }),
{
    reveal(axes_emitted);
    let first = params_sync_outcome(s, c, used, caps, params, vertices_per_patch, dimensions);
    let s1 = first.0;
    let c1 = first.1;
    let u1 = first.2;

    // each axis of the mirror already equals its target, so no axis appends
    crate::sync::lemma_depth_sync_idempotent(
        c1,
        s.depth,
        params.depth_test,
        params.depth_write,
        params.depth_range,
    );
    assert(crate::sync::depth_emitted(
        c1,
        s1.depth,
        params.depth_test,
        params.depth_write,
        params.depth_range,
    ) == c1);
    crate::sync::lemma_stencil_sync_idempotent(c1, params);
    assert(crate::sync::stencil_emitted(c1, s1.stencil, params) == c1);
    crate::sync::lemma_blending_sync_idempotent(c1, s.blend, params.blending_function);
    assert(crate::sync::blend_emitted(c1, s1.blend, params.blending_function) == c1);
    assert(crate::sync::color_mask_emitted(c1, s1.color_mask, params.color_mask) == c1);
    assert(crate::sync::line_width_emitted(c1, s1.line_width, params.line_width) == c1);
    assert(crate::sync::point_size_emitted(c1, s1.point_size, params.point_size) == c1);
    crate::sync::lemma_polygon_mode_sync_idempotent(
        c1,
        s.culling,
        params.backface_culling,
        params.polygon_mode,
    );
    assert(crate::sync::polygon_mode_emitted(
        c1,
        s1.culling,
        s1.polygon_mode,
        params.backface_culling,
        params.polygon_mode,
    ) == c1);
    assert(crate::sync::multisampling_emitted(c1, s1.multisample_enabled, params.multisampling)
        == c1);
    assert(crate::sync::dithering_emitted(c1, s1.dither_enabled, params.dithering) == c1);
    crate::sync::lemma_viewport_sync_idempotent(
        c1,
        s.viewport,
        params.viewport,
        params.scissor,
        dimensions,
    );
    assert(crate::sync::viewport_emitted(
        c1,
        s1.viewport,
        params.viewport,
        params.scissor,
        dimensions,
    ) == c1);
    assert(crate::sync::rasterizer_discard_emitted(
        c1,
        s1.rasterizer_discard_enabled,
        params.draw_primitives,
        caps.gl_version_3,
    ) == c1);
    assert(crate::sync::vertices_per_patch_emitted(c1, s1.patch_vertices, vertices_per_patch)
        == c1);

    // the query slots already hold the requested queries
    let c12 = axes_emitted(c, s, params, vertices_per_patch, dimensions, caps.gl_version_3);
    crate::queries::lemma_queries_sync_idempotent(
        c12,
        c1,
        s.queries,
        used,
        params.samples_passed_query,
        params.time_elapsed_query,
        params.primitives_generated_query,
        params.transform_feedback_primitives_written_query,
    );

    // the conditional-rendering mirror already holds the requested predicate
    crate::queries::lemma_conditional_render_idempotent(
        c1,
        params.condition,
        !caps.gl_version_3,
    );
}

// ---------------------------------------------------------------- fences

/// One fence install: a fresh fence is created after the commands issued so
/// far, atomically swapped into the registry, and the previous fence of the
/// same resource, if any, is destroyed.
pub open spec fn resolve_step(
    c: Seq<DeviceCommand>,
    fences: Map<u32, u64>,
    next: u64,
    buffer: u32,
) -> (Seq<DeviceCommand>, Map<u32, u64>, u64) {
    let c1 = c.push(DeviceCommand::FenceSync(next));
    let c2 = if fences.dom().contains(buffer) {
        c1.push(DeviceCommand::DeleteSync(fences[buffer]))
    } else {
        c1
    };
    (c2, fences.insert(buffer, next), (next + 1) as u64)
}

/// The command log, the fence registry and the token counter after every
/// listed buffer received a fresh fence, in list order.
pub open spec fn resolve_outcome(
    c: Seq<DeviceCommand>,
    fences: Map<u32, u64>,
    next: u64,
    buffers: Seq<u32>,
) -> (Seq<DeviceCommand>, Map<u32, u64>, u64)
    decreases buffers.len(),
{
    if buffers.len() == 0 {
        (c, fences, next)
    } else {
        let s = resolve_step(c, fences, next, buffers[0]);
        resolve_outcome(s.0, s.1, s.2, buffers.drop_first())
    }
}

/// Installs a fresh fence for every resource an issued command will read:
/// one fence install per listed buffer, in order, each atomically replacing
/// the buffer\'s previous fence, which is destroyed.
#[verifier::rlimit(60)]
pub fn resolve_fences(ctxt: &mut Context, buffers: &Vec<u32>)
    requires
        old(ctxt).wf(),
        old(ctxt).next_fence + buffers@.len() <= u64::MAX,
        old(ctxt).fences.entries@.len() + buffers@.len() < usize::MAX,
        buffers@.len() > 0 ==> old(ctxt).capabilities.fence_sync,
    ensures
        final(ctxt).wf(),
        final(ctxt).state == old(ctxt).state,
        final(ctxt).capabilities == old(ctxt).capabilities,
        final(ctxt).used_queries@ == old(ctxt).used_queries@,
        final(ctxt).next_fence == old(ctxt).next_fence + buffers@.len(),
        appended_no_draw(old(ctxt).commands@, final(ctxt).commands@),
        appended_no_render_state(old(ctxt).commands@, final(ctxt).commands@),
        ({
            let (rc, rm, rn) = resolve_outcome(
                old(ctxt).commands@,
                old(ctxt).fences.view_map(),
                old(ctxt).next_fence,
                buffers@,
            );
            final(ctxt).commands@ == rc && final(ctxt).fences.view_map() == rm && final(ctxt).next_fence == rn
        }),
        forall|b: u32|
            buffers@.contains(b) ==> (match final(ctxt).fences.fence_of(b) {
                Some(f) => old(ctxt).next_fence <= f < final(ctxt).next_fence,
                None => false,
            }),
        forall|b: u32|
            !buffers@.contains(b) ==> final(ctxt).fences.fence_of(b) == old(ctxt).fences.fence_of(
                b,
            ),
{
    let n = buffers.len();
    let mut i: usize = 0;
    proof {
        assert(buffers@.skip(0) =~= buffers@);
    }
    while i < n
        invariant
            n == buffers@.len(),
            i <= n,
            resolve_outcome(
                old(ctxt).commands@,
                old(ctxt).fences.view_map(),
                old(ctxt).next_fence,
                buffers@,
            ) == resolve_outcome(
                ctxt.commands@,
                ctxt.fences.view_map(),
                ctxt.next_fence,
                buffers@.skip(i as int),
            ),
            old(ctxt).wf(),
            old(ctxt).next_fence + n <= u64::MAX,
            old(ctxt).fences.entries@.len() + n < usize::MAX,
            n > 0 ==> old(ctxt).capabilities.fence_sync,
            ctxt.wf(),
            ctxt.state == old(ctxt).state,
            ctxt.capabilities == old(ctxt).capabilities,
            ctxt.used_queries@ == old(ctxt).used_queries@,
            ctxt.next_fence == old(ctxt).next_fence + i,
            ctxt.fences.entries@.len() <= old(ctxt).fences.entries@.len() + i,
            appended_no_draw(old(ctxt).commands@, ctxt.commands@),
            appended_no_render_state(old(ctxt).commands@, ctxt.commands@),
            forall|b: u32|
                buffers@.take(i as int).contains(b) ==> (match ctxt.fences.fence_of(b) {
                    Some(f) => old(ctxt).next_fence <= f < ctxt.next_fence,
                    None => false,
                }),
            forall|b: u32|
                !buffers@.take(i as int).contains(b) ==> ctxt.fences.fence_of(b) == old(ctxt).fences.fence_of(b),
        decreases n - i,
    {
        let b = buffers[i];
        let ghost pre_c = ctxt.commands@;
        let ghost pre_m = ctxt.fences.view_map();
        let ghost pre_n = ctxt.next_fence;
        let token = ctxt.next_fence;
        ctxt.emit(DeviceCommand::FenceSync(token));
        ctxt.next_fence = ctxt.next_fence + 1;
        let previous = ctxt.fences.install(b, token);
        if let Some(p) = previous {
            ctxt.emit(DeviceCommand::DeleteSync(p));
        }
        proof {
            let st = resolve_step(pre_c, pre_m, pre_n, b);
            assert(pre_m.dom().contains(b) == (previous is Some));
            assert(previous matches Some(p) ==> pre_m[b] == p);
            assert(ctxt.commands@ == st.0);
            assert(ctxt.fences.view_map() =~= st.1);
            assert(ctxt.next_fence == st.2);
            assert(buffers@.skip(i as int)[0] == b);
            assert(buffers@.skip(i as int).drop_first() =~= buffers@.skip(i + 1));
            assert(resolve_outcome(pre_c, pre_m, pre_n, buffers@.skip(i as int))
                == resolve_outcome(st.0, st.1, st.2, buffers@.skip(i + 1)));
            assert(buffers@.take(i + 1).drop_last() =~= buffers@.take(i as int));
            assert(buffers@.take(i + 1).last() == b);
            assert forall|x: u32| #[trigger] buffers@.take(i + 1).contains(x) implies (match ctxt
                .fences
                .fence_of(x) {
                Some(f) => old(ctxt).next_fence <= f < ctxt.next_fence,
                None => false,
            }) by {
                if x == b {
                } else {
                    let k = choose|k: int|
                        0 <= k < buffers@.take(i + 1).len() && (#[trigger] buffers@.take(i + 1)[k])
                            == x;
                    assert(buffers@.take(i as int)[k] == x);
                    assert(buffers@.take(i as int).contains(x));
                }
            }
            assert forall|x: u32| !(#[trigger] buffers@.take(i + 1).contains(x)) implies ctxt
                .fences
                .fence_of(x) == old(ctxt).fences.fence_of(x) by {
                assert(!buffers@.take(i as int).contains(x)) by {
                    if buffers@.take(i as int).contains(x) {
                        let k = choose|k: int|
                            0 <= k < buffers@.take(i as int).len() && (#[trigger] buffers@.take(
                                i as int,
                            )[k]) == x;
                        assert(buffers@.take(i + 1)[k] == x);
                    }
                }
                assert(x != b) by {
                    assert(buffers@.take(i + 1)[i as int] == b);
                }
            }
        }
        i += 1;
    }
    proof {
        assert(buffers@.take(n as int) =~= buffers@);
        assert(buffers@.skip(n as int).len() == 0);
    }
}

// ---------------------------------------------------------------- the dispatcher

/// Why a tessellation configuration is refused: a patch draw needs a device
/// with a tessellation stage, and a nonzero number of vertices per patch
/// within its limit.
pub open spec fn patch_config_error(primitives: PrimitiveType, caps: Capabilities) -> Option<
    DrawError,
> {
    match primitives {
        PrimitiveType::Patches { vertices_per_patch } => match caps.max_patch_vertices {
            Some(max) => if vertices_per_patch == 0 || vertices_per_patch > max {
                Some(DrawError::UnsupportedVerticesPerPatch)
            } else {
                None
            },
            None => Some(DrawError::TessellationNotSupported),
        },
        _ => None,
    }
}

/// The patch size a draw with these primitives must synchronize, if any.
pub open spec fn patch_vertices_of(primitives: PrimitiveType) -> Option<u16> {
    match primitives {
        PrimitiveType::Patches { vertices_per_patch } => Some(vertices_per_patch),
        _ => None,
    }
}

/// The one terminal draw command a request determines: an indexed draw at
/// the index buffer\'s byte offset, a multi-draw-indirect reading the
/// buffer\'s records, or a direct draw of the inferred vertex count starting
/// at vertex 0 — instanced exactly when an instance count was determined.
pub open spec fn draw_command_spec(
    indices: IndicesSource,
    vertices: Option<usize>,
    instances: Option<usize>,
) -> DeviceCommand {
    match indices {
        IndicesSource::IndexBuffer { buffer, data_type, primitives } => match instances {
            Some(n) => DeviceCommand::DrawElementsInstanced(
                primitives,
                buffer.elements_count,
                data_type,
                buffer.offset_bytes,
                n,
            ),
            None => DeviceCommand::DrawElements(
                primitives,
                buffer.elements_count,
                data_type,
                buffer.offset_bytes,
            ),
        },
        IndicesSource::MultidrawArray { buffer, primitives } => DeviceCommand::MultiDrawArraysIndirect(
            primitives,
            buffer.offset_bytes,
            buffer.elements_count,
        ),
        IndicesSource::NoIndices { primitives } => match instances {
            Some(n) => DeviceCommand::DrawArraysInstanced(
                primitives,
                0u32,
                (if vertices is Some {
                    vertices->0
                } else {
                    0usize
                }),
                n,
            ),
            None => DeviceCommand::DrawArrays(
                primitives,
                0u32,
                (if vertices is Some {
                    vertices->0
                } else {
                    0usize
                }),
            ),
        },
    }
}

/// The index or indirect buffer a draw reads, when its reads must be fenced.
pub open spec fn index_fence_list(indices: IndicesSource) -> Seq<u32> {
    match indices {
        IndicesSource::IndexBuffer { buffer, .. } => if buffer.fenced {
            seq![buffer.id]
        } else {
            seq![]
        },
        IndicesSource::MultidrawArray { buffer, .. } => if buffer.fenced {
            seq![buffer.id]
        } else {
            seq![]
        },
        IndicesSource::NoIndices { .. } => seq![],
    }
}

/// Every resource a successful draw reads asynchronously and therefore
/// fences: the bound vertex buffers, the buffers bound to uniform blocks,
/// and the index or indirect buffer.
pub open spec fn draw_fence_list(
    srcs: Seq<VerticesSource>,
    entries: Seq<UniformEntry>,
    program: Program,
    indices: IndicesSource,
) -> Seq<u32> {
    fence_list(srcs, srcs.len() as int) + block_fence_list(
        entries,
        program,
        entries.len() as int,
    ) + index_fence_list(indices)
}

/// The error a draw request returns, if any, in detection order: the patch
/// configuration, the per-instance source counts, the uniforms in visiting
/// order, the query slots, and last the vertex count a non-indexed draw
/// needs.
pub open spec fn draw_error_spec(
    caps: Capabilities,
    indices: IndicesSource,
    srcs: Seq<VerticesSource>,
    entries: Seq<UniformEntry>,
    program: Program,
    queries: crate::context::QueryMirror,
    used: Seq<u32>,
    params: DrawParameters,
) -> Option<DrawError> {
    match prepare_error_spec(caps, indices, srcs, entries, program, queries, used, params) {
        Some(e) => Some(e),
        None => if indices is NoIndices && scan_sources(srcs).0 is None {
            Some(DrawError::VerticesSourcesLengthMismatch)
        } else {
            None
        },
    }
}

/// The error the preparation steps return, if any, in detection order: the
/// patch configuration, the per-instance source counts, the uniforms in
/// visiting order, then the query slots.
pub open spec fn prepare_error_spec(
    caps: Capabilities,
    indices: IndicesSource,
    srcs: Seq<VerticesSource>,
    entries: Seq<UniformEntry>,
    program: Program,
    queries: crate::context::QueryMirror,
    used: Seq<u32>,
    params: DrawParameters,
) -> Option<DrawError> {
    match patch_config_error(indices.primitives_type(), caps) {
        Some(e) => Some(e),
        None => match scan_sources(srcs).2 {
            Some(e) => Some(e),
            None => match first_uniform_error(entries, program, 0) {
                Some(e) => Some(e),
                None => queries_outcome(
                    Seq::empty(),
                    queries,
                    used,
                    params.samples_passed_query,
                    params.time_elapsed_query,
                    params.primitives_generated_query,
                    params.transform_feedback_primitives_written_query,
                ).3,
            },
        },
    }
}

/// At most one fence per visited vertex source.
pub proof fn lemma_fence_list_len(srcs: Seq<VerticesSource>, upto: int)
    requires
        0 <= upto,
    ensures
        fence_list(srcs, upto).len() <= upto,
    decreases upto,
{
    if upto > 0 {
        lemma_fence_list_len(srcs, upto - 1);
    }
}

/// At most one fence per uniform entry.
pub proof fn lemma_block_fence_list_len(entries: Seq<UniformEntry>, p: Program, upto: int)
    requires
        0 <= upto,
    ensures
        block_fence_list(entries, p, upto).len() <= upto,
    decreases upto,
{
    if upto > 0 {
        lemma_block_fence_list_len(entries, p, upto - 1);
    }
}

/// Appends the ids of one list to another.
fn extend_ids(dst: &mut Vec<u32>, src: &Vec<u32>)
    ensures
        final(dst)@ == old(dst)@ + src@,
{
    let n = src.len();
    let mut i: usize = 0;
    proof {
        assert(dst@ =~= old(dst)@ + src@.take(0));
    }
    while i < n
        invariant
            n == src@.len(),
            i <= n,
            dst@ == old(dst)@ + src@.take(i as int),
        decreases n - i,
    {
        dst.push(src[i]);
        proof {
            assert(dst@ =~= old(dst)@ + src@.take(i + 1));
        }
        i += 1;
    }
    proof {
        assert(dst@ =~= old(dst)@ + src@);
    }
}

/// The whole state-synchronizer pass issues no draw operation.
#[verifier::spinoff_prover]
#[verifier::rlimit(100)]
pub proof fn lemma_params_sync_no_draw(
    s: DeviceState,
    c: Seq<DeviceCommand>,
    used: Seq<u32>,
    caps: Capabilities,
    params: DrawParameters,
    vertices_per_patch: Option<u16>,
    dimensions: (u32, u32),
)
    ensures
        appended_no_draw(
            c,
            params_sync_outcome(s, c, used, caps, params, vertices_per_patch, dimensions).1,
        ),
{
    reveal(axes_emitted);
    crate::sync::lemma_axes_emit_no_draw(
        c,
        s,
        params,
        vertices_per_patch,
        dimensions,
        caps.gl_version_3,
    );
    let c1 = crate::sync::depth_emitted(
        c,
        s.depth,
        params.depth_test,
        params.depth_write,
        params.depth_range,
    );
    let c2 = crate::sync::stencil_emitted(c1, s.stencil, params);
    lemma_appended_no_draw_trans(c, c1, c2);
    let c3 = crate::sync::blend_emitted(c2, s.blend, params.blending_function);
    lemma_appended_no_draw_trans(c, c2, c3);
    let c4 = crate::sync::color_mask_emitted(c3, s.color_mask, params.color_mask);
    lemma_appended_no_draw_trans(c, c3, c4);
    let c5 = crate::sync::line_width_emitted(c4, s.line_width, params.line_width);
    lemma_appended_no_draw_trans(c, c4, c5);
    let c6 = crate::sync::point_size_emitted(c5, s.point_size, params.point_size);
    lemma_appended_no_draw_trans(c, c5, c6);
    let c7 = crate::sync::polygon_mode_emitted(
        c6,
        s.culling,
        s.polygon_mode,
        params.backface_culling,
        params.polygon_mode,
    );
    lemma_appended_no_draw_trans(c, c6, c7);
    let c8 = crate::sync::multisampling_emitted(c7, s.multisample_enabled, params.multisampling);
    lemma_appended_no_draw_trans(c, c7, c8);
    let c9 = crate::sync::dithering_emitted(c8, s.dither_enabled, params.dithering);
    lemma_appended_no_draw_trans(c, c8, c9);
    let c10 = crate::sync::viewport_emitted(
        c9,
        s.viewport,
        params.viewport,
        params.scissor,
        dimensions,
    );
    lemma_appended_no_draw_trans(c, c9, c10);
    let c11 = crate::sync::rasterizer_discard_emitted(
        c10,
        s.rasterizer_discard_enabled,
        params.draw_primitives,
        caps.gl_version_3,
    );
    lemma_appended_no_draw_trans(c, c10, c11);
    let c12 = crate::sync::vertices_per_patch_emitted(c11, s.patch_vertices, vertices_per_patch);
    lemma_appended_no_draw_trans(c, c11, c12);
    let qo = queries_outcome(
        c12,
        s.queries,
        used,
        params.samples_passed_query,
        params.time_elapsed_query,
        params.primitives_generated_query,
        params.transform_feedback_primitives_written_query,
    );
    crate::queries::lemma_queries_emit_no_draw(
        c12,
        s.queries,
        used,
        params.samples_passed_query,
        params.time_elapsed_query,
        params.primitives_generated_query,
        params.transform_feedback_primitives_written_query,
    );
    lemma_appended_no_draw_trans(c, c12, qo.0);
    if qo.3 is None {
        crate::queries::lemma_conditional_render_emit_no_draw(
            qo.0,
            s.conditional_render,
            params.condition,
            !caps.gl_version_3,
        );
        lemma_appended_no_draw_trans(
            c,
            qo.0,
            crate::queries::conditional_render_emitted(
                qo.0,
                s.conditional_render,
                params.condition,
                !caps.gl_version_3,
            ),
        );
    }
}

/// The render state a successful draw leaves behind: every axis holds the
/// requested value (diffed against what the mirror held before the draw),
/// and every query slot runs exactly the requested query.
pub open spec fn draw_parameters_applied(
    before: DeviceState,
    after: DeviceState,
    params: DrawParameters,
    vertices_per_patch: Option<u16>,
    dimensions: (u32, u32),
) -> bool {
    &&& after.depth == crate::sync::depth_target(
        before.depth,
        params.depth_test,
        params.depth_write,
        params.depth_range,
    )
    &&& after.stencil == crate::sync::stencil_target(params)
    &&& after.blend == crate::sync::blend_target(before.blend, params.blending_function)
    &&& after.color_mask == params.color_mask
    &&& after.line_width == (if params.line_width is Some {
        params.line_width->0
    } else {
        before.line_width
    })
    &&& after.point_size == (if params.point_size is Some {
        params.point_size->0
    } else {
        before.point_size
    })
    &&& after.culling == crate::sync::culling_target(before.culling, params.backface_culling)
    &&& after.polygon_mode == params.polygon_mode
    &&& after.multisample_enabled == params.multisampling
    &&& after.dither_enabled == params.dithering
    &&& after.viewport == crate::sync::viewport_target(
        before.viewport,
        params.viewport,
        params.scissor,
        dimensions,
    )
    &&& after.rasterizer_discard_enabled == !params.draw_primitives
    &&& after.patch_vertices == (if vertices_per_patch is Some {
        vertices_per_patch->0
    } else {
        before.patch_vertices
    })
    &&& after.conditional_render == conditional_render_target(params.condition)
    &&& (params.samples_passed_query matches Some(p) ==> crate::queries::query_slot(
        after.queries,
        crate::queries::samples_own_target(p.kind),
    ) == p.id && crate::queries::query_slot(
        after.queries,
        crate::queries::samples_other_targets(p.kind).0,
    ) == 0 && crate::queries::query_slot(
        after.queries,
        crate::queries::samples_other_targets(p.kind).1,
    ) == 0)
    &&& (params.samples_passed_query is None ==> after.queries.samples_passed == 0
        && after.queries.any_samples_passed == 0
        && after.queries.any_samples_passed_conservative == 0)
    &&& (params.time_elapsed_query matches Some(p) ==> after.queries.time_elapsed == p.id)
    &&& (params.time_elapsed_query is None ==> after.queries.time_elapsed == 0)
    &&& (params.primitives_generated_query matches Some(p) ==> after.queries.primitives_generated
        == p.id)
    &&& (params.primitives_generated_query is None ==> after.queries.primitives_generated == 0)
    &&& (params.transform_feedback_primitives_written_query matches Some(p)
        ==> after.queries.transform_feedback_primitives_written == p.id)
    &&& (params.transform_feedback_primitives_written_query is None
        ==> after.queries.transform_feedback_primitives_written == 0)
}

/// A query pass that did not conflict leaves each slot running exactly the
/// requested query.
pub proof fn lemma_queries_success_slots(
    c: Seq<DeviceCommand>,
    q: crate::context::QueryMirror,
    used: Seq<u32>,
    samples: Option<crate::params::SamplesQueryParam>,
    time_elapsed: Option<crate::params::QueryRef>,
    primitives_generated: Option<crate::params::QueryRef>,
    transform_feedback_primitives_written: Option<crate::params::QueryRef>,
)
    requires
        queries_outcome(
            c,
            q,
            used,
            samples,
            time_elapsed,
            primitives_generated,
            transform_feedback_primitives_written,
        ).3 is None,
    ensures
        ({
            let after = queries_outcome(
                c,
                q,
                used,
                samples,
                time_elapsed,
                primitives_generated,
                transform_feedback_primitives_written,
            ).1;
            &&& (samples matches Some(p) ==> crate::queries::query_slot(
                after,
                crate::queries::samples_own_target(p.kind),
            ) == p.id && crate::queries::query_slot(
                after,
                crate::queries::samples_other_targets(p.kind).0,
            ) == 0 && crate::queries::query_slot(
                after,
                crate::queries::samples_other_targets(p.kind).1,
            ) == 0)
            &&& (samples is None ==> after.samples_passed == 0 && after.any_samples_passed == 0
                && after.any_samples_passed_conservative == 0)
            &&& (time_elapsed matches Some(p) ==> after.time_elapsed == p.id)
            &&& (time_elapsed is None ==> after.time_elapsed == 0)
            &&& (primitives_generated matches Some(p) ==> after.primitives_generated == p.id)
            &&& (primitives_generated is None ==> after.primitives_generated == 0)
            &&& (transform_feedback_primitives_written matches Some(p)
                ==> after.transform_feedback_primitives_written == p.id)
            &&& (transform_feedback_primitives_written is None
                ==> after.transform_feedback_primitives_written == 0)
        }),
{
    reveal(queries_outcome);
}

/// A successful synchronizer pass leaves the render state the request
/// asked for.
#[verifier::spinoff_prover]
#[verifier::rlimit(100)]
pub proof fn lemma_params_sync_applied(
    s: DeviceState,
    c: Seq<DeviceCommand>,
    used: Seq<u32>,
    caps: Capabilities,
    params: DrawParameters,
    vertices_per_patch: Option<u16>,
    dimensions: (u32, u32),
)
    requires
        params_sync_outcome(s, c, used, caps, params, vertices_per_patch, dimensions).3 is None,
    ensures
        draw_parameters_applied(
            s,
            params_sync_outcome(s, c, used, caps, params, vertices_per_patch, dimensions).0,
            params,
            vertices_per_patch,
            dimensions,
        ),
{
    let c12 = axes_emitted(c, s, params, vertices_per_patch, dimensions, caps.gl_version_3);
    lemma_queries_success_slots(
        c12,
        s.queries,
        used,
        params.samples_passed_query,
        params.time_elapsed_query,
        params.primitives_generated_query,
        params.transform_feedback_primitives_written_query,
    );
}

/// A state synchronizer pass over a mirror that already holds the whole
/// requested render-state configuration appends no command, changes
/// nothing and raises no conflict.
#[verifier::spinoff_prover]
#[verifier::rlimit(100)]
pub proof fn lemma_params_sync_silent_when_applied(
    s: DeviceState,
    c: Seq<DeviceCommand>,
    used: Seq<u32>,
    caps: Capabilities,
    params: DrawParameters,
    vertices_per_patch: Option<u16>,
    dimensions: (u32, u32),
)
    requires
        draw_parameters_applied(s, s, params, vertices_per_patch, dimensions),
    ensures
        params_sync_outcome(s, c, used, caps, params, vertices_per_patch, dimensions) == (
            s,
            c,
            used,
            None::<DrawError>,
        ),
{
    reveal(axes_emitted);
    crate::sync::lemma_depth_sync_idempotent(
        c,
        s.depth,
        params.depth_test,
        params.depth_write,
        params.depth_range,
    );
    assert(crate::sync::depth_emitted(
        c,
        s.depth,
        params.depth_test,
        params.depth_write,
        params.depth_range,
    ) == c);
    crate::sync::lemma_stencil_sync_idempotent(c, params);
    assert(crate::sync::stencil_emitted(c, s.stencil, params) == c);
    crate::sync::lemma_blending_sync_idempotent(c, s.blend, params.blending_function);
    assert(crate::sync::blend_emitted(c, s.blend, params.blending_function) == c);
    assert(crate::sync::color_mask_emitted(c, s.color_mask, params.color_mask) == c);
    assert(crate::sync::line_width_emitted(c, s.line_width, params.line_width) == c);
    assert(crate::sync::point_size_emitted(c, s.point_size, params.point_size) == c);
    crate::sync::lemma_polygon_mode_sync_idempotent(
        c,
        s.culling,
        params.backface_culling,
        params.polygon_mode,
    );
    assert(crate::sync::polygon_mode_emitted(
        c,
        s.culling,
        s.polygon_mode,
        params.backface_culling,
        params.polygon_mode,
    ) == c);
    assert(crate::sync::multisampling_emitted(c, s.multisample_enabled, params.multisampling)
        == c);
    assert(crate::sync::dithering_emitted(c, s.dither_enabled, params.dithering) == c);
    crate::sync::lemma_viewport_sync_idempotent(
        c,
        s.viewport,
        params.viewport,
        params.scissor,
        dimensions,
    );
    assert(crate::sync::viewport_emitted(
        c,
        s.viewport,
        params.viewport,
        params.scissor,
        dimensions,
    ) == c);
    assert(crate::sync::rasterizer_discard_emitted(
        c,
        s.rasterizer_discard_enabled,
        params.draw_primitives,
        caps.gl_version_3,
    ) == c);
    assert(crate::sync::vertices_per_patch_emitted(c, s.patch_vertices, vertices_per_patch) == c);
    assert(axes_emitted(c, s, params, vertices_per_patch, dimensions, caps.gl_version_3) == c);
    crate::queries::lemma_requested_queries_already_running(
        c,
        s.queries,
        used,
        params.samples_passed_query,
        params.time_elapsed_query,
        params.primitives_generated_query,
        params.transform_feedback_primitives_written_query,
    );
    crate::queries::lemma_conditional_render_idempotent(c, params.condition, !caps.gl_version_3);
}

/// The render state a draw leaves behind is stable: applying the same
/// configuration to it again asks for no change.
pub proof fn lemma_draw_parameters_applied_is_stable(
    before: DeviceState,
    after: DeviceState,
    params: DrawParameters,
    vertices_per_patch: Option<u16>,
    dimensions: (u32, u32),
)
    requires
        draw_parameters_applied(before, after, params, vertices_per_patch, dimensions),
    ensures
        draw_parameters_applied(after, after, params, vertices_per_patch, dimensions),
{
}

/// The error the binding steps return, if any: the per-instance source
/// counts, then the uniforms in visiting order.
pub open spec fn bindings_error_spec(
    srcs: Seq<VerticesSource>,
    entries: Seq<UniformEntry>,
    program: Program,
) -> Option<DrawError> {
    match scan_sources(srcs).2 {
        Some(e) => Some(e),
        None => first_uniform_error(entries, program, 0),
    }
}

/// The binding steps of a draw: walks the vertex sources, hands them to the
/// attribute binder, binds the framebuffer, the program and the uniforms.
/// Returns the inferred vertex and instance counts and the buffers that
/// will need fences.
#[verifier::spinoff_prover]
#[verifier::rlimit(100)]
fn prepare_bindings<U: Uniforms>(
    ctxt: &mut Context,
    framebuffer: Option<u32>,
    vertex_buffers: &Vec<VerticesSource>,
    indices: &IndicesSource,
    program: &Program,
    uniforms: &U,
) -> (r: Result<(Option<usize>, Option<usize>, Vec<u32>), DrawError>)
    requires
        old(ctxt).wf(),
        old(ctxt).capabilities.max_combined_texture_image_units <= 0x7fff_ffffu32,
        uniforms.uniforms_seq().len() < 0x7fff_ffff,
        matched_texture_count(
            uniforms.uniforms_seq(),
            *program,
            uniforms.uniforms_seq().len() as int,
        ) <= old(ctxt).capabilities.max_combined_texture_image_units,
        old(ctxt).capabilities.max_uniform_buffer_bindings <= 0x7fff_ffffu32,
        matched_block_count(
            uniforms.uniforms_seq(),
            *program,
            uniforms.uniforms_seq().len() as int,
        ) <= old(ctxt).capabilities.max_uniform_buffer_bindings,
        forall|k: int|
            0 <= k < uniforms.uniforms_seq().len() ==> ((
            #[trigger] uniforms.uniforms_seq()[k]).value matches UniformValue::Texture {
                sampler,
                ..
            } ==> (sampler != 0 ==> old(ctxt).capabilities.supports_samplers())),
        forall|k: int|
            0 <= k < uniforms.uniforms_seq().len() ==> (is_bound_block(
                #[trigger] uniforms.uniforms_seq()[k],
                *program,
            ) ==> ((uniforms.uniforms_seq()[k]).value matches UniformValue::Block { buffer, .. }
                ==> buffer.offset_bytes == 0)),
    ensures
        final(ctxt).capabilities == old(ctxt).capabilities,
        final(ctxt).wf(),
        final(ctxt).fences == old(ctxt).fences,
        final(ctxt).next_fence == old(ctxt).next_fence,
        final(ctxt).used_queries@ == old(ctxt).used_queries@,
        appended_no_draw(old(ctxt).commands@, final(ctxt).commands@),
        appended_no_render_state(old(ctxt).commands@, final(ctxt).commands@),
        scan_sources(vertex_buffers@).2 is Some ==> *final(ctxt) == *old(ctxt),
        ({
            let e = bindings_error_spec(vertex_buffers@, uniforms.uniforms_seq(), *program);
            match r {
                Ok((vertices, instances, fences)) => e is None && vertices == scan_sources(
                    vertex_buffers@,
                ).0 && instances == scan_sources(vertex_buffers@).1 && fences@ == fence_list(
                    vertex_buffers@,
                    vertex_buffers@.len() as int,
                ) + block_fence_list(
                    uniforms.uniforms_seq(),
                    *program,
                    uniforms.uniforms_seq().len() as int,
                ),
                Err(err) => e == Some(err),
            }
        }),
        r is Ok ==> final(ctxt).state == (DeviceState {
            bindings: (BindingMirror {
                program: program.id,
                draw_framebuffer: (match framebuffer {
                    Some(f) => f,
                    None => 0u32,
                }),
                ..old(ctxt).state.bindings
            }),
            textures: final(ctxt).state.textures,
            ..old(ctxt).state
        }),
{
    // walk the vertex sources: counts, bindings, fences
    let scanned = crate::vertex::scan_vertex_sources(vertex_buffers);
    let (vertices_count, instances_count, attrs, mut fence_ids) = match scanned {
        Ok(t) => t,
        Err(e) => {
            return Err(e);
        },
    };

    // hand the sources and the index buffer to the attribute binder
    let ib_id: u32 = match indices {
        IndicesSource::IndexBuffer { buffer, .. } => buffer.id,
        _ => 0,
    };
    ctxt.emit(DeviceCommand::BindVertexAttributes(attrs, ib_id, program.id));

    // bind the target framebuffer for drawing
    let fb: u32 = match framebuffer {
        Some(f) => f,
        None => 0,
    };
    if ctxt.state.bindings.draw_framebuffer != fb {
        ctxt.emit(DeviceCommand::BindDrawFramebuffer(fb));
        ctxt.state.bindings.draw_framebuffer = fb;
    }

    // activate the program
    if ctxt.state.bindings.program != program.id {
        ctxt.emit(DeviceCommand::UseProgram(program.id));
        ctxt.state.bindings.program = program.id;
    }

    // bind the uniforms
    let entries = uniforms.visit_values();
    let bound = bind_uniforms(ctxt, &entries, program);
    let block_fences = match bound {
        Ok(f) => f,
        Err(e) => {
            return Err(e);
        },
    };
    extend_ids(&mut fence_ids, &block_fences);
    Ok((vertices_count, instances_count, fence_ids))
}

/// Steps of a draw before the draw command itself: validates the patch
/// configuration, runs the binding steps, then the state synchronizer.
/// Returns the inferred vertex and instance counts and the buffers that
/// will need fences.
#[verifier::spinoff_prover]
#[verifier::rlimit(100)]
fn prepare_draw<U: Uniforms>(
    ctxt: &mut Context,
    framebuffer: Option<u32>,
    vertex_buffers: &Vec<VerticesSource>,
    indices: &IndicesSource,
    program: &Program,
    uniforms: &U,
    draw_parameters: &DrawParameters,
    dimensions: (u32, u32),
) -> (r: Result<(Option<usize>, Option<usize>, Vec<u32>), DrawError>)
    requires
        old(ctxt).wf(),
        old(ctxt).capabilities.max_combined_texture_image_units <= 0x7fff_ffffu32,
        (match draw_parameters.viewport {
            Some(rect) => rect.width <= old(ctxt).capabilities.max_viewport_dims.0 && rect.height
                <= old(ctxt).capabilities.max_viewport_dims.1,
            None => dimensions.0 <= old(ctxt).capabilities.max_viewport_dims.0 && dimensions.1
                <= old(ctxt).capabilities.max_viewport_dims.1,
        }),
        old(ctxt).state.rasterizer_discard_enabled == draw_parameters.draw_primitives ==> old(ctxt).capabilities.supports_rasterizer_discard(),
        (old(ctxt).state.conditional_render is Some || draw_parameters.condition is Some) ==> old(ctxt).capabilities.supports_conditional_render(),
        old(ctxt).used_queries@.len() + 4 < usize::MAX,
        uniforms.uniforms_seq().len() < 0x7fff_ffff,
        matched_texture_count(
            uniforms.uniforms_seq(),
            *program,
            uniforms.uniforms_seq().len() as int,
        ) <= old(ctxt).capabilities.max_combined_texture_image_units,
        old(ctxt).capabilities.max_uniform_buffer_bindings <= 0x7fff_ffffu32,
        matched_block_count(
            uniforms.uniforms_seq(),
            *program,
            uniforms.uniforms_seq().len() as int,
        ) <= old(ctxt).capabilities.max_uniform_buffer_bindings,
        forall|k: int|
            0 <= k < uniforms.uniforms_seq().len() ==> ((
            #[trigger] uniforms.uniforms_seq()[k]).value matches UniformValue::Texture {
                sampler,
                ..
            } ==> (sampler != 0 ==> old(ctxt).capabilities.supports_samplers())),
        forall|k: int|
            0 <= k < uniforms.uniforms_seq().len() ==> (is_bound_block(
                #[trigger] uniforms.uniforms_seq()[k],
                *program,
            ) ==> ((uniforms.uniforms_seq()[k]).value matches UniformValue::Block { buffer, .. }
                ==> buffer.offset_bytes == 0)),
    ensures
        final(ctxt).capabilities == old(ctxt).capabilities,
        final(ctxt).wf(),
        final(ctxt).fences == old(ctxt).fences,
        final(ctxt).next_fence == old(ctxt).next_fence,
        appended_no_draw(old(ctxt).commands@, final(ctxt).commands@),
        ({
            let e = prepare_error_spec(
                old(ctxt).capabilities,
                *indices,
                vertex_buffers@,
                uniforms.uniforms_seq(),
                *program,
                old(ctxt).state.queries,
                old(ctxt).used_queries@,
                *draw_parameters,
            );
            match r {
                Ok((vertices, instances, fences)) => e is None && vertices == scan_sources(
                    vertex_buffers@,
                ).0 && instances == scan_sources(vertex_buffers@).1 && fences@ == fence_list(
                    vertex_buffers@,
                    vertex_buffers@.len() as int,
                ) + block_fence_list(
                    uniforms.uniforms_seq(),
                    *program,
                    uniforms.uniforms_seq().len() as int,
                ),
                Err(err) => e == Some(err),
            }
        }),
        (patch_config_error(indices.primitives_type(), old(ctxt).capabilities) is Some
            || scan_sources(vertex_buffers@).2 is Some) ==> *final(ctxt) == *old(ctxt),
        r is Ok ==> draw_parameters_applied(
            old(ctxt).state,
            final(ctxt).state,
            *draw_parameters,
            patch_vertices_of(indices.primitives_type()),
            dimensions,
        ),
        (r is Ok && draw_parameters_applied(
            old(ctxt).state,
            old(ctxt).state,
            *draw_parameters,
            patch_vertices_of(indices.primitives_type()),
            dimensions,
        ) && (old(ctxt).state.bindings.framebuffer_srgb_enabled || program.has_srgb_output || !old(
            ctxt,
        ).capabilities.supports_framebuffer_srgb())) ==> appended_no_render_state(
            old(ctxt).commands@,
            final(ctxt).commands@,
        ),
        r is Ok ==> final(ctxt).state.bindings.program == program.id && final(ctxt).state.bindings.draw_framebuffer == (match framebuffer {
            Some(f) => f,
            None => 0u32,
        }) && final(ctxt).state.bindings.framebuffer_srgb_enabled == (old(ctxt).state.bindings.framebuffer_srgb_enabled || (!program.has_srgb_output && old(ctxt).capabilities.supports_framebuffer_srgb()))
            && final(ctxt).state.bindings.draw_indirect_buffer == old(ctxt).state.bindings.draw_indirect_buffer,
{
    // 1. validate the tessellation configuration before touching anything
    let primitives = indices.get_primitives_type();
    let vertices_per_patch: Option<u16> = match primitives {
        PrimitiveType::Patches { vertices_per_patch } => {
            match ctxt.capabilities.max_patch_vertices {
                Some(max) => {
                    if vertices_per_patch == 0 || vertices_per_patch > max {
                        return Err(DrawError::UnsupportedVerticesPerPatch);
                    }
                },
                None => {
                    return Err(DrawError::TessellationNotSupported);
                },
            }
            Some(vertices_per_patch)
        },
        _ => None,
    };
    proof {
        assert(patch_config_error(indices.primitives_type(), ctxt.capabilities) is None);
        assert(vertices_per_patch == patch_vertices_of(indices.primitives_type()));
    }

    // 2.-6. bind the sources, the framebuffer, the program and the uniforms
    let bound = prepare_bindings(ctxt, framebuffer, vertex_buffers, indices, program, uniforms);
    let (vertices_count, instances_count, fence_ids) = match bound {
        Ok(t) => t,
        Err(e) => {
            proof {
                assert(prepare_error_spec(
                    old(ctxt).capabilities,
                    *indices,
                    vertex_buffers@,
                    uniforms.uniforms_seq(),
                    *program,
                    old(ctxt).state.queries,
                    old(ctxt).used_queries@,
                    *draw_parameters,
                ) == Some(e));
            }
            return Err(e);
        },
    };
    let ghost after_bindings = *ctxt;

    // 7. synchronize every state axis
    let synced = sync_draw_parameters(ctxt, draw_parameters, vertices_per_patch, dimensions);
    proof {
        crate::queries::lemma_queries_outcome_log_irrelevant(
            axes_emitted(
                after_bindings.commands@,
                after_bindings.state,
                *draw_parameters,
                vertices_per_patch,
                dimensions,
                after_bindings.capabilities.gl_version_3,
            ),
            Seq::empty(),
            old(ctxt).state.queries,
            old(ctxt).used_queries@,
            draw_parameters.samples_passed_query,
            draw_parameters.time_elapsed_query,
            draw_parameters.primitives_generated_query,
            draw_parameters.transform_feedback_primitives_written_query,
        );
        lemma_params_sync_no_draw(
            after_bindings.state,
            after_bindings.commands@,
            after_bindings.used_queries@,
            after_bindings.capabilities,
            *draw_parameters,
            vertices_per_patch,
            dimensions,
        );
        if draw_parameters_applied(
            old(ctxt).state,
            old(ctxt).state,
            *draw_parameters,
            vertices_per_patch,
            dimensions,
        ) {
            assert(draw_parameters_applied(
                after_bindings.state,
                after_bindings.state,
                *draw_parameters,
                vertices_per_patch,
                dimensions,
            ));
            lemma_params_sync_silent_when_applied(
                after_bindings.state,
                after_bindings.commands@,
                after_bindings.used_queries@,
                after_bindings.capabilities,
                *draw_parameters,
                vertices_per_patch,
                dimensions,
            );
        }
        crate::commands::lemma_appended_no_draw_trans(
            old(ctxt).commands@,
            after_bindings.commands@,
            params_sync_outcome(
                after_bindings.state,
                after_bindings.commands@,
                after_bindings.used_queries@,
                after_bindings.capabilities,
                *draw_parameters,
                vertices_per_patch,
                dimensions,
            ).1,
        );
    }
    if let Err(e) = synced {
        proof {
            assert(prepare_error_spec(
                old(ctxt).capabilities,
                *indices,
                vertex_buffers@,
                uniforms.uniforms_seq(),
                *program,
                old(ctxt).state.queries,
                old(ctxt).used_queries@,
                *draw_parameters,
            ) == Some(e));
        }
        return Err(e);
    }
    proof {
        assert(prepare_error_spec(
            old(ctxt).capabilities,
            *indices,
            vertex_buffers@,
            uniforms.uniforms_seq(),
            *program,
            old(ctxt).state.queries,
            old(ctxt).used_queries@,
            *draw_parameters,
        ) is None);
        lemma_params_sync_applied(
            after_bindings.state,
            after_bindings.commands@,
            after_bindings.used_queries@,
            after_bindings.capabilities,
            *draw_parameters,
            vertices_per_patch,
            dimensions,
        );
    }

    // 8. sRGB conversion on framebuffer writes, unless the program already
    // writes sRGB itself
    if !program.has_srgb_output {
        if ctxt.capabilities.gl_version_3 || ctxt.capabilities.extension_framebuffer_srgb {
            if !ctxt.state.bindings.framebuffer_srgb_enabled {
                ctxt.emit(DeviceCommand::Enable(crate::commands::Capability::FramebufferSrgb));
                ctxt.state.bindings.framebuffer_srgb_enabled = true;
            }
        }
    }
    Ok((vertices_count, instances_count, fence_ids))
}

/// Draws everything: validates the request, binds the vertex sources, the
/// framebuffer, the program and the uniforms, synchronizes every state
/// axis, issues exactly one draw command chosen by the indices source, and
/// installs a fresh fence on every resource the issued commands read.  On
/// an error, no draw command has been issued; side effects of the steps
/// before the failing one are not rolled back.
#[verifier::spinoff_prover]
#[verifier::rlimit(100)]
pub fn draw<U: Uniforms>(
    ctxt: &mut Context,
    framebuffer: Option<u32>,
    vertex_buffers: &Vec<VerticesSource>,
    indices: &IndicesSource,
    program: &Program,
    uniforms: &U,
    draw_parameters: &DrawParameters,
    dimensions: (u32, u32),
) -> (r: Result<(), DrawError>)
    requires
        old(ctxt).wf(),
        old(ctxt).capabilities.max_combined_texture_image_units <= 0x7fff_ffffu32,
        (match draw_parameters.viewport {
            Some(rect) => rect.width <= old(ctxt).capabilities.max_viewport_dims.0 && rect.height
                <= old(ctxt).capabilities.max_viewport_dims.1,
            None => dimensions.0 <= old(ctxt).capabilities.max_viewport_dims.0 && dimensions.1
                <= old(ctxt).capabilities.max_viewport_dims.1,
        }),
        old(ctxt).state.rasterizer_discard_enabled == draw_parameters.draw_primitives ==> old(ctxt).capabilities.supports_rasterizer_discard(),
        (old(ctxt).state.conditional_render is Some || draw_parameters.condition is Some) ==> old(ctxt).capabilities.supports_conditional_render(),
        draw_parameters.samples_passed_query matches Some(p) ==> p.id != 0,
        draw_parameters.time_elapsed_query matches Some(p) ==> p.id != 0,
        draw_parameters.primitives_generated_query matches Some(p) ==> p.id != 0,
        draw_parameters.transform_feedback_primitives_written_query matches Some(p) ==> p.id != 0,
        old(ctxt).used_queries@.len() + 4 < usize::MAX,
        uniforms.uniforms_seq().len() < 0x7fff_ffff,
        matched_texture_count(
            uniforms.uniforms_seq(),
            *program,
            uniforms.uniforms_seq().len() as int,
        ) <= old(ctxt).capabilities.max_combined_texture_image_units,
        old(ctxt).capabilities.max_uniform_buffer_bindings <= 0x7fff_ffffu32,
        matched_block_count(
            uniforms.uniforms_seq(),
            *program,
            uniforms.uniforms_seq().len() as int,
        ) <= old(ctxt).capabilities.max_uniform_buffer_bindings,
        forall|k: int|
            0 <= k < uniforms.uniforms_seq().len() ==> ((
            #[trigger] uniforms.uniforms_seq()[k]).value matches UniformValue::Texture {
                sampler,
                ..
            } ==> (sampler != 0 ==> old(ctxt).capabilities.supports_samplers())),
        forall|k: int|
            0 <= k < uniforms.uniforms_seq().len() ==> (is_bound_block(
                #[trigger] uniforms.uniforms_seq()[k],
                *program,
            ) ==> ((uniforms.uniforms_seq()[k]).value matches UniformValue::Block { buffer, .. }
                ==> buffer.offset_bytes == 0)),
        forall|k: int|
            0 <= k < uniforms.uniforms_seq().len() ==> (seq_lookup_uniform(
                program.uniforms@,
                (#[trigger] uniforms.uniforms_seq()[k]).name@,
            ) matches Some(u) ==> u.size is None),
        old(ctxt).next_fence + vertex_buffers@.len() + uniforms.uniforms_seq().len() + 1
            <= u64::MAX,
        old(ctxt).fences.entries@.len() + vertex_buffers@.len() + uniforms.uniforms_seq().len() + 1
            < usize::MAX,
        draw_fence_list(vertex_buffers@, uniforms.uniforms_seq(), *program, *indices).len() > 0
            ==> old(ctxt).capabilities.fence_sync,
    ensures
        final(ctxt).capabilities == old(ctxt).capabilities,
        final(ctxt).wf(),
        ({
            let e = draw_error_spec(
                old(ctxt).capabilities,
                *indices,
                vertex_buffers@,
                uniforms.uniforms_seq(),
                *program,
                old(ctxt).state.queries,
                old(ctxt).used_queries@,
                *draw_parameters,
            );
            r == (match e {
                Some(err) => Err::<(), DrawError>(err),
                None => Ok::<(), DrawError>(()),
            })
        }),
        (patch_config_error(indices.primitives_type(), old(ctxt).capabilities) is Some
            || scan_sources(vertex_buffers@).2 is Some) ==> *final(ctxt) == *old(ctxt),
        r is Err ==> appended_no_draw(old(ctxt).commands@, final(ctxt).commands@),
        (r is Ok && draw_parameters_applied(
            old(ctxt).state,
            old(ctxt).state,
            *draw_parameters,
            patch_vertices_of(indices.primitives_type()),
            dimensions,
        ) && (old(ctxt).state.bindings.framebuffer_srgb_enabled || program.has_srgb_output || !old(
            ctxt,
        ).capabilities.supports_framebuffer_srgb())) ==> appended_no_render_state(
            old(ctxt).commands@,
            final(ctxt).commands@,
        ),
        r is Ok ==> ({
            let dc = draw_command_spec(
                *indices,
                scan_sources(vertex_buffers@).0,
                scan_sources(vertex_buffers@).1,
            );
            &&& (forall|j: int|
                0 <= j < old(ctxt).commands@.len() ==> final(ctxt).commands@[j] == old(ctxt).commands@[j])
            &&& exists|k: int|
                old(ctxt).commands@.len() <= k < final(ctxt).commands@.len() && (
                #[trigger] final(ctxt).commands@[k]) == dc && (forall|j: int|
                    old(ctxt).commands@.len() <= j < final(ctxt).commands@.len() && j != k ==> !(
                    #[trigger] final(ctxt).commands@[j]).is_draw())
        }),
        r is Ok ==> draw_parameters_applied(
            old(ctxt).state,
            final(ctxt).state,
            *draw_parameters,
            patch_vertices_of(indices.primitives_type()),
            dimensions,
        ),
        r is Ok ==> final(ctxt).state.bindings.program == program.id && final(ctxt).state.bindings.draw_framebuffer == (match framebuffer {
            Some(f) => f,
            None => 0u32,
        }) && final(ctxt).state.bindings.framebuffer_srgb_enabled == (old(ctxt).state.bindings.framebuffer_srgb_enabled || (!program.has_srgb_output && old(ctxt).capabilities.supports_framebuffer_srgb())),
        r is Ok ==> ({
            let touched = draw_fence_list(
                vertex_buffers@,
                uniforms.uniforms_seq(),
                *program,
                *indices,
            );
            &&& final(ctxt).next_fence == old(ctxt).next_fence + touched.len()
            &&& (forall|b: u32|
                touched.contains(b) ==> (match final(ctxt).fences.fence_of(b) {
                    Some(f) => old(ctxt).next_fence <= f < final(ctxt).next_fence,
                    None => false,
                }))
            &&& (forall|b: u32|
                !touched.contains(b) ==> final(ctxt).fences.fence_of(b) == old(ctxt).fences.fence_of(b))
        }),
{
    let ghost base = old(ctxt).commands@;
    let ghost entries_spec = uniforms.uniforms_seq();
    let prepared = prepare_draw(
        ctxt,
        framebuffer,
        vertex_buffers,
        indices,
        program,
        uniforms,
        draw_parameters,
        dimensions,
    );
    let (vertices_count, instances_count, mut fence_ids) = match prepared {
        Ok(t) => t,
        Err(e) => {
            proof {
                assert(draw_error_spec(
                    old(ctxt).capabilities,
                    *indices,
                    vertex_buffers@,
                    entries_spec,
                    *program,
                    old(ctxt).state.queries,
                    old(ctxt).used_queries@,
                    *draw_parameters,
                ) == Some(e));
            }
            return Err(e);
        },
    };
    let ghost after_prepare = *ctxt;
    proof {
        lemma_fence_list_len(vertex_buffers@, vertex_buffers@.len() as int);
        lemma_block_fence_list_len(entries_spec, *program, entries_spec.len() as int);
    }
    let ghost dc = draw_command_spec(
        *indices,
        scan_sources(vertex_buffers@).0,
        scan_sources(vertex_buffers@).1,
    );

    // 9. issue exactly one draw command, chosen by the indices source
    match indices {
        IndicesSource::IndexBuffer { buffer, data_type, primitives } => {
            if buffer.fenced {
                fence_ids.push(buffer.id);
            }
            match instances_count {
                Some(n) => {
                    ctxt.emit(
                        DeviceCommand::DrawElementsInstanced(
                            *primitives,
                            buffer.elements_count,
                            *data_type,
                            buffer.offset_bytes,
                            n,
                        ),
                    );
                },
                None => {
                    ctxt.emit(
                        DeviceCommand::DrawElements(
                            *primitives,
                            buffer.elements_count,
                            *data_type,
                            buffer.offset_bytes,
                        ),
                    );
                },
            }
        },
        IndicesSource::MultidrawArray { buffer, primitives } => {
            if buffer.fenced {
                fence_ids.push(buffer.id);
            }
            if ctxt.state.bindings.draw_indirect_buffer != buffer.id {
                ctxt.emit(DeviceCommand::BindDrawIndirectBuffer(buffer.id));
                ctxt.state.bindings.draw_indirect_buffer = buffer.id;
            }
            ctxt.emit(
                DeviceCommand::MultiDrawArraysIndirect(
                    *primitives,
                    buffer.offset_bytes,
                    buffer.elements_count,
                ),
            );
        },
        IndicesSource::NoIndices { primitives } => {
            let count = match vertices_count {
                Some(c) => c,
                None => {
                    proof {
                        assert(draw_error_spec(
                            old(ctxt).capabilities,
                            *indices,
                            vertex_buffers@,
                            entries_spec,
                            *program,
                            old(ctxt).state.queries,
                            old(ctxt).used_queries@,
                            *draw_parameters,
                        ) == Some(DrawError::VerticesSourcesLengthMismatch));
                    }
                    return Err(DrawError::VerticesSourcesLengthMismatch);
                },
            };
            match instances_count {
                Some(n) => {
                    ctxt.emit(DeviceCommand::DrawArraysInstanced(*primitives, 0, count, n));
                },
                None => {
                    ctxt.emit(DeviceCommand::DrawArrays(*primitives, 0, count));
                },
            }
        },
    }
    let ghost draw_position = ctxt.commands@.len() - 1;
    proof {
        assert(ctxt.commands@[draw_position] == dc);
        assert(draw_position >= after_prepare.commands@.len());
        assert forall|j: int|
            base.len() <= j < ctxt.commands@.len() && j != draw_position implies !(
        #[trigger] ctxt.commands@[j]).is_draw() by {
            if j < after_prepare.commands@.len() {
                assert(ctxt.commands@[j] == after_prepare.commands@[j]);
            }
        }
        assert forall|j: int|
            after_prepare.commands@.len() <= j < ctxt.commands@.len() implies !(
        #[trigger] ctxt.commands@[j]).is_render_state_call() by {}
        assert(appended_no_render_state(after_prepare.commands@, ctxt.commands@));
    }
    let ghost before_fences = ctxt.commands@;

    // 10. install a fresh fence on every resource the issued commands read
    proof {
        assert(fence_ids@ =~= draw_fence_list(
            vertex_buffers@,
            entries_spec,
            *program,
            *indices,
        ));
    }
    resolve_fences(ctxt, &fence_ids);
    proof {
        assert(ctxt.commands@[draw_position] == dc);
        assert forall|j: int|
            base.len() <= j < ctxt.commands@.len() && j != draw_position implies !(
        #[trigger] ctxt.commands@[j]).is_draw() by {}
        if draw_parameters_applied(
            old(ctxt).state,
            old(ctxt).state,
            *draw_parameters,
            patch_vertices_of(indices.primitives_type()),
            dimensions,
        ) && (old(ctxt).state.bindings.framebuffer_srgb_enabled || program.has_srgb_output || !old(
            ctxt,
        ).capabilities.supports_framebuffer_srgb()) {
            crate::commands::lemma_appended_no_render_state_trans(
                old(ctxt).commands@,
                after_prepare.commands@,
                before_fences,
            );
            crate::commands::lemma_appended_no_render_state_trans(
                old(ctxt).commands@,
                before_fences,
                ctxt.commands@,
            );
        }
    }
    Ok(())
}

} // verus!
