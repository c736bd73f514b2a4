//! Synchronization of the query slots and of conditional rendering.
//!
//! The three occlusion-style samples queries share one logical slot and are
//! mutually exclusive: starting one first ends whichever of the other two is
//! running.  Time-elapsed, primitives-generated and transform-feedback-
//! primitives-written queries occupy three independent slots.  Every slot
//! follows the same rule: a query object must never have been started
//! before to start now, and a request of `None` ends whatever is running.
//!
//! Each stage's contract is given by a spec function that returns the new
//! command log, the new query mirror, the new used-query registry and the
//! error, so the whole family composes exactly (`queries_outcome`).

use vstd::prelude::*;
use crate::commands::{DeviceCommand, QueryTarget};
use crate::context::{Context, DeviceState, QueryMirror};
use crate::error::DrawError;
use crate::params::{ConditionMode, ConditionalRendering, QueryRef, SamplesQueryParam};
use crate::params::SamplesQueryType;

verus! {

/// The query object running in a slot, or 0.
pub open spec fn query_slot(q: QueryMirror, target: QueryTarget) -> u32 {
    match target {
        QueryTarget::SamplesPassed => q.samples_passed,
        QueryTarget::AnySamplesPassed => q.any_samples_passed,
        QueryTarget::AnySamplesPassedConservative => q.any_samples_passed_conservative,
        QueryTarget::TimeElapsed => q.time_elapsed,
        QueryTarget::PrimitivesGenerated => q.primitives_generated,
        QueryTarget::TransformFeedbackPrimitivesWritten => q.transform_feedback_primitives_written,
    }
}

/// The mirror with one slot replaced.
pub open spec fn set_query_slot(q: QueryMirror, target: QueryTarget, id: u32) -> QueryMirror {
    match target {
        QueryTarget::SamplesPassed => QueryMirror { samples_passed: id, ..q },
        QueryTarget::AnySamplesPassed => QueryMirror { any_samples_passed: id, ..q },
        QueryTarget::AnySamplesPassedConservative => QueryMirror {
            any_samples_passed_conservative: id,
            ..q
        },
        QueryTarget::TimeElapsed => QueryMirror { time_elapsed: id, ..q },
        QueryTarget::PrimitivesGenerated => QueryMirror { primitives_generated: id, ..q },
        QueryTarget::TransformFeedbackPrimitivesWritten => QueryMirror {
            transform_feedback_primitives_written: id,
            ..q
        },
    }
}

/// The slot a samples query of this kind runs in.
pub open spec fn samples_own_target(kind: SamplesQueryType) -> QueryTarget {
    match kind {
        SamplesQueryType::SamplesPassed => QueryTarget::SamplesPassed,
        SamplesQueryType::AnySamplesPassed => QueryTarget::AnySamplesPassed,
        SamplesQueryType::AnySamplesPassedConservative
            => QueryTarget::AnySamplesPassedConservative,
    }
}

/// The two samples slots a query of this kind must end before it starts, in
/// ending order.
pub open spec fn samples_other_targets(kind: SamplesQueryType) -> (QueryTarget, QueryTarget) {
    match kind {
        SamplesQueryType::SamplesPassed => (
            QueryTarget::AnySamplesPassed,
            QueryTarget::AnySamplesPassedConservative,
        ),
        SamplesQueryType::AnySamplesPassed => (
            QueryTarget::SamplesPassed,
            QueryTarget::AnySamplesPassedConservative,
        ),
        SamplesQueryType::AnySamplesPassedConservative => (
            QueryTarget::SamplesPassed,
            QueryTarget::AnySamplesPassed,
        ),
    }
}

/// One "end the slot if something runs in it" step.
pub open spec fn end_slot_step(
    c: Seq<DeviceCommand>,
    q: QueryMirror,
    target: QueryTarget,
) -> (Seq<DeviceCommand>, QueryMirror) {
    if query_slot(q, target) != 0 {
        (c.push(DeviceCommand::EndQuery(target)), set_query_slot(q, target, 0))
    } else {
        (c, q)
    }
}

/// What one of the three independent query slots does: nothing when the
/// requested query already runs or when no query runs and none is asked
/// for; an end when `None` is asked for; a begin when a fresh query is
/// asked for; the conflict error when the asked-for query was used before.
pub open spec fn plain_query_stage(
    c: Seq<DeviceCommand>,
    q: QueryMirror,
    used: Seq<u32>,
    target: QueryTarget,
    param: Option<QueryRef>,
) -> (Seq<DeviceCommand>, QueryMirror, Seq<u32>, Option<DrawError>) {
    let current = query_slot(q, target);
    match param {
        Some(p) => if current == p.id {
            (c, q, used, None)
        } else if used.contains(p.id) {
            (c, q, used, Some(DrawError::WrongQueryOperation))
        } else {
            (
                c.push(DeviceCommand::BeginQuery(target, p.id)),
                set_query_slot(q, target, p.id),
                used.push(p.id),
                None,
            )
        },
        None => if current == 0 {
            (c, q, used, None)
        } else {
            (c.push(DeviceCommand::EndQuery(target)), set_query_slot(q, target, 0), used, None)
        },
    }
}

/// What the shared samples slot does: the other two kinds are ended first;
/// then the asked-for query begins unless it already runs, ending a
/// different query of the same kind first; `None` ends all three kinds.
pub open spec fn samples_query_stage(
    c: Seq<DeviceCommand>,
    q: QueryMirror,
    used: Seq<u32>,
    param: Option<SamplesQueryParam>,
) -> (Seq<DeviceCommand>, QueryMirror, Seq<u32>, Option<DrawError>) {
    match param {
        None => {
            let (c1, q1) = end_slot_step(c, q, QueryTarget::SamplesPassed);
            let (c2, q2) = end_slot_step(c1, q1, QueryTarget::AnySamplesPassed);
            let (c3, q3) = end_slot_step(c2, q2, QueryTarget::AnySamplesPassedConservative);
            (c3, q3, used, None)
        },
        Some(p) => {
            let own = samples_own_target(p.kind);
            let others = samples_other_targets(p.kind);
            let (c1, q1) = end_slot_step(c, q, others.0);
            let (c2, q2) = end_slot_step(c1, q1, others.1);
            if query_slot(q2, own) == p.id {
                (c2, q2, used, None)
            } else if used.contains(p.id) {
                (c2, q2, used, Some(DrawError::WrongQueryOperation))
            } else {
                let (c3, q3) = end_slot_step(c2, q2, own);
                (
                    c3.push(DeviceCommand::BeginQuery(own, p.id)),
                    set_query_slot(q3, own, p.id),
                    used.push(p.id),
                    None,
                )
            }
        },
    }
}

/// What the whole query family does, stage after stage: the samples slot,
/// then time elapsed, then primitives generated, then transform-feedback
/// primitives written.  The first conflict aborts; what earlier stages did
/// is not rolled back.  Opaque: proofs that need the stages reveal it.
#[verifier::opaque]
pub open spec fn queries_outcome(
    c: Seq<DeviceCommand>,
    q: QueryMirror,
    used: Seq<u32>,
    samples: Option<SamplesQueryParam>,
    time_elapsed: Option<QueryRef>,
    primitives_generated: Option<QueryRef>,
    transform_feedback_primitives_written: Option<QueryRef>,
) -> (Seq<DeviceCommand>, QueryMirror, Seq<u32>, Option<DrawError>) {
    let s1 = samples_query_stage(c, q, used, samples);
    if s1.3 is Some {
        s1
    } else {
        let s2 = plain_query_stage(s1.0, s1.1, s1.2, QueryTarget::TimeElapsed, time_elapsed);
        if s2.3 is Some {
            s2
        } else {
            let s3 = plain_query_stage(
                s2.0,
                s2.1,
                s2.2,
                QueryTarget::PrimitivesGenerated,
                primitives_generated,
            );
            if s3.3 is Some {
                s3
            } else {
                plain_query_stage(
                    s3.0,
                    s3.1,
                    s3.2,
                    QueryTarget::TransformFeedbackPrimitivesWritten,
                    transform_feedback_primitives_written,
                )
            }
        }
    }
}

/// Reads the query object running in a slot, or 0.
fn read_query_slot(ctxt: &Context, target: QueryTarget) -> (r: u32)
    ensures
        r == query_slot(ctxt.state.queries, target),
{
    match target {
        QueryTarget::SamplesPassed => ctxt.state.queries.samples_passed,
        QueryTarget::AnySamplesPassed => ctxt.state.queries.any_samples_passed,
        QueryTarget::AnySamplesPassedConservative
            => ctxt.state.queries.any_samples_passed_conservative,
        QueryTarget::TimeElapsed => ctxt.state.queries.time_elapsed,
        QueryTarget::PrimitivesGenerated => ctxt.state.queries.primitives_generated,
        QueryTarget::TransformFeedbackPrimitivesWritten
            => ctxt.state.queries.transform_feedback_primitives_written,
    }
}

/// Writes the query object running in a slot.
fn write_query_slot(ctxt: &mut Context, target: QueryTarget, id: u32)
    ensures
        final(ctxt).state == (DeviceState {
            queries: set_query_slot(old(ctxt).state.queries, target, id),
            ..old(ctxt).state
        }),
        final(ctxt).commands@ == old(ctxt).commands@,
        final(ctxt).same_registries(*old(ctxt)),
{
    match target {
        QueryTarget::SamplesPassed => {
            ctxt.state.queries.samples_passed = id;
        },
        QueryTarget::AnySamplesPassed => {
            ctxt.state.queries.any_samples_passed = id;
        },
        QueryTarget::AnySamplesPassedConservative => {
            ctxt.state.queries.any_samples_passed_conservative = id;
        },
        QueryTarget::TimeElapsed => {
            ctxt.state.queries.time_elapsed = id;
        },
        QueryTarget::PrimitivesGenerated => {
            ctxt.state.queries.primitives_generated = id;
        },
        QueryTarget::TransformFeedbackPrimitivesWritten => {
            ctxt.state.queries.transform_feedback_primitives_written = id;
        },
    }
}

/// Ends the query running in a slot, if any.
fn end_query_slot(ctxt: &mut Context, target: QueryTarget)
    ensures
        ({
            let (c, q) = end_slot_step(old(ctxt).commands@, old(ctxt).state.queries, target);
            final(ctxt).commands@ == c && final(ctxt).state == (DeviceState {
                queries: q,
                ..old(ctxt).state
            })
        }),
        final(ctxt).same_registries(*old(ctxt)),
{
    if read_query_slot(ctxt, target) != 0 {
        ctxt.emit(DeviceCommand::EndQuery(target));
        write_query_slot(ctxt, target, 0);
    }
    proof {
        if query_slot(old(ctxt).state.queries, target) == 0 {
            assert(set_query_slot(old(ctxt).state.queries, target, 0) == old(ctxt).state.queries);
        }
    }
}

/// Synchronizes one of the three independent query slots.
fn sync_plain_query(ctxt: &mut Context, target: QueryTarget, param: Option<QueryRef>) -> (r: Result<
    (),
    DrawError,
>)
    requires
        old(ctxt).used_queries@.len() < usize::MAX,
    ensures
        ({
            let (c, q, u, e) = plain_query_stage(
                old(ctxt).commands@,
                old(ctxt).state.queries,
                old(ctxt).used_queries@,
                target,
                param,
            );
            final(ctxt).commands@ == c && final(ctxt).state == (DeviceState {
                queries: q,
                ..old(ctxt).state
            }) && final(ctxt).used_queries@ == u && r == (match e {
                Some(err) => Err::<(), DrawError>(err),
                None => Ok::<(), DrawError>(()),
            })
        }),
        final(ctxt).capabilities == old(ctxt).capabilities,
        final(ctxt).fences == old(ctxt).fences,
        final(ctxt).next_fence == old(ctxt).next_fence,
{
    let current = read_query_slot(ctxt, target);
    match param {
        Some(p) => {
            if current == p.id {
                Ok(())
            } else if ctxt.is_query_used(p.id) {
                Err(DrawError::WrongQueryOperation)
            } else {
                ctxt.mark_query_used(p.id);
                ctxt.emit(DeviceCommand::BeginQuery(target, p.id));
                write_query_slot(ctxt, target, p.id);
                Ok(())
            }
        },
        None => {
            if current != 0 {
                ctxt.emit(DeviceCommand::EndQuery(target));
                write_query_slot(ctxt, target, 0);
            }
            proof {
                if current == 0 {
                    assert(set_query_slot(old(ctxt).state.queries, target, 0) == old(
                        ctxt,
                    ).state.queries);
                }
            }
            Ok(())
        },
    }
}

/// Synchronizes the shared samples slot.
fn sync_samples_query(ctxt: &mut Context, param: Option<SamplesQueryParam>) -> (r: Result<
    (),
    DrawError,
>)
    requires
        old(ctxt).used_queries@.len() < usize::MAX,
    ensures
        ({
            let (c, q, u, e) = samples_query_stage(
                old(ctxt).commands@,
                old(ctxt).state.queries,
                old(ctxt).used_queries@,
                param,
            );
            final(ctxt).commands@ == c && final(ctxt).state == (DeviceState {
                queries: q,
                ..old(ctxt).state
            }) && final(ctxt).used_queries@ == u && r == (match e {
                Some(err) => Err::<(), DrawError>(err),
                None => Ok::<(), DrawError>(()),
            })
        }),
        final(ctxt).capabilities == old(ctxt).capabilities,
        final(ctxt).fences == old(ctxt).fences,
        final(ctxt).next_fence == old(ctxt).next_fence,
{
    match param {
        None => {
            end_query_slot(ctxt, QueryTarget::SamplesPassed);
            end_query_slot(ctxt, QueryTarget::AnySamplesPassed);
            end_query_slot(ctxt, QueryTarget::AnySamplesPassedConservative);
            Ok(())
        },
        Some(p) => {
            let own = match p.kind {
                SamplesQueryType::SamplesPassed => QueryTarget::SamplesPassed,
                SamplesQueryType::AnySamplesPassed => QueryTarget::AnySamplesPassed,
                SamplesQueryType::AnySamplesPassedConservative
                    => QueryTarget::AnySamplesPassedConservative,
            };
            let (other_a, other_b) = match p.kind {
                SamplesQueryType::SamplesPassed => (
                    QueryTarget::AnySamplesPassed,
                    QueryTarget::AnySamplesPassedConservative,
                ),
                SamplesQueryType::AnySamplesPassed => (
                    QueryTarget::SamplesPassed,
                    QueryTarget::AnySamplesPassedConservative,
                ),
                SamplesQueryType::AnySamplesPassedConservative => (
                    QueryTarget::SamplesPassed,
                    QueryTarget::AnySamplesPassed,
                ),
            };
            end_query_slot(ctxt, other_a);
            end_query_slot(ctxt, other_b);
            let current = read_query_slot(ctxt, own);
            if current == p.id {
                Ok(())
            } else if ctxt.is_query_used(p.id) {
                Err(DrawError::WrongQueryOperation)
            } else {
                end_query_slot(ctxt, own);
                ctxt.mark_query_used(p.id);
                ctxt.emit(DeviceCommand::BeginQuery(own, p.id));
                write_query_slot(ctxt, own, p.id);
                Ok(())
            }
        },
    }
}

/// Synchronizes every query slot for one draw: the shared samples slot,
/// then the three independent slots.  A query that was used before and is
/// not already running raises the conflict error; what earlier slots did is
/// not rolled back.
pub fn sync_queries(
    ctxt: &mut Context,
    samples_passed_query: Option<SamplesQueryParam>,
    time_elapsed_query: Option<QueryRef>,
    primitives_generated_query: Option<QueryRef>,
    transform_feedback_primitives_written_query: Option<QueryRef>,
) -> (r: Result<(), DrawError>)
    requires
        old(ctxt).used_queries@.len() + 4 < usize::MAX,
    ensures
        ({
            let (c, q, u, e) = queries_outcome(
                old(ctxt).commands@,
                old(ctxt).state.queries,
                old(ctxt).used_queries@,
                samples_passed_query,
                time_elapsed_query,
                primitives_generated_query,
                transform_feedback_primitives_written_query,
            );
            final(ctxt).commands@ == c && final(ctxt).state == (DeviceState {
                queries: q,
                ..old(ctxt).state
            }) && final(ctxt).used_queries@ == u && r == (match e {
                Some(err) => Err::<(), DrawError>(err),
                None => Ok::<(), DrawError>(()),
            })
        }),
        final(ctxt).capabilities == old(ctxt).capabilities,
        final(ctxt).fences == old(ctxt).fences,
        final(ctxt).next_fence == old(ctxt).next_fence,
{
    proof {
        reveal(queries_outcome);
    }
    let r = sync_samples_query(ctxt, samples_passed_query);
    if let Err(e) = r {
        return Err(e);
    }
    let r = sync_plain_query(ctxt, QueryTarget::TimeElapsed, time_elapsed_query);
    if let Err(e) = r {
        return Err(e);
    }
    let r = sync_plain_query(ctxt, QueryTarget::PrimitivesGenerated, primitives_generated_query);
    if let Err(e) = r {
        return Err(e);
    }
    let r = sync_plain_query(
        ctxt,
        QueryTarget::TransformFeedbackPrimitivesWritten,
        transform_feedback_primitives_written_query,
    );
    if let Err(e) = r {
        return Err(e);
    }
    Ok(())
}

/// Running the same query family twice in a row: the second run, from any
/// point of the command log, appends no command, changes no slot and starts
/// no query.
#[verifier::spinoff_prover]
#[verifier::rlimit(100)]
pub proof fn lemma_queries_sync_idempotent(
    c: Seq<DeviceCommand>,
    c2: Seq<DeviceCommand>,
    q: QueryMirror,
    used: Seq<u32>,
    samples: Option<SamplesQueryParam>,
    time_elapsed: Option<QueryRef>,
    primitives_generated: Option<QueryRef>,
    transform_feedback_primitives_written: Option<QueryRef>,
)
    requires
        queries_outcome(
            c,
            q,
            used,
            samples,
            time_elapsed,
            primitives_generated,
            transform_feedback_primitives_written,
        ).3 is None,
    ensures
        ({
            let first = queries_outcome(
                c,
                q,
                used,
                samples,
                time_elapsed,
                primitives_generated,
                transform_feedback_primitives_written,
            );
            queries_outcome(
                c2,
                first.1,
                first.2,
                samples,
                time_elapsed,
                primitives_generated,
                transform_feedback_primitives_written,
            ) == (c2, first.1, first.2, None::<DrawError>)
        }),
{
    reveal(queries_outcome);
}

/// A request whose queries are all already running in their slots (and, for
/// the samples family, whose other two kinds are not running) is silent: no
/// command is appended, no slot changes, no query is newly started and no
/// conflict is raised — even though the queries are marked used.
pub proof fn lemma_requested_queries_already_running(
    c: Seq<DeviceCommand>,
    q: QueryMirror,
    used: Seq<u32>,
    samples: Option<SamplesQueryParam>,
    time_elapsed: Option<QueryRef>,
    primitives_generated: Option<QueryRef>,
    transform_feedback_primitives_written: Option<QueryRef>,
)
    requires
        (match samples {
            Some(p) => query_slot(q, samples_own_target(p.kind)) == p.id && query_slot(
                q,
                samples_other_targets(p.kind).0,
            ) == 0 && query_slot(q, samples_other_targets(p.kind).1) == 0,
            None => q.samples_passed == 0 && q.any_samples_passed == 0
                && q.any_samples_passed_conservative == 0,
        }),
        (match time_elapsed {
            Some(p) => q.time_elapsed == p.id,
            None => q.time_elapsed == 0,
        }),
        (match primitives_generated {
            Some(p) => q.primitives_generated == p.id,
            None => q.primitives_generated == 0,
        }),
        (match transform_feedback_primitives_written {
            Some(p) => q.transform_feedback_primitives_written == p.id,
            None => q.transform_feedback_primitives_written == 0,
        }),
    ensures
        queries_outcome(
            c,
            q,
            used,
            samples,
            time_elapsed,
            primitives_generated,
            transform_feedback_primitives_written,
        ) == (c, q, used, None::<DrawError>),
{
    reveal(queries_outcome);
}

// ---------------------------------------------------------------- conditional rendering

/// Whether a running conditional render with the mirrored mode already
/// covers the requested mode: the same mode does, and a no-wait request is
/// covered by a running wait of the same region choice.
pub open spec fn condition_mode_covered(current: ConditionMode, requested: ConditionMode) -> bool {
    ||| current == requested
    ||| (current.wait && !requested.wait && current.per_region == requested.per_region)
}

/// The log after the conditional-rendering axis ran.  The flag picks the
/// extension entry points instead of the core ones.
pub open spec fn conditional_render_emitted(
    c: Seq<DeviceCommand>,
    current: Option<(u32, ConditionMode)>,
    condition: Option<ConditionalRendering>,
    nv: bool,
) -> Seq<DeviceCommand> {
    match (current, condition) {
        (None, None) => c,
        (Some(_), None) => c.push(DeviceCommand::EndConditionalRender(nv)),
        (None, Some(cond)) => c.push(
            DeviceCommand::BeginConditionalRender(
                cond.query.id,
                ConditionMode { wait: cond.wait, per_region: cond.per_region },
                nv,
            ),
        ),
        (Some((id, mode)), Some(cond)) => {
            let new_mode = ConditionMode { wait: cond.wait, per_region: cond.per_region };
            if !condition_mode_covered(mode, new_mode) || cond.query.id != id {
                c.push(DeviceCommand::EndConditionalRender(nv)).push(
                    DeviceCommand::BeginConditionalRender(cond.query.id, new_mode, nv),
                )
            } else {
                c
            }
        },
    }
}

/// The conditional-rendering mirror the request asks for: the requested
/// query and mode, even where a covering wait mode keeps running on the
/// device (a no-wait request is weaker, so the device state still covers
/// it).
pub open spec fn conditional_render_target(condition: Option<ConditionalRendering>) -> Option<
    (u32, ConditionMode),
> {
    match condition {
        None => None,
        Some(cond) => Some(
            (cond.query.id, ConditionMode { wait: cond.wait, per_region: cond.per_region }),
        ),
    }
}

/// Synchronizes conditional rendering.  Switching queries, or strengthening
/// a no-wait mode to a wait mode, ends and restarts the predication; a
/// request that a running mode already covers only updates the mirror; it
/// must be applied after every other axis, since it decides whether the
/// draw that follows emits anything at all.
pub fn sync_conditional_render(ctxt: &mut Context, condition: Option<ConditionalRendering>)
    requires
        (old(ctxt).state.conditional_render is Some || condition is Some) ==> old(
            ctxt,
        ).capabilities.supports_conditional_render(),
    ensures
        final(ctxt).state == (DeviceState {
            conditional_render: conditional_render_target(condition),
            ..old(ctxt).state
        }),
        final(ctxt).commands@ == conditional_render_emitted(
            old(ctxt).commands@,
            old(ctxt).state.conditional_render,
            condition,
            !old(ctxt).capabilities.gl_version_3,
        ),
        final(ctxt).same_registries(*old(ctxt)),
{
    let nv = !ctxt.capabilities.gl_version_3;
    match (ctxt.state.conditional_render, condition) {
        (None, None) => {},
        (Some(_), None) => {
            ctxt.emit(DeviceCommand::EndConditionalRender(nv));
            ctxt.state.conditional_render = None;
        },
        (None, Some(cond)) => {
            let mode = ConditionMode { wait: cond.wait, per_region: cond.per_region };
            ctxt.emit(DeviceCommand::BeginConditionalRender(cond.query.id, mode, nv));
            ctxt.state.conditional_render = Some((cond.query.id, mode));
        },
        (Some((id, mode)), Some(cond)) => {
            let new_mode = ConditionMode { wait: cond.wait, per_region: cond.per_region };
            let covered = (mode.wait == new_mode.wait && mode.per_region == new_mode.per_region)
                || (mode.wait && !new_mode.wait && mode.per_region == new_mode.per_region);
            if !covered || cond.query.id != id {
                ctxt.emit(DeviceCommand::EndConditionalRender(nv));
                ctxt.emit(DeviceCommand::BeginConditionalRender(cond.query.id, new_mode, nv));
            }
            ctxt.state.conditional_render = Some((cond.query.id, new_mode));
        },
    }
}

/// Requesting the same conditional rendering twice in a row: the second
/// call appends no command.
pub proof fn lemma_conditional_render_idempotent(
    c: Seq<DeviceCommand>,
    condition: Option<ConditionalRendering>,
    nv: bool,
)
    ensures
        conditional_render_emitted(c, conditional_render_target(condition), condition, nv) == c,
{
}


/// One samples stage leaves the same mirror, registry and verdict wherever
/// the command log stands.
proof fn lemma_samples_stage_log_irrelevant(
    c1: Seq<DeviceCommand>,
    c2: Seq<DeviceCommand>,
    q: QueryMirror,
    used: Seq<u32>,
    param: Option<SamplesQueryParam>,
)
    ensures
        ({
            let a = samples_query_stage(c1, q, used, param);
            let b = samples_query_stage(c2, q, used, param);
            a.1 == b.1 && a.2 == b.2 && a.3 == b.3
        }),
{
}

/// One plain stage leaves the same mirror, registry and verdict wherever
/// the command log stands.
proof fn lemma_plain_stage_log_irrelevant(
    c1: Seq<DeviceCommand>,
    c2: Seq<DeviceCommand>,
    q: QueryMirror,
    used: Seq<u32>,
    target: QueryTarget,
    param: Option<QueryRef>,
)
    ensures
        ({
            let a = plain_query_stage(c1, q, used, target, param);
            let b = plain_query_stage(c2, q, used, target, param);
            a.1 == b.1 && a.2 == b.2 && a.3 == b.3
        }),
{
}

/// The query family\'s mirror, registry and verdict do not depend on where
/// the command log already stands.
pub proof fn lemma_queries_outcome_log_irrelevant(
    c1: Seq<DeviceCommand>,
    c2: Seq<DeviceCommand>,
    q: QueryMirror,
    used: Seq<u32>,
    samples: Option<SamplesQueryParam>,
    time_elapsed: Option<QueryRef>,
    primitives_generated: Option<QueryRef>,
    transform_feedback_primitives_written: Option<QueryRef>,
)
    ensures
        ({
            let a = queries_outcome(
                c1,
                q,
                used,
                samples,
                time_elapsed,
                primitives_generated,
                transform_feedback_primitives_written,
            );
            let b = queries_outcome(
                c2,
                q,
                used,
                samples,
                time_elapsed,
                primitives_generated,
                transform_feedback_primitives_written,
            );
            a.1 == b.1 && a.2 == b.2 && a.3 == b.3
        }),
{
    reveal(queries_outcome);
    let a1 = samples_query_stage(c1, q, used, samples);
    let b1 = samples_query_stage(c2, q, used, samples);
    lemma_samples_stage_log_irrelevant(c1, c2, q, used, samples);
    if a1.3 is None {
        let a2 = plain_query_stage(a1.0, a1.1, a1.2, QueryTarget::TimeElapsed, time_elapsed);
        let b2 = plain_query_stage(b1.0, b1.1, b1.2, QueryTarget::TimeElapsed, time_elapsed);
        lemma_plain_stage_log_irrelevant(
            a1.0,
            b1.0,
            a1.1,
            a1.2,
            QueryTarget::TimeElapsed,
            time_elapsed,
        );
        if a2.3 is None {
            let a3 = plain_query_stage(
                a2.0,
                a2.1,
                a2.2,
                QueryTarget::PrimitivesGenerated,
                primitives_generated,
            );
            let b3 = plain_query_stage(
                b2.0,
                b2.1,
                b2.2,
                QueryTarget::PrimitivesGenerated,
                primitives_generated,
            );
            lemma_plain_stage_log_irrelevant(
                a2.0,
                b2.0,
                a2.1,
                a2.2,
                QueryTarget::PrimitivesGenerated,
                primitives_generated,
            );
            if a3.3 is None {
                lemma_plain_stage_log_irrelevant(
                    a3.0,
                    b3.0,
                    a3.1,
                    a3.2,
                    QueryTarget::TransformFeedbackPrimitivesWritten,
                    transform_feedback_primitives_written,
                );
            }
        }
    }
}


/// One samples stage issues no draw operation.
proof fn lemma_samples_stage_no_draw(
    c: Seq<DeviceCommand>,
    q: QueryMirror,
    used: Seq<u32>,
    param: Option<SamplesQueryParam>,
)
    ensures
        crate::commands::appended_no_draw(c, samples_query_stage(c, q, used, param).0),
{
}

/// One plain stage issues no draw operation.
proof fn lemma_plain_stage_no_draw(
    c: Seq<DeviceCommand>,
    q: QueryMirror,
    used: Seq<u32>,
    target: QueryTarget,
    param: Option<QueryRef>,
)
    ensures
        crate::commands::appended_no_draw(c, plain_query_stage(c, q, used, target, param).0),
{
}

/// Neither the query slots nor conditional rendering issues a draw
/// operation.
pub proof fn lemma_queries_emit_no_draw(
    c: Seq<DeviceCommand>,
    q: QueryMirror,
    used: Seq<u32>,
    samples: Option<SamplesQueryParam>,
    time_elapsed: Option<QueryRef>,
    primitives_generated: Option<QueryRef>,
    transform_feedback_primitives_written: Option<QueryRef>,
)
    ensures
        crate::commands::appended_no_draw(
            c,
            queries_outcome(
                c,
                q,
                used,
                samples,
                time_elapsed,
                primitives_generated,
                transform_feedback_primitives_written,
            ).0,
        ),
{
    reveal(queries_outcome);
    let s1 = samples_query_stage(c, q, used, samples);
    lemma_samples_stage_no_draw(c, q, used, samples);
    if s1.3 is None {
        let s2 = plain_query_stage(s1.0, s1.1, s1.2, QueryTarget::TimeElapsed, time_elapsed);
        lemma_plain_stage_no_draw(s1.0, s1.1, s1.2, QueryTarget::TimeElapsed, time_elapsed);
        crate::commands::lemma_appended_no_draw_trans(c, s1.0, s2.0);
        if s2.3 is None {
            let s3 = plain_query_stage(
                s2.0,
                s2.1,
                s2.2,
                QueryTarget::PrimitivesGenerated,
                primitives_generated,
            );
            lemma_plain_stage_no_draw(
                s2.0,
                s2.1,
                s2.2,
                QueryTarget::PrimitivesGenerated,
                primitives_generated,
            );
            crate::commands::lemma_appended_no_draw_trans(c, s2.0, s3.0);
            if s3.3 is None {
                let s4 = plain_query_stage(
                    s3.0,
                    s3.1,
                    s3.2,
                    QueryTarget::TransformFeedbackPrimitivesWritten,
                    transform_feedback_primitives_written,
                );
                lemma_plain_stage_no_draw(
                    s3.0,
                    s3.1,
                    s3.2,
                    QueryTarget::TransformFeedbackPrimitivesWritten,
                    transform_feedback_primitives_written,
                );
                crate::commands::lemma_appended_no_draw_trans(c, s3.0, s4.0);
            }
        }
    }
}

/// Conditional rendering issues no draw operation either.
pub proof fn lemma_conditional_render_emit_no_draw(
    c: Seq<DeviceCommand>,
    current: Option<(u32, ConditionMode)>,
    condition: Option<ConditionalRendering>,
    nv: bool,
)
    ensures
        crate::commands::appended_no_draw(
            c,
            conditional_render_emitted(c, current, condition, nv),
        ),
{
}

} // verus!


