//! The steps of a deployment: which one follows which, what each records, and how the
//! last one ends it.

use crate::runtime_flow::{
    EffectCommand, EffectFailure, EffectResult, EffectStage, NexusAction, NexusWork, SignalOutput,
};
use crate::runtime_model::{
    DeployJobPhase, DeployJobView, DeploymentFailureStage, DeploymentInputMode,
    DeploymentLifecycle, DeploymentPhase, DeploymentPhaseEvent, DeploymentRecord,
    DeploymentTerminal, DeploymentTerminalReason, DeployResumeStage, DeploySubmission,
    EventLogPosition, HostDeployAction, IdentifierAllocation, LoggedEvent, MetaEgress,
    OutboxDeliveryState, SemaWriteInput, SemaWriteOutput, TransitionIntentState,
    UserEnvironmentAction,
};
use crate::schema_runtime::deploy_decisions::failure_of;
use crate::schema_runtime::engine::SchemaRuntime;
use crate::schema_runtime::flake_policy::is_full_commit;
use crate::schema_runtime::pipeline::{DeployPipeline, DeployStage};
use crate::schema_runtime::requested::law_a_deployment_goes_as_far_as_asked;
use crate::schema_runtime::requests::{AdmissionEvidence, deploy_job_phase_of};
use crate::schema_runtime::store::{
    first_key, job_keys, lemma_first_key, marker_of, record_keys, StoreView,
};
use crate::schema_runtime::store_path::is_canonical_store_root;
use crate::schema_runtime::test_runs::ClusterProjection;
use vstd::prelude::*;

verus! {

// ---- endings --------------------------------------------------------------------------------

/// The record that a deployment was answered with, where its end is the answer.
pub open spec fn ended_with(action: NexusAction) -> Option<DeploymentRecord> {
    match action {
        NexusAction::ReplyToSignal(
            SignalOutput::MetaOutput(MetaEgress::DeployTerminal(record)),
        ) => Some(record),
        _ => None,
    }
}

/// Where a deployment failed that failed in `stage`.
pub open spec fn names_stage(stage: EffectStage, named: DeploymentFailureStage) -> bool {
    match named {
        DeploymentFailureStage::FlakeAuth => stage == EffectStage::FlakeAuth,
        DeploymentFailureStage::MaterializeHorizon => stage == EffectStage::MaterializeHorizon,
        DeploymentFailureStage::Eval => stage == EffectStage::Eval,
        DeploymentFailureStage::Build => stage == EffectStage::Build,
        DeploymentFailureStage::CopyClosure => stage == EffectStage::CopyClosure,
        DeploymentFailureStage::Activate => stage == EffectStage::Activate,
        DeploymentFailureStage::Daemon => stage == EffectStage::Gc || stage
            == EffectStage::HermeticCheck || stage == EffectStage::BringUpTestVm || stage
            == EffectStage::TearDownTestVm,
        DeploymentFailureStage::Admission => false,
    }
}

/// Why a deployment failed that failed in `stage`: a source that cannot be resolved or
/// materialised, one that does not evaluate or build, a store that cannot be reached,
/// or an activation that failed.
pub open spec fn names_reason(stage: EffectStage, named: DeploymentTerminalReason) -> bool {
    match named {
        DeploymentTerminalReason::ProposalSourceUnreachable => stage == EffectStage::FlakeAuth
            || stage == EffectStage::MaterializeHorizon,
        DeploymentTerminalReason::FlakeReferenceMalformed => stage == EffectStage::Eval || stage
            == EffectStage::Build,
        DeploymentTerminalReason::BuilderUnreachable => stage == EffectStage::CopyClosure,
        DeploymentTerminalReason::ActivationFailed => stage == EffectStage::Activate,
        DeploymentTerminalReason::DeploymentInFlight => stage == EffectStage::Gc,
        DeploymentTerminalReason::InternalError => stage == EffectStage::HermeticCheck || stage
            == EffectStage::BringUpTestVm || stage == EffectStage::TearDownTestVm,
        _ => false,
    }
}

/// The deployment that `engine` drives has ended as `terminal` says: the answer, its
/// record and the last event agree, and nothing is driven any more.
pub open spec fn ends_as(
    engine: SchemaRuntime,
    after: SchemaRuntime,
    action: NexusAction,
    lifecycle: DeploymentLifecycle,
    phase: DeploymentPhase,
    terminal: DeploymentTerminal,
) -> bool {
    &&& after.active_deploy is None
    &&& after.active_operation is None
    &&& after.active_test == engine.active_test
    &&& after.configuration == engine.configuration
    &&& ended_with(action) matches Some(record) && {
        &&& record.deployment_identifier.0 == engine.driven()
        &&& record.deployment_lifecycle == lifecycle
        &&& record.optional_deployment_terminal == Some(terminal)
        &&& record.optional_terminal_marker matches Some(marker)
            && marker.0.commit_sequence.0 == after.store@.commits
        &&& after.store@.record(engine.driven()) == record
        &&& record.deployment_request_identity == engine.store@.record(
            engine.driven(),
        ).deployment_request_identity
        &&& record.optional_admission_marker == engine.store@.record(
            engine.driven(),
        ).optional_admission_marker
        &&& after.store@.events.last().logged_event matches LoggedEvent::Deployment(event) && {
            &&& event.optional_immutable_revision
                == record.deployment_request_identity.optional_immutable_revision
            &&& event.deployment_identifier == record.deployment_identifier
            &&& event.generation_identifier == record.generation_identifier
            &&& event.deployment_phase == phase
            &&& event.optional_deployment_terminal == Some(terminal)
            &&& event.cluster_name == record.deployment_request_identity.cluster_name
            &&& event.node_name == record.deployment_request_identity.node_name
        }
    }
}

proof fn lemma_ends(
    engine: SchemaRuntime,
    store: StoreView,
    after: SchemaRuntime,
    action: NexusAction,
    lifecycle: DeploymentLifecycle,
    terminal: DeploymentTerminal,
)
    requires
        store.has_record(engine.driven()),
        store.deployments == engine.store@.deployments,
        engine.active_deploy is Some,
        engine.ends(store, after, action, lifecycle, terminal),
        lifecycle == DeploymentLifecycle::Completed || lifecycle == DeploymentLifecycle::Failed,
    ensures
        ends_as(
            engine,
            after,
            action,
            lifecycle,
            if lifecycle == DeploymentLifecycle::Completed {
                DeploymentPhase::Completed
            } else {
                DeploymentPhase::Failed
            },
            terminal,
        ),
{
    let deployment = engine.driven();
    let keys = record_keys(store.deployments);
    lemma_first_key(keys, deployment);
    let at = first_key(keys, deployment)->0;
    assert(keys[at] == store.deployments[at].deployment_identifier.0);
    let record = store.ended_record(deployment, lifecycle, terminal);
    assert(record.deployment_identifier.0 == deployment);
    let after_keys = record_keys(after.store@.deployments);
    assert(after_keys =~= keys);
}

/// A failed effect ends the deployment as failed, and its record says in which stage
/// and why, by nothing but the stage.
pub proof fn law_a_failed_step_ends_the_deployment(
    engine: SchemaRuntime,
    failure: EffectFailure,
    after: SchemaRuntime,
    action: NexusAction,
)
    requires
        engine.is_correlated(),
        engine.follows_effect(EffectResult::EffectFailed(failure), after, action),
    ensures
        ended_with(action) matches Some(record) && record.optional_deployment_terminal matches Some(
            DeploymentTerminal::Failed(named),
        ) && {
            &&& names_stage(failure.effect_stage, named.deployment_failure_stage)
            &&& names_reason(failure.effect_stage, named.deployment_terminal_reason)
            &&& ends_as(
                engine,
                after,
                action,
                DeploymentLifecycle::Failed,
                DeploymentPhase::Failed,
                DeploymentTerminal::Failed(named),
            )
        },
{
    lemma_ends(
        engine,
        engine.store@,
        after,
        action,
        DeploymentLifecycle::Failed,
        failure_of(failure.effect_stage),
    );
}

/// A result that cannot be used is a failure of its own stage: a revision that is no
/// full commit, an evaluated or a built path that is no store root.
pub proof fn law_an_unusable_result_fails_its_stage(
    engine: SchemaRuntime,
    result: EffectResult,
    after: SchemaRuntime,
    action: NexusAction,
)
    requires
        engine.is_correlated(),
        engine.follows_effect(result, after, action),
        match result {
            EffectResult::FlakeResolved(resolved) => !is_full_commit(resolved.0.string@),
            EffectResult::ClosureEvaluated(evaluated) => !is_canonical_store_root(
                evaluated.closure_path@,
            ),
            EffectResult::ClosureBuilt(built) => !is_canonical_store_root(built.closure_path@),
            _ => false,
        },
    ensures
        ended_with(action) matches Some(record) && record.optional_deployment_terminal matches Some(
            DeploymentTerminal::Failed(named),
        ) && named.deployment_failure_stage == (match result {
            EffectResult::FlakeResolved(_) => DeploymentFailureStage::FlakeAuth,
            EffectResult::ClosureEvaluated(_) => DeploymentFailureStage::Eval,
            _ => DeploymentFailureStage::Build,
        }) && ends_as(
            engine,
            after,
            action,
            DeploymentLifecycle::Failed,
            DeploymentPhase::Failed,
            DeploymentTerminal::Failed(named),
        ),
{
    let stage = match result {
        EffectResult::FlakeResolved(_) => EffectStage::FlakeAuth,
        EffectResult::ClosureEvaluated(_) => EffectStage::Eval,
        _ => EffectStage::Build,
    };
    lemma_ends(
        engine,
        engine.store@,
        after,
        action,
        DeploymentLifecycle::Failed,
        failure_of(stage),
    );
}

// ---- which step follows which ---------------------------------------------------------------

/// Whether `action` asks to record that the driven deployment entered `phase`.
pub open spec fn asks_for_phase(
    engine: SchemaRuntime,
    action: NexusAction,
    phase: DeploymentPhase,
) -> bool {
    action matches NexusAction::CommandSemaWrite(SemaWriteInput::RecordPhaseTransition(event)) && {
        &&& event.deployment_phase == phase
        &&& event.deployment_identifier == engine.active_deploy->0.deployment_identifier
        &&& event.generation_identifier == engine.active_deploy->0.generation_identifier
        &&& event.cluster_name == engine.active_deploy->0.cluster_name
        &&& event.node_name == engine.active_deploy->0.node_name
        &&& event.event_log_position.0 == engine.store@.allocation.next_event_log_position
        &&& event.optional_deployment_terminal is None
    }
}

/// Whether a request asks for a build at all.
pub open spec fn asks_to_build(submission: DeploySubmission) -> bool {
    submission matches DeploySubmission::Host(host) ==> host.host_deploy_action
        != HostDeployAction::Evaluate
}

/// Whether a request asks to change its target.
pub open spec fn asks_to_change(submission: DeploySubmission) -> bool {
    match submission {
        DeploySubmission::Host(host) => host.host_deploy_action != HostDeployAction::Evaluate
            && host.host_deploy_action != HostDeployAction::Realize,
        DeploySubmission::UserEnvironment(user) => user.user_environment_action
            != UserEnvironmentAction::Realize,
    }
}

/// What follows a step that went well. A resolved source is materialised where the
/// deployment has inputs of its own; then the building is announced. An evaluated
/// closure is built, a built one copied, as far as the request goes, and a deployment
/// that has gone as far as asked succeeds. A copy and an activation are announced.
pub proof fn law_a_step_that_went_well_leads_on(
    engine: SchemaRuntime,
    submission: DeploySubmission,
    result: EffectResult,
    after: SchemaRuntime,
    action: NexusAction,
)
    requires
        engine.is_correlated(),
        engine.active_deploy->0.is_for(submission),
        engine.follows_effect(result, after, action),
    ensures
        ({
            let pipeline = engine.active_deploy->0;
            match result {
                EffectResult::FlakeResolved(resolved) => is_full_commit(resolved.0.string@) ==> if pipeline.deployment_input_mode
                    == DeploymentInputMode::Horizon {
                    action matches NexusAction::CommandEffect(EffectCommand::MaterializeHorizon(_))
                } else {
                    asks_for_phase(engine, action, DeploymentPhase::Building)
                },
                EffectResult::HorizonMaterialized(inputs) => {
                    &&& asks_for_phase(engine, action, DeploymentPhase::Building)
                    &&& after.active_deploy matches Some(next) && next.input_overrides@
                        == inputs.0@
                },
                EffectResult::ClosureEvaluated(evaluated) => is_canonical_store_root(
                    evaluated.closure_path@,
                ) ==> if asks_to_build(submission) {
                    &&& action matches NexusAction::CommandEffect(
                        EffectCommand::NixBuild(command),
                    ) && command.closure_path == evaluated.closure_path
                    &&& after.active_deploy matches Some(next) && next.closure_path == Some(
                        evaluated.closure_path,
                    )
                } else {
                    ends_as(
                        engine,
                        after,
                        action,
                        DeploymentLifecycle::Completed,
                        DeploymentPhase::Completed,
                        DeploymentTerminal::Succeeded,
                    )
                },
                EffectResult::ClosureBuilt(built) => is_canonical_store_root(built.closure_path@)
                    ==> if asks_to_change(submission) {
                    &&& action matches NexusAction::CommandEffect(
                        EffectCommand::CopyClosure(command),
                    ) && command.closure_path == built.closure_path && command.node_name
                        == pipeline.node_name
                    &&& after.active_deploy matches Some(next) && next.closure_path == Some(
                        built.closure_path,
                    )
                } else {
                    ends_as(
                        engine,
                        after,
                        action,
                        DeploymentLifecycle::Completed,
                        DeploymentPhase::Completed,
                        DeploymentTerminal::Succeeded,
                    )
                },
                EffectResult::ClosureCopied(_) => asks_for_phase(
                    engine,
                    action,
                    DeploymentPhase::Copying,
                ),
                EffectResult::GenerationActivated(activated) => {
                    &&& asks_for_phase(engine, action, DeploymentPhase::Activated)
                    &&& after.active_deploy matches Some(next) && next.activation_slot == Some(
                        activated.generation_slot,
                    )
                },
                EffectResult::DetachedTestActivationDispatched => {
                    &&& action matches NexusAction::ReplyToSignal(
                        SignalOutput::MetaOutput(MetaEgress::DeployAccepted(handle)),
                    ) && handle.deployment_identifier == pipeline.deployment_identifier
                    &&& after.active_deploy is None
                    &&& after.store == engine.store
                },
                _ => after.active_deploy is None,
            }
        }),
{
    let pipeline = engine.active_deploy->0;
    law_a_deployment_goes_as_far_as_asked(pipeline, submission);
    match result {
        EffectResult::ClosureEvaluated(evaluated) => {
            let next = DeployPipeline {
                closure_path: Some(evaluated.closure_path),
                resume_stage: DeployResumeStage::FinishDeployment,
                ..pipeline
            };
            if is_canonical_store_root(evaluated.closure_path@) && !asks_to_build(submission) {
                lemma_ends(
                    engine,
                    engine.store@.with_job(next.job(DeployJobPhase::Built)).committed(),
                    after,
                    action,
                    DeploymentLifecycle::Completed,
                    DeploymentTerminal::Succeeded,
                );
            }
        },
        EffectResult::ClosureBuilt(built) => {
            let next = DeployPipeline {
                closure_path: Some(built.closure_path),
                resume_stage: DeployResumeStage::FinishDeployment,
                ..pipeline
            };
            if is_canonical_store_root(built.closure_path@) && !asks_to_change(submission) {
                lemma_ends(
                    engine,
                    engine.store@.with_job(next.job(DeployJobPhase::Built)).committed(),
                    after,
                    action,
                    DeploymentLifecycle::Completed,
                    DeploymentTerminal::Succeeded,
                );
            }
        },
        _ => {},
    }
}

/// What follows a phase that was recorded: the building is evaluated, the copied
/// closure activated, the activated generation recorded, and the recorded one ends the
/// deployment with success.
pub proof fn law_a_recorded_phase_leads_on(
    engine: SchemaRuntime,
    output: SemaWriteOutput,
    after: SchemaRuntime,
    action: NexusAction,
)
    requires
        engine.is_correlated(),
        output is PhaseRecorded || output is GenerationActivated,
        engine.follows_write(output, after, action),
    ensures
        ({
            let pipeline = engine.active_deploy->0;
            let succeeds = ends_as(
                engine,
                after,
                action,
                DeploymentLifecycle::Completed,
                DeploymentPhase::Completed,
                DeploymentTerminal::Succeeded,
            );
            &&& output is GenerationActivated ==> succeeds
            &&& output is PhaseRecorded ==> match pipeline.stage {
                DeployStage::Submitted => {
                    &&& action matches NexusAction::CommandEffect(EffectCommand::NixEval(command))
                        && command.generation_identifier == pipeline.generation_identifier
                    &&& after.active_deploy == Some(
                        DeployPipeline { stage: DeployStage::BuildingRecorded, ..pipeline },
                    )
                    &&& after.store == engine.store
                },
                DeployStage::BuildingRecorded => if pipeline.closure_path is Some
                    && is_canonical_store_root(pipeline.closure_path->0@) {
                    &&& action matches NexusAction::CommandEffect(
                        EffectCommand::ActivateGeneration(command),
                    ) && Some(command.closure_path) == pipeline.closure_path
                    &&& after.active_deploy == Some(
                        DeployPipeline { stage: DeployStage::CopyingRecorded, ..pipeline },
                    )
                } else {
                    ended_with(action) matches Some(record)
                        && record.optional_deployment_terminal matches Some(
                        DeploymentTerminal::Failed(named),
                    ) && named.deployment_failure_stage == DeploymentFailureStage::Activate
                },
                DeployStage::CopyingRecorded => if pipeline.closure_path is Some
                    && pipeline.activation_slot is Some && pipeline.source_revision is Some {
                    &&& action matches NexusAction::CommandSemaWrite(
                        SemaWriteInput::RecordGenerationActivated(commit),
                    ) && Some(commit.closure_path) == pipeline.closure_path && Some(
                        commit.generation_slot,
                    ) == pipeline.activation_slot && Some(commit.source_revision_record)
                        == pipeline.source_revision && commit.generation_identifier
                        == pipeline.generation_identifier && commit.cluster_name
                        == pipeline.cluster_name && commit.node_name == pipeline.node_name
                    &&& after.active_deploy == Some(
                        DeployPipeline { stage: DeployStage::ActivatedRecorded, ..pipeline },
                    )
                    &&& after.store == engine.store
                } else {
                    ended_with(action) matches Some(record)
                        && record.optional_deployment_terminal matches Some(
                        DeploymentTerminal::Failed(named),
                    ) && named.deployment_failure_stage == DeploymentFailureStage::Activate
                },
                DeployStage::ActivatedRecorded => succeeds,
            }
        }),
{
    if output is GenerationActivated || engine.active_deploy->0.stage
        == DeployStage::ActivatedRecorded {
        lemma_ends(
            engine,
            engine.store@,
            after,
            action,
            DeploymentLifecycle::Completed,
            DeploymentTerminal::Succeeded,
        );
    }
}

// ---- what a phase records -------------------------------------------------------------------

/// The lifecycle, the job and the event of a phase bear one name.
pub open spec fn is_one_phase(
    phase: DeploymentPhase,
    lifecycle: DeploymentLifecycle,
    job: DeployJobPhase,
) -> bool {
    match phase {
        DeploymentPhase::Submitted => lifecycle == DeploymentLifecycle::Submitted && job
            == DeployJobPhase::Submitted,
        DeploymentPhase::Building => lifecycle == DeploymentLifecycle::Building && job
            == DeployJobPhase::Building,
        DeploymentPhase::Built => lifecycle == DeploymentLifecycle::Built && job
            == DeployJobPhase::Built,
        DeploymentPhase::Copying => lifecycle == DeploymentLifecycle::Copying && job
            == DeployJobPhase::Copying,
        DeploymentPhase::Activating => lifecycle == DeploymentLifecycle::Activating && job
            == DeployJobPhase::Activating,
        DeploymentPhase::Activated => lifecycle == DeploymentLifecycle::Activated && job
            == DeployJobPhase::Activated,
        DeploymentPhase::Completed => lifecycle == DeploymentLifecycle::Completed && job
            == DeployJobPhase::Failed,
        DeploymentPhase::Rejected => lifecycle == DeploymentLifecycle::Rejected && job
            == DeployJobPhase::Failed,
        DeploymentPhase::Failed => lifecycle == DeploymentLifecycle::Failed && job
            == DeployJobPhase::Failed,
    }
}

/// Recording a phase moves the deployment's record, its job and the log to that phase
/// together, keeps a receipt of the event with the job, and touches no generation.
pub proof fn law_a_phase_is_recorded_everywhere(
    engine: SchemaRuntime,
    event: DeploymentPhaseEvent,
    after: SchemaRuntime,
    output: SemaWriteOutput,
)
    requires
        engine.is_correlated(),
        event.deployment_identifier.0 == engine.driven(),
        engine.writes(SemaWriteInput::RecordPhaseTransition(event), after, output),
    ensures
        ({
            let store = after.store@;
            let before = engine.store@;
            let jobs = job_keys(store.jobs);
            let job = store.jobs[first_key(jobs, engine.driven())->0];
            let record = store.record(engine.driven());
            let marker = before.next_marker();
            &&& is_one_phase(
                event.deployment_phase,
                record.deployment_lifecycle,
                job.deploy_job_phase,
            )
            &&& record.deployment_identifier.0 == engine.driven()
            &&& record.deployment_request_identity == before.record(
                engine.driven(),
            ).deployment_request_identity
            &&& record.optional_deployment_terminal == before.record(
                engine.driven(),
            ).optional_deployment_terminal
            &&& job.deployment_identifier.0 == engine.driven()
            &&& job.optional_phase_receipt matches Some(receipt) && receipt.event_log_position
                == event.event_log_position && receipt.state_marker == marker
            &&& output matches SemaWriteOutput::PhaseRecorded(receipt)
                && receipt.event_log_position == event.event_log_position && receipt.state_marker
                == marker
            &&& store.events == before.events.push(store.events.last())
            &&& store.events.last().event_log_position == event.event_log_position
            &&& store.events.last().logged_event matches LoggedEvent::Deployment(logged) && logged
                == (DeploymentPhaseEvent { state_marker: marker, ..event })
            &&& store.outbox.last().deployment_phase_event == (DeploymentPhaseEvent {
                state_marker: marker,
                ..event
            })
            &&& store.live_set == before.live_set
            &&& store.roots == before.roots
            &&& store.allocation == before.allocation
        }),
{
    let before = engine.store@;
    let deployment = engine.driven();
    let keys = record_keys(before.deployments);
    lemma_first_key(keys, deployment);
    let at = first_key(keys, deployment)->0;
    assert(keys[at] == before.deployments[at].deployment_identifier.0);
    assert(record_keys(after.store@.deployments) =~= keys);
    let jobs = job_keys(before.jobs);
    lemma_first_key(jobs, deployment);
    let phase = after.active_deploy->0.job(deploy_job_phase_of(event.deployment_phase));
    let middle = before.with_job(
        engine.active_deploy->0.job(deploy_job_phase_of(event.deployment_phase)),
    );
    let middle_keys = job_keys(middle.jobs);
    match first_key(jobs, deployment) {
        Some(k) => {
            assert(middle_keys =~= jobs);
        },
        None => {
            assert(middle_keys =~= jobs.push(deployment));
            assert(middle_keys.contains(deployment)) by {
                assert(middle_keys[jobs.len() as int] == deployment);
            }
        },
    }
    lemma_first_key(middle_keys, deployment);
    let k = first_key(middle_keys, deployment)->0;
    assert(after.store@.jobs == middle.jobs.update(k, phase));
    assert(job_keys(after.store@.jobs) =~= middle_keys);
}

/// A deployment that has nothing left to do succeeds, and does nothing more.
pub proof fn law_nothing_left_to_do_is_success(
    engine: SchemaRuntime,
    after: SchemaRuntime,
    action: NexusAction,
)
    requires
        engine.is_correlated(),
        engine.finishes(engine.store@, after, action),
    ensures
        ends_as(
            engine,
            after,
            action,
            DeploymentLifecycle::Completed,
            DeploymentPhase::Completed,
            DeploymentTerminal::Succeeded,
        ),
        after.store@.live_set == engine.store@.live_set,
        after.store@.roots == engine.store@.roots,
        after.store@.jobs == engine.store@.jobs,
{
    lemma_ends(
        engine,
        engine.store@,
        after,
        action,
        DeploymentLifecycle::Completed,
        DeploymentTerminal::Succeeded,
    );
}

/// An announced phase names the commit that the source was resolved to, once there is
/// one, and no other text in its place.
pub proof fn law_a_phase_names_the_resolved_commit(
    pipeline: DeployPipeline,
    event: DeploymentPhaseEvent,
    phase: DeploymentPhase,
    position: EventLogPosition,
)
    requires
        pipeline.announces(event, phase, position),
    ensures
        match event.optional_immutable_revision {
            Some(named) => pipeline.source_revision is Some && named@
                == pipeline.source_revision->0.string@ && is_full_commit(named@),
            None => pipeline.source_revision is None || !is_full_commit(
                pipeline.source_revision->0.string@,
            ),
        },
        event.state_marker == pipeline.accepted_marker,
{
}

/// An announced event is in the log, in the outbox and among the intents, the same in
/// each, and owes nothing to anyone any more.
pub proof fn law_an_announced_event_is_settled(store: StoreView, event: DeploymentPhaseEvent)
    requires
        store.intents.len() <= u64::MAX,
    ensures
        ({
            let after = store.announced(event);
            let intent = after.intents.last();
            let sent = after.outbox.last();
            &&& after.events.last().logged_event == LoggedEvent::Deployment(event)
            &&& after.events.last().event_log_position == event.event_log_position
            &&& intent.deployment_identifier == event.deployment_identifier
            &&& intent.generation_identifier == event.generation_identifier
            &&& intent.cluster_name == event.cluster_name
            &&& intent.node_name == event.node_name
            &&& intent.deployment_phase == event.deployment_phase
            &&& intent.event_log_position == event.event_log_position
            &&& intent.optional_immutable_revision == event.optional_immutable_revision
            &&& intent.optional_deployment_terminal == event.optional_deployment_terminal
            &&& intent.transition_ordinal.0 == store.intents.len()
            &&& intent.optional_transition_marker matches Some(marker) && marker.0
                == event.state_marker
            &&& intent.transition_intent_state == TransitionIntentState::Acknowledged
            &&& sent.deployment_identifier == event.deployment_identifier
            &&& sent.deployment_phase_event == event
            &&& sent.transition_marker.0 == event.state_marker
            &&& sent.outbox_delivery_state == OutboxDeliveryState::Acknowledged
            &&& sent.outbox_retry_count.0 == 0
        }),
{
}

/// The job that is kept for a deployment.
pub open spec fn job_of(store: StoreView, deployment: u64) -> DeployJobView {
    store.jobs[first_key(job_keys(store.jobs), deployment)->0]
}

proof fn lemma_job_is_kept(store: StoreView, job: DeployJobView)
    ensures
        job_of(store.with_job(job), job.deployment_identifier.0) == job,
{
    let key = job.deployment_identifier.0;
    let keys = job_keys(store.jobs);
    lemma_first_key(keys, key);
    let after = job_keys(store.with_job(job).jobs);
    match first_key(keys, key) {
        Some(at) => {
            assert(keys[at] == store.jobs[at].deployment_identifier.0);
            assert(after =~= keys);
        },
        None => {
            assert(after =~= keys.push(key));
            assert(after[keys.len() as int] == key);
            assert(after.contains(key));
            lemma_first_key(after, key);
            let at = first_key(after, key)->0;
            if at < keys.len() {
                assert(keys[at] == key);
                assert(keys.contains(key));
            }
        },
    }
}

/// A step is kept before it is taken: the job of a deployment says that the closure is
/// to be built before it is, that it is to be copied before it is, and that it is being
/// activated before it is.
pub proof fn law_a_step_is_kept_before_it_is_taken(
    engine: SchemaRuntime,
    work: NexusWork,
    evidence: AdmissionEvidence,
    projection: Option<&ClusterProjection>,
    after: SchemaRuntime,
    action: NexusAction,
)
    requires
        engine.active_deploy is Some,
        work is EffectCompleted || (work matches NexusWork::SemaWriteCompleted(output)
            && output is PhaseRecorded),
        engine.follows(work, evidence, projection, after, action),
    ensures
        ({
            let job = job_of(after.store@, engine.driven());
            match action {
                NexusAction::CommandEffect(EffectCommand::NixBuild(command)) => {
                    &&& job.deploy_resume_stage == DeployResumeStage::NixBuild
                    &&& job.deploy_job_phase == DeployJobPhase::Building
                    &&& job.optional_closure_path == Some(command.closure_path)
                },
                NexusAction::CommandEffect(EffectCommand::CopyClosure(command)) => {
                    &&& job.deploy_resume_stage == DeployResumeStage::CopyClosure
                    &&& job.deploy_job_phase == DeployJobPhase::Built
                    &&& job.optional_closure_path == Some(command.closure_path)
                },
                NexusAction::CommandEffect(EffectCommand::ActivateGeneration(command)) => {
                    &&& job.deploy_resume_stage == engine.active_deploy->0.resume_stage
                    &&& job.deploy_job_phase == DeployJobPhase::Activating
                    &&& job.optional_closure_path == Some(command.closure_path)
                },
                NexusAction::CommandEffect(EffectCommand::MaterializeHorizon(_)) => {
                    engine.is_correlated() ==> {
                        &&& job.deploy_resume_stage == DeployResumeStage::MaterializeHorizon
                        &&& job.deploy_job_phase == DeployJobPhase::Submitted
                        &&& job.optional_flake_reference is Some
                    }
                },
                NexusAction::CommandSemaWrite(SemaWriteInput::RecordPhaseTransition(_)) => {
                    work matches NexusWork::EffectCompleted(
                        EffectResult::HorizonMaterialized(inputs),
                    ) ==> {
                        &&& job.deploy_resume_stage == DeployResumeStage::RecordBuilding
                        &&& job.deploy_job_phase == DeployJobPhase::Submitted
                        &&& job.persisted_flake_input_override_vector.len() == inputs.0@.len()
                    }
                },
                _ => true,
            }
        }),
{
    let store = engine.store@;
    let pipeline = engine.active_deploy->0;
    match work {
        NexusWork::EffectCompleted(EffectResult::FlakeResolved(resolved)) => {
            let next = pipeline.resolved_to(resolved.0, DeployResumeStage::MaterializeHorizon);
            lemma_job_is_kept(store, next.job(DeployJobPhase::Submitted));
        },
        NexusWork::EffectCompleted(EffectResult::HorizonMaterialized(inputs)) => {
            let next = DeployPipeline {
                input_overrides: inputs.0,
                resume_stage: DeployResumeStage::RecordBuilding,
                ..pipeline
            };
            lemma_job_is_kept(store, next.job(DeployJobPhase::Submitted));
        },
        NexusWork::EffectCompleted(EffectResult::ClosureEvaluated(evaluated)) => {
            let next = DeployPipeline {
                closure_path: Some(evaluated.closure_path),
                resume_stage: DeployResumeStage::NixBuild,
                ..pipeline
            };
            lemma_job_is_kept(store, next.job(DeployJobPhase::Building));
        },
        NexusWork::EffectCompleted(EffectResult::ClosureBuilt(built)) => {
            let next = DeployPipeline {
                closure_path: Some(built.closure_path),
                resume_stage: DeployResumeStage::CopyClosure,
                ..pipeline
            };
            lemma_job_is_kept(store, next.job(DeployJobPhase::Built));
        },
        NexusWork::SemaWriteCompleted(_) => {
            let next = DeployPipeline { stage: DeployStage::CopyingRecorded, ..pipeline };
            lemma_job_is_kept(store, next.job(DeployJobPhase::Activating));
        },
        _ => {},
    }
}

/// A phase that is asked for takes the next position of the log for itself, and changes
/// nothing else yet.
pub proof fn law_an_asked_phase_takes_the_next_position(
    engine: SchemaRuntime,
    pipeline: DeployPipeline,
    store: StoreView,
    after: SchemaRuntime,
    action: NexusAction,
    phase: DeploymentPhase,
)
    requires
        store.fits(1, 1),
        engine.asks_to_record(pipeline, store, after, action, phase),
    ensures
        action matches NexusAction::CommandSemaWrite(SemaWriteInput::RecordPhaseTransition(event))
            && event.event_log_position.0 == store.allocation.next_event_log_position
            && event.event_log_position.0 < after.store@.allocation.next_event_log_position,
        after.store@ == (StoreView {
            allocation: IdentifierAllocation {
                next_event_log_position: (store.allocation.next_event_log_position + 1) as u64,
                ..store.allocation
            },
            commits: (store.commits + 1) as u64,
            ..store
        }),
        after.active_deploy matches Some(next) && next == (DeployPipeline {
            resume_stage: next.resume_stage,
            ..pipeline
        }) && match phase {
            DeploymentPhase::Building => next.resume_stage == DeployResumeStage::NixEval,
            DeploymentPhase::Copying => next.resume_stage == DeployResumeStage::ActivateGeneration,
            DeploymentPhase::Activated => next.resume_stage
                == DeployResumeStage::RecordGenerationActivated,
            _ => true,
        },
{
}

/// A marker names its commit, so that two commits never share one.
pub proof fn law_a_marker_names_its_commit(first: u64, second: u64)
    ensures
        marker_of(first).commit_sequence.0 == first,
        marker_of(first).state_digest.0 == first,
        marker_of(first) == marker_of(second) <==> first == second,
{
}

/// A deployment needs its record where a result or a phase ends it, and only there.
pub proof fn law_only_an_end_needs_the_record(
    engine: SchemaRuntime,
    result: EffectResult,
    after: SchemaRuntime,
    action: NexusAction,
    recorded: SemaWriteOutput,
    later: SchemaRuntime,
    next: NexusAction,
)
    requires
        engine.active_deploy is Some,
        engine.follows_effect(result, after, action),
        recorded is PhaseRecorded,
        engine.follows_write(recorded, later, next),
    ensures
        engine.active_deploy->0.ends_with(result) <==> ended_with(action) is Some,
        engine.active_deploy->0.ends_after_phase() <==> ended_with(next) is Some,
{
}

} // verus!
