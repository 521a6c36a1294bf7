//! What a restart comes to: a deployment goes on with the step that it was left at,
//! and it never succeeds before it has taken effect.

use crate::runtime_flow::{EffectCommand, EffectResult, NexusAction, NexusWork, SignalOutput};
use crate::runtime_model::{
    ActivationBackend, ActivationCommit, AdmissionMarker, ClusterName, DeployJob, DeployJobPhase,
    DeployJobView, DeploymentInputMode, DeploymentLifecycle, DeploymentPhase, DeploymentPhaseEvent,
    DeploymentTerminal, DeploymentTerminalReason, DeployResumeStage, DeploySubmission,
    DeploySubmissionView, EventLogPosition, FlakeReference, GcRoot, GenerationIdentifier,
    GenerationSlot, HostComposition, HostDeployAction, LiveGeneration, MetaEgress, NodeName,
    PendingTransitionIntent, PhaseReceipt, SemaWriteInput, SemaWriteOutput, StateMarker,
    TransitionIntentState, TransitionMarker, UserEnvironmentAction,
};
use crate::schema_runtime::engine::SchemaRuntime;
use crate::schema_runtime::flake_policy::is_full_commit;
use crate::schema_runtime::pipeline::{
    DeployJobResumption, DeployPipeline, DeployStage, law_overrides_survive_a_restart,
};
use crate::schema_runtime::queries::deployment_events;
use crate::schema_runtime::requested::{asked_builder, asked_output, asked_route};
use crate::schema_runtime::requests::{AdmissionEvidence, deploy_job_phase_of};
use crate::schema_runtime::resume::{
    acknowledged_intents, events_at, receipt_phase, resume_plan, ResumePlan,
};
use crate::schema_runtime::store::{
    entries_between, first_key, job_keys, lemma_first_key, live_keys, record_keys, root_keys,
    StoreView,
};
use crate::schema_runtime::store_path::is_canonical_store_root;
use crate::schema_runtime::test_runs::ClusterProjection;
use crate::text::decimal;
use vstd::prelude::*;

verus! {

// ---- going on with the step that was left -------------------------------------------------

/// What a request asks of its target: a host or a user environment is built or
/// evaluated only, or it is put into effect.
pub open spec fn asks_for_effect(submission: DeploySubmissionView) -> bool {
    match submission {
        DeploySubmissionView::Host(host) => host.host_deploy_action
            != HostDeployAction::Evaluate && host.host_deploy_action != HostDeployAction::Realize,
        DeploySubmissionView::UserEnvironment(user) => user.user_environment_action
            != UserEnvironmentAction::Realize,
    }
}

/// The node that a request targets.
pub open spec fn asked_node(submission: DeploySubmissionView) -> NodeName {
    match submission {
        DeploySubmissionView::Host(host) => host.node_name,
        DeploySubmissionView::UserEnvironment(user) => user.node_name,
    }
}

/// The cluster that a request targets.
pub open spec fn asked_cluster(submission: DeploySubmissionView) -> ClusterName {
    match submission {
        DeploySubmissionView::Host(host) => host.cluster_name,
        DeploySubmissionView::UserEnvironment(user) => user.cluster_name,
    }
}

/// The flake that a request names.
pub open spec fn asked_flake(submission: DeploySubmissionView) -> FlakeReference {
    match submission {
        DeploySubmissionView::Host(host) => host.flake_reference,
        DeploySubmissionView::UserEnvironment(user) => user.flake_reference,
    }
}

/// A restarted deployment takes the step that its job names, and no other: whatever
/// was recorded before is not done again, and nothing that was still to do is left out.
pub proof fn law_a_restart_takes_the_step_that_was_left(
    store: StoreView,
    job: DeployJob,
    resumed: SchemaRuntime,
    work: NexusWork,
    evidence: AdmissionEvidence,
    projection: Option<&ClusterProjection>,
    after: SchemaRuntime,
    action: NexusAction,
)
    requires
        resume_plan(store, job) matches ResumePlan::Resume { receipt, .. }
            && resumed.active_deploy matches Some(pipeline) && pipeline.resumes(
            job,
            store.record(job.deployment_identifier.0).optional_admission_marker->0,
            receipt,
        ),
        resumed.goes_on_with(work),
        resumed.follows(work, evidence, projection, after, action),
        job.optional_flake_reference is Some ==> job.resolved_revision is Some
            && is_full_commit(job.resolved_revision->0@),
    ensures
        ({
            let submission = job.optional_deploy_submission->0@;
            match job.deploy_resume_stage {
                DeployResumeStage::ResolveFlakeAuth => action matches NexusAction::CommandEffect(
                    EffectCommand::ResolveFlakeAuth(request),
                ) && (job.optional_flake_reference is None ==> request.flake_reference
                    == asked_flake(submission)),
                DeployResumeStage::MaterializeHorizon => if job.deployment_input_mode
                    == DeploymentInputMode::Horizon {
                    action matches NexusAction::CommandEffect(
                        EffectCommand::MaterializeHorizon(command),
                    ) && command.node_name == asked_node(submission) && command.cluster_name
                        == asked_cluster(submission)
                } else {
                    action matches NexusAction::CommandSemaWrite(
                        SemaWriteInput::RecordPhaseTransition(event),
                    ) && event.deployment_phase == DeploymentPhase::Building
                },
                DeployResumeStage::RecordBuilding => action matches NexusAction::CommandSemaWrite(
                    SemaWriteInput::RecordPhaseTransition(event),
                ) && event.deployment_phase == DeploymentPhase::Building
                    && event.deployment_identifier == job.deployment_identifier,
                DeployResumeStage::NixEval => action matches NexusAction::CommandEffect(
                    EffectCommand::NixEval(command),
                ) && command.generation_identifier == job.generation_identifier && (
                job.optional_flake_reference matches Some(reference) ==> command.flake_reference
                    == reference),
                DeployResumeStage::NixBuild => if submission matches DeploySubmissionView::Host(
                    host,
                ) && host.host_deploy_action == HostDeployAction::Evaluate {
                    action is ReplyToSignal
                } else {
                    action matches NexusAction::CommandEffect(EffectCommand::NixBuild(command))
                        && Some(command.closure_path) == job.optional_closure_path
                },
                DeployResumeStage::CopyClosure => if asks_for_effect(submission) {
                    action matches NexusAction::CommandEffect(EffectCommand::CopyClosure(command))
                        && Some(command.closure_path) == job.optional_closure_path
                } else {
                    action is ReplyToSignal
                },
                DeployResumeStage::ActivateGeneration => if job.optional_closure_path is Some {
                    action matches NexusAction::CommandEffect(
                        EffectCommand::ActivateGeneration(command),
                    ) && {
                        &&& Some(command.closure_path) == job.optional_closure_path
                        &&& command.deployment_identifier == job.deployment_identifier
                        &&& command.generation_identifier == job.generation_identifier
                        &&& command.deployment_transport.ssh_destination.0
                            == job.deployment_transport.ssh_destination.0
                    }
                } else {
                    action matches NexusAction::ReplyToSignal(
                        SignalOutput::MetaOutput(MetaEgress::DeployTerminal(record)),
                    ) && record.optional_deployment_terminal matches Some(
                        DeploymentTerminal::Failed(_),
                    )
                },
                DeployResumeStage::RecordGenerationActivated => if job.optional_closure_path is Some
                    && job.optional_generation_slot is Some && job.optional_flake_reference is Some {
                    action matches NexusAction::CommandSemaWrite(
                        SemaWriteInput::RecordGenerationActivated(commit),
                    ) && {
                        &&& Some(commit.closure_path) == job.optional_closure_path
                        &&& Some(commit.generation_slot) == job.optional_generation_slot
                        &&& commit.generation_identifier == job.generation_identifier
                        &&& Some(commit.source_revision_record.resolved_ref)
                            == job.optional_flake_reference
                    }
                } else {
                    action matches NexusAction::ReplyToSignal(
                        SignalOutput::MetaOutput(MetaEgress::DeployTerminal(record)),
                    ) && record.optional_deployment_terminal matches Some(
                        DeploymentTerminal::Failed(_),
                    )
                },
                DeployResumeStage::FinishDeployment => false,
            }
        }),
{
}

/// A phase that was just recorded is gone on from in the same way whether or not the
/// daemon was restarted in between: the cursor that resumes the durable job stands
/// where the interrupted one stood, and asks for the same.
pub proof fn law_a_restart_goes_on_as_the_run_would(
    engine: SchemaRuntime,
    result: EffectResult,
    decided: SchemaRuntime,
    event: DeploymentPhaseEvent,
    interrupted: SchemaRuntime,
    receipt: PhaseReceipt,
    job: DeployJob,
    phase: DeployJobPhase,
    admission: AdmissionMarker,
    resumed: SchemaRuntime,
)
    requires
        engine.active_deploy is Some,
        engine.follows_effect(
            result,
            decided,
            NexusAction::CommandSemaWrite(SemaWriteInput::RecordPhaseTransition(event)),
        ),
        ({
            let stage = engine.active_deploy->0.stage;
            &&& result is FlakeResolved || result is HorizonMaterialized ==> stage
                == DeployStage::Submitted
            &&& result is ClosureCopied ==> stage == DeployStage::BuildingRecorded
            &&& result is GenerationActivated ==> stage == DeployStage::CopyingRecorded
        }),
        decided.writes(
            SemaWriteInput::RecordPhaseTransition(event),
            interrupted,
            SemaWriteOutput::PhaseRecorded(receipt),
        ),
        job@ == interrupted.active_deploy->0.job(phase),
        resumed.active_deploy matches Some(pipeline) && pipeline.resumes(
            job,
            admission,
            job.optional_phase_receipt,
        ),
    ensures
        resumed.active_deploy->0.stage == interrupted.active_deploy->0.stage,
        resumed.active_deploy->0.closure_path == interrupted.active_deploy->0.closure_path,
        resumed.active_deploy->0.activation_slot == interrupted.active_deploy->0.activation_slot,
        resumed.goes_on_with(
            NexusWork::SemaWriteCompleted(SemaWriteOutput::PhaseRecorded(receipt)),
        ),
{
}

/// And it takes the step that the run would have taken: the same evaluation, the same
/// activation, or the same record.
pub proof fn law_a_restart_takes_the_step_of_the_run(
    interrupted: SchemaRuntime,
    receipt: PhaseReceipt,
    job: DeployJob,
    phase: DeployJobPhase,
    admission: AdmissionMarker,
    resumed: SchemaRuntime,
    after: SchemaRuntime,
    action: NexusAction,
    later: SchemaRuntime,
    again: NexusAction,
)
    requires
        interrupted.active_deploy matches Some(pipeline) && pipeline.is_for(pipeline.submission)
            && job@ == pipeline.job(phase),
        resumed.active_deploy matches Some(pipeline) && pipeline.resumes(
            job,
            admission,
            job.optional_phase_receipt,
        ) && pipeline.stage == interrupted.active_deploy->0.stage,
        interrupted.follows_write(SemaWriteOutput::PhaseRecorded(receipt), after, action),
        resumed.follows_write(SemaWriteOutput::PhaseRecorded(receipt), later, again),
    ensures
        action matches NexusAction::CommandEffect(EffectCommand::NixEval(one)) ==> (
        again matches NexusAction::CommandEffect(EffectCommand::NixEval(other)) && {
            &&& other.generation_identifier == one.generation_identifier
            &&& other.cluster_name == one.cluster_name
            &&& other.node_name == one.node_name
            &&& other.generation_artifact == one.generation_artifact
            &&& other.deployment_output_selector@ == one.deployment_output_selector@
            &&& other.flake_input_override_vector@ == one.flake_input_override_vector@
            &&& other.build_target == one.build_target
        }),
        action matches NexusAction::CommandEffect(EffectCommand::ActivateGeneration(one)) ==> (
        again matches NexusAction::CommandEffect(EffectCommand::ActivateGeneration(other)) && {
            &&& other.deployment_identifier == one.deployment_identifier
            &&& other.generation_identifier == one.generation_identifier
            &&& other.cluster_name == one.cluster_name
            &&& other.node_name == one.node_name
            &&& other.closure_path == one.closure_path
            &&& other.activation_effect == one.activation_effect
            &&& other.activation_backend == one.activation_backend
            &&& other.activation_profile == one.activation_profile
            &&& other.deployment_transport.nix_store_uri.0
                == one.deployment_transport.nix_store_uri.0
            &&& other.deployment_transport.ssh_destination.0
                == one.deployment_transport.ssh_destination.0
        }),
        action matches NexusAction::CommandSemaWrite(
            SemaWriteInput::RecordGenerationActivated(one),
        ) ==> (again matches NexusAction::CommandSemaWrite(
            SemaWriteInput::RecordGenerationActivated(other),
        ) && {
            &&& other.generation_identifier == one.generation_identifier
            &&& other.cluster_name == one.cluster_name
            &&& other.node_name == one.node_name
            &&& other.deployment_environment == one.deployment_environment
            &&& other.generation_slot == one.generation_slot
            &&& other.closure_path == one.closure_path
            &&& other.source_revision_record.resolved_ref
                == one.source_revision_record.resolved_ref
            &&& other.source_revision_record.string == one.source_revision_record.string
        }),
{
    let pipeline = interrupted.active_deploy->0;
    law_overrides_survive_a_restart(pipeline.input_overrides@);
    let submission = job.optional_deploy_submission->0;
    assert(submission@ == pipeline.submission@);
}

// ---- no success before the effect ---------------------------------------------------------

/// Whether `generation` is among the live generations.
pub open spec fn is_live(store: StoreView, generation: GenerationIdentifier) -> bool {
    exists|i: int|
        0 <= i < store.live_set.len() && (#[trigger] store.live_set[i]).generation_identifier
            == generation
}

/// A cursor that is past its activation has its generation among the live ones, and
/// puts into effect what its request asks to put into effect.
pub open spec fn is_past_only_if_live(store: StoreView, pipeline: DeployPipeline) -> bool {
    &&& pipeline.action.takes_effect() == asks_for_effect(pipeline.submission@)
    &&& asks_for_effect(pipeline.submission@) && (pipeline.stage == DeployStage::ActivatedRecorded
        || pipeline.resume_stage == DeployResumeStage::FinishDeployment) ==> is_live(
        store,
        pipeline.generation_identifier,
    )
}

/// A job that is past its activation has its generation among the live ones.
pub open spec fn is_job_past_only_if_live(store: StoreView, job: DeployJobView) -> bool {
    job.optional_deploy_submission matches Some(submission) ==> (asks_for_effect(submission)
        && job.deploy_resume_stage == DeployResumeStage::FinishDeployment ==> is_live(
        store,
        job.generation_identifier,
    ))
}

/// Nothing that is driven or durable is past an activation that was not recorded.
pub open spec fn owes_no_activation(engine: SchemaRuntime) -> bool {
    &&& engine.active_deploy matches Some(pipeline) ==> is_past_only_if_live(
        engine.store@,
        pipeline,
    )
    &&& forall|i: int|
        0 <= i < engine.store@.jobs.len() ==> is_job_past_only_if_live(
            engine.store@,
            #[trigger] engine.store@.jobs[i],
        )
}

/// Nothing is past an activation that was not recorded, but for the cursor: it has
/// asked for the record and waits for it.
pub open spec fn owes_no_other_activation(engine: SchemaRuntime) -> bool {
    &&& engine.active_deploy matches Some(pipeline) && pipeline.action.takes_effect()
        == asks_for_effect(pipeline.submission@)
    &&& forall|i: int|
        0 <= i < engine.store@.jobs.len() ==> is_job_past_only_if_live(
            engine.store@,
            #[trigger] engine.store@.jobs[i],
        )
}

proof fn lemma_jobs_stay(store: StoreView, job: DeployJobView)
    requires
        forall|i: int|
            0 <= i < store.jobs.len() ==> is_job_past_only_if_live(store, #[trigger] store.jobs[i]),
        is_job_past_only_if_live(store, job),
    ensures
        forall|i: int|
            0 <= i < store.with_job(job).jobs.len() ==> is_job_past_only_if_live(
                store,
                #[trigger] store.with_job(job).jobs[i],
            ),
{
    lemma_first_key(job_keys(store.jobs), job.deployment_identifier.0);
    assert forall|i: int| 0 <= i < store.with_job(job).jobs.len() implies is_job_past_only_if_live(
        store,
        #[trigger] store.with_job(job).jobs[i],
    ) by {
        if i < store.jobs.len() && store.with_job(job).jobs[i] != job {
            assert(store.with_job(job).jobs[i] == store.jobs[i]);
        }
    }
}

proof fn lemma_live_sets_agree(first: StoreView, second: StoreView)
    requires
        first.live_set == second.live_set,
    ensures
        forall|generation: GenerationIdentifier| #[trigger]
            is_live(first, generation) == is_live(second, generation),
        forall|job: DeployJobView| #[trigger]
            is_job_past_only_if_live(first, job) == is_job_past_only_if_live(second, job),
        forall|pipeline: DeployPipeline| #[trigger]
            is_past_only_if_live(first, pipeline) == is_past_only_if_live(second, pipeline),
{
    assert forall|generation: GenerationIdentifier| #[trigger]
        is_live(first, generation) == is_live(second, generation) by {}
}

/// A deployment that is to take effect is answered with success only once its
/// generation is among the live ones. `work` is what the engine itself went on with.
pub proof fn law_no_success_before_the_effect(
    engine: SchemaRuntime,
    work: NexusWork,
    evidence: AdmissionEvidence,
    projection: Option<&ClusterProjection>,
    after: SchemaRuntime,
    action: NexusAction,
)
    requires
        owes_no_activation(engine),
        engine.is_correlated(),
        work is EffectCompleted || work is SemaWriteCompleted,
        work matches NexusWork::SemaWriteCompleted(SemaWriteOutput::GenerationActivated(_))
            ==> is_live(engine.store@, engine.active_deploy->0.generation_identifier),
        !(work matches NexusWork::EffectCompleted(EffectResult::PathsCollected(_))),
        engine.follows(work, evidence, projection, after, action),
        asks_for_effect(engine.active_deploy->0.submission@),
    ensures
        action matches NexusAction::ReplyToSignal(
            SignalOutput::MetaOutput(MetaEgress::DeployTerminal(record)),
        ) ==> (record.optional_deployment_terminal == Some(DeploymentTerminal::Succeeded)
            ==> is_live(engine.store@, engine.active_deploy->0.generation_identifier)),
{
}

/// What an activation records is live from then on.
pub proof fn law_a_recorded_activation_is_live(
    engine: SchemaRuntime,
    commit: ActivationCommit,
    after: SchemaRuntime,
    output: SemaWriteOutput,
)
    requires
        engine.writes(SemaWriteInput::RecordGenerationActivated(commit), after, output),
    ensures
        exists|i: int|
            0 <= i < after.store@.live_set.len() && {
                let row = #[trigger] after.store@.live_set[i];
                &&& row.generation_identifier == commit.generation_identifier
                &&& row.closure_path == commit.closure_path
                &&& row.generation_slot == commit.generation_slot
                &&& row.cluster_name == commit.cluster_name
                &&& row.node_name == commit.node_name
                &&& row.source_revision_record == commit.source_revision_record
                &&& row.deployment_identifier == engine.active_deploy->0.deployment_identifier
            },
        exists|i: int|
            0 <= i < after.store@.roots.len() && {
                let root = #[trigger] after.store@.roots[i];
                &&& root.generation_identifier == commit.generation_identifier
                &&& root.closure_path == commit.closure_path
                &&& root.generation_slot == commit.generation_slot
                &&& root.cluster_name == commit.cluster_name
                &&& root.node_name == commit.node_name
                &&& root.optional_pin_label is None
            },
{
    let store = engine.store@;
    let keys = live_keys(store.live_set);
    let generation = commit.generation_identifier.0;
    lemma_first_key(keys, generation);
    match first_key(keys, generation) {
        Some(at) => {
            assert(after.store@.live_set[at].generation_identifier
                == commit.generation_identifier);
        },
        None => {
            assert(after.store@.live_set[store.live_set.len() as int].generation_identifier
                == commit.generation_identifier);
        },
    }
    let roots = root_keys(store.roots);
    lemma_first_key(roots, generation);
    match first_key(roots, generation) {
        Some(at) => {
            assert(after.store@.roots[at].generation_identifier == commit.generation_identifier);
        },
        None => {
            assert(after.store@.roots[store.roots.len() as int].generation_identifier
                == commit.generation_identifier);
        },
    }
}

proof fn lemma_live_generations_stay(store: StoreView, generation: LiveGeneration, root: GcRoot)
    ensures
        forall|identifier: GenerationIdentifier|
            is_live(store, identifier) ==> #[trigger] is_live(
                store.after_activation(generation, root),
                identifier,
            ),
        is_live(store.after_activation(generation, root), generation.generation_identifier),
{
    let keys = live_keys(store.live_set);
    lemma_first_key(keys, generation.generation_identifier.0);
    let after = store.after_activation(generation, root);
    assert forall|identifier: GenerationIdentifier| is_live(store, identifier) implies
        #[trigger] is_live(after, identifier) by {
        let i = choose|i: int|
            0 <= i < store.live_set.len() && (#[trigger] store.live_set[i]).generation_identifier
                == identifier;
        assert(keys[i] == store.live_set[i].generation_identifier.0);
        assert(after.live_set[i].generation_identifier == identifier);
    }
    match first_key(keys, generation.generation_identifier.0) {
        Some(at) => assert(after.live_set[at] == generation),
        None => assert(after.live_set[store.live_set.len() as int] == generation),
    }
}

/// Writes leave nothing past an activation that was not recorded; the one that records
/// an activation makes its generation live.
pub proof fn law_writes_owe_no_activation(
    engine: SchemaRuntime,
    input: SemaWriteInput,
    after: SchemaRuntime,
    output: SemaWriteOutput,
)
    requires
        engine.writes(input, after, output),
        input is RecordPhaseTransition || input is RecordGenerationActivated
            ==> engine.active_deploy is Some,
        input matches SemaWriteInput::RecordGenerationActivated(commit)
            ==> commit.generation_identifier == engine.active_deploy->0.generation_identifier
            && owes_no_other_activation(engine),
        !(input is RecordGenerationActivated) ==> owes_no_activation(engine),
    ensures
        owes_no_activation(after),
        output is GenerationActivated ==> is_live(
            after.store@,
            after.active_deploy->0.generation_identifier,
        ),
{
    let store = engine.store@;
    match input {
        SemaWriteInput::RecordGenerationActivated(commit) => {
            let generation = engine.activated_generation(commit);
            let root = engine.activated_root(commit);
            lemma_live_generations_stay(store, generation, root);
            let written = store.after_activation(generation, root);
            assert forall|i: int| 0 <= i < written.jobs.len() implies is_job_past_only_if_live(
                written,
                #[trigger] written.jobs[i],
            ) by {
                assert(is_job_past_only_if_live(store, store.jobs[i]));
            }
            lemma_jobs_stay(written, after.active_deploy->0.job(DeployJobPhase::Activated));
            lemma_live_sets_agree(written, after.store@);
        },
        SemaWriteInput::RecordPhaseTransition(event) => {
            lemma_live_sets_agree(store, after.store@);
            let phase = deploy_job_phase_of(event.deployment_phase);
            let first = engine.active_deploy->0.job(phase);
            let second = after.active_deploy->0.job(phase);
            lemma_jobs_stay(store, first);
            let middle = store.with_job(first);
            lemma_live_sets_agree(store, middle);
            lemma_jobs_stay(middle, second);
            assert(after.store@.jobs == middle.with_job(second).jobs);
        },
        SemaWriteInput::RecordDeploySubmitted(submission) => {
            lemma_live_sets_agree(store, after.store@);
            let job = after.active_deploy->0.job(DeployJobPhase::Submitted);
            assert(store.admitted_job(job).deploy_resume_stage
                == DeployResumeStage::ResolveFlakeAuth);
            lemma_jobs_stay(store, store.admitted_job(job));
            assert(after.store@.jobs == store.with_job(store.admitted_job(job)).jobs);
        },
        _ => {
            lemma_live_sets_agree(store, after.store@);
        },
    }
}

/// Decisions leave nothing past an activation that was not recorded: the one that
/// steps over it asks for the record.
pub proof fn law_decisions_owe_no_activation(
    engine: SchemaRuntime,
    work: NexusWork,
    evidence: AdmissionEvidence,
    projection: Option<&ClusterProjection>,
    after: SchemaRuntime,
    action: NexusAction,
)
    requires
        owes_no_activation(engine),
        engine.active_deploy is Some,
        work is EffectCompleted || work is SemaWriteCompleted,
        engine.follows(work, evidence, projection, after, action),
    ensures
        action matches NexusAction::CommandSemaWrite(
            SemaWriteInput::RecordGenerationActivated(commit),
        ) ==> commit.generation_identifier == after.active_deploy->0.generation_identifier
            && owes_no_other_activation(after),
        !(action matches NexusAction::CommandSemaWrite(
            SemaWriteInput::RecordGenerationActivated(_),
        )) ==> owes_no_activation(after),
{
    let store = engine.store@;
    let pipeline = engine.active_deploy->0;
    lemma_live_sets_agree(store, after.store@);
    assert(is_past_only_if_live(store, pipeline));
    match work {
        NexusWork::EffectCompleted(EffectResult::FlakeResolved(resolved)) => {
            let horizon = pipeline.deployment_input_mode == DeploymentInputMode::Horizon;
            let next = pipeline.resolved_to(
                resolved.0,
                if horizon {
                    DeployResumeStage::MaterializeHorizon
                } else {
                    DeployResumeStage::RecordBuilding
                },
            );
            lemma_jobs_stay(store, next.job(DeployJobPhase::Submitted));
            if is_full_commit(resolved.0.string@) && !horizon {
                let middle = choose|middle: StoreView|
                    {
                        &&& #[trigger] engine.resolves_store(middle, next, resolved.0)
                        &&& engine.asks_to_record(
                            next,
                            middle,
                            after,
                            action,
                            DeploymentPhase::Building,
                        )
                    };
                assert(middle.live_set == store.live_set);
                lemma_live_sets_agree(store, middle);
                assert(middle.jobs == store.jobs || middle.jobs == store.with_job(
                    next.job(DeployJobPhase::Submitted),
                ).jobs);
            }
        },
        NexusWork::EffectCompleted(EffectResult::HorizonMaterialized(inputs)) => {
            let next = DeployPipeline {
                input_overrides: inputs.0,
                resume_stage: DeployResumeStage::RecordBuilding,
                ..pipeline
            };
            lemma_jobs_stay(store, next.job(DeployJobPhase::Submitted));
        },
        NexusWork::EffectCompleted(EffectResult::ClosureEvaluated(evaluated)) => {
            let next = DeployPipeline {
                closure_path: Some(evaluated.closure_path),
                resume_stage: DeployResumeStage::NixBuild,
                ..pipeline
            };
            let last = DeployPipeline {
                resume_stage: DeployResumeStage::FinishDeployment,
                ..next
            };
            lemma_jobs_stay(store, next.job(DeployJobPhase::Building));
            if !pipeline.action.realises() {
                lemma_jobs_stay(store, last.job(DeployJobPhase::Built));
            }
        },
        NexusWork::EffectCompleted(EffectResult::ClosureBuilt(built)) => {
            let next = DeployPipeline {
                closure_path: Some(built.closure_path),
                resume_stage: DeployResumeStage::CopyClosure,
                ..pipeline
            };
            let last = DeployPipeline {
                resume_stage: DeployResumeStage::FinishDeployment,
                ..next
            };
            lemma_jobs_stay(store, next.job(DeployJobPhase::Built));
            if !pipeline.action.takes_effect() {
                lemma_jobs_stay(store, last.job(DeployJobPhase::Built));
            }
        },
        NexusWork::SemaWriteCompleted(_) => {
            let next = DeployPipeline { stage: DeployStage::CopyingRecorded, ..pipeline };
            lemma_jobs_stay(store, next.job(DeployJobPhase::Activating));
        },
        _ => {},
    }
}

/// A restart owes no activation either: a cursor is taken up past its activation only
/// from a job that was.
pub proof fn law_a_restart_owes_no_activation(
    engine: SchemaRuntime,
    job: DeployJob,
    after: SchemaRuntime,
)
    requires
        forall|i: int|
            0 <= i < engine.store@.jobs.len() ==> is_job_past_only_if_live(
                engine.store@,
                #[trigger] engine.store@.jobs[i],
            ),
        engine.store@.jobs.contains(job@),
        resume_plan(engine.store@, job) matches ResumePlan::Resume { receipt, recovered }
            && after.active_deploy matches Some(pipeline) && pipeline.resumes(
            job,
            engine.store@.record(job.deployment_identifier.0).optional_admission_marker->0,
            receipt,
        ) && after.store@ == (if recovered {
            engine.store@.with_job(pipeline.job(job.deploy_job_phase)).committed()
        } else {
            engine.store@
        }),
    ensures
        owes_no_activation(after),
{
    let store = engine.store@;
    let at = choose|at: int| 0 <= at < store.jobs.len() && store.jobs[at] == job@;
    assert(is_job_past_only_if_live(store, store.jobs[at]));
    lemma_live_sets_agree(store, after.store@);
    lemma_jobs_stay(store, after.active_deploy->0.job(job.deploy_job_phase));
}

// ---- which jobs are resumed ---------------------------------------------------------------

/// The phase that a job waits to have recorded before it takes its next step.
pub open spec fn waits_for(stage: DeployResumeStage, phase: DeploymentPhase) -> bool {
    match stage {
        DeployResumeStage::NixEval => phase == DeploymentPhase::Building,
        DeployResumeStage::ActivateGeneration => phase == DeploymentPhase::Copying,
        DeployResumeStage::RecordGenerationActivated => phase == DeploymentPhase::Activated,
        _ => false,
    }
}

/// Whether a job still routes as its request does.
pub open spec fn routes_alike(job: DeployJob, submission: DeploySubmission) -> bool {
    let (mode, backend) = match submission {
        DeploySubmission::Host(host) => (host.deployment_input_mode, host.activation_backend),
        DeploySubmission::UserEnvironment(user) => (
            user.deployment_input_mode,
            user.activation_backend,
        ),
    };
    &&& job.deployment_transport.nix_store_uri@ == asked_route(submission).nix_store_uri@
    &&& job.deployment_transport.ssh_destination@ == asked_route(submission).ssh_destination@
    &&& job.deployment_output_selector@ == asked_output(submission)
    &&& job.deployment_input_mode == mode
    &&& job.activation_backend == backend
    &&& match (job.optional_nix_builder_spec, asked_builder(submission)) {
        (Some(kept), Some(asked)) => kept@ == asked@,
        (None, None) => true,
        _ => false,
    }
}

/// A job is taken up again where its deployment was admitted and has not ended, as long
/// as its closure is one, it routes as its request does, and the phase that it waits
/// for was recorded. An ended deployment, and a job without its request, is passed
/// over; anything else is a fault.
pub proof fn law_admitted_and_unfinished_jobs_are_resumed(store: StoreView, job: DeployJob)
    ensures
        ({
            let record = store.record(job.deployment_identifier.0);
            let submission = job.optional_deploy_submission->0;
            let ended = record.deployment_lifecycle == DeploymentLifecycle::Completed
                || record.deployment_lifecycle == DeploymentLifecycle::Rejected
                || record.deployment_lifecycle == DeploymentLifecycle::Failed;
            let admitted = store.has_record(job.deployment_identifier.0)
                && record.optional_admission_marker is Some;
            let sound = job.optional_closure_path is None || is_canonical_store_root(
                job.optional_closure_path->0@,
            );
            let waits = waits_for(job.deploy_resume_stage, DeploymentPhase::Building) || waits_for(
                job.deploy_resume_stage,
                DeploymentPhase::Copying,
            ) || waits_for(job.deploy_resume_stage, DeploymentPhase::Activated);
            let whole = job.optional_deploy_submission is Some && sound && admitted;
            match resume_plan(store, job) {
                ResumePlan::Resume { receipt, recovered } => {
                    &&& whole && !ended && routes_alike(job, submission)
                    &&& waits ==> receipt is Some
                    &&& recovered <==> waits && job.optional_phase_receipt is None
                    &&& !recovered ==> receipt == job.optional_phase_receipt
                },
                ResumePlan::Skip => job.optional_deploy_submission is None || (whole && ended),
                ResumePlan::Fault(_) => {
                    &&& job.optional_deploy_submission is Some
                    &&& whole ==> !ended && (!routes_alike(job, submission) || (waits
                        && job.optional_phase_receipt is None))
                },
            }
        }),
{
    if job.optional_deploy_submission is Some {
        let submission = job.optional_deploy_submission->0;
        assert(job.agrees_with(submission) == routes_alike(job, submission));
    }
}

/// A recovered receipt is that of the phase that the job waits for, acknowledged for
/// its own deployment.
pub proof fn law_a_recovered_receipt_is_of_the_awaited_phase(store: StoreView, job: DeployJob)
    requires
        resume_plan(store, job) matches ResumePlan::Resume { recovered, .. } && recovered,
    ensures
        resume_plan(store, job) matches ResumePlan::Resume { receipt: Some(receipt), .. }
            && exists|i: int|
            {
                &&& 0 <= i < store.intents.len()
                &&& (#[trigger] store.intents[i]).deployment_identifier.0
                    == job.deployment_identifier.0
                &&& waits_for(job.deploy_resume_stage, store.intents[i].deployment_phase)
                &&& store.intents[i].transition_intent_state == TransitionIntentState::Acknowledged
                &&& store.intents[i].event_log_position == receipt.event_log_position
                &&& store.intents[i].optional_transition_marker == Some(
                    TransitionMarker(receipt.state_marker),
                )
            },
{
    let deployment = job.deployment_identifier.0;
    let phase = receipt_phase(job.deploy_resume_stage)->0;
    let found = acknowledged_intents(store.intents, deployment, phase);
    lemma_acknowledged(store.intents, deployment, phase);
    let i = choose|i: int|
        {
            &&& 0 <= i < store.intents.len()
            &&& #[trigger] store.intents[i] == found[0]
            &&& store.intents[i].deployment_identifier.0 == deployment
            &&& store.intents[i].deployment_phase == phase
            &&& store.intents[i].transition_intent_state == TransitionIntentState::Acknowledged
        };
    let events = deployment_events(entries_between(store.events, 0, u64::MAX));
    let marker = found[0].optional_transition_marker->0;
    lemma_events_at(events, deployment, found[0].event_log_position, marker.0);
    assert(store.intents[i].event_log_position == found[0].event_log_position);
}

proof fn lemma_acknowledged(
    intents: Seq<PendingTransitionIntent>,
    deployment: u64,
    phase: DeploymentPhase,
)
    ensures
        acknowledged_intents(intents, deployment, phase).len() > 0 ==> exists|i: int|
            {
                &&& 0 <= i < intents.len()
                &&& #[trigger] intents[i] == acknowledged_intents(intents, deployment, phase)[0]
                &&& intents[i].deployment_identifier.0 == deployment
                &&& intents[i].deployment_phase == phase
                &&& intents[i].transition_intent_state == TransitionIntentState::Acknowledged
            },
    decreases intents.len(),
{
    if intents.len() > 0 {
        let rest = intents.drop_last();
        lemma_acknowledged(rest, deployment, phase);
        let kept = acknowledged_intents(rest, deployment, phase);
        let all = acknowledged_intents(intents, deployment, phase);
        if kept.len() > 0 {
            let i = choose|i: int|
                {
                    &&& 0 <= i < rest.len()
                    &&& #[trigger] rest[i] == kept[0]
                    &&& rest[i].deployment_identifier.0 == deployment
                    &&& rest[i].deployment_phase == phase
                    &&& rest[i].transition_intent_state == TransitionIntentState::Acknowledged
                };
            assert(intents[i] == all[0]);
        } else if all.len() > 0 {
            assert(intents[intents.len() - 1] == all[0]);
        }
    }
}

proof fn lemma_events_at(
    events: Seq<DeploymentPhaseEvent>,
    deployment: u64,
    position: EventLogPosition,
    marker: StateMarker,
)
    ensures
        forall|i: int|
            0 <= i < events_at(events, deployment, position, marker).len() ==> (
            #[trigger] events_at(events, deployment, position, marker)[i]).event_log_position
                == position && events_at(events, deployment, position, marker)[i].state_marker
                == marker,
    decreases events.len(),
{
    if events.len() > 0 {
        lemma_events_at(events.drop_last(), deployment, position, marker);
    }
}

// ---- what a restart recovers, and what it gives up ------------------------------------------

/// A switch that restarted the daemon is taken for done exactly where the job is such a
/// switch and the system that is live is the job's own closure.
pub proof fn law_a_switch_is_recovered_only_if_it_is_live(job: DeployJob, live: Option<&str>)
    ensures
        job.is_recoverable_switch() && job.is_live_profile(live) <==> {
            &&& job.optional_closure_path is Some
            &&& live is Some
            &&& job.optional_closure_path->0@ == live->0@
            &&& job.activation_backend == ActivationBackend::NixosSystemdBootV1
            &&& job.optional_deploy_submission is Some
            &&& job.optional_deploy_submission->0 is Host
            &&& job.optional_deploy_submission->0->Host_0.host_deploy_action
                == HostDeployAction::ActivateNow
            &&& job.optional_deploy_submission->0->Host_0.activation_backend
                == ActivationBackend::NixosSystemdBootV1
        },
{
}

/// A cursor can be driven on where it has what its next step works on: a source to
/// materialise for, a closure to build or to copy, or the receipt of the phase that it
/// waits for.
pub proof fn law_a_cursor_is_driven_on_with_what_it_has(pipeline: DeployPipeline)
    ensures
        SchemaRuntime::is_drivable(pipeline) <==> match pipeline.resume_stage {
            DeployResumeStage::MaterializeHorizon => pipeline.source_revision is Some,
            DeployResumeStage::NixBuild => pipeline.closure_path is Some,
            DeployResumeStage::CopyClosure => pipeline.closure_path is Some,
            _ => (exists|phase: DeploymentPhase| #[trigger]
                waits_for(pipeline.resume_stage, phase)) ==> pipeline.phase_receipt is Some,
        },
{
    assert(waits_for(DeployResumeStage::NixEval, DeploymentPhase::Building));
    assert(waits_for(DeployResumeStage::ActivateGeneration, DeploymentPhase::Copying));
    assert(waits_for(DeployResumeStage::RecordGenerationActivated, DeploymentPhase::Activated));
}

/// A cursor that cannot be driven on is given up: its deployment is on record as
/// rejected for an internal error.
pub proof fn law_a_cursor_that_lacks_its_step_is_given_up(
    engine: SchemaRuntime,
    after: SchemaRuntime,
    output: MetaEgress,
)
    requires
        engine.is_correlated(),
        engine.refuses_to_drive(after, output),
    ensures
        output matches MetaEgress::DeployRejected(rejected) && {
            &&& rejected.0.deployment_identifier.0 == engine.driven()
            &&& rejected.0.deployment_lifecycle == DeploymentLifecycle::Rejected
            &&& rejected.0.optional_deployment_terminal == Some(
                DeploymentTerminal::Rejected(DeploymentTerminalReason::InternalError),
            )
            &&& after.store@.record(engine.driven()) == rejected.0
        },
{
    let store = engine.store@;
    let keys = record_keys(store.deployments);
    lemma_first_key(keys, engine.driven());
    let at = first_key(keys, engine.driven())->0;
    assert(keys[at] == store.deployments[at].deployment_identifier.0);
    assert(record_keys(after.store@.deployments) =~= keys);
}

/// What a job keeps of its deployment: its numbers, its target and its request, its
/// route, and the unit of a scheduled boot, which no other deployment has.
pub proof fn law_a_job_keeps_its_deployment(
    pipeline: DeployPipeline,
    submission: DeploySubmission,
    phase: DeployJobPhase,
)
    requires
        pipeline.is_for(submission),
    ensures
        ({
            let job = pipeline.job(phase);
            &&& job.deployment_identifier == pipeline.deployment_identifier
            &&& job.generation_identifier == pipeline.generation_identifier
            &&& job.cluster_name == asked_cluster(submission@)
            &&& job.node_name == asked_node(submission@)
            &&& job.flake_reference == asked_flake(submission@)
            &&& job.deployment_transport == asked_route(submission)
            &&& job.deployment_output_selector@ == asked_output(submission)
            &&& job.optional_nix_builder_spec == asked_builder(submission)
            &&& job.deploy_job_phase == phase
            &&& job.source_revision_policy == pipeline.source_revision_policy
            &&& job.deployment_input_mode == pipeline.deployment_input_mode
            &&& job.activation_backend == pipeline.activation_backend
            &&& job.optional_flake_reference is Some <==> pipeline.source_revision is Some
            &&& pipeline.source_revision matches Some(revision) ==> job.optional_flake_reference
                == Some(revision.resolved_ref) && job.resolved_revision == Some(revision.string)
            &&& job.optional_deploy_submission == Some(pipeline.submission@)
            &&& job.deploy_resume_stage == pipeline.resume_stage
            &&& job.optional_closure_path == pipeline.closure_path
            &&& job.optional_generation_slot == pipeline.activation_slot
            &&& job.optional_phase_receipt == pipeline.phase_receipt
            &&& job.boot_once_unit is Some <==> submission is Host
                && submission->Host_0.host_deploy_action == HostDeployAction::ScheduleBootOnce
            &&& job.boot_once_unit matches Some(unit) ==> unit == "lojix-boot-once-deploy-"@
                + decimal(pipeline.deployment_identifier.0 as nat)
            &&& job.persisted_flake_input_override_vector.len()
                == pipeline.input_overrides@.len()
            &&& forall|i: int|
                0 <= i < pipeline.input_overrides@.len() ==> {
                    let kept = #[trigger] job.persisted_flake_input_override_vector[i];
                    let given = pipeline.input_overrides@[i];
                    &&& kept.string == given.string
                    &&& kept.persisted_flake_input_reference.url
                        == given.flake_input_reference.url
                    &&& kept.persisted_flake_input_reference.nix_archive_hash
                        == given.flake_input_reference.nix_archive_hash
                }
        }),
{
}

/// An interrupted activation is not started again: its unit is asked how it ended. What
/// was not put into effect yet is driven again, and what has ended is left.
pub proof fn law_an_interrupted_activation_is_not_repeated(job: DeployJob)
    ensures
        job.resumes_as() is PollActivationUnit <==> job.deploy_job_phase
            == DeployJobPhase::Activating,
        job.resumes_as() matches DeployJobResumption::PollActivationUnit { unit } ==> unit
            == job.boot_once_unit,
        job.resumes_as() is AlreadyTerminal <==> job.deploy_job_phase == DeployJobPhase::Activated
            || job.deploy_job_phase == DeployJobPhase::Failed,
        job.resumes_as() is RestartPipeline <==> job.deploy_job_phase == DeployJobPhase::Submitted
            || job.deploy_job_phase == DeployJobPhase::Building || job.deploy_job_phase
            == DeployJobPhase::Built || job.deploy_job_phase == DeployJobPhase::Copying,
{
}

/// A recovered switch leaves what the run that it interrupted would have recorded: the
/// same generation of the same complete host, current and live, and the same root.
pub proof fn law_a_recovered_switch_is_what_the_run_would_record(
    job: DeployJob,
    phase: DeployJobPhase,
    generation: LiveGeneration,
    root: GcRoot,
    engine: SchemaRuntime,
    submission: DeploySubmission,
    commit: ActivationCommit,
)
    requires
        job.leaves(generation, root),
        engine.active_deploy matches Some(pipeline) && pipeline.is_for(submission) && job@
            == pipeline.job(phase) && pipeline.commit() == Some(commit),
        submission is Host,
        submission->Host_0.host_composition == HostComposition::CompleteHost,
        submission->Host_0.host_deploy_action == HostDeployAction::ActivateNow,
        commit.generation_slot == GenerationSlot::Current,
    ensures
        ({
            let recorded = engine.activated_generation(commit);
            &&& generation.deployment_identifier == recorded.deployment_identifier
            &&& generation.generation_identifier == recorded.generation_identifier
            &&& generation.cluster_name == recorded.cluster_name
            &&& generation.node_name == recorded.node_name
            &&& generation.deployment_environment == recorded.deployment_environment
            &&& generation.generation_artifact == recorded.generation_artifact
            &&& generation.activation_effect == recorded.activation_effect
            &&& generation.generation_slot == recorded.generation_slot
            &&& generation.closure_path == recorded.closure_path
            &&& generation.source_revision_record.resolved_ref
                == recorded.source_revision_record.resolved_ref
            &&& generation.source_revision_record.string@
                == recorded.source_revision_record.string@
            &&& generation.source_revision_record.requested_ref
                == engine.active_deploy->0.requested_flake
            &&& generation.source_revision_record.source_revision_policy
                == engine.active_deploy->0.source_revision_policy
            &&& root == engine.activated_root(commit)
        }),
{
}

} // verus!
