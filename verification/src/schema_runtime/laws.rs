//! What holds of the engine as a whole.

use crate::runtime_flow::{
    EffectCommand, EffectResult, EffectStage, NexusAction, NexusWork, SignalOutput,
};
use crate::runtime_model::{
    ActivationCommit, DeployJob, DeployJobPhase, DeploymentEnvironment, DeploymentIdentifier,
    DeploymentLifecycle, DeploymentLookup, DeploymentPhaseEvent, DeploymentRecord,
    DeploymentRequestIdentity, DeploymentTerminal, DeploySubmission, EventLogEntry,
    EventLogPosition, EventLogRange, GcRoot, Generation, GenerationSlot, LiveGeneration,
    LoggedEvent, MetaEgress, PhaseReceipt, PinRequest, RejectedDeploy, RejectionReason,
    RetireRequest, Selection, SemaReadOutput, SemaWriteInput, SemaWriteOutput,
    SourceRevisionRecord, StateMarker, UnpinRequest,
};
use crate::schema_runtime::deploy_decisions::failure_of;
use crate::schema_runtime::engine::{MetaOperation, SchemaRuntime};
use crate::schema_runtime::meta::DeployRejectionReason;
use crate::schema_runtime::pipeline::{DeployPipeline, pinned_revision, revision_view};
use crate::schema_runtime::queries::{
    deployment_events, recorded_revision, retention_events, selected_records, shown_generations,
};
use crate::schema_runtime::requests::{AdmissionEvidence, terminal_reason_of};
use crate::schema_runtime::resume::{
    acknowledged_intents, events_at, FoundReceipt, is_terminal, logged_receipt, resume_plan,
    ResumePlan,
};
use crate::schema_runtime::store::{
    are_events_committed, entries_between, entry_of, first_key, intent_of, job_keys,
    lemma_first_key, lemma_first_key_unique, live_keys, record_keys, run_keys, StoreView,
};
use crate::schema_runtime::store_path::is_canonical_store_root;
use crate::schema_runtime::test_runs::ClusterProjection;
use crate::schema_runtime::writes::{
    first_root, has_label, is_label_used, lemma_first_root, lemma_first_root_at, of_generation,
    pin_outcome, refusal, retire_outcome, unpin_outcome, with_label,
};
use vstd::prelude::*;

verus! {

// ---- identifiers and records ---------------------------------------------------------

/// The next identifier belongs to no deployment yet.
pub proof fn law_the_next_identifier_is_fresh(store: StoreView)
    requires
        store.is_consistent(),
    ensures
        !store.has_record(store.allocation.next_deployment_identifier),
{
    let keys = record_keys(store.deployments);
    if store.has_record(store.allocation.next_deployment_identifier) {
        let i = choose|i: int|
            0 <= i < keys.len() && keys[i] == store.allocation.next_deployment_identifier;
        assert(keys[i] == store.deployments[i].deployment_identifier.0);
    }
}

proof fn lemma_no_selected_record(records: Seq<DeploymentRecord>, deployment: u64)
    requires
        forall|i: int|
            0 <= i < records.len() ==> (#[trigger] records[i]).deployment_identifier.0
                != deployment,
    ensures
        selected_records(
            Selection::ByDeployment(DeploymentLookup(DeploymentIdentifier(deployment))),
            records,
        ).len() == 0,
    decreases records.len(),
{
    if records.len() > 0 {
        assert(records.last().deployment_identifier.0 != deployment);
        lemma_no_selected_record(records.drop_last(), deployment);
    }
}

proof fn lemma_one_selected_record(records: Seq<DeploymentRecord>, at: int)
    requires
        0 <= at < records.len(),
        forall|i: int|
            0 <= i < records.len() && i != at ==> (#[trigger] records[i]).deployment_identifier
                != records[at].deployment_identifier,
    ensures
        selected_records(
            Selection::ByDeployment(DeploymentLookup(records[at].deployment_identifier)),
            records,
        ) == seq![records[at]],
    decreases records.len(),
{
    let deployment = records[at].deployment_identifier.0;
    let rest = records.drop_last();
    if at == records.len() - 1 {
        assert forall|i: int| 0 <= i < rest.len() implies (
        #[trigger] rest[i]).deployment_identifier.0 != deployment by {
            assert(rest[i] == records[i]);
        }
        lemma_no_selected_record(rest, deployment);
        assert(selected_records(
            Selection::ByDeployment(DeploymentLookup(records[at].deployment_identifier)),
            records,
        ) =~= seq![records[at]]);
    } else {
        assert(rest[at] == records[at]);
        assert(records.last().deployment_identifier != records[at].deployment_identifier);
        lemma_one_selected_record(rest, at);
    }
}

/// A recorded deployment is found by its identifier, and by no other's.
pub proof fn law_a_deployment_is_found_by_its_identifier(store: StoreView, deployment: u64)
    requires
        store.is_consistent(),
    ensures
        selected_records(
            Selection::ByDeployment(DeploymentLookup(DeploymentIdentifier(deployment))),
            store.deployments,
        ) == (if store.has_record(deployment) {
            seq![store.record(deployment)]
        } else {
            Seq::empty()
        }),
{
    let keys = record_keys(store.deployments);
    lemma_first_key(keys, deployment);
    if store.has_record(deployment) {
        let at = first_key(keys, deployment)->0;
        assert(keys[at] == store.deployments[at].deployment_identifier.0);
        lemma_one_selected_record(store.deployments, at);
    } else {
        assert forall|i: int| 0 <= i < store.deployments.len() implies (
        #[trigger] store.deployments[i]).deployment_identifier.0 != deployment by {
            assert(keys[i] == store.deployments[i].deployment_identifier.0);
        }
        lemma_no_selected_record(store.deployments, deployment);
        assert(selected_records(
            Selection::ByDeployment(DeploymentLookup(DeploymentIdentifier(deployment))),
            store.deployments,
        ) =~= Seq::empty());
    }
}

/// A record put in place of its deployment's is what is read back.
proof fn lemma_record_read_back(store: StoreView, record: DeploymentRecord)
    requires
        store.has_record(record.deployment_identifier.0),
    ensures
        store.with_record(record).has_record(record.deployment_identifier.0),
        store.with_record(record).record(record.deployment_identifier.0) == record,
{
    let deployment = record.deployment_identifier.0;
    let keys = record_keys(store.deployments);
    lemma_first_key(keys, deployment);
    let after = record_keys(store.with_record(record).deployments);
    assert(after =~= keys);
}

/// A record added behind all others, under a fresh identifier, is what is read back.
proof fn lemma_pushed_record_read_back(store: StoreView, record: DeploymentRecord)
    requires
        store.is_consistent(),
        record.deployment_identifier.0 == store.allocation.next_deployment_identifier,
    ensures
        first_key(
            record_keys(store.deployments.push(record)),
            record.deployment_identifier.0,
        ) == Some(store.deployments.len() as int),
        record_keys(store.deployments.push(record)).contains(record.deployment_identifier.0),
{
    let keys = record_keys(store.deployments.push(record));
    let at = store.deployments.len() as int;
    assert(keys[at] == record.deployment_identifier.0);
    assert forall|i: int| 0 <= i < at implies keys[i] != record.deployment_identifier.0 by {
        assert(keys[i] == store.deployments[i].deployment_identifier.0);
    }
    lemma_first_key_unique(keys, record.deployment_identifier.0, at);
}

/// A refused request is answered with the record that a query by its identifier
/// finds, and that record says why it was refused.
pub proof fn law_a_refusal_is_on_record(
    engine: SchemaRuntime,
    after: SchemaRuntime,
    submission: DeploySubmission,
    reason: DeployRejectionReason,
    rejected: RejectedDeploy,
)
    requires
        engine.store@.is_consistent(),
        engine.refuses(after, submission, reason, rejected),
    ensures
        after.store@.has_record(rejected.0.deployment_identifier.0),
        after.store@.record(rejected.0.deployment_identifier.0) == rejected.0,
        rejected.0.optional_deployment_terminal == Some(
            DeploymentTerminal::Rejected(terminal_reason_of(reason)),
        ),
        is_terminal(rejected.0.deployment_lifecycle),
{
    lemma_pushed_record_read_back(engine.store@, rejected.0);
    assert(after.store@.deployments == engine.store@.deployments.push(rejected.0));
}

/// A deployment that has succeeded or failed is recorded so, and is never driven again.
pub proof fn law_an_end_is_final(
    engine: SchemaRuntime,
    after: SchemaRuntime,
    action: NexusAction,
    stage: EffectStage,
    job: DeployJob,
)
    requires
        engine.is_correlated(),
        engine.finishes(engine.store@, after, action) || engine.fails(after, action, stage),
        job.deployment_identifier.0 == engine.driven(),
    ensures
        after.store@.has_record(engine.driven()),
        is_terminal(after.store@.record(engine.driven()).deployment_lifecycle),
        !(resume_plan(after.store@, job) is Resume),
{
    let store = engine.store@;
    let deployment = engine.driven();
    let record = after.store@.record(deployment);
    lemma_first_key(record_keys(store.deployments), deployment);
    assert(store.record(deployment).deployment_identifier.0 == deployment) by {
        let at = first_key(record_keys(store.deployments), deployment)->0;
        assert(record_keys(store.deployments)[at]
            == store.deployments[at].deployment_identifier.0);
    }
    if engine.finishes(store, after, action) {
        lemma_record_read_back(
            store,
            store.ended_record(
                deployment,
                DeploymentLifecycle::Completed,
                DeploymentTerminal::Succeeded,
            ),
        );
    } else {
        lemma_record_read_back(
            store,
            store.ended_record(
                deployment,
                DeploymentLifecycle::Failed,
                failure_of(stage),
            ),
        );
    }
}

/// What is recorded and answered of a failed effect depends on its stage alone.
pub proof fn law_failure_details_stay_local(
    engine: SchemaRuntime,
    first: SchemaRuntime,
    first_action: NexusAction,
    second: SchemaRuntime,
    second_action: NexusAction,
    stage: EffectStage,
)
    requires
        engine.fails(first, first_action, stage),
        engine.fails(second, second_action, stage),
    ensures
        first_action == second_action,
        first.store@ == second.store@,
{
}

// ---- restarts ----------------------------------------------------------------------------

/// An admitted deployment can be restarted at once: its job is durable, and a
/// restart drives it from there.
pub proof fn law_an_admission_survives_a_restart(
    engine: SchemaRuntime,
    after: SchemaRuntime,
    submission: DeploySubmission,
    job: DeployJob,
)
    requires
        engine.store@.is_consistent(),
        engine.admits(after, submission),
        job@ == after.active_deploy->0.job(DeployJobPhase::Submitted),
    ensures
        after.store@.jobs.contains(job@),
        resume_plan(after.store@, job) == (ResumePlan::Resume { receipt: None, recovered: false }),
{
    let store = engine.store@;
    let pipeline = after.active_deploy->0;
    let view = pipeline.job(DeployJobPhase::Submitted);
    let identity = after.store@.deployments.last().deployment_request_identity;
    let record = store.admitted_record(identity);
    lemma_pushed_record_read_back(store, record);
    assert(after.store@.deployments == store.deployments.push(record));
    assert(store.admitted_job(view) == view);
    let keys = job_keys(store.jobs);
    lemma_first_key(keys, view.deployment_identifier.0);
    match first_key(keys, view.deployment_identifier.0) {
        Some(at) => {
            assert(after.store@.jobs[at] == view);
        },
        None => {
            assert(after.store@.jobs[store.jobs.len() as int] == view);
        },
    }
    let persisted = job.optional_deploy_submission->0;
    assert(persisted@ == submission@);
}

proof fn lemma_entries_push(entries: Seq<EventLogEntry>, entry: EventLogEntry, until: u64)
    requires
        entry.event_log_position.0 < until,
    ensures
        entries_between(entries.push(entry), 0, until) == entries_between(entries, 0, until).push(
            entry,
        ),
{
    assert(entries.push(entry).drop_last() =~= entries);
}

proof fn lemma_events_push(entries: Seq<EventLogEntry>, entry: EventLogEntry)
    requires
        entry.logged_event is Deployment,
    ensures
        deployment_events(entries.push(entry)) == deployment_events(entries).push(
            entry.logged_event->Deployment_0,
        ),
{
    assert(entries.push(entry).drop_last() =~= entries);
}

proof fn lemma_no_event_ahead(
    entries: Seq<EventLogEntry>,
    deployment: u64,
    position: EventLogPosition,
    marker: StateMarker,
    commits: u64,
)
    requires
        are_events_committed(entries, commits),
        commits < marker.commit_sequence.0,
    ensures
        events_at(
            deployment_events(entries_between(entries, 0, u64::MAX)),
            deployment,
            position,
            marker,
        ).len() == 0,
    decreases entries.len(),
{
    if entries.len() > 0 {
        let rest = entries.drop_last();
        let last = entries.last();
        assert(are_events_committed(rest, commits)) by {
            assert forall|i: int| 0 <= i < rest.len() implies match (
            #[trigger] rest[i]).logged_event {
                LoggedEvent::Deployment(event) => event.state_marker.commit_sequence.0 <= commits,
                _ => true,
            } by {
                assert(rest[i] == entries[i]);
            }
        }
        lemma_no_event_ahead(rest, deployment, position, marker, commits);
        assert(entries[entries.len() - 1] == last);
        let shown = entries_between(rest, 0, u64::MAX);
        if last.event_log_position.0 < u64::MAX {
            assert(shown.push(last).drop_last() =~= shown);
            if last.logged_event is Deployment {
                let event = last.logged_event->Deployment_0;
                let events = deployment_events(shown);
                assert(events.push(event).drop_last() =~= events);
            }
        }
    }
}

/// The receipt of a phase can be read back from the log: where a deployment has
/// entered a phase once, a restart that lost the receipt recovers exactly it.
pub proof fn law_a_receipt_is_in_the_log(
    engine: SchemaRuntime,
    after: SchemaRuntime,
    event: DeploymentPhaseEvent,
    receipt: PhaseReceipt,
)
    requires
        engine.store@.is_consistent(),
        engine.store@.fits(2, 0),
        engine.writes(
            SemaWriteInput::RecordPhaseTransition(event),
            after,
            SemaWriteOutput::PhaseRecorded(receipt),
        ),
        acknowledged_intents(
            engine.store@.intents,
            event.deployment_identifier.0,
            event.deployment_phase,
        ).len() == 0,
        event.event_log_position.0 < u64::MAX,
    ensures
        logged_receipt(after.store@, event.deployment_identifier.0, event.deployment_phase)
            == FoundReceipt::Receipt(receipt),
{
    let store = engine.store@;
    let deployment = event.deployment_identifier.0;
    let stamped = store.stamped(event);
    let intent = intent_of(stamped, store.intents.len() as u64);
    assert(after.store@.intents == store.intents.push(intent));
    assert(after.store@.events == store.events.push(entry_of(stamped)));
    assert(store.intents.push(intent).drop_last() =~= store.intents);
    let intents = acknowledged_intents(after.store@.intents, deployment, event.deployment_phase);
    assert(intents =~= seq![intent]);
    let marker = store.next_marker();
    lemma_no_event_ahead(
        store.events,
        deployment,
        event.event_log_position,
        marker,
        store.commits,
    );
    lemma_entries_push(store.events, entry_of(stamped), u64::MAX);
    let shown = entries_between(store.events, 0, u64::MAX);
    lemma_events_push(shown, entry_of(stamped));
    let events = deployment_events(shown);
    assert(events.push(stamped).drop_last() =~= events);
    assert(events_at(events.push(stamped), deployment, event.event_log_position, marker)
        =~= seq![stamped]);
}

// ---- the runner ---------------------------------------------------------------------------------

/// What the engine asks to be written, it can write; and while an effect of a
/// request other than a test runs, the deployment it belongs to is driven.
pub proof fn law_decisions_can_be_carried_out(
    engine: SchemaRuntime,
    work: NexusWork,
    evidence: AdmissionEvidence,
    projection: Option<&ClusterProjection>,
    after: SchemaRuntime,
    action: NexusAction,
)
    requires
        engine.is_consistent(),
        after.is_consistent(),
        engine.can_decide(work, evidence),
        engine.follows(work, evidence, projection, after, action),
    ensures
        action matches NexusAction::CommandSemaWrite(input) ==> after.can_write(input),
        action is CommandEffect ==> after.active_deploy is Some,
{
}

/// What comes of a write that the engine asked for, it can decide on: a write that
/// can be refused was asked for by an operation that is answered.
pub proof fn law_writes_can_be_decided(
    engine: SchemaRuntime,
    input: SemaWriteInput,
    after: SchemaRuntime,
    output: SemaWriteOutput,
)
    requires
        engine.can_write(input),
        engine.writes(input, after, output),
        input is PinGeneration || input is UnpinGeneration || input is RetireGeneration ==> (
        engine.active_operation matches Some(operation) && operation != MetaOperation::Deploy),
        input is RecordContainerTransition ==> engine.active_deploy is Some,
    ensures
        after.can_decide_write(output),
{
}

/// Only canonical closures are built, copied or activated.
pub proof fn law_effects_take_canonical_closures(
    engine: SchemaRuntime,
    result: EffectResult,
    after: SchemaRuntime,
    action: NexusAction,
)
    requires
        engine.active_deploy is Some,
        engine.follows_effect(result, after, action) || engine.advances(after, action),
    ensures
        action matches NexusAction::CommandEffect(EffectCommand::NixBuild(command))
            ==> is_canonical_store_root(command.closure_path@),
        action matches NexusAction::CommandEffect(EffectCommand::CopyClosure(command))
            ==> is_canonical_store_root(command.closure_path@),
        action matches NexusAction::CommandEffect(EffectCommand::ActivateGeneration(command))
            ==> is_canonical_store_root(command.closure_path@),
{
}

/// No test passes without its check: any other result of an effect that ends the
/// test leaves a failed row.
pub proof fn law_no_test_passes_without_its_check(
    engine: SchemaRuntime,
    result: EffectResult,
    after: SchemaRuntime,
    action: NexusAction,
)
    requires
        engine.active_test is Some,
        engine.follows_test_effect(result, after, action),
        !(result is HermeticCheckBuilt),
        after.active_test is None,
    ensures
        ({
            let identifier = engine.active_test->0.identifier.0;
            let at = first_key(run_keys(after.store@.runs), identifier);
            &&& at is Some
            &&& after.store@.runs[at->0].test_outcome is Failed
        }),
{
    let identifier = engine.active_test->0.identifier.0;
    let keys = run_keys(engine.store@.runs);
    lemma_first_key(keys, identifier);
    let after_keys = run_keys(after.store@.runs);
    match first_key(keys, identifier) {
        Some(at) => {
            assert(after_keys =~= keys);
        },
        None => {
            let at = keys.len() as int;
            assert(after_keys[at] == identifier);
            assert forall|i: int| 0 <= i < at implies after_keys[i] != identifier by {
                assert(after_keys[i] == keys[i]);
                assert(keys.contains(keys[i]));
            }
            lemma_first_key_unique(after_keys, identifier, at);
        },
    }
}

// ---- retention -------------------------------------------------------------------------------------

/// No label pins two generations.
pub proof fn law_a_label_pins_one_generation(store: StoreView, first: int, second: int)
    requires
        store.is_consistent(),
        0 <= first < store.roots.len(),
        0 <= second < store.roots.len(),
        store.roots[first].optional_pin_label is Some,
        store.roots[second].optional_pin_label is Some,
        store.roots[first].optional_pin_label->0@ == store.roots[second].optional_pin_label->0@,
    ensures
        first == second,
{
}

/// A generation that was pinned cannot be retired.
pub proof fn law_a_pinned_generation_is_not_retired(
    store: StoreView,
    pin: PinRequest,
    retire: RetireRequest,
)
    requires
        pin_outcome(store, pin).1 is GenerationPinned,
        retire.generation_identifier == pin.generation_identifier,
        retire.cluster_name@ == pin.cluster_name@,
        retire.node_name@ == pin.node_name@,
    ensures
        retire_outcome(pin_outcome(store, pin).0, retire) == (
            pin_outcome(store, pin).0,
            refusal(pin_outcome(store, pin).0, RejectionReason::GenerationPinned),
        ),
{
    let wanted = of_generation(
        pin.generation_identifier.0,
        pin.cluster_name@,
        pin.node_name@,
    );
    lemma_first_root(store.roots, wanted);
    let at = first_root(store.roots, wanted)->0;
    let after = pin_outcome(store, pin).0;
    assert forall|i: int| 0 <= i < at implies !wanted(#[trigger] after.roots[i]) by {
        assert(after.roots[i] == store.roots[i]);
    }
    lemma_first_root_at(after.roots, wanted, at);
}

/// Unpinning undoes pinning but for the slot: the label is free again, the
/// generation may be retired, and nothing else has changed.
pub proof fn law_unpinning_undoes_pinning(store: StoreView, pin: PinRequest, unpin: UnpinRequest)
    requires
        store.is_consistent(),
        pin_outcome(store, pin).1 is GenerationPinned,
        unpin.pin_label@ == pin.pin_label@,
        unpin.cluster_name@ == pin.cluster_name@,
        unpin.node_name@ == pin.node_name@,
    ensures
        ({
            let wanted = of_generation(
                pin.generation_identifier.0,
                pin.cluster_name@,
                pin.node_name@,
            );
            let at = first_root(store.roots, wanted)->0;
            let (after, answer) = unpin_outcome(pin_outcome(store, pin).0, unpin);
            &&& answer matches SemaWriteOutput::GenerationUnpinned(applied)
                && applied.generation_identifier == pin.generation_identifier
            &&& !is_label_used(after.roots, pin.pin_label@)
            &&& after.roots == store.roots.update(
                at,
                GcRoot {
                    generation_slot: GenerationSlot::Recent,
                    optional_pin_label: None,
                    ..store.roots[at]
                },
            )
        }),
{
    let wanted = of_generation(
        pin.generation_identifier.0,
        pin.cluster_name@,
        pin.node_name@,
    );
    lemma_first_root(store.roots, wanted);
    let at = first_root(store.roots, wanted)->0;
    let pinned = pin_outcome(store, pin).0;
    let labelled = with_label(unpin.pin_label@, unpin.cluster_name@, unpin.node_name@);
    assert forall|i: int| 0 <= i < at implies !labelled(#[trigger] pinned.roots[i]) by {
        assert(pinned.roots[i] == store.roots[i]);
        assert(!has_label(store.roots[i], pin.pin_label@));
    }
    lemma_first_root_at(pinned.roots, labelled, at);
    let after = unpin_outcome(pinned, unpin).0;
    assert(after.roots =~= store.roots.update(
        at,
        GcRoot {
            generation_slot: GenerationSlot::Recent,
            optional_pin_label: None,
            ..store.roots[at]
        },
    ));
    assert forall|i: int| 0 <= i < after.roots.len() implies !has_label(
        #[trigger] after.roots[i],
        pin.pin_label@,
    ) by {
        if i != at {
            assert(after.roots[i] == store.roots[i]);
            assert(!has_label(store.roots[i], pin.pin_label@));
        }
    }
}

// ---- what replies show of a request ------------------------------------------------------

/// Both submissions ask for the same: the same target, artifact, action and policy,
/// and flake references that pin the same revision or none. Their proposal sources
/// and the rest of their flake references may differ.
pub open spec fn ask_alike(first: DeploySubmission, second: DeploySubmission) -> bool {
    match (first, second) {
        (DeploySubmission::Host(one), DeploySubmission::Host(other)) => {
            &&& one.cluster_name@ == other.cluster_name@
            &&& one.node_name@ == other.node_name@
            &&& one.host_composition == other.host_composition
            &&& one.host_deploy_action == other.host_deploy_action
            &&& one.source_revision_policy == other.source_revision_policy
            &&& pinned_revision(one.flake_reference@) == pinned_revision(other.flake_reference@)
        },
        (DeploySubmission::UserEnvironment(one), DeploySubmission::UserEnvironment(other)) => {
            &&& one.cluster_name@ == other.cluster_name@
            &&& one.node_name@ == other.node_name@
            &&& one.user_name@ == other.user_name@
            &&& one.user_environment_action == other.user_environment_action
            &&& one.source_revision_policy == other.source_revision_policy
            &&& pinned_revision(one.flake_reference@) == pinned_revision(other.flake_reference@)
        },
        _ => false,
    }
}

/// Both identities say the same, text for text.
pub open spec fn identities_agree(
    first: DeploymentRequestIdentity,
    second: DeploymentRequestIdentity,
) -> bool {
    &&& match (first.deployment_environment, second.deployment_environment) {
        (DeploymentEnvironment::HostEnvironment, DeploymentEnvironment::HostEnvironment) => true,
        (
            DeploymentEnvironment::UserEnvironment(one),
            DeploymentEnvironment::UserEnvironment(other),
        ) => one@ == other@,
        _ => false,
    }
    &&& first.cluster_name@ == second.cluster_name@
    &&& first.node_name@ == second.node_name@
    &&& first.generation_artifact == second.generation_artifact
    &&& first.requested_deployment_action == second.requested_deployment_action
    &&& first.activation_effect == second.activation_effect
    &&& first.source_revision_policy == second.source_revision_policy
    &&& revision_view(first.optional_immutable_revision) == revision_view(
        second.optional_immutable_revision,
    )
}

/// Both records say the same, text for text.
pub open spec fn records_agree(first: DeploymentRecord, second: DeploymentRecord) -> bool {
    &&& first.deployment_identifier == second.deployment_identifier
    &&& first.generation_identifier == second.generation_identifier
    &&& identities_agree(first.deployment_request_identity, second.deployment_request_identity)
    &&& first.optional_admission_marker == second.optional_admission_marker
    &&& first.deployment_lifecycle == second.deployment_lifecycle
    &&& first.optional_terminal_marker == second.optional_terminal_marker
    &&& first.optional_deployment_terminal == second.optional_deployment_terminal
}

/// Both events say the same, text for text.
pub open spec fn events_agree(first: DeploymentPhaseEvent, second: DeploymentPhaseEvent) -> bool {
    &&& first.deployment_identifier == second.deployment_identifier
    &&& first.generation_identifier == second.generation_identifier
    &&& first.cluster_name@ == second.cluster_name@
    &&& first.node_name@ == second.node_name@
    &&& first.deployment_phase == second.deployment_phase
    &&& first.event_log_position == second.event_log_position
    &&& first.state_marker == second.state_marker
    &&& revision_view(first.optional_immutable_revision) == revision_view(
        second.optional_immutable_revision,
    )
    &&& first.optional_deployment_terminal == second.optional_deployment_terminal
}

/// Both log entries say the same, text for text.
pub open spec fn entries_agree(first: EventLogEntry, second: EventLogEntry) -> bool {
    &&& first.event_log_position == second.event_log_position
    &&& match (first.logged_event, second.logged_event) {
        (LoggedEvent::Deployment(one), LoggedEvent::Deployment(other)) => events_agree(one, other),
        (one, other) => one == other,
    }
}

/// Both generations say the same, text for text.
pub open spec fn generations_agree(first: Generation, second: Generation) -> bool {
    &&& first.generation_identifier == second.generation_identifier
    &&& first.deployment_identifier == second.deployment_identifier
    &&& first.cluster_name@ == second.cluster_name@
    &&& first.node_name@ == second.node_name@
    &&& first.generation_artifact == second.generation_artifact
    &&& first.activation_effect == second.activation_effect
    &&& first.generation_slot == second.generation_slot
    &&& first.closure_path@ == second.closure_path@
    &&& revision_view(first.optional_immutable_revision) == revision_view(
        second.optional_immutable_revision,
    )
}

/// Both live generations are the same but for their sources.
pub open spec fn live_generations_agree(first: LiveGeneration, second: LiveGeneration) -> bool {
    &&& first.generation_identifier == second.generation_identifier
    &&& first.deployment_identifier == second.deployment_identifier
    &&& first.cluster_name@ == second.cluster_name@
    &&& first.node_name@ == second.node_name@
    &&& first.generation_artifact == second.generation_artifact
    &&& first.activation_effect == second.activation_effect
    &&& first.generation_slot == second.generation_slot
    &&& first.closure_path@ == second.closure_path@
}

/// Both states hold the same of everything that replies to deployments, listings and
/// pages of the log are made of. Their jobs and the sources of their live
/// generations may differ.
pub open spec fn states_agree(first: StoreView, second: StoreView) -> bool {
    &&& first.deployments.len() == second.deployments.len()
    &&& forall|i: int|
        0 <= i < first.deployments.len() ==> records_agree(
            #[trigger] first.deployments[i],
            second.deployments[i],
        )
    &&& first.events.len() == second.events.len()
    &&& forall|i: int|
        0 <= i < first.events.len() ==> entries_agree(
            #[trigger] first.events[i],
            second.events[i],
        )
    &&& first.live_set.len() == second.live_set.len()
    &&& forall|i: int|
        0 <= i < first.live_set.len() ==> live_generations_agree(
            #[trigger] first.live_set[i],
            second.live_set[i],
        )
    &&& first.allocation == second.allocation
    &&& first.commits == second.commits
}

/// The refusal of a request shows neither its proposal source nor its raw flake
/// reference: requests that ask for the same and are refused for the same reason get
/// the same reply, and leave the same behind for later replies.
pub proof fn law_a_refusal_shows_no_raw_source(
    engine: SchemaRuntime,
    first: DeploySubmission,
    first_after: SchemaRuntime,
    first_reply: RejectedDeploy,
    second: DeploySubmission,
    second_after: SchemaRuntime,
    second_reply: RejectedDeploy,
    reason: DeployRejectionReason,
)
    requires
        ask_alike(first, second),
        engine.refuses(first_after, first, reason, first_reply),
        engine.refuses(second_after, second, reason, second_reply),
    ensures
        records_agree(first_reply.0, second_reply.0),
        states_agree(first_after.store@, second_after.store@),
{
}

/// The admission of a request shows neither its proposal source nor its raw flake
/// reference: requests that ask for the same and are admitted get the same reply,
/// and leave the same behind for later replies.
pub proof fn law_an_admission_shows_no_raw_source(
    engine: SchemaRuntime,
    first: DeploySubmission,
    first_after: SchemaRuntime,
    first_reply: SemaWriteOutput,
    second: DeploySubmission,
    second_after: SchemaRuntime,
    second_reply: SemaWriteOutput,
)
    requires
        ask_alike(first, second),
        engine.writes(SemaWriteInput::RecordDeploySubmitted(first), first_after, first_reply),
        engine.writes(SemaWriteInput::RecordDeploySubmitted(second), second_after, second_reply),
    ensures
        first_reply == second_reply,
        states_agree(first_after.store@, second_after.store@),
{
}

proof fn lemma_record_agrees(first: StoreView, second: StoreView, deployment: u64)
    requires
        states_agree(first, second),
        first.has_record(deployment),
    ensures
        record_keys(first.deployments) == record_keys(second.deployments),
        records_agree(first.record(deployment), second.record(deployment)),
        first.record(deployment).deployment_identifier.0 == deployment,
{
    let keys = record_keys(first.deployments);
    assert forall|i: int| 0 <= i < keys.len() implies keys[i] == record_keys(
        second.deployments,
    )[i] by {
        assert(records_agree(first.deployments[i], second.deployments[i]));
    }
    assert(keys =~= record_keys(second.deployments));
    lemma_first_key(keys, deployment);
    let at = first_key(keys, deployment)->0;
    assert(keys[at] == first.deployments[at].deployment_identifier.0);
}

/// The source that a deployment is resolved to shows by its revision alone: over
/// states that agree, sources with the same revision leave states that agree.
pub proof fn law_a_resolution_shows_its_revision_alone(
    first: SchemaRuntime,
    first_next: DeployPipeline,
    first_source: SourceRevisionRecord,
    first_after: StoreView,
    second: SchemaRuntime,
    second_next: DeployPipeline,
    second_source: SourceRevisionRecord,
    second_after: StoreView,
)
    requires
        states_agree(first.store@, second.store@),
        first.is_correlated(),
        first.driven() == second.driven(),
        first_source.string@ == second_source.string@,
        first.resolves_store(first_after, first_next, first_source),
        second.resolves_store(second_after, second_next, second_source),
    ensures
        states_agree(first_after, second_after),
{
    let deployment = first.driven();
    lemma_record_agrees(first.store@, second.store@, deployment);
    lemma_first_key(record_keys(first.store@.deployments), deployment);
}

/// A recorded phase shows no raw source: over states that agree, events that agree
/// get the same receipt and leave states that agree.
pub proof fn law_a_phase_shows_no_raw_source(
    first: SchemaRuntime,
    first_event: DeploymentPhaseEvent,
    first_after: SchemaRuntime,
    first_output: SemaWriteOutput,
    second: SchemaRuntime,
    second_event: DeploymentPhaseEvent,
    second_after: SchemaRuntime,
    second_output: SemaWriteOutput,
)
    requires
        states_agree(first.store@, second.store@),
        events_agree(first_event, second_event),
        first.store@.has_record(first_event.deployment_identifier.0),
        first.writes(
            SemaWriteInput::RecordPhaseTransition(first_event),
            first_after,
            first_output,
        ),
        second.writes(
            SemaWriteInput::RecordPhaseTransition(second_event),
            second_after,
            second_output,
        ),
    ensures
        first_output == second_output,
        states_agree(first_after.store@, second_after.store@),
{
    let deployment = first_event.deployment_identifier.0;
    lemma_record_agrees(first.store@, second.store@, deployment);
    lemma_first_key(record_keys(first.store@.deployments), deployment);
}

/// An activation shows no raw source: over states that agree, the same deployment
/// put into effect with the same closure gets the same receipt and leaves states that
/// agree, whatever source the closure was built from.
pub proof fn law_an_activation_shows_no_raw_source(
    first: SchemaRuntime,
    first_commit: ActivationCommit,
    first_after: SchemaRuntime,
    first_output: SemaWriteOutput,
    second: SchemaRuntime,
    second_commit: ActivationCommit,
    second_after: SchemaRuntime,
    second_output: SemaWriteOutput,
)
    requires
        states_agree(first.store@, second.store@),
        live_generations_agree(
            first.activated_generation(first_commit),
            second.activated_generation(second_commit),
        ),
        first.writes(
            SemaWriteInput::RecordGenerationActivated(first_commit),
            first_after,
            first_output,
        ),
        second.writes(
            SemaWriteInput::RecordGenerationActivated(second_commit),
            second_after,
            second_output,
        ),
    ensures
        first_output == second_output,
        states_agree(first_after.store@, second_after.store@),
{
    let keys = live_keys(first.store@.live_set);
    assert forall|i: int| 0 <= i < keys.len() implies keys[i] == live_keys(
        second.store@.live_set,
    )[i] by {
        assert(live_generations_agree(first.store@.live_set[i], second.store@.live_set[i]));
    }
    assert(keys =~= live_keys(second.store@.live_set));
    lemma_first_key(keys, first_commit.generation_identifier.0);
}

/// The end of a deployment shows neither its proposal source nor its raw flake
/// reference: over states that agree, the same end gets the same reply and leaves
/// states that agree.
pub proof fn law_an_end_shows_no_raw_source(
    first: SchemaRuntime,
    first_after: SchemaRuntime,
    first_action: NexusAction,
    second: SchemaRuntime,
    second_after: SchemaRuntime,
    second_action: NexusAction,
    lifecycle: DeploymentLifecycle,
    terminal: DeploymentTerminal,
)
    requires
        states_agree(first.store@, second.store@),
        first.is_correlated(),
        first.driven() == second.driven(),
        first.ends(first.store@, first_after, first_action, lifecycle, terminal),
        second.ends(second.store@, second_after, second_action, lifecycle, terminal),
    ensures
        first_action matches NexusAction::ReplyToSignal(
            SignalOutput::MetaOutput(MetaEgress::DeployTerminal(one)),
        ) && second_action matches NexusAction::ReplyToSignal(
            SignalOutput::MetaOutput(MetaEgress::DeployTerminal(other)),
        ) && records_agree(one, other),
        states_agree(first_after.store@, second_after.store@),
{
    let deployment = first.driven();
    lemma_record_agrees(first.store@, second.store@, deployment);
    lemma_first_key(record_keys(first.store@.deployments), deployment);
}

proof fn lemma_selected_records_agree(
    selection: Selection,
    first: Seq<DeploymentRecord>,
    second: Seq<DeploymentRecord>,
)
    requires
        first.len() == second.len(),
        forall|i: int| 0 <= i < first.len() ==> records_agree(#[trigger] first[i], second[i]),
    ensures
        ({
            let one = selected_records(selection, first);
            let other = selected_records(selection, second);
            &&& one.len() == other.len()
            &&& forall|i: int| 0 <= i < one.len() ==> records_agree(#[trigger] one[i], other[i])
        }),
    decreases first.len(),
{
    if first.len() > 0 {
        assert(records_agree(first[first.len() - 1], second[second.len() - 1]));
        assert forall|i: int| 0 <= i < first.drop_last().len() implies records_agree(
            #[trigger] first.drop_last()[i],
            second.drop_last()[i],
        ) by {
            assert(first.drop_last()[i] == first[i]);
        }
        lemma_selected_records_agree(selection, first.drop_last(), second.drop_last());
    }
}

proof fn lemma_recorded_revisions_agree(
    first: Seq<DeploymentRecord>,
    second: Seq<DeploymentRecord>,
    deployment: u64,
)
    requires
        first.len() == second.len(),
        forall|i: int| 0 <= i < first.len() ==> records_agree(#[trigger] first[i], second[i]),
    ensures
        revision_view(recorded_revision(first, deployment)) == revision_view(
            recorded_revision(second, deployment),
        ),
    decreases first.len(),
{
    if first.len() > 0 {
        assert(records_agree(first[0], second[0]));
        assert forall|i: int| 0 <= i < first.skip(1).len() implies records_agree(
            #[trigger] first.skip(1)[i],
            second.skip(1)[i],
        ) by {
            assert(first.skip(1)[i] == first[i + 1]);
        }
        lemma_recorded_revisions_agree(first.skip(1), second.skip(1), deployment);
    }
}

proof fn lemma_shown_generations_agree(
    selection: Selection,
    first_live: Seq<LiveGeneration>,
    first: Seq<DeploymentRecord>,
    second_live: Seq<LiveGeneration>,
    second: Seq<DeploymentRecord>,
)
    requires
        first_live.len() == second_live.len(),
        forall|i: int|
            0 <= i < first_live.len() ==> live_generations_agree(
                #[trigger] first_live[i],
                second_live[i],
            ),
        first.len() == second.len(),
        forall|i: int| 0 <= i < first.len() ==> records_agree(#[trigger] first[i], second[i]),
    ensures
        ({
            let one = shown_generations(selection, first_live, first);
            let other = shown_generations(selection, second_live, second);
            &&& one.len() == other.len()
            &&& forall|i: int|
                0 <= i < one.len() ==> generations_agree(#[trigger] one[i], other[i])
        }),
    decreases first_live.len(),
{
    if first_live.len() > 0 {
        let last = first_live.len() - 1;
        assert(live_generations_agree(first_live[last], second_live[last]));
        assert forall|i: int| 0 <= i < first_live.drop_last().len() implies live_generations_agree(
            #[trigger] first_live.drop_last()[i],
            second_live.drop_last()[i],
        ) by {
            assert(first_live.drop_last()[i] == first_live[i]);
        }
        lemma_shown_generations_agree(
            selection,
            first_live.drop_last(),
            first,
            second_live.drop_last(),
            second,
        );
        lemma_recorded_revisions_agree(first, second, first_live.last().deployment_identifier.0);
    }
}

/// A listing shows neither proposal sources nor raw flake references: over states
/// that agree, a selection lists the same.
pub proof fn law_a_listing_shows_no_raw_source(
    first: SchemaRuntime,
    first_output: SemaReadOutput,
    second: SchemaRuntime,
    second_output: SemaReadOutput,
    selection: Selection,
)
    requires
        states_agree(first.store@, second.store@),
        first.lists_generations(selection, first_output),
        second.lists_generations(selection, second_output),
    ensures
        first_output matches SemaReadOutput::GenerationsQueried(one)
            && second_output matches SemaReadOutput::GenerationsQueried(other) && {
            &&& one.state_marker == other.state_marker
            &&& one.deployment_record_vector@.len() == other.deployment_record_vector@.len()
            &&& forall|i: int|
                0 <= i < one.deployment_record_vector@.len() ==> records_agree(
                    #[trigger] one.deployment_record_vector@[i],
                    other.deployment_record_vector@[i],
                )
            &&& one.generation_vector@.len() == other.generation_vector@.len()
            &&& forall|i: int|
                0 <= i < one.generation_vector@.len() ==> generations_agree(
                    #[trigger] one.generation_vector@[i],
                    other.generation_vector@[i],
                )
        },
{
    lemma_selected_records_agree(selection, first.store@.deployments, second.store@.deployments);
    lemma_shown_generations_agree(
        selection,
        first.store@.live_set,
        selected_records(selection, first.store@.deployments),
        second.store@.live_set,
        selected_records(selection, second.store@.deployments),
    );
}

proof fn lemma_entries_between_agree(
    first: Seq<EventLogEntry>,
    second: Seq<EventLogEntry>,
    from: u64,
    until: u64,
)
    requires
        first.len() == second.len(),
        forall|i: int| 0 <= i < first.len() ==> entries_agree(#[trigger] first[i], second[i]),
    ensures
        ({
            let one = entries_between(first, from, until);
            let other = entries_between(second, from, until);
            &&& one.len() == other.len()
            &&& forall|i: int| 0 <= i < one.len() ==> entries_agree(#[trigger] one[i], other[i])
        }),
    decreases first.len(),
{
    if first.len() > 0 {
        assert(entries_agree(first[first.len() - 1], second[second.len() - 1]));
        assert forall|i: int| 0 <= i < first.drop_last().len() implies entries_agree(
            #[trigger] first.drop_last()[i],
            second.drop_last()[i],
        ) by {
            assert(first.drop_last()[i] == first[i]);
        }
        lemma_entries_between_agree(first.drop_last(), second.drop_last(), from, until);
    }
}

proof fn lemma_logged_events_agree(first: Seq<EventLogEntry>, second: Seq<EventLogEntry>)
    requires
        first.len() == second.len(),
        forall|i: int| 0 <= i < first.len() ==> entries_agree(#[trigger] first[i], second[i]),
    ensures
        retention_events(first) == retention_events(second),
        ({
            let one = deployment_events(first);
            let other = deployment_events(second);
            &&& one.len() == other.len()
            &&& forall|i: int| 0 <= i < one.len() ==> events_agree(#[trigger] one[i], other[i])
        }),
    decreases first.len(),
{
    if first.len() > 0 {
        assert(entries_agree(first[first.len() - 1], second[second.len() - 1]));
        assert forall|i: int| 0 <= i < first.drop_last().len() implies entries_agree(
            #[trigger] first.drop_last()[i],
            second.drop_last()[i],
        ) by {
            assert(first.drop_last()[i] == first[i]);
        }
        lemma_logged_events_agree(first.drop_last(), second.drop_last());
    }
}

/// A page of the log shows neither proposal sources nor raw flake references: over
/// states that agree, a range that is not reversed reads the same.
pub proof fn law_the_log_shows_no_raw_source(
    first: SchemaRuntime,
    first_output: SemaReadOutput,
    second: SchemaRuntime,
    second_output: SemaReadOutput,
    range: EventLogRange,
)
    requires
        states_agree(first.store@, second.store@),
        first.reads_log(range, first_output),
        second.reads_log(range, second_output),
    ensures
        range.from.0 > range.until.0 ==> first_output == second_output,
        range.from.0 <= range.until.0 ==> (first_output matches SemaReadOutput::EventLogRead(one)
            && second_output matches SemaReadOutput::EventLogRead(other) && {
            &&& one.state_marker == other.state_marker
            &&& one.cache_retention_transition_event_vector@
                == other.cache_retention_transition_event_vector@
            &&& one.deployment_phase_event_vector@.len()
                == other.deployment_phase_event_vector@.len()
            &&& forall|i: int|
                0 <= i < one.deployment_phase_event_vector@.len() ==> events_agree(
                    #[trigger] one.deployment_phase_event_vector@[i],
                    other.deployment_phase_event_vector@[i],
                )
        }),
{
    let one = first.store@.events;
    let other = second.store@.events;
    lemma_entries_between_agree(one, other, range.from.0, range.until.0);
    lemma_logged_events_agree(
        entries_between(one, range.from.0, range.until.0),
        entries_between(other, range.from.0, range.until.0),
    );
}

} // verus!
