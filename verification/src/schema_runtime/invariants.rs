//! What every step of the engine keeps.

use crate::runtime_flow::{
    EffectCommand, EffectResult, HermeticCheckCommand, NexusAction, NexusWork,
};
use crate::runtime_model::{
    DeployJob, DeploymentPhaseEvent, DeploymentRecord, DeploySubmission, EventLogEntry, GcRoot,
    LiveGeneration, PhaseReceipt, PinRequest, RejectedDeploy, RetireRequest, Selection,
    SemaReadInput, SemaReadOutput, SemaWriteInput, SemaWriteOutput, StoredTestRun,
    TestRunIdentifier, UnpinRequest,
};
use crate::schema_runtime::effects::reads_output;
use crate::schema_runtime::engine::SchemaRuntime;
use crate::schema_runtime::meta::DeployRejectionReason;
use crate::schema_runtime::queries::{asks_for_run, deployment_events, shown_generations};
use crate::schema_runtime::requests::{
    AdmissionEvidence, deployment_lifecycle_of, public_run, stored_run,
};
use crate::schema_runtime::resume::{resume_plan, ResumePlan};
use crate::schema_runtime::runner::{RunnerStep, TestStep};
use crate::schema_runtime::store::{
    entry_of, first_key, intent_of, lemma_first_key, live_keys, outbox_of, record_keys, root_keys,
    run_keys, Store, StoreView,
};
use crate::schema_runtime::store_path::is_canonical_store_root;
use crate::schema_runtime::test_runs::{ClusterProjection, ResolvedTestRun};
use crate::schema_runtime::writes::{
    first_root, lemma_first_root, of_generation, pin_outcome, retire_outcome, unpin_outcome,
    with_label,
};
use vstd::prelude::*;

verus! {

// ---- the journal ---------------------------------------------------------------------------

/// Every deployment event of the log has, in order, its acknowledged intent, which
/// names the marker of the event's own commit, and its delivered outbox row.
pub open spec fn is_journalled(store: StoreView) -> bool {
    let events = deployment_events(store.events);
    &&& store.intents.len() == events.len()
    &&& store.outbox.len() == events.len()
    &&& forall|i: int|
        0 <= i < events.len() ==> {
            &&& #[trigger] store.intents[i] == intent_of(events[i], i as u64)
            &&& store.outbox[i] == outbox_of(events[i])
        }
}

proof fn lemma_deployment_event(entries: Seq<EventLogEntry>, event: DeploymentPhaseEvent)
    ensures
        deployment_events(entries.push(entry_of(event))) == deployment_events(entries).push(event),
{
    assert(entries.push(entry_of(event)).drop_last() =~= entries);
}

proof fn lemma_other_event(entries: Seq<EventLogEntry>, entry: EventLogEntry)
    requires
        !(entry.logged_event is Deployment),
    ensures
        deployment_events(entries.push(entry)) == deployment_events(entries),
{
    assert(entries.push(entry).drop_last() =~= entries);
}

/// An announced event is journalled.
proof fn lemma_announcements_are_journalled()
    ensures
        forall|store: StoreView, event: DeploymentPhaseEvent|
            is_journalled(store) ==> is_journalled(#[trigger] store.announced(event)),
        forall|store: StoreView, entry: EventLogEntry|
            is_journalled(store) && !(entry.logged_event is Deployment) ==> is_journalled(
                StoreView { events: #[trigger] store.events.push(entry), ..store },
            ),
{
    assert forall|store: StoreView, event: DeploymentPhaseEvent| is_journalled(store) implies is_journalled(
        #[trigger] store.announced(event),
    ) by {
        lemma_deployment_event(store.events, event);
        let after = store.announced(event);
        let events = deployment_events(after.events);
        assert forall|i: int| 0 <= i < events.len() implies {
            &&& #[trigger] after.intents[i] == intent_of(events[i], i as u64)
            &&& after.outbox[i] == outbox_of(events[i])
        } by {
            if i < store.intents.len() {
                assert(after.intents[i] == store.intents[i]);
            }
        }
    }
    assert forall|store: StoreView, entry: EventLogEntry|
        is_journalled(store) && !(entry.logged_event is Deployment) implies is_journalled(
        StoreView { events: #[trigger] store.events.push(entry), ..store },
    ) by {
        lemma_other_event(store.events, entry);
    }
}

/// Nothing is journalled before anything has happened.
pub proof fn law_an_empty_state_is_journalled(store: Store)
    requires
        store.is_virgin(),
    ensures
        is_journalled(store@),
        are_closures_canonical(store@),
{
    assert(deployment_events(store@.events) =~= Seq::empty());
}

/// A decision leaves the journal complete.
proof fn lemma_decisions_are_journalled(
    engine: SchemaRuntime,
    work: NexusWork,
    evidence: AdmissionEvidence,
    projection: Option<&ClusterProjection>,
    after: SchemaRuntime,
    action: NexusAction,
)
    requires
        is_journalled(engine.store@),
        engine.follows(work, evidence, projection, after, action),
    ensures
        is_journalled(after.store@),
{
    lemma_announcements_are_journalled();
}

/// A write leaves the journal complete.
proof fn lemma_writes_are_journalled(
    engine: SchemaRuntime,
    input: SemaWriteInput,
    after: SchemaRuntime,
    output: SemaWriteOutput,
)
    requires
        is_journalled(engine.store@),
        engine.writes(input, after, output),
    ensures
        is_journalled(after.store@),
{
    lemma_announcements_are_journalled();
}

/// Every event that a hop makes public is journalled with it.
pub proof fn law_every_event_is_journalled(
    engine: SchemaRuntime,
    work: NexusWork,
    evidence: AdmissionEvidence,
    projection: Option<&ClusterProjection>,
    after: SchemaRuntime,
    step: RunnerStep,
)
    requires
        is_journalled(engine.store@),
        engine.hops(work, evidence, projection, after, step),
    ensures
        is_journalled(after.store@),
{
    if engine.decision_fits(work, evidence, projection) {
        let (decided, action) = choose|decided: SchemaRuntime, action: NexusAction|
            {
                &&& #[trigger] engine.follows(work, evidence, projection, decided, action)
                &&& decided.carries_out(action, after, step)
            };
        lemma_decisions_are_journalled(engine, work, evidence, projection, decided, action);
        match (action, step) {
            (
                NexusAction::CommandSemaWrite(input),
                RunnerStep::Continue(NexusWork::SemaWriteCompleted(output)),
            ) => {
                if decided.write_fits(input) {
                    lemma_writes_are_journalled(decided, input, after, output);
                }
            },
            _ => {},
        }
    }
}

/// A submission is journalled, whether it is admitted or refused.
pub proof fn law_submissions_are_journalled(
    engine: SchemaRuntime,
    submission: DeploySubmission,
    reason: DeployRejectionReason,
    rejected: RejectedDeploy,
    after: SchemaRuntime,
)
    requires
        is_journalled(engine.store@),
        engine.admits(after, submission) || engine.refuses(after, submission, reason, rejected),
    ensures
        is_journalled(after.store@),
{
    lemma_announcements_are_journalled();
}

/// A test leaves the journal of deployments as it is.
pub proof fn law_tests_keep_the_journal(
    engine: SchemaRuntime,
    result: EffectResult,
    after: SchemaRuntime,
    action: NexusAction,
)
    requires
        is_journalled(engine.store@),
        engine.follows_test_effect(result, after, action),
    ensures
        is_journalled(after.store@),
        deployment_events(after.store@.events) == deployment_events(engine.store@.events),
{
    lemma_announcements_are_journalled();
    assert forall|entries: Seq<EventLogEntry>, entry: EventLogEntry|
        !(entry.logged_event is Deployment) implies deployment_events(
        #[trigger] entries.push(entry),
    ) == deployment_events(entries) by {
        lemma_other_event(entries, entry);
    }
}

/// A recorded phase is public under the marker of its own commit: the record, the
/// log, the outbox and the acknowledged intent of the deployment all say so, and
/// so does the receipt.
pub proof fn law_a_phase_is_public_under_its_own_commit(
    engine: SchemaRuntime,
    event: DeploymentPhaseEvent,
    after: SchemaRuntime,
    receipt: PhaseReceipt,
)
    requires
        engine.store@.has_record(event.deployment_identifier.0),
        engine.writes(
            SemaWriteInput::RecordPhaseTransition(event),
            after,
            SemaWriteOutput::PhaseRecorded(receipt),
        ),
    ensures
        ({
            let public = DeploymentPhaseEvent { state_marker: receipt.state_marker, ..event };
            &&& receipt.state_marker == engine.store@.next_marker()
            &&& after.store@.events.last() == entry_of(public)
            &&& after.store@.outbox.last() == outbox_of(public)
            &&& after.store@.intents.last() == intent_of(
                public,
                engine.store@.intents.len() as u64,
            )
            &&& after.store@.record(event.deployment_identifier.0).deployment_lifecycle
                == deployment_lifecycle_of(event.deployment_phase)
        }),
{
    let store = engine.store@;
    let deployment = event.deployment_identifier.0;
    let keys = record_keys(store.deployments);
    lemma_first_key(keys, deployment);
    let at = first_key(keys, deployment)->0;
    assert(keys[at] == store.deployments[at].deployment_identifier.0);
    let record = DeploymentRecord {
        deployment_lifecycle: deployment_lifecycle_of(event.deployment_phase),
        ..store.record(deployment)
    };
    assert(record_keys(store.with_record(record).deployments) =~= keys);
}

// ---- closures -------------------------------------------------------------------------------

/// Every live generation and every root stands for a canonical closure, and so does
/// every test run that has one.
pub open spec fn are_closures_canonical(store: StoreView) -> bool {
    &&& forall|i: int|
        0 <= i < store.live_set.len() ==> is_canonical_store_root(
            (#[trigger] store.live_set[i]).closure_path@,
        )
    &&& forall|i: int|
        0 <= i < store.roots.len() ==> is_canonical_store_root(
            (#[trigger] store.roots[i]).closure_path@,
        )
    &&& forall|i: int| 0 <= i < store.runs.len() ==> is_run_canonical(#[trigger] store.runs[i])
}

/// The closure of `run`, where it has one, is canonical.
pub open spec fn is_run_canonical(run: StoredTestRun) -> bool {
    run.optional_closure_path matches Some(closure_path) ==> is_canonical_store_root(closure_path@)
}

impl SchemaRuntime {
    /// Every closure that the engine keeps is canonical: those of the durable
    /// state, and the one of the deployment that is driven.
    pub open spec fn holds_canonical_closures(&self) -> bool {
        &&& are_closures_canonical(self.store@)
        &&& self.active_deploy matches Some(pipeline) ==> (pipeline.closure_path matches Some(
            closure_path,
        ) ==> is_canonical_store_root(closure_path@))
    }
}

proof fn lemma_activation_keeps_closures(store: StoreView, generation: LiveGeneration, root: GcRoot)
    requires
        are_closures_canonical(store),
        is_canonical_store_root(generation.closure_path@),
        is_canonical_store_root(root.closure_path@),
    ensures
        are_closures_canonical(store.after_activation(generation, root)),
{
    lemma_first_key(live_keys(store.live_set), generation.generation_identifier.0);
    lemma_first_key(root_keys(store.roots), root.generation_identifier.0);
    let after = store.after_activation(generation, root);
    assert forall|i: int| 0 <= i < after.live_set.len() implies is_canonical_store_root(
        (#[trigger] after.live_set[i]).closure_path@,
    ) by {
        if i < store.live_set.len() && after.live_set[i] != generation {
            assert(after.live_set[i] == store.live_set[i]);
        }
    }
    assert forall|i: int| 0 <= i < after.roots.len() implies is_canonical_store_root(
        (#[trigger] after.roots[i]).closure_path@,
    ) by {
        if i < store.roots.len() && after.roots[i] != root {
            assert(after.roots[i] == store.roots[i]);
        }
    }
}

proof fn lemma_pin_keeps_closures(store: StoreView, request: PinRequest)
    requires
        are_closures_canonical(store),
    ensures
        are_closures_canonical(pin_outcome(store, request).0),
{
    let wanted = of_generation(
        request.generation_identifier.0,
        request.cluster_name@,
        request.node_name@,
    );
    lemma_first_root(store.roots, wanted);
    let after = pin_outcome(store, request).0;
    assert forall|i: int| 0 <= i < after.roots.len() implies is_canonical_store_root(
        (#[trigger] after.roots[i]).closure_path@,
    ) by {
        assert(after.roots[i].closure_path == store.roots[i].closure_path);
    }
}

proof fn lemma_unpin_keeps_closures(store: StoreView, request: UnpinRequest)
    requires
        are_closures_canonical(store),
    ensures
        are_closures_canonical(unpin_outcome(store, request).0),
{
    let wanted = with_label(request.pin_label@, request.cluster_name@, request.node_name@);
    lemma_first_root(store.roots, wanted);
    let after = unpin_outcome(store, request).0;
    assert forall|i: int| 0 <= i < after.roots.len() implies is_canonical_store_root(
        (#[trigger] after.roots[i]).closure_path@,
    ) by {
        assert(after.roots[i].closure_path == store.roots[i].closure_path);
    }
}

proof fn lemma_retirement_keeps_closures(store: StoreView, request: RetireRequest)
    requires
        are_closures_canonical(store),
    ensures
        are_closures_canonical(retire_outcome(store, request).0),
{
    let wanted = of_generation(
        request.generation_identifier.0,
        request.cluster_name@,
        request.node_name@,
    );
    lemma_first_root(store.roots, wanted);
    let after = retire_outcome(store, request).0;
    if after.roots != store.roots {
        let at = first_root(store.roots, wanted)->0;
        assert forall|i: int| 0 <= i < after.roots.len() implies is_canonical_store_root(
            (#[trigger] after.roots[i]).closure_path@,
        ) by {
            if i < at {
                assert(after.roots[i] == store.roots[i]);
            } else {
                assert(after.roots[i] == store.roots[i + 1]);
            }
        }
    }
}

proof fn lemma_run_keeps_closures(store: StoreView, run: StoredTestRun)
    requires
        are_closures_canonical(store),
        is_run_canonical(run),
    ensures
        are_closures_canonical(store.after_run(run)),
{
    lemma_first_key(run_keys(store.runs), run.test_run_identifier.0);
    let after = store.after_run(run);
    assert forall|i: int| 0 <= i < after.runs.len() implies is_run_canonical(
        #[trigger] after.runs[i],
    ) by {
        if i < store.runs.len() && after.runs[i] != run {
            assert(after.runs[i] == store.runs[i]);
        }
    }
}

/// A write keeps closures canonical, where the activation or the test run that it
/// writes has a canonical one.
pub proof fn law_writes_keep_closures_canonical(
    engine: SchemaRuntime,
    input: SemaWriteInput,
    after: SchemaRuntime,
    output: SemaWriteOutput,
)
    requires
        engine.holds_canonical_closures(),
        input is RecordPhaseTransition || input is RecordGenerationActivated
            ==> engine.active_deploy is Some,
        engine.writes(input, after, output),
        input matches SemaWriteInput::RecordGenerationActivated(commit) ==> is_canonical_store_root(
            commit.closure_path@,
        ),
        input matches SemaWriteInput::RecordTestRun(record) ==> is_run_canonical(
            stored_run(record),
        ),
    ensures
        after.holds_canonical_closures(),
{
    match input {
        SemaWriteInput::RecordTestRun(record) => {
            lemma_run_keeps_closures(engine.store@, stored_run(record));
        },
        SemaWriteInput::RecordGenerationActivated(commit) => {
            lemma_activation_keeps_closures(
                engine.store@,
                engine.activated_generation(commit),
                engine.activated_root(commit),
            );
        },
        SemaWriteInput::PinGeneration(request) => {
            lemma_pin_keeps_closures(engine.store@, request);
        },
        SemaWriteInput::UnpinGeneration(request) => {
            lemma_unpin_keeps_closures(engine.store@, request);
        },
        SemaWriteInput::RetireGeneration(request) => {
            lemma_retirement_keeps_closures(engine.store@, request);
        },
        _ => {},
    }
}

/// A decision keeps closures canonical, and what it asks to record has a canonical
/// closure or none.
pub proof fn law_decisions_keep_closures_canonical(
    engine: SchemaRuntime,
    work: NexusWork,
    evidence: AdmissionEvidence,
    projection: Option<&ClusterProjection>,
    after: SchemaRuntime,
    action: NexusAction,
)
    requires
        engine.holds_canonical_closures(),
        engine.can_decide(work, evidence),
        engine.follows(work, evidence, projection, after, action),
    ensures
        after.holds_canonical_closures(),
        action matches NexusAction::CommandSemaWrite(
            SemaWriteInput::RecordGenerationActivated(commit),
        ) ==> after.active_deploy is Some && is_canonical_store_root(commit.closure_path@),
        action matches NexusAction::CommandSemaWrite(SemaWriteInput::RecordPhaseTransition(_))
            ==> after.active_deploy is Some,
        action matches NexusAction::CommandSemaWrite(SemaWriteInput::RecordTestRun(record))
            ==> is_run_canonical(stored_run(record)),
{
}

/// A hop keeps closures canonical: whatever an effect returns, only canonical
/// closures become live generations and roots.
pub proof fn law_kept_closures_are_canonical(
    engine: SchemaRuntime,
    work: NexusWork,
    evidence: AdmissionEvidence,
    projection: Option<&ClusterProjection>,
    after: SchemaRuntime,
    step: RunnerStep,
)
    requires
        engine.holds_canonical_closures(),
        engine.can_decide(work, evidence),
        engine.hops(work, evidence, projection, after, step),
    ensures
        after.holds_canonical_closures(),
{
    if engine.decision_fits(work, evidence, projection) {
        let (decided, action) = choose|decided: SchemaRuntime, action: NexusAction|
            {
                &&& #[trigger] engine.follows(work, evidence, projection, decided, action)
                &&& decided.carries_out(action, after, step)
            };
        law_decisions_keep_closures_canonical(
            engine,
            work,
            evidence,
            projection,
            decided,
            action,
        );
        match (action, step) {
            (
                NexusAction::CommandSemaWrite(input),
                RunnerStep::Continue(NexusWork::SemaWriteCompleted(output)),
            ) => {
                if decided.write_fits(input) {
                    law_writes_keep_closures_canonical(decided, input, after, output);
                }
            },
            _ => {},
        }
    }
}

/// A submission keeps closures canonical, whether it is admitted or refused.
pub proof fn law_submissions_keep_closures_canonical(
    engine: SchemaRuntime,
    submission: DeploySubmission,
    reason: DeployRejectionReason,
    rejected: RejectedDeploy,
    after: SchemaRuntime,
)
    requires
        engine.holds_canonical_closures(),
        engine.admits(after, submission) || engine.refuses(after, submission, reason, rejected),
    ensures
        after.holds_canonical_closures(),
{
}

/// A submitted test keeps closures canonical: its pending row has none.
pub proof fn law_a_submitted_test_keeps_closures_canonical(
    engine: SchemaRuntime,
    run: ResolvedTestRun,
    identifier: TestRunIdentifier,
    after: SchemaRuntime,
)
    requires
        engine.holds_canonical_closures(),
        after.store@ == engine.store@.after_run(
            stored_run(SchemaRuntime::pending_row(run, identifier)),
        ),
        after.active_deploy == engine.active_deploy,
    ensures
        after.holds_canonical_closures(),
{
    lemma_run_keeps_closures(
        engine.store@,
        stored_run(SchemaRuntime::pending_row(run, identifier)),
    );
}

/// The effects of a test keep closures canonical: where a test passes, its row takes
/// the closure that was read from the output of its check, and only a canonical one
/// is read from there.
pub proof fn law_tests_keep_closures_canonical(
    engine: SchemaRuntime,
    command: HermeticCheckCommand,
    output: Result<String, String>,
    result: EffectResult,
    after: SchemaRuntime,
    action: NexusAction,
)
    requires
        engine.holds_canonical_closures(),
        result is HermeticCheckBuilt ==> reads_output(
            EffectCommand::HermeticCheck(command),
            output,
            result,
        ),
        engine.follows_test_effect(result, after, action),
    ensures
        after.holds_canonical_closures(),
{
    assert forall|store: StoreView, run: StoredTestRun|
        are_closures_canonical(store) && is_run_canonical(run) implies are_closures_canonical(
        #[trigger] store.after_run(run),
    ) by {
        lemma_run_keeps_closures(store, run);
    }
}

/// Driving a test on keeps closures canonical, where what it is to write has a
/// canonical one or none.
pub proof fn law_driven_tests_keep_closures_canonical(
    engine: SchemaRuntime,
    action: NexusAction,
    after: SchemaRuntime,
    step: TestStep,
)
    requires
        engine.holds_canonical_closures(),
        engine.can_drive_test(action),
        action matches NexusAction::CommandSemaWrite(
            SemaWriteInput::RecordGenerationActivated(commit),
        ) ==> is_canonical_store_root(commit.closure_path@),
        action matches NexusAction::CommandSemaWrite(SemaWriteInput::RecordTestRun(record))
            ==> is_run_canonical(stored_run(record)),
        engine.drives_test(action, after, step),
    ensures
        after.holds_canonical_closures(),
{
    match action {
        NexusAction::CommandSemaWrite(input) => {
            let (written, output) = choose|written: SchemaRuntime, output: SemaWriteOutput|
                {
                    &&& #[trigger] engine.writes(input, written, output)
                    &&& if written.completion_fits(output) {
                        step matches TestStep::Again(next) && written.follows_write(
                            output,
                            after,
                            next,
                        )
                    } else {
                        &&& step == TestStep::Done(written.broken_test())
                        &&& after == written
                    }
                };
            law_writes_keep_closures_canonical(engine, input, written, output);
            if written.completion_fits(output) {
                law_decisions_keep_closures_canonical(
                    written,
                    NexusWork::SemaWriteCompleted(output),
                    AdmissionEvidence { proposal_available: true, user_name_admitted: true },
                    None,
                    after,
                    step->Again_0,
                );
            }
        },
        _ => {},
    }
}

/// A restart takes up no closure that is not canonical, and leaves the journal as
/// it is.
pub proof fn law_a_restart_keeps_closures_and_journal(
    engine: SchemaRuntime,
    job: DeployJob,
    after: SchemaRuntime,
)
    requires
        are_closures_canonical(engine.store@),
        is_journalled(engine.store@),
        resume_plan(engine.store@, job) matches ResumePlan::Resume { receipt, recovered }
            && after.active_deploy matches Some(pipeline) && pipeline.resumes(
            job,
            engine.store@.record(job.deployment_identifier.0).optional_admission_marker->0,
            receipt,
        ) && after.store@ == (if recovered {
            engine.store@.with_job(pipeline.job(job.deploy_job_phase)).committed()
        } else {
            engine.store@
        }),
    ensures
        after.holds_canonical_closures(),
        is_journalled(after.store@),
{
}

proof fn lemma_shown_closures(
    selection: Selection,
    live_set: Seq<LiveGeneration>,
    records: Seq<DeploymentRecord>,
)
    requires
        forall|i: int|
            0 <= i < live_set.len() ==> is_canonical_store_root(
                (#[trigger] live_set[i]).closure_path@,
            ),
    ensures
        forall|i: int|
            0 <= i < shown_generations(selection, live_set, records).len()
                ==> is_canonical_store_root(
                (#[trigger] shown_generations(selection, live_set, records)[i]).closure_path@,
            ),
    decreases live_set.len(),
{
    if live_set.len() > 0 {
        let rest = live_set.drop_last();
        assert forall|i: int| 0 <= i < rest.len() implies is_canonical_store_root(
            (#[trigger] rest[i]).closure_path@,
        ) by {
            assert(rest[i] == live_set[i]);
        }
        lemma_shown_closures(selection, rest, records);
        assert(live_set[live_set.len() - 1] == live_set.last());
    }
}

/// No query shows a closure that is not canonical: neither a listing of generations
/// nor one of test runs, and the other queries show none at all.
pub proof fn law_shown_closures_are_canonical(
    engine: SchemaRuntime,
    input: SemaReadInput,
    output: SemaReadOutput,
)
    requires
        are_closures_canonical(engine.store@),
        engine.observes(input, output),
    ensures
        match output {
            SemaReadOutput::GenerationsQueried(listing) => forall|i: int|
                0 <= i < listing.generation_vector@.len() ==> is_canonical_store_root(
                    (#[trigger] listing.generation_vector@[i]).closure_path@,
                ),
            SemaReadOutput::TestRunsQueried(listing) => forall|i: int|
                0 <= i < listing.test_run_record_vector@.len() ==> ((
                #[trigger] listing.test_run_record_vector@[i]).optional_closure_path matches Some(
                    closure_path,
                ) ==> is_canonical_store_root(closure_path@)),
            _ => true,
        },
{
    match (input, output) {
        (
            SemaReadInput::QueryGenerations(selection),
            SemaReadOutput::GenerationsQueried(listing),
        ) => {
            lemma_shown_closures(
                selection,
                engine.store@.live_set,
                listing.deployment_record_vector@,
            );
        },
        (SemaReadInput::QueryTestRuns(lookup), SemaReadOutput::TestRunsQueried(listing)) => {
            let shown = listing.test_run_record_vector@;
            let runs = engine.store@.runs;
            assert forall|i: int| 0 <= i < shown.len() implies ((
            #[trigger] shown[i]).optional_closure_path matches Some(closure_path)
                ==> is_canonical_store_root(closure_path@)) by {
                assert(shown.contains(shown[i]));
                let at = choose|at: int|
                    0 <= at < runs.len() && asks_for_run(lookup, #[trigger] runs[at]) && shown[i]
                        == public_run(runs[at]);
                assert(is_run_canonical(runs[at]));
            }
        },
        _ => {},
    }
}

} // verus!
