//! How requests are answered: which reason a refusal gives, what a check of key
//! material reports, and that nothing is left undone while there is room.

use crate::runtime_flow::{EffectResult, NexusAction, NexusWork, SignalInput, SignalOutput};
use crate::runtime_model::{
    ContainerTransition, DeploymentLifecycle, DeploymentPhase, DeploymentTerminal,
    DeploySubmission, KeyMaterialQuery, LoggedEvent, MetaEgress, MetaIngress, OrdinaryEgress,
    OrdinaryIngress, PinRejectionReason, RejectionReason, RejectionReport, RetireRejectionReason,
    SemaReadOutput, SemaWriteInput, SemaWriteOutput, StoredTestRun, TestRejectionReason,
    TestRunRecord, UnpinRejectionReason,
};
use crate::schema_runtime::admissions::is_public_reason;
use crate::schema_runtime::engine::{MetaOperation, SchemaRuntime};
use crate::schema_runtime::meta::DeployRejectionReason;
use crate::schema_runtime::requests::{
    admission_fault, AdmissionEvidence, deploy_reason_of, deployment_lifecycle_of,
};
use crate::schema_runtime::runner::{RunnerStep, TestStep};
use crate::schema_runtime::store::{
    first_key, largest, lemma_first_key, phase_of, record_keys, run_keys, StoreView,
};
use crate::schema_runtime::test_runs::ClusterProjection;
use crate::schema_runtime::trials::row_of;
use vstd::prelude::*;

verus! {

// ---- reasons --------------------------------------------------------------------------------

/// A refused write is answered to the operation that asked for it, with the reason that
/// it was refused for where the operation has a name for it, and leaves the state as it
/// was.
pub proof fn law_a_refused_write_keeps_its_reason(
    engine: SchemaRuntime,
    report: RejectionReport,
    after: SchemaRuntime,
    action: NexusAction,
)
    requires
        engine.active_operation is Some,
        engine.refuses_write(report, after, action),
    ensures
        after.store == engine.store,
        after.active_operation is None,
        ({
            let reason = report.rejection_reason;
            match engine.active_operation->0 {
                MetaOperation::Pin => action matches NexusAction::ReplyToSignal(
                    SignalOutput::MetaOutput(MetaEgress::PinRejected(rejected)),
                ) && rejected.state_marker == report.state_marker
                    && match rejected.pin_rejection_reason {
                    PinRejectionReason::GenerationUnknown => reason
                        == RejectionReason::GenerationUnknown,
                    PinRejectionReason::NodeUnknown => reason == RejectionReason::NodeUnknown,
                    PinRejectionReason::PinLabelInUse => reason == RejectionReason::PinLabelInUse,
                    PinRejectionReason::InternalError => reason
                        != RejectionReason::GenerationUnknown && reason
                        != RejectionReason::NodeUnknown && reason
                        != RejectionReason::PinLabelInUse,
                    _ => false,
                },
                MetaOperation::Unpin => action matches NexusAction::ReplyToSignal(
                    SignalOutput::MetaOutput(MetaEgress::UnpinRejected(rejected)),
                ) && rejected.state_marker == report.state_marker
                    && match rejected.unpin_rejection_reason {
                    UnpinRejectionReason::PinLabelUnknown => reason
                        == RejectionReason::PinLabelUnknown,
                    UnpinRejectionReason::NodeUnknown => reason == RejectionReason::NodeUnknown,
                    UnpinRejectionReason::GenerationNotPinned => reason
                        != RejectionReason::PinLabelUnknown && reason
                        != RejectionReason::NodeUnknown,
                    _ => false,
                },
                MetaOperation::Retire => action matches NexusAction::ReplyToSignal(
                    SignalOutput::MetaOutput(MetaEgress::RetireRejected(rejected)),
                ) && rejected.state_marker == report.state_marker
                    && match rejected.retire_rejection_reason {
                    RetireRejectionReason::GenerationUnknown => reason
                        == RejectionReason::GenerationUnknown,
                    RetireRejectionReason::NodeUnknown => reason == RejectionReason::NodeUnknown,
                    RetireRejectionReason::GenerationActive => reason
                        == RejectionReason::GenerationActive,
                    RetireRejectionReason::GenerationPinned => reason
                        == RejectionReason::GenerationPinned,
                    RetireRejectionReason::InternalError => reason
                        != RejectionReason::GenerationUnknown && reason
                        != RejectionReason::NodeUnknown && reason
                        != RejectionReason::GenerationActive && reason
                        != RejectionReason::GenerationPinned,
                },
                _ => action matches NexusAction::ReplyToSignal(
                    SignalOutput::MetaOutput(MetaEgress::TestRejected(rejected)),
                ) && rejected.state_marker == report.state_marker
                    && match rejected.test_rejection_reason {
                    TestRejectionReason::ClusterUnknown => reason
                        == RejectionReason::ClusterUnknown,
                    TestRejectionReason::NodeUnknown => reason == RejectionReason::NodeUnknown,
                    TestRejectionReason::InternalError => reason
                        != RejectionReason::ClusterUnknown && reason
                        != RejectionReason::NodeUnknown,
                    _ => false,
                },
            }
        }),
{
}

/// A deployment that the store refuses keeps the reasons that both know.
pub proof fn law_a_refused_deployment_keeps_its_reason(reason: RejectionReason)
    ensures
        deploy_reason_of(reason) == DeployRejectionReason::ClusterUnknown <==> reason
            == RejectionReason::ClusterUnknown,
        deploy_reason_of(reason) == DeployRejectionReason::NodeUnknown <==> reason
            == RejectionReason::NodeUnknown,
        deploy_reason_of(reason) == DeployRejectionReason::ProposalSourceUnreachable <==> reason
            == RejectionReason::ProposalSourceUnreachable,
        deploy_reason_of(reason) == DeployRejectionReason::InternalError <==> reason
            != RejectionReason::ClusterUnknown && reason != RejectionReason::NodeUnknown && reason
            != RejectionReason::ProposalSourceUnreachable,
{
}

/// The lifecycle of a phase is announced as that phase again.
pub proof fn law_a_lifecycle_is_announced_as_its_phase(phase: DeploymentPhase)
    ensures
        phase_of(deployment_lifecycle_of(phase)) == phase,
{
}

/// A deployment that is refused while it is driven is answered with its record, which
/// says that it was rejected and why; the log says the same.
pub proof fn law_a_refused_request_is_answered_with_its_record(
    engine: SchemaRuntime,
    request: DeploySubmission,
    evidence: AdmissionEvidence,
    projection: Option<&ClusterProjection>,
    after: SchemaRuntime,
    action: NexusAction,
)
    requires
        engine.is_correlated(),
        admission_fault(request, evidence) is Some,
        engine.follows_meta(MetaIngress::Deploy(request), evidence, projection, after, action),
    ensures
        action matches NexusAction::ReplyToSignal(
            SignalOutput::MetaOutput(MetaEgress::DeployRejected(rejected)),
        ) && {
            let record = rejected.0;
            &&& record.deployment_identifier.0 == engine.driven()
            &&& record.deployment_lifecycle == DeploymentLifecycle::Rejected
            &&& record.optional_deployment_terminal matches Some(
                DeploymentTerminal::Rejected(named),
            ) && is_public_reason(admission_fault(request, evidence)->0, named)
            &&& record.optional_terminal_marker matches Some(marker)
                && marker.0.commit_sequence.0 == after.store@.commits
            &&& after.store@.record(engine.driven()) == record
            &&& after.store@.events.last().logged_event matches LoggedEvent::Deployment(event) && {
                &&& event.deployment_identifier == record.deployment_identifier
                &&& event.deployment_phase == DeploymentPhase::Rejected
                &&& event.optional_deployment_terminal == record.optional_deployment_terminal
            }
        },
{
    let store = engine.store@;
    let keys = record_keys(store.deployments);
    lemma_first_key(keys, engine.driven());
    let at = first_key(keys, engine.driven())->0;
    assert(keys[at] == store.deployments[at].deployment_identifier.0);
    assert(record_keys(after.store@.deployments) =~= keys);
}

/// A request that is admitted is written down as it came, and nothing else is done yet.
pub proof fn law_an_admitted_request_is_written_down(
    engine: SchemaRuntime,
    request: DeploySubmission,
    evidence: AdmissionEvidence,
    projection: Option<&ClusterProjection>,
    after: SchemaRuntime,
    action: NexusAction,
)
    requires
        admission_fault(request, evidence) is None,
        engine.follows_meta(MetaIngress::Deploy(request), evidence, projection, after, action),
    ensures
        action == NexusAction::CommandSemaWrite(SemaWriteInput::RecordDeploySubmitted(request)),
        after.store == engine.store,
        after.active_operation == Some(MetaOperation::Deploy),
{
}

// ---- key material, test runs and containers -------------------------------------------------

/// A check of key material reports on the asked host, lists nothing as missing, and
/// changes nothing.
pub proof fn law_key_material_is_reported_for_the_asked_host(
    engine: SchemaRuntime,
    query: KeyMaterialQuery,
    asked: SchemaRuntime,
    action: NexusAction,
    output: SemaReadOutput,
    evidence: AdmissionEvidence,
    projection: Option<&ClusterProjection>,
    answered: SchemaRuntime,
    answer: NexusAction,
)
    requires
        engine.follows_ordinary(OrdinaryIngress::CheckHostKeyMaterial(query), asked, action),
        action matches NexusAction::CommandSemaRead(input) && asked.observes(input, output),
        asked.follows(
            NexusWork::SemaReadCompleted(output),
            evidence,
            projection,
            answered,
            answer,
        ),
    ensures
        answered == engine,
        answer matches NexusAction::ReplyToSignal(
            SignalOutput::OrdinaryOutput(OrdinaryEgress::KeyMaterialChecked(report)),
        ) && report.node_name == query.node_name && report.string_vector@.len() == 0
            && report.state_marker.commit_sequence.0 == engine.store@.commits,
{
}

/// A recorded test run is kept as it was recorded, in its own row, and answered with
/// its number; every other row stays.
pub proof fn law_a_recorded_run_is_kept(
    engine: SchemaRuntime,
    record: TestRunRecord,
    written: SchemaRuntime,
    output: SemaWriteOutput,
    after: SchemaRuntime,
    action: NexusAction,
)
    requires
        engine.store@.fits(1, 0),
        engine.writes(SemaWriteInput::RecordTestRun(record), written, output),
        written.follows_write(output, after, action),
    ensures
        ({
            let row = row_of(written.store@, record.test_run_identifier.0);
            &&& row.test_run_identifier == record.test_run_identifier
            &&& row.cluster_name == record.cluster_name
            &&& row.node == record.node
            &&& row.host == record.host
            &&& row.test_mode == record.test_mode
            &&& row.test_run_phase == record.test_run_phase
            &&& row.test_outcome == record.test_outcome
            &&& row.optional_closure_path == record.optional_closure_path
            &&& forall|other: StoredTestRun|
                engine.store@.runs.contains(other) && other.test_run_identifier
                    != record.test_run_identifier ==> #[trigger] written.store@.runs.contains(
                    other,
                )
        }),
        written.store@.commits == engine.store@.commits + 1,
        after.store == written.store,
        action matches NexusAction::ReplyToSignal(
            SignalOutput::MetaOutput(MetaEgress::Tested(accepted)),
        ) && accepted.test_run_identifier == record.test_run_identifier
            && accepted.state_marker.commit_sequence.0 == written.store@.commits,
{
    let identifier = record.test_run_identifier.0;
    let before = engine.store@.runs;
    let keys = run_keys(before);
    lemma_first_key(keys, identifier);
    let after_keys = run_keys(written.store@.runs);
    match first_key(keys, identifier) {
        Some(at) => {
            assert(after_keys =~= keys);
        },
        None => {
            assert(after_keys =~= keys.push(identifier));
            assert(after_keys[keys.len() as int] == identifier);
            assert(after_keys.contains(identifier));
            lemma_first_key(after_keys, identifier);
            let at = first_key(after_keys, identifier)->0;
            if at < keys.len() {
                assert(keys[at] == identifier);
                assert(keys.contains(identifier));
            }
        },
    }
    assert forall|other: StoredTestRun|
        before.contains(other) && other.test_run_identifier
            != record.test_run_identifier implies #[trigger] written.store@.runs.contains(other) by {
        let i = choose|i: int| 0 <= i < before.len() && before[i] == other;
        assert(keys[i] == other.test_run_identifier.0);
        assert(written.store@.runs[i] == other);
    }
}

/// A change of a container is kept and logged at one position, the next one.
pub proof fn law_a_container_change_is_kept_and_logged(
    engine: SchemaRuntime,
    transition: ContainerTransition,
    after: SchemaRuntime,
    output: SemaWriteOutput,
)
    requires
        engine.store@.fits(2, 1),
        engine.writes(SemaWriteInput::RecordContainerTransition(transition), after, output),
    ensures
        ({
            let before = engine.store@;
            let store = after.store@;
            let kept = store.containers.last();
            &&& store.containers == before.containers.push(kept)
            &&& kept.cluster_name == transition.cluster_name
            &&& kept.node_name == transition.node_name
            &&& kept.container_name == transition.container_name
            &&& kept.container_state == transition.container_state
            &&& kept.event_log_position.0 == before.allocation.next_event_log_position
            &&& store.events == before.events.push(store.events.last())
            &&& store.events.last().event_log_position == kept.event_log_position
            &&& store.events.last().logged_event == LoggedEvent::Container(kept)
            &&& store.allocation.next_event_log_position
                == before.allocation.next_event_log_position + 1
            &&& output matches SemaWriteOutput::ContainerRecorded(receipt)
                && receipt.event_log_position == kept.event_log_position
                && receipt.state_marker.commit_sequence.0 == store.commits
            &&& store.live_set == before.live_set
            &&& store.roots == before.roots
            &&& store.deployments == before.deployments
        }),
{
}

// ---- room -----------------------------------------------------------------------------------

/// There is room for a few more of everything that is numbered.
pub open spec fn has_some_room(store: StoreView) -> bool {
    &&& store.commits <= u64::MAX - 3
    &&& store.allocation.next_event_log_position <= u64::MAX - 1
    &&& store.allocation.next_deployment_identifier < u64::MAX
    &&& store.allocation.next_generation_identifier < u64::MAX
    &&& store.next_token < u64::MAX
    &&& forall|i: int|
        0 <= i < store.runs.len() ==> (#[trigger] store.runs[i]).test_run_identifier.0 < u64::MAX
}

/// While there is room, everything can be decided and written.
pub proof fn law_nothing_is_left_undone_while_there_is_room(
    engine: SchemaRuntime,
    work: NexusWork,
    evidence: AdmissionEvidence,
    projection: Option<&ClusterProjection>,
    input: SemaWriteInput,
)
    requires
        has_some_room(engine.store@),
    ensures
        engine.decision_fits(work, evidence, projection),
        engine.write_fits(input),
        engine.begin_fits(),
        engine.test_effect_fits(work->EffectCompleted_0),
{
    lemma_largest_has_room(engine.store@.runs);
}

proof fn lemma_largest_has_room(runs: Seq<StoredTestRun>)
    requires
        forall|i: int|
            0 <= i < runs.len() ==> (#[trigger] runs[i]).test_run_identifier.0 < u64::MAX,
    ensures
        largest(run_keys(runs)) < u64::MAX,
    decreases runs.len(),
{
    if runs.len() > 0 {
        let rest = runs.drop_last();
        assert forall|i: int| 0 <= i < rest.len() implies (
        #[trigger] rest[i]).test_run_identifier.0 < u64::MAX by {
            assert(rest[i] == runs[i]);
        }
        lemma_largest_has_room(rest);
        assert(run_keys(runs).drop_last() =~= run_keys(rest));
        assert(run_keys(runs).last() == runs[runs.len() - 1].test_run_identifier.0);
    }
}

/// What was decided is what is done next: a reply is given, an effect is run, work is
/// gone on with, and a read or a write is answered with its own outcome.
pub proof fn law_what_was_decided_is_done(
    engine: SchemaRuntime,
    action: NexusAction,
    after: SchemaRuntime,
    step: RunnerStep,
)
    requires
        engine.carries_out(action, after, step),
    ensures
        match action {
            NexusAction::ReplyToSignal(output) => step == RunnerStep::Reply(output) && after
                == engine,
            NexusAction::CommandEffect(command) => step == RunnerStep::RunEffect(command) && after
                == engine,
            NexusAction::Continue(work) => step == RunnerStep::Continue(work) && after == engine,
            NexusAction::CommandSemaRead(input) => after == engine && (
            step matches RunnerStep::Continue(NexusWork::SemaReadCompleted(output))
                && engine.observes(input, output)),
            NexusAction::CommandSemaWrite(input) => {
                &&& step is Unwritten ==> step == RunnerStep::Unwritten(input) && after == engine
                &&& !(step is Unwritten) ==> (step matches RunnerStep::Continue(
                    NexusWork::SemaWriteCompleted(output),
                ) && engine.writes(input, after, output))
                &&& has_some_room(engine.store@) ==> !(step is Unwritten)
            },
        },
{
    match action {
        NexusAction::CommandSemaWrite(input) => {
            if has_some_room(engine.store@) {
                lemma_largest_has_room(engine.store@.runs);
            }
        },
        _ => {},
    }
}

/// A test is driven as was decided: a reply ends it, an effect is run, and what was
/// written is gone on from; anything else breaks it off.
pub proof fn law_a_test_is_driven_as_decided(
    engine: SchemaRuntime,
    action: NexusAction,
    after: SchemaRuntime,
    step: TestStep,
)
    requires
        engine.drives_test(action, after, step),
    ensures
        match action {
            NexusAction::ReplyToSignal(SignalOutput::MetaOutput(output)) => step == TestStep::Done(
                output,
            ) && after == engine,
            NexusAction::CommandEffect(command) => step == TestStep::RunEffect(command) && after
                == engine,
            NexusAction::CommandSemaWrite(_) => step is Again || is_broken_off(step),
            _ => is_broken_off(step) && after == engine,
        },
{
}

/// Whether a test was broken off for an internal error.
pub open spec fn is_broken_off(step: TestStep) -> bool {
    step matches TestStep::Done(MetaEgress::TestRejected(rejected))
        && rejected.test_rejection_reason == TestRejectionReason::InternalError
}

/// An effect that no test waits for is refused, and changes nothing.
pub proof fn law_an_effect_without_its_test_is_refused(
    engine: SchemaRuntime,
    result: EffectResult,
    after: SchemaRuntime,
    action: NexusAction,
)
    requires
        engine.active_test is None,
        engine.follows_test_effect(result, after, action),
    ensures
        after == engine,
        action matches NexusAction::ReplyToSignal(
            SignalOutput::MetaOutput(MetaEgress::TestRejected(rejected)),
        ) && rejected.test_rejection_reason == TestRejectionReason::InternalError
            && rejected.state_marker.commit_sequence.0 == engine.store@.commits,
{
}

// ---- what stays -----------------------------------------------------------------------------

/// Nothing that is decided or written changes the configuration, and a write leaves
/// the test and the operation alone; one that is of no deployment leaves the driven
/// deployment alone too.
pub proof fn law_the_rest_stays(
    engine: SchemaRuntime,
    work: NexusWork,
    evidence: AdmissionEvidence,
    projection: Option<&ClusterProjection>,
    decided: SchemaRuntime,
    action: NexusAction,
    input: SemaWriteInput,
    written: SchemaRuntime,
    output: SemaWriteOutput,
)
    requires
        engine.follows(work, evidence, projection, decided, action),
        engine.writes(input, written, output),
    ensures
        decided.configuration == engine.configuration,
        written.configuration == engine.configuration,
        written.active_test == engine.active_test,
        written.active_operation == engine.active_operation,
        !(input is RecordDeploySubmitted) && !(input is RecordPhaseTransition) && !(
        input is RecordGenerationActivated) ==> written.active_deploy == engine.active_deploy,
        work matches NexusWork::SignalArrived(SignalInput::MetaInput(asked))
            ==> decided.active_deploy == engine.active_deploy && (!(asked is Test)
            ==> decided.active_test == engine.active_test),
        work matches NexusWork::SignalArrived(SignalInput::OrdinaryInput(_))
            ==> decided.active_deploy == engine.active_deploy && decided.active_test
            == engine.active_test && decided.active_operation == engine.active_operation,
        work is SemaWriteCompleted || work is EffectCompleted ==> decided.active_test
            == engine.active_test,
{
}

} // verus!
