//! What a query lists: everything that was asked for, nothing else, in the order in
//! which it is held.

use crate::runtime_flow::{NexusAction, NexusWork, SignalOutput};
use crate::runtime_model::{
    DeploymentRecord, EventLogEntry, EventLogRange, Generation, GenerationLookup, LiveGeneration,
    LoggedEvent, NodeSelector, OrdinaryEgress, OrdinaryIngress, QueryRejectionReason,
    RejectionReason, Selection, SemaReadOutput, StoredTestRun, TestRunLookup, TestRunRecord,
};
use crate::schema_runtime::engine::SchemaRuntime;
use crate::schema_runtime::queries::{
    asks_for_run, deployment_events, recorded_revision, retention_events, selected_records,
    shown_generations, shows_a_run,
};
use crate::schema_runtime::requests::{AdmissionEvidence, public_run};
use crate::schema_runtime::store::entries_between;
use crate::schema_runtime::test_runs::ClusterProjection;
use vstd::prelude::*;

verus! {

// ---- generations and deployments ------------------------------------------------------------

/// `shown` is the public face of `live`.
pub open spec fn shows(shown: Generation, live: LiveGeneration) -> bool {
    &&& shown.generation_identifier == live.generation_identifier
    &&& shown.deployment_identifier == live.deployment_identifier
    &&& shown.cluster_name == live.cluster_name
    &&& shown.node_name == live.node_name
    &&& shown.generation_artifact == live.generation_artifact
    &&& shown.activation_effect == live.activation_effect
    &&& shown.generation_slot == live.generation_slot
    &&& shown.closure_path == live.closure_path
}

/// Whether a live generation is what a selection asks for.
pub open spec fn is_asked_generation(selection: Selection, live: LiveGeneration) -> bool {
    match selection {
        Selection::ByNode(selector) => live.cluster_name@ == selector.cluster_name@
            && live.node_name@ == selector.node_name@ && (
        selector.optional_generation_artifact is None || selector.optional_generation_artifact
            == Some(live.generation_artifact)),
        Selection::ByGeneration(lookup) => live.generation_identifier.0 == lookup.0.0,
        Selection::ByEventLog(_) => true,
        Selection::ByDeployment(_) | Selection::ByTestRun(_) => false,
    }
}

/// Whether a deployment's record is what a selection asks for.
pub open spec fn is_asked_record(selection: Selection, record: DeploymentRecord) -> bool {
    let identity = record.deployment_request_identity;
    match selection {
        Selection::ByNode(selector) => identity.cluster_name@ == selector.cluster_name@
            && identity.node_name@ == selector.node_name@ && (
        selector.optional_generation_artifact is None || selector.optional_generation_artifact
            == Some(identity.generation_artifact)),
        Selection::ByGeneration(lookup) => record.generation_identifier.0 == lookup.0.0,
        Selection::ByDeployment(lookup) => record.deployment_identifier.0 == lookup.0.0,
        Selection::ByEventLog(_) => true,
        Selection::ByTestRun(_) => false,
    }
}

/// The live generations that a selection asks for.
pub open spec fn asked_generations(selection: Selection) -> spec_fn(LiveGeneration) -> bool {
    |live: LiveGeneration| is_asked_generation(selection, live)
}

/// The records that a selection asks for.
pub open spec fn asked_records(selection: Selection) -> spec_fn(DeploymentRecord) -> bool {
    |record: DeploymentRecord| is_asked_record(selection, record)
}

/// Whether `live` is listed.
pub open spec fn is_listed(listed: Seq<Generation>, live: LiveGeneration) -> bool {
    exists|i: int| 0 <= i < listed.len() && shows(#[trigger] listed[i], live)
}

/// A query lists the live generations and the records that were asked for, each of them
/// once and in the order in which they are held.
pub proof fn law_a_listing_is_what_was_asked_for(
    engine: SchemaRuntime,
    selection: Selection,
    output: SemaReadOutput,
)
    requires
        engine.lists_generations(selection, output),
    ensures
        output matches SemaReadOutput::GenerationsQueried(listing) && {
            let listed = listing.generation_vector@;
            let asked = engine.store@.live_set.filter(asked_generations(selection));
            &&& listed.len() == asked.len()
            &&& forall|i: int| 0 <= i < listed.len() ==> shows(#[trigger] listed[i], asked[i])
            &&& listing.deployment_record_vector@ == engine.store@.deployments.filter(
                asked_records(selection),
            )
            &&& listing.state_marker.commit_sequence.0 == engine.store@.commits
        },
{
    lemma_shown(
        selection,
        engine.store@.live_set,
        selected_records(selection, engine.store@.deployments),
    );
    lemma_selected(selection, engine.store@.deployments);
}

/// Every generation that is listed for a node is live there, in the asked cluster and
/// of the asked artifact; and every live generation that is so is listed.
pub proof fn law_a_node_listing_is_of_the_node(
    engine: SchemaRuntime,
    selector: NodeSelector,
    output: SemaReadOutput,
)
    requires
        engine.lists_generations(Selection::ByNode(selector), output),
    ensures
        output matches SemaReadOutput::GenerationsQueried(listing) && {
            let listed = listing.generation_vector@;
            let live_set = engine.store@.live_set;
            &&& forall|i: int|
                0 <= i < listed.len() ==> {
                    &&& (#[trigger] listed[i]).cluster_name@ == selector.cluster_name@
                    &&& listed[i].node_name@ == selector.node_name@
                    &&& selector.optional_generation_artifact matches Some(artifact)
                        ==> listed[i].generation_artifact == artifact
                }
            &&& forall|live: LiveGeneration|
                live_set.contains(live) && live.cluster_name@ == selector.cluster_name@
                    && live.node_name@ == selector.node_name@ && (
                selector.optional_generation_artifact matches Some(artifact)
                    ==> live.generation_artifact == artifact) ==> #[trigger] is_listed(
                    listed,
                    live,
                )
        },
{
    broadcast use vstd::seq_lib::group_filter_ensures;

    let selection = Selection::ByNode(selector);
    law_a_listing_is_what_was_asked_for(engine, selection, output);
    let listed = output->GenerationsQueried_0.generation_vector@;
    let live_set = engine.store@.live_set;
    let asked = live_set.filter(asked_generations(selection));
    assert forall|i: int| 0 <= i < listed.len() implies {
        &&& (#[trigger] listed[i]).cluster_name@ == selector.cluster_name@
        &&& listed[i].node_name@ == selector.node_name@
        &&& selector.optional_generation_artifact matches Some(artifact)
            ==> listed[i].generation_artifact == artifact
    } by {
        assert(shows(listed[i], asked[i]));
        assert(asked_generations(selection)(asked[i]));
    }
    assert forall|live: LiveGeneration|
        live_set.contains(live) && is_asked_generation(selection, live) implies #[trigger] is_listed(
        listed,
        live,
    ) by {
        assert(asked_generations(selection)(live));
        assert(asked.contains(live));
        let i = choose|i: int| 0 <= i < asked.len() && asked[i] == live;
        assert(shows(listed[i], live));
    }
}

/// A generation is listed by its identifier alone: the live row of that identifier, and
/// no other.
pub proof fn law_a_generation_is_listed_by_its_identifier(
    engine: SchemaRuntime,
    lookup: GenerationLookup,
    output: SemaReadOutput,
)
    requires
        engine.lists_generations(Selection::ByGeneration(lookup), output),
    ensures
        output matches SemaReadOutput::GenerationsQueried(listing) && {
            let listed = listing.generation_vector@;
            let live_set = engine.store@.live_set;
            &&& forall|i: int|
                0 <= i < listed.len() ==> (#[trigger] listed[i]).generation_identifier.0
                    == lookup.0.0
            &&& forall|live: LiveGeneration|
                live_set.contains(live) && live.generation_identifier.0 == lookup.0.0
                    ==> #[trigger] is_listed(listed, live)
        },
{
    broadcast use vstd::seq_lib::group_filter_ensures;

    let selection = Selection::ByGeneration(lookup);
    law_a_listing_is_what_was_asked_for(engine, selection, output);
    let listed = output->GenerationsQueried_0.generation_vector@;
    let live_set = engine.store@.live_set;
    let asked = live_set.filter(asked_generations(selection));
    assert forall|i: int| 0 <= i < listed.len() implies (
    #[trigger] listed[i]).generation_identifier.0 == lookup.0.0 by {
        assert(shows(listed[i], asked[i]));
        assert(asked_generations(selection)(asked[i]));
    }
    assert forall|live: LiveGeneration|
        live_set.contains(live) && is_asked_generation(selection, live) implies #[trigger] is_listed(
        listed,
        live,
    ) by {
        assert(asked_generations(selection)(live));
        assert(asked.contains(live));
        let i = choose|i: int| 0 <= i < asked.len() && asked[i] == live;
        assert(shows(listed[i], live));
    }
}

/// A listed generation carries the revision of its own deployment's record, where that
/// record is listed beside it, and none where it is not.
pub proof fn law_a_listed_revision_is_its_deployments(
    engine: SchemaRuntime,
    selection: Selection,
    output: SemaReadOutput,
    i: int,
)
    requires
        engine.store@.is_consistent(),
        engine.lists_generations(selection, output),
        0 <= i < output->GenerationsQueried_0.generation_vector@.len(),
    ensures
        ({
            let listing = output->GenerationsQueried_0;
            let shown = listing.generation_vector@[i];
            let records = listing.deployment_record_vector@;
            &&& forall|k: int|
                0 <= k < records.len() && (#[trigger] records[k]).deployment_identifier.0
                    == shown.deployment_identifier.0 ==> shown.optional_immutable_revision
                    == records[k].deployment_request_identity.optional_immutable_revision
            &&& (forall|k: int|
                0 <= k < records.len() ==> (#[trigger] records[k]).deployment_identifier.0
                    != shown.deployment_identifier.0) ==> shown.optional_immutable_revision is None
        }),
{
    let store = engine.store@;
    let records = selected_records(selection, store.deployments);
    lemma_revisions_shown(selection, store.live_set, records);
    lemma_selected_ascend(selection, store.deployments);
    let shown = output->GenerationsQueried_0.generation_vector@[i];
    lemma_recorded(records, shown.deployment_identifier.0);
}

spec fn ascend(records: Seq<DeploymentRecord>) -> bool {
    forall|i: int, j: int|
        0 <= i < j < records.len() ==> (#[trigger] records[i]).deployment_identifier.0 < (
        #[trigger] records[j]).deployment_identifier.0
}

proof fn lemma_selected_ascend(selection: Selection, records: Seq<DeploymentRecord>)
    requires
        ascend(records),
    ensures
        ascend(selected_records(selection, records)),
        forall|i: int|
            0 <= i < selected_records(selection, records).len() ==> records.contains(
                #[trigger] selected_records(selection, records)[i],
            ),
    decreases records.len(),
{
    if records.len() > 0 {
        let rest = records.drop_last();
        lemma_selected_ascend(selection, rest);
        let kept = selected_records(selection, rest);
        let all = selected_records(selection, records);
        assert forall|i: int| 0 <= i < all.len() implies records.contains(#[trigger] all[i]) by {
            if i < kept.len() {
                assert(all[i] == kept[i]);
                assert(rest.contains(kept[i]));
                let k = choose|k: int| 0 <= k < rest.len() && rest[k] == kept[i];
                assert(records[k] == all[i]);
            } else {
                assert(records[records.len() - 1] == all[i]);
            }
        }
        assert forall|i: int, j: int| 0 <= i < j < all.len() implies (
        #[trigger] all[i]).deployment_identifier.0 < (#[trigger] all[j]).deployment_identifier.0 by {
            assert(all[i] == kept[i]);
            if j == kept.len() {
                assert(rest.contains(kept[i]));
                let k = choose|k: int| 0 <= k < rest.len() && rest[k] == kept[i];
                assert(records[k] == all[i]);
            } else {
                assert(all[j] == kept[j]);
            }
        }
    }
}

proof fn lemma_recorded(records: Seq<DeploymentRecord>, deployment: u64)
    requires
        ascend(records),
    ensures
        forall|k: int|
            0 <= k < records.len() && (#[trigger] records[k]).deployment_identifier.0 == deployment
                ==> recorded_revision(records, deployment)
                == records[k].deployment_request_identity.optional_immutable_revision,
        (forall|k: int|
            0 <= k < records.len() ==> (#[trigger] records[k]).deployment_identifier.0
                != deployment) ==> recorded_revision(records, deployment) is None,
    decreases records.len(),
{
    if records.len() > 0 {
        let rest = records.skip(1);
        assert forall|i: int, j: int| 0 <= i < j < rest.len() implies (
        #[trigger] rest[i]).deployment_identifier.0 < (#[trigger] rest[j]).deployment_identifier.0 by {
            assert(rest[i] == records[i + 1] && rest[j] == records[j + 1]);
        }
        lemma_recorded(rest, deployment);
        assert forall|k: int|
            0 <= k < records.len() && (#[trigger] records[k]).deployment_identifier.0
                == deployment implies recorded_revision(records, deployment)
            == records[k].deployment_request_identity.optional_immutable_revision by {
            if k > 0 {
                assert(records[0].deployment_identifier.0 < records[k].deployment_identifier.0);
                assert(rest[k - 1] == records[k]);
            }
        }
        if forall|k: int|
            0 <= k < records.len() ==> (#[trigger] records[k]).deployment_identifier.0
                != deployment {
            assert(records[0].deployment_identifier.0 != deployment);
            assert forall|k: int| 0 <= k < rest.len() implies (
            #[trigger] rest[k]).deployment_identifier.0 != deployment by {
                assert(rest[k] == records[k + 1]);
            }
        }
    }
}

proof fn lemma_revisions_shown(
    selection: Selection,
    live: Seq<LiveGeneration>,
    records: Seq<DeploymentRecord>,
)
    ensures
        forall|i: int|
            0 <= i < shown_generations(selection, live, records).len() ==> (
            #[trigger] shown_generations(
                selection,
                live,
                records,
            )[i]).optional_immutable_revision == recorded_revision(
                records,
                shown_generations(selection, live, records)[i].deployment_identifier.0,
            ),
    decreases live.len(),
{
    if live.len() > 0 {
        lemma_revisions_shown(selection, live.drop_last(), records);
    }
}

proof fn lemma_shown(
    selection: Selection,
    live: Seq<LiveGeneration>,
    records: Seq<DeploymentRecord>,
)
    ensures
        shown_generations(selection, live, records).len() == live.filter(
            asked_generations(selection),
        ).len(),
        forall|i: int|
            0 <= i < shown_generations(selection, live, records).len() ==> shows(
                #[trigger] shown_generations(selection, live, records)[i],
                live.filter(asked_generations(selection))[i],
            ),
    decreases live.len(),
{
    reveal(Seq::filter);
    if live.len() > 0 {
        lemma_shown(selection, live.drop_last(), records);
    }
}

proof fn lemma_selected(selection: Selection, records: Seq<DeploymentRecord>)
    ensures
        selected_records(selection, records) =~= records.filter(asked_records(selection)),
    decreases records.len(),
{
    reveal(Seq::filter);
    if records.len() > 0 {
        lemma_selected(selection, records.drop_last());
    }
}

// ---- the event log --------------------------------------------------------------------------

/// The entries of deployments from `from` on and before `until`.
pub open spec fn deployments_within(from: u64, until: u64) -> spec_fn(EventLogEntry) -> bool {
    |entry: EventLogEntry|
        from <= entry.event_log_position.0 && entry.event_log_position.0 < until
            && entry.logged_event is Deployment
}

/// The entries of cache retention from `from` on and before `until`.
pub open spec fn retentions_within(from: u64, until: u64) -> spec_fn(EventLogEntry) -> bool {
    |entry: EventLogEntry|
        from <= entry.event_log_position.0 && entry.event_log_position.0 < until
            && entry.logged_event is CacheRetention
}

/// A page of the log holds the events of its range, each once and in their order, the
/// end of the range left out. A range that ends before it starts is refused.
pub proof fn law_a_page_holds_its_range(
    engine: SchemaRuntime,
    range: EventLogRange,
    output: SemaReadOutput,
)
    requires
        engine.reads_log(range, output),
    ensures
        range.until.0 < range.from.0 <==> output is ReadMissed,
        output matches SemaReadOutput::ReadMissed(report) ==> report.rejection_reason
            == RejectionReason::EventLogPositionOutOfRange
            && report.state_marker.commit_sequence.0 == engine.store@.commits,
        range.from.0 <= range.until.0 ==> (output matches SemaReadOutput::EventLogRead(page) && {
            let events = engine.store@.events;
            let deployments = events.filter(deployments_within(range.from.0, range.until.0));
            let retentions = events.filter(retentions_within(range.from.0, range.until.0));
            let shown = page.deployment_phase_event_vector@;
            let kept = page.cache_retention_transition_event_vector@;
            &&& shown.len() == deployments.len()
            &&& forall|i: int|
                0 <= i < shown.len() ==> deployments[i].logged_event == LoggedEvent::Deployment(
                    #[trigger] shown[i],
                )
            &&& kept.len() == retentions.len()
            &&& forall|i: int|
                0 <= i < kept.len() ==> retentions[i].logged_event == LoggedEvent::CacheRetention(
                    #[trigger] kept[i],
                )
            &&& page.state_marker.commit_sequence.0 == engine.store@.commits
        }),
{
    if range.from.0 <= range.until.0 {
        lemma_page(engine.store@.events, range.from.0, range.until.0);
    }
}

proof fn lemma_page(events: Seq<EventLogEntry>, from: u64, until: u64)
    ensures
        ({
            let entries = entries_between(events, from, until);
            let shown = deployment_events(entries);
            let kept = retention_events(entries);
            let deployments = events.filter(deployments_within(from, until));
            let retentions = events.filter(retentions_within(from, until));
            &&& shown.len() == deployments.len()
            &&& forall|i: int|
                0 <= i < shown.len() ==> deployments[i].logged_event == LoggedEvent::Deployment(
                    #[trigger] shown[i],
                )
            &&& kept.len() == retentions.len()
            &&& forall|i: int|
                0 <= i < kept.len() ==> retentions[i].logged_event == LoggedEvent::CacheRetention(
                    #[trigger] kept[i],
                )
        }),
    decreases events.len(),
{
    reveal(Seq::filter);
    if events.len() > 0 {
        lemma_page(events.drop_last(), from, until);
        let rest = entries_between(events.drop_last(), from, until);
        assert(rest.push(events.last()).drop_last() =~= rest);
    }
}

// ---- test runs ------------------------------------------------------------------------------

/// The test runs that are listed for a node are its runs, all of them or the one that
/// was asked for, each as it is kept, the newest first.
pub proof fn law_a_run_listing_is_of_the_node(
    engine: SchemaRuntime,
    lookup: TestRunLookup,
    output: SemaReadOutput,
)
    requires
        engine.lists_test_runs(lookup, output),
    ensures
        output matches SemaReadOutput::TestRunsQueried(listing) && {
            let listed = listing.test_run_record_vector@;
            let runs = engine.store@.runs;
            &&& forall|record: TestRunRecord| #[trigger]
                listed.contains(record) ==> record.cluster_name@ == lookup.cluster_name@
                    && record.node@ == lookup.node_name@ && (
                lookup.optional_test_run_identifier matches Some(identifier)
                    ==> record.test_run_identifier == identifier)
            &&& forall|k: int|
                0 <= k < runs.len() && (#[trigger] runs[k]).cluster_name@ == lookup.cluster_name@
                    && runs[k].node@ == lookup.node_name@ && (
                lookup.optional_test_run_identifier matches Some(identifier)
                    ==> runs[k].test_run_identifier == identifier) ==> lists_run(listed, runs[k])
            &&& forall|i: int, j: int|
                0 <= i < j < listed.len() ==> (#[trigger] listed[j]).test_run_identifier.0 < (
                #[trigger] listed[i]).test_run_identifier.0
            &&& listing.database_marker.0.commit_sequence.0 == engine.store@.commits
        },
{
    let listed = output->TestRunsQueried_0.test_run_record_vector@;
    let runs = engine.store@.runs;
    assert forall|record: TestRunRecord| #[trigger] listed.contains(record) implies
        record.cluster_name@ == lookup.cluster_name@ && record.node@ == lookup.node_name@ && (
    lookup.optional_test_run_identifier matches Some(identifier) ==> record.test_run_identifier
        == identifier) by {
        assert(shows_a_run(record, runs, lookup));
    }
    assert forall|k: int|
        0 <= k < runs.len() && (#[trigger] runs[k]).cluster_name@ == lookup.cluster_name@
            && runs[k].node@ == lookup.node_name@ && (
        lookup.optional_test_run_identifier matches Some(identifier)
            ==> runs[k].test_run_identifier == identifier) implies lists_run(listed, runs[k]) by {
        let record = public_run(runs[k]);
        assert(asks_for_run(lookup, runs[k]));
        assert(shows_a_run(record, runs, lookup));
        assert(listed.contains(record));
        let i = choose|i: int| 0 <= i < listed.len() && listed[i] == record;
        assert(shows_run(listed[i], runs[k]));
    }
}

/// `record` is the public face of `run`.
pub open spec fn shows_run(record: TestRunRecord, run: StoredTestRun) -> bool {
    &&& record.test_run_identifier == run.test_run_identifier
    &&& record.cluster_name == run.cluster_name
    &&& record.node == run.node
    &&& record.host == run.host
    &&& record.test_mode == run.test_mode
    &&& record.test_run_phase == run.test_run_phase
    &&& record.test_outcome == run.test_outcome
    &&& record.optional_closure_path == run.optional_closure_path
}

/// Whether `run` is listed.
pub open spec fn lists_run(listed: Seq<TestRunRecord>, run: StoredTestRun) -> bool {
    exists|i: int| 0 <= i < listed.len() && shows_run(#[trigger] listed[i], run)
}

// ---- from a question to its answer ----------------------------------------------------------

/// A query is answered from the state that it asks about: runs for a run, the log for a
/// range of it, and generations for anything else. Asking changes nothing.
pub proof fn law_a_query_is_answered_from_what_it_names(
    engine: SchemaRuntime,
    selection: Selection,
    asked: SchemaRuntime,
    action: NexusAction,
    output: SemaReadOutput,
    answered: SchemaRuntime,
    answer: NexusAction,
    evidence: AdmissionEvidence,
    projection: Option<&ClusterProjection>,
)
    requires
        engine.follows_ordinary(OrdinaryIngress::Query(selection), asked, action),
        action matches NexusAction::CommandSemaRead(input) && asked.observes(input, output),
        asked.follows(
            NexusWork::SemaReadCompleted(output),
            evidence,
            projection,
            answered,
            answer,
        ),
    ensures
        answered == engine,
        match selection {
            Selection::ByTestRun(lookup) => answer matches NexusAction::ReplyToSignal(
                SignalOutput::OrdinaryOutput(OrdinaryEgress::TestRunsQueried(listing)),
            ) && engine.lists_test_runs(lookup, SemaReadOutput::TestRunsQueried(listing)),
            Selection::ByEventLog(range) => if range.from.0 <= range.until.0 {
                answer matches NexusAction::ReplyToSignal(
                    SignalOutput::OrdinaryOutput(OrdinaryEgress::DeploymentEventsQueried(page)),
                ) && engine.reads_log(range, SemaReadOutput::EventLogRead(page))
            } else {
                answer matches NexusAction::ReplyToSignal(
                    SignalOutput::OrdinaryOutput(OrdinaryEgress::QueryRejected(rejected)),
                ) && rejected.query_rejection_reason == QueryRejectionReason::GenerationUnknown
                    && rejected.state_marker.commit_sequence.0 == engine.store@.commits
            },
            _ => answer matches NexusAction::ReplyToSignal(
                SignalOutput::OrdinaryOutput(OrdinaryEgress::Queried(listing)),
            ) && engine.lists_generations(selection, SemaReadOutput::GenerationsQueried(listing)),
        },
{
}

} // verus!
