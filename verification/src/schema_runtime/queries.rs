//! Reads of the durable state.

use crate::runtime_model::{
    CacheRetentionTransitionEvent, DatabaseMarker, DeploymentIdentifier, DeploymentPhaseEvent,
    DeploymentRecord, EventLogEntry, EventLogPage, EventLogRange, Generation, GenerationListing,
    ImmutableRevision, KeyMaterialQuery, KeyMaterialReport, LiveGeneration, LoggedEvent,
    RejectionReason, RejectionReport, Selection, SemaReadInput, SemaReadOutput, StoredTestRun,
    TestRunListing, TestRunLookup, TestRunRecord,
};
use crate::schema_runtime::engine::SchemaRuntime;
use crate::schema_runtime::requests::public_run;
use crate::schema_runtime::store::{
    are_distinct, entries_between, marker, marker_of, run_keys,
};
use vstd::prelude::*;

verus! {

// ---- what a selection selects ----------------------------------------------------

/// Whether `selection` lists `live`.
pub open spec fn selects_generation(selection: Selection, live: LiveGeneration) -> bool {
    match selection {
        Selection::ByNode(selector) => {
            &&& selector.cluster_name@ == live.cluster_name@
            &&& selector.node_name@ == live.node_name@
            &&& selector.optional_generation_artifact matches Some(artifact) ==> artifact
                == live.generation_artifact
        },
        Selection::ByGeneration(lookup) => lookup.0 == live.generation_identifier,
        Selection::ByDeployment(_) => false,
        Selection::ByEventLog(_) => true,
        Selection::ByTestRun(_) => false,
    }
}

/// Whether `selection` lists `record`.
pub open spec fn selects_record(selection: Selection, record: DeploymentRecord) -> bool {
    let identity = record.deployment_request_identity;
    match selection {
        Selection::ByNode(selector) => {
            &&& identity.cluster_name@ == selector.cluster_name@
            &&& identity.node_name@ == selector.node_name@
            &&& selector.optional_generation_artifact matches Some(artifact) ==> artifact
                == identity.generation_artifact
        },
        Selection::ByGeneration(lookup) => lookup.0 == record.generation_identifier,
        Selection::ByDeployment(lookup) => lookup.0 == record.deployment_identifier,
        Selection::ByEventLog(_) => true,
        Selection::ByTestRun(_) => false,
    }
}

/// The records that `selection` lists, in order.
pub open spec fn selected_records(selection: Selection, records: Seq<DeploymentRecord>) -> Seq<
    DeploymentRecord,
>
    decreases records.len(),
{
    if records.len() == 0 {
        Seq::empty()
    } else {
        let rest = selected_records(selection, records.drop_last());
        if selects_record(selection, records.last()) {
            rest.push(records.last())
        } else {
            rest
        }
    }
}

/// The revision that the first record of `deployment` names.
pub open spec fn recorded_revision(records: Seq<DeploymentRecord>, deployment: u64) -> Option<
    ImmutableRevision,
>
    decreases records.len(),
{
    if records.len() == 0 {
        None
    } else if records[0].deployment_identifier.0 == deployment {
        records[0].deployment_request_identity.optional_immutable_revision
    } else {
        recorded_revision(records.skip(1), deployment)
    }
}

/// A live generation as queries show it.
pub open spec fn shown_generation(live: LiveGeneration, records: Seq<DeploymentRecord>) -> Generation {
    Generation {
        generation_identifier: live.generation_identifier,
        deployment_identifier: live.deployment_identifier,
        cluster_name: live.cluster_name,
        node_name: live.node_name,
        generation_artifact: live.generation_artifact,
        activation_effect: live.activation_effect,
        generation_slot: live.generation_slot,
        closure_path: live.closure_path,
        optional_immutable_revision: recorded_revision(records, live.deployment_identifier.0),
    }
}

/// The live generations that `selection` lists, in order.
pub open spec fn shown_generations(
    selection: Selection,
    live_set: Seq<LiveGeneration>,
    records: Seq<DeploymentRecord>,
) -> Seq<Generation>
    decreases live_set.len(),
{
    if live_set.len() == 0 {
        Seq::empty()
    } else {
        let rest = shown_generations(selection, live_set.drop_last(), records);
        if selects_generation(selection, live_set.last()) {
            rest.push(shown_generation(live_set.last(), records))
        } else {
            rest
        }
    }
}

/// The deployment events among `entries`, in order.
pub open spec fn deployment_events(entries: Seq<EventLogEntry>) -> Seq<DeploymentPhaseEvent>
    decreases entries.len(),
{
    if entries.len() == 0 {
        Seq::empty()
    } else {
        let rest = deployment_events(entries.drop_last());
        match entries.last().logged_event {
            LoggedEvent::Deployment(event) => rest.push(event),
            _ => rest,
        }
    }
}

/// The retention events among `entries`, in order.
pub open spec fn retention_events(entries: Seq<EventLogEntry>) -> Seq<CacheRetentionTransitionEvent>
    decreases entries.len(),
{
    if entries.len() == 0 {
        Seq::empty()
    } else {
        let rest = retention_events(entries.drop_last());
        match entries.last().logged_event {
            LoggedEvent::CacheRetention(event) => rest.push(event),
            _ => rest,
        }
    }
}

/// Whether `lookup` asks for `run`.
pub open spec fn asks_for_run(lookup: TestRunLookup, run: StoredTestRun) -> bool {
    &&& lookup.cluster_name@ == run.cluster_name@
    &&& lookup.node_name@ == run.node@
    &&& lookup.optional_test_run_identifier matches Some(identifier) ==> identifier
        == run.test_run_identifier
}

/// `record` shows a run among `runs` that `lookup` asks for.
pub open spec fn shows_a_run(
    record: TestRunRecord,
    runs: Seq<StoredTestRun>,
    lookup: TestRunLookup,
) -> bool {
    exists|i: int|
        0 <= i < runs.len() && asks_for_run(lookup, #[trigger] runs[i]) && record == public_run(
            runs[i],
        )
}

/// `listed` holds exactly the runs that `lookup` asks for, the newest first.
pub open spec fn lists_runs(
    listed: Seq<TestRunRecord>,
    runs: Seq<StoredTestRun>,
    lookup: TestRunLookup,
) -> bool {
    &&& is_newest_first(listed)
    &&& forall|record: TestRunRecord| #[trigger]
        listed.contains(record) <==> shows_a_run(record, runs, lookup)
}

/// Identifiers fall from one run to the next.
pub open spec fn is_newest_first(listed: Seq<TestRunRecord>) -> bool {
    forall|i: int, j: int|
        0 <= i < j < listed.len() ==> (#[trigger] listed[i]).test_run_identifier.0 > (
        #[trigger] listed[j]).test_run_identifier.0
}

// ---- reads -----------------------------------------------------------------------------

/// Whether `selection` lists `live`.
pub fn generation_matches(selection: &Selection, live: &LiveGeneration) -> (r: bool)
    ensures
        r == selects_generation(*selection, *live),
{
    match selection {
        Selection::ByNode(selector) => selector.cluster_name.0 == live.cluster_name.0
            && selector.node_name.0 == live.node_name.0
            && match selector.optional_generation_artifact {
            Some(artifact) => artifact == live.generation_artifact,
            None => true,
        },
        Selection::ByGeneration(lookup) => lookup.0.0 == live.generation_identifier.0,
        Selection::ByDeployment(_) => false,
        Selection::ByEventLog(_) => true,
        Selection::ByTestRun(_) => false,
    }
}

/// Whether `selection` lists `record`.
pub fn deployment_record_matches(selection: &Selection, record: &DeploymentRecord) -> (r: bool)
    ensures
        r == selects_record(*selection, *record),
{
    match selection {
        Selection::ByNode(selector) => record.deployment_request_identity.cluster_name.0
            == selector.cluster_name.0 && record.deployment_request_identity.node_name.0
            == selector.node_name.0 && match selector.optional_generation_artifact {
            Some(artifact) => artifact == record.deployment_request_identity.generation_artifact,
            None => true,
        },
        Selection::ByGeneration(lookup) => lookup.0.0 == record.generation_identifier.0,
        Selection::ByDeployment(lookup) => lookup.0.0 == record.deployment_identifier.0,
        Selection::ByEventLog(_) => true,
        Selection::ByTestRun(_) => false,
    }
}

/// Whether `lookup` asks for `run`.
pub fn test_run_matches(lookup: &TestRunLookup, run: &StoredTestRun) -> (r: bool)
    ensures
        r == asks_for_run(*lookup, *run),
{
    lookup.cluster_name.0 == run.cluster_name.0 && lookup.node_name.0 == run.node.0
        && match &lookup.optional_test_run_identifier {
        Some(identifier) => identifier.0 == run.test_run_identifier.0,
        None => true,
    }
}

fn revision_recorded(records: &Vec<DeploymentRecord>, deployment: &DeploymentIdentifier) -> (r:
    Option<ImmutableRevision>)
    ensures
        r == recorded_revision(records@, deployment.0),
{
    let mut i: usize = 0;
    assert(records@.skip(0) =~= records@);
    while i < records.len()
        invariant
            i <= records@.len(),
            recorded_revision(records@, deployment.0) == recorded_revision(
                records@.skip(i as int),
                deployment.0,
            ),
        decreases records@.len() - i,
    {
        assert(records@.skip(i as int)[0] == records@[i as int]);
        if records[i].deployment_identifier.0 == deployment.0 {
            return records[i].deployment_request_identity.optional_immutable_revision.clone();
        }
        assert(records@.skip(i as int).skip(1) =~= records@.skip(i + 1));
        i = i + 1;
    }
    None
}

/// A live generation as queries show it.
pub fn project_generation(live: &LiveGeneration, deployment_records: &Vec<DeploymentRecord>) -> (r:
    Generation)
    ensures
        r == shown_generation(*live, deployment_records@),
{
    Generation {
        generation_identifier: live.generation_identifier.clone(),
        deployment_identifier: live.deployment_identifier.clone(),
        cluster_name: live.cluster_name.clone(),
        node_name: live.node_name.clone(),
        generation_artifact: live.generation_artifact,
        activation_effect: live.activation_effect,
        generation_slot: live.generation_slot,
        closure_path: live.closure_path.clone(),
        optional_immutable_revision: revision_recorded(
            deployment_records,
            &live.deployment_identifier,
        ),
    }
}

/// Where a run with `identifier` belongs among `listed`.
fn run_position(listed: &Vec<TestRunRecord>, identifier: u64) -> (r: usize)
    ensures
        r <= listed@.len(),
        forall|k: int| 0 <= k < r ==> (#[trigger] listed@[k]).test_run_identifier.0 >= identifier,
        r < listed@.len() ==> listed@[r as int].test_run_identifier.0 < identifier,
{
    let mut at: usize = 0;
    while at < listed.len() && listed[at].test_run_identifier.0 >= identifier
        invariant
            at <= listed@.len(),
            forall|k: int|
                0 <= k < at ==> (#[trigger] listed@[k]).test_run_identifier.0 >= identifier,
        decreases listed@.len() - at,
    {
        at = at + 1;
    }
    at
}

proof fn lemma_insert_run(listed: Seq<TestRunRecord>, at: int, record: TestRunRecord)
    requires
        0 <= at <= listed.len(),
        is_newest_first(listed),
        forall|k: int|
            0 <= k < at ==> (#[trigger] listed[k]).test_run_identifier.0
                >= record.test_run_identifier.0,
        at < listed.len() ==> listed[at].test_run_identifier.0 < record.test_run_identifier.0,
        forall|k: int|
            0 <= k < listed.len() ==> (#[trigger] listed[k]).test_run_identifier.0
                != record.test_run_identifier.0,
    ensures
        is_newest_first(listed.insert(at, record)),
        forall|other: TestRunRecord| #[trigger]
            listed.insert(at, record).contains(other) <==> listed.contains(other) || other
                == record,
{
    let after = listed.insert(at, record);
    assert forall|i: int, j: int| 0 <= i < j < after.len() implies (
    #[trigger] after[i]).test_run_identifier.0 > (#[trigger] after[j]).test_run_identifier.0 by {
        let a = if i < at { i } else { i - 1 };
        let b = if j < at { j } else { j - 1 };
        if i != at {
            assert(after[i] == listed[a]);
        }
        if j != at {
            assert(after[j] == listed[b]);
        }
        if i == at {
            assert(b >= at);
            if b > at {
                assert(listed[at].test_run_identifier.0 > listed[b].test_run_identifier.0);
            }
        }
    }
    assert forall|other: TestRunRecord| #[trigger] after.contains(other) <==> listed.contains(other)
        || other == record by {
        if listed.contains(other) {
            let k = choose|k: int| 0 <= k < listed.len() && listed[k] == other;
            assert(after[if k < at { k } else { k + 1 }] == other);
        }
        if other == record {
            assert(after[at] == other);
        }
        if after.contains(other) {
            let k = choose|k: int| 0 <= k < after.len() && after[k] == other;
            if k != at {
                assert(listed[if k < at { k } else { k - 1 }] == other);
            }
        }
    }
}

impl SchemaRuntime {
    /// A read that found nothing to show.
    pub fn read_missed(commit_sequence: u64, reason: RejectionReason) -> (r: SemaReadOutput)
        ensures
            r == SemaReadOutput::ReadMissed(
                RejectionReport {
                    rejection_reason: reason,
                    state_marker: marker_of(commit_sequence),
                },
            ),
    {
        SemaReadOutput::ReadMissed(
            RejectionReport { rejection_reason: reason, state_marker: marker(commit_sequence) },
        )
    }

    /// What a read returns.
    pub open spec fn observes(&self, input: SemaReadInput, output: SemaReadOutput) -> bool {
        match input {
            SemaReadInput::QueryGenerations(selection) => self.lists_generations(selection, output),
            SemaReadInput::ReadEventLog(range) => self.reads_log(range, output),
            SemaReadInput::CheckKeyMaterial(query) => self.checks_key_material(query, output),
            SemaReadInput::QueryTestRuns(lookup) => self.lists_test_runs(lookup, output),
        }
    }

    /// `output` lists the generations and deployments that `selection` selects.
    pub open spec fn lists_generations(&self, selection: Selection, output: SemaReadOutput) -> bool {
        output matches SemaReadOutput::GenerationsQueried(listing) && {
            let records = selected_records(selection, self.store@.deployments);
            &&& listing.deployment_record_vector@ == records
            &&& listing.generation_vector@ == shown_generations(
                selection,
                self.store@.live_set,
                records,
            )
            &&& listing.state_marker == marker_of(self.store@.commits)
        }
    }

    /// `output` is the page of the log that `range` spans; a reversed range is missed.
    pub open spec fn reads_log(&self, range: EventLogRange, output: SemaReadOutput) -> bool {
        if range.from.0 <= range.until.0 {
            output matches SemaReadOutput::EventLogRead(page) && {
                let entries = entries_between(self.store@.events, range.from.0, range.until.0);
                &&& page.deployment_phase_event_vector@ == deployment_events(entries)
                &&& page.cache_retention_transition_event_vector@ == retention_events(entries)
                &&& page.state_marker == marker_of(self.store@.commits)
            }
        } else {
            output == SemaReadOutput::ReadMissed(
                RejectionReport {
                    rejection_reason: RejectionReason::EventLogPositionOutOfRange,
                    state_marker: marker_of(self.store@.commits),
                },
            )
        }
    }

    /// `output` reports no key material of the node.
    pub open spec fn checks_key_material(&self, query: KeyMaterialQuery, output: SemaReadOutput) -> bool {
        output matches SemaReadOutput::KeyMaterialChecked(report) && {
            &&& report.node_name == query.node_name
            &&& report.string_vector@.len() == 0
            &&& report.state_marker == marker_of(self.store@.commits)
        }
    }

    /// `output` lists the runs that `lookup` asks for, the newest first.
    pub open spec fn lists_test_runs(&self, lookup: TestRunLookup, output: SemaReadOutput) -> bool {
        output matches SemaReadOutput::TestRunsQueried(listing) && {
            &&& lists_runs(listing.test_run_record_vector@, self.store@.runs, lookup)
            &&& listing.database_marker == DatabaseMarker(marker_of(self.store@.commits))
        }
    }

    /// Reads the durable state.
    pub fn observe_sema(&self, input: SemaReadInput) -> (r: SemaReadOutput)
        requires
            self.store@.is_consistent(),
        ensures
            self.observes(input, r),
    {
        match input {
            SemaReadInput::QueryGenerations(selection) => self.query_generations(selection),
            SemaReadInput::ReadEventLog(range) => self.read_event_log(range),
            SemaReadInput::CheckKeyMaterial(query) => self.check_key_material(query),
            SemaReadInput::QueryTestRuns(lookup) => self.query_test_runs(lookup),
        }
    }

    /// Lists the runs that `lookup` asks for, the newest first.
    pub fn query_test_runs(&self, lookup: TestRunLookup) -> (r: SemaReadOutput)
        requires
            self.store@.is_consistent(),
        ensures
            self.lists_test_runs(lookup, r),
    {
        let runs: &Vec<StoredTestRun> = self.store.test_runs();
        let mut listed: Vec<TestRunRecord> = Vec::new();
        let mut i: usize = 0;
        while i < runs.len()
            invariant
                i <= runs@.len(),
                are_distinct(run_keys(runs@)),
                is_newest_first(listed@),
                forall|record: TestRunRecord| #[trigger]
                    listed@.contains(record) <==> shows_a_run(
                        record,
                        runs@.take(i as int),
                        lookup,
                    ),
            decreases runs@.len() - i,
        {
            let ghost before = listed@;
            let ghost row = runs@[i as int];
            let ghost shown = runs@.take(i as int);
            let ghost next = runs@.take(i + 1);
            if test_run_matches(&lookup, &runs[i]) {
                let at = run_position(&listed, runs[i].test_run_identifier.0);
                proof {
                    assert forall|k: int| 0 <= k < before.len() implies (
                    #[trigger] before[k]).test_run_identifier.0 != row.test_run_identifier.0 by {
                        assert(before.contains(before[k]));
                        let j = choose|j: int|
                            0 <= j < shown.len() && asks_for_run(lookup, #[trigger] shown[j])
                                && before[k] == public_run(shown[j]);
                        assert(run_keys(runs@)[j] != run_keys(runs@)[i as int]);
                        assert(shown[j] == runs@[j]);
                    }
                    lemma_insert_run(before, at as int, public_run(row));
                }
                listed.insert(at, TestRunRecord::from(runs[i].clone()));
            }
            proof {
                assert forall|record: TestRunRecord| #[trigger]
                    listed@.contains(record) <==> shows_a_run(record, next, lookup) by {
                    if shows_a_run(record, next, lookup) {
                        let j = choose|j: int|
                            0 <= j < next.len() && asks_for_run(lookup, #[trigger] next[j])
                                && record == public_run(next[j]);
                        if j < i {
                            assert(shown[j] == next[j]);
                            assert(shows_a_run(record, shown, lookup));
                            assert(before.contains(record));
                        } else {
                            assert(next[j] == row);
                        }
                    }
                    if listed@.contains(record) {
                        if before.contains(record) {
                            let j = choose|j: int|
                                0 <= j < shown.len() && asks_for_run(lookup, #[trigger] shown[j])
                                    && record == public_run(shown[j]);
                            assert(next[j] == shown[j]);
                        } else {
                            assert(next[i as int] == row);
                        }
                    }
                }
            }
            i = i + 1;
        }
        assert(runs@.take(i as int) =~= runs@);
        SemaReadOutput::TestRunsQueried(
            TestRunListing {
                test_run_record_vector: listed,
                database_marker: DatabaseMarker(marker(self.store.commit_sequence())),
            },
        )
    }

    /// Lists the generations and deployments that `selection` selects.
    pub fn query_generations(&self, selection: Selection) -> (r: SemaReadOutput)
        ensures
            self.lists_generations(selection, r),
    {
        let all: &Vec<DeploymentRecord> = self.store.deployment_records();
        let mut records: Vec<DeploymentRecord> = Vec::new();
        let mut i: usize = 0;
        while i < all.len()
            invariant
                i <= all@.len(),
                records@ == selected_records(selection, all@.take(i as int)),
            decreases all@.len() - i,
        {
            assert(all@.take(i + 1).drop_last() =~= all@.take(i as int));
            assert(all@.take(i + 1).last() == all@[i as int]);
            if deployment_record_matches(&selection, &all[i]) {
                records.push(all[i].clone());
            }
            i = i + 1;
        }
        assert(all@.take(i as int) =~= all@);
        let live: &Vec<LiveGeneration> = self.store.live_generations();
        let mut generations: Vec<Generation> = Vec::new();
        let mut j: usize = 0;
        while j < live.len()
            invariant
                j <= live@.len(),
                generations@ == shown_generations(selection, live@.take(j as int), records@),
            decreases live@.len() - j,
        {
            assert(live@.take(j + 1).drop_last() =~= live@.take(j as int));
            assert(live@.take(j + 1).last() == live@[j as int]);
            if generation_matches(&selection, &live[j]) {
                generations.push(project_generation(&live[j], &records));
            }
            j = j + 1;
        }
        assert(live@.take(j as int) =~= live@);
        SemaReadOutput::GenerationsQueried(
            GenerationListing {
                generation_vector: generations,
                deployment_record_vector: records,
                state_marker: marker(self.store.commit_sequence()),
            },
        )
    }

    /// Reads the part of the log that `range` spans.
    pub fn read_event_log(&self, range: EventLogRange) -> (r: SemaReadOutput)
        ensures
            self.reads_log(range, r),
    {
        let entries = match self.store.event_log_in_range(range.from.0, range.until.0) {
            Some(entries) => entries,
            None => {
                return Self::read_missed(
                    self.store.commit_sequence(),
                    RejectionReason::EventLogPositionOutOfRange,
                );
            },
        };
        let mut deployments: Vec<DeploymentPhaseEvent> = Vec::new();
        let mut retentions: Vec<CacheRetentionTransitionEvent> = Vec::new();
        let mut i: usize = 0;
        while i < entries.len()
            invariant
                i <= entries@.len(),
                deployments@ == deployment_events(entries@.take(i as int)),
                retentions@ == retention_events(entries@.take(i as int)),
            decreases entries@.len() - i,
        {
            assert(entries@.take(i + 1).drop_last() =~= entries@.take(i as int));
            assert(entries@.take(i + 1).last() == entries@[i as int]);
            match &entries[i].logged_event {
                LoggedEvent::Deployment(event) => deployments.push(event.clone()),
                LoggedEvent::CacheRetention(event) => retentions.push(event.clone()),
                LoggedEvent::Container(_) => {},
            }
            i = i + 1;
        }
        assert(entries@.take(i as int) =~= entries@);
        SemaReadOutput::EventLogRead(
            EventLogPage {
                deployment_phase_event_vector: deployments,
                cache_retention_transition_event_vector: retentions,
                state_marker: marker(self.store.commit_sequence()),
            },
        )
    }

    /// Reports on a node's key material; the daemon keeps none.
    pub fn check_key_material(&self, query: KeyMaterialQuery) -> (r: SemaReadOutput)
        ensures
            self.checks_key_material(query, r),
    {
        SemaReadOutput::KeyMaterialChecked(
            KeyMaterialReport {
                node_name: query.node_name,
                string_vector: Vec::new(),
                state_marker: marker(self.store.commit_sequence()),
            },
        )
    }
}

} // verus!
