//! The durable state of the daemon: its tables, the identifiers it hands out,
//! and the commits that change them.

use crate::runtime_model::{
    AdmissionMarker, CommitSequence, ContainerLifecycleRecord, ContainerLifecycleTable, DeployJob,
    DeployJobTable, DeployJobView, DeploymentIdentifier, DeploymentLifecycle,
    DeploymentOutboxRecord, DeploymentOutboxTable, DeploymentPhase, DeploymentPhaseEvent,
    DeploymentRecord, DeploymentRecordTable, DeploymentRequestIdentity, DeploymentTerminal,
    EventLogEntry, EventLogPosition, EventLogTable, GcRoot, GcRootsTable, GenerationIdentifier,
    IdentifierAllocation, ImmutableRevision, LiveGeneration, LiveSetTable, LoggedEvent,
    OutboxDeliveryState, OutboxRetryCount, PendingTransitionIntent, PendingTransitionIntentTable,
    StateDigest, StateMarker, StoredTestRun, TerminalMarker, TestRunTable, TransitionIntentState,
    TransitionMarker, TransitionOrdinal,
};
use crate::schema_runtime::activation::boot_once_unit_text;
use vstd::prelude::*;

verus! {

// ---- keys -----------------------------------------------------------------------

/// The first position that holds `key`.
pub open spec fn first_key(keys: Seq<u64>, key: u64) -> Option<int>
    decreases keys.len(),
{
    if keys.len() == 0 {
        None
    } else if keys[0] == key {
        Some(0)
    } else {
        match first_key(keys.skip(1), key) {
            Some(at) => Some(at + 1),
            None => None,
        }
    }
}

/// No key occurs twice.
pub open spec fn are_distinct(keys: Seq<u64>) -> bool {
    forall|i: int, j: int| 0 <= i < j < keys.len() ==> #[trigger] keys[i] != #[trigger] keys[j]
}

/// `row` in place of the row with its key, or behind all others.
pub open spec fn upserted<T>(rows: Seq<T>, keys: Seq<u64>, key: u64, row: T) -> Seq<T> {
    match first_key(keys, key) {
        Some(at) => rows.update(at, row),
        None => rows.push(row),
    }
}

/// Where `first_key` finds a key.
pub proof fn lemma_first_key(keys: Seq<u64>, key: u64)
    ensures
        first_key(keys, key) is Some <==> keys.contains(key),
        first_key(keys, key) matches Some(at) ==> {
            &&& 0 <= at < keys.len()
            &&& keys[at] == key
            &&& forall|i: int| 0 <= i < at ==> keys[i] != key
        },
    decreases keys.len(),
{
    if keys.len() > 0 && keys[0] != key {
        let tail = keys.skip(1);
        lemma_first_key(tail, key);
        if keys.contains(key) {
            let i = choose|i: int| 0 <= i < keys.len() && keys[i] == key;
            assert(tail[i - 1] == key);
        }
        match first_key(tail, key) {
            Some(at) => {
                assert(keys[at + 1] == tail[at]);
                assert forall|i: int| 0 <= i < at + 1 implies keys[i] != key by {
                    if i > 0 {
                        assert(keys[i] == tail[i - 1]);
                    }
                }
            },
            None => {},
        }
    }
}

/// The only position of a key among distinct keys is the first.
pub proof fn lemma_first_key_unique(keys: Seq<u64>, key: u64, at: int)
    requires
        0 <= at < keys.len(),
        keys[at] == key,
        forall|i: int| 0 <= i < at ==> keys[i] != key,
    ensures
        first_key(keys, key) == Some(at),
{
    lemma_first_key(keys, key);
    assert(keys.contains(key));
    let found = first_key(keys, key)->0;
    if found < at {
        assert(keys[found] != key);
    } else if at < found {
        assert(keys[at] != key);
    }
}

fn find_key(keys: &Vec<u64>, key: u64) -> (r: Option<usize>)
    ensures
        match (r, first_key(keys@, key)) {
            (Some(at), Some(expected)) => at == expected && at < keys@.len(),
            (None, None) => true,
            _ => false,
        },
{
    let mut i: usize = 0;
    while i < keys.len()
        invariant
            i <= keys@.len(),
            forall|j: int| 0 <= j < i ==> keys@[j] != key,
        decreases keys@.len() - i,
    {
        if keys[i] == key {
            proof {
                lemma_first_key_unique(keys@, key, i as int);
            }
            return Some(i);
        }
        i = i + 1;
    }
    proof {
        lemma_first_key(keys@, key);
    }
    None
}

/// The deployment identifiers of records.
pub open spec fn record_keys(rows: Seq<DeploymentRecord>) -> Seq<u64> {
    rows.map_values(|row: DeploymentRecord| row.deployment_identifier.0)
}

/// The deployment identifiers of jobs.
pub open spec fn job_keys(rows: Seq<DeployJobView>) -> Seq<u64> {
    rows.map_values(|row: DeployJobView| row.deployment_identifier.0)
}

/// The generation identifiers of roots.
pub open spec fn root_keys(rows: Seq<GcRoot>) -> Seq<u64> {
    rows.map_values(|row: GcRoot| row.generation_identifier.0)
}

/// The generation identifiers of live generations.
pub open spec fn live_keys(rows: Seq<LiveGeneration>) -> Seq<u64> {
    rows.map_values(|row: LiveGeneration| row.generation_identifier.0)
}

/// The identifiers of test runs.
pub open spec fn run_keys(rows: Seq<StoredTestRun>) -> Seq<u64> {
    rows.map_values(|row: StoredTestRun| row.test_run_identifier.0)
}

/// The contents of job rows.
pub open spec fn job_views(rows: Seq<DeployJob>) -> Seq<DeployJobView> {
    rows.map_values(|row: DeployJob| row@)
}

/// No label stands on two roots.
pub open spec fn are_labels_distinct(roots: Seq<GcRoot>) -> bool {
    forall|i: int, j: int|
        0 <= i < j < roots.len() && (#[trigger] roots[i]).optional_pin_label is Some && (
        #[trigger] roots[j]).optional_pin_label is Some ==> roots[i].optional_pin_label->0@
            != roots[j].optional_pin_label->0@
}

/// No deployment event is marked with a commit after `commits`.
pub open spec fn are_events_committed(events: Seq<EventLogEntry>, commits: u64) -> bool {
    forall|i: int|
        0 <= i < events.len() ==> match (#[trigger] events[i]).logged_event {
            LoggedEvent::Deployment(event) => event.state_marker.commit_sequence.0 <= commits,
            _ => true,
        }
}

/// The largest of `keys`; zero where there are none.
pub open spec fn largest(keys: Seq<u64>) -> u64
    decreases keys.len(),
{
    if keys.len() == 0 {
        0
    } else if keys.last() > largest(keys.drop_last()) {
        keys.last()
    } else {
        largest(keys.drop_last())
    }
}

proof fn lemma_largest(keys: Seq<u64>, i: int)
    requires
        0 <= i < keys.len(),
    ensures
        keys[i] <= largest(keys),
    decreases keys.len(),
{
    if i < keys.len() - 1 {
        lemma_largest(keys.drop_last(), i);
    }
}

// ---- contents -------------------------------------------------------------------------

/// The tables and counters of the durable state.
#[derive(Clone, Debug, PartialEq, Eq)]
pub struct Store {
    pub live_set: LiveSetTable,
    pub deployments: DeploymentRecordTable,
    pub allocation: IdentifierAllocation,
    pub outbox: DeploymentOutboxTable,
    pub intents: PendingTransitionIntentTable,
    pub roots: GcRootsTable,
    pub events: EventLogTable,
    pub containers: ContainerLifecycleTable,
    pub jobs: DeployJobTable,
    pub runs: TestRunTable,
    pub commits: u64,
    pub next_token: u64,
}

/// The contents of the durable state.
pub struct StoreView {
    pub live_set: Seq<LiveGeneration>,
    pub deployments: Seq<DeploymentRecord>,
    pub allocation: IdentifierAllocation,
    pub outbox: Seq<DeploymentOutboxRecord>,
    pub intents: Seq<PendingTransitionIntent>,
    pub roots: Seq<GcRoot>,
    pub events: Seq<EventLogEntry>,
    pub containers: Seq<ContainerLifecycleRecord>,
    pub jobs: Seq<DeployJobView>,
    pub runs: Seq<StoredTestRun>,
    pub commits: u64,
    pub next_token: u64,
}

impl View for Store {
    type V = StoreView;

    open spec fn view(&self) -> StoreView {
        StoreView {
            live_set: self.live_set.0@,
            deployments: self.deployments.0@,
            allocation: self.allocation,
            outbox: self.outbox.0@,
            intents: self.intents.0@,
            roots: self.roots.0@,
            events: self.events.0@,
            containers: self.containers.0@,
            jobs: job_views(self.jobs.0@),
            runs: self.runs.0@,
            commits: self.commits,
            next_token: self.next_token,
        }
    }
}

/// The marker of the commit with ordinal `commit`.
pub open spec fn marker_of(commit: u64) -> StateMarker {
    StateMarker { commit_sequence: CommitSequence(commit), state_digest: StateDigest(commit) }
}

/// The marker of a commit.
pub fn marker(commit_sequence: u64) -> (r: StateMarker)
    ensures
        r == marker_of(commit_sequence),
{
    StateMarker {
        commit_sequence: CommitSequence(commit_sequence),
        state_digest: StateDigest(commit_sequence),
    }
}

/// The phase that announces a lifecycle.
pub open spec fn phase_of(lifecycle: DeploymentLifecycle) -> DeploymentPhase {
    match lifecycle {
        DeploymentLifecycle::Submitted => DeploymentPhase::Submitted,
        DeploymentLifecycle::Building => DeploymentPhase::Building,
        DeploymentLifecycle::Built => DeploymentPhase::Built,
        DeploymentLifecycle::Copying => DeploymentPhase::Copying,
        DeploymentLifecycle::Activating => DeploymentPhase::Activating,
        DeploymentLifecycle::Activated => DeploymentPhase::Activated,
        DeploymentLifecycle::Completed => DeploymentPhase::Completed,
        DeploymentLifecycle::Rejected => DeploymentPhase::Rejected,
        DeploymentLifecycle::Failed => DeploymentPhase::Failed,
    }
}

fn lifecycle_phase(lifecycle: DeploymentLifecycle) -> (r: DeploymentPhase)
    ensures
        r == phase_of(lifecycle),
{
    match lifecycle {
        DeploymentLifecycle::Submitted => DeploymentPhase::Submitted,
        DeploymentLifecycle::Building => DeploymentPhase::Building,
        DeploymentLifecycle::Built => DeploymentPhase::Built,
        DeploymentLifecycle::Copying => DeploymentPhase::Copying,
        DeploymentLifecycle::Activating => DeploymentPhase::Activating,
        DeploymentLifecycle::Activated => DeploymentPhase::Activated,
        DeploymentLifecycle::Completed => DeploymentPhase::Completed,
        DeploymentLifecycle::Rejected => DeploymentPhase::Rejected,
        DeploymentLifecycle::Failed => DeploymentPhase::Failed,
    }
}

/// The announcement of a record's present lifecycle.
pub open spec fn event_of(
    record: DeploymentRecord,
    position: u64,
    marker: StateMarker,
) -> DeploymentPhaseEvent {
    DeploymentPhaseEvent {
        deployment_identifier: record.deployment_identifier,
        generation_identifier: record.generation_identifier,
        cluster_name: record.deployment_request_identity.cluster_name,
        node_name: record.deployment_request_identity.node_name,
        deployment_phase: phase_of(record.deployment_lifecycle),
        event_log_position: EventLogPosition(position),
        state_marker: marker,
        optional_immutable_revision: record.deployment_request_identity.optional_immutable_revision,
        optional_deployment_terminal: record.optional_deployment_terminal,
    }
}

/// The acknowledged intent of an announced event.
pub open spec fn intent_of(event: DeploymentPhaseEvent, ordinal: u64) -> PendingTransitionIntent {
    PendingTransitionIntent {
        deployment_identifier: event.deployment_identifier,
        generation_identifier: event.generation_identifier,
        cluster_name: event.cluster_name,
        node_name: event.node_name,
        deployment_phase: event.deployment_phase,
        event_log_position: event.event_log_position,
        optional_immutable_revision: event.optional_immutable_revision,
        optional_deployment_terminal: event.optional_deployment_terminal,
        transition_ordinal: TransitionOrdinal(ordinal),
        optional_transition_marker: Some(TransitionMarker(event.state_marker)),
        transition_intent_state: TransitionIntentState::Acknowledged,
    }
}

/// The delivered outbox row of an announced event.
pub open spec fn outbox_of(event: DeploymentPhaseEvent) -> DeploymentOutboxRecord {
    DeploymentOutboxRecord {
        deployment_identifier: event.deployment_identifier,
        transition_marker: TransitionMarker(event.state_marker),
        deployment_phase_event: event,
        outbox_delivery_state: OutboxDeliveryState::Acknowledged,
        outbox_retry_count: OutboxRetryCount(0),
    }
}

/// The log row of an announced event.
pub open spec fn entry_of(event: DeploymentPhaseEvent) -> EventLogEntry {
    EventLogEntry {
        event_log_position: event.event_log_position,
        logged_event: LoggedEvent::Deployment(event),
    }
}

impl StoreView {
    /// The marker of the next commit.
    pub open spec fn next_marker(self) -> StateMarker {
        marker_of((self.commits + 1) as u64)
    }

    /// `event` announced: logged, delivered, and its intent acknowledged.
    pub open spec fn announced(self, event: DeploymentPhaseEvent) -> StoreView {
        StoreView {
            events: self.events.push(entry_of(event)),
            intents: self.intents.push(intent_of(event, self.intents.len() as u64)),
            outbox: self.outbox.push(outbox_of(event)),
            ..self
        }
    }

    /// One commit later.
    pub open spec fn committed(self) -> StoreView {
        StoreView { commits: (self.commits + 1) as u64, ..self }
    }

    /// `job` in place of the job of its deployment.
    pub open spec fn with_job(self, job: DeployJobView) -> StoreView {
        StoreView {
            jobs: upserted(
                self.jobs,
                job_keys(self.jobs),
                job.deployment_identifier.0,
                job,
            ),
            ..self
        }
    }

    /// `record` in place of the record of its deployment.
    pub open spec fn with_record(self, record: DeploymentRecord) -> StoreView {
        StoreView {
            deployments: upserted(
                self.deployments,
                record_keys(self.deployments),
                record.deployment_identifier.0,
                record,
            ),
            ..self
        }
    }

    /// Whether `deployment` has a record.
    pub open spec fn has_record(self, deployment: u64) -> bool {
        record_keys(self.deployments).contains(deployment)
    }

    /// The record of `deployment`.
    pub open spec fn record(self, deployment: u64) -> DeploymentRecord {
        self.deployments[first_key(record_keys(self.deployments), deployment)->0]
    }

    /// The record that the next admission of `identity` gets.
    pub open spec fn admitted_record(self, identity: DeploymentRequestIdentity) -> DeploymentRecord {
        DeploymentRecord {
            deployment_identifier: DeploymentIdentifier(self.allocation.next_deployment_identifier),
            generation_identifier: GenerationIdentifier(self.allocation.next_generation_identifier),
            deployment_request_identity: identity,
            optional_admission_marker: Some(AdmissionMarker(self.next_marker())),
            deployment_lifecycle: DeploymentLifecycle::Submitted,
            optional_terminal_marker: None,
            optional_deployment_terminal: None,
        }
    }

    /// The job that the next admission gets: `cursor` under the new identifiers.
    pub open spec fn admitted_job(self, cursor: DeployJobView) -> DeployJobView {
        DeployJobView {
            deployment_identifier: DeploymentIdentifier(self.allocation.next_deployment_identifier),
            generation_identifier: GenerationIdentifier(self.allocation.next_generation_identifier),
            boot_once_unit: match cursor.boot_once_unit {
                Some(_) => Some(boot_once_unit_text(self.allocation.next_deployment_identifier)),
                None => None,
            },
            ..cursor
        }
    }

    /// The identifiers after one deployment and one event position were handed out.
    pub open spec fn allocation_after_deployment(self) -> IdentifierAllocation {
        IdentifierAllocation {
            next_deployment_identifier: (self.allocation.next_deployment_identifier + 1) as u64,
            next_generation_identifier: (self.allocation.next_generation_identifier + 1) as u64,
            next_event_log_position: (self.allocation.next_event_log_position + 1) as u64,
        }
    }

    /// The identifiers after one event position was handed out.
    pub open spec fn allocation_after_event(self) -> IdentifierAllocation {
        IdentifierAllocation {
            next_event_log_position: (self.allocation.next_event_log_position + 1) as u64,
            ..self.allocation
        }
    }

    /// The record of a request that is refused at once.
    pub open spec fn refused_record(
        self,
        identity: DeploymentRequestIdentity,
        terminal: DeploymentTerminal,
    ) -> DeploymentRecord {
        DeploymentRecord {
            deployment_identifier: DeploymentIdentifier(self.allocation.next_deployment_identifier),
            generation_identifier: GenerationIdentifier(self.allocation.next_generation_identifier),
            deployment_request_identity: identity,
            optional_admission_marker: None,
            deployment_lifecycle: DeploymentLifecycle::Rejected,
            optional_terminal_marker: Some(TerminalMarker(self.next_marker())),
            optional_deployment_terminal: Some(terminal),
        }
    }

    /// The state after a request was admitted.
    pub open spec fn after_admission(
        self,
        identity: DeploymentRequestIdentity,
        cursor: DeployJobView,
    ) -> StoreView {
        let record = self.admitted_record(identity);
        StoreView {
            deployments: self.deployments.push(record),
            allocation: self.allocation_after_deployment(),
            ..self.with_job(self.admitted_job(cursor)).announced(
                event_of(record, self.allocation.next_event_log_position, self.next_marker()),
            )
        }.committed()
    }

    /// The state after a request was refused.
    pub open spec fn after_refusal(
        self,
        identity: DeploymentRequestIdentity,
        terminal: DeploymentTerminal,
    ) -> StoreView {
        let record = self.refused_record(identity, terminal);
        StoreView {
            deployments: self.deployments.push(record),
            allocation: self.allocation_after_deployment(),
            ..self.announced(
                event_of(record, self.allocation.next_event_log_position, self.next_marker()),
            )
        }.committed()
    }

    /// The record of `deployment` once it has ended.
    pub open spec fn ended_record(
        self,
        deployment: u64,
        lifecycle: DeploymentLifecycle,
        terminal: DeploymentTerminal,
    ) -> DeploymentRecord {
        DeploymentRecord {
            deployment_lifecycle: lifecycle,
            optional_terminal_marker: Some(TerminalMarker(self.next_marker())),
            optional_deployment_terminal: Some(terminal),
            ..self.record(deployment)
        }
    }

    /// The state after `deployment` has ended.
    pub open spec fn after_end(
        self,
        deployment: u64,
        lifecycle: DeploymentLifecycle,
        terminal: DeploymentTerminal,
    ) -> StoreView {
        let record = self.ended_record(deployment, lifecycle, terminal);
        StoreView {
            allocation: self.allocation_after_event(),
            ..self.with_record(record).announced(
                event_of(record, self.allocation.next_event_log_position, self.next_marker()),
            )
        }.committed()
    }

    /// `event` as it is announced: with the marker of its own commit.
    pub open spec fn stamped(self, event: DeploymentPhaseEvent) -> DeploymentPhaseEvent {
        DeploymentPhaseEvent { state_marker: self.next_marker(), ..event }
    }

    /// The state after `deployment` entered a phase.
    pub open spec fn after_phase(
        self,
        deployment: u64,
        lifecycle: DeploymentLifecycle,
        job: DeployJobView,
        event: DeploymentPhaseEvent,
    ) -> StoreView {
        self.with_record(
            DeploymentRecord { deployment_lifecycle: lifecycle, ..self.record(deployment) },
        ).with_job(job).announced(self.stamped(event)).committed()
    }

    /// The state after the source of `deployment` was resolved to `revision`.
    pub open spec fn after_resolution(
        self,
        deployment: u64,
        revision: ImmutableRevision,
        job: DeployJobView,
    ) -> StoreView {
        let record = self.record(deployment);
        self.with_record(
            DeploymentRecord {
                deployment_request_identity: DeploymentRequestIdentity {
                    optional_immutable_revision: Some(revision),
                    ..record.deployment_request_identity
                },
                ..record
            },
        ).with_job(job).committed()
    }

    /// The state after `generation` was put into effect.
    pub open spec fn after_activation(self, generation: LiveGeneration, root: GcRoot) -> StoreView {
        StoreView {
            live_set: upserted(
                self.live_set,
                live_keys(self.live_set),
                generation.generation_identifier.0,
                generation,
            ),
            roots: upserted(
                self.roots,
                root_keys(self.roots),
                root.generation_identifier.0,
                root,
            ),
            ..self
        }.committed()
    }

    /// The state after a root was changed.
    pub open spec fn after_root_change(self, root: GcRoot) -> StoreView {
        StoreView {
            roots: upserted(
                self.roots,
                root_keys(self.roots),
                root.generation_identifier.0,
                root,
            ),
            ..self
        }.committed()
    }

    /// The state after the root at `at` was dropped.
    pub open spec fn after_root_drop(self, at: int) -> StoreView {
        StoreView { roots: self.roots.remove(at), ..self }.committed()
    }

    /// The state after a test run was recorded.
    pub open spec fn after_run(self, run: StoredTestRun) -> StoreView {
        StoreView {
            runs: upserted(self.runs, run_keys(self.runs), run.test_run_identifier.0, run),
            ..self
        }.committed()
    }

    /// The state after a container transition was recorded.
    pub open spec fn after_container(
        self,
        record: ContainerLifecycleRecord,
        entry: EventLogEntry,
    ) -> StoreView {
        StoreView {
            containers: self.containers.push(record),
            events: self.events.push(entry),
            ..self
        }.committed()
    }

    /// The tables agree with each other and with the identifiers handed out:
    /// deployments are numbered in order below the next identifier, every other
    /// table holds one row per key, no label pins two generations, and no event is
    /// marked with a commit that is yet to come.
    pub open spec fn is_consistent(self) -> bool {
        &&& forall|i: int|
            0 <= i < self.deployments.len() ==> (#[trigger] self.deployments[i]).deployment_identifier.0
                < self.allocation.next_deployment_identifier
                && self.deployments[i].generation_identifier.0
                < self.allocation.next_generation_identifier
        &&& forall|i: int, j: int|
            0 <= i < j < self.deployments.len() ==> (#[trigger] self.deployments[i]).deployment_identifier.0
                < (#[trigger] self.deployments[j]).deployment_identifier.0
        &&& are_distinct(job_keys(self.jobs))
        &&& are_distinct(root_keys(self.roots))
        &&& are_distinct(live_keys(self.live_set))
        &&& are_distinct(run_keys(self.runs))
        &&& are_labels_distinct(self.roots)
        &&& are_events_committed(self.events, self.commits)
    }

    /// There is room for `commits` more commits and `positions` more positions in the
    /// event log.
    pub open spec fn fits(self, commits: int, positions: int) -> bool {
        &&& self.commits + commits <= u64::MAX
        &&& self.allocation.next_event_log_position + positions <= u64::MAX
    }

    /// There is room for one more deployment, admitted or refused.
    pub open spec fn fits_deployment(self) -> bool {
        &&& self.fits(1, 1)
        &&& self.allocation.next_deployment_identifier < u64::MAX
        &&& self.allocation.next_generation_identifier < u64::MAX
    }

    /// There is room for one more subscription.
    pub open spec fn fits_subscription(self) -> bool {
        self.next_token < u64::MAX
    }

    /// There is room for one more test run.
    pub open spec fn fits_run(self) -> bool {
        largest(run_keys(self.runs)) < u64::MAX
    }
}

/// An upsert keeps keys distinct.
proof fn lemma_upsert_keeps_keys(keys: Seq<u64>, key: u64)
    requires
        are_distinct(keys),
    ensures
        are_distinct(upserted(keys, keys, key, key)),
{
    lemma_first_key(keys, key);
    let after = upserted(keys, keys, key, key);
    match first_key(keys, key) {
        Some(at) => {
            assert(after =~= keys);
        },
        None => {
            assert forall|i: int, j: int| 0 <= i < j < after.len() implies #[trigger] after[i]
                != #[trigger] after[j] by {
                assert(after[i] == keys[i]);
                if j == keys.len() {
                    assert(keys.contains(keys[i]));
                }
            }
        },
    }
}

// ---- operations -----------------------------------------------------------------------------

impl Default for Store {
    fn default() -> (r: Self)
        ensures
            r.is_virgin(),
            r@.is_consistent(),
    {
        Self::new()
    }
}

impl Store {
    /// Nothing has been recorded, and every identifier starts at one.
    pub open spec fn is_virgin(&self) -> bool {
        &&& self@.live_set.len() == 0
        &&& self@.deployments.len() == 0
        &&& self@.outbox.len() == 0
        &&& self@.intents.len() == 0
        &&& self@.roots.len() == 0
        &&& self@.events.len() == 0
        &&& self@.containers.len() == 0
        &&& self@.jobs.len() == 0
        &&& self@.runs.len() == 0
        &&& self@.commits == 0
        &&& self@.next_token == 1
        &&& self@.allocation == (IdentifierAllocation {
            next_deployment_identifier: 1,
            next_generation_identifier: 1,
            next_event_log_position: 1,
        })
    }

    /// An empty state.
    pub fn new() -> (r: Self)
        ensures
            r.is_virgin(),
            r@.is_consistent(),
    {
        Store {
            live_set: LiveSetTable(Vec::new()),
            deployments: DeploymentRecordTable(Vec::new()),
            allocation: IdentifierAllocation {
                next_deployment_identifier: 1,
                next_generation_identifier: 1,
                next_event_log_position: 1,
            },
            outbox: DeploymentOutboxTable(Vec::new()),
            intents: PendingTransitionIntentTable(Vec::new()),
            roots: GcRootsTable(Vec::new()),
            events: EventLogTable(Vec::new()),
            containers: ContainerLifecycleTable(Vec::new()),
            jobs: DeployJobTable(Vec::new()),
            runs: TestRunTable(Vec::new()),
            commits: 0,
            next_token: 1,
        }
    }

    /// Whether there is room for `commits` more commits and `positions` more positions
    /// in the event log.
    pub fn has_room(&self, commits: u64, positions: u64) -> (r: bool)
        ensures
            r == self@.fits(commits as int, positions as int),
    {
        self.commits <= u64::MAX - commits && self.allocation.next_event_log_position <= u64::MAX
            - positions
    }

    /// Whether there is room for one more deployment.
    pub fn has_room_for_deployment(&self) -> (r: bool)
        ensures
            r == self@.fits_deployment(),
    {
        self.has_room(1, 1) && self.allocation.next_deployment_identifier < u64::MAX
            && self.allocation.next_generation_identifier < u64::MAX
    }

    /// Whether there is room for one more subscription.
    pub fn has_room_for_subscription(&self) -> (r: bool)
        ensures
            r == self@.fits_subscription(),
    {
        self.next_token < u64::MAX
    }

    /// Whether there is room for one more test run.
    pub fn has_room_for_run(&self) -> (r: bool)
        ensures
            r == self@.fits_run(),
    {
        self.largest_run() < u64::MAX
    }

    /// The ordinal of the last commit.
    pub fn commit_sequence(&self) -> (r: u64)
        ensures
            r == self@.commits,
    {
        self.commits
    }

    /// Hands out a subscription token.
    pub fn next_subscription_token(&mut self) -> (r: u64)
        requires
            old(self)@.fits_subscription(),
        ensures
            r == old(self)@.next_token,
            final(self)@ == (StoreView {
                next_token: (old(self)@.next_token + 1) as u64,
                ..old(self)@
            }),
    {
        let token = self.next_token;
        self.next_token = token + 1;
        token
    }

    /// Hands out an event log position.
    pub fn allocate_event_log_position(&mut self) -> (r: u64)
        requires
            old(self)@.fits(1, 1),
        ensures
            r == old(self)@.allocation.next_event_log_position,
            final(self)@ == (StoreView {
                allocation: old(self)@.allocation_after_event(),
                ..old(self)@
            }).committed(),
            old(self)@.is_consistent() ==> final(self)@.is_consistent(),
    {
        let position = self.allocation.next_event_log_position;
        self.allocation.next_event_log_position = position + 1;
        self.commits = self.commits + 1;
        position
    }

    /// The deployments, in the order of their admission or refusal.
    pub fn deployment_records(&self) -> (r: &Vec<DeploymentRecord>)
        ensures
            r@ == self@.deployments,
    {
        &self.deployments.0
    }

    /// The in-flight jobs.
    pub fn deploy_jobs(&self) -> (r: &Vec<DeployJob>)
        ensures
            job_views(r@) == self@.jobs,
            r@ == self.jobs.0@,
    {
        &self.jobs.0
    }

    /// The transition intents.
    pub fn pending_transition_intents(&self) -> (r: &Vec<PendingTransitionIntent>)
        ensures
            r@ == self@.intents,
    {
        &self.intents.0
    }

    /// The garbage-collection roots.
    pub fn gc_roots(&self) -> (r: &Vec<GcRoot>)
        ensures
            r@ == self@.roots,
    {
        &self.roots.0
    }

    /// The live generations.
    pub fn live_generations(&self) -> (r: &Vec<LiveGeneration>)
        ensures
            r@ == self@.live_set,
    {
        &self.live_set.0
    }

    /// The test runs.
    pub fn test_runs(&self) -> (r: &Vec<StoredTestRun>)
        ensures
            r@ == self@.runs,
    {
        &self.runs.0
    }

    /// The container transitions.
    pub fn container_transitions(&self) -> (r: &Vec<ContainerLifecycleRecord>)
        ensures
            r@ == self@.containers,
    {
        &self.containers.0
    }

    fn record_index(&self, deployment: u64) -> (r: Option<usize>)
        ensures
            match (r, first_key(record_keys(self@.deployments), deployment)) {
                (Some(at), Some(expected)) => at == expected && at < self@.deployments.len(),
                (None, None) => true,
                _ => false,
            },
    {
        let mut keys: Vec<u64> = Vec::new();
        let mut i: usize = 0;
        while i < self.deployments.0.len()
            invariant
                i <= self.deployments.0@.len(),
                keys@ =~= record_keys(self.deployments.0@).take(i as int),
            decreases self.deployments.0@.len() - i,
        {
            keys.push(self.deployments.0[i].deployment_identifier.0);
            i = i + 1;
        }
        assert(keys@ =~= record_keys(self.deployments.0@));
        find_key(&keys, deployment)
    }

    fn job_index(&self, deployment: u64) -> (r: Option<usize>)
        ensures
            match (r, first_key(job_keys(self@.jobs), deployment)) {
                (Some(at), Some(expected)) => at == expected && at < self@.jobs.len(),
                (None, None) => true,
                _ => false,
            },
    {
        let mut keys: Vec<u64> = Vec::new();
        let mut i: usize = 0;
        while i < self.jobs.0.len()
            invariant
                i <= self.jobs.0@.len(),
                keys@ =~= job_keys(job_views(self.jobs.0@)).take(i as int),
            decreases self.jobs.0@.len() - i,
        {
            keys.push(self.jobs.0[i].deployment_identifier.0);
            i = i + 1;
        }
        assert(keys@ =~= job_keys(job_views(self.jobs.0@)));
        find_key(&keys, deployment)
    }

    fn root_index(&self, generation: u64) -> (r: Option<usize>)
        ensures
            match (r, first_key(root_keys(self@.roots), generation)) {
                (Some(at), Some(expected)) => at == expected && at < self@.roots.len(),
                (None, None) => true,
                _ => false,
            },
    {
        let mut keys: Vec<u64> = Vec::new();
        let mut i: usize = 0;
        while i < self.roots.0.len()
            invariant
                i <= self.roots.0@.len(),
                keys@ =~= root_keys(self.roots.0@).take(i as int),
            decreases self.roots.0@.len() - i,
        {
            keys.push(self.roots.0[i].generation_identifier.0);
            i = i + 1;
        }
        assert(keys@ =~= root_keys(self.roots.0@));
        find_key(&keys, generation)
    }

    fn live_index(&self, generation: u64) -> (r: Option<usize>)
        ensures
            match (r, first_key(live_keys(self@.live_set), generation)) {
                (Some(at), Some(expected)) => at == expected && at < self@.live_set.len(),
                (None, None) => true,
                _ => false,
            },
    {
        let mut keys: Vec<u64> = Vec::new();
        let mut i: usize = 0;
        while i < self.live_set.0.len()
            invariant
                i <= self.live_set.0@.len(),
                keys@ =~= live_keys(self.live_set.0@).take(i as int),
            decreases self.live_set.0@.len() - i,
        {
            keys.push(self.live_set.0[i].generation_identifier.0);
            i = i + 1;
        }
        assert(keys@ =~= live_keys(self.live_set.0@));
        find_key(&keys, generation)
    }

    fn run_index(&self, run: u64) -> (r: Option<usize>)
        ensures
            match (r, first_key(run_keys(self@.runs), run)) {
                (Some(at), Some(expected)) => at == expected && at < self@.runs.len(),
                (None, None) => true,
                _ => false,
            },
    {
        let mut keys: Vec<u64> = Vec::new();
        let mut i: usize = 0;
        while i < self.runs.0.len()
            invariant
                i <= self.runs.0@.len(),
                keys@ =~= run_keys(self.runs.0@).take(i as int),
            decreases self.runs.0@.len() - i,
        {
            keys.push(self.runs.0[i].test_run_identifier.0);
            i = i + 1;
        }
        assert(keys@ =~= run_keys(self.runs.0@));
        find_key(&keys, run)
    }

    fn largest_run(&self) -> (r: u64)
        ensures
            r == largest(run_keys(self@.runs)),
    {
        let ghost keys = run_keys(self.runs.0@);
        let mut found: u64 = 0;
        let mut i: usize = 0;
        while i < self.runs.0.len()
            invariant
                i <= self.runs.0@.len(),
                keys == run_keys(self.runs.0@),
                found == largest(keys.take(i as int)),
            decreases self.runs.0@.len() - i,
        {
            assert(keys.take(i + 1).drop_last() =~= keys.take(i as int));
            assert(keys.take(i + 1).last() == self.runs.0@[i as int].test_run_identifier.0);
            if self.runs.0[i].test_run_identifier.0 > found {
                found = self.runs.0[i].test_run_identifier.0;
            }
            i = i + 1;
        }
        assert(keys.take(i as int) =~= keys);
        found
    }

    /// The identifier of the next test run: one above all that were recorded.
    pub fn next_test_run_identifier(&self) -> (r: u64)
        requires
            self@.fits_run(),
        ensures
            r == largest(run_keys(self@.runs)) + 1,
            !run_keys(self@.runs).contains(r),
    {
        let r = self.largest_run() + 1;
        proof {
            let keys = run_keys(self@.runs);
            if keys.contains(r) {
                let i = choose|i: int| 0 <= i < keys.len() && keys[i] == r;
                lemma_largest(keys, i);
            }
        }
        r
    }

    /// Announces `event`: logs it, delivers it, and acknowledges its intent.
    fn announce(&mut self, event: DeploymentPhaseEvent)
        ensures
            final(self)@ == old(self)@.announced(event),
            final(self).jobs == old(self).jobs,
    {
        let ordinal: u64 = self.intents.0.len() as u64;
        self.events.0.push(
            EventLogEntry {
                event_log_position: event.event_log_position.clone(),
                logged_event: LoggedEvent::Deployment(event.clone()),
            },
        );
        self.intents.0.push(
            PendingTransitionIntent {
                deployment_identifier: event.deployment_identifier.clone(),
                generation_identifier: event.generation_identifier.clone(),
                cluster_name: event.cluster_name.clone(),
                node_name: event.node_name.clone(),
                deployment_phase: event.deployment_phase,
                event_log_position: event.event_log_position.clone(),
                optional_immutable_revision: event.optional_immutable_revision.clone(),
                optional_deployment_terminal: event.optional_deployment_terminal.clone(),
                transition_ordinal: TransitionOrdinal(ordinal),
                optional_transition_marker: Some(TransitionMarker(event.state_marker.clone())),
                transition_intent_state: TransitionIntentState::Acknowledged,
            },
        );
        self.outbox.0.push(
            DeploymentOutboxRecord {
                deployment_identifier: event.deployment_identifier.clone(),
                transition_marker: TransitionMarker(event.state_marker.clone()),
                deployment_phase_event: event,
                outbox_delivery_state: OutboxDeliveryState::Acknowledged,
                outbox_retry_count: OutboxRetryCount(0),
            },
        );
        assert(self@.events =~= old(self)@.announced(event).events);
        assert(self@.intents =~= old(self)@.announced(event).intents);
        assert(self@.outbox =~= old(self)@.announced(event).outbox);
    }

    fn announcement(record: &DeploymentRecord, position: u64, marker: StateMarker) -> (r:
        DeploymentPhaseEvent)
        ensures
            r == event_of(*record, position, marker),
    {
        DeploymentPhaseEvent {
            deployment_identifier: record.deployment_identifier.clone(),
            generation_identifier: record.generation_identifier.clone(),
            cluster_name: record.deployment_request_identity.cluster_name.clone(),
            node_name: record.deployment_request_identity.node_name.clone(),
            deployment_phase: lifecycle_phase(record.deployment_lifecycle),
            event_log_position: EventLogPosition(position),
            state_marker: marker,
            optional_immutable_revision: record.deployment_request_identity.optional_immutable_revision.clone(),
            optional_deployment_terminal: record.optional_deployment_terminal.clone(),
        }
    }

    fn put_job(&mut self, job: DeployJob)
        requires
            old(self)@.is_consistent(),
        ensures
            final(self)@ == old(self)@.with_job(job@),
            final(self)@.is_consistent(),
    {
        let ghost key = job.deployment_identifier.0;
        let ghost before = job_keys(self@.jobs);
        let ghost view = job@;
        match self.job_index(job.deployment_identifier.0) {
            Some(at) => {
                self.jobs.0.set(at, job);
                assert(job_views(self.jobs.0@) =~= job_views(old(self).jobs.0@).update(
                    at as int,
                    view,
                ));
            },
            None => {
                self.jobs.0.push(job);
                assert(job_views(self.jobs.0@) =~= job_views(old(self).jobs.0@).push(view));
            },
        }
        proof {
            lemma_first_key(before, key);
            lemma_upsert_keeps_keys(before, key);
            assert(job_keys(self@.jobs) =~= upserted(before, before, key, key));
        }
    }

    fn put_record(&mut self, at: usize, record: DeploymentRecord)
        requires
            old(self)@.is_consistent(),
            at < old(self)@.deployments.len(),
            record.deployment_identifier == old(self)@.deployments[at as int].deployment_identifier,
            record.generation_identifier == old(self)@.deployments[at as int].generation_identifier,
            first_key(record_keys(old(self)@.deployments), record.deployment_identifier.0) == Some(
                at as int,
            ),
        ensures
            final(self)@ == old(self)@.with_record(record),
            final(self)@.is_consistent(),
            final(self).jobs == old(self).jobs,
    {
        self.deployments.0.set(at, record);
    }

    /// Admits a request: hands out its identifiers, records it, keeps `cursor`
    /// as its job, and announces the submission, all in one commit.
    pub fn allocate_deployment_record(
        &mut self,
        identity: DeploymentRequestIdentity,
        cursor: DeployJob,
    ) -> (r: DeploymentRecord)
        requires
            old(self)@.is_consistent(),
            old(self)@.fits_deployment(),
        ensures
            r == old(self)@.admitted_record(identity),
            final(self)@ == old(self)@.after_admission(identity, cursor@),
            final(self)@.is_consistent(),
    {
        let ghost before = self@;
        let deployment = self.allocation.next_deployment_identifier;
        let generation = self.allocation.next_generation_identifier;
        let position = self.allocation.next_event_log_position;
        let commit = self.commits + 1;
        let record = DeploymentRecord {
            deployment_identifier: DeploymentIdentifier(deployment),
            generation_identifier: GenerationIdentifier(generation),
            deployment_request_identity: identity,
            optional_admission_marker: Some(AdmissionMarker(marker(commit))),
            deployment_lifecycle: DeploymentLifecycle::Submitted,
            optional_terminal_marker: None,
            optional_deployment_terminal: None,
        };
        let ghost cursor_view = cursor@;
        let unit: Option<String> = match cursor.boot_once_unit {
            Some(_) => Some(DeploymentIdentifier(deployment).boot_once_unit_name()),
            None => None,
        };
        let mut job = cursor;
        job.deployment_identifier = DeploymentIdentifier(deployment);
        job.generation_identifier = GenerationIdentifier(generation);
        job.boot_once_unit = unit;
        proof {
            assert(job@ == before.admitted_job(cursor_view));
        }
        self.put_job(job);
        self.announce(Self::announcement(&record, position, marker(commit)));
        self.deployments.0.push(record.clone());
        self.allocation.next_deployment_identifier = deployment + 1;
        self.allocation.next_generation_identifier = generation + 1;
        self.allocation.next_event_log_position = position + 1;
        self.commits = commit;
        proof {
            assert(self@.deployments =~= before.deployments.push(record));
        }
        record
    }

    /// Refuses a request at once: hands out its identifiers, records its end, and
    /// announces the refusal, all in one commit.
    pub fn reject_deployment_request(
        &mut self,
        identity: DeploymentRequestIdentity,
        terminal: DeploymentTerminal,
    ) -> (r: DeploymentRecord)
        requires
            old(self)@.is_consistent(),
            old(self)@.fits_deployment(),
        ensures
            r == old(self)@.refused_record(identity, terminal),
            final(self)@ == old(self)@.after_refusal(identity, terminal),
            final(self)@.is_consistent(),
    {
        let ghost before = self@;
        let deployment = self.allocation.next_deployment_identifier;
        let generation = self.allocation.next_generation_identifier;
        let position = self.allocation.next_event_log_position;
        let commit = self.commits + 1;
        let record = DeploymentRecord {
            deployment_identifier: DeploymentIdentifier(deployment),
            generation_identifier: GenerationIdentifier(generation),
            deployment_request_identity: identity,
            optional_admission_marker: None,
            deployment_lifecycle: DeploymentLifecycle::Rejected,
            optional_terminal_marker: Some(TerminalMarker(marker(commit))),
            optional_deployment_terminal: Some(terminal),
        };
        self.announce(Self::announcement(&record, position, marker(commit)));
        self.deployments.0.push(record.clone());
        self.allocation.next_deployment_identifier = deployment + 1;
        self.allocation.next_generation_identifier = generation + 1;
        self.allocation.next_event_log_position = position + 1;
        self.commits = commit;
        assert(self@.deployments =~= before.deployments.push(record));
        record
    }

    /// Ends a deployment and announces how.
    pub fn terminalize_deployment(
        &mut self,
        deployment: u64,
        lifecycle: DeploymentLifecycle,
        terminal: DeploymentTerminal,
    ) -> (r: DeploymentRecord)
        requires
            old(self)@.is_consistent(),
            old(self)@.fits(1, 1),
            old(self)@.has_record(deployment),
        ensures
            r == old(self)@.ended_record(deployment, lifecycle, terminal),
            final(self)@ == old(self)@.after_end(deployment, lifecycle, terminal),
            final(self)@.is_consistent(),
    {
        let ghost before = self@;
        proof {
            lemma_first_key(record_keys(self@.deployments), deployment);
        }
        let at = self.record_index(deployment).unwrap();
        let position = self.allocation.next_event_log_position;
        let commit = self.commits + 1;
        let mut record = self.deployments.0[at].clone();
        record.deployment_lifecycle = lifecycle;
        record.optional_terminal_marker = Some(TerminalMarker(marker(commit)));
        record.optional_deployment_terminal = Some(terminal);
        proof {
            assert(record_keys(before.deployments)[at as int] == deployment);
        }
        self.put_record(at, record.clone());
        self.announce(Self::announcement(&record, position, marker(commit)));
        self.allocation.next_event_log_position = position + 1;
        self.commits = commit;
        record
    }

    /// Moves a deployment to a phase: records it, keeps `job` as its job, and
    /// announces the phase with the marker of this very commit.
    pub fn advance_deployment_phase(
        &mut self,
        deployment: u64,
        lifecycle: DeploymentLifecycle,
        job: DeployJob,
        event: DeploymentPhaseEvent,
    ) -> (r: StateMarker)
        requires
            old(self)@.is_consistent(),
            old(self)@.fits(1, 0),
            old(self)@.has_record(deployment),
        ensures
            r == old(self)@.next_marker(),
            final(self)@ == old(self)@.after_phase(deployment, lifecycle, job@, event),
            final(self)@.is_consistent(),
    {
        let ghost before = self@;
        proof {
            lemma_first_key(record_keys(self@.deployments), deployment);
        }
        let at = self.record_index(deployment).unwrap();
        let commit = self.commits + 1;
        let mut record = self.deployments.0[at].clone();
        record.deployment_lifecycle = lifecycle;
        proof {
            assert(record_keys(before.deployments)[at as int] == deployment);
        }
        self.put_record(at, record);
        self.put_job(job);
        let mut announced = event;
        announced.state_marker = marker(commit);
        self.announce(announced);
        self.commits = commit;
        marker(commit)
    }

    /// Keeps `job` in place of the job of its deployment.
    pub fn upsert_deploy_job(&mut self, job: DeployJob)
        requires
            old(self)@.is_consistent(),
            old(self)@.fits(1, 0),
        ensures
            final(self)@ == old(self)@.with_job(job@).committed(),
            final(self)@.is_consistent(),
    {
        self.put_job(job);
        self.commits = self.commits + 1;
    }

    /// Records the revision that a deployment's source was resolved to, together
    /// with the job that goes on from there.
    pub fn record_resolved_source(
        &mut self,
        deployment: u64,
        revision: ImmutableRevision,
        job: DeployJob,
    )
        requires
            old(self)@.is_consistent(),
            old(self)@.fits(1, 0),
            old(self)@.has_record(deployment),
        ensures
            final(self)@ == old(self)@.after_resolution(deployment, revision, job@),
            final(self)@.is_consistent(),
    {
        let ghost before = self@;
        proof {
            lemma_first_key(record_keys(self@.deployments), deployment);
        }
        let at = self.record_index(deployment).unwrap();
        let mut record = self.deployments.0[at].clone();
        record.deployment_request_identity.optional_immutable_revision = Some(revision);
        proof {
            assert(record_keys(before.deployments)[at as int] == deployment);
        }
        self.put_record(at, record);
        self.put_job(job);
        self.commits = self.commits + 1;
    }

    /// The record of `deployment`.
    pub fn find_deployment(&self, deployment: u64) -> (r: Option<&DeploymentRecord>)
        ensures
            r is Some <==> self@.has_record(deployment),
            r matches Some(record) ==> *record == self@.record(deployment),
    {
        proof {
            lemma_first_key(record_keys(self@.deployments), deployment);
        }
        match self.record_index(deployment) {
            Some(at) => Some(&self.deployments.0[at]),
            None => None,
        }
    }

    /// Whether `deployment` has a record.
    pub fn has_deployment(&self, deployment: u64) -> (r: bool)
        ensures
            r == self@.has_record(deployment),
    {
        proof {
            lemma_first_key(record_keys(self@.deployments), deployment);
        }
        self.record_index(deployment).is_some()
    }

    fn put_root(&mut self, root: GcRoot)
        requires
            old(self)@.is_consistent(),
            are_labels_distinct(
                upserted(
                    old(self)@.roots,
                    root_keys(old(self)@.roots),
                    root.generation_identifier.0,
                    root,
                ),
            ),
        ensures
            final(self)@ == (StoreView {
                roots: upserted(
                    old(self)@.roots,
                    root_keys(old(self)@.roots),
                    root.generation_identifier.0,
                    root,
                ),
                ..old(self)@
            }),
            final(self)@.is_consistent(),
    {
        let ghost key = root.generation_identifier.0;
        let ghost before = root_keys(self@.roots);
        match self.root_index(root.generation_identifier.0) {
            Some(at) => {
                self.roots.0.set(at, root);
            },
            None => {
                self.roots.0.push(root);
            },
        }
        proof {
            lemma_first_key(before, key);
            lemma_upsert_keeps_keys(before, key);
            assert(root_keys(self@.roots) =~= upserted(before, before, key, key));
        }
    }

    /// Puts a generation into effect: its live row and its root, in one commit.
    pub fn record_activation(&mut self, generation: LiveGeneration, root: GcRoot)
        requires
            old(self)@.is_consistent(),
            old(self)@.fits(1, 0),
            root.optional_pin_label is None,
        ensures
            final(self)@ == old(self)@.after_activation(generation, root),
            final(self)@.is_consistent(),
    {
        let ghost before = self@;
        let ghost key = generation.generation_identifier.0;
        let ghost keys = live_keys(self@.live_set);
        match self.live_index(generation.generation_identifier.0) {
            Some(at) => {
                self.live_set.0.set(at, generation);
            },
            None => {
                self.live_set.0.push(generation);
            },
        }
        proof {
            lemma_first_key(keys, key);
            lemma_upsert_keeps_keys(keys, key);
            assert(live_keys(self@.live_set) =~= upserted(keys, keys, key, key));
            let rows = upserted(
                before.roots,
                root_keys(before.roots),
                root.generation_identifier.0,
                root,
            );
            lemma_first_key(root_keys(before.roots), root.generation_identifier.0);
            assert forall|i: int, j: int|
                0 <= i < j < rows.len() && (#[trigger] rows[i]).optional_pin_label is Some && (
                #[trigger] rows[j]).optional_pin_label is Some implies rows[i].optional_pin_label->0@
                != rows[j].optional_pin_label->0@ by {
                assert(rows[i] == before.roots[i]);
                assert(rows[j] == before.roots[j]);
            }
        }
        self.put_root(root);
        self.commits = self.commits + 1;
    }

    /// Changes the root of a generation.
    pub fn mutate_gc_root(&mut self, root: GcRoot)
        requires
            old(self)@.is_consistent(),
            old(self)@.fits(1, 0),
            are_labels_distinct(
                upserted(
                    old(self)@.roots,
                    root_keys(old(self)@.roots),
                    root.generation_identifier.0,
                    root,
                ),
            ),
        ensures
            final(self)@ == old(self)@.after_root_change(root),
            final(self)@.is_consistent(),
    {
        self.put_root(root);
        self.commits = self.commits + 1;
    }

    /// Drops the root at `at`.
    pub fn retract_gc_root(&mut self, at: usize)
        requires
            old(self)@.is_consistent(),
            old(self)@.fits(1, 0),
            at < old(self)@.roots.len(),
        ensures
            final(self)@ == old(self)@.after_root_drop(at as int),
            final(self)@.is_consistent(),
    {
        let ghost before = self@;
        let _ = self.roots.0.remove(at);
        self.commits = self.commits + 1;
        proof {
            let rows = self@.roots;
            assert forall|i: int, j: int|
                0 <= i < j < root_keys(rows).len() implies #[trigger] root_keys(rows)[i]
                != #[trigger] root_keys(rows)[j] by {
                let a = if i < at { i } else { i + 1 };
                let b = if j < at { j } else { j + 1 };
                assert(root_keys(rows)[i] == root_keys(before.roots)[a]);
                assert(root_keys(rows)[j] == root_keys(before.roots)[b]);
            }
            assert forall|i: int, j: int|
                0 <= i < j < rows.len() && (#[trigger] rows[i]).optional_pin_label is Some && (
                #[trigger] rows[j]).optional_pin_label is Some implies rows[i].optional_pin_label->0@
                != rows[j].optional_pin_label->0@ by {
                let a = if i < at { i } else { i + 1 };
                let b = if j < at { j } else { j + 1 };
                assert(rows[i] == before.roots[a]);
                assert(rows[j] == before.roots[b]);
            }
        }
    }

    /// Records a test run in place of its earlier row.
    pub fn upsert_test_run(&mut self, run: StoredTestRun)
        requires
            old(self)@.is_consistent(),
            old(self)@.fits(1, 0),
        ensures
            final(self)@ == old(self)@.after_run(run),
            final(self)@.is_consistent(),
    {
        let ghost key = run.test_run_identifier.0;
        let ghost before = run_keys(self@.runs);
        match self.run_index(run.test_run_identifier.0) {
            Some(at) => {
                self.runs.0.set(at, run);
            },
            None => {
                self.runs.0.push(run);
            },
        }
        self.commits = self.commits + 1;
        proof {
            lemma_first_key(before, key);
            lemma_upsert_keeps_keys(before, key);
            assert(run_keys(self@.runs) =~= upserted(before, before, key, key));
        }
    }

    /// Records a container transition and its log entry.
    pub fn record_container_transition(
        &mut self,
        record: ContainerLifecycleRecord,
        entry: EventLogEntry,
    )
        requires
            old(self)@.is_consistent(),
            old(self)@.fits(1, 0),
            entry.logged_event is Container,
        ensures
            final(self)@ == old(self)@.after_container(record, entry),
            final(self)@.is_consistent(),
    {
        self.containers.0.push(record);
        self.events.0.push(entry);
        self.commits = self.commits + 1;
    }

    /// The log entries at positions from `from` up to but not including `until`,
    /// in log order; nothing where the range is reversed.
    pub fn event_log_in_range(&self, from: u64, until: u64) -> (r: Option<Vec<EventLogEntry>>)
        ensures
            r is Some <==> from <= until,
            r matches Some(entries) ==> entries@ == entries_between(self@.events, from, until),
    {
        if from > until {
            return None;
        }
        let mut entries: Vec<EventLogEntry> = Vec::new();
        let ghost all = self@.events;
        let mut i: usize = 0;
        while i < self.events.0.len()
            invariant
                i <= self.events.0@.len(),
                all == self.events.0@,
                entries@ == entries_between(all.take(i as int), from, until),
            decreases self.events.0@.len() - i,
        {
            assert(all.take(i + 1).drop_last() =~= all.take(i as int));
            assert(all.take(i + 1).last() == all[i as int]);
            let position = self.events.0[i].event_log_position.0;
            if from <= position && position < until {
                entries.push(self.events.0[i].clone());
            }
            i = i + 1;
        }
        assert(all.take(i as int) =~= all);
        Some(entries)
    }
}

/// The entries at positions from `from` up to but not including `until`.
pub open spec fn entries_between(
    entries: Seq<EventLogEntry>,
    from: u64,
    until: u64,
) -> Seq<EventLogEntry>
    decreases entries.len(),
{
    if entries.len() == 0 {
        Seq::empty()
    } else {
        let rest = entries_between(entries.drop_last(), from, until);
        if from <= entries.last().event_log_position.0 < until {
            rest.push(entries.last())
        } else {
            rest
        }
    }
}

} // verus!
