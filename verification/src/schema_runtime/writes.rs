//! Writes to the durable state.

use crate::runtime_model::{
    AcceptedTest, ActivationCommit, AppliedActivation, AppliedPin, AppliedRetire, AppliedUnpin,
    ContainerLifecycleRecord, ContainerReceipt, ContainerTransition, DeployHandle, DeployJobPhase,
    DeployResumeStage, DeploySubmission, DeploymentIdentifier, DeploymentLifecycle,
    DeploymentPhaseEvent, DeploymentRecord, DeploymentTerminal, EventLogEntry, EventLogPosition, GcRoot,
    GenerationIdentifier, GenerationSlot, LiveGeneration, LoggedEvent, PhaseReceipt, PinRequest,
    RejectedDeploy, RejectionReason, RejectionReport, RetireRequest, SemaWriteInput,
    SemaWriteOutput, StoredTestRun, TestRunRecord, UnpinRequest,
};
use crate::schema_runtime::engine::SchemaRuntime;
use crate::schema_runtime::meta::DeployRejectionReason;
use crate::schema_runtime::pipeline::DeployPipeline;
use crate::schema_runtime::requests::{
    deploy_job_phase, deploy_job_phase_of, deployment_lifecycle, deployment_lifecycle_of,
    stored_run, terminal_reason, terminal_reason_of,
};
use crate::schema_runtime::store::{
    are_distinct, first_key, lemma_first_key, lemma_first_key_unique, marker,
    marker_of, record_keys, root_keys, StoreView,
};
use vstd::prelude::*;

verus! {

// ---- roots --------------------------------------------------------------------------

/// The first of `roots` that is wanted.
pub open spec fn first_root(roots: Seq<GcRoot>, wanted: spec_fn(GcRoot) -> bool) -> Option<int>
    decreases roots.len(),
{
    if roots.len() == 0 {
        None
    } else if wanted(roots[0]) {
        Some(0)
    } else {
        match first_root(roots.skip(1), wanted) {
            Some(at) => Some(at + 1),
            None => None,
        }
    }
}

/// The root of `generation` on a node.
pub open spec fn of_generation(
    generation: u64,
    cluster: Seq<char>,
    node: Seq<char>,
) -> spec_fn(GcRoot) -> bool {
    |root: GcRoot|
        root.generation_identifier.0 == generation && root.cluster_name@ == cluster
            && root.node_name@ == node
}

/// The root that is pinned as `label` on a node.
pub open spec fn with_label(
    label: Seq<char>,
    cluster: Seq<char>,
    node: Seq<char>,
) -> spec_fn(GcRoot) -> bool {
    |root: GcRoot|
        has_label(root, label) && root.cluster_name@ == cluster && root.node_name@ == node
}

/// Whether `root` is pinned as `label`.
pub open spec fn has_label(root: GcRoot, label: Seq<char>) -> bool {
    root.optional_pin_label matches Some(found) && found@ == label
}

/// Whether any of `roots` is pinned as `label`.
pub open spec fn is_label_used(roots: Seq<GcRoot>, label: Seq<char>) -> bool {
    exists|i: int| 0 <= i < roots.len() && has_label(#[trigger] roots[i], label)
}

/// Where `first_root` finds a root.
pub proof fn lemma_first_root(roots: Seq<GcRoot>, wanted: spec_fn(GcRoot) -> bool)
    ensures
        first_root(roots, wanted) matches Some(at) ==> {
            &&& 0 <= at < roots.len()
            &&& wanted(roots[at])
            &&& forall|i: int| 0 <= i < at ==> !wanted(#[trigger] roots[i])
        },
        first_root(roots, wanted) is None ==> forall|i: int|
            0 <= i < roots.len() ==> !wanted(#[trigger] roots[i]),
    decreases roots.len(),
{
    if roots.len() > 0 && !wanted(roots[0]) {
        let tail = roots.skip(1);
        lemma_first_root(tail, wanted);
        assert forall|i: int| 0 < i < roots.len() implies roots[i] == tail[i - 1] by {}
        match first_root(tail, wanted) {
            Some(at) => {
                assert forall|i: int| 0 <= i < at + 1 implies !wanted(#[trigger] roots[i]) by {
                    if i > 0 {
                        assert(roots[i] == tail[i - 1]);
                    }
                }
            },
            None => {
                assert forall|i: int| 0 <= i < roots.len() implies !wanted(#[trigger] roots[i]) by {
                    if i > 0 {
                        assert(roots[i] == tail[i - 1]);
                    }
                }
            },
        }
    }
}

/// The first wanted root is the one that `first_root` finds.
pub proof fn lemma_first_root_at(roots: Seq<GcRoot>, wanted: spec_fn(GcRoot) -> bool, at: int)
    requires
        0 <= at < roots.len(),
        wanted(roots[at]),
        forall|i: int| 0 <= i < at ==> !wanted(#[trigger] roots[i]),
    ensures
        first_root(roots, wanted) == Some(at),
{
    lemma_first_root(roots, wanted);
}

/// The root of a generation is the one row with its key.
proof fn lemma_root_key(roots: Seq<GcRoot>, at: int)
    requires
        are_distinct(root_keys(roots)),
        0 <= at < roots.len(),
    ensures
        first_key(root_keys(roots), roots[at].generation_identifier.0) == Some(at),
{
    let keys = root_keys(roots);
    let key = roots[at].generation_identifier.0;
    assert(keys[at] == key);
    assert forall|i: int| 0 <= i < at implies keys[i] != key by {}
    lemma_first_key_unique(keys, key, at);
}

fn find_generation(
    roots: &Vec<GcRoot>,
    generation: &GenerationIdentifier,
    cluster: &String,
    node: &String,
) -> (r: Option<usize>)
    ensures
        match (r, first_root(roots@, of_generation(generation.0, cluster@, node@))) {
            (Some(at), Some(expected)) => at == expected && at < roots@.len(),
            (None, None) => true,
            _ => false,
        },
{
    let ghost wanted = of_generation(generation.0, cluster@, node@);
    let mut i: usize = 0;
    while i < roots.len()
        invariant
            i <= roots@.len(),
            wanted == of_generation(generation.0, cluster@, node@),
            forall|k: int| 0 <= k < i ==> !wanted(#[trigger] roots@[k]),
        decreases roots@.len() - i,
    {
        if roots[i].generation_identifier.0 == generation.0 && roots[i].cluster_name.0 == *cluster
            && roots[i].node_name.0 == *node {
            proof {
                lemma_first_root_at(roots@, wanted, i as int);
            }
            return Some(i);
        }
        i = i + 1;
    }
    proof {
        lemma_first_root(roots@, wanted);
    }
    None
}

fn is_pinned_as(root: &GcRoot, label: &String) -> (r: bool)
    ensures
        r == has_label(*root, label@),
{
    match &root.optional_pin_label {
        Some(found) => found.0 == *label,
        None => false,
    }
}

fn find_label(roots: &Vec<GcRoot>, label: &String, cluster: &String, node: &String) -> (r: Option<
    usize,
>)
    ensures
        match (r, first_root(roots@, with_label(label@, cluster@, node@))) {
            (Some(at), Some(expected)) => at == expected && at < roots@.len(),
            (None, None) => true,
            _ => false,
        },
{
    let ghost wanted = with_label(label@, cluster@, node@);
    let mut i: usize = 0;
    while i < roots.len()
        invariant
            i <= roots@.len(),
            wanted == with_label(label@, cluster@, node@),
            forall|k: int| 0 <= k < i ==> !wanted(#[trigger] roots@[k]),
        decreases roots@.len() - i,
    {
        if is_pinned_as(&roots[i], label) && roots[i].cluster_name.0 == *cluster
            && roots[i].node_name.0 == *node {
            proof {
                lemma_first_root_at(roots@, wanted, i as int);
            }
            return Some(i);
        }
        i = i + 1;
    }
    proof {
        lemma_first_root(roots@, wanted);
    }
    None
}

fn uses_label(roots: &Vec<GcRoot>, label: &String) -> (r: bool)
    ensures
        r == is_label_used(roots@, label@),
{
    let mut i: usize = 0;
    while i < roots.len()
        invariant
            i <= roots@.len(),
            forall|k: int| 0 <= k < i ==> !has_label(#[trigger] roots@[k], label@),
        decreases roots@.len() - i,
    {
        if is_pinned_as(&roots[i], label) {
            assert(has_label(roots@[i as int], label@));
            return true;
        }
        i = i + 1;
    }
    false
}

// ---- pinning and retiring -----------------------------------------------------------------

/// A write that was refused, and why.
pub open spec fn refusal(store: StoreView, reason: RejectionReason) -> SemaWriteOutput {
    SemaWriteOutput::WriteRejected(
        RejectionReport { rejection_reason: reason, state_marker: marker_of(store.commits) },
    )
}

/// The state and the answer after a pin: refused where the label is taken or the
/// node has no such generation, else the generation is kept under the label.
pub open spec fn pin_outcome(store: StoreView, request: PinRequest) -> (StoreView, SemaWriteOutput) {
    if is_label_used(store.roots, request.pin_label@) {
        (store, refusal(store, RejectionReason::PinLabelInUse))
    } else {
        match first_root(
            store.roots,
            of_generation(
                request.generation_identifier.0,
                request.cluster_name@,
                request.node_name@,
            ),
        ) {
            None => (store, refusal(store, RejectionReason::GenerationUnknown)),
            Some(at) => (
                StoreView {
                    roots: store.roots.update(
                        at,
                        GcRoot {
                            generation_slot: GenerationSlot::Pinned,
                            optional_pin_label: Some(request.pin_label),
                            ..store.roots[at]
                        },
                    ),
                    ..store
                }.committed(),
                SemaWriteOutput::GenerationPinned(
                    AppliedPin {
                        generation_identifier: request.generation_identifier,
                        pin_label: request.pin_label,
                        from_slot: store.roots[at].generation_slot,
                        to_slot: GenerationSlot::Pinned,
                        state_marker: store.next_marker(),
                    },
                ),
            ),
        }
    }
}

/// The state and the answer after an unpin: refused where the node has no
/// generation under the label, else the generation is a recent one again.
pub open spec fn unpin_outcome(store: StoreView, request: UnpinRequest) -> (
    StoreView,
    SemaWriteOutput,
) {
    match first_root(
        store.roots,
        with_label(request.pin_label@, request.cluster_name@, request.node_name@),
    ) {
        None => (store, refusal(store, RejectionReason::PinLabelUnknown)),
        Some(at) => (
            StoreView {
                roots: store.roots.update(
                    at,
                    GcRoot {
                        generation_slot: GenerationSlot::Recent,
                        optional_pin_label: None,
                        ..store.roots[at]
                    },
                ),
                ..store
            }.committed(),
            SemaWriteOutput::GenerationUnpinned(
                AppliedUnpin {
                    generation_identifier: store.roots[at].generation_identifier,
                    pin_label: request.pin_label,
                    from_slot: store.roots[at].generation_slot,
                    to_slot: GenerationSlot::Recent,
                    state_marker: store.next_marker(),
                },
            ),
        ),
    }
}

/// The state and the answer after a retirement: refused where the node has no
/// such generation or it is pinned, else its root is dropped.
pub open spec fn retire_outcome(store: StoreView, request: RetireRequest) -> (
    StoreView,
    SemaWriteOutput,
) {
    match first_root(
        store.roots,
        of_generation(
            request.generation_identifier.0,
            request.cluster_name@,
            request.node_name@,
        ),
    ) {
        None => (store, refusal(store, RejectionReason::GenerationUnknown)),
        Some(at) => if store.roots[at].generation_slot == GenerationSlot::Pinned {
            (store, refusal(store, RejectionReason::GenerationPinned))
        } else {
            (
                store.after_root_drop(at),
                SemaWriteOutput::GenerationRetired(
                    AppliedRetire {
                        generation_identifier: request.generation_identifier,
                        generation_slot: store.roots[at].generation_slot,
                        state_marker: store.next_marker(),
                    },
                ),
            )
        },
    }
}

// ---- what the engine writes ------------------------------------------------------------------

/// The log entry of a container transition.
pub open spec fn container_record(transition: ContainerTransition, position: u64) -> ContainerLifecycleRecord {
    ContainerLifecycleRecord {
        cluster_name: transition.cluster_name,
        node_name: transition.node_name,
        container_name: transition.container_name,
        container_state: transition.container_state,
        event_log_position: EventLogPosition(position),
    }
}

/// The state after a container transition was recorded at the next position.
pub open spec fn after_transition(store: StoreView, transition: ContainerTransition) -> StoreView {
    let position = store.allocation.next_event_log_position;
    let record = container_record(transition, position);
    StoreView { allocation: store.allocation_after_event(), ..store }.committed().after_container(
        record,
        EventLogEntry {
            event_log_position: EventLogPosition(position),
            logged_event: LoggedEvent::Container(record),
        },
    )
}

impl SchemaRuntime {
    /// Everything but the durable state is as in `other`.
    pub open spec fn differs_in_store_only(&self, other: Self) -> bool {
        &&& self.configuration == other.configuration
        &&& self.active_deploy == other.active_deploy
        &&& self.active_test == other.active_test
        &&& self.active_operation == other.active_operation
    }

    /// Everything but the durable state and the driven deployment is as in `other`.
    pub open spec fn keeps_the_rest(&self, other: Self) -> bool {
        &&& self.configuration == other.configuration
        &&& self.active_test == other.active_test
        &&& self.active_operation == other.active_operation
    }

    /// A write that was refused, and why.
    pub fn write_rejected(commit_sequence: u64, reason: RejectionReason) -> (r: SemaWriteOutput)
        ensures
            r == SemaWriteOutput::WriteRejected(
                RejectionReport {
                    rejection_reason: reason,
                    state_marker: marker_of(commit_sequence),
                },
            ),
    {
        SemaWriteOutput::WriteRejected(
            RejectionReport { rejection_reason: reason, state_marker: marker(commit_sequence) },
        )
    }

    /// Refuses `submission`: hands out its identifiers and records its end.
    pub fn reject_submission(
        &mut self,
        submission: &DeploySubmission,
        reason: DeployRejectionReason,
    ) -> (r: RejectedDeploy)
        requires
            old(self).store@.is_consistent(),
            old(self).store@.fits_deployment(),
        ensures
            old(self).refuses(*final(self), *submission, reason, r),
            final(self).store@.is_consistent(),
            old(self).is_consistent() ==> final(self).is_consistent(),
    {
        let ghost before = self.store@;
        let identity = DeployPipeline::deployment_request_identity(submission);
        let record = self.store.reject_deployment_request(
            identity,
            DeploymentTerminal::Rejected(terminal_reason(reason)),
        );
        proof {
            lemma_push_keeps_records(before.deployments, record);
        }
        RejectedDeploy(record)
    }

    /// `after` follows from refusing `submission`: the record names what was asked
    /// for and why it was refused, and is announced.
    pub open spec fn refuses(
        &self,
        after: Self,
        submission: DeploySubmission,
        reason: DeployRejectionReason,
        rejected: RejectedDeploy,
    ) -> bool {
        let identity = rejected.0.deployment_request_identity;
        let terminal = DeploymentTerminal::Rejected(terminal_reason_of(reason));
        &&& identity.identifies(submission)
        &&& rejected.0 == self.store@.refused_record(identity, terminal)
        &&& after.store@ == self.store@.after_refusal(identity, terminal)
        &&& after.differs_in_store_only(*self)
    }

    /// Refuses the deployment that is being driven and records its end.
    pub fn deploy_rejection(&mut self, reason: DeployRejectionReason) -> (r: RejectedDeploy)
        requires
            old(self).is_consistent(),
            old(self).store@.fits(1, 1),
            old(self).active_deploy is Some,
        ensures
            r.0 == old(self).store@.ended_record(
                old(self).driven(),
                DeploymentLifecycle::Rejected,
                DeploymentTerminal::Rejected(terminal_reason_of(reason)),
            ),
            final(self).store@ == old(self).store@.after_end(
                old(self).driven(),
                DeploymentLifecycle::Rejected,
                DeploymentTerminal::Rejected(terminal_reason_of(reason)),
            ),
            final(self).differs_in_store_only(*old(self)),
            final(self).is_consistent(),
    {
        let deployment = self.active_deploy.as_ref().unwrap().deployment_identifier.0;
        let ghost before = self.store@;
        let record = self.store.terminalize_deployment(
            deployment,
            DeploymentLifecycle::Rejected,
            DeploymentTerminal::Rejected(terminal_reason(reason)),
        );
        proof {
            lemma_with_record_keeps_records(before, record);
            assert(before.with_record(record).has_record(deployment));
        }
        RejectedDeploy(record)
    }

    /// Admits `submission` and starts to drive it.
    pub fn record_deploy_submitted(&mut self, submission: DeploySubmission) -> (r: SemaWriteOutput)
        requires
            old(self).store@.is_consistent(),
            old(self).store@.fits_deployment(),
        ensures
            r == SemaWriteOutput::DeploySubmitted(old(self).next_handle()),
            old(self).admits(*final(self), submission),
            final(self).is_consistent(),
    {
        let ghost before = self.store@;
        let identity = DeployPipeline::deployment_request_identity(&submission);
        let restart_cursor = DeployPipeline::from_submission(
            DeploymentIdentifier(0),
            GenerationIdentifier(0),
            marker(0),
            submission.clone(),
        ).deploy_job(DeployJobPhase::Submitted);
        let ghost cursor = restart_cursor@;
        let record = self.store.allocate_deployment_record(identity, restart_cursor);
        let accepted_marker = marker(self.store.commit_sequence());
        let deployment_identifier = record.deployment_identifier.clone();
        let pipeline = DeployPipeline::from_submission(
            deployment_identifier.clone(),
            record.generation_identifier.clone(),
            accepted_marker.clone(),
            submission,
        );
        proof {
            let job = pipeline.job(DeployJobPhase::Submitted);
            assert(job.persisted_flake_input_override_vector
                =~= cursor.persisted_flake_input_override_vector);
            assert(before.admitted_job(cursor) == job);
            assert(before.admitted_job(job) == job);
            assert(self.store@.deployments.last() == record);
            lemma_push_keeps_records(before.deployments, record);
        }
        self.active_deploy = Some(pipeline);
        SemaWriteOutput::DeploySubmitted(
            DeployHandle { deployment_identifier, state_marker: accepted_marker },
        )
    }

    /// The handle of the next deployment that is admitted.
    pub open spec fn next_handle(&self) -> DeployHandle {
        DeployHandle {
            deployment_identifier: DeploymentIdentifier(
                self.store@.allocation.next_deployment_identifier,
            ),
            state_marker: self.store@.next_marker(),
        }
    }

    /// `after` follows from admitting `submission`: the new deployment is driven
    /// from its start, and its record and its job are durable.
    pub open spec fn admits(&self, after: Self, submission: DeploySubmission) -> bool {
        let identity = after.store@.deployments.last().deployment_request_identity;
        &&& identity.identifies(submission)
        &&& after.active_deploy matches Some(pipeline) && pipeline.starts(
            self.next_handle().deployment_identifier,
            GenerationIdentifier(self.store@.allocation.next_generation_identifier),
            self.store@.next_marker(),
            submission,
        ) && after.store@ == self.store@.after_admission(
            identity,
            pipeline.job(DeployJobPhase::Submitted),
        )
        &&& after.keeps_the_rest(*self)
    }

    /// Records that the driven deployment has entered a phase. The event is
    /// announced with the marker of its own commit, which the job then keeps.
    pub fn record_phase_transition(&mut self, event: DeploymentPhaseEvent) -> (r: SemaWriteOutput)
        requires
            old(self).is_consistent(),
            old(self).store@.fits(2, 0),
            old(self).active_deploy is Some,
            old(self).store@.has_record(event.deployment_identifier.0),
        ensures
            r == SemaWriteOutput::PhaseRecorded(old(self).receipt_of(event)),
            final(self).active_deploy == Some(
                DeployPipeline {
                    phase_receipt: Some(old(self).receipt_of(event)),
                    ..old(self).active_deploy->0
                },
            ),
            final(self).store@ == old(self).store@.after_phase(
                event.deployment_identifier.0,
                deployment_lifecycle_of(event.deployment_phase),
                old(self).active_deploy->0.job(deploy_job_phase_of(event.deployment_phase)),
                event,
            ).with_job(
                final(self).active_deploy->0.job(deploy_job_phase_of(event.deployment_phase)),
            ).committed(),
            final(self).keeps_the_rest(*old(self)),
            final(self).is_consistent(),
    {
        let ghost before = self.store@;
        let phase = event.deployment_phase;
        let deployment = event.deployment_identifier.0;
        let event_log_position = event.event_log_position.clone();
        let job = self.active_deploy.as_ref().unwrap().deploy_job(deploy_job_phase(phase));
        let recorded = self.store.advance_deployment_phase(
            deployment,
            deployment_lifecycle(phase),
            job,
            event,
        );
        let receipt = PhaseReceipt { event_log_position, state_marker: recorded };
        let mut pipeline = self.active_deploy.take().unwrap();
        pipeline.phase_receipt = Some(receipt.clone());
        let job = pipeline.deploy_job(deploy_job_phase(phase));
        self.active_deploy = Some(pipeline);
        self.store.upsert_deploy_job(job);
        proof {
            let record = DeploymentRecord {
                deployment_lifecycle: deployment_lifecycle_of(phase),
                ..before.record(deployment)
            };
            lemma_with_record_keeps_records(before, record);
            assert(before.with_record(record).has_record(old(self).driven()));
        }
        SemaWriteOutput::PhaseRecorded(receipt)
    }

    /// The receipt of recording `event` next.
    pub open spec fn receipt_of(&self, event: DeploymentPhaseEvent) -> PhaseReceipt {
        PhaseReceipt {
            event_log_position: event.event_log_position,
            state_marker: self.store@.next_marker(),
        }
    }

    /// The live generation that `commit` puts into effect.
    pub open spec fn activated_generation(&self, commit: ActivationCommit) -> LiveGeneration {
        let pipeline = self.active_deploy->0;
        LiveGeneration {
            deployment_identifier: pipeline.deployment_identifier,
            generation_identifier: commit.generation_identifier,
            cluster_name: commit.cluster_name,
            node_name: commit.node_name,
            deployment_environment: commit.deployment_environment,
            generation_artifact: pipeline.generation_artifact,
            activation_effect: pipeline.activation_effect,
            generation_slot: commit.generation_slot,
            closure_path: commit.closure_path,
            source_revision_record: commit.source_revision_record,
        }
    }

    /// The root that keeps the generation that `commit` puts into effect.
    pub open spec fn activated_root(&self, commit: ActivationCommit) -> GcRoot {
        GcRoot {
            generation_identifier: commit.generation_identifier,
            cluster_name: commit.cluster_name,
            node_name: commit.node_name,
            generation_slot: commit.generation_slot,
            closure_path: commit.closure_path,
            optional_pin_label: None,
        }
    }

    /// Puts a generation into effect: its live row and its root are written in
    /// one commit, and the job goes on to the end of the deployment.
    pub fn record_generation_activated(&mut self, commit: ActivationCommit) -> (r: SemaWriteOutput)
        requires
            old(self).is_consistent(),
            old(self).store@.fits(2, 0),
            old(self).active_deploy is Some,
        ensures
            r == SemaWriteOutput::GenerationActivated(
                AppliedActivation {
                    generation_identifier: commit.generation_identifier,
                    generation_slot: commit.generation_slot,
                    state_marker: old(self).store@.next_marker(),
                },
            ),
            final(self).active_deploy == Some(
                DeployPipeline {
                    resume_stage: DeployResumeStage::FinishDeployment,
                    ..old(self).active_deploy->0
                },
            ),
            final(self).store@ == old(self).store@.after_activation(
                old(self).activated_generation(commit),
                old(self).activated_root(commit),
            ).with_job(
                final(self).active_deploy->0.job(DeployJobPhase::Activated),
            ).committed(),
            final(self).keeps_the_rest(*old(self)),
            final(self).is_consistent(),
    {
        let pipeline = self.active_deploy.as_ref().unwrap();
        let generation = LiveGeneration {
            deployment_identifier: pipeline.deployment_identifier.clone(),
            generation_identifier: commit.generation_identifier.clone(),
            cluster_name: commit.cluster_name.clone(),
            node_name: commit.node_name.clone(),
            deployment_environment: commit.deployment_environment.clone(),
            generation_artifact: pipeline.generation_artifact,
            activation_effect: pipeline.activation_effect,
            generation_slot: commit.generation_slot,
            closure_path: commit.closure_path.clone(),
            source_revision_record: commit.source_revision_record.clone(),
        };
        let root = GcRoot {
            generation_identifier: commit.generation_identifier.clone(),
            cluster_name: commit.cluster_name.clone(),
            node_name: commit.node_name.clone(),
            generation_slot: commit.generation_slot,
            closure_path: commit.closure_path.clone(),
            optional_pin_label: None,
        };
        self.store.record_activation(generation, root);
        let state_marker = marker(self.store.commit_sequence());
        self.persist_job_cursor(DeployJobPhase::Activated, DeployResumeStage::FinishDeployment);
        SemaWriteOutput::GenerationActivated(
            AppliedActivation {
                generation_identifier: commit.generation_identifier,
                generation_slot: commit.generation_slot,
                state_marker,
            },
        )
    }

    /// Makes the driven deployment's next step durable. Nothing is written where
    /// no deployment is driven.
    pub fn persist_job_cursor(&mut self, phase: DeployJobPhase, resume_stage: DeployResumeStage)
        requires
            old(self).store@.is_consistent(),
            old(self).active_deploy is Some ==> old(self).store@.fits(1, 0),
        ensures
            old(self).active_deploy is None ==> *final(self) == *old(self),
            old(self).active_deploy matches Some(pipeline) ==> {
                &&& final(self).active_deploy == Some(
                    DeployPipeline { resume_stage, ..pipeline },
                )
                &&& final(self).store@ == old(self).store@.with_job(
                    final(self).active_deploy->0.job(phase),
                ).committed()
            },
            final(self).keeps_the_rest(*old(self)),
            final(self).store@.is_consistent(),
            old(self).is_consistent() ==> final(self).is_consistent(),
    {
        match self.active_deploy.take() {
            Some(cursor) => {
                let mut pipeline = cursor;
                pipeline.resume_stage = resume_stage;
                let job = pipeline.deploy_job(phase);
                self.active_deploy = Some(pipeline);
                self.store.upsert_deploy_job(job);
            },
            None => {},
        }
    }

    /// Keeps a generation under a label.
    pub fn pin_generation(&mut self, request: PinRequest) -> (r: SemaWriteOutput)
        requires
            old(self).store@.is_consistent(),
            pin_outcome(old(self).store@, request).1 is GenerationPinned ==>
                old(self).store@.fits(1, 0),
        ensures
            (final(self).store@, r) == pin_outcome(old(self).store@, request),
            final(self).differs_in_store_only(*old(self)),
            final(self).store@.is_consistent(),
            old(self).is_consistent() ==> final(self).is_consistent(),
    {
        let ghost before = self.store@;
        let commit = self.store.commit_sequence();
        if uses_label(self.store.gc_roots(), &request.pin_label.0) {
            return Self::write_rejected(commit, RejectionReason::PinLabelInUse);
        }
        let at = match find_generation(
            self.store.gc_roots(),
            &request.generation_identifier,
            &request.cluster_name.0,
            &request.node_name.0,
        ) {
            Some(at) => at,
            None => {
                return Self::write_rejected(commit, RejectionReason::GenerationUnknown);
            },
        };
        let mut root = self.store.gc_roots()[at].clone();
        let from_slot = root.generation_slot;
        root.generation_slot = GenerationSlot::Pinned;
        root.optional_pin_label = Some(request.pin_label.clone());
        proof {
            lemma_first_root(
                before.roots,
                of_generation(
                    request.generation_identifier.0,
                    request.cluster_name@,
                    request.node_name@,
                ),
            );
            lemma_root_key(before.roots, at as int);
            let rows = before.roots.update(at as int, root);
            assert forall|i: int, j: int|
                0 <= i < j < rows.len() && (#[trigger] rows[i]).optional_pin_label is Some && (
                #[trigger] rows[j]).optional_pin_label is Some implies rows[i].optional_pin_label->0@
                != rows[j].optional_pin_label->0@ by {
                if i != at {
                    assert(rows[i] == before.roots[i]);
                    assert(!has_label(before.roots[i], request.pin_label@));
                }
                if j != at {
                    assert(rows[j] == before.roots[j]);
                    assert(!has_label(before.roots[j], request.pin_label@));
                }
            }
        }
        self.store.mutate_gc_root(root);
        SemaWriteOutput::GenerationPinned(
            AppliedPin {
                generation_identifier: request.generation_identifier,
                pin_label: request.pin_label,
                from_slot,
                to_slot: GenerationSlot::Pinned,
                state_marker: marker(self.store.commit_sequence()),
            },
        )
    }

    /// Frees a label.
    pub fn unpin_generation(&mut self, request: UnpinRequest) -> (r: SemaWriteOutput)
        requires
            old(self).store@.is_consistent(),
            unpin_outcome(old(self).store@, request).1 is GenerationUnpinned ==>
                old(self).store@.fits(1, 0),
        ensures
            (final(self).store@, r) == unpin_outcome(old(self).store@, request),
            final(self).differs_in_store_only(*old(self)),
            final(self).store@.is_consistent(),
            old(self).is_consistent() ==> final(self).is_consistent(),
    {
        let ghost before = self.store@;
        let commit = self.store.commit_sequence();
        let at = match find_label(
            self.store.gc_roots(),
            &request.pin_label.0,
            &request.cluster_name.0,
            &request.node_name.0,
        ) {
            Some(at) => at,
            None => {
                return Self::write_rejected(commit, RejectionReason::PinLabelUnknown);
            },
        };
        let mut root = self.store.gc_roots()[at].clone();
        let generation_identifier = root.generation_identifier.clone();
        let from_slot = root.generation_slot;
        root.generation_slot = GenerationSlot::Recent;
        root.optional_pin_label = None;
        proof {
            lemma_root_key(before.roots, at as int);
            let rows = before.roots.update(at as int, root);
            assert forall|i: int, j: int|
                0 <= i < j < rows.len() && (#[trigger] rows[i]).optional_pin_label is Some && (
                #[trigger] rows[j]).optional_pin_label is Some implies rows[i].optional_pin_label->0@
                != rows[j].optional_pin_label->0@ by {
                assert(rows[i] == before.roots[i]);
                assert(rows[j] == before.roots[j]);
            }
        }
        self.store.mutate_gc_root(root);
        SemaWriteOutput::GenerationUnpinned(
            AppliedUnpin {
                generation_identifier,
                pin_label: request.pin_label,
                from_slot,
                to_slot: GenerationSlot::Recent,
                state_marker: marker(self.store.commit_sequence()),
            },
        )
    }

    /// Lets a generation be collected.
    pub fn retire_generation(&mut self, request: RetireRequest) -> (r: SemaWriteOutput)
        requires
            old(self).store@.is_consistent(),
            retire_outcome(old(self).store@, request).1 is GenerationRetired ==>
                old(self).store@.fits(1, 0),
        ensures
            (final(self).store@, r) == retire_outcome(old(self).store@, request),
            final(self).differs_in_store_only(*old(self)),
            final(self).store@.is_consistent(),
            old(self).is_consistent() ==> final(self).is_consistent(),
    {
        let commit = self.store.commit_sequence();
        let at = match find_generation(
            self.store.gc_roots(),
            &request.generation_identifier,
            &request.cluster_name.0,
            &request.node_name.0,
        ) {
            Some(at) => at,
            None => {
                return Self::write_rejected(commit, RejectionReason::GenerationUnknown);
            },
        };
        let generation_slot = self.store.gc_roots()[at].generation_slot;
        if generation_slot == GenerationSlot::Pinned {
            return Self::write_rejected(commit, RejectionReason::GenerationPinned);
        }
        self.store.retract_gc_root(at);
        SemaWriteOutput::GenerationRetired(
            AppliedRetire {
                generation_identifier: request.generation_identifier,
                generation_slot,
                state_marker: marker(self.store.commit_sequence()),
            },
        )
    }

    /// Records a container transition.
    pub fn record_container_transition(&mut self, transition: ContainerTransition) -> (r:
        SemaWriteOutput)
        requires
            old(self).store@.is_consistent(),
            old(self).store@.fits(2, 1),
        ensures
            r == SemaWriteOutput::ContainerRecorded(
                ContainerReceipt {
                    event_log_position: EventLogPosition(
                        old(self).store@.allocation.next_event_log_position,
                    ),
                    state_marker: marker_of((old(self).store@.commits + 2) as u64),
                },
            ),
            final(self).store@ == after_transition(old(self).store@, transition),
            final(self).differs_in_store_only(*old(self)),
            final(self).store@.is_consistent(),
            old(self).is_consistent() ==> final(self).is_consistent(),
    {
        let position = self.store.allocate_event_log_position();
        let record = ContainerLifecycleRecord {
            cluster_name: transition.cluster_name,
            node_name: transition.node_name,
            container_name: transition.container_name,
            container_state: transition.container_state,
            event_log_position: EventLogPosition(position),
        };
        let entry = EventLogEntry {
            event_log_position: EventLogPosition(position),
            logged_event: LoggedEvent::Container(record.clone()),
        };
        self.store.record_container_transition(record, entry);
        SemaWriteOutput::ContainerRecorded(
            ContainerReceipt {
                event_log_position: EventLogPosition(position),
                state_marker: marker(self.store.commit_sequence()),
            },
        )
    }

    /// Records a test run.
    pub fn record_test_run(&mut self, record: TestRunRecord) -> (r: SemaWriteOutput)
        requires
            old(self).store@.is_consistent(),
            old(self).store@.fits(1, 0),
        ensures
            r == SemaWriteOutput::TestRunRecorded(
                AcceptedTest {
                    test_run_identifier: record.test_run_identifier,
                    state_marker: old(self).store@.next_marker(),
                },
            ),
            final(self).store@ == old(self).store@.after_run(stored_run(record)),
            final(self).differs_in_store_only(*old(self)),
            final(self).store@.is_consistent(),
            old(self).is_consistent() ==> final(self).is_consistent(),
    {
        let test_run_identifier = record.test_run_identifier.clone();
        self.store.upsert_test_run(StoredTestRun::from(record));
        SemaWriteOutput::TestRunRecorded(
            AcceptedTest {
                test_run_identifier,
                state_marker: marker(self.store.commit_sequence()),
            },
        )
    }

    /// Whether the engine is in a state to write `input`: a phase and an activation
    /// belong to the deployment that is being driven.
    pub open spec fn can_write(&self, input: SemaWriteInput) -> bool {
        match input {
            SemaWriteInput::RecordPhaseTransition(event) => self.active_deploy is Some
                && self.store@.has_record(event.deployment_identifier.0),
            SemaWriteInput::RecordGenerationActivated(_) => self.active_deploy is Some,
            _ => true,
        }
    }

    /// The counters have room for writing `input`. A write that is refused takes none.
    pub open spec fn write_fits(&self, input: SemaWriteInput) -> bool {
        let store = self.store@;
        match input {
            SemaWriteInput::RecordDeploySubmitted(_) => store.fits_deployment(),
            SemaWriteInput::RecordPhaseTransition(_)
            | SemaWriteInput::RecordGenerationActivated(_) => store.fits(2, 0),
            SemaWriteInput::PinGeneration(request) => pin_outcome(store, request).1
                is GenerationPinned ==> store.fits(1, 0),
            SemaWriteInput::UnpinGeneration(request) => unpin_outcome(store, request).1
                is GenerationUnpinned ==> store.fits(1, 0),
            SemaWriteInput::RetireGeneration(request) => retire_outcome(store, request).1
                is GenerationRetired ==> store.fits(1, 0),
            SemaWriteInput::RecordContainerTransition(_) => store.fits(2, 1),
            SemaWriteInput::RecordTestRun(_) => store.fits(1, 0),
        }
    }

    /// Whether the counters have room for writing `input`.
    pub fn has_room_to_write(&self, input: &SemaWriteInput) -> (r: bool)
        ensures
            r == self.write_fits(*input),
    {
        let roots = self.store.gc_roots();
        match input {
            SemaWriteInput::RecordDeploySubmitted(_) => self.store.has_room_for_deployment(),
            SemaWriteInput::RecordPhaseTransition(_)
            | SemaWriteInput::RecordGenerationActivated(_) => self.store.has_room(2, 0),
            SemaWriteInput::PinGeneration(request) => self.store.has_room(1, 0) || uses_label(
                roots,
                &request.pin_label.0,
            ) || find_generation(
                roots,
                &request.generation_identifier,
                &request.cluster_name.0,
                &request.node_name.0,
            ).is_none(),
            SemaWriteInput::UnpinGeneration(request) => self.store.has_room(1, 0) || find_label(
                roots,
                &request.pin_label.0,
                &request.cluster_name.0,
                &request.node_name.0,
            ).is_none(),
            SemaWriteInput::RetireGeneration(request) => self.store.has_room(1, 0)
                || match find_generation(
                roots,
                &request.generation_identifier,
                &request.cluster_name.0,
                &request.node_name.0,
            ) {
                Some(at) => roots[at].generation_slot == GenerationSlot::Pinned,
                None => true,
            },
            SemaWriteInput::RecordContainerTransition(_) => self.store.has_room(2, 1),
            SemaWriteInput::RecordTestRun(_) => self.store.has_room(1, 0),
        }
    }

    /// `after` and `output` follow from writing `input`.
    pub open spec fn writes(&self, input: SemaWriteInput, after: Self, output: SemaWriteOutput) -> bool {
        match input {
            SemaWriteInput::RecordDeploySubmitted(submission) => {
                &&& output == SemaWriteOutput::DeploySubmitted(self.next_handle())
                &&& self.admits(after, submission)
            },
            SemaWriteInput::RecordPhaseTransition(event) => {
                let phase = deploy_job_phase_of(event.deployment_phase);
                let pipeline = DeployPipeline {
                    phase_receipt: Some(self.receipt_of(event)),
                    ..self.active_deploy->0
                };
                &&& output == SemaWriteOutput::PhaseRecorded(self.receipt_of(event))
                &&& after.active_deploy == Some(pipeline)
                &&& after.store@ == self.store@.after_phase(
                    event.deployment_identifier.0,
                    deployment_lifecycle_of(event.deployment_phase),
                    self.active_deploy->0.job(phase),
                    event,
                ).with_job(pipeline.job(phase)).committed()
                &&& after.keeps_the_rest(*self)
            },
            SemaWriteInput::RecordGenerationActivated(commit) => {
                let pipeline = DeployPipeline {
                    resume_stage: DeployResumeStage::FinishDeployment,
                    ..self.active_deploy->0
                };
                &&& output == SemaWriteOutput::GenerationActivated(
                    AppliedActivation {
                        generation_identifier: commit.generation_identifier,
                        generation_slot: commit.generation_slot,
                        state_marker: self.store@.next_marker(),
                    },
                )
                &&& after.active_deploy == Some(pipeline)
                &&& after.store@ == self.store@.after_activation(
                    self.activated_generation(commit),
                    self.activated_root(commit),
                ).with_job(pipeline.job(DeployJobPhase::Activated)).committed()
                &&& after.keeps_the_rest(*self)
            },
            SemaWriteInput::PinGeneration(request) => {
                &&& (after.store@, output) == pin_outcome(self.store@, request)
                &&& after.differs_in_store_only(*self)
            },
            SemaWriteInput::UnpinGeneration(request) => {
                &&& (after.store@, output) == unpin_outcome(self.store@, request)
                &&& after.differs_in_store_only(*self)
            },
            SemaWriteInput::RetireGeneration(request) => {
                &&& (after.store@, output) == retire_outcome(self.store@, request)
                &&& after.differs_in_store_only(*self)
            },
            SemaWriteInput::RecordContainerTransition(transition) => {
                &&& output == SemaWriteOutput::ContainerRecorded(
                    ContainerReceipt {
                        event_log_position: EventLogPosition(
                            self.store@.allocation.next_event_log_position,
                        ),
                        state_marker: marker_of((self.store@.commits + 2) as u64),
                    },
                )
                &&& after.store@ == after_transition(self.store@, transition)
                &&& after.differs_in_store_only(*self)
            },
            SemaWriteInput::RecordTestRun(record) => {
                &&& output == SemaWriteOutput::TestRunRecorded(
                    AcceptedTest {
                        test_run_identifier: record.test_run_identifier,
                        state_marker: self.store@.next_marker(),
                    },
                )
                &&& after.store@ == self.store@.after_run(stored_run(record))
                &&& after.differs_in_store_only(*self)
            },
        }
    }

    /// Writes to the durable state.
    pub fn apply_sema(&mut self, input: SemaWriteInput) -> (r: SemaWriteOutput)
        requires
            old(self).is_consistent(),
            old(self).write_fits(input),
            old(self).can_write(input),
        ensures
            old(self).writes(input, *final(self), r),
            final(self).is_consistent(),
    {
        match input {
            SemaWriteInput::RecordDeploySubmitted(submission) => self.record_deploy_submitted(
                submission,
            ),
            SemaWriteInput::RecordPhaseTransition(event) => self.record_phase_transition(event),
            SemaWriteInput::RecordGenerationActivated(commit) => self.record_generation_activated(
                commit,
            ),
            SemaWriteInput::PinGeneration(request) => self.pin_generation(request),
            SemaWriteInput::UnpinGeneration(request) => self.unpin_generation(request),
            SemaWriteInput::RetireGeneration(request) => self.retire_generation(request),
            SemaWriteInput::RecordContainerTransition(transition) => self.record_container_transition(
                transition,
            ),
            SemaWriteInput::RecordTestRun(record) => self.record_test_run(record),
        }
    }
}

/// A record added at the end leaves the others in place.
pub proof fn lemma_push_keeps_records(
    records: Seq<DeploymentRecord>,
    record: DeploymentRecord,
)
    ensures
        forall|deployment: u64|
            record_keys(records).contains(deployment) ==> #[trigger] record_keys(
                records.push(record),
            ).contains(deployment),
        record_keys(records.push(record)).contains(record.deployment_identifier.0),
{
    let after = record_keys(records.push(record));
    assert forall|deployment: u64| record_keys(records).contains(deployment) implies #[trigger] after.contains(
        deployment,
    ) by {
        let i = choose|i: int|
            0 <= i < record_keys(records).len() && record_keys(records)[i] == deployment;
        assert(after[i] == deployment);
    }
    assert(after[records.len() as int] == record.deployment_identifier.0);
}

/// A record that is replaced leaves the others in place.
pub proof fn lemma_with_record_keeps_records(
    store: StoreView,
    record: DeploymentRecord,
)
    ensures
        forall|deployment: u64|
            store.has_record(deployment) ==> #[trigger] store.with_record(record).has_record(
                deployment,
            ),
{
    let before = record_keys(store.deployments);
    let after = record_keys(store.with_record(record).deployments);
    lemma_first_key(before, record.deployment_identifier.0);
    assert forall|deployment: u64| store.has_record(deployment) implies #[trigger] store.with_record(
        record,
    ).has_record(deployment) by {
        let i = choose|i: int| 0 <= i < before.len() && before[i] == deployment;
        assert(after[i] == deployment);
    }
}

} // verus!
