//! Restarting a deployment from its durable job.

use crate::error::Error;
use crate::runtime_flow::{
    BuiltClosure, EffectResult, EvaluatedClosure, NexusAction, NexusWork, ResolvedFlake,
    SignalOutput,
};
use crate::runtime_model::{
    ActivationBackend, AdmissionMarker, DeployHandle, DeployJob, DeployJobPhase,
    DeploymentIdentifier, DeploymentInputMode, DeploymentLifecycle, DeploymentPhase,
    DeploymentPhaseEvent, DeploymentTerminal, DeploymentTransport, DeployResumeStage,
    DeploySubmission, EventLogPosition, LoggedEvent, MetaEgress, NixBuilderSpec,
    PendingTransitionIntent, PhaseReceipt, RejectedDeploy, SemaWriteOutput, SourceRevisionRecord,
    StateMarker, TransitionIntentState,
};
use crate::schema_runtime::deploy_decisions::meta_reply;
use crate::schema_runtime::engine::{MetaOperation, SchemaRuntime};
use crate::schema_runtime::meta::DeployRejectionReason;
use crate::schema_runtime::pipeline::{
    DeployPipeline, DeployStage, persisted_overrides, restore_overrides, restored_overrides,
};
use crate::schema_runtime::queries::deployment_events;
use crate::schema_runtime::requests::terminal_reason_of;
use crate::schema_runtime::store::{entries_between, StoreView};
use crate::schema_runtime::store_path::{canonical_nix_store_root, is_canonical_store_root};
use vstd::prelude::*;

verus! {

// ---- what a restart finds ---------------------------------------------------------

/// Whether a deployment has ended.
pub open spec fn is_terminal(lifecycle: DeploymentLifecycle) -> bool {
    lifecycle == DeploymentLifecycle::Completed || lifecycle == DeploymentLifecycle::Rejected
        || lifecycle == DeploymentLifecycle::Failed
}

/// The phase whose receipt the step `stage` starts from.
pub open spec fn receipt_phase(stage: DeployResumeStage) -> Option<DeploymentPhase> {
    match stage {
        DeployResumeStage::NixEval => Some(DeploymentPhase::Building),
        DeployResumeStage::ActivateGeneration => Some(DeploymentPhase::Copying),
        DeployResumeStage::RecordGenerationActivated => Some(DeploymentPhase::Activated),
        _ => None,
    }
}

/// The step of the cursor that `stage` goes on from.
pub open spec fn resumed_stage(stage: DeployResumeStage) -> DeployStage {
    match stage {
        DeployResumeStage::ActivateGeneration => DeployStage::BuildingRecorded,
        DeployResumeStage::RecordGenerationActivated => DeployStage::CopyingRecorded,
        DeployResumeStage::FinishDeployment => DeployStage::ActivatedRecorded,
        _ => DeployStage::Submitted,
    }
}

impl DeploySubmission {
    /// How the deployment's inputs are made.
    pub open spec fn input_mode(&self) -> DeploymentInputMode {
        match self {
            DeploySubmission::Host(host) => host.deployment_input_mode,
            DeploySubmission::UserEnvironment(user) => user.deployment_input_mode,
        }
    }

    /// What activates the deployment.
    pub open spec fn backend(&self) -> ActivationBackend {
        match self {
            DeploySubmission::Host(host) => host.activation_backend,
            DeploySubmission::UserEnvironment(user) => user.activation_backend,
        }
    }
}

/// The text of an optional builder specification.
pub open spec fn builder_view(builder: Option<NixBuilderSpec>) -> Option<Seq<char>> {
    match builder {
        Some(value) => Some(value@),
        None => None,
    }
}

impl DeployJob {
    /// The routing that the job keeps is the one of its submission.
    pub open spec fn agrees_with(&self, submission: DeploySubmission) -> bool {
        &&& self.deployment_transport.nix_store_uri@ == submission.store_uri()
        &&& self.deployment_transport.ssh_destination@ == submission.destination()
        &&& self.deployment_input_mode == submission.input_mode()
        &&& self.deployment_output_selector@ == submission.selector()
        &&& self.activation_backend == submission.backend()
        &&& builder_view(self.optional_nix_builder_spec) == submission.builder()
    }
}

/// The acknowledged intents of `deployment` to enter `phase`, in order.
pub open spec fn acknowledged_intents(
    intents: Seq<PendingTransitionIntent>,
    deployment: u64,
    phase: DeploymentPhase,
) -> Seq<PendingTransitionIntent>
    decreases intents.len(),
{
    if intents.len() == 0 {
        Seq::empty()
    } else {
        let rest = acknowledged_intents(intents.drop_last(), deployment, phase);
        let last = intents.last();
        if last.deployment_identifier.0 == deployment && last.deployment_phase == phase
            && last.transition_intent_state == TransitionIntentState::Acknowledged {
            rest.push(last)
        } else {
            rest
        }
    }
}

/// The events of `deployment` at `position` with `marker`, in order.
pub open spec fn events_at(
    events: Seq<DeploymentPhaseEvent>,
    deployment: u64,
    position: EventLogPosition,
    marker: StateMarker,
) -> Seq<DeploymentPhaseEvent>
    decreases events.len(),
{
    if events.len() == 0 {
        Seq::empty()
    } else {
        let rest = events_at(events.drop_last(), deployment, position, marker);
        let last = events.last();
        if last.deployment_identifier.0 == deployment && last.event_log_position == position
            && last.state_marker == marker {
            rest.push(last)
        } else {
            rest
        }
    }
}

/// What is known of the receipt that a step starts from.
pub enum FoundReceipt {
    Receipt(PhaseReceipt),
    Fault(Seq<char>),
}

/// The receipt of the one time that `deployment` entered `phase`, as the log holds it.
pub open spec fn logged_receipt(store: StoreView, deployment: u64, phase: DeploymentPhase) -> FoundReceipt {
    let intents = acknowledged_intents(store.intents, deployment, phase);
    if intents.len() != 1 {
        FoundReceipt::Fault(
            "persisted resume stage lacks one acknowledged ordinal transition intent"@,
        )
    } else {
        match intents[0].optional_transition_marker {
            None => FoundReceipt::Fault("acknowledged phase intent lacks a marker"@),
            Some(marker) => {
                let events = events_at(
                    deployment_events(entries_between(store.events, 0, u64::MAX)),
                    deployment,
                    intents[0].event_log_position,
                    marker.0,
                );
                if events.len() != 1 {
                    FoundReceipt::Fault(
                        "acknowledged transition intent lacks one exact journal receipt"@,
                    )
                } else {
                    FoundReceipt::Receipt(
                        PhaseReceipt {
                            event_log_position: events[0].event_log_position,
                            state_marker: events[0].state_marker,
                        },
                    )
                }
            },
        }
    }
}

/// What becomes of a durable job at a restart.
pub enum ResumePlan {
    /// There is nothing to drive.
    Skip,
    /// The durable state contradicts the job.
    Fault(Seq<char>),
    /// The deployment goes on; whether its receipt had to be recovered from the log.
    Resume { receipt: Option<PhaseReceipt>, recovered: bool },
}

/// What becomes of `job` at a restart.
pub open spec fn resume_plan(store: StoreView, job: DeployJob) -> ResumePlan {
    let deployment = job.deployment_identifier.0;
    let record = store.record(deployment);
    match job.optional_deploy_submission {
        None => ResumePlan::Skip,
        Some(submission) => if job.optional_closure_path is Some && !is_canonical_store_root(
            job.optional_closure_path->0@,
        ) {
            ResumePlan::Fault("persisted deploy job has a noncanonical closure path"@)
        } else if !store.has_record(deployment) {
            ResumePlan::Fault("persisted deploy job lacks correlation record"@)
        } else if record.optional_admission_marker is None {
            ResumePlan::Fault("persisted deploy job lacks its admission receipt"@)
        } else if is_terminal(record.deployment_lifecycle) {
            ResumePlan::Skip
        } else if !job.agrees_with(submission) {
            ResumePlan::Fault(
                "persisted deploy job routing snapshot disagrees with its submission"@,
            )
        } else {
            match receipt_phase(job.deploy_resume_stage) {
                Some(phase) => if job.optional_phase_receipt is None {
                    match logged_receipt(store, deployment, phase) {
                        FoundReceipt::Receipt(receipt) => ResumePlan::Resume {
                            receipt: Some(receipt),
                            recovered: true,
                        },
                        FoundReceipt::Fault(text) => ResumePlan::Fault(text),
                    }
                } else {
                    ResumePlan::Resume { receipt: job.optional_phase_receipt, recovered: false }
                },
                None => ResumePlan::Resume {
                    receipt: job.optional_phase_receipt,
                    recovered: false,
                },
            }
        },
    }
}

impl DeployPipeline {
    /// `source` is the resolved source that `job` keeps.
    pub open spec fn is_kept_source(source: Option<SourceRevisionRecord>, job: DeployJob) -> bool {
        match (source, job.optional_flake_reference) {
            (Some(revision), Some(resolved_ref)) => {
                &&& revision.source_revision_policy == job.source_revision_policy
                &&& revision.requested_ref == job.flake_reference
                &&& revision.resolved_ref == resolved_ref
                &&& match job.resolved_revision {
                    Some(text) => revision.string == text,
                    None => revision.string@ == Seq::<char>::empty(),
                }
            },
            (None, None) => true,
            _ => false,
        }
    }

    /// The cursor goes on where `job` was left: it is the one that the persisted
    /// submission starts, with everything that the job keeps in place of it.
    pub open spec fn resumes(
        &self,
        job: DeployJob,
        admission: AdmissionMarker,
        receipt: Option<PhaseReceipt>,
    ) -> bool {
        &&& self.input_overrides@ == restored_overrides(
            job.persisted_flake_input_override_vector@,
        )
        &&& Self::is_kept_source(self.source_revision, job)
        &&& exists|start: DeployPipeline|
            {
                &&& #[trigger] start.starts(
                    job.deployment_identifier,
                    job.generation_identifier,
                    admission.0,
                    job.optional_deploy_submission->0,
                )
                &&& *self == (DeployPipeline {
                    deployment_transport: job.deployment_transport,
                    deployment_input_mode: job.deployment_input_mode,
                    deployment_output_selector: job.deployment_output_selector,
                    activation_backend: job.activation_backend,
                    builder: job.optional_nix_builder_spec,
                    closure_path: job.optional_closure_path,
                    activation_slot: job.optional_generation_slot,
                    input_overrides: self.input_overrides,
                    resume_stage: job.deploy_resume_stage,
                    phase_receipt: receipt,
                    stage: resumed_stage(job.deploy_resume_stage),
                    source_revision: self.source_revision,
                    flake: match self.source_revision {
                        Some(revision) => revision.resolved_ref,
                        None => start.flake,
                    },
                    ..start
                })
            }
    }
}

// ---- restarting ---------------------------------------------------------------------------

fn invariant_error(text: &str) -> (r: Error)
    ensures
        r matches Error::Invariant(found) && found@ == text@,
{
    Error::Invariant(text.to_string())
}

fn same_transport(left: &DeploymentTransport, right: &DeploymentTransport) -> (r: bool)
    ensures
        r == (left.nix_store_uri@ == right.nix_store_uri@ && left.ssh_destination@
            == right.ssh_destination@),
{
    left.nix_store_uri.0 == right.nix_store_uri.0 && left.ssh_destination.0
        == right.ssh_destination.0
}

fn same_builder(left: &Option<NixBuilderSpec>, right: &Option<NixBuilderSpec>) -> (r: bool)
    ensures
        r == (builder_view(*left) == builder_view(*right)),
{
    match (left, right) {
        (Some(left), Some(right)) => left.0 == right.0,
        (None, None) => true,
        _ => false,
    }
}

fn routing_agrees(pipeline: &DeployPipeline, job: &DeployJob) -> (r: bool)
    ensures
        r == {
            &&& pipeline.deployment_transport.nix_store_uri@
                == job.deployment_transport.nix_store_uri@
            &&& pipeline.deployment_transport.ssh_destination@
                == job.deployment_transport.ssh_destination@
            &&& pipeline.deployment_input_mode == job.deployment_input_mode
            &&& pipeline.deployment_output_selector@ == job.deployment_output_selector@
            &&& pipeline.activation_backend == job.activation_backend
            &&& builder_view(pipeline.builder) == builder_view(job.optional_nix_builder_spec)
        },
{
    same_transport(&pipeline.deployment_transport, &job.deployment_transport)
        && pipeline.deployment_input_mode == job.deployment_input_mode
        && pipeline.deployment_output_selector.0.0 == job.deployment_output_selector.0.0
        && pipeline.activation_backend == job.activation_backend && same_builder(
        &pipeline.builder,
        &job.optional_nix_builder_spec,
    )
}

fn same_marker(left: &StateMarker, right: &StateMarker) -> (r: bool)
    ensures
        r == (*left == *right),
{
    left.commit_sequence.0 == right.commit_sequence.0 && left.state_digest.0
        == right.state_digest.0
}

fn find_intents(
    intents: &Vec<PendingTransitionIntent>,
    deployment: &DeploymentIdentifier,
    phase: DeploymentPhase,
) -> (r: Vec<PendingTransitionIntent>)
    ensures
        r@ == acknowledged_intents(intents@, deployment.0, phase),
{
    let mut found: Vec<PendingTransitionIntent> = Vec::new();
    let mut i: usize = 0;
    while i < intents.len()
        invariant
            i <= intents@.len(),
            found@ == acknowledged_intents(intents@.take(i as int), deployment.0, phase),
        decreases intents@.len() - i,
    {
        assert(intents@.take(i + 1).drop_last() =~= intents@.take(i as int));
        assert(intents@.take(i + 1).last() == intents@[i as int]);
        if intents[i].deployment_identifier.0 == deployment.0 && intents[i].deployment_phase
            == phase && intents[i].transition_intent_state == TransitionIntentState::Acknowledged {
            found.push(intents[i].clone());
        }
        i = i + 1;
    }
    assert(intents@.take(i as int) =~= intents@);
    found
}

impl SchemaRuntime {
    /// The receipt of the one time that `deployment` entered `phase`, as the log holds it.
    fn recover_receipt(&self, deployment: &DeploymentIdentifier, phase: DeploymentPhase) -> (r:
        Result<PhaseReceipt, Error>)
        ensures
            match (r, logged_receipt(self.store@, deployment.0, phase)) {
                (Ok(receipt), FoundReceipt::Receipt(expected)) => receipt == expected,
                (Err(Error::Invariant(text)), FoundReceipt::Fault(expected)) => text@ == expected,
                _ => false,
            },
    {
        let intents = find_intents(self.store.pending_transition_intents(), deployment, phase);
        if intents.len() != 1 {
            return Err(
                invariant_error(
                    "persisted resume stage lacks one acknowledged ordinal transition intent",
                ),
            );
        }
        let intent = intents[0].clone();
        let marker = match intent.optional_transition_marker {
            Some(marker) => marker.0,
            None => {
                return Err(invariant_error("acknowledged phase intent lacks a marker"));
            },
        };
        let position = intent.event_log_position;
        let entries = self.store.event_log_in_range(0, u64::MAX).unwrap();
        let mut receipts: Vec<PhaseReceipt> = Vec::new();
        let ghost mut found: Seq<DeploymentPhaseEvent> = Seq::empty();
        let mut i: usize = 0;
        while i < entries.len()
            invariant
                i <= entries@.len(),
                found == events_at(
                    deployment_events(entries@.take(i as int)),
                    deployment.0,
                    position,
                    marker,
                ),
                receipts@.len() == found.len(),
                forall|k: int|
                    0 <= k < found.len() ==> #[trigger] receipts@[k] == (PhaseReceipt {
                        event_log_position: found[k].event_log_position,
                        state_marker: found[k].state_marker,
                    }),
            decreases entries@.len() - i,
        {
            assert(entries@.take(i + 1).drop_last() =~= entries@.take(i as int));
            assert(entries@.take(i + 1).last() == entries@[i as int]);
            match &entries[i].logged_event {
                LoggedEvent::Deployment(event) => {
                    let ghost events = deployment_events(entries@.take(i as int));
                    assert(events.push(*event).drop_last() =~= events);
                    if event.deployment_identifier.0 == deployment.0 && event.event_log_position.0
                        == position.0 && same_marker(&event.state_marker, &marker) {
                        receipts.push(
                            PhaseReceipt {
                                event_log_position: event.event_log_position.clone(),
                                state_marker: event.state_marker.clone(),
                            },
                        );
                        proof {
                            found = found.push(*event);
                        }
                    }
                },
                _ => {},
            }
            i = i + 1;
        }
        assert(entries@.take(i as int) =~= entries@);
        if receipts.len() != 1 {
            return Err(
                invariant_error("acknowledged transition intent lacks one exact journal receipt"),
            );
        }
        Ok(receipts[0].clone())
    }

    /// Restarts a deployment from its durable job, where there is one to drive. No
    /// identifier is handed out and the submission is not announced again.
    #[verifier::rlimit(60)]
    pub fn resume_deploy_job(&mut self, job: DeployJob) -> (r: Result<bool, Error>)
        requires
            old(self).store@.is_consistent(),
            resume_plan(old(self).store@, job) matches ResumePlan::Resume { recovered, .. } ==> (recovered
                ==> old(self).store@.fits(1, 0)),
        ensures
            match resume_plan(old(self).store@, job) {
                ResumePlan::Skip => r == Ok::<bool, Error>(false) && *final(self) == *old(self),
                ResumePlan::Fault(text) => r matches Err(Error::Invariant(found)) && found@ == text
                    && *final(self) == *old(self),
                ResumePlan::Resume { receipt, recovered } => {
                    let admission = old(self).store@.record(
                        job.deployment_identifier.0,
                    ).optional_admission_marker->0;
                    &&& r == Ok::<bool, Error>(true)
                    &&& final(self).active_operation == Some(MetaOperation::Deploy)
                    &&& final(self).active_deploy matches Some(pipeline) && pipeline.resumes(
                        job,
                        admission,
                        receipt,
                    ) && final(self).store@ == (if recovered {
                        old(self).store@.with_job(pipeline.job(job.deploy_job_phase)).committed()
                    } else {
                        old(self).store@
                    })
                    &&& final(self).active_test == old(self).active_test
                    &&& final(self).configuration == old(self).configuration
                    &&& final(self).is_consistent()
                },
            },
    {
        let persisted_phase = job.deploy_job_phase;
        let submission = match &job.optional_deploy_submission {
            Some(submission) => submission.clone(),
            None => {
                return Ok(false);
            },
        };
        match &job.optional_closure_path {
            Some(closure_path) => {
                if !canonical_nix_store_root(closure_path.0.as_str()) {
                    return Err(
                        invariant_error("persisted deploy job has a noncanonical closure path"),
                    );
                }
            },
            None => {},
        }
        let (admission_marker, lifecycle) = match self.store.find_deployment(
            job.deployment_identifier.0,
        ) {
            Some(record) => (
                record.optional_admission_marker.clone(),
                record.deployment_lifecycle,
            ),
            None => {
                return Err(invariant_error("persisted deploy job lacks correlation record"));
            },
        };
        let admission = match admission_marker {
            Some(admission) => admission,
            None => {
                return Err(invariant_error("persisted deploy job lacks its admission receipt"));
            },
        };
        match lifecycle {
            DeploymentLifecycle::Completed | DeploymentLifecycle::Rejected
            | DeploymentLifecycle::Failed => {
                return Ok(false);
            },
            _ => {},
        }
        let started = DeployPipeline::from_submission(
            job.deployment_identifier.clone(),
            job.generation_identifier.clone(),
            admission.0,
            submission,
        );
        if !routing_agrees(&started, &job) {
            return Err(
                invariant_error(
                    "persisted deploy job routing snapshot disagrees with its submission",
                ),
            );
        }
        let mut recovered = false;
        let mut phase_receipt = job.optional_phase_receipt.clone();
        let expected_phase = match job.deploy_resume_stage {
            DeployResumeStage::NixEval => Some(DeploymentPhase::Building),
            DeployResumeStage::ActivateGeneration => Some(DeploymentPhase::Copying),
            DeployResumeStage::RecordGenerationActivated => Some(DeploymentPhase::Activated),
            _ => None,
        };
        match expected_phase {
            Some(phase) => {
                if phase_receipt.is_none() {
                    match self.recover_receipt(&job.deployment_identifier, phase) {
                        Ok(receipt) => {
                            phase_receipt = Some(receipt);
                            recovered = true;
                        },
                        Err(fault) => {
                            return Err(fault);
                        },
                    }
                }
            },
            None => {},
        }
        let ghost start = started;
        let mut pipeline = started;
        pipeline.deployment_transport = job.deployment_transport.clone();
        pipeline.deployment_input_mode = job.deployment_input_mode;
        pipeline.deployment_output_selector = job.deployment_output_selector.clone();
        pipeline.activation_backend = job.activation_backend;
        pipeline.builder = job.optional_nix_builder_spec.clone();
        pipeline.closure_path = job.optional_closure_path.clone();
        pipeline.activation_slot = job.optional_generation_slot;
        pipeline.input_overrides = restore_overrides(&job.persisted_flake_input_override_vector);
        pipeline.resume_stage = job.deploy_resume_stage;
        pipeline.phase_receipt = phase_receipt;
        pipeline.stage = match job.deploy_resume_stage {
            DeployResumeStage::NixEval => DeployStage::Submitted,
            DeployResumeStage::ActivateGeneration => DeployStage::BuildingRecorded,
            DeployResumeStage::RecordGenerationActivated => DeployStage::CopyingRecorded,
            DeployResumeStage::FinishDeployment => DeployStage::ActivatedRecorded,
            _ => DeployStage::Submitted,
        };
        match &job.optional_flake_reference {
            Some(resolved_ref) => {
                let revision = SourceRevisionRecord {
                    source_revision_policy: job.source_revision_policy,
                    requested_ref: job.flake_reference.clone(),
                    resolved_ref: resolved_ref.clone(),
                    string: match &job.resolved_revision {
                        Some(text) => text.clone(),
                        None => String::new(),
                    },
                };
                pipeline.flake = revision.resolved_ref.clone();
                pipeline.source_revision = Some(revision);
            },
            None => {},
        }
        proof {
            assert(start.starts(
                job.deployment_identifier,
                job.generation_identifier,
                admission.0,
                job.optional_deploy_submission->0,
            ));
        }
        self.active_operation = Some(MetaOperation::Deploy);
        self.active_deploy = Some(pipeline);
        if recovered {
            self.persist_job_phase(persisted_phase);
        }
        Ok(true)
    }

    /// `output` and `after` follow from refusing the driven deployment because its
    /// cursor lacks what its step needs.
    pub open spec fn refuses_to_drive(&self, after: Self, output: MetaEgress) -> bool {
        let terminal = DeploymentTerminal::Rejected(
            terminal_reason_of(DeployRejectionReason::InternalError),
        );
        &&& output == MetaEgress::DeployRejected(
            RejectedDeploy(
                self.store@.ended_record(self.driven(), DeploymentLifecycle::Rejected, terminal),
            ),
        )
        &&& after.store@ == self.store@.after_end(
            self.driven(),
            DeploymentLifecycle::Rejected,
            terminal,
        )
        &&& after.differs_in_store_only(*self)
    }

    /// `work` is what the driven deployment goes on with.
    pub open spec fn goes_on_with(&self, work: NexusWork) -> bool {
        let pipeline = self.active_deploy->0;
        match pipeline.resume_stage {
            DeployResumeStage::ResolveFlakeAuth => work == NexusWork::SemaWriteCompleted(
                SemaWriteOutput::DeploySubmitted(
                    DeployHandle {
                        deployment_identifier: pipeline.deployment_identifier,
                        state_marker: pipeline.accepted_marker,
                    },
                ),
            ),
            DeployResumeStage::MaterializeHorizon => {
                &&& pipeline.source_revision is Some
                &&& work == NexusWork::EffectCompleted(
                    EffectResult::FlakeResolved(
                        ResolvedFlake(pipeline.source_revision->0),
                    ),
                )
            },
            DeployResumeStage::RecordBuilding => work matches NexusWork::EffectCompleted(
                EffectResult::HorizonMaterialized(inputs),
            ) && inputs.0@ == pipeline.input_overrides@,
            DeployResumeStage::NixBuild => {
                &&& pipeline.closure_path is Some
                &&& work == NexusWork::EffectCompleted(
                    EffectResult::ClosureEvaluated(
                        EvaluatedClosure {
                            generation_identifier: pipeline.generation_identifier,
                            closure_path: pipeline.closure_path->0,
                        },
                    ),
                )
            },
            DeployResumeStage::CopyClosure => {
                &&& pipeline.closure_path is Some
                &&& work == NexusWork::EffectCompleted(
                    EffectResult::ClosureBuilt(
                        BuiltClosure {
                            generation_identifier: pipeline.generation_identifier,
                            closure_path: pipeline.closure_path->0,
                        },
                    ),
                )
            },
            DeployResumeStage::NixEval | DeployResumeStage::ActivateGeneration
            | DeployResumeStage::RecordGenerationActivated => {
                &&& pipeline.phase_receipt is Some
                &&& work == NexusWork::SemaWriteCompleted(
                    SemaWriteOutput::PhaseRecorded(pipeline.phase_receipt->0),
                )
            },
            DeployResumeStage::FinishDeployment => false,
        }
    }

    /// Whether the cursor has what its step needs.
    pub open spec fn is_drivable(pipeline: DeployPipeline) -> bool {
        match pipeline.resume_stage {
            DeployResumeStage::ResolveFlakeAuth | DeployResumeStage::RecordBuilding
            | DeployResumeStage::FinishDeployment => true,
            DeployResumeStage::MaterializeHorizon => pipeline.source_revision is Some,
            DeployResumeStage::NixBuild | DeployResumeStage::CopyClosure
                => pipeline.closure_path is Some,
            DeployResumeStage::NixEval | DeployResumeStage::ActivateGeneration
            | DeployResumeStage::RecordGenerationActivated => pipeline.phase_receipt is Some,
        }
    }

    /// The counters have room for what the driven deployment begins with. Only a
    /// deployment that ends at once takes any.
    pub open spec fn begin_fits(&self) -> bool {
        let pipeline = self.active_deploy->0;
        pipeline.resume_stage == DeployResumeStage::FinishDeployment || !Self::is_drivable(pipeline)
            ==> self.store@.fits(1, 1)
    }

    /// Whether the counters have room for what the driven deployment begins with.
    pub fn has_room_to_begin(&self) -> (r: bool)
        requires
            self.active_deploy is Some,
        ensures
            r == self.begin_fits(),
    {
        let pipeline = self.active_deploy.as_ref().unwrap();
        self.store.has_room(1, 1) || match pipeline.resume_stage {
            DeployResumeStage::FinishDeployment => false,
            DeployResumeStage::ResolveFlakeAuth | DeployResumeStage::RecordBuilding => true,
            DeployResumeStage::MaterializeHorizon => pipeline.source_revision.is_some(),
            DeployResumeStage::NixBuild
            | DeployResumeStage::CopyClosure => pipeline.closure_path.is_some(),
            DeployResumeStage::NixEval | DeployResumeStage::ActivateGeneration
            | DeployResumeStage::RecordGenerationActivated => pipeline.phase_receipt.is_some(),
        }
    }

    /// The work that the driven deployment goes on with, or its answer where there
    /// is nothing left to do or the cursor lacks what its step needs.
    pub fn begin_submitted_deploy(&mut self) -> (r: Result<NexusWork, MetaEgress>)
        requires
            old(self).is_consistent(),
            old(self).begin_fits(),
            old(self).active_deploy is Some,
        ensures
            ({
                let pipeline = old(self).active_deploy->0;
                if pipeline.resume_stage == DeployResumeStage::FinishDeployment {
                    r matches Err(output) && old(self).finishes(
                        old(self).store@,
                        *final(self),
                        meta_reply(output),
                    )
                } else if Self::is_drivable(pipeline) {
                    r matches Ok(work) && old(self).goes_on_with(work) && *final(self)
                        == *old(self)
                } else {
                    r matches Err(output) && old(self).refuses_to_drive(*final(self), output)
                }
            }),
            final(self).is_consistent(),
    {
        let pipeline = self.active_deploy.as_ref().unwrap();
        let found: Option<NexusWork> = match pipeline.resume_stage {
            DeployResumeStage::FinishDeployment => {
                return match self.finish_deploy_pipeline() {
                    NexusAction::ReplyToSignal(
                        SignalOutput::MetaOutput(output),
                    ) => Err(output),
                    _ => {
                        assert(false);
                        vstd::pervasive::unreached()
                    },
                };
            },
            DeployResumeStage::ResolveFlakeAuth => Some(
                NexusWork::SemaWriteCompleted(
                    SemaWriteOutput::DeploySubmitted(
                        DeployHandle {
                            deployment_identifier: pipeline.deployment_identifier.clone(),
                            state_marker: pipeline.accepted_marker.clone(),
                        },
                    ),
                ),
            ),
            DeployResumeStage::MaterializeHorizon => match &pipeline.source_revision {
                Some(revision) => Some(
                    NexusWork::EffectCompleted(EffectResult::flake_resolved(revision.clone())),
                ),
                None => None,
            },
            DeployResumeStage::RecordBuilding => Some(
                NexusWork::EffectCompleted(
                    EffectResult::horizon_materialized(pipeline.input_overrides.clone()),
                ),
            ),
            DeployResumeStage::NixBuild => match &pipeline.closure_path {
                Some(closure_path) => Some(
                    NexusWork::EffectCompleted(
                        EffectResult::closure_evaluated(
                            EvaluatedClosure {
                                generation_identifier: pipeline.generation_identifier.clone(),
                                closure_path: closure_path.clone(),
                            },
                        ),
                    ),
                ),
                None => None,
            },
            DeployResumeStage::CopyClosure => match &pipeline.closure_path {
                Some(closure_path) => Some(
                    NexusWork::EffectCompleted(
                        EffectResult::closure_built(
                            BuiltClosure {
                                generation_identifier: pipeline.generation_identifier.clone(),
                                closure_path: closure_path.clone(),
                            },
                        ),
                    ),
                ),
                None => None,
            },
            DeployResumeStage::NixEval | DeployResumeStage::ActivateGeneration
            | DeployResumeStage::RecordGenerationActivated => match &pipeline.phase_receipt {
                Some(receipt) => Some(
                    NexusWork::SemaWriteCompleted(SemaWriteOutput::PhaseRecorded(receipt.clone())),
                ),
                None => None,
            },
        };
        match found {
            Some(work) => Ok(work),
            None => Err(
                MetaEgress::DeployRejected(
                    self.deploy_rejection(DeployRejectionReason::InternalError),
                ),
            ),
        }
    }
}

// ---- laws ----------------------------------------------------------------------------------------

/// A restart loses nothing: the cursor that resumes the job of `interrupted` has
/// the same durable job, and answers to the admission of the deployment.
pub proof fn law_a_restart_keeps_the_job(
    interrupted: DeployPipeline,
    resumed: DeployPipeline,
    job: DeployJob,
    phase: DeployJobPhase,
    admission: AdmissionMarker,
)
    requires
        interrupted.is_for(interrupted.submission),
        job@ == interrupted.job(phase),
        resumed.resumes(job, admission, job.optional_phase_receipt),
    ensures
        resumed.job(phase) == interrupted.job(phase),
        resumed.accepted_marker == admission.0,
{
    let values = job.persisted_flake_input_override_vector@;
    assert(persisted_overrides(restored_overrides(values)) =~= values);
    let submission = job.optional_deploy_submission->0;
    assert(submission@ == interrupted.submission@);
    let start = choose|start: DeployPipeline|
        {
            &&& #[trigger] start.starts(
                job.deployment_identifier,
                job.generation_identifier,
                admission.0,
                submission,
            )
            &&& resumed == (DeployPipeline {
                deployment_transport: job.deployment_transport,
                deployment_input_mode: job.deployment_input_mode,
                deployment_output_selector: job.deployment_output_selector,
                activation_backend: job.activation_backend,
                builder: job.optional_nix_builder_spec,
                closure_path: job.optional_closure_path,
                activation_slot: job.optional_generation_slot,
                input_overrides: resumed.input_overrides,
                resume_stage: job.deploy_resume_stage,
                phase_receipt: job.optional_phase_receipt,
                stage: resumed_stage(job.deploy_resume_stage),
                source_revision: resumed.source_revision,
                flake: match resumed.source_revision {
                    Some(revision) => revision.resolved_ref,
                    None => start.flake,
                },
                ..start
            })
        };
    assert(resumed.action == interrupted.action);
    assert(resumed.submission@ == submission@);
}

/// A deployment that has ended is never driven again.
pub proof fn law_an_ended_deployment_is_not_resumed(store: StoreView, job: DeployJob)
    requires
        store.has_record(job.deployment_identifier.0),
        is_terminal(store.record(job.deployment_identifier.0).deployment_lifecycle),
    ensures
        !(resume_plan(store, job) is Resume),
{
}

/// A resumed deployment holds a canonical closure or none.
pub proof fn law_a_resumed_closure_is_canonical(
    store: StoreView,
    job: DeployJob,
    resumed: DeployPipeline,
    admission: AdmissionMarker,
    receipt: Option<PhaseReceipt>,
)
    requires
        resume_plan(store, job) is Resume,
        resumed.resumes(job, admission, receipt),
    ensures
        resumed.closure_path matches Some(closure_path) ==> is_canonical_store_root(closure_path@),
{
}

} // verus!
