//! The steps of a deployment: what follows from each result of an effect and
//! from each recorded phase.

use crate::runtime_flow::{
    EffectCommand, EffectFailure, EffectResult, EffectStage, FlakeAuthRequest, FlakeInputOverride,
    HorizonMaterializationCommand, NexusAction, ResolvedFlake, SignalOutput,
};
use crate::runtime_model::{
    ClosurePath, DeployHandle, DeployJobPhase, DeployJobView, DeploymentFailure,
    DeploymentInputMode, DeploymentLifecycle, DeploymentPhase, DeploymentRecord,
    DeploymentRequestIdentity, DeploymentTerminal, DeployResumeStage, EventLogPosition,
    GenerationSlot, ImmutableRevision, MetaEgress, RejectedDeploy, SemaWriteInput,
    SourceRevisionPolicy, SourceRevisionRecord,
};
use crate::schema_runtime::engine::SchemaRuntime;
use crate::schema_runtime::flake_policy::{immutable_revision, is_full_commit};
use crate::schema_runtime::meta::DeployRejectionReason;
use crate::schema_runtime::pipeline::{DeployPipeline, DeployStage};
use crate::schema_runtime::requests::{
    deploy_failure_reason, deploy_failure_reason_of, deployment_failure_stage,
    deployment_failure_stage_of, terminal_reason, terminal_reason_of,
};
use crate::schema_runtime::store::{lemma_first_key, record_keys, StoreView};
use crate::schema_runtime::store_path::{canonical_nix_store_root, is_canonical_store_root};
use crate::schema_runtime::writes::lemma_with_record_keeps_records;
use vstd::prelude::*;

verus! {

/// An answer on the owner socket.
pub open spec fn meta_reply(output: MetaEgress) -> NexusAction {
    NexusAction::ReplyToSignal(SignalOutput::MetaOutput(output))
}

/// Answers on the owner socket.
pub fn reply_meta(output: MetaEgress) -> (r: NexusAction)
    ensures
        r == meta_reply(output),
{
    NexusAction::ReplyToSignal(SignalOutput::MetaOutput(output))
}

/// The next step once `phase` is recorded.
pub open spec fn stage_after(phase: DeploymentPhase) -> DeployResumeStage {
    match phase {
        DeploymentPhase::Building => DeployResumeStage::NixEval,
        DeploymentPhase::Copying => DeployResumeStage::ActivateGeneration,
        DeploymentPhase::Activated => DeployResumeStage::RecordGenerationActivated,
        _ => DeployResumeStage::FinishDeployment,
    }
}

/// How a deployment ends whose effect at `stage` failed.
pub open spec fn failure_of(stage: EffectStage) -> DeploymentTerminal {
    DeploymentTerminal::Failed(
        DeploymentFailure {
            deployment_failure_stage: deployment_failure_stage_of(stage),
            deployment_terminal_reason: terminal_reason_of(deploy_failure_reason_of(stage)),
        },
    )
}

/// The state after a position was reserved for an event.
pub open spec fn after_reservation(store: StoreView) -> StoreView {
    StoreView { allocation: store.allocation_after_event(), ..store }.committed()
}

impl DeployPipeline {
    /// The cursor once its flake was resolved to `revision`.
    pub open spec fn resolved_to(
        self,
        revision: SourceRevisionRecord,
        resume_stage: DeployResumeStage,
    ) -> DeployPipeline {
        DeployPipeline {
            flake: if self.source_revision_policy == SourceRevisionPolicy::ResolveAndRecord {
                revision.resolved_ref
            } else {
                self.flake
            },
            source_revision: Some(revision),
            resume_stage,
            ..self
        }
    }

    /// The closure that may be activated.
    pub open spec fn activatable(self) -> bool {
        self.closure_path matches Some(closure_path) && is_canonical_store_root(closure_path@)
    }

    /// Whether the deployment ends when its stage is taken further.
    pub open spec fn ends_after_phase(self) -> bool {
        match self.stage {
            DeployStage::Submitted => false,
            DeployStage::BuildingRecorded => !self.activatable(),
            DeployStage::CopyingRecorded => self.commit() is None,
            DeployStage::ActivatedRecorded => true,
        }
    }

    /// Whether the deployment ends with `result`.
    pub open spec fn ends_with(self, result: EffectResult) -> bool {
        match result {
            EffectResult::FlakeResolved(resolved) => !is_full_commit(resolved.0.string@),
            EffectResult::HorizonMaterialized(_) => false,
            EffectResult::ClosureEvaluated(evaluated) => !is_canonical_store_root(
                evaluated.closure_path@,
            ) || !self.action.realises(),
            EffectResult::ClosureBuilt(built) => !is_canonical_store_root(built.closure_path@)
                || !self.action.takes_effect(),
            EffectResult::ClosureCopied(_) => false,
            EffectResult::GenerationActivated(_) => false,
            EffectResult::DetachedTestActivationDispatched => false,
            _ => true,
        }
    }
}

impl SchemaRuntime {
    /// `after` and `action` follow from ending the driven deployment: its record
    /// is terminal, its end is announced and answered, and nothing is driven.
    pub open spec fn ends(
        &self,
        store: StoreView,
        after: Self,
        action: NexusAction,
        lifecycle: DeploymentLifecycle,
        terminal: DeploymentTerminal,
    ) -> bool {
        &&& action == meta_reply(
            MetaEgress::DeployTerminal(store.ended_record(self.driven(), lifecycle, terminal)),
        )
        &&& after.store@ == store.after_end(self.driven(), lifecycle, terminal)
        &&& after.active_deploy is None
        &&& after.active_operation is None
        &&& after.active_test == self.active_test
        &&& after.configuration == self.configuration
    }

    /// `after` and `action` follow from the success of the driven deployment.
    pub open spec fn finishes(&self, store: StoreView, after: Self, action: NexusAction) -> bool {
        self.ends(
            store,
            after,
            action,
            DeploymentLifecycle::Completed,
            DeploymentTerminal::Succeeded,
        )
    }

    /// `after` and `action` follow from the failure of the effect at `stage`.
    pub open spec fn fails(&self, after: Self, action: NexusAction, stage: EffectStage) -> bool {
        self.ends(self.store@, after, action, DeploymentLifecycle::Failed, failure_of(stage))
    }

    /// The driven deployment is `pipeline` over `store` in `after`, and a position
    /// was reserved for the event of `phase` that `action` asks to record.
    pub open spec fn asks_to_record(
        &self,
        pipeline: DeployPipeline,
        store: StoreView,
        after: Self,
        action: NexusAction,
        phase: DeploymentPhase,
    ) -> bool {
        let next = DeployPipeline { resume_stage: stage_after(phase), ..pipeline };
        &&& after.active_deploy == Some(next)
        &&& after.store@ == after_reservation(store)
        &&& after.keeps_the_rest(*self)
        &&& action matches NexusAction::CommandSemaWrite(
            SemaWriteInput::RecordPhaseTransition(event),
        ) && next.announces(
            event,
            phase,
            EventLogPosition(store.allocation.next_event_log_position),
        )
    }

    /// Ends the driven deployment with success.
    pub fn finish_deploy_pipeline(&mut self) -> (r: NexusAction)
        requires
            old(self).store@.is_consistent(),
            old(self).store@.fits(1, 1),
            old(self).is_correlated(),
        ensures
            old(self).finishes(old(self).store@, *final(self), r),
            final(self).is_consistent(),
    {
        let deployment = self.active_deploy.as_ref().unwrap().deployment_identifier.0;
        let record = self.store.terminalize_deployment(
            deployment,
            DeploymentLifecycle::Completed,
            DeploymentTerminal::Succeeded,
        );
        self.active_operation = None;
        self.active_deploy = None;
        reply_meta(MetaEgress::DeployTerminal(record))
    }

    /// Ends the driven deployment: the effect at the failure's stage failed. What
    /// is recorded and answered depends on the stage alone, not on the detail.
    pub fn fail_pipeline(&mut self, failure: EffectFailure) -> (r: NexusAction)
        requires
            old(self).store@.is_consistent(),
            old(self).store@.fits(1, 1),
            old(self).is_correlated(),
        ensures
            old(self).fails(*final(self), r, failure.effect_stage),
            final(self).is_consistent(),
    {
        let reason = deploy_failure_reason(failure.effect_stage);
        let terminal = DeploymentTerminal::Failed(
            DeploymentFailure {
                deployment_failure_stage: deployment_failure_stage(failure.effect_stage),
                deployment_terminal_reason: terminal_reason(reason),
            },
        );
        let deployment = self.active_deploy.as_ref().unwrap().deployment_identifier.0;
        let record = self.store.terminalize_deployment(
            deployment,
            DeploymentLifecycle::Failed,
            terminal,
        );
        self.active_deploy = None;
        self.active_operation = None;
        reply_meta(MetaEgress::DeployTerminal(record))
    }

    fn fail_at(&mut self, effect_stage: EffectStage, detail: &str) -> (r: NexusAction)
        requires
            old(self).store@.is_consistent(),
            old(self).store@.fits(1, 1),
            old(self).is_correlated(),
        ensures
            old(self).fails(*final(self), r, effect_stage),
            final(self).is_consistent(),
    {
        self.fail_pipeline(EffectFailure { effect_stage, string: detail.to_string() })
    }

    /// Asks for the first effect of an admitted deployment; answers the admission
    /// where nothing is driven.
    pub fn begin_deploy_pipeline(&mut self, accepted: DeployHandle) -> (r: NexusAction)
        ensures
            *final(self) == *old(self),
            old(self).active_deploy is None ==> r == meta_reply(
                MetaEgress::DeployAccepted(accepted),
            ),
            old(self).active_deploy matches Some(pipeline) ==> r == NexusAction::CommandEffect(
                EffectCommand::ResolveFlakeAuth(
                    FlakeAuthRequest {
                        proposal_source: pipeline.source,
                        flake_reference: pipeline.flake,
                        source_revision_policy: pipeline.source_revision_policy,
                    },
                ),
            ),
    {
        match &self.active_deploy {
            Some(pipeline) => NexusAction::CommandEffect(
                EffectCommand::ResolveFlakeAuth(pipeline.flake_auth_request()),
            ),
            None => reply_meta(MetaEgress::DeployAccepted(accepted)),
        }
    }

    /// Moves the cursor to `stage`.
    pub fn set_stage(&mut self, stage: DeployStage)
        ensures
            final(self).active_deploy == (match old(self).active_deploy {
                Some(pipeline) => Some(DeployPipeline { stage, ..pipeline }),
                None => None,
            }),
            final(self).store == old(self).store,
            final(self).keeps_the_rest(*old(self)),
    {
        match self.active_deploy.take() {
            Some(cursor) => {
                let mut pipeline = cursor;
                pipeline.stage = stage;
                self.active_deploy = Some(pipeline);
            },
            None => {},
        }
    }

    /// The counters have room for taking the cursor past its last phase.
    pub open spec fn advance_fits(&self) -> bool {
        let store = self.store@;
        let pipeline = self.active_deploy->0;
        match pipeline.stage {
            DeployStage::Submitted => true,
            DeployStage::BuildingRecorded => if pipeline.activatable() {
                store.fits(1, 0)
            } else {
                store.fits(1, 1)
            },
            DeployStage::CopyingRecorded => pipeline.commit() is None ==> store.fits(1, 1),
            DeployStage::ActivatedRecorded => store.fits(1, 1),
        }
    }

    /// Whether the counters have room for taking the cursor past its last phase.
    pub fn has_room_to_advance(&self) -> (r: bool)
        requires
            self.active_deploy is Some,
        ensures
            r == self.advance_fits(),
    {
        let pipeline = self.active_deploy.as_ref().unwrap();
        match pipeline.stage {
            DeployStage::Submitted => true,
            DeployStage::BuildingRecorded => match &pipeline.closure_path {
                Some(closure_path) => if canonical_nix_store_root(closure_path.0.as_str()) {
                    self.store.has_room(1, 0)
                } else {
                    self.store.has_room(1, 1)
                },
                None => self.store.has_room(1, 1),
            },
            DeployStage::CopyingRecorded => self.store.has_room(1, 1)
                || pipeline.activation_commit().is_some(),
            DeployStage::ActivatedRecorded => self.store.has_room(1, 1),
        }
    }

    /// Takes the cursor past the phase that was recorded last.
    pub fn advance_after_phase(&mut self) -> (r: NexusAction)
        requires
            old(self).store@.is_consistent(),
            old(self).advance_fits(),
            old(self).active_deploy is Some,
            old(self).active_deploy->0.ends_after_phase() ==> old(self).is_correlated(),
        ensures
            old(self).advances(*final(self), r),
            final(self).store@.is_consistent(),
            old(self).is_consistent() ==> final(self).is_consistent(),
    {
        let stage = self.active_deploy.as_ref().unwrap().stage;
        match stage {
            DeployStage::Submitted => {
                let command = self.active_deploy.as_ref().unwrap().nix_eval_command();
                self.set_stage(DeployStage::BuildingRecorded);
                NexusAction::CommandEffect(EffectCommand::NixEval(command))
            },
            DeployStage::BuildingRecorded => {
                let closure = self.active_deploy.as_ref().unwrap().closure_path.clone();
                let closure_path = match closure {
                    Some(closure_path) => closure_path,
                    None => {
                        return self.fail_at(
                            EffectStage::Activate,
                            "activation reached without a built closure path",
                        );
                    },
                };
                if !canonical_nix_store_root(closure_path.0.as_str()) {
                    return self.fail_at(
                        EffectStage::Activate,
                        "activation reached with a noncanonical closure path",
                    );
                }
                let command = self.active_deploy.as_ref().unwrap().activate_generation_command(
                    closure_path,
                );
                self.set_stage(DeployStage::CopyingRecorded);
                self.persist_job_phase(DeployJobPhase::Activating);
                NexusAction::CommandEffect(EffectCommand::ActivateGeneration(command))
            },
            DeployStage::CopyingRecorded => {
                let commit = self.active_deploy.as_ref().unwrap().activation_commit();
                match commit {
                    Some(commit) => {
                        self.set_stage(DeployStage::ActivatedRecorded);
                        NexusAction::CommandSemaWrite(
                            SemaWriteInput::RecordGenerationActivated(commit),
                        )
                    },
                    None => self.fail_at(
                        EffectStage::Activate,
                        "activation record reached without a built closure path",
                    ),
                }
            },
            DeployStage::ActivatedRecorded => self.finish_deploy_pipeline(),
        }
    }

    /// `after` and `action` follow from taking the cursor past its last phase: the
    /// evaluation after the building phase, the activation of a canonical closure
    /// after the copying phase, the commit after the activated phase, and then
    /// the end. A cursor without what it needs fails at the activation.
    pub open spec fn advances(&self, after: Self, action: NexusAction) -> bool {
        let pipeline = self.active_deploy->0;
        match pipeline.stage {
            DeployStage::Submitted => {
                &&& action matches NexusAction::CommandEffect(EffectCommand::NixEval(command))
                    && pipeline.is_eval(command)
                &&& after.active_deploy == Some(
                    DeployPipeline { stage: DeployStage::BuildingRecorded, ..pipeline },
                )
                &&& after.store == self.store
                &&& after.keeps_the_rest(*self)
            },
            DeployStage::BuildingRecorded => if pipeline.activatable() {
                let next = DeployPipeline { stage: DeployStage::CopyingRecorded, ..pipeline };
                &&& action matches NexusAction::CommandEffect(
                    EffectCommand::ActivateGeneration(command),
                ) && pipeline.is_activation(command, pipeline.closure_path->0)
                &&& after.active_deploy == Some(next)
                &&& after.store@ == self.store@.with_job(
                    next.job(DeployJobPhase::Activating),
                ).committed()
                &&& after.keeps_the_rest(*self)
            } else {
                self.fails(after, action, EffectStage::Activate)
            },
            DeployStage::CopyingRecorded => match pipeline.commit() {
                Some(commit) => {
                    &&& action == NexusAction::CommandSemaWrite(
                        SemaWriteInput::RecordGenerationActivated(commit),
                    )
                    &&& after.active_deploy == Some(
                        DeployPipeline { stage: DeployStage::ActivatedRecorded, ..pipeline },
                    )
                    &&& after.store == self.store
                    &&& after.keeps_the_rest(*self)
                },
                None => self.fails(after, action, EffectStage::Activate),
            },
            DeployStage::ActivatedRecorded => self.finishes(self.store@, after, action),
        }
    }

    /// Makes the driven deployment's job durable in `phase`.
    pub fn persist_job_phase(&mut self, phase: DeployJobPhase)
        requires
            old(self).store@.is_consistent(),
            old(self).active_deploy is Some ==> old(self).store@.fits(1, 0),
        ensures
            final(self).active_deploy == old(self).active_deploy,
            final(self).store@ == (match old(self).active_deploy {
                Some(pipeline) => old(self).store@.with_job(pipeline.job(phase)).committed(),
                None => old(self).store@,
            }),
            final(self).keeps_the_rest(*old(self)),
            final(self).store@.is_consistent(),
            old(self).is_consistent() ==> final(self).is_consistent(),
    {
        let resume_stage = match &self.active_deploy {
            Some(pipeline) => pipeline.resume_stage,
            None => DeployResumeStage::FinishDeployment,
        };
        self.persist_job_cursor(phase, resume_stage);
    }

    /// Keeps the slot that the activation took.
    pub fn set_activation_slot(&mut self, generation_slot: GenerationSlot)
        ensures
            final(self).active_deploy == (match old(self).active_deploy {
                Some(pipeline) => Some(
                    DeployPipeline { activation_slot: Some(generation_slot), ..pipeline },
                ),
                None => None,
            }),
            final(self).store == old(self).store,
            final(self).keeps_the_rest(*old(self)),
    {
        match self.active_deploy.take() {
            Some(cursor) => {
                let mut pipeline = cursor;
                pipeline.activation_slot = Some(generation_slot);
                self.active_deploy = Some(pipeline);
            },
            None => {},
        }
    }

    /// Keeps a closure, where it is a canonical one and a deployment is driven.
    pub fn set_closure_path(&mut self, closure_path: ClosurePath) -> (r: bool)
        ensures
            r == (is_canonical_store_root(closure_path@) && old(self).active_deploy is Some),
            !r ==> *final(self) == *old(self),
            r ==> final(self).active_deploy == Some(
                DeployPipeline {
                    closure_path: Some(closure_path),
                    ..old(self).active_deploy->0
                },
            ),
            final(self).store == old(self).store,
            final(self).keeps_the_rest(*old(self)),
    {
        if !canonical_nix_store_root(closure_path.0.as_str()) {
            return false;
        }
        match self.active_deploy.take() {
            Some(cursor) => {
                let mut pipeline = cursor;
                pipeline.closure_path = Some(closure_path);
                self.active_deploy = Some(pipeline);
                true
            },
            None => false,
        }
    }

    /// Keeps the materialized inputs, and makes that durable.
    pub fn set_input_overrides(&mut self, overrides: Vec<FlakeInputOverride>)
        requires
            old(self).store@.is_consistent(),
            old(self).active_deploy is Some ==> old(self).store@.fits(1, 0),
        ensures
            old(self).active_deploy is None ==> *final(self) == *old(self),
            old(self).active_deploy matches Some(pipeline) ==> {
                let next = DeployPipeline {
                    input_overrides: overrides,
                    resume_stage: DeployResumeStage::RecordBuilding,
                    ..pipeline
                };
                &&& final(self).active_deploy == Some(next)
                &&& final(self).store@ == old(self).store@.with_job(
                    next.job(DeployJobPhase::Submitted),
                ).committed()
            },
            final(self).keeps_the_rest(*old(self)),
            final(self).store@.is_consistent(),
            old(self).is_consistent() ==> final(self).is_consistent(),
    {
        match self.active_deploy.take() {
            Some(cursor) => {
                let mut pipeline = cursor;
                pipeline.input_overrides = overrides;
                self.active_deploy = Some(pipeline);
            },
            None => {},
        }
        self.persist_job_cursor(DeployJobPhase::Submitted, DeployResumeStage::RecordBuilding);
    }

    /// `after` follows from resolving the driven flake to `revision`: the cursor
    /// holds it, and where the deployment is recorded, its record names the
    /// commit and its job goes on from there, in one commit.
    pub open spec fn resolves(
        &self,
        after: Self,
        revision: SourceRevisionRecord,
        resume_stage: DeployResumeStage,
    ) -> bool {
        let next = self.active_deploy->0.resolved_to(revision, resume_stage);
        &&& after.active_deploy == Some(next)
        &&& self.resolves_store(after.store@, next, revision)
        &&& after.keeps_the_rest(*self)
    }

    /// `store` follows from recording `revision` for the driven deployment.
    pub open spec fn resolves_store(
        &self,
        store: StoreView,
        next: DeployPipeline,
        revision: SourceRevisionRecord,
    ) -> bool {
        if self.store@.has_record(self.driven()) {
            let named = store.record(
                self.driven(),
            ).deployment_request_identity.optional_immutable_revision;
            &&& named matches Some(text) && text@ == revision.string@
            &&& store == self.store@.after_resolution(
                self.driven(),
                named->0,
                next.job(DeployJobPhase::Submitted),
            )
        } else {
            store == self.store@
        }
    }

    /// Keeps the resolved source, where it names a commit.
    pub fn set_resolved_flake(&mut self, resolved: ResolvedFlake, resume_stage: DeployResumeStage) -> (r:
        bool)
        requires
            old(self).store@.is_consistent(),
            is_full_commit(resolved.0.string@) && old(self).is_correlated() ==>
                old(self).store@.fits(1, 0),
        ensures
            r == is_full_commit(resolved.0.string@),
            !r || old(self).active_deploy is None ==> *final(self) == *old(self),
            r && old(self).active_deploy is Some ==> old(self).resolves(
                *final(self),
                resolved.0,
                resume_stage,
            ),
            final(self).store@.is_consistent(),
            old(self).is_consistent() ==> final(self).is_consistent(),
    {
        let source_revision = resolved.0;
        let revision: ImmutableRevision = match immutable_revision(
            source_revision.string.as_str(),
        ) {
            Some(revision) => revision,
            None => {
                return false;
            },
        };
        let ghost before = self.store@;
        match self.active_deploy.take() {
            Some(cursor) => {
                let mut pipeline = cursor;
                if pipeline.source_revision_policy == SourceRevisionPolicy::ResolveAndRecord {
                    pipeline.flake = source_revision.resolved_ref.clone();
                }
                pipeline.source_revision = Some(source_revision);
                pipeline.resume_stage = resume_stage;
                let deployment = pipeline.deployment_identifier.0;
                let job = pipeline.deploy_job(DeployJobPhase::Submitted);
                self.active_deploy = Some(pipeline);
                if self.store.has_deployment(deployment) {
                    self.store.record_resolved_source(deployment, revision, job);
                    proof {
                        lemma_resolution_names_the_commit(before, deployment, revision, job@);
                    }
                }
            },
            None => {},
        }
        true
    }

    /// Reserves a position for the event of `phase` and asks to record it.
    pub fn record_phase(&mut self, phase: DeploymentPhase) -> (r: NexusAction)
        requires
            old(self).store@.is_consistent(),
            old(self).store@.fits(1, 1),
            old(self).active_deploy is Some,
        ensures
            old(self).asks_to_record(
                old(self).active_deploy->0,
                old(self).store@,
                *final(self),
                r,
                phase,
            ),
            final(self).store@.is_consistent(),
            old(self).is_consistent() ==> final(self).is_consistent(),
    {
        let resume_stage = match phase {
            DeploymentPhase::Building => DeployResumeStage::NixEval,
            DeploymentPhase::Copying => DeployResumeStage::ActivateGeneration,
            DeploymentPhase::Activated => DeployResumeStage::RecordGenerationActivated,
            _ => DeployResumeStage::FinishDeployment,
        };
        let mut pipeline = self.active_deploy.take().unwrap();
        pipeline.resume_stage = resume_stage;
        let position = self.store.allocate_event_log_position();
        let event = pipeline.phase_event(phase, EventLogPosition(position));
        self.active_deploy = Some(pipeline);
        NexusAction::CommandSemaWrite(SemaWriteInput::RecordPhaseTransition(event))
    }

    /// `after` and `action` follow from `result` while a deployment is driven.
    pub open spec fn follows_effect(
        &self,
        result: EffectResult,
        after: Self,
        action: NexusAction,
    ) -> bool {
        let pipeline = self.active_deploy->0;
        match result {
            EffectResult::FlakeResolved(resolved) => if !is_full_commit(resolved.0.string@) {
                self.fails(after, action, EffectStage::FlakeAuth)
            } else if pipeline.deployment_input_mode == DeploymentInputMode::Horizon {
                &&& self.resolves(after, resolved.0, DeployResumeStage::MaterializeHorizon)
                &&& action == NexusAction::CommandEffect(
                    EffectCommand::MaterializeHorizon(
                        HorizonMaterializationCommand {
                            cluster_name: pipeline.cluster_name,
                            node_name: pipeline.node_name,
                            proposal_source: pipeline.source,
                            materialization_shape: pipeline.shape(),
                        },
                    ),
                )
            } else {
                let next = pipeline.resolved_to(
                    resolved.0,
                    DeployResumeStage::RecordBuilding,
                );
                exists|store: StoreView|
                    {
                        &&& #[trigger] self.resolves_store(store, next, resolved.0)
                        &&& self.asks_to_record(
                            next,
                            store,
                            after,
                            action,
                            DeploymentPhase::Building,
                        )
                    }
            },
            EffectResult::HorizonMaterialized(inputs) => {
                let next = DeployPipeline {
                    input_overrides: inputs.0,
                    resume_stage: DeployResumeStage::RecordBuilding,
                    ..pipeline
                };
                self.asks_to_record(
                    next,
                    self.store@.with_job(next.job(DeployJobPhase::Submitted)).committed(),
                    after,
                    action,
                    DeploymentPhase::Building,
                )
            },
            EffectResult::ClosureEvaluated(evaluated) => if !is_canonical_store_root(
                evaluated.closure_path@,
            ) {
                self.fails(after, action, EffectStage::Eval)
            } else if pipeline.action.realises() {
                let next = DeployPipeline {
                    closure_path: Some(evaluated.closure_path),
                    resume_stage: DeployResumeStage::NixBuild,
                    ..pipeline
                };
                &&& action matches NexusAction::CommandEffect(EffectCommand::NixBuild(command))
                    && pipeline.is_build(command, evaluated.closure_path)
                &&& after.active_deploy == Some(next)
                &&& after.store@ == self.store@.with_job(
                    next.job(DeployJobPhase::Building),
                ).committed()
                &&& after.keeps_the_rest(*self)
            } else {
                self.finishes_at(evaluated.closure_path, after, action)
            },
            EffectResult::ClosureBuilt(built) => if !is_canonical_store_root(built.closure_path@) {
                self.fails(after, action, EffectStage::Build)
            } else if pipeline.action.takes_effect() {
                let next = DeployPipeline {
                    closure_path: Some(built.closure_path),
                    resume_stage: DeployResumeStage::CopyClosure,
                    ..pipeline
                };
                &&& action matches NexusAction::CommandEffect(EffectCommand::CopyClosure(command))
                    && pipeline.is_copy(command, built.closure_path)
                &&& after.active_deploy == Some(next)
                &&& after.store@ == self.store@.with_job(
                    next.job(DeployJobPhase::Built),
                ).committed()
                &&& after.keeps_the_rest(*self)
            } else {
                self.finishes_at(built.closure_path, after, action)
            },
            EffectResult::ClosureCopied(_) => self.asks_to_record(
                pipeline,
                self.store@,
                after,
                action,
                DeploymentPhase::Copying,
            ),
            EffectResult::GenerationActivated(activated) => self.asks_to_record(
                DeployPipeline { activation_slot: Some(activated.generation_slot), ..pipeline },
                self.store@,
                after,
                action,
                DeploymentPhase::Activated,
            ),
            EffectResult::DetachedTestActivationDispatched => {
                &&& action == meta_reply(
                    MetaEgress::DeployAccepted(
                        DeployHandle {
                            deployment_identifier: pipeline.deployment_identifier,
                            state_marker: pipeline.accepted_marker,
                        },
                    ),
                )
                &&& after.active_deploy is None
                &&& after.active_operation is None
                &&& after.active_test == self.active_test
                &&& after.configuration == self.configuration
                &&& after.store == self.store
            },
            EffectResult::PathsCollected(_) => self.finishes(self.store@, after, action),
            EffectResult::HermeticCheckBuilt(_) | EffectResult::TestVmStarted(_)
            | EffectResult::TestVmStopped(_) => self.fails(after, action, EffectStage::Build),
            EffectResult::EffectFailed(failure) => self.fails(
                after,
                action,
                failure.effect_stage,
            ),
        }
    }

    /// `after` and `action` follow from a deployment that asks for no more than
    /// `closure_path`: the job keeps it, and the deployment ends with success.
    pub open spec fn finishes_at(
        &self,
        closure_path: ClosurePath,
        after: Self,
        action: NexusAction,
    ) -> bool {
        let next = DeployPipeline {
            closure_path: Some(closure_path),
            resume_stage: DeployResumeStage::FinishDeployment,
            ..self.active_deploy->0
        };
        self.finishes(
            self.store@.with_job(next.job(DeployJobPhase::Built)).committed(),
            after,
            action,
        )
    }

    /// The counters have room for what follows from `result`.
    pub open spec fn effect_fits(&self, result: EffectResult) -> bool {
        let store = self.store@;
        let pipeline = self.active_deploy->0;
        match result {
            EffectResult::FlakeResolved(resolved) => if !is_full_commit(resolved.0.string@) {
                store.fits(1, 1)
            } else if pipeline.deployment_input_mode == DeploymentInputMode::Horizon {
                self.is_correlated() ==> store.fits(1, 0)
            } else if self.is_correlated() {
                store.fits(2, 1)
            } else {
                store.fits(1, 1)
            },
            EffectResult::HorizonMaterialized(_) => store.fits(2, 1),
            EffectResult::ClosureEvaluated(evaluated) => if !is_canonical_store_root(
                evaluated.closure_path@,
            ) {
                store.fits(1, 1)
            } else if pipeline.action.realises() {
                store.fits(1, 0)
            } else {
                store.fits(2, 1)
            },
            EffectResult::ClosureBuilt(built) => if !is_canonical_store_root(built.closure_path@) {
                store.fits(1, 1)
            } else if pipeline.action.takes_effect() {
                store.fits(1, 0)
            } else {
                store.fits(2, 1)
            },
            EffectResult::DetachedTestActivationDispatched => true,
            _ => store.fits(1, 1),
        }
    }

    /// Whether the counters have room for what follows from `result`.
    pub fn has_room_after_effect(&self, result: &EffectResult) -> (r: bool)
        requires
            self.active_deploy is Some,
        ensures
            r == self.effect_fits(*result),
    {
        let pipeline = self.active_deploy.as_ref().unwrap();
        match result {
            EffectResult::FlakeResolved(resolved) => {
                let correlated = self.store.has_deployment(pipeline.deployment_identifier.0);
                if immutable_revision(resolved.0.string.as_str()).is_none() {
                    self.store.has_room(1, 1)
                } else if pipeline.needs_horizon_materialization() {
                    !correlated || self.store.has_room(1, 0)
                } else if correlated {
                    self.store.has_room(2, 1)
                } else {
                    self.store.has_room(1, 1)
                }
            },
            EffectResult::HorizonMaterialized(_) => self.store.has_room(2, 1),
            EffectResult::ClosureEvaluated(evaluated) => if !canonical_nix_store_root(
                evaluated.closure_path.0.as_str(),
            ) {
                self.store.has_room(1, 1)
            } else if pipeline.action.produces_closure() {
                self.store.has_room(1, 0)
            } else {
                self.store.has_room(2, 1)
            },
            EffectResult::ClosureBuilt(built) => if !canonical_nix_store_root(
                built.closure_path.0.as_str(),
            ) {
                self.store.has_room(1, 1)
            } else if pipeline.action.activates() {
                self.store.has_room(1, 0)
            } else {
                self.store.has_room(2, 1)
            },
            EffectResult::DetachedTestActivationDispatched => true,
            _ => self.store.has_room(1, 1),
        }
    }

    /// Decides what follows from the result of an effect.
    pub fn decide_effect_completion(&mut self, result: EffectResult) -> (r: NexusAction)
        requires
            old(self).store@.is_consistent(),
            old(self).effect_fits(result),
            old(self).active_deploy is Some,
            old(self).active_deploy->0.ends_with(result) ==> old(self).is_correlated(),
        ensures
            old(self).follows_effect(result, *final(self), r),
            final(self).store@.is_consistent(),
            old(self).is_consistent() ==> final(self).is_consistent(),
    {
        match result {
            EffectResult::FlakeResolved(resolved) => self.follow_resolution(resolved),
            EffectResult::HorizonMaterialized(inputs) => {
                self.set_input_overrides(inputs.0);
                self.record_phase(DeploymentPhase::Building)
            },
            EffectResult::ClosureEvaluated(evaluated) => {
                if !self.set_closure_path(evaluated.closure_path.clone()) {
                    return self.fail_at(
                        EffectStage::Eval,
                        "effect returned a noncanonical closure path",
                    );
                }
                if self.active_deploy.as_ref().unwrap().action.produces_closure() {
                    let command = self.active_deploy.as_ref().unwrap().nix_build_command(
                        evaluated.closure_path,
                    );
                    self.persist_job_cursor(DeployJobPhase::Building, DeployResumeStage::NixBuild);
                    NexusAction::CommandEffect(EffectCommand::NixBuild(command))
                } else {
                    self.persist_job_cursor(
                        DeployJobPhase::Built,
                        DeployResumeStage::FinishDeployment,
                    );
                    self.finish_deploy_pipeline()
                }
            },
            EffectResult::ClosureBuilt(built) => {
                if !self.set_closure_path(built.closure_path.clone()) {
                    return self.fail_at(
                        EffectStage::Build,
                        "effect returned a noncanonical closure path",
                    );
                }
                if self.active_deploy.as_ref().unwrap().action.activates() {
                    let command = self.active_deploy.as_ref().unwrap().copy_closure_command(
                        built.closure_path,
                    );
                    self.persist_job_cursor(DeployJobPhase::Built, DeployResumeStage::CopyClosure);
                    NexusAction::CommandEffect(EffectCommand::CopyClosure(command))
                } else {
                    self.persist_job_cursor(
                        DeployJobPhase::Built,
                        DeployResumeStage::FinishDeployment,
                    );
                    self.finish_deploy_pipeline()
                }
            },
            EffectResult::ClosureCopied(_) => self.record_phase(DeploymentPhase::Copying),
            EffectResult::GenerationActivated(activated) => {
                self.set_activation_slot(activated.generation_slot);
                self.record_phase(DeploymentPhase::Activated)
            },
            EffectResult::DetachedTestActivationDispatched => {
                let pipeline = self.active_deploy.take().unwrap();
                self.active_operation = None;
                reply_meta(
                    MetaEgress::DeployAccepted(
                        DeployHandle {
                            deployment_identifier: pipeline.deployment_identifier,
                            state_marker: pipeline.accepted_marker,
                        },
                    ),
                )
            },
            EffectResult::PathsCollected(_) => self.finish_deploy_pipeline(),
            EffectResult::HermeticCheckBuilt(_) | EffectResult::TestVmStarted(_)
            | EffectResult::TestVmStopped(_) => self.fail_at(
                EffectStage::Build,
                "test effect result on the deploy pipeline",
            ),
            EffectResult::EffectFailed(failure) => self.fail_pipeline(failure),
        }
    }

    fn follow_resolution(&mut self, resolved: ResolvedFlake) -> (r: NexusAction)
        requires
            old(self).store@.is_consistent(),
            old(self).effect_fits(EffectResult::FlakeResolved(resolved)),
            old(self).active_deploy is Some,
            !is_full_commit(resolved.0.string@) ==> old(self).is_correlated(),
        ensures
            old(self).follows_effect(EffectResult::FlakeResolved(resolved), *final(self), r),
            final(self).store@.is_consistent(),
            old(self).is_consistent() ==> final(self).is_consistent(),
    {
        let horizon = self.active_deploy.as_ref().unwrap().needs_horizon_materialization();
        let command = self.active_deploy.as_ref().unwrap().horizon_materialization_command();
        let next_stage = if horizon {
            DeployResumeStage::MaterializeHorizon
        } else {
            DeployResumeStage::RecordBuilding
        };
        if !self.set_resolved_flake(resolved, next_stage) {
            return self.fail_at(
                EffectStage::FlakeAuth,
                "flake resolver did not prove an immutable commit",
            );
        }
        if horizon {
            NexusAction::CommandEffect(EffectCommand::MaterializeHorizon(command))
        } else {
            let ghost next = self.active_deploy->0;
            let ghost resolved_store = self.store@;
            let action = self.record_phase(DeploymentPhase::Building);
            assert(old(self).resolves_store(resolved_store, next, resolved.0));
            action
        }
    }

    /// The answer where a request took too many steps.
    pub fn budget_exhausted_reply(&mut self) -> (r: SignalOutput)
        requires
            old(self).is_consistent(),
            old(self).store@.fits(1, 1),
            old(self).active_deploy is Some,
        ensures
            ({
                let terminal = DeploymentTerminal::Rejected(
                    terminal_reason_of(DeployRejectionReason::DeploymentInFlight),
                );
                &&& r == SignalOutput::MetaOutput(
                    MetaEgress::DeployRejected(
                        RejectedDeploy(
                            old(self).store@.ended_record(
                                old(self).driven(),
                                DeploymentLifecycle::Rejected,
                                terminal,
                            ),
                        ),
                    ),
                )
                &&& final(self).store@ == old(self).store@.after_end(
                    old(self).driven(),
                    DeploymentLifecycle::Rejected,
                    terminal,
                )
            }),
            final(self).differs_in_store_only(*old(self)),
            final(self).is_consistent(),
    {
        SignalOutput::MetaOutput(
            MetaEgress::DeployRejected(
                self.deploy_rejection(DeployRejectionReason::DeploymentInFlight),
            ),
        )
    }
}

/// The record of a deployment whose source was resolved names the commit.
proof fn lemma_resolution_names_the_commit(
    store: StoreView,
    deployment: u64,
    revision: ImmutableRevision,
    job: DeployJobView,
)
    requires
        store.is_consistent(),
        store.has_record(deployment),
    ensures
        store.after_resolution(deployment, revision, job).has_record(deployment),
        store.after_resolution(deployment, revision, job).record(
            deployment,
        ).deployment_request_identity.optional_immutable_revision == Some(revision),
        forall|other: u64|
            store.has_record(other) ==> #[trigger] store.after_resolution(
                deployment,
                revision,
                job,
            ).has_record(other),
{
    let before = record_keys(store.deployments);
    let after_store = store.after_resolution(deployment, revision, job);
    let after = record_keys(after_store.deployments);
    lemma_first_key(before, deployment);
    assert(store.record(deployment).deployment_identifier.0 == deployment);
    assert(after =~= before);
    let named = DeploymentRecord {
        deployment_request_identity: DeploymentRequestIdentity {
            optional_immutable_revision: Some(revision),
            ..store.record(deployment).deployment_request_identity
        },
        ..store.record(deployment)
    };
    lemma_with_record_keeps_records(store, named);
}

} // verus!
