//! What follows from a request, from a read, from a write, and from the result of
//! a test's effect.

use crate::runtime_flow::{
    EffectCommand, EffectFailure, EffectResult, EffectStage, FlakeAuthRequest, Nexus, NexusAction,
    NexusWork, SignalInput, SignalOutput,
};
use crate::runtime_model::{
    AcceptedTest, ClosurePath, CommitSequence, ContainerState, ContainerTransition, DeployHandle,
    DeploymentLifecycle, DeploymentTerminal, DeploySubmission, FailureStage, MetaEgress,
    MetaIngress, OrdinaryEgress, OrdinaryIngress, QueryRejectionReason, RejectedDeploy,
    RejectedPin, RejectedQuery, RejectedRetire, RejectedTest, RejectedUnpin, RejectionReport,
    Selection, SemaReadInput, SemaReadOutput, SemaWriteInput, SemaWriteOutput, SubscriptionClose,
    SubscriptionClosed, SubscriptionOpened, SubscriptionToken, TestMode, TestOutcome,
    TestRejectionReason, TestRequest, TestRunIdentifier, TestRunPhase, TestRunRecord,
};
use crate::schema_runtime::deploy_decisions::{meta_reply, reply_meta};
use crate::schema_runtime::engine::{MetaOperation, SchemaRuntime};
use crate::schema_runtime::meta::DeployRejectionReason;
use crate::schema_runtime::requests::{
    admission_fault, admission_rejection, AdmissionEvidence, pin_reason, pin_reason_of,
    retire_reason, retire_reason_of, stored_run, terminal_reason_of, test_failure_stage,
    test_failure_stage_of, test_reason, test_reason_of, unpin_reason, unpin_reason_of,
};
use crate::schema_runtime::store::{largest, marker, marker_of, run_keys, StoreView};
use crate::schema_runtime::test_runs::{
    carries_profile, ClusterProjection, projected_hosted_nodes, refuses_test, resolve_and_validate,
    ResolvedTestRun, test_fault, TestPipeline, TestStage, TestSubmissionOutcome,
};
use crate::schema_runtime::writes::after_transition;
use vstd::prelude::*;

verus! {

/// How a submitted deployment was received.
#[derive(Debug, PartialEq, Eq)]
pub enum DeploySubmissionOutcome {
    Accepted(DeployHandle),
    Rejected(RejectedDeploy),
}

/// An answer on the ordinary socket.
pub open spec fn ordinary_reply(output: OrdinaryEgress) -> NexusAction {
    NexusAction::ReplyToSignal(SignalOutput::OrdinaryOutput(output))
}

fn reply_ordinary(output: OrdinaryEgress) -> (r: NexusAction)
    ensures
        r == ordinary_reply(output),
{
    NexusAction::ReplyToSignal(SignalOutput::OrdinaryOutput(output))
}

/// The read that answers a query.
pub open spec fn read_for(selection: Selection) -> SemaReadInput {
    match selection {
        Selection::ByTestRun(lookup) => SemaReadInput::QueryTestRuns(lookup),
        Selection::ByEventLog(range) => SemaReadInput::ReadEventLog(range),
        _ => SemaReadInput::QueryGenerations(selection),
    }
}

/// The answer that a read gives.
pub open spec fn read_answer(output: SemaReadOutput) -> OrdinaryEgress {
    match output {
        SemaReadOutput::GenerationsQueried(listing) => OrdinaryEgress::Queried(listing),
        SemaReadOutput::KeyMaterialChecked(report) => OrdinaryEgress::KeyMaterialChecked(report),
        SemaReadOutput::TestRunsQueried(listing) => OrdinaryEgress::TestRunsQueried(listing),
        SemaReadOutput::EventLogRead(page) => OrdinaryEgress::DeploymentEventsQueried(page),
        SemaReadOutput::ReadMissed(report) => OrdinaryEgress::QueryRejected(
            RejectedQuery {
                query_rejection_reason: QueryRejectionReason::GenerationUnknown,
                state_marker: report.state_marker,
            },
        ),
    }
}

/// The answer to a refused write of `operation`.
pub open spec fn refusal_answer(operation: MetaOperation, report: RejectionReport) -> MetaEgress {
    match operation {
        MetaOperation::Pin => MetaEgress::PinRejected(
            RejectedPin {
                pin_rejection_reason: pin_reason_of(report.rejection_reason),
                state_marker: report.state_marker,
            },
        ),
        MetaOperation::Unpin => MetaEgress::UnpinRejected(
            RejectedUnpin {
                unpin_rejection_reason: unpin_reason_of(report.rejection_reason),
                state_marker: report.state_marker,
            },
        ),
        MetaOperation::Retire => MetaEgress::RetireRejected(
            RejectedRetire {
                retire_rejection_reason: retire_reason_of(report.rejection_reason),
                state_marker: report.state_marker,
            },
        ),
        _ => MetaEgress::TestRejected(
            RejectedTest {
                test_rejection_reason: test_reason_of(report.rejection_reason),
                state_marker: report.state_marker,
            },
        ),
    }
}

impl SchemaRuntime {
    /// The durable state and the driven work are as in `other`.
    pub open spec fn differs_in_operation_only(&self, other: Self) -> bool {
        &&& self.store == other.store
        &&& self.configuration == other.configuration
        &&& self.active_deploy == other.active_deploy
        &&& self.active_test == other.active_test
    }

    // ---- requests -----------------------------------------------------------------------

    /// `after` and `action` follow from a request on the ordinary socket.
    pub open spec fn follows_ordinary(
        &self,
        input: OrdinaryIngress,
        after: Self,
        action: NexusAction,
    ) -> bool {
        match input {
            OrdinaryIngress::Query(selection) => {
                &&& action == NexusAction::CommandSemaRead(read_for(selection))
                &&& after == *self
            },
            OrdinaryIngress::CheckHostKeyMaterial(query) => {
                &&& action == NexusAction::CommandSemaRead(SemaReadInput::CheckKeyMaterial(query))
                &&& after == *self
            },
            OrdinaryIngress::WatchDeployments(_) | OrdinaryIngress::WatchCacheRetention(_) => {
                self.opens_subscription(after, action)
            },
            OrdinaryIngress::Unwatch(close) => {
                &&& action == ordinary_reply(
                    OrdinaryEgress::Unwatched(SubscriptionClosed(close.0)),
                )
                &&& after == *self
            },
        }
    }

    /// `after` and `action` follow from opening a subscription: the next token is
    /// handed out, with the commit that the subscription starts from.
    pub open spec fn opens_subscription(&self, after: Self, action: NexusAction) -> bool {
        &&& action == ordinary_reply(
            OrdinaryEgress::Watching(
                SubscriptionOpened {
                    subscription_token: SubscriptionToken(self.store@.next_token),
                    commit_sequence: CommitSequence(self.store@.commits),
                },
            ),
        )
        &&& after.store@ == (StoreView {
            next_token: (self.store@.next_token + 1) as u64,
            ..self.store@
        })
        &&& after.differs_in_store_only(*self)
    }

    /// The counters have room for deciding on `input`.
    pub open spec fn ordinary_fits(&self, input: OrdinaryIngress) -> bool {
        input is WatchDeployments || input is WatchCacheRetention
            ==> self.store@.fits_subscription()
    }

    /// Decides on a request of the ordinary socket.
    pub fn decide_ordinary_input(&mut self, input: OrdinaryIngress) -> (r: NexusAction)
        requires
            old(self).ordinary_fits(input),
        ensures
            old(self).follows_ordinary(input, *final(self), r),
            old(self).is_consistent() ==> final(self).is_consistent(),
    {
        match input {
            OrdinaryIngress::Query(selection) => match selection {
                Selection::ByTestRun(lookup) => NexusAction::CommandSemaRead(
                    SemaReadInput::QueryTestRuns(lookup),
                ),
                Selection::ByEventLog(range) => NexusAction::CommandSemaRead(
                    SemaReadInput::ReadEventLog(range),
                ),
                selection => NexusAction::CommandSemaRead(
                    SemaReadInput::QueryGenerations(selection),
                ),
            },
            OrdinaryIngress::CheckHostKeyMaterial(query) => NexusAction::CommandSemaRead(
                SemaReadInput::CheckKeyMaterial(query),
            ),
            OrdinaryIngress::WatchDeployments(_) | OrdinaryIngress::WatchCacheRetention(_)
                => self.open_subscription(),
            OrdinaryIngress::Unwatch(close) => self.close_subscription(close),
        }
    }

    /// Opens a subscription.
    pub fn open_subscription(&mut self) -> (r: NexusAction)
        requires
            old(self).store@.fits_subscription(),
        ensures
            old(self).opens_subscription(*final(self), r),
            old(self).is_consistent() ==> final(self).is_consistent(),
    {
        let token = self.store.next_subscription_token();
        reply_ordinary(
            OrdinaryEgress::Watching(
                SubscriptionOpened {
                    subscription_token: SubscriptionToken(token),
                    commit_sequence: CommitSequence(self.store.commit_sequence()),
                },
            ),
        )
    }

    /// Closes a subscription.
    pub fn close_subscription(&mut self, close: SubscriptionClose) -> (r: NexusAction)
        ensures
            r == ordinary_reply(OrdinaryEgress::Unwatched(SubscriptionClosed(close.0))),
            *final(self) == *old(self),
    {
        reply_ordinary(OrdinaryEgress::Unwatched(SubscriptionClosed(close.0)))
    }

    /// The answer to a test that is refused.
    pub fn test_rejection(&self, reason: TestRejectionReason) -> (r: RejectedTest)
        ensures
            r == (RejectedTest {
                test_rejection_reason: reason,
                state_marker: marker_of(self.store@.commits),
            }),
    {
        RejectedTest {
            test_rejection_reason: reason,
            state_marker: marker(self.store.commit_sequence()),
        }
    }

    /// The identifier of the next test run.
    pub open spec fn next_run(&self) -> TestRunIdentifier {
        TestRunIdentifier((largest(run_keys(self.store@.runs)) + 1) as u64)
    }

    /// The run that a test request starts with.
    pub open spec fn first_run(
        &self,
        request: TestRequest,
        projection: Option<&ClusterProjection>,
    ) -> ResolvedTestRun {
        self.configuration.test_defaults->0.lowered(
            request,
            projected_hosted_nodes(projection),
        )[0]
    }

    /// The row of a run that was accepted and has not begun.
    pub open spec fn pending_row(run: ResolvedTestRun, identifier: TestRunIdentifier) -> TestRunRecord {
        TestRunRecord {
            test_run_identifier: identifier,
            cluster_name: run.cluster,
            node: run.node,
            host: run.host,
            test_mode: run.profile.test_mode,
            test_run_phase: TestRunPhase::Submitted,
            test_outcome: TestOutcome::Pending,
            optional_closure_path: None,
        }
    }

    /// `after` and `action` follow from a test request: the first run that it
    /// resolves to is driven and its pending row is to be recorded, or the
    /// request is refused and nothing changes.
    pub open spec fn follows_test(
        &self,
        request: TestRequest,
        projection: Option<&ClusterProjection>,
        after: Self,
        action: NexusAction,
    ) -> bool {
        match test_fault(self.configuration.test_defaults, request, projection) {
            Some(reason) => {
                &&& action == meta_reply(
                    MetaEgress::TestRejected(
                        RejectedTest {
                            test_rejection_reason: reason,
                            state_marker: marker_of(self.store@.commits),
                        },
                    ),
                )
                &&& after == *self
            },
            None => {
                let run = self.first_run(request, projection);
                &&& action == NexusAction::CommandSemaWrite(
                    SemaWriteInput::RecordTestRun(Self::pending_row(run, self.next_run())),
                )
                &&& after.active_test == Some(
                    TestPipeline {
                        run,
                        identifier: self.next_run(),
                        stage: TestStage::Submitted,
                        accepted_marker: marker_of(0),
                    },
                )
                &&& after.active_operation == Some(MetaOperation::Test)
                &&& after.active_deploy == self.active_deploy
                &&& after.store == self.store
                &&& after.configuration == self.configuration
            },
        }
    }

    /// The counters have room for deciding on a test. A refused one takes none.
    pub open spec fn test_fits(
        &self,
        request: TestRequest,
        projection: Option<&ClusterProjection>,
    ) -> bool {
        test_fault(self.configuration.test_defaults, request, projection) is None
            ==> self.store@.fits_run()
    }

    /// Decides on a test request.
    pub fn decide_test(
        &mut self,
        request: TestRequest,
        projection: Option<&ClusterProjection>,
    ) -> (r: NexusAction)
        requires
            old(self).test_fits(request, projection),
        ensures
            old(self).follows_test(request, projection, *final(self), r),
            old(self).is_consistent() ==> final(self).is_consistent(),
    {
        match resolve_and_validate(&self.configuration.test_defaults, request, projection) {
            Ok(resolved) => {
                let run = resolved[0].clone();
                self.active_operation = Some(MetaOperation::Test);
                let identifier = TestRunIdentifier(self.store.next_test_run_identifier());
                let record = run.pending_record(identifier.clone());
                self.active_test = Some(TestPipeline::accepted(run, identifier));
                NexusAction::CommandSemaWrite(SemaWriteInput::RecordTestRun(record))
            },
            Err(reason) => reply_meta(MetaEgress::TestRejected(self.test_rejection(reason))),
        }
    }

    /// Whether the engine can decide on `input`: a deployment is refused on behalf
    /// of the one that is being driven.
    pub open spec fn can_decide_meta(&self, input: MetaIngress, evidence: AdmissionEvidence) -> bool {
        input matches MetaIngress::Deploy(request) && admission_fault(request, evidence) is Some
            ==> self.active_deploy is Some
    }

    /// `after` and `action` follow from a request on the owner socket.
    pub open spec fn follows_meta(
        &self,
        input: MetaIngress,
        evidence: AdmissionEvidence,
        projection: Option<&ClusterProjection>,
        after: Self,
        action: NexusAction,
    ) -> bool {
        match input {
            MetaIngress::Deploy(request) => match admission_fault(request, evidence) {
                Some(reason) => {
                    let terminal = DeploymentTerminal::Rejected(terminal_reason_of(reason));
                    &&& action == meta_reply(
                        MetaEgress::DeployRejected(
                            RejectedDeploy(
                                self.store@.ended_record(
                                    self.driven(),
                                    DeploymentLifecycle::Rejected,
                                    terminal,
                                ),
                            ),
                        ),
                    )
                    &&& after.store@ == self.store@.after_end(
                        self.driven(),
                        DeploymentLifecycle::Rejected,
                        terminal,
                    )
                    &&& after.differs_in_store_only(*self)
                },
                None => {
                    &&& action == NexusAction::CommandSemaWrite(
                        SemaWriteInput::RecordDeploySubmitted(request),
                    )
                    &&& after.active_operation == Some(MetaOperation::Deploy)
                    &&& after.differs_in_operation_only(*self)
                },
            },
            MetaIngress::Pin(request) => {
                &&& action == NexusAction::CommandSemaWrite(SemaWriteInput::PinGeneration(request))
                &&& after.active_operation == Some(MetaOperation::Pin)
                &&& after.differs_in_operation_only(*self)
            },
            MetaIngress::Unpin(request) => {
                &&& action == NexusAction::CommandSemaWrite(
                    SemaWriteInput::UnpinGeneration(request),
                )
                &&& after.active_operation == Some(MetaOperation::Unpin)
                &&& after.differs_in_operation_only(*self)
            },
            MetaIngress::Retire(request) => {
                &&& action == NexusAction::CommandSemaWrite(
                    SemaWriteInput::RetireGeneration(request),
                )
                &&& after.active_operation == Some(MetaOperation::Retire)
                &&& after.differs_in_operation_only(*self)
            },
            MetaIngress::Test(request) => self.follows_test(request, projection, after, action),
        }
    }

    /// The counters have room for deciding on `input`.
    pub open spec fn meta_fits(
        &self,
        input: MetaIngress,
        evidence: AdmissionEvidence,
        projection: Option<&ClusterProjection>,
    ) -> bool {
        match input {
            MetaIngress::Deploy(request) => admission_fault(request, evidence) is Some
                ==> self.store@.fits(1, 1),
            MetaIngress::Test(request) => self.test_fits(request, projection),
            _ => true,
        }
    }

    /// Decides on a request of the owner socket. `evidence` is what was found out
    /// about a deployment request, `projection` the cluster that test hosts are
    /// checked against.
    pub fn decide_meta_input(
        &mut self,
        input: MetaIngress,
        evidence: AdmissionEvidence,
        projection: Option<&ClusterProjection>,
    ) -> (r: NexusAction)
        requires
            old(self).is_consistent(),
            old(self).meta_fits(input, evidence, projection),
            old(self).can_decide_meta(input, evidence),
        ensures
            old(self).follows_meta(input, evidence, projection, *final(self), r),
            final(self).is_consistent(),
    {
        match input {
            MetaIngress::Deploy(request) => {
                match admission_rejection(&request, evidence) {
                    Some(reason) => {
                        return reply_meta(
                            MetaEgress::DeployRejected(self.deploy_rejection(reason)),
                        );
                    },
                    None => {},
                }
                self.active_operation = Some(MetaOperation::Deploy);
                NexusAction::CommandSemaWrite(SemaWriteInput::RecordDeploySubmitted(request))
            },
            MetaIngress::Pin(request) => {
                self.active_operation = Some(MetaOperation::Pin);
                NexusAction::CommandSemaWrite(SemaWriteInput::PinGeneration(request))
            },
            MetaIngress::Unpin(request) => {
                self.active_operation = Some(MetaOperation::Unpin);
                NexusAction::CommandSemaWrite(SemaWriteInput::UnpinGeneration(request))
            },
            MetaIngress::Retire(request) => {
                self.active_operation = Some(MetaOperation::Retire);
                NexusAction::CommandSemaWrite(SemaWriteInput::RetireGeneration(request))
            },
            MetaIngress::Test(request) => self.decide_test(request, projection),
        }
    }

    /// Submits a deployment. An admitted one is durable and driven from here on;
    /// a refused one leaves a record that says why.
    pub fn submit_deploy(&mut self, request: DeploySubmission, evidence: AdmissionEvidence) -> (r:
        DeploySubmissionOutcome)
        requires
            old(self).is_consistent(),
            old(self).store@.fits_deployment(),
        ensures
            match admission_fault(request, evidence) {
                Some(reason) => r matches DeploySubmissionOutcome::Rejected(rejected)
                    && old(self).refuses(*final(self), request, reason, rejected),
                None => {
                    &&& r == DeploySubmissionOutcome::Accepted(old(self).next_handle())
                    &&& final(self).active_operation == Some(MetaOperation::Deploy)
                    &&& (SchemaRuntime {
                        active_operation: Some(MetaOperation::Deploy),
                        ..*old(self)
                    }).admits(*final(self), request)
                },
            },
            final(self).is_consistent(),
    {
        match admission_rejection(&request, evidence) {
            Some(reason) => {
                return DeploySubmissionOutcome::Rejected(self.reject_submission(&request, reason));
            },
            None => {},
        }
        self.active_operation = Some(MetaOperation::Deploy);
        match self.record_deploy_submitted(request) {
            SemaWriteOutput::DeploySubmitted(accepted) => DeploySubmissionOutcome::Accepted(
                accepted,
            ),
            _ => {
                assert(false);
                vstd::pervasive::unreached()
            },
        }
    }

    /// Refuses a deployment because the daemon has no room for another one.
    pub fn reject_deployment_in_flight(&mut self, request: DeploySubmission) -> (r: RejectedDeploy)
        requires
            old(self).store@.is_consistent(),
            old(self).store@.fits_deployment(),
        ensures
            old(self).refuses(
                *final(self),
                request,
                DeployRejectionReason::DeploymentInFlight,
                r,
            ),
            final(self).store@.is_consistent(),
            old(self).is_consistent() ==> final(self).is_consistent(),
    {
        self.reject_submission(&request, DeployRejectionReason::DeploymentInFlight)
    }

    /// Submits a test. An accepted one has a pending row and is driven from here on.
    pub fn submit_test(&mut self, request: TestRequest, projection: Option<&ClusterProjection>) -> (r:
        TestSubmissionOutcome)
        requires
            old(self).is_consistent(),
            old(self).test_fits(request, projection),
            test_fault(old(self).configuration.test_defaults, request, projection) is None ==>
                old(self).store@.fits(1, 0),
        ensures
            match test_fault(old(self).configuration.test_defaults, request, projection) {
                Some(reason) => {
                    &&& r == TestSubmissionOutcome::Rejected(
                        RejectedTest {
                            test_rejection_reason: reason,
                            state_marker: marker_of(old(self).store@.commits),
                        },
                    )
                    &&& *final(self) == *old(self)
                },
                None => {
                    let run = old(self).first_run(request, projection);
                    &&& r == TestSubmissionOutcome::Accepted(
                        AcceptedTest {
                            test_run_identifier: old(self).next_run(),
                            state_marker: old(self).store@.next_marker(),
                        },
                    )
                    &&& final(self).store@ == old(self).store@.after_run(
                        stored_run(Self::pending_row(run, old(self).next_run())),
                    )
                    &&& final(self).active_test == Some(
                        TestPipeline {
                            run,
                            identifier: old(self).next_run(),
                            stage: TestStage::Submitted,
                            accepted_marker: old(self).store@.next_marker(),
                        },
                    )
                    &&& final(self).active_operation is None
                    &&& final(self).active_deploy == old(self).active_deploy
                    &&& final(self).configuration == old(self).configuration
                },
            },
            final(self).is_consistent(),
    {
        match self.decide_test(request, projection) {
            NexusAction::CommandSemaWrite(SemaWriteInput::RecordTestRun(record)) => {
                match self.record_test_run(record) {
                    SemaWriteOutput::TestRunRecorded(accepted) => {
                        self.active_operation = None;
                        match self.active_test.take() {
                            Some(cursor) => {
                                let mut pipeline = cursor;
                                pipeline.accepted_marker = accepted.state_marker.clone();
                                self.active_test = Some(pipeline);
                            },
                            None => {},
                        }
                        TestSubmissionOutcome::Accepted(accepted)
                    },
                    _ => {
                        assert(false);
                        vstd::pervasive::unreached()
                    },
                }
            },
            NexusAction::ReplyToSignal(SignalOutput::MetaOutput(MetaEgress::TestRejected(rejected)))
                => TestSubmissionOutcome::Rejected(rejected),
            _ => {
                assert(false);
                vstd::pervasive::unreached()
            },
        }
    }

    // ---- reads and writes --------------------------------------------------------------

    /// Answers a read.
    pub fn decide_read_completion(&mut self, output: SemaReadOutput) -> (r: NexusAction)
        ensures
            r == ordinary_reply(read_answer(output)),
            *final(self) == *old(self),
    {
        let reply = match output {
            SemaReadOutput::GenerationsQueried(listing) => OrdinaryEgress::Queried(listing),
            SemaReadOutput::KeyMaterialChecked(report) => OrdinaryEgress::KeyMaterialChecked(report),
            SemaReadOutput::TestRunsQueried(listing) => OrdinaryEgress::TestRunsQueried(listing),
            SemaReadOutput::EventLogRead(page) => OrdinaryEgress::DeploymentEventsQueried(page),
            SemaReadOutput::ReadMissed(report) => OrdinaryEgress::QueryRejected(
                RejectedQuery {
                    query_rejection_reason: QueryRejectionReason::GenerationUnknown,
                    state_marker: report.state_marker,
                },
            ),
        };
        reply_ordinary(reply)
    }

    /// Whether the engine can decide on a finished write: a phase and an activation
    /// belong to the deployment that is being driven, and a refused write to an
    /// operation other than a deployment.
    pub open spec fn can_decide_write(&self, output: SemaWriteOutput) -> bool {
        match output {
            SemaWriteOutput::PhaseRecorded(_) | SemaWriteOutput::ContainerRecorded(_)
            | SemaWriteOutput::GenerationActivated(_) => self.active_deploy is Some,
            SemaWriteOutput::WriteRejected(_) => self.active_operation matches Some(operation)
                && operation != MetaOperation::Deploy,
            _ => true,
        }
    }

    /// `after` and `action` follow from a finished write.
    pub open spec fn follows_write(
        &self,
        output: SemaWriteOutput,
        after: Self,
        action: NexusAction,
    ) -> bool {
        match output {
            SemaWriteOutput::DeploySubmitted(accepted) => {
                &&& after == *self
                &&& match self.active_deploy {
                    None => action == meta_reply(MetaEgress::DeployAccepted(accepted)),
                    Some(pipeline) => action == NexusAction::CommandEffect(
                        EffectCommand::ResolveFlakeAuth(
                            FlakeAuthRequest {
                                proposal_source: pipeline.source,
                                flake_reference: pipeline.flake,
                                source_revision_policy: pipeline.source_revision_policy,
                            },
                        ),
                    ),
                }
            },
            SemaWriteOutput::PhaseRecorded(_) | SemaWriteOutput::ContainerRecorded(_) => {
                self.advances(after, action)
            },
            SemaWriteOutput::GenerationActivated(_) => self.finishes(self.store@, after, action),
            SemaWriteOutput::GenerationPinned(applied) => {
                &&& action == meta_reply(MetaEgress::Pinned(applied))
                &&& after.active_operation is None
                &&& after.differs_in_operation_only(*self)
            },
            SemaWriteOutput::GenerationUnpinned(applied) => {
                &&& action == meta_reply(MetaEgress::Unpinned(applied))
                &&& after.active_operation is None
                &&& after.differs_in_operation_only(*self)
            },
            SemaWriteOutput::GenerationRetired(applied) => {
                &&& action == meta_reply(MetaEgress::Retired(applied))
                &&& after.active_operation is None
                &&& after.differs_in_operation_only(*self)
            },
            SemaWriteOutput::TestRunRecorded(accepted) => {
                &&& action == meta_reply(MetaEgress::Tested(accepted))
                &&& after.active_operation is None
                &&& after.differs_in_operation_only(*self)
            },
            SemaWriteOutput::WriteRejected(report) => self.refuses_write(report, after, action),
        }
    }

    /// `after` and `action` follow from a refused write: the operation is answered
    /// with its reason, and nothing is driven.
    pub open spec fn refuses_write(
        &self,
        report: RejectionReport,
        after: Self,
        action: NexusAction,
    ) -> bool {
        &&& action == meta_reply(refusal_answer(self.active_operation->0, report))
        &&& after.active_deploy is None
        &&& after.active_operation is None
        &&& after.active_test == self.active_test
        &&& after.store == self.store
        &&& after.configuration == self.configuration
    }

    /// The counters have room for what follows from a finished write.
    pub open spec fn completion_fits(&self, output: SemaWriteOutput) -> bool {
        match output {
            SemaWriteOutput::PhaseRecorded(_)
            | SemaWriteOutput::ContainerRecorded(_) => self.advance_fits(),
            SemaWriteOutput::GenerationActivated(_) => self.store@.fits(1, 1),
            _ => true,
        }
    }

    /// Whether the counters have room for what follows from a finished write.
    pub fn has_room_after_write(&self, output: &SemaWriteOutput) -> (r: bool)
        requires
            self.can_decide_write(*output),
        ensures
            r == self.completion_fits(*output),
    {
        match output {
            SemaWriteOutput::PhaseRecorded(_)
            | SemaWriteOutput::ContainerRecorded(_) => self.has_room_to_advance(),
            SemaWriteOutput::GenerationActivated(_) => self.store.has_room(1, 1),
            _ => true,
        }
    }

    /// Decides what follows from a finished write.
    pub fn decide_write_completion(&mut self, output: SemaWriteOutput) -> (r: NexusAction)
        requires
            old(self).is_consistent(),
            old(self).completion_fits(output),
            old(self).can_decide_write(output),
        ensures
            old(self).follows_write(output, *final(self), r),
            final(self).is_consistent(),
    {
        match output {
            SemaWriteOutput::DeploySubmitted(accepted) => self.begin_deploy_pipeline(accepted),
            SemaWriteOutput::PhaseRecorded(_) => self.advance_after_phase(),
            SemaWriteOutput::GenerationActivated(_) => self.finish_deploy_pipeline(),
            SemaWriteOutput::GenerationPinned(applied) => {
                self.active_operation = None;
                reply_meta(MetaEgress::Pinned(applied))
            },
            SemaWriteOutput::GenerationUnpinned(applied) => {
                self.active_operation = None;
                reply_meta(MetaEgress::Unpinned(applied))
            },
            SemaWriteOutput::GenerationRetired(applied) => {
                self.active_operation = None;
                reply_meta(MetaEgress::Retired(applied))
            },
            SemaWriteOutput::ContainerRecorded(_) => self.advance_after_phase(),
            SemaWriteOutput::TestRunRecorded(accepted) => {
                self.active_operation = None;
                reply_meta(MetaEgress::Tested(accepted))
            },
            SemaWriteOutput::WriteRejected(report) => self.reject_active_or_meta(report),
        }
    }

    /// Answers a refused write.
    pub fn reject_active_or_meta(&mut self, report: RejectionReport) -> (r: NexusAction)
        requires
            old(self).active_operation matches Some(operation) && operation
                != MetaOperation::Deploy,
        ensures
            old(self).refuses_write(report, *final(self), r),
            old(self).is_consistent() ==> final(self).is_consistent(),
    {
        self.active_deploy = None;
        let operation = self.active_operation.take().unwrap();
        let marker = report.state_marker;
        let output = match operation {
            MetaOperation::Pin => MetaEgress::PinRejected(
                RejectedPin {
                    pin_rejection_reason: pin_reason(report.rejection_reason),
                    state_marker: marker,
                },
            ),
            MetaOperation::Unpin => MetaEgress::UnpinRejected(
                RejectedUnpin {
                    unpin_rejection_reason: unpin_reason(report.rejection_reason),
                    state_marker: marker,
                },
            ),
            MetaOperation::Retire => MetaEgress::RetireRejected(
                RejectedRetire {
                    retire_rejection_reason: retire_reason(report.rejection_reason),
                    state_marker: marker,
                },
            ),
            _ => MetaEgress::TestRejected(
                RejectedTest {
                    test_rejection_reason: test_reason(report.rejection_reason),
                    state_marker: marker,
                },
            ),
        };
        reply_meta(output)
    }

    // ---- tests --------------------------------------------------------------------------------

    /// `after` and `action` follow from the end of the driven test over `store`:
    /// its row is terminal, and nothing is driven.
    pub open spec fn ends_test(
        &self,
        store: StoreView,
        after: Self,
        action: NexusAction,
        phase: TestRunPhase,
        outcome: TestOutcome,
        closure_path: Option<ClosurePath>,
    ) -> bool {
        let pipeline = self.active_test->0;
        &&& action == meta_reply(
            MetaEgress::Tested(
                AcceptedTest {
                    test_run_identifier: pipeline.identifier,
                    state_marker: store.next_marker(),
                },
            ),
        )
        &&& after.store@ == store.after_run(stored_run(pipeline.row(phase, outcome, closure_path)))
        &&& after.active_operation is None
        &&& after.active_test is None
        &&& after.active_deploy == self.active_deploy
        &&& after.configuration == self.configuration
    }

    /// `after` and `action` follow from the failure of the driven test.
    pub open spec fn fails_test(
        &self,
        store: StoreView,
        after: Self,
        action: NexusAction,
        stage: FailureStage,
    ) -> bool {
        self.ends_test(
            store,
            after,
            action,
            TestRunPhase::Failed,
            TestOutcome::Failed(stage),
            None,
        )
    }

    /// `transition` moves the driven test's container to `state`.
    pub open spec fn is_transition(&self, transition: ContainerTransition, state: ContainerState) -> bool {
        let run = self.active_test->0.run;
        &&& transition.cluster_name == run.cluster
        &&& transition.node_name == run.node
        &&& transition.container_name@ == "vm-"@ + run.node@
        &&& transition.container_state == state
    }

    /// `after` and `action` follow from `result` while a test is driven. A test
    /// passes only by the closure of its own check.
    pub open spec fn follows_test_effect(
        &self,
        result: EffectResult,
        after: Self,
        action: NexusAction,
    ) -> bool {
        match self.active_test {
            None => {
                &&& action == meta_reply(
                    MetaEgress::TestRejected(
                        RejectedTest {
                            test_rejection_reason: TestRejectionReason::InternalError,
                            state_marker: marker_of(self.store@.commits),
                        },
                    ),
                )
                &&& after == *self
            },
            Some(pipeline) => match result {
                EffectResult::HermeticCheckBuilt(built) => self.ends_test(
                    self.store@,
                    after,
                    action,
                    TestRunPhase::Completed,
                    TestOutcome::Passed,
                    Some(built.closure_path),
                ),
                EffectResult::TestVmStarted(_) => exists|transition: ContainerTransition|
                    {
                        &&& #[trigger] self.is_transition(transition, ContainerState::Started)
                        &&& after.store@ == after_transition(self.store@, transition)
                        &&& after.active_test == Some(
                            TestPipeline { stage: TestStage::Asserted, ..pipeline },
                        )
                        &&& after.active_operation == self.active_operation
                        &&& after.active_deploy == self.active_deploy
                        &&& after.configuration == self.configuration
                        &&& action matches NexusAction::CommandEffect(
                            EffectCommand::TearDownTestVm(command),
                        ) && {
                            let route = pipeline.run.profile.optional_deployment_transport->0;
                            &&& command.cluster_name == pipeline.run.cluster
                            &&& command.node == pipeline.run.node
                            &&& command.host == pipeline.run.host
                            &&& command.deployment_transport.nix_store_uri.0
                                == route.nix_store_uri.0
                            &&& command.deployment_transport.ssh_destination.0
                                == route.ssh_destination.0
                        }
                    },
                EffectResult::TestVmStopped(_) => exists|transition: ContainerTransition|
                    {
                        &&& #[trigger] self.is_transition(transition, ContainerState::Stopped)
                        &&& self.fails_test(
                            after_transition(self.store@, transition),
                            after,
                            action,
                            FailureStage::Assert,
                        )
                    },
                EffectResult::EffectFailed(failure) => self.fails_test(
                    self.store@,
                    after,
                    action,
                    test_failure_stage_of(failure.effect_stage),
                ),
                _ => self.fails_test(self.store@, after, action, FailureStage::HermeticCheck),
            },
        }
    }

    /// The counters have room for what follows from `result` while a test is driven.
    pub open spec fn test_effect_fits(&self, result: EffectResult) -> bool {
        self.active_test is Some ==> match result {
            EffectResult::TestVmStarted(_) => self.store@.fits(2, 1),
            EffectResult::TestVmStopped(_) => self.store@.fits(3, 1),
            _ => self.store@.fits(1, 0),
        }
    }

    /// Whether the counters have room for what follows from `result` while a test is
    /// driven.
    pub fn has_room_after_test_effect(&self, result: &EffectResult) -> (r: bool)
        ensures
            r == self.test_effect_fits(*result),
    {
        self.active_test.is_none() || match result {
            EffectResult::TestVmStarted(_) => self.store.has_room(2, 1),
            EffectResult::TestVmStopped(_) => self.store.has_room(3, 1),
            _ => self.store.has_room(1, 0),
        }
    }

    /// Decides what follows from the result of a test's effect.
    pub fn decide_test_effect_completion(&mut self, result: EffectResult) -> (r: NexusAction)
        requires
            old(self).store@.is_consistent(),
            old(self).test_effect_fits(result),
            old(self).active_test matches Some(pipeline) ==> (result is TestVmStarted
                ==> pipeline.run.profile.optional_deployment_transport is Some),
        ensures
            old(self).follows_test_effect(result, *final(self), r),
            final(self).store@.is_consistent(),
            old(self).is_consistent() ==> final(self).is_consistent(),
    {
        let pipeline = match &self.active_test {
            Some(pipeline) => pipeline.clone(),
            None => {
                return reply_meta(
                    MetaEgress::TestRejected(
                        self.test_rejection(TestRejectionReason::InternalError),
                    ),
                );
            },
        };
        match result {
            EffectResult::HermeticCheckBuilt(built) => self.record_test_terminal(
                &pipeline,
                TestRunPhase::Completed,
                TestOutcome::Passed,
                Some(built.closure_path),
            ),
            EffectResult::TestVmStarted(_) => {
                let transition = pipeline.container_transition(ContainerState::Started);
                let ghost recorded = transition;
                let _ = self.record_container_transition(transition);
                self.set_test_stage(TestStage::BroughtUp);
                self.set_test_stage(TestStage::Asserted);
                assert(old(self).is_transition(recorded, ContainerState::Started));
                NexusAction::CommandEffect(
                    EffectCommand::TearDownTestVm(pipeline.run.tear_down_command()),
                )
            },
            EffectResult::TestVmStopped(_) => {
                let transition = pipeline.container_transition(ContainerState::Stopped);
                let ghost recorded = transition;
                let _ = self.record_container_transition(transition);
                assert(old(self).is_transition(recorded, ContainerState::Stopped));
                self.record_test_terminal(
                    &pipeline,
                    TestRunPhase::Failed,
                    TestOutcome::Failed(FailureStage::Assert),
                    None,
                )
            },
            EffectResult::EffectFailed(failure) => self.fail_test_pipeline(failure),
            _ => self.fail_test_pipeline(
                EffectFailure {
                    effect_stage: EffectStage::HermeticCheck,
                    string: "unexpected effect result on the test pipeline".to_string(),
                },
            ),
        }
    }

    /// Ends the driven test.
    pub fn record_test_terminal(
        &mut self,
        pipeline: &TestPipeline,
        phase: TestRunPhase,
        outcome: TestOutcome,
        closure_path: Option<ClosurePath>,
    ) -> (r: NexusAction)
        requires
            old(self).store@.is_consistent(),
            old(self).store@.fits(1, 0),
        ensures
            r == meta_reply(
                MetaEgress::Tested(
                    AcceptedTest {
                        test_run_identifier: pipeline.identifier,
                        state_marker: old(self).store@.next_marker(),
                    },
                ),
            ),
            final(self).store@ == old(self).store@.after_run(
                stored_run(pipeline.row(phase, outcome, closure_path)),
            ),
            final(self).active_operation is None,
            final(self).active_test is None,
            final(self).active_deploy == old(self).active_deploy,
            final(self).configuration == old(self).configuration,
            final(self).store@.is_consistent(),
            old(self).is_consistent() ==> final(self).is_consistent(),
    {
        let output = self.record_test_run(pipeline.record_at(phase, outcome, closure_path));
        self.active_operation = None;
        self.active_test = None;
        match output {
            SemaWriteOutput::TestRunRecorded(accepted) => reply_meta(MetaEgress::Tested(accepted)),
            _ => reply_meta(
                MetaEgress::TestRejected(self.test_rejection(TestRejectionReason::InternalError)),
            ),
        }
    }

    /// Moves the driven test to `stage`.
    pub fn set_test_stage(&mut self, stage: TestStage)
        ensures
            final(self).active_test == (match old(self).active_test {
                Some(pipeline) => Some(TestPipeline { stage, ..pipeline }),
                None => None,
            }),
            final(self).store == old(self).store,
            final(self).active_deploy == old(self).active_deploy,
            final(self).active_operation == old(self).active_operation,
            final(self).configuration == old(self).configuration,
    {
        match self.active_test.take() {
            Some(cursor) => {
                let mut pipeline = cursor;
                pipeline.stage = stage;
                self.active_test = Some(pipeline);
            },
            None => {},
        }
    }

    /// Ends the driven test: the effect at the failure's stage failed.
    pub fn fail_test_pipeline(&mut self, failure: EffectFailure) -> (r: NexusAction)
        requires
            old(self).store@.is_consistent(),
            old(self).active_test is Some ==> old(self).store@.fits(1, 0),
        ensures
            old(self).active_test is Some ==> old(self).fails_test(
                old(self).store@,
                *final(self),
                r,
                test_failure_stage_of(failure.effect_stage),
            ),
            old(self).active_test is None ==> *final(self) == *old(self) && r == meta_reply(
                MetaEgress::TestRejected(
                    RejectedTest {
                        test_rejection_reason: TestRejectionReason::InternalError,
                        state_marker: marker_of(old(self).store@.commits),
                    },
                ),
            ),
            final(self).store@.is_consistent(),
            old(self).is_consistent() ==> final(self).is_consistent(),
    {
        let stage = test_failure_stage(failure.effect_stage);
        let pipeline = match &self.active_test {
            Some(pipeline) => pipeline.clone(),
            None => {
                return reply_meta(
                    MetaEgress::TestRejected(
                        self.test_rejection(TestRejectionReason::InternalError),
                    ),
                );
            },
        };
        self.record_test_terminal(
            &pipeline,
            TestRunPhase::Failed,
            TestOutcome::Failed(stage),
            None,
        )
    }

    /// `effect` is the first one of a submitted test: its check, or the machine of a live
    /// run.
    pub open spec fn begins_with(run: ResolvedTestRun, effect: EffectCommand) -> bool {
        match run.profile.test_mode {
            TestMode::Hermetic => effect matches EffectCommand::HermeticCheck(command) && {
                &&& command.cluster_name == run.cluster
                &&& command.node_name == run.node
                &&& command.flake_reference == run.flake
                &&& carries_profile(command.test_execution_profile, run.profile)
            },
            TestMode::Live => effect matches EffectCommand::BringUpTestVm(command) && {
                let route = run.profile.optional_deployment_transport->0;
                &&& command.cluster_name == run.cluster
                &&& command.node == run.node
                &&& command.host == run.host
                &&& command.deployment_transport.nix_store_uri.0 == route.nix_store_uri.0
                &&& command.deployment_transport.ssh_destination.0 == route.ssh_destination.0
                &&& command.closure_path@ == Seq::<char>::empty()
                &&& command.string@ == Seq::<char>::empty()
            },
        }
    }

    /// The first effect of a submitted test: its check, or the machine of a live
    /// run. Without a submitted test there is only the refusal.
    pub fn begin_submitted_test(&mut self) -> (r: Result<EffectCommand, MetaEgress>)
        requires
            old(self).active_test matches Some(pipeline) ==> (pipeline.run.profile.test_mode
                == TestMode::Live
                ==> pipeline.run.profile.optional_deployment_transport is Some),
        ensures
            match old(self).active_test {
                None => {
                    &&& r == Err::<EffectCommand, MetaEgress>(
                        MetaEgress::TestRejected(
                            RejectedTest {
                                test_rejection_reason: TestRejectionReason::InternalError,
                                state_marker: marker_of(old(self).store@.commits),
                            },
                        ),
                    )
                    &&& *final(self) == *old(self)
                },
                Some(pipeline) => {
                    &&& final(self).active_operation == Some(MetaOperation::Test)
                    &&& final(self).differs_in_operation_only(*old(self))
                    &&& r matches Ok(command) && Self::begins_with(pipeline.run, command)
                },
            },
            old(self).is_consistent() ==> final(self).is_consistent(),
    {
        let pipeline = match &self.active_test {
            Some(pipeline) => pipeline.clone(),
            None => {
                return Err(
                    MetaEgress::TestRejected(
                        self.test_rejection(TestRejectionReason::InternalError),
                    ),
                );
            },
        };
        self.active_operation = Some(MetaOperation::Test);
        match pipeline.run.profile.test_mode {
            TestMode::Hermetic => Ok(
                EffectCommand::HermeticCheck(pipeline.run.hermetic_check_command()),
            ),
            TestMode::Live => Ok(
                EffectCommand::BringUpTestVm(
                    pipeline.run.bring_up_command(ClosurePath(String::new())),
                ),
            ),
        }
    }

    // ---- all work ---------------------------------------------------------------------------

    /// Whether the engine can decide on `work`.
    pub open spec fn can_decide(&self, work: NexusWork, evidence: AdmissionEvidence) -> bool {
        match work {
            NexusWork::SignalArrived(SignalInput::OrdinaryInput(_)) => true,
            NexusWork::SignalArrived(SignalInput::MetaInput(input)) => self.can_decide_meta(
                input,
                evidence,
            ),
            NexusWork::SemaReadCompleted(_) => true,
            NexusWork::SemaWriteCompleted(output) => self.can_decide_write(output),
            NexusWork::EffectCompleted(_) => self.active_deploy is Some,
        }
    }

    /// `after` and `action` follow from `work`.
    pub open spec fn follows(
        &self,
        work: NexusWork,
        evidence: AdmissionEvidence,
        projection: Option<&ClusterProjection>,
        after: Self,
        action: NexusAction,
    ) -> bool {
        match work {
            NexusWork::SignalArrived(SignalInput::OrdinaryInput(input)) => self.follows_ordinary(
                input,
                after,
                action,
            ),
            NexusWork::SignalArrived(SignalInput::MetaInput(input)) => self.follows_meta(
                input,
                evidence,
                projection,
                after,
                action,
            ),
            NexusWork::SemaReadCompleted(output) => {
                &&& action == ordinary_reply(read_answer(output))
                &&& after == *self
            },
            NexusWork::SemaWriteCompleted(output) => self.follows_write(output, after, action),
            NexusWork::EffectCompleted(result) => self.follows_effect(result, after, action),
        }
    }

    /// The counters have room for deciding on `work`.
    pub open spec fn decision_fits(
        &self,
        work: NexusWork,
        evidence: AdmissionEvidence,
        projection: Option<&ClusterProjection>,
    ) -> bool {
        match work {
            NexusWork::SignalArrived(SignalInput::OrdinaryInput(input)) => self.ordinary_fits(input),
            NexusWork::SignalArrived(SignalInput::MetaInput(input)) => self.meta_fits(
                input,
                evidence,
                projection,
            ),
            NexusWork::SemaReadCompleted(_) => true,
            NexusWork::SemaWriteCompleted(output) => self.completion_fits(output),
            NexusWork::EffectCompleted(result) => self.effect_fits(result),
        }
    }

    /// Whether the counters have room for deciding on a test.
    pub fn has_room_for_test(
        &self,
        request: &TestRequest,
        projection: Option<&ClusterProjection>,
    ) -> (r: bool)
        ensures
            r == self.test_fits(*request, projection),
    {
        self.store.has_room_for_run() || refuses_test(
            &self.configuration.test_defaults,
            request,
            projection,
        )
    }

    /// Whether the counters have room for deciding on `work`.
    pub fn has_room_to_decide(
        &self,
        work: &NexusWork,
        evidence: AdmissionEvidence,
        projection: Option<&ClusterProjection>,
    ) -> (r: bool)
        requires
            self.can_decide(*work, evidence),
        ensures
            r == self.decision_fits(*work, evidence, projection),
    {
        match work {
            NexusWork::SignalArrived(SignalInput::OrdinaryInput(input)) => match input {
                OrdinaryIngress::WatchDeployments(_)
                | OrdinaryIngress::WatchCacheRetention(_) => self.store.has_room_for_subscription(),
                _ => true,
            },
            NexusWork::SignalArrived(SignalInput::MetaInput(input)) => match input {
                MetaIngress::Deploy(request) => self.store.has_room(1, 1) || admission_rejection(
                    request,
                    evidence,
                ).is_none(),
                MetaIngress::Test(request) => self.has_room_for_test(request, projection),
                _ => true,
            },
            NexusWork::SemaReadCompleted(_) => true,
            NexusWork::SemaWriteCompleted(output) => self.has_room_after_write(output),
            NexusWork::EffectCompleted(result) => self.has_room_after_effect(result),
        }
    }

    /// Decides what follows from `work`, on behalf of the request it belongs to.
    pub fn decide(
        &mut self,
        input: Nexus<NexusWork>,
        evidence: AdmissionEvidence,
        projection: Option<&ClusterProjection>,
    ) -> (r: Nexus<NexusAction>)
        requires
            old(self).is_consistent(),
            old(self).decision_fits(input.root, evidence, projection),
            old(self).can_decide(input.root, evidence),
        ensures
            r.origin_route == input.origin_route,
            old(self).follows(input.root, evidence, projection, *final(self), r.root),
            final(self).is_consistent(),
    {
        let origin_route = input.origin_route();
        let action = match input.into_root() {
            NexusWork::SignalArrived(SignalInput::OrdinaryInput(input)) => self.decide_ordinary_input(
                input,
            ),
            NexusWork::SignalArrived(SignalInput::MetaInput(input)) => self.decide_meta_input(
                input,
                evidence,
                projection,
            ),
            NexusWork::SemaReadCompleted(output) => self.decide_read_completion(output),
            NexusWork::SemaWriteCompleted(output) => self.decide_write_completion(output),
            NexusWork::EffectCompleted(result) => self.decide_effect_completion(result),
        };
        action.with_origin_route(origin_route)
    }
}

} // verus!
