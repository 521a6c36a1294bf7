//! One hop of the runner: a decision and the read or write that it asks for.

use crate::runtime_flow::{
    EffectCommand, EffectResult, Nexus, NexusAction, NexusWork, OriginRoute, SignalOutput,
};
use crate::runtime_model::{
    MetaEgress, RejectedTest, SemaWriteInput, SemaWriteOutput, TestRejectionReason,
};
use crate::schema_runtime::engine::{MetaOperation, SchemaRuntime};
use crate::schema_runtime::laws::{law_decisions_can_be_carried_out, law_writes_can_be_decided};
use crate::schema_runtime::requests::AdmissionEvidence;
use crate::schema_runtime::store::marker_of;
use crate::schema_runtime::test_runs::ClusterProjection;
use vstd::prelude::*;

verus! {

/// What a hop leaves to be done.
#[derive(Debug, PartialEq, Eq)]
pub enum RunnerStep {
    /// The request is answered.
    Reply(SignalOutput),
    /// An effect runs; its result is the next work.
    RunEffect(EffectCommand),
    /// There is more to decide.
    Continue(NexusWork),
    /// A counter of the store has no room for the decision: nothing was decided.
    Undecided(NexusWork),
    /// A counter of the store has no room for the write: the decision stands and its
    /// write does not.
    Unwritten(SemaWriteInput),
}

/// What a driven test leaves to be done.
#[derive(Debug, PartialEq, Eq)]
pub enum TestStep {
    /// The test is answered.
    Done(MetaEgress),
    /// An effect runs; its result decides on.
    RunEffect(EffectCommand),
    /// There is more to do.
    Again(NexusAction),
}

impl SchemaRuntime {
    /// `action` was carried out as far as it goes without an effect.
    pub open spec fn carries_out(&self, action: NexusAction, after: Self, step: RunnerStep) -> bool {
        match action {
            NexusAction::ReplyToSignal(output) => {
                &&& step == RunnerStep::Reply(output)
                &&& after == *self
            },
            NexusAction::CommandEffect(command) => {
                &&& step == RunnerStep::RunEffect(command)
                &&& after == *self
            },
            NexusAction::Continue(work) => {
                &&& step == RunnerStep::Continue(work)
                &&& after == *self
            },
            NexusAction::CommandSemaRead(input) => {
                &&& step matches RunnerStep::Continue(NexusWork::SemaReadCompleted(output))
                    && self.observes(input, output)
                &&& after == *self
            },
            NexusAction::CommandSemaWrite(input) => {
                if self.write_fits(input) {
                    step matches RunnerStep::Continue(NexusWork::SemaWriteCompleted(output))
                        && self.writes(input, after, output)
                } else {
                    &&& step == RunnerStep::Unwritten(input)
                    &&& after == *self
                }
            },
        }
    }

    /// One hop from `work`.
    pub open spec fn hops(
        &self,
        work: NexusWork,
        evidence: AdmissionEvidence,
        projection: Option<&ClusterProjection>,
        after: Self,
        step: RunnerStep,
    ) -> bool {
        if self.decision_fits(work, evidence, projection) {
            exists|decided: Self, action: NexusAction|
                {
                    &&& #[trigger] self.follows(work, evidence, projection, decided, action)
                    &&& decided.carries_out(action, after, step)
                }
        } else {
            &&& step == RunnerStep::Undecided(work)
            &&& after == *self
        }
    }

    /// Decides on `work` and carries the decision out as far as it goes without an
    /// effect. Where there is more to decide, it can be decided.
    pub fn advance(
        &mut self,
        work: NexusWork,
        evidence: AdmissionEvidence,
        projection: Option<&ClusterProjection>,
    ) -> (r: RunnerStep)
        requires
            old(self).is_consistent(),
            old(self).can_decide(work, evidence),
        ensures
            old(self).hops(work, evidence, projection, *final(self), r),
            r matches RunnerStep::Continue(next) ==> final(self).can_decide(next, evidence),
            r is RunEffect ==> final(self).active_deploy is Some,
            final(self).is_consistent(),
    {
        if !self.has_room_to_decide(&work, evidence, projection) {
            return RunnerStep::Undecided(work);
        }
        let action = self.decide(
            Nexus::new(OriginRoute::new(0), work),
            evidence,
            projection,
        ).into_root();
        let ghost decided = *self;
        assert(old(self).follows(work, evidence, projection, decided, action));
        proof {
            law_decisions_can_be_carried_out(
                *old(self),
                work,
                evidence,
                projection,
                decided,
                action,
            );
        }
        match action {
            NexusAction::ReplyToSignal(output) => RunnerStep::Reply(output),
            NexusAction::CommandEffect(command) => RunnerStep::RunEffect(command),
            NexusAction::Continue(next) => {
                assert(false);
                RunnerStep::Continue(next)
            },
            NexusAction::CommandSemaRead(input) => {
                let output = self.observe_sema(input);
                RunnerStep::Continue(NexusWork::SemaReadCompleted(output))
            },
            NexusAction::CommandSemaWrite(input) => {
                if self.has_room_to_write(&input) {
                    let ghost written = input;
                    let output = self.apply_sema(input);
                    proof {
                        law_writes_can_be_decided(decided, written, *self, output);
                    }
                    RunnerStep::Continue(NexusWork::SemaWriteCompleted(output))
                } else {
                    RunnerStep::Unwritten(input)
                }
            },
        }
    }

    /// Whether a driven test can go on with `action`.
    pub open spec fn can_drive_test(&self, action: NexusAction) -> bool {
        action matches NexusAction::CommandSemaWrite(input) ==> {
            &&& self.can_write(input)
            &&& input is PinGeneration || input is UnpinGeneration || input is RetireGeneration ==> (
            self.active_operation matches Some(operation) && operation != MetaOperation::Deploy)
            &&& input is RecordContainerTransition ==> self.active_deploy is Some
        }
    }

    /// What a driven test does with `action`.
    pub open spec fn drives_test(&self, action: NexusAction, after: Self, step: TestStep) -> bool {
        match action {
            NexusAction::ReplyToSignal(SignalOutput::MetaOutput(output)) => {
                &&& step == TestStep::Done(output)
                &&& after == *self
            },
            NexusAction::CommandEffect(command) => {
                &&& step == TestStep::RunEffect(command)
                &&& after == *self
            },
            NexusAction::CommandSemaWrite(input) => exists|written: Self, output: SemaWriteOutput|
                {
                    &&& #[trigger] self.writes(input, written, output)
                    &&& if written.completion_fits(output) {
                        step matches TestStep::Again(next) && written.follows_write(
                            output,
                            after,
                            next,
                        )
                    } else {
                        &&& step == TestStep::Done(written.broken_test())
                        &&& after == written
                    }
                },
            _ => {
                &&& step == TestStep::Done(self.broken_test())
                &&& after == *self
            },
        }
    }

    /// The answer to a test that cannot go on.
    pub open spec fn broken_test(&self) -> MetaEgress {
        MetaEgress::TestRejected(
            RejectedTest {
                test_rejection_reason: TestRejectionReason::InternalError,
                state_marker: marker_of(self.store@.commits),
            },
        )
    }

    /// Takes a driven test one step towards its answer.
    pub fn drive_to_terminal(&mut self, action: NexusAction) -> (r: TestStep)
        requires
            old(self).is_consistent(),
            old(self).can_drive_test(action),
            action matches NexusAction::CommandSemaWrite(input) ==> old(self).write_fits(input),
        ensures
            old(self).drives_test(action, *final(self), r),
            final(self).is_consistent(),
    {
        match action {
            NexusAction::ReplyToSignal(SignalOutput::MetaOutput(output)) => TestStep::Done(output),
            NexusAction::CommandEffect(command) => TestStep::RunEffect(command),
            NexusAction::CommandSemaWrite(input) => {
                let ghost given = input;
                let output = self.apply_sema(input);
                let ghost written = *self;
                let ghost answer = output;
                assert(old(self).writes(given, written, answer));
                proof {
                    law_writes_can_be_decided(*old(self), given, *self, output);
                }
                if self.has_room_after_write(&output) {
                    TestStep::Again(self.decide_write_completion(output))
                } else {
                    TestStep::Done(
                        MetaEgress::TestRejected(
                            self.test_rejection(TestRejectionReason::InternalError),
                        ),
                    )
                }
            },
            _ => TestStep::Done(
                MetaEgress::TestRejected(self.test_rejection(TestRejectionReason::InternalError)),
            ),
        }
    }
}

// ---- laws ---------------------------------------------------------------------------------

/// What follows from an effect of a test can be driven on: the test is answered, or
/// it asks for its next effect.
pub proof fn law_test_effects_can_be_driven(
    engine: SchemaRuntime,
    result: EffectResult,
    after: SchemaRuntime,
    action: NexusAction,
    step: TestStep,
)
    requires
        engine.follows_test_effect(result, after, action),
        after.drives_test(action, after, step),
    ensures
        after.can_drive_test(action),
        step is Done || step is RunEffect,
{
}

} // verus!
