//! One request on its way through the planes: what is asked of which plane, and
//! what follows from its answer.

use crate::error::Error;
use crate::generated::{
    ActivationKind, ActivationRecord, BuildRecord, CopyRecord, DatabaseMarker,
    DeploymentIdentifier, DeploymentRequest, Detail, GenerationIdentifier, Input,
    ObservationRecord, Output, Phase, PlanRecord, RejectionReason, SemaCommand, SemaResponse,
    Status, TargetNode,
};
use crate::runtime::codec::{lowers_to, plan_of, reply_of, tag_of, Lowered};
use crate::runtime::trace::{AuthorizationDecision, Plane, SemaCommandTag, TraceWitness};
use crate::text::concat;
use vstd::prelude::*;

verus! {

/// What is asked of a plane.
#[derive(Debug, PartialEq, Eq)]
pub enum Ask {
    /// Whether a deployment may go on.
    Authorize(DeploymentRequest),
    /// To apply a ledger command.
    Apply(SemaCommand),
    /// The plans in the ledger.
    Plans,
    /// A generation identifier.
    AllocateGeneration,
    /// A build.
    Build { plan: PlanRecord, generation: GenerationIdentifier },
    /// To pin a build.
    Pin(BuildRecord),
    /// A copy.
    Copy { build: BuildRecord, target_node: TargetNode },
    /// An activation.
    Activate { copy: CopyRecord, activation_kind: ActivationKind },
    /// To tell subscribers.
    Broadcast(ObservationRecord),
    /// The present point of the ledger.
    Marker,
}

/// What a plane answers.
#[derive(Debug, PartialEq, Eq)]
pub enum Answer {
    Decided(AuthorizationDecision),
    Applied(SemaResponse),
    Plans(Vec<PlanRecord>),
    Generation(GenerationIdentifier),
    Built(BuildRecord),
    Pinned(GenerationIdentifier),
    Copied(CopyRecord),
    Activated(ActivationRecord),
    Told,
    Marked(DatabaseMarker),
    /// The plane gave no answer, and why.
    Lost(String),
}

/// What happens next.
#[derive(Debug, PartialEq, Eq)]
pub enum Turn {
    Ask(Ask),
    Reply(Output, Option<DatabaseMarker>),
    Fault(Error),
}

/// What a conversation waits for.
#[derive(Debug, PartialEq, Eq)]
pub enum Stage {
    Authorizing(DeploymentRequest),
    RecordingPlan,
    ReadingPlan,
    Numbering(PlanRecord),
    TellingBuildStart(PlanRecord, GenerationIdentifier),
    Building(PlanRecord),
    TellingBuilt(PlanRecord, BuildRecord),
    RecordingBuild(PlanRecord, BuildRecord),
    Pinning(PlanRecord, BuildRecord),
    TellingCopyStart(PlanRecord, BuildRecord),
    Copying(PlanRecord),
    RecordingCopy(PlanRecord, CopyRecord),
    TellingCopied(PlanRecord, CopyRecord),
    TellingActivationStart(PlanRecord, CopyRecord),
    Activating(PlanRecord),
    RecordingActivation(PlanRecord),
    TellingActivated(PlanRecord),
    TellingDone(PlanRecord),
    /// A deployment's reply waits for the point of the ledger.
    Marking(Output),
    /// A ledger command of another request waits to be applied.
    Answering(SemaCommandTag),
    /// Another request's reply waits for the point of the ledger.
    MarkingReply(Output),
    Over,
}

/// One request on its way through the planes.
#[derive(Debug, PartialEq, Eq)]
pub struct Conversation {
    /// The plane that leads the conversation.
    pub plane: Plane,
    /// Whether replies name the point of the ledger they were made at.
    pub marks: bool,
    pub stage: Stage,
}

// ---- what follows ----------------------------------------------------------------------

impl Stage {
    /// Whether `answer` is one to what was asked.
    pub open spec fn expects(self, answer: Answer) -> bool {
        match answer {
            Answer::Lost(_) => !(self is Over),
            Answer::Decided(_) => self is Authorizing,
            Answer::Applied(_) => self is RecordingPlan || self is RecordingBuild
                || self is RecordingCopy || self is RecordingActivation || self is Answering,
            Answer::Plans(_) => self is ReadingPlan,
            Answer::Generation(_) => self is Numbering,
            Answer::Built(_) => self is Building,
            Answer::Pinned(_) => self is Pinning,
            Answer::Copied(_) => self is Copying,
            Answer::Activated(_) => self is Activating,
            Answer::Told => self is TellingBuildStart || self is TellingBuilt
                || self is TellingCopyStart || self is TellingCopied
                || self is TellingActivationStart || self is TellingActivated
                || self is TellingDone,
            Answer::Marked(_) => self is Marking || self is MarkingReply,
        }
    }

    /// How a lost answer is reported.
    pub open spec fn loss_text(self) -> Seq<char> {
        match self {
            Stage::Authorizing(_) => "authorization: "@,
            Stage::RecordingPlan => "store/RecordPlan: "@,
            Stage::ReadingPlan => "store/Plans: "@,
            Stage::Numbering(_) => "store/AllocateGeneration: "@,
            Stage::Building(_) => "builder: "@,
            Stage::RecordingBuild(_, _) => "store/RecordBuild: "@,
            Stage::Pinning(_, _) => "gc_root: "@,
            Stage::Copying(_) => "copier: "@,
            Stage::RecordingCopy(_, _) => "store/RecordCopy: "@,
            Stage::Activating(_) => "activator: "@,
            Stage::RecordingActivation(_) => "store/RecordActivation: "@,
            Stage::Marking(_) | Stage::MarkingReply(_) => "store/CurrentDatabaseMarker: "@,
            Stage::Answering(_) => "store: "@,
            _ => "fan: "@,
        }
    }

    /// How far the conversation has come.
    pub open spec fn rank(self) -> nat {
        match self {
            Stage::Authorizing(_) => 0,
            Stage::RecordingPlan => 1,
            Stage::ReadingPlan => 2,
            Stage::Numbering(_) => 3,
            Stage::TellingBuildStart(_, _) => 4,
            Stage::Building(_) => 5,
            Stage::TellingBuilt(_, _) => 6,
            Stage::RecordingBuild(_, _) => 7,
            Stage::Pinning(_, _) => 8,
            Stage::TellingCopyStart(_, _) => 9,
            Stage::Copying(_) => 10,
            Stage::RecordingCopy(_, _) => 11,
            Stage::TellingCopied(_, _) => 12,
            Stage::TellingActivationStart(_, _) => 13,
            Stage::Activating(_) => 14,
            Stage::RecordingActivation(_) => 15,
            Stage::TellingActivated(_) => 16,
            Stage::TellingDone(_) => 17,
            Stage::Answering(_) => 17,
            Stage::Marking(_) => 18,
            Stage::MarkingReply(_) => 18,
            Stage::Over => 19,
        }
    }
}

/// `turn` tells subscribers of a deployment.
pub open spec fn tells(
    turn: Turn,
    deployment: DeploymentIdentifier,
    phase: Phase,
    status: Status,
    text: Seq<char>,
) -> bool {
    turn matches Turn::Ask(Ask::Broadcast(record)) && {
        &&& record.deployment_identifier == deployment
        &&& record.phase == phase
        &&& record.status == status
        &&& record.detail@ == text
    }
}

impl Conversation {
    /// What is waited for after `answer`.
    pub open spec fn next_stage(self, answer: Answer) -> Stage {
        match (self.stage, answer) {
            (_, Answer::Lost(_)) => Stage::Over,
            (Stage::Authorizing(_), Answer::Decided(AuthorizationDecision::Denied)) => {
                if self.marks {
                    Stage::Marking(Output::Rejected(RejectionReason::Unauthorized))
                } else {
                    Stage::Over
                }
            },
            (Stage::Authorizing(_), _) => Stage::RecordingPlan,
            (Stage::RecordingPlan, _) => Stage::ReadingPlan,
            (Stage::ReadingPlan, Answer::Plans(plans)) => if plans@.len() == 0 {
                Stage::Over
            } else {
                Stage::Numbering(plans@.last())
            },
            (Stage::Numbering(plan), Answer::Generation(generation)) => Stage::TellingBuildStart(
                plan,
                generation,
            ),
            (Stage::TellingBuildStart(plan, _), _) => Stage::Building(plan),
            (Stage::Building(plan), Answer::Built(build)) => Stage::TellingBuilt(plan, build),
            (Stage::TellingBuilt(plan, build), _) => Stage::RecordingBuild(plan, build),
            (Stage::RecordingBuild(plan, build), _) => Stage::Pinning(plan, build),
            (Stage::Pinning(plan, build), _) => Stage::TellingCopyStart(plan, build),
            (Stage::TellingCopyStart(plan, _), _) => Stage::Copying(plan),
            (Stage::Copying(plan), Answer::Copied(copy)) => Stage::RecordingCopy(plan, copy),
            (Stage::RecordingCopy(plan, copy), _) => Stage::TellingCopied(plan, copy),
            (Stage::TellingCopied(plan, copy), _) => Stage::TellingActivationStart(plan, copy),
            (Stage::TellingActivationStart(plan, _), _) => Stage::Activating(plan),
            (Stage::Activating(plan), _) => Stage::RecordingActivation(plan),
            (Stage::RecordingActivation(plan), _) => Stage::TellingActivated(plan),
            (Stage::TellingActivated(plan), _) => Stage::TellingDone(plan),
            (Stage::TellingDone(plan), _) => if self.marks {
                Stage::Marking(Output::Accepted(plan.deployment_identifier))
            } else {
                Stage::Over
            },
            (Stage::Answering(_), Answer::Applied(response)) => if self.marks {
                Stage::MarkingReply(reply_of(response))
            } else {
                Stage::Over
            },
            _ => Stage::Over,
        }
    }

    /// The witnesses that follow `answer`, in order.
    pub open spec fn witnesses_of(self, answer: Answer) -> Seq<TraceWitness> {
        let emitted = TraceWitness::OutputEmitted { plane: self.plane };
        let fanned = TraceWitness::ObservationFanned { plane: Plane::ObservationFan };
        match (self.stage, answer) {
            (_, Answer::Lost(_)) => Seq::empty(),
            (Stage::Authorizing(_), Answer::Decided(decision)) => {
                let decided = TraceWitness::AuthorizationDecided {
                    plane: Plane::AuthorizationGate,
                    decision,
                };
                if decision == AuthorizationDecision::Granted {
                    seq![decided, TraceWitness::PlanMaterialized { plane: self.plane }]
                } else {
                    seq![decided]
                }
            },
            (Stage::RecordingPlan, _) => seq![
                TraceWitness::SemaApplied {
                    plane: Plane::Store,
                    command: SemaCommandTag::RecordPlan,
                },
            ],
            (Stage::Numbering(_), _) => seq![TraceWitness::BuildStarted { plane: Plane::Builder }],
            (Stage::Building(_), _) => seq![TraceWitness::BuildComplete { plane: Plane::Builder }],
            (Stage::Pinning(_, _), _) => seq![
                TraceWitness::GcPinned { plane: Plane::GcRootPinner },
            ],
            (Stage::Copying(_), _) => seq![
                TraceWitness::ClosureCopied { plane: Plane::ClosureCopier },
            ],
            (Stage::Activating(_), _) => seq![
                TraceWitness::ActivationComplete { plane: Plane::Activator },
            ],
            (Stage::TellingDone(_), _) => seq![fanned, emitted],
            (Stage::Answering(tag), _) => if self.marks {
                seq![TraceWitness::SemaApplied { plane: Plane::Store, command: tag }]
            } else {
                seq![TraceWitness::SemaApplied { plane: Plane::Store, command: tag }, emitted]
            },
            (Stage::MarkingReply(_), _) => seq![emitted],
            (_, Answer::Told) => seq![fanned],
            _ => Seq::empty(),
        }
    }

    /// `turn` follows `answer`.
    pub open spec fn follows(self, answer: Answer, turn: Turn) -> bool {
        match (self.stage, answer) {
            (stage, Answer::Lost(detail)) => turn matches Turn::Fault(Error::ActorSend(text))
                && text@ == stage.loss_text() + detail@,
            (Stage::Authorizing(request), Answer::Decided(decision)) => {
                if decision == AuthorizationDecision::Granted {
                    turn == Turn::Ask(Ask::Apply(SemaCommand::RecordPlan(plan_of(request))))
                } else if self.marks {
                    turn == Turn::Ask(Ask::Marker)
                } else {
                    turn == Turn::Reply(Output::Rejected(RejectionReason::Unauthorized), None)
                }
            },
            (Stage::RecordingPlan, _) => turn == Turn::Ask(Ask::Plans),
            (Stage::ReadingPlan, Answer::Plans(plans)) => if plans@.len() == 0 {
                turn matches Turn::Fault(Error::ActorSend(text)) && text@
                    == "store has no plans after RecordPlan"@
            } else {
                turn == Turn::Ask(Ask::AllocateGeneration)
            },
            (Stage::Numbering(plan), _) => tells(
                turn,
                plan.deployment_identifier,
                Phase::Building,
                Status::Started,
                "build start"@,
            ),
            (Stage::TellingBuildStart(plan, generation), _) => turn == Turn::Ask(
                Ask::Build { plan, generation },
            ),
            (Stage::Building(plan), _) => tells(
                turn,
                plan.deployment_identifier,
                Phase::Building,
                Status::Complete,
                "build complete"@,
            ),
            (Stage::TellingBuilt(_, build), _) => turn == Turn::Ask(
                Ask::Apply(SemaCommand::RecordBuild(build)),
            ),
            (Stage::RecordingBuild(_, build), _) => turn == Turn::Ask(Ask::Pin(build)),
            (Stage::Pinning(plan, _), _) => tells(
                turn,
                plan.deployment_identifier,
                Phase::CopyingClosure,
                Status::Started,
                "copy start"@,
            ),
            (Stage::TellingCopyStart(plan, build), _) => turn == Turn::Ask(
                Ask::Copy { build, target_node: plan.target_node },
            ),
            (Stage::Copying(_), Answer::Copied(copy)) => turn == Turn::Ask(
                Ask::Apply(SemaCommand::RecordCopy(copy)),
            ),
            (Stage::RecordingCopy(plan, _), _) => tells(
                turn,
                plan.deployment_identifier,
                Phase::CopyingClosure,
                Status::Complete,
                "copy complete"@,
            ),
            (Stage::TellingCopied(plan, _), _) => tells(
                turn,
                plan.deployment_identifier,
                Phase::Activating,
                Status::Started,
                "activation start"@,
            ),
            (Stage::TellingActivationStart(_, copy), _) => turn == Turn::Ask(
                Ask::Activate { copy, activation_kind: ActivationKind::Test },
            ),
            (Stage::Activating(_), Answer::Activated(activation)) => turn == Turn::Ask(
                Ask::Apply(SemaCommand::RecordActivation(activation)),
            ),
            (Stage::RecordingActivation(plan), _) => tells(
                turn,
                plan.deployment_identifier,
                Phase::Activating,
                Status::Complete,
                "activation complete"@,
            ),
            (Stage::TellingActivated(plan), _) => tells(
                turn,
                plan.deployment_identifier,
                Phase::Observed,
                Status::Complete,
                "deploy done"@,
            ),
            (Stage::TellingDone(plan), _) => if self.marks {
                turn == Turn::Ask(Ask::Marker)
            } else {
                turn == Turn::Reply(Output::Accepted(plan.deployment_identifier), None)
            },
            (Stage::Answering(_), Answer::Applied(response)) => if self.marks {
                turn == Turn::Ask(Ask::Marker)
            } else {
                turn == Turn::Reply(reply_of(response), None)
            },
            (Stage::Marking(output), Answer::Marked(marker)) => turn == Turn::Reply(
                output,
                Some(marker),
            ),
            (Stage::MarkingReply(output), Answer::Marked(marker)) => turn == Turn::Reply(
                output,
                Some(marker),
            ),
            _ => true,
        }
    }

    /// The conversation that `input` starts, led by `plane`.
    pub open spec fn starts(self, input: Input, turn: Turn) -> bool {
        match input {
            Input::Submit(request) => {
                &&& self.stage == Stage::Authorizing(request)
                &&& turn == Turn::Ask(Ask::Authorize(request))
            },
            _ => exists|lowered: Lowered| #[trigger]
                lowers_to(input, lowered) && match lowered {
                    Lowered::StateInvolving(command) => {
                        &&& self.stage == Stage::Answering(tag_of(command))
                        &&& turn == Turn::Ask(Ask::Apply(command))
                    },
                    Lowered::ForwardOnly(output) => if self.marks {
                        &&& self.stage == Stage::MarkingReply(output)
                        &&& turn == Turn::Ask(Ask::Marker)
                    } else {
                        &&& self.stage == Stage::Over
                        &&& turn == Turn::Reply(output, None)
                    },
                },
        }
    }

    /// The witnesses that `input` starts with.
    pub open spec fn opening(plane: Plane, marks: bool, input: Input) -> Seq<TraceWitness> {
        let received = TraceWitness::InputReceived { plane };
        if !marks && (input is Cancel || input is Help) {
            seq![received, TraceWitness::OutputEmitted { plane }]
        } else {
            seq![received]
        }
    }

    /// Starts a conversation led by `plane`.
    pub fn begin(plane: Plane, marks: bool, input: Input, witnesses: &mut Vec<TraceWitness>) -> (r:
        (Self, Turn))
        ensures
            r.0.plane == plane,
            r.0.marks == marks,
            r.0.starts(input, r.1),
            final(witnesses)@ == old(witnesses)@ + Self::opening(plane, marks, input),
    {
        witnesses.push(TraceWitness::InputReceived { plane });
        match input {
            Input::Submit(request) => {
                let stage = Stage::Authorizing(request.clone());
                assert(witnesses@ =~= old(witnesses)@ + Self::opening(plane, marks, input));
                (Conversation { plane, marks, stage }, Turn::Ask(Ask::Authorize(request)))
            },
            other => {
                let lowered = other.lower_to_sema_command();
                assert(lowers_to(input, lowered));
                match lowered {
                    Lowered::StateInvolving(command) => {
                        let stage = Stage::Answering(command.tag());
                        assert(witnesses@ =~= old(witnesses)@ + Self::opening(plane, marks, input));
                        (Conversation { plane, marks, stage }, Turn::Ask(Ask::Apply(command)))
                    },
                    Lowered::ForwardOnly(output) => {
                        if marks {
                            assert(witnesses@ =~= old(witnesses)@ + Self::opening(
                                plane,
                                marks,
                                input,
                            ));
                            (
                                Conversation { plane, marks, stage: Stage::MarkingReply(output) },
                                Turn::Ask(Ask::Marker),
                            )
                        } else {
                            witnesses.push(TraceWitness::OutputEmitted { plane });
                            assert(witnesses@ =~= old(witnesses)@ + Self::opening(
                                plane,
                                marks,
                                input,
                            ));
                            (
                                Conversation { plane, marks, stage: Stage::Over },
                                Turn::Reply(output, None),
                            )
                        }
                    },
                }
            },
        }
    }

    fn loss(stage: &Stage) -> (r: &'static str)
        ensures
            r@ == stage.loss_text(),
    {
        match stage {
            Stage::Authorizing(_) => "authorization: ",
            Stage::RecordingPlan => "store/RecordPlan: ",
            Stage::ReadingPlan => "store/Plans: ",
            Stage::Numbering(_) => "store/AllocateGeneration: ",
            Stage::Building(_) => "builder: ",
            Stage::RecordingBuild(_, _) => "store/RecordBuild: ",
            Stage::Pinning(_, _) => "gc_root: ",
            Stage::Copying(_) => "copier: ",
            Stage::RecordingCopy(_, _) => "store/RecordCopy: ",
            Stage::Activating(_) => "activator: ",
            Stage::RecordingActivation(_) => "store/RecordActivation: ",
            Stage::Marking(_) | Stage::MarkingReply(_) => "store/CurrentDatabaseMarker: ",
            Stage::Answering(_) => "store: ",
            _ => "fan: ",
        }
    }

    fn tell(plan: &PlanRecord, phase: Phase, status: Status, detail: &str) -> (r: Turn)
        ensures
            tells(r, plan.deployment_identifier, phase, status, detail@),
    {
        Turn::Ask(
            Ask::Broadcast(
                ObservationRecord {
                    deployment_identifier: plan.deployment_identifier,
                    phase,
                    status,
                    detail: Detail(detail.to_string()),
                },
            ),
        )
    }

    /// Takes the answer to what was asked, and says what happens next.
    #[verifier::rlimit(80)]
    pub fn answer(&mut self, answer: Answer, witnesses: &mut Vec<TraceWitness>) -> (r: Turn)
        requires
            old(self).stage.expects(answer),
        ensures
            final(self).stage == old(self).next_stage(answer),
            final(self).plane == old(self).plane,
            final(self).marks == old(self).marks,
            old(self).follows(answer, r),
            final(witnesses)@ == old(witnesses)@ + old(self).witnesses_of(answer),
    {
        let ghost before = *self;
        let mut stage = Stage::Over;
        std::mem::swap(&mut stage, &mut self.stage);
        let ghost ended = old(witnesses)@ + before.witnesses_of(answer);
        let turn = match (stage, answer) {
            (stage, Answer::Lost(detail)) => {
                assert(witnesses@ =~= ended);
                Turn::Fault(Error::ActorSend(concat(Self::loss(&stage), detail.as_str())))
            },
            (Stage::Authorizing(request), Answer::Decided(decision)) => {
                witnesses.push(
                    TraceWitness::AuthorizationDecided {
                        plane: Plane::AuthorizationGate,
                        decision,
                    },
                );
                match decision {
                    AuthorizationDecision::Granted => {
                        witnesses.push(TraceWitness::PlanMaterialized { plane: self.plane });
                        self.stage = Stage::RecordingPlan;
                        Turn::Ask(
                            Ask::Apply(SemaCommand::RecordPlan(request.into_plan_record())),
                        )
                    },
                    AuthorizationDecision::Denied => {
                        let output = Output::Rejected(RejectionReason::Unauthorized);
                        if self.marks {
                            self.stage = Stage::Marking(output);
                            Turn::Ask(Ask::Marker)
                        } else {
                            Turn::Reply(output, None)
                        }
                    },
                }
            },
            (Stage::RecordingPlan, _) => {
                witnesses.push(
                    TraceWitness::SemaApplied {
                        plane: Plane::Store,
                        command: SemaCommandTag::RecordPlan,
                    },
                );
                self.stage = Stage::ReadingPlan;
                Turn::Ask(Ask::Plans)
            },
            (Stage::ReadingPlan, Answer::Plans(plans)) => {
                if plans.len() == 0 {
                    Turn::Fault(
                        Error::ActorSend("store has no plans after RecordPlan".to_string()),
                    )
                } else {
                    self.stage = Stage::Numbering(plans[plans.len() - 1].clone());
                    Turn::Ask(Ask::AllocateGeneration)
                }
            },
            (Stage::Numbering(plan), Answer::Generation(generation)) => {
                witnesses.push(TraceWitness::BuildStarted { plane: Plane::Builder });
                let turn = Self::tell(&plan, Phase::Building, Status::Started, "build start");
                self.stage = Stage::TellingBuildStart(plan, generation);
                turn
            },
            (Stage::TellingBuildStart(plan, generation), _) => {
                witnesses.push(TraceWitness::ObservationFanned { plane: Plane::ObservationFan });
                self.stage = Stage::Building(plan.clone());
                Turn::Ask(Ask::Build { plan, generation })
            },
            (Stage::Building(plan), Answer::Built(build)) => {
                witnesses.push(TraceWitness::BuildComplete { plane: Plane::Builder });
                let turn = Self::tell(&plan, Phase::Building, Status::Complete, "build complete");
                self.stage = Stage::TellingBuilt(plan, build);
                turn
            },
            (Stage::TellingBuilt(plan, build), _) => {
                witnesses.push(TraceWitness::ObservationFanned { plane: Plane::ObservationFan });
                self.stage = Stage::RecordingBuild(plan, build.clone());
                Turn::Ask(Ask::Apply(SemaCommand::RecordBuild(build)))
            },
            (Stage::RecordingBuild(plan, build), _) => {
                self.stage = Stage::Pinning(plan, build.clone());
                Turn::Ask(Ask::Pin(build))
            },
            (Stage::Pinning(plan, build), _) => {
                witnesses.push(TraceWitness::GcPinned { plane: Plane::GcRootPinner });
                let turn = Self::tell(&plan, Phase::CopyingClosure, Status::Started, "copy start");
                self.stage = Stage::TellingCopyStart(plan, build);
                turn
            },
            (Stage::TellingCopyStart(plan, build), _) => {
                witnesses.push(TraceWitness::ObservationFanned { plane: Plane::ObservationFan });
                let target_node = plan.target_node.clone();
                self.stage = Stage::Copying(plan);
                Turn::Ask(Ask::Copy { build, target_node })
            },
            (Stage::Copying(plan), Answer::Copied(copy)) => {
                witnesses.push(TraceWitness::ClosureCopied { plane: Plane::ClosureCopier });
                self.stage = Stage::RecordingCopy(plan, copy.clone());
                Turn::Ask(Ask::Apply(SemaCommand::RecordCopy(copy)))
            },
            (Stage::RecordingCopy(plan, copy), _) => {
                let turn = Self::tell(
                    &plan,
                    Phase::CopyingClosure,
                    Status::Complete,
                    "copy complete",
                );
                self.stage = Stage::TellingCopied(plan, copy);
                turn
            },
            (Stage::TellingCopied(plan, copy), _) => {
                witnesses.push(TraceWitness::ObservationFanned { plane: Plane::ObservationFan });
                let turn = Self::tell(
                    &plan,
                    Phase::Activating,
                    Status::Started,
                    "activation start",
                );
                self.stage = Stage::TellingActivationStart(plan, copy);
                turn
            },
            (Stage::TellingActivationStart(plan, copy), _) => {
                witnesses.push(TraceWitness::ObservationFanned { plane: Plane::ObservationFan });
                self.stage = Stage::Activating(plan);
                Turn::Ask(Ask::Activate { copy, activation_kind: ActivationKind::Test })
            },
            (Stage::Activating(plan), Answer::Activated(activation)) => {
                witnesses.push(TraceWitness::ActivationComplete { plane: Plane::Activator });
                self.stage = Stage::RecordingActivation(plan);
                Turn::Ask(Ask::Apply(SemaCommand::RecordActivation(activation)))
            },
            (Stage::RecordingActivation(plan), _) => {
                let turn = Self::tell(
                    &plan,
                    Phase::Activating,
                    Status::Complete,
                    "activation complete",
                );
                self.stage = Stage::TellingActivated(plan);
                turn
            },
            (Stage::TellingActivated(plan), _) => {
                witnesses.push(TraceWitness::ObservationFanned { plane: Plane::ObservationFan });
                let turn = Self::tell(&plan, Phase::Observed, Status::Complete, "deploy done");
                self.stage = Stage::TellingDone(plan);
                turn
            },
            (Stage::TellingDone(plan), _) => {
                witnesses.push(TraceWitness::ObservationFanned { plane: Plane::ObservationFan });
                witnesses.push(TraceWitness::OutputEmitted { plane: self.plane });
                let output = Output::Accepted(plan.deployment_identifier);
                if self.marks {
                    self.stage = Stage::Marking(output);
                    Turn::Ask(Ask::Marker)
                } else {
                    Turn::Reply(output, None)
                }
            },
            (Stage::Answering(tag), Answer::Applied(response)) => {
                witnesses.push(TraceWitness::SemaApplied { plane: Plane::Store, command: tag });
                let output = response.into_output();
                if self.marks {
                    self.stage = Stage::MarkingReply(output);
                    Turn::Ask(Ask::Marker)
                } else {
                    witnesses.push(TraceWitness::OutputEmitted { plane: self.plane });
                    Turn::Reply(output, None)
                }
            },
            (Stage::Marking(output), Answer::Marked(marker)) => Turn::Reply(output, Some(marker)),
            (Stage::MarkingReply(output), Answer::Marked(marker)) => {
                witnesses.push(TraceWitness::OutputEmitted { plane: self.plane });
                Turn::Reply(output, Some(marker))
            },
            _ => {
                assert(false);
                vstd::pervasive::unreached()
            },
        };
        assert(witnesses@ =~= ended);
        turn
    }
}

// ---- laws ---------------------------------------------------------------------------------

/// Every answer takes a conversation further, so it ends after at most nineteen.
pub proof fn law_every_answer_advances(conversation: Conversation, answer: Answer)
    requires
        conversation.stage.expects(answer),
    ensures
        conversation.next_stage(answer).rank() > conversation.stage.rank(),
        conversation.next_stage(answer).rank() <= 19,
{
}

/// What is asked next is what is then expected: a conversation asks until it is
/// over, and it is over exactly when it replies or fails.
pub proof fn law_a_conversation_ends_with_its_reply(
    conversation: Conversation,
    answer: Answer,
    turn: Turn,
)
    requires
        conversation.stage.expects(answer),
        conversation.follows(answer, turn),
    ensures
        turn is Ask <==> !(conversation.next_stage(answer) is Over),
{
}

/// A denied deployment is refused as unauthorized, and nothing is built, copied,
/// activated or recorded for it.
pub proof fn law_a_denied_deployment_goes_nowhere(
    conversation: Conversation,
    request: DeploymentRequest,
    turn: Turn,
)
    requires
        conversation.stage == Stage::Authorizing(request),
        conversation.follows(Answer::Decided(AuthorizationDecision::Denied), turn),
    ensures
        ({
            let refused = Output::Rejected(RejectionReason::Unauthorized);
            let next = conversation.next_stage(Answer::Decided(AuthorizationDecision::Denied));
            ||| turn == Turn::Ask(Ask::Marker) && next == Stage::Marking(refused)
            ||| turn == Turn::Reply(refused, None) && next is Over
        }),
{
}

/// What is activated is what was copied, and what is copied is what was built.
pub proof fn law_the_built_closure_is_what_travels(
    conversation: Conversation,
    answer: Answer,
    turn: Turn,
)
    requires
        conversation.stage.expects(answer),
        conversation.follows(answer, turn),
        !(answer is Lost),
    ensures
        turn matches Turn::Ask(Ask::Copy { build, .. }) ==> (
        conversation.stage matches Stage::TellingCopyStart(_, built) && build == built),
        turn matches Turn::Ask(Ask::Activate { copy, .. }) ==> (
        conversation.stage matches Stage::TellingActivationStart(_, copied) && copy == copied),
        turn matches Turn::Ask(Ask::Pin(build)) ==> (
        conversation.stage matches Stage::RecordingBuild(_, built) && build == built),
{
}

} // verus!
