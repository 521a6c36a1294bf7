//! From requests to ledger commands, and from the ledger's answers to replies.

use crate::generated::{
    DatabaseMarker, DeploymentIdentifier, DeploymentRequest, GenerationSelector, HelpQuery,
    HelpReply, Input, MarkedOutput, Output, PlanRecord, RejectionReason, SemaCommand,
    SemaResponse,
};
use crate::runtime::trace::SemaCommandTag;
use crate::text::concat;
use vstd::prelude::*;

verus! {

/// What a request comes to: a ledger command, or an answer at once.
#[derive(Debug, PartialEq, Eq)]
pub enum Lowered {
    StateInvolving(SemaCommand),
    ForwardOnly(Output),
}

/// The plan of a request, before the ledger has numbered it.
pub open spec fn plan_of(request: DeploymentRequest) -> PlanRecord {
    PlanRecord {
        deployment_identifier: DeploymentIdentifier(0),
        horizon_view: request.horizon_view,
        target_node: request.target_node,
    }
}

/// The text that answers a question on `topic`.
pub open spec fn help_text(topic: Seq<char>) -> Seq<char> {
    "lojix-next help [topic="@ + topic + "]: operations are Submit, Cancel, Query, Help"@
}

/// `lowered` is what `input` comes to.
pub open spec fn lowers_to(input: Input, lowered: Lowered) -> bool {
    match input {
        Input::Submit(request) => lowered == Lowered::StateInvolving(
            SemaCommand::RecordPlan(plan_of(request)),
        ),
        Input::Cancel(identifier) => lowered == Lowered::ForwardOnly(Output::Accepted(identifier)),
        Input::Query(selector) => lowered == Lowered::StateInvolving(
            SemaCommand::QueryGeneration(selector),
        ),
        Input::Help(query) => lowered matches Lowered::ForwardOnly(Output::HelpAnswer(reply))
            && reply@ == help_text(query.0@),
    }
}

/// The reply that an answer of the ledger comes to.
pub open spec fn reply_of(response: SemaResponse) -> Output {
    match response {
        SemaResponse::Acknowledged(_) => Output::Accepted(DeploymentIdentifier(0)),
        SemaResponse::GenerationLedgerEntry(record) => Output::Snapshot(record),
        SemaResponse::ObservationStreamEntry(record) => Output::Observation(record),
        SemaResponse::Missed(_) => Output::Rejected(RejectionReason::MalformedRequest),
    }
}

/// The kind of a ledger command.
pub open spec fn tag_of(command: SemaCommand) -> SemaCommandTag {
    match command {
        SemaCommand::RecordPlan(_) => SemaCommandTag::RecordPlan,
        SemaCommand::RecordSource(_) => SemaCommandTag::RecordSource,
        SemaCommand::RecordBuild(_) => SemaCommandTag::RecordBuild,
        SemaCommand::RecordCopy(_) => SemaCommandTag::RecordCopy,
        SemaCommand::RecordActivation(_) => SemaCommandTag::RecordActivation,
        SemaCommand::RecordObservation(_) => SemaCommandTag::RecordObservation,
        SemaCommand::QueryGeneration(_) => SemaCommandTag::QueryGeneration,
    }
}

impl SemaCommand {
    /// The kind of the command.
    pub fn tag(&self) -> (r: SemaCommandTag)
        ensures
            r == tag_of(*self),
    {
        match self {
            SemaCommand::RecordPlan(_) => SemaCommandTag::RecordPlan,
            SemaCommand::RecordSource(_) => SemaCommandTag::RecordSource,
            SemaCommand::RecordBuild(_) => SemaCommandTag::RecordBuild,
            SemaCommand::RecordCopy(_) => SemaCommandTag::RecordCopy,
            SemaCommand::RecordActivation(_) => SemaCommandTag::RecordActivation,
            SemaCommand::RecordObservation(_) => SemaCommandTag::RecordObservation,
            SemaCommand::QueryGeneration(_) => SemaCommandTag::QueryGeneration,
        }
    }
}

impl Input {
    /// What the request comes to.
    pub fn lower_to_sema_command(self) -> (r: Lowered)
        ensures
            lowers_to(self, r),
    {
        match self {
            Input::Submit(request) => Lowered::StateInvolving(
                SemaCommand::RecordPlan(request.into_plan_record()),
            ),
            Input::Cancel(identifier) => Lowered::ForwardOnly(Output::Accepted(identifier)),
            Input::Query(selector) => Lowered::StateInvolving(
                SemaCommand::QueryGeneration(selector),
            ),
            Input::Help(query) => Lowered::ForwardOnly(Output::HelpAnswer(query.into_help_reply())),
        }
    }
}

impl DeploymentRequest {
    /// The plan of the request. The ledger numbers it when it is recorded.
    pub fn into_plan_record(self) -> (r: PlanRecord)
        ensures
            r == plan_of(self),
    {
        PlanRecord {
            deployment_identifier: DeploymentIdentifier(0),
            horizon_view: self.horizon_view,
            target_node: self.target_node,
        }
    }
}

impl HelpQuery {
    /// Echoes the topic and lists the operations.
    pub fn into_help_reply(self) -> (r: HelpReply)
        ensures
            r@ == help_text(self.0@),
    {
        let head = concat("lojix-next help [topic=", self.0.0.as_str());
        HelpReply(
            concat(head.as_str(), "]: operations are Submit, Cancel, Query, Help"),
        )
    }
}

impl SemaResponse {
    /// The reply that the answer comes to.
    pub fn into_output(self) -> (r: Output)
        ensures
            r == reply_of(self),
    {
        match self {
            SemaResponse::Acknowledged(_) => Output::Accepted(DeploymentIdentifier(0)),
            SemaResponse::GenerationLedgerEntry(record) => Output::Snapshot(record),
            SemaResponse::ObservationStreamEntry(record) => Output::Observation(record),
            SemaResponse::Missed(_) => Output::Rejected(RejectionReason::MalformedRequest),
        }
    }
}

impl Output {
    /// The reply with the point of the ledger it was made at.
    pub fn stamped(self, database_marker: DatabaseMarker) -> (r: MarkedOutput)
        ensures
            r == (MarkedOutput { output: self, database_marker }),
    {
        MarkedOutput { output: self, database_marker }
    }
}

impl GenerationSelector {
    /// The deployment whose generations are selected.
    pub fn target_deployment(&self) -> (r: &DeploymentIdentifier)
        ensures
            *r == self.0,
    {
        &self.0
    }
}

} // verus!
