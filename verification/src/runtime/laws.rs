//! What the planes keep together: a deployment from its request to its reply, the
//! ledger that it leaves, and the frames and texts that carry it.

use crate::error::Error;
use crate::generated::{
    ActivationKind, ActivationRecord, ActorReply, ActorRequest, CriomeAuthorization,
    DeploymentIdentifier, DeploymentRequest, GenerationIdentifier, GenerationRecord,
    GenerationSelector, Input, MessageIdentifier, Output, Phase, PlanRecord, RejectionReason,
    SemaCommand, SemaResponse, SourceRecord, Status,
};
use crate::runtime::authorization::{authorization_of, AuthorizationPolicy, decision_under};
use crate::runtime::codec::{reply_of, tag_of};
use crate::runtime::communicate::{announced, holds_frame, prefix_of};
use crate::runtime::conversation::{Answer, Ask, Conversation, Stage, Turn};
use crate::runtime::nexus::{first_mail, MailEntry, without_mail};
use crate::runtime::observation::delivered_handles;
use crate::runtime::run::is_inline;
use crate::runtime::source_stager::{blake3_hex, digested_bytes, reply_name, request_name};
use crate::runtime::store::{generation_at, last_generation, StoreView};
use crate::runtime::toolchain::{code_text, kind_text, ToolchainMode, ToolCommand};
use crate::runtime::trace::{AuthorizationDecision, Plane, plane_of, SemaCommandTag, TraceWitness};
use crate::text::{decimal, is_white_space, leading_white, texts};
use crate::text_laws::is_blank;
use vstd::prelude::*;
use vstd::utf8::encode_utf8;

verus! {

// ---- authorization --------------------------------------------------------------------------

/// A request is granted by the open policy alone, and no policy grants more authority
/// than was claimed: the open one takes the claim as it is, and only a claim that is
/// backed stays backed where backing is required.
pub proof fn law_no_policy_raises_a_claim(claimed: CriomeAuthorization, policy: AuthorizationPolicy)
    ensures
        decision_under(policy) == AuthorizationDecision::Granted <==> policy
            == AuthorizationPolicy::AllowAll,
        authorization_of(claimed, policy) == CriomeAuthorization::Criome <==> claimed
            == CriomeAuthorization::Criome && policy != AuthorizationPolicy::DenyAll,
        authorization_of(claimed, policy) == CriomeAuthorization::Bypass <==> claimed
            == CriomeAuthorization::Bypass && policy == AuthorizationPolicy::AllowAll,
{
}

// ---- a deployment from plane to plane -------------------------------------------------------

/// Every one of `conversations` goes on from the one before as `answers` says, and asks
/// or replies as `turns` says.
pub open spec fn is_run(
    conversations: Seq<Conversation>,
    answers: Seq<Answer>,
    turns: Seq<Turn>,
) -> bool {
    &&& answers.len() == conversations.len()
    &&& turns.len() == conversations.len()
    &&& forall|i: int|
        0 <= i < conversations.len() ==> {
            &&& (#[trigger] conversations[i]).stage.expects(answers[i])
            &&& !(answers[i] is Lost)
            &&& conversations[i].follows(answers[i], turns[i])
            &&& conversations[i].marks == conversations[0].marks
        }
    &&& forall|i: int|
        0 < i < conversations.len() ==> (#[trigger] conversations[i]).stage == conversations[i
            - 1].next_stage(answers[i - 1])
}

/// Whether `turn` announces a phase of `deployment`.
pub open spec fn announces(
    turn: Turn,
    deployment: DeploymentIdentifier,
    phase: Phase,
    status: Status,
) -> bool {
    turn matches Turn::Ask(Ask::Broadcast(record)) && record.deployment_identifier == deployment
        && record.phase == phase && record.status == status
}

/// A granted deployment is planned for what was asked, numbered, built, recorded,
/// pinned, copied to its target, and activated, each with what the step before gave;
/// every phase is announced when it starts and when it is over; and the reply names
/// the planned deployment.
pub proof fn law_a_granted_deployment_goes_through(
    conversations: Seq<Conversation>,
    answers: Seq<Answer>,
    turns: Seq<Turn>,
    request: DeploymentRequest,
)
    requires
        conversations.len() == 18,
        is_run(conversations, answers, turns),
        conversations[0].stage == Stage::Authorizing(request),
        answers[0] == Answer::Decided(AuthorizationDecision::Granted),
        answers[2] matches Answer::Plans(plans) && plans@.len() > 0,
    ensures
        ({
            let plan = answers[2]->Plans_0@.last();
            let deployment = plan.deployment_identifier;
            let build = answers[5]->Built_0;
            let copy = answers[10]->Copied_0;
            &&& turns[0] matches Turn::Ask(Ask::Apply(SemaCommand::RecordPlan(asked)))
                && asked.horizon_view == request.horizon_view && asked.target_node
                == request.target_node
            &&& turns[1] == Turn::Ask(Ask::Plans)
            &&& turns[2] == Turn::Ask(Ask::AllocateGeneration)
            &&& announces(turns[3], deployment, Phase::Building, Status::Started)
            &&& turns[4] == Turn::Ask(Ask::Build { plan, generation: answers[3]->Generation_0 })
            &&& announces(turns[5], deployment, Phase::Building, Status::Complete)
            &&& turns[6] == Turn::Ask(Ask::Apply(SemaCommand::RecordBuild(build)))
            &&& turns[7] == Turn::Ask(Ask::Pin(build))
            &&& announces(turns[8], deployment, Phase::CopyingClosure, Status::Started)
            &&& turns[9] == Turn::Ask(Ask::Copy { build, target_node: plan.target_node })
            &&& turns[10] == Turn::Ask(Ask::Apply(SemaCommand::RecordCopy(copy)))
            &&& announces(turns[11], deployment, Phase::CopyingClosure, Status::Complete)
            &&& announces(turns[12], deployment, Phase::Activating, Status::Started)
            &&& turns[13] == Turn::Ask(
                Ask::Activate { copy, activation_kind: ActivationKind::Test },
            )
            &&& turns[14] == Turn::Ask(
                Ask::Apply(SemaCommand::RecordActivation(answers[14]->Activated_0)),
            )
            &&& announces(turns[15], deployment, Phase::Activating, Status::Complete)
            &&& announces(turns[16], deployment, Phase::Observed, Status::Complete)
            &&& conversations[0].marks ==> turns[17] == Turn::Ask(Ask::Marker)
            &&& !conversations[0].marks ==> turns[17] == Turn::Reply(
                Output::Accepted(deployment),
                None,
            )
        }),
{
    assert(conversations[1].stage == conversations[0].next_stage(answers[0]));
    assert(conversations[2].stage == conversations[1].next_stage(answers[1]));
    assert(conversations[3].stage == conversations[2].next_stage(answers[2]));
    assert(conversations[4].stage == conversations[3].next_stage(answers[3]));
    assert(conversations[5].stage == conversations[4].next_stage(answers[4]));
    assert(conversations[6].stage == conversations[5].next_stage(answers[5]));
    assert(conversations[7].stage == conversations[6].next_stage(answers[6]));
    assert(conversations[8].stage == conversations[7].next_stage(answers[7]));
    assert(conversations[9].stage == conversations[8].next_stage(answers[8]));
    assert(conversations[10].stage == conversations[9].next_stage(answers[9]));
    assert(conversations[11].stage == conversations[10].next_stage(answers[10]));
    assert(conversations[12].stage == conversations[11].next_stage(answers[11]));
    assert(conversations[13].stage == conversations[12].next_stage(answers[12]));
    assert(conversations[14].stage == conversations[13].next_stage(answers[13]));
    assert(conversations[15].stage == conversations[14].next_stage(answers[14]));
    assert(conversations[16].stage == conversations[15].next_stage(answers[15]));
    assert(conversations[17].stage == conversations[16].next_stage(answers[16]));
}

/// Who is asked by `ask`, as a fault names it.
pub open spec fn asked_party(ask: Ask) -> Seq<char> {
    match ask {
        Ask::Authorize(_) => "authorization: "@,
        Ask::Apply(SemaCommand::RecordPlan(_)) => "store/RecordPlan: "@,
        Ask::Apply(SemaCommand::RecordBuild(_)) => "store/RecordBuild: "@,
        Ask::Apply(SemaCommand::RecordCopy(_)) => "store/RecordCopy: "@,
        Ask::Apply(SemaCommand::RecordActivation(_)) => "store/RecordActivation: "@,
        Ask::Apply(_) => "store: "@,
        Ask::Plans => "store/Plans: "@,
        Ask::AllocateGeneration => "store/AllocateGeneration: "@,
        Ask::Build { .. } => "builder: "@,
        Ask::Pin(_) => "gc_root: "@,
        Ask::Copy { .. } => "copier: "@,
        Ask::Activate { .. } => "activator: "@,
        Ask::Broadcast(_) => "fan: "@,
        Ask::Marker => "store/CurrentDatabaseMarker: "@,
    }
}

/// A party that is lost ends the conversation with a fault that names it.
pub proof fn law_a_lost_party_is_named(
    before: Conversation,
    answer: Answer,
    ask: Ask,
    lost: Conversation,
    detail: String,
    turn: Turn,
)
    requires
        before.stage.expects(answer),
        !(answer is Lost),
        before.follows(answer, Turn::Ask(ask)),
        lost.stage == before.next_stage(answer),
        lost.follows(Answer::Lost(detail), turn),
    ensures
        turn matches Turn::Fault(Error::ActorSend(text)) && text@ == asked_party(ask)
            + detail@,
        lost.next_stage(Answer::Lost(detail)) is Over,
{
}

/// So does a party that is lost before it gave its first answer.
pub proof fn law_a_party_lost_at_once_is_named(
    opened: Conversation,
    input: Input,
    ask: Ask,
    detail: String,
    turn: Turn,
)
    requires
        opened.starts(input, Turn::Ask(ask)),
        opened.follows(Answer::Lost(detail), turn),
    ensures
        turn matches Turn::Fault(Error::ActorSend(text)) && text@ == asked_party(ask) + detail@,
        input is Submit <==> ask is Authorize,
        input is Query <==> ask is Apply,
        input is Cancel || input is Help ==> ask == Ask::Marker && opened.marks,
{
}

/// What the trace says of a step: the decision and the plan of a granted request, the
/// decision alone of a refused one, the start of a build with its number, and the end
/// of each step by the plane that took it. A lost party leaves nothing.
pub proof fn law_every_step_is_traced(conversation: Conversation, answer: Answer)
    requires
        conversation.stage.expects(answer),
    ensures
        ({
            let witnesses = conversation.witnesses_of(answer);
            match answer {
                Answer::Decided(decision) => {
                    &&& witnesses[0] == (TraceWitness::AuthorizationDecided {
                        plane: Plane::AuthorizationGate,
                        decision,
                    })
                    &&& decision == AuthorizationDecision::Granted ==> witnesses.len() == 2
                        && witnesses[1] == (TraceWitness::PlanMaterialized {
                        plane: conversation.plane,
                    })
                    &&& decision == AuthorizationDecision::Denied ==> witnesses.len() == 1
                },
                Answer::Generation(_) => witnesses.len() == 1 && witnesses[0]
                    == (TraceWitness::BuildStarted { plane: Plane::Builder }),
                Answer::Built(_) => witnesses.len() == 1 && witnesses[0]
                    == (TraceWitness::BuildComplete { plane: Plane::Builder }),
                Answer::Pinned(_) => witnesses.len() == 1 && witnesses[0]
                    == (TraceWitness::GcPinned { plane: Plane::GcRootPinner }),
                Answer::Copied(_) => witnesses.len() == 1 && witnesses[0]
                    == (TraceWitness::ClosureCopied { plane: Plane::ClosureCopier }),
                Answer::Activated(_) => witnesses.len() == 1 && witnesses[0]
                    == (TraceWitness::ActivationComplete { plane: Plane::Activator }),
                Answer::Told => {
                    &&& witnesses[0] == (TraceWitness::ObservationFanned {
                        plane: Plane::ObservationFan,
                    })
                    &&& conversation.stage is TellingDone <==> witnesses.len() == 2
                    &&& conversation.stage is TellingDone ==> witnesses[1]
                        == (TraceWitness::OutputEmitted { plane: conversation.plane })
                    &&& !(conversation.stage is TellingDone) ==> witnesses.len() == 1
                },
                Answer::Applied(_) => {
                    &&& conversation.stage is RecordingPlan ==> witnesses.len() == 1
                        && witnesses[0] == (TraceWitness::SemaApplied {
                        plane: Plane::Store,
                        command: SemaCommandTag::RecordPlan,
                    })
                    &&& conversation.stage matches Stage::Answering(tag) ==> witnesses[0]
                        == (TraceWitness::SemaApplied { plane: Plane::Store, command: tag })
                },
                Answer::Lost(_) => witnesses.len() == 0,
                _ => true,
            }
        }),
{
}

// ---- requests that the ledger answers -------------------------------------------------------

/// A query is answered with the generation that the ledger has last for its deployment,
/// and refused where it has none; it changes nothing.
pub proof fn law_a_query_is_answered_from_the_ledger(
    opened: Conversation,
    selector: GenerationSelector,
    asked: Turn,
    store: StoreView,
    after: StoreView,
    response: SemaResponse,
    turn: Turn,
)
    requires
        opened.starts(Input::Query(selector), asked),
        asked matches Turn::Ask(Ask::Apply(command)) && store.applies(command, after, response),
        !opened.marks,
        opened.follows(Answer::Applied(response), turn),
    ensures
        after == store,
        turn matches Turn::Reply(output, _) && match output {
            Output::Snapshot(record) => {
                &&& record.deployment_identifier == selector.0
                &&& exists|i: int|
                    {
                        &&& 0 <= i < store.generations.len()
                        &&& #[trigger] store.generations[i] == record
                        &&& forall|k: int|
                            i < k < store.generations.len() ==> (
                            #[trigger] store.generations[k]).deployment_identifier != selector.0
                    }
            },
            Output::Rejected(reason) => reason == RejectionReason::MalformedRequest && forall|
                i: int,
            |
                0 <= i < store.generations.len() ==> (
                #[trigger] store.generations[i]).deployment_identifier != selector.0,
            _ => false,
        },
{
    lemma_last_generation(store.generations, selector.0);
}

proof fn lemma_last_generation(
    generations: Seq<GenerationRecord>,
    deployment: DeploymentIdentifier,
)
    ensures
        match last_generation(generations, deployment) {
            Some(record) => record.deployment_identifier == deployment && exists|i: int|
                {
                    &&& 0 <= i < generations.len()
                    &&& #[trigger] generations[i] == record
                    &&& forall|k: int|
                        i < k < generations.len() ==> (
                        #[trigger] generations[k]).deployment_identifier != deployment
                },
            None => forall|i: int|
                0 <= i < generations.len() ==> (#[trigger] generations[i]).deployment_identifier
                    != deployment,
        },
    decreases generations.len(),
{
    if generations.len() > 0 {
        let last = generations.len() - 1;
        let rest = generations.drop_last();
        assert(generations[last] == generations.last());
        if generations.last().deployment_identifier != deployment {
            lemma_last_generation(rest, deployment);
            match last_generation(rest, deployment) {
                Some(record) => {
                    let i = choose|i: int|
                        {
                            &&& 0 <= i < rest.len()
                            &&& #[trigger] rest[i] == record
                            &&& forall|k: int|
                                i < k < rest.len() ==> (
                                #[trigger] rest[k]).deployment_identifier != deployment
                        };
                    assert(generations[i] == record);
                    assert forall|k: int| i < k < generations.len() implies (
                    #[trigger] generations[k]).deployment_identifier != deployment by {
                        if k < last {
                            assert(rest[k] == generations[k]);
                        }
                    }
                },
                None => {
                    assert forall|i: int| 0 <= i < generations.len() implies (
                    #[trigger] generations[i]).deployment_identifier != deployment by {
                        if i < last {
                            assert(rest[i] == generations[i]);
                        }
                    }
                },
            }
        }
    }
}

/// A cancellation is accepted under the identifier that it names, and help answers with
/// the topic and the operations; neither reaches the ledger.
pub proof fn law_cancellations_and_help_are_answered_at_once(
    opened: Conversation,
    input: Input,
    turn: Turn,
)
    requires
        !opened.marks,
        input is Cancel || input is Help,
        opened.starts(input, turn),
    ensures
        opened.stage is Over,
        turn matches Turn::Reply(output, marker) && marker is None && match input {
            Input::Cancel(identifier) => output == Output::Accepted(identifier),
            Input::Help(query) => output matches Output::HelpAnswer(reply) && reply@
                == "lojix-next help [topic="@ + query.0@
                + "]: operations are Submit, Cancel, Query, Help"@,
            _ => false,
        },
{
}

/// Every command of the ledger is traced under its own name.
pub proof fn law_commands_are_traced_by_name(command: SemaCommand)
    ensures
        match tag_of(command) {
            SemaCommandTag::RecordPlan => command is RecordPlan,
            SemaCommandTag::RecordSource => command is RecordSource,
            SemaCommandTag::RecordBuild => command is RecordBuild,
            SemaCommandTag::RecordCopy => command is RecordCopy,
            SemaCommandTag::RecordActivation => command is RecordActivation,
            SemaCommandTag::RecordObservation => command is RecordObservation,
            SemaCommandTag::QueryGeneration => command is QueryGeneration,
        },
{
}

// ---- the ledger -----------------------------------------------------------------------------

/// An activation is entered on its generation: the target and the kind are those of the
/// activation, the closure and the deployment stay, and so does every other entry. A
/// generation that the ledger does not have is entered for the latest deployment.
pub proof fn law_an_activation_is_entered_on_its_generation(
    store: StoreView,
    activation: ActivationRecord,
    after: StoreView,
    response: SemaResponse,
)
    requires
        store.applies(SemaCommand::RecordActivation(activation), after, response),
    ensures
        ({
            let known = exists|i: int|
                0 <= i < store.generations.len() && (
                #[trigger] store.generations[i]).generation_identifier
                    == activation.generation_identifier;
            &&& after.plans == store.plans
            &&& after.builds == store.builds
            &&& after.copies == store.copies
            &&& !known ==> after.generations.drop_last() == store.generations
            &&& !known ==> store.plans.len() > 0
                ==> after.generations.last().deployment_identifier
                == store.plans.last().deployment_identifier
            &&& known ==> after.generations.len() == store.generations.len()
            &&& exists|at: int|
                {
                    &&& 0 <= at < after.generations.len()
                    &&& (#[trigger] after.generations[at]).generation_identifier
                        == activation.generation_identifier
                    &&& after.generations[at].target_node == activation.target_node
                    &&& after.generations[at].activation_kind == activation.activation_kind
                    &&& at < store.generations.len() ==> {
                        &&& after.generations[at].closure_path
                            == store.generations[at].closure_path
                        &&& after.generations[at].deployment_identifier
                            == store.generations[at].deployment_identifier
                        &&& store.generations[at].generation_identifier
                            == activation.generation_identifier
                    }
                    &&& forall|k: int|
                        0 <= k < store.generations.len() && k != at ==> #[trigger]
                        after.generations[k] == store.generations[k]
                }
        }),
{
    lemma_generation_at(store.generations, activation.generation_identifier);
    match generation_at(store.generations, activation.generation_identifier) {
        Some(at) => {
            assert(after.generations[at].generation_identifier
                == activation.generation_identifier);
        },
        None => {
            let at = store.generations.len() as int;
            assert(after.generations[at].generation_identifier
                == activation.generation_identifier);
            assert forall|k: int| 0 <= k < store.generations.len() && k != at implies #[trigger]
                after.generations[k] == store.generations[k] by {
                assert(after.generations.drop_last()[k] == store.generations[k]);
            }
        },
    }
}

proof fn lemma_generation_at(
    generations: Seq<GenerationRecord>,
    generation: GenerationIdentifier,
)
    ensures
        match generation_at(generations, generation) {
            Some(at) => 0 <= at < generations.len() && generations[at].generation_identifier
                == generation,
            None => forall|i: int|
                0 <= i < generations.len() ==> (#[trigger] generations[i]).generation_identifier
                    != generation,
        },
    decreases generations.len(),
{
    if generations.len() > 0 && generations[0].generation_identifier != generation {
        let rest = generations.skip(1);
        lemma_generation_at(rest, generation);
        assert forall|i: int| 0 < i < generations.len() implies #[trigger] generations[i] == rest[i
            - 1] by {}
    }
}

/// What is recorded is entered last where it belongs, under the number that answers it,
/// and nowhere else. A plan takes the next deployment's number, and a build enters a
/// generation for the latest deployment.
pub proof fn law_records_are_entered_where_they_belong(
    store: StoreView,
    command: SemaCommand,
    after: StoreView,
    response: SemaResponse,
)
    requires
        store.fits(command),
        store.applies(command, after, response),
        !(command is QueryGeneration),
    ensures
        response matches SemaResponse::Acknowledged(number) && number.0
            == store.next_command_identifier,
        after.next_command_identifier == store.next_command_identifier + 1,
        match command {
            SemaCommand::RecordPlan(plan) => {
                &&& after.plans.drop_last() == store.plans
                &&& after.plans.last().horizon_view == plan.horizon_view
                &&& after.plans.last().target_node == plan.target_node
                &&& after.plans.last().deployment_identifier.0 == store.next_deployment_identifier
                &&& after.next_deployment_identifier == store.next_deployment_identifier + 1
            },
            _ => after.plans == store.plans,
        },
        match command {
            SemaCommand::RecordSource(source) => after.sources == store.sources.push(source),
            _ => after.sources == store.sources,
        },
        match command {
            SemaCommand::RecordBuild(build) => {
                &&& after.builds == store.builds.push(build)
                &&& after.generations.drop_last() == store.generations
                &&& after.generations.last().closure_path == build.closure_path
                &&& after.generations.last().generation_identifier == build.generation_identifier
                &&& store.plans.len() > 0 ==> after.generations.last().deployment_identifier
                    == store.plans.last().deployment_identifier
                &&& after.generations.last().activation_kind == ActivationKind::Test
                &&& after.generations.last().target_node@.len() == 0
            },
            _ => after.builds == store.builds,
        },
        match command {
            SemaCommand::RecordCopy(copy) => after.copies == store.copies.push(copy),
            _ => after.copies == store.copies,
        },
        match command {
            SemaCommand::RecordObservation(observation) => after.observations
                == store.observations.push(observation),
            _ => after.observations == store.observations,
        },
        !(command is RecordBuild) && !(command is RecordActivation) ==> after.generations
            == store.generations,
{
    assert(store.plans.push(after.plans.last()).drop_last() =~= store.plans);
}

// ---- mail and subscribers -------------------------------------------------------------------

/// The mails that are not `identifier`.
pub open spec fn other_mail(identifier: MessageIdentifier) -> spec_fn(MailEntry) -> bool {
    |entry: MailEntry| entry.identifier != identifier
}

/// Settling a mail takes that mail out of the work and leaves every other, in order.
pub proof fn law_settling_takes_out_one_mail(
    entries: Seq<MailEntry>,
    identifier: MessageIdentifier,
)
    ensures
        without_mail(entries, identifier) == entries.filter(other_mail(identifier)),
    decreases entries.len(),
{
    reveal(Seq::filter);
    if entries.len() > 0 {
        law_settling_takes_out_one_mail(entries.drop_last(), identifier);
    } else {
        assert(without_mail(entries, identifier) =~= entries.filter(other_mail(identifier)));
    }
}

/// A mail is looked up by its identifier: the first one that bears it, if any does.
pub proof fn law_a_mail_is_found_by_its_identifier(
    entries: Seq<MailEntry>,
    identifier: MessageIdentifier,
)
    ensures
        match first_mail(entries, identifier) {
            Some(entry) => entry.identifier == identifier && entries.contains(entry),
            None => forall|i: int|
                0 <= i < entries.len() ==> (#[trigger] entries[i]).identifier != identifier,
        },
    decreases entries.len(),
{
    if entries.len() > 0 && entries[0].identifier != identifier {
        let rest = entries.skip(1);
        law_a_mail_is_found_by_its_identifier(rest, identifier);
        match first_mail(rest, identifier) {
            Some(entry) => {
                let i = choose|i: int| 0 <= i < rest.len() && rest[i] == entry;
                assert(entries[i + 1] == entry);
            },
            None => {
                assert forall|i: int| 0 <= i < entries.len() implies (
                #[trigger] entries[i]).identifier != identifier by {
                    if i > 0 {
                        assert(entries[i] == rest[i - 1]);
                    }
                }
            },
        }
    }
}

/// A subscriber stays exactly where it was reached.
pub proof fn law_unreached_subscribers_leave<Handle>(
    handles: Seq<Handle>,
    delivered: Seq<bool>,
    handle: Handle,
)
    requires
        delivered.len() == handles.len(),
    ensures
        delivered_handles(handles, delivered).contains(handle) <==> exists|i: int|
            0 <= i < handles.len() && #[trigger] handles[i] == handle && delivered[i],
        delivered_handles(handles, delivered).len() <= handles.len(),
    decreases handles.len(),
{
    if handles.len() > 0 {
        let rest = handles.drop_last();
        let reached = delivered.drop_last();
        law_unreached_subscribers_leave(rest, reached, handle);
        let kept = delivered_handles(rest, reached);
        let all = delivered_handles(handles, delivered);
        let last = handles.len() - 1;
        if all.contains(handle) {
            let k = choose|k: int| 0 <= k < all.len() && all[k] == handle;
            if k < kept.len() {
                assert(kept[k] == handle);
                let i = choose|i: int|
                    0 <= i < rest.len() && #[trigger] rest[i] == handle && reached[i];
                assert(handles[i] == handle && delivered[i]);
            } else {
                assert(handles[last] == handle && delivered[last]);
            }
        }
        if exists|i: int| 0 <= i < handles.len() && #[trigger] handles[i] == handle && delivered[i] {
            let i = choose|i: int|
                0 <= i < handles.len() && #[trigger] handles[i] == handle && delivered[i];
            if i < last {
                assert(rest[i] == handle && reached[i]);
                let k = choose|k: int| 0 <= k < kept.len() && kept[k] == handle;
                assert(all[k] == handle);
            } else {
                assert(all[kept.len() as int] == handle);
            }
        }
    }
}

// ---- frames and texts -----------------------------------------------------------------------

/// A length is announced by four bytes, the weightiest first.
pub proof fn law_lengths_start_with_their_weightiest_byte(length: nat, a: u8, b: u8, c: u8, d: u8)
    requires
        length <= u32::MAX,
    ensures
        announced(seq![a, b, c, d]) == ((a * 256 + b) * 256 + c) * 256 + d,
        prefix_of(length)[3] as nat == length % 256,
        prefix_of(length)[2] as nat == (length / 256) % 256,
        length < 256 ==> prefix_of(length) == seq![0u8, 0u8, 0u8, length as u8],
{
    if length < 256 {
        assert(prefix_of(length) =~= seq![0u8, 0u8, 0u8, length as u8]);
    }
}

/// A tool is only named in the sandbox, and run by the shell in production, on the same
/// argument either way.
pub proof fn law_the_sandbox_only_names_the_tool(
    tool: ToolCommand,
    mode: ToolchainMode,
    command: Seq<char>,
    argument: Seq<char>,
)
    requires
        tool.runs(mode, command, argument),
    ensures
        ({
            let arguments = texts(tool.arguments@);
            &&& mode == ToolchainMode::Sandbox ==> tool.program@ == "echo"@ && arguments.len() == 1
                && arguments[0] == "sandbox:"@ + command + ":"@ + argument
            &&& mode == ToolchainMode::Production ==> tool.program@ == "sh"@ && arguments.len() == 2
                && arguments[0] == "-c"@ && arguments[1] == command + " "@ + argument
        }),
{
}

/// The kinds of activation are written by their names.
pub proof fn law_kinds_are_written_by_name(kind: ActivationKind)
    ensures
        kind_text(kind) == "Switch"@ <==> kind == ActivationKind::Switch,
        kind_text(kind) == "Boot"@ <==> kind == ActivationKind::Boot,
        kind_text(kind) == "Test"@ <==> kind == ActivationKind::Test,
{
    reveal_strlit("Switch");
    reveal_strlit("Boot");
    reveal_strlit("Test");
    assert("Switch"@[0] == 'S');
    assert("Boot"@[0] == 'B');
    assert("Test"@[0] == 'T');
}

/// Requests and replies of the planes go by their own names.
pub proof fn law_requests_and_replies_go_by_name(request: ActorRequest, reply: ActorReply)
    ensures
        request_name(request) == (match request {
            ActorRequest::AuthorizeDeployment(_) => "AuthorizeDeployment"@,
            ActorRequest::MaterializePlan(_) => "MaterializePlan"@,
            ActorRequest::StageSources(_) => "StageSources"@,
            ActorRequest::ExecuteBuild(_) => "ExecuteBuild"@,
            ActorRequest::CopyClosure(_) => "CopyClosure"@,
            ActorRequest::ActivateGeneration(_) => "ActivateGeneration"@,
            ActorRequest::PinGenerationRoot(_) => "PinGenerationRoot"@,
            ActorRequest::EmitObservation(_) => "EmitObservation"@,
        }),
        reply_name(reply) == (match reply {
            ActorReply::AuthorizationDecided(_) => "AuthorizationDecided"@,
            ActorReply::PlanReady(_) => "PlanReady"@,
            ActorReply::SourcesReady(_) => "SourcesReady"@,
            ActorReply::BuildComplete(_) => "BuildComplete"@,
            ActorReply::CopyComplete(_) => "CopyComplete"@,
            ActorReply::ActivationComplete(_) => "ActivationComplete"@,
            ActorReply::PinReceipt(_) => "PinReceipt"@,
            ActorReply::ObservationAccepted(_) => "ObservationAccepted"@,
        }),
{
}

/// Staged sources are those of their plan, and their digest is of the deployment's
/// number, the view and the target, a line each.
pub proof fn law_a_digest_is_of_the_whole_plan(plan: PlanRecord, source: SourceRecord)
    requires
        source.stages(plan, blake3_hex(digested_bytes(plan))),
    ensures
        source.deployment_identifier == plan.deployment_identifier,
        source.horizon_view == plan.horizon_view,
        source.target_node == plan.target_node,
        source.source_digest@ == blake3_hex(
            encode_utf8(decimal(plan.deployment_identifier.0 as nat)) + seq![10u8] + encode_utf8(
                plan.horizon_view@,
            ) + seq![10u8] + encode_utf8(plan.target_node@),
        ),
{
}

/// An argument is taken for the configuration itself where its first character that is
/// no white space opens a bracket.
pub proof fn law_an_inline_configuration_opens_a_bracket(
    before: Seq<char>,
    first: char,
    rest: Seq<char>,
)
    requires
        is_blank(before),
        !is_white_space(first),
    ensures
        is_inline(before + seq![first] + rest) <==> first == '(' || first == '[' || first == '{',
        !is_inline(before),
{
    lemma_blank_is_led(before, seq![first] + rest);
    lemma_blank_is_led(before, Seq::empty());
    let whole = before + seq![first] + rest;
    assert(whole =~= before + (seq![first] + rest));
    assert(before + Seq::<char>::empty() =~= before);
    assert(whole.skip(before.len() as int)[0] == first);
}

proof fn lemma_blank_is_led(before: Seq<char>, rest: Seq<char>)
    requires
        is_blank(before),
        rest.len() > 0 ==> !is_white_space(rest[0]),
    ensures
        leading_white(before + rest) == before.len(),
    decreases before.len(),
{
    let whole = before + rest;
    if before.len() > 0 {
        assert(whole[0] == before[0]);
        assert(is_white_space(before[0]));
        assert(whole.skip(1) =~= before.skip(1) + rest);
        assert forall|i: int| 0 <= i < before.skip(1).len() implies is_white_space(
            #[trigger] before.skip(1)[i],
        ) by {
            assert(before.skip(1)[i] == before[i + 1]);
        }
        lemma_blank_is_led(before.skip(1), rest);
    } else {
        assert(whole =~= rest);
    }
}

/// Whether `answer` is of the kind that `ask` asks for.
pub open spec fn answers(ask: Ask, answer: Answer) -> bool {
    match ask {
        Ask::Authorize(_) => answer is Decided,
        Ask::Apply(_) => answer is Applied,
        Ask::Plans => answer is Plans,
        Ask::AllocateGeneration => answer is Generation,
        Ask::Build { .. } => answer is Built,
        Ask::Pin(_) => answer is Pinned,
        Ask::Copy { .. } => answer is Copied,
        Ask::Activate { .. } => answer is Activated,
        Ask::Broadcast(_) => answer is Told,
        Ask::Marker => answer is Marked,
    }
}

/// Whoever was asked may answer what was asked, or be lost, and nothing else is
/// expected.
pub proof fn law_the_asked_party_is_expected_to_answer(
    before: Conversation,
    answer: Answer,
    ask: Ask,
    later: Answer,
)
    requires
        before.stage.expects(answer),
        !(answer is Lost),
        before.follows(answer, Turn::Ask(ask)),
    ensures
        before.next_stage(answer).expects(later) <==> answers(ask, later) || later is Lost,
{
}

/// The same holds of whoever is asked first.
pub proof fn law_the_first_party_is_expected_to_answer(
    opened: Conversation,
    input: Input,
    ask: Ask,
    answer: Answer,
)
    requires
        opened.starts(input, Turn::Ask(ask)),
    ensures
        opened.stage.expects(answer) <==> answers(ask, answer) || answer is Lost,
{
}

/// A conversation is traced from its input on, and to its output where it is answered
/// at once.
pub proof fn law_a_conversation_is_traced_from_its_input(plane: Plane, marks: bool, input: Input)
    ensures
        ({
            let witnesses = Conversation::opening(plane, marks, input);
            &&& witnesses[0] == (TraceWitness::InputReceived { plane })
            &&& witnesses.len() == 2 <==> !marks && (input is Cancel || input is Help)
            &&& witnesses.len() == 1 || witnesses.len() == 2
            &&& witnesses.len() == 2 ==> witnesses[1] == (TraceWitness::OutputEmitted { plane })
        }),
{
}

/// What the ledger answers is shown as it is: an entry as a snapshot, an observation as
/// one, an acknowledgement as acceptance, and a miss as a refusal.
pub proof fn law_answers_of_the_ledger_are_shown(response: SemaResponse)
    ensures
        match response {
            SemaResponse::GenerationLedgerEntry(record) => reply_of(response) == Output::Snapshot(
                record,
            ),
            SemaResponse::ObservationStreamEntry(record) => reply_of(response)
                == Output::Observation(record),
            SemaResponse::Acknowledged(_) => reply_of(response) == Output::Accepted(
                DeploymentIdentifier(0),
            ),
            SemaResponse::Missed(_) => reply_of(response) == Output::Rejected(
                RejectionReason::MalformedRequest,
            ),
        },
{
}

/// A frame is there exactly where as many bytes follow its prefix as that announces.
pub proof fn law_a_frame_is_there_when_its_bytes_are(bytes: Seq<u8>)
    ensures
        holds_frame(bytes) <==> bytes.len() >= 4 && bytes.skip(4).len() >= ((bytes[0] * 256
            + bytes[1]) * 256 + bytes[2]) * 256 + bytes[3],
{
}

/// An exit code is written as an option: its number, with its sign, or nothing.
pub proof fn law_an_exit_code_is_written_with_its_sign(value: i32)
    ensures
        code_text(None) == "None"@,
        value >= 0 ==> code_text(Some(value)) == "Some("@ + decimal(value as nat) + ")"@,
        value < 0 ==> code_text(Some(value)) == "Some(-"@ + decimal((-value) as nat) + ")"@,
{
}

/// A witness is of the plane that it names.
pub proof fn law_a_witness_is_of_its_plane(plane: Plane, identifier: u64)
    ensures
        plane_of(TraceWitness::PlaneStarted { plane }) == plane,
        plane_of(TraceWitness::InputReceived { plane }) == plane,
        plane_of(TraceWitness::MailSent { plane, identifier }) == plane,
        plane_of(TraceWitness::MailQueued { plane, identifier }) == plane,
        plane_of(TraceWitness::MailProcessing { plane, identifier }) == plane,
        plane_of(TraceWitness::MailReplied { plane, identifier }) == plane,
        plane_of(TraceWitness::PlanMaterialized { plane }) == plane,
        plane_of(TraceWitness::BuildStarted { plane }) == plane,
        plane_of(TraceWitness::BuildComplete { plane }) == plane,
        plane_of(TraceWitness::ClosureCopied { plane }) == plane,
        plane_of(TraceWitness::ActivationComplete { plane }) == plane,
        plane_of(TraceWitness::GcPinned { plane }) == plane,
        plane_of(TraceWitness::ObservationFanned { plane }) == plane,
        plane_of(TraceWitness::OutputEmitted { plane }) == plane,
{
}

} // verus!
