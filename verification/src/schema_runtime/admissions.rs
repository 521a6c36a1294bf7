//! Which requests are admitted, what admission and refusal leave, and how either is
//! answered.

use crate::runtime_flow::{ActivateGenerationCommand, NexusAction, SignalOutput};
use crate::runtime_flow;
use crate::runtime_model::{
    ActivationBackend, DeployJobPhase, DeploymentLifecycle, DeploymentPhase, DeploymentRecord,
    DeploymentTerminal, DeploymentTerminalReason, DeployResumeStage, DeploySubmission, LoggedEvent,
    OrdinaryEgress, OrdinaryIngress, RejectedDeploy, SemaWriteInput, SemaWriteOutput,
    UserEnvironmentAction,
};
use crate::schema_runtime::effects::{activation_fault, route_fault};
use crate::schema_runtime::engine::SchemaRuntime;
use crate::schema_runtime::flake_policy::policy_accepts;
use crate::schema_runtime::meta::DeployRejectionReason;
use crate::schema_runtime::pipeline::DeployStage;
use crate::schema_runtime::requested::{asked_builder, asked_output, asked_route};
use crate::schema_runtime::requests::{admission_fault, AdmissionEvidence};
use crate::schema_runtime::ssh_target::{
    is_destination_text, is_ssh_destination, is_store_uri, is_unspaced,
};
use crate::schema_runtime::store::{first_key, job_keys, lemma_first_key, StoreView};
use crate::text::{first_offset, lemma_first_offset, starts_with};
use vstd::prelude::*;

verus! {

// ---- routes ---------------------------------------------------------------------------------

/// No character of `s` is a blank or a control.
pub open spec fn is_one_word(s: Seq<char>) -> bool {
    forall|i: int| 0 <= i < s.len() ==> 32 < #[trigger] s[i] as u32 && s[i] as u32 != 127
}

/// A remote store is named by its scheme and something more, in one word.
pub proof fn law_a_store_uri_is_one_word_behind_its_scheme(s: Seq<char>)
    ensures
        is_store_uri(s) <==> is_one_word(s) && exists|place: Seq<char>|
            place.len() > 0 && s == #[trigger] ("ssh-ng://"@ + place),
{
    let scheme = "ssh-ng://"@;
    if is_store_uri(s) {
        let place = s.skip(scheme.len() as int);
        assert(s =~= s.subrange(0, scheme.len() as int) + place);
        assert(s == scheme + place);
    }
    if is_one_word(s) && exists|place: Seq<char>|
        place.len() > 0 && s == #[trigger] (scheme + place) {
        let place = choose|place: Seq<char>| place.len() > 0 && s == #[trigger] (scheme + place);
        assert(s.subrange(0, scheme.len() as int) =~= scheme);
    }
}

/// A destination is a login and a host with one `@` between them, in one word that no
/// program takes for an option.
pub proof fn law_a_destination_is_a_login_and_a_host(s: Seq<char>)
    ensures
        is_ssh_destination(s) <==> is_one_word(s) && s.len() > 0 && s[0] != '-' && exists|
            login: Seq<char>,
            host: Seq<char>,
        |
            {
                &&& s == #[trigger] (login + seq!['@'] + host)
                &&& login.len() > 0
                &&& host.len() > 0
                &&& !login.contains('@')
                &&& !host.contains('@')
            },
{
    reveal_strlit("-");
    if s.len() > 0 {
        assert(s.subrange(0, 1) =~= seq![s[0]]);
        assert("-"@ =~= seq!['-']);
    }
    lemma_first_offset(s, '@');
    if is_ssh_destination(s) {
        let at = first_offset(s, '@')->0;
        let login = s.take(at);
        let host = s.skip(at + 1);
        assert(s =~= login + seq!['@'] + host);
    }
    if exists|login: Seq<char>, host: Seq<char>|
        {
            &&& s == #[trigger] (login + seq!['@'] + host)
            &&& login.len() > 0
            &&& host.len() > 0
            &&& !login.contains('@')
            &&& !host.contains('@')
        } {
        let (login, host) = choose|login: Seq<char>, host: Seq<char>|
            {
                &&& s == #[trigger] (login + seq!['@'] + host)
                &&& login.len() > 0
                &&& host.len() > 0
                &&& !login.contains('@')
                &&& !host.contains('@')
            };
        assert(s[login.len() as int] == '@');
        let at = first_offset(s, '@')->0;
        if at < login.len() {
            assert(login[at] == '@');
            assert(login.contains('@'));
        }
        assert(at == login.len());
        assert(s.take(at) =~= login);
        assert(s.skip(at + 1) =~= host);
    }
}

// ---- admission ------------------------------------------------------------------------------

/// Whether the login of a destination may act for `user`.
pub open spec fn may_act_for(destination: Seq<char>, user: Seq<char>) -> bool {
    exists|login: Seq<char>, host: Seq<char>|
        destination == #[trigger] (login + seq!['@'] + host) && !login.contains('@') && (login
            == user || login == "root"@)
}

/// Whether a request can be routed: its backend is the one of what it deploys, its
/// output is one word, its builder a line, its route a store and a destination, and the
/// login of the destination may do what is asked.
pub open spec fn is_routable(request: DeploySubmission, user_name_admitted: bool) -> bool {
    let route = asked_route(request);
    &&& match request {
        DeploySubmission::Host(host) => host.activation_backend
            == ActivationBackend::NixosSystemdBootV1,
        DeploySubmission::UserEnvironment(user) => user.activation_backend
            == ActivationBackend::HomeManagerNixProfileV1 && (user.user_environment_action
            == UserEnvironmentAction::Realize || (user_name_admitted && may_act_for(
            route.ssh_destination@,
            user.user_name@,
        ))),
    }
    &&& asked_output(request).len() > 0 && is_one_word(asked_output(request))
    &&& asked_builder(request) matches Some(builder) ==> builder@.len() > 0 && forall|i: int|
        0 <= i < builder@.len() ==> 32 <= #[trigger] builder@[i] as u32 && builder@[i] as u32
            != 127
    &&& is_store_uri(route.nix_store_uri@)
    &&& is_ssh_destination(route.ssh_destination@)
}

/// A request is refused for its route before its proposal is looked at, for its
/// proposal before its source, and for its source last; a request with none of these
/// faults is admitted.
pub proof fn law_a_request_is_refused_for_its_first_fault(
    request: DeploySubmission,
    evidence: AdmissionEvidence,
)
    ensures
        ({
            let (policy, flake) = match request {
                DeploySubmission::Host(host) => (
                    host.source_revision_policy,
                    host.flake_reference@,
                ),
                DeploySubmission::UserEnvironment(user) => (
                    user.source_revision_policy,
                    user.flake_reference@,
                ),
            };
            let routable = is_routable(request, evidence.user_name_admitted);
            match admission_fault(request, evidence) {
                Some(DeployRejectionReason::InvalidDeploymentRouting) => !routable,
                Some(DeployRejectionReason::ProposalSourceUnreachable) => routable
                    && !evidence.proposal_available,
                Some(DeployRejectionReason::FlakeReferenceMalformed) => routable
                    && evidence.proposal_available && !policy_accepts(policy, flake),
                None => routable && evidence.proposal_available && policy_accepts(policy, flake),
                _ => false,
            }
        }),
{
    let destination = asked_route(request).ssh_destination@;
    lemma_first_offset(destination, '@');
    if request is UserEnvironment && is_ssh_destination(destination) {
        let user = request->UserEnvironment_0.user_name@;
        let at = first_offset(destination, '@')->0;
        let login = destination.take(at);
        let host = destination.skip(at + 1);
        assert(destination =~= login + seq!['@'] + host);
        if may_act_for(destination, user) {
            let (other, rest) = choose|other: Seq<char>, rest: Seq<char>|
                destination == #[trigger] (other + seq!['@'] + rest) && !other.contains('@') && (
                other == user || other == "root"@);
            assert(destination[other.len() as int] == '@');
            if at < other.len() {
                assert(other[at] == '@');
                assert(other.contains('@'));
            }
            assert(at == other.len());
            assert(login =~= other);
        }
    }
}

/// The public reason of each refusal is the one it was refused for.
pub open spec fn is_public_reason(
    reason: DeployRejectionReason,
    named: DeploymentTerminalReason,
) -> bool {
    match named {
        DeploymentTerminalReason::ClusterUnknown => reason == DeployRejectionReason::ClusterUnknown,
        DeploymentTerminalReason::NodeUnknown => reason == DeployRejectionReason::NodeUnknown,
        DeploymentTerminalReason::ProposalSourceUnreachable => reason
            == DeployRejectionReason::ProposalSourceUnreachable,
        DeploymentTerminalReason::FlakeReferenceMalformed => reason
            == DeployRejectionReason::FlakeReferenceMalformed,
        DeploymentTerminalReason::InvalidDeploymentRouting => reason
            == DeployRejectionReason::InvalidDeploymentRouting,
        DeploymentTerminalReason::BuilderUnreachable => reason
            == DeployRejectionReason::BuilderUnreachable,
        DeploymentTerminalReason::SubstituterUnreachable => false,
        DeploymentTerminalReason::DeploymentInFlight => reason
            == DeployRejectionReason::DeploymentInFlight,
        DeploymentTerminalReason::UnsupportedDeployAction => reason
            == DeployRejectionReason::UnsupportedDeployAction,
        DeploymentTerminalReason::InternalError => reason == DeployRejectionReason::InternalError,
        DeploymentTerminalReason::ActivationFailed => reason
            == DeployRejectionReason::ActivationFailed,
    }
}

/// A refused request takes identifiers and an event of its own, is on record as
/// rejected for its reason, and leaves nothing to be driven.
pub proof fn law_a_refusal_takes_its_own_identifiers(
    engine: SchemaRuntime,
    after: SchemaRuntime,
    submission: DeploySubmission,
    reason: DeployRejectionReason,
    rejected: RejectedDeploy,
)
    requires
        engine.store@.fits_deployment(),
        engine.refuses(after, submission, reason, rejected),
    ensures
        ({
            let before = engine.store@;
            let store = after.store@;
            let record = rejected.0;
            &&& record.deployment_identifier.0 == before.allocation.next_deployment_identifier
            &&& record.generation_identifier.0 == before.allocation.next_generation_identifier
            &&& record.deployment_lifecycle == DeploymentLifecycle::Rejected
            &&& record.optional_admission_marker is None
            &&& record.optional_terminal_marker matches Some(marker)
                && marker.0.commit_sequence.0 == store.commits
            &&& record.optional_deployment_terminal matches Some(
                DeploymentTerminal::Rejected(named),
            ) && is_public_reason(reason, named)
            &&& store.deployments == before.deployments.push(record)
            &&& is_next_allocation(before, store)
            &&& announces(before, store, record, DeploymentPhase::Rejected)
            &&& store.events.last().logged_event matches LoggedEvent::Deployment(event)
                && event.optional_deployment_terminal == record.optional_deployment_terminal
            &&& store.jobs == before.jobs
            &&& store.live_set == before.live_set
            &&& store.roots == before.roots
            &&& store.runs == before.runs
            &&& store.commits == before.commits + 1
            &&& after.active_deploy == engine.active_deploy
        }),
{
}

/// An admitted request takes identifiers and an event of its own, is on record as
/// submitted, and its job starts with the resolution of its source.
pub proof fn law_an_admission_starts_a_deployment(
    engine: SchemaRuntime,
    submission: DeploySubmission,
    after: SchemaRuntime,
    output: SemaWriteOutput,
)
    requires
        engine.store@.is_consistent(),
        engine.store@.fits_deployment(),
        engine.writes(SemaWriteInput::RecordDeploySubmitted(submission), after, output),
    ensures
        ({
            let before = engine.store@;
            let store = after.store@;
            let record = store.deployments.last();
            let job = store.jobs[first_key(
                job_keys(store.jobs),
                before.allocation.next_deployment_identifier,
            )->0];
            &&& output matches SemaWriteOutput::DeploySubmitted(handle)
                && handle.deployment_identifier == record.deployment_identifier
                && handle.state_marker.commit_sequence.0 == store.commits
            &&& record.deployment_identifier.0 == before.allocation.next_deployment_identifier
            &&& record.generation_identifier.0 == before.allocation.next_generation_identifier
            &&& record.deployment_lifecycle == DeploymentLifecycle::Submitted
            &&& record.optional_admission_marker matches Some(marker)
                && marker.0.commit_sequence.0 == store.commits
            &&& record.optional_terminal_marker is None
            &&& record.optional_deployment_terminal is None
            &&& store.deployments == before.deployments.push(record)
            &&& is_next_allocation(before, store)
            &&& announces(before, store, record, DeploymentPhase::Submitted)
            &&& after.active_deploy matches Some(pipeline) && {
                &&& pipeline.deployment_identifier == record.deployment_identifier
                &&& pipeline.generation_identifier == record.generation_identifier
                &&& pipeline.resume_stage == DeployResumeStage::ResolveFlakeAuth
                &&& pipeline.closure_path is None
                &&& pipeline.source_revision is None
                &&& pipeline.activation_slot is None
                &&& pipeline.stage == DeployStage::Submitted
                &&& pipeline.phase_receipt is None
                &&& pipeline.input_overrides@.len() == 0
                &&& pipeline.flake == pipeline.requested_flake
                &&& pipeline.accepted_marker.commit_sequence.0 == store.commits
                &&& pipeline.submission@ == submission@
            }
            &&& job.deployment_identifier == record.deployment_identifier
            &&& job.generation_identifier == record.generation_identifier
            &&& job.deploy_resume_stage == DeployResumeStage::ResolveFlakeAuth
            &&& job.deploy_job_phase == DeployJobPhase::Submitted
            &&& job.optional_deploy_submission == Some(submission@)
            &&& store.live_set == before.live_set
            &&& store.roots == before.roots
            &&& store.runs == before.runs
            &&& store.commits == before.commits + 1
        }),
{
    let before = engine.store@;
    let key = before.allocation.next_deployment_identifier;
    let keys = job_keys(before.jobs);
    lemma_first_key(keys, key);
    let job = before.admitted_job(after.active_deploy->0.job(DeployJobPhase::Submitted));
    let after_keys = job_keys(after.store@.jobs);
    match first_key(keys, key) {
        Some(at) => {
            assert(keys[at] == before.jobs[at].deployment_identifier.0);
            assert(after_keys =~= keys);
        },
        None => {
            assert(after_keys =~= keys.push(key));
            assert(after_keys[keys.len() as int] == key);
            assert(after_keys.contains(key));
            lemma_first_key(after_keys, key);
            let at = first_key(after_keys, key)->0;
            if at < keys.len() {
                assert(keys[at] == key);
                assert(keys.contains(key));
            }
        },
    }
}

/// One deployment, one generation and one event more have been numbered.
pub open spec fn is_next_allocation(before: StoreView, after: StoreView) -> bool {
    &&& after.allocation.next_deployment_identifier == before.allocation.next_deployment_identifier
        + 1
    &&& after.allocation.next_generation_identifier == before.allocation.next_generation_identifier
        + 1
    &&& after.allocation.next_event_log_position == before.allocation.next_event_log_position + 1
}

/// The one new event is of the deployment of `record`, at the next position, in
/// `phase`, and bears the marker of the commit that it came with.
pub open spec fn announces(
    before: StoreView,
    after: StoreView,
    record: DeploymentRecord,
    phase: DeploymentPhase,
) -> bool {
    &&& after.events == before.events.push(after.events.last())
    &&& after.events.last().event_log_position.0 == before.allocation.next_event_log_position
    &&& after.events.last().logged_event matches LoggedEvent::Deployment(event) && {
        &&& event.deployment_identifier == record.deployment_identifier
        &&& event.generation_identifier == record.generation_identifier
        &&& event.cluster_name == record.deployment_request_identity.cluster_name
        &&& event.node_name == record.deployment_request_identity.node_name
        &&& event.optional_immutable_revision
            == record.deployment_request_identity.optional_immutable_revision
        &&& event.optional_deployment_terminal == record.optional_deployment_terminal
        &&& event.deployment_phase == phase
        &&& event.event_log_position.0 == before.allocation.next_event_log_position
        &&& event.state_marker.commit_sequence.0 == after.commits
    }
}

// ---- subscriptions --------------------------------------------------------------------------

/// Two subscriptions never share a token, and closing one names that one.
pub proof fn law_tokens_tell_subscriptions_apart(
    engine: SchemaRuntime,
    first: OrdinaryIngress,
    middle: SchemaRuntime,
    opened: NexusAction,
    second: OrdinaryIngress,
    after: SchemaRuntime,
    again: NexusAction,
)
    requires
        first is WatchDeployments || first is WatchCacheRetention,
        second is WatchDeployments || second is WatchCacheRetention,
        engine.store@.fits_subscription(),
        engine.follows_ordinary(first, middle, opened),
        middle.follows_ordinary(second, after, again),
    ensures
        opened matches NexusAction::ReplyToSignal(
            SignalOutput::OrdinaryOutput(OrdinaryEgress::Watching(one)),
        ) && again matches NexusAction::ReplyToSignal(
            SignalOutput::OrdinaryOutput(OrdinaryEgress::Watching(other)),
        ) && one.subscription_token.0 < other.subscription_token.0 && one.commit_sequence.0
            == engine.store@.commits && other.commit_sequence.0 == engine.store@.commits,
{
}

/// Closing a subscription is answered with its own token and changes nothing.
pub proof fn law_a_closed_subscription_is_the_asked_one(
    engine: SchemaRuntime,
    input: OrdinaryIngress,
    after: SchemaRuntime,
    action: NexusAction,
)
    requires
        engine.follows_ordinary(input, after, action),
        input is Unwatch,
    ensures
        after == engine,
        action matches NexusAction::ReplyToSignal(
            SignalOutput::OrdinaryOutput(OrdinaryEgress::Unwatched(closed)),
        ) && closed.0 == input->Unwatch_0.0,
{
}

// ---- what a bad route is told ---------------------------------------------------------------

/// A bad route is told by what is wrong with it: the store first, then a destination
/// that is no word, one without a login, and one with more than a login and a host.
pub proof fn law_a_bad_route_is_told_by_its_first_fault(route: runtime_flow::DeploymentTransport)
    ensures
        ({
            let destination = route.ssh_destination@;
            let word = destination.len() > 0 && destination[0] != '-' && is_one_word(destination);
            match route_fault(route) {
                None => is_store_uri(route.nix_store_uri@) && is_ssh_destination(destination),
                Some(text) => if !is_store_uri(route.nix_store_uri@) {
                    text
                        == "deployment nix_store_uri must be a nonempty ssh-ng URI without whitespace or controls"@
                } else if !word {
                    text
                        == "deployment ssh_destination must be a nonempty SSH destination without whitespace or controls"@
                } else if !destination.contains('@') {
                    text == "deployment ssh_destination must contain an explicit login and host"@
                } else {
                    !is_ssh_destination(destination) && text
                        == "deployment ssh_destination must contain exactly one nonempty login and host"@
                },
            }
        }),
{
    let destination = route.ssh_destination@;
    reveal_strlit("-");
    if destination.len() > 0 {
        assert(destination.subrange(0, 1) =~= seq![destination[0]]);
        assert("-"@ =~= seq!['-']);
    }
    lemma_first_offset(destination, '@');
    let word = destination.len() > 0 && destination[0] != '-' && is_one_word(destination);
    assert(is_unspaced(destination) == is_one_word(destination)) by {
        if is_unspaced(destination) {
            assert forall|i: int| 0 <= i < destination.len() implies 32
                < #[trigger] destination[i] as u32 && destination[i] as u32 != 127 by {}
        }
    }
    if destination.len() > 0 {
        assert(starts_with(destination, "-"@) == (destination[0] == '-')) by {
            if destination[0] == '-' {
                assert(destination.subrange(0, 1) =~= "-"@);
            } else {
                assert(destination.subrange(0, 1)[0] != "-"@[0]);
            }
        }
    }
    assert(is_destination_text(destination) == word);
}

/// An activation that cannot be carried out is told by its route first, then by its
/// backend, and by the user's name last.
pub proof fn law_an_impossible_activation_is_told_why(
    command: ActivateGenerationCommand,
    user_name_fault: Option<String>,
)
    ensures
        ({
            let host = command.activation_profile is Host;
            let matched = command.activation_backend == (if host {
                runtime_flow::ActivationBackend::NixosSystemdBootV1
            } else {
                runtime_flow::ActivationBackend::HomeManagerNixProfileV1
            });
            match activation_fault(command, user_name_fault) {
                None => route_fault(command.deployment_transport) is None && matched && (host
                    || user_name_fault is None),
                Some(text) => if route_fault(command.deployment_transport) is Some {
                    text == route_fault(command.deployment_transport)->0
                } else if !matched {
                    text
                        == "activation backend does not support the requested activation profile"@
                } else {
                    !host && user_name_fault is Some && text
                        == "invalid user name for home activation: "@ + user_name_fault->0@
                },
            }
        }),
{
}

} // verus!
