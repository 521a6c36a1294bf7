//! What a deployment does is what its request asks: its inputs, its commands, the
//! slot that it takes and the generation that it leaves.

use crate::runtime_flow::{
    ActivateGenerationCommand, BuildTarget, CopyClosureCommand, EffectCommand, EffectResult,
    EffectStage, FlakeInputOverride, MaterializationShape, NexusAction, NixBuildCommand,
    NixEvalCommand, ResolvedFlake,
};
use crate::runtime_model::{
    ActivationBackend, ActivationCommit, ActivationEffect, ClosurePath, DeploymentEnvironment,
    DeploymentInputMode, DeploymentPhase, DeploymentPhaseEvent, DeploymentRequestIdentity,
    DeploymentTransport, DeploySubmission, ExtraSubstituter, GenerationArtifact, GenerationSlot,
    HostComposition, HostDeployAction, LiveGeneration, NixBuilderSpec, PhaseReceipt,
    RequestedDeploymentAction, SemaWriteInput, SemaWriteOutput, SourceRevisionPolicy,
    UserEnvironmentAction,
};
use crate::schema_runtime::activation::Activation;
use crate::schema_runtime::effects::{EffectPlan, ends_activation};
use crate::schema_runtime::engine::SchemaRuntime;
use crate::schema_runtime::flake_policy::{is_full_commit, is_pinned};
use crate::schema_runtime::materialization::{DeploymentInput, generated_inputs, GeneratedInputName};
use crate::schema_runtime::nix_command::{override_arguments, substituter_keys, substituter_urls};
use crate::schema_runtime::pipeline::{DeployPipeline, DeployStage, pinned_revision};
use crate::schema_runtime::sources::law_an_accepted_source_gives_what_its_policy_asks;
use crate::schema_runtime::ssh_target::{is_ssh_destination, is_store_uri};
use crate::schema_runtime::store::{first_key, lemma_first_key, live_keys, root_keys};
use crate::text::joined;
use vstd::prelude::*;

verus! {

// ---- what a request asks for ----------------------------------------------------------------

/// The effect that a request has on its target.
pub open spec fn asked_effect(submission: DeploySubmission, effect: ActivationEffect) -> bool {
    match submission {
        DeploySubmission::Host(host) => match effect {
            ActivationEffect::BootProfile => host.host_deploy_action
                == HostDeployAction::SetBootProfile,
            ActivationEffect::BootOnceProfile => host.host_deploy_action
                == HostDeployAction::ScheduleBootOnce,
            ActivationEffect::TestActivation => host.host_deploy_action
                == HostDeployAction::TestActivation,
            ActivationEffect::LiveActivation => host.host_deploy_action
                == HostDeployAction::ActivateNow || host.host_deploy_action
                == HostDeployAction::Evaluate || host.host_deploy_action
                == HostDeployAction::Realize,
            ActivationEffect::ProfileOnly => false,
        },
        DeploySubmission::UserEnvironment(user) => match effect {
            ActivationEffect::LiveActivation => user.user_environment_action
                == UserEnvironmentAction::ActivateNow,
            ActivationEffect::ProfileOnly => user.user_environment_action
                != UserEnvironmentAction::ActivateNow,
            _ => false,
        },
    }
}

/// The artifact that a request names.
pub open spec fn asked_artifact(submission: DeploySubmission, artifact: GenerationArtifact) -> bool {
    match submission {
        DeploySubmission::Host(host) => match artifact {
            GenerationArtifact::CompleteHost => host.host_composition
                == HostComposition::CompleteHost,
            GenerationArtifact::BaseHost => host.host_composition == HostComposition::BaseHost,
            GenerationArtifact::UserEnvironment => false,
        },
        DeploySubmission::UserEnvironment(_) => artifact == GenerationArtifact::UserEnvironment,
    }
}

/// A deployment and its record stand for the request alike: target, artifact, effect.
pub proof fn law_a_deployment_is_its_request(
    pipeline: DeployPipeline,
    identity: DeploymentRequestIdentity,
    submission: DeploySubmission,
)
    requires
        pipeline.is_for(submission),
        identity.identifies(submission),
    ensures
        asked_effect(submission, pipeline.activation_effect),
        asked_artifact(submission, pipeline.generation_artifact),
        identity.activation_effect == pipeline.activation_effect,
        identity.generation_artifact == pipeline.generation_artifact,
        identity.cluster_name == pipeline.cluster_name,
        identity.node_name == pipeline.node_name,
        identity.deployment_environment == pipeline.environment(),
        identity.source_revision_policy == pipeline.source_revision_policy,
        identity.optional_immutable_revision is Some <==> is_pinned(pipeline.requested_flake@),
        identity.optional_immutable_revision matches Some(named) ==> Some(named@)
            == pinned_revision(pipeline.requested_flake@),
        match submission {
            DeploySubmission::Host(host) => {
                &&& pipeline.deployment_input_mode == host.deployment_input_mode
                &&& pipeline.requested_flake == host.flake_reference
                &&& pipeline.source == host.proposal_source
                &&& identity.cluster_name == host.cluster_name
                &&& identity.node_name == host.node_name
                &&& identity.deployment_environment == DeploymentEnvironment::HostEnvironment
                &&& identity.requested_deployment_action == RequestedDeploymentAction::Host(
                    host.host_deploy_action,
                )
                &&& identity.source_revision_policy == host.source_revision_policy
            },
            DeploySubmission::UserEnvironment(user) => {
                &&& pipeline.deployment_input_mode == user.deployment_input_mode
                &&& pipeline.requested_flake == user.flake_reference
                &&& pipeline.source == user.proposal_source
                &&& identity.cluster_name == user.cluster_name
                &&& identity.node_name == user.node_name
                &&& identity.deployment_environment == DeploymentEnvironment::UserEnvironment(
                    user.user_name,
                )
                &&& identity.requested_deployment_action
                    == RequestedDeploymentAction::UserEnvironment(user.user_environment_action)
                &&& identity.source_revision_policy == user.source_revision_policy
            },
        },
{
    if is_pinned(pipeline.requested_flake@) {
        law_an_accepted_source_gives_what_its_policy_asks(
            SourceRevisionPolicy::RequireImmutable,
            pipeline.requested_flake@,
        );
    }
}

/// How far a deployment goes: an evaluation ends with the closure's name, a
/// realisation with the built closure, and anything else with the target changed.
pub proof fn law_a_deployment_goes_as_far_as_asked(
    pipeline: DeployPipeline,
    submission: DeploySubmission,
)
    requires
        pipeline.is_for(submission),
    ensures
        ({
            let (builds, changes) = match submission {
                DeploySubmission::Host(host) => match host.host_deploy_action {
                    HostDeployAction::Evaluate => (false, false),
                    HostDeployAction::Realize => (true, false),
                    HostDeployAction::SetBootProfile => (true, true),
                    HostDeployAction::ActivateNow => (true, true),
                    HostDeployAction::TestActivation => (true, true),
                    HostDeployAction::ScheduleBootOnce => (true, true),
                },
                DeploySubmission::UserEnvironment(user) => match user.user_environment_action {
                    UserEnvironmentAction::Realize => (true, false),
                    UserEnvironmentAction::SetProfile => (true, true),
                    UserEnvironmentAction::ActivateNow => (true, true),
                },
            };
            &&& pipeline.action.realises() == builds
            &&& pipeline.action.takes_effect() == changes
        }),
{
}

// ---- inputs ---------------------------------------------------------------------------------

/// The inputs of a deployment are written for the composition that was asked for: a
/// complete host, and no other, includes home and all firmware, a base host has an
/// input that includes neither, and a user environment has none, but is made for its
/// user.
pub proof fn law_inputs_are_written_for_the_composition(
    engine: SchemaRuntime,
    submission: DeploySubmission,
    resolved: ResolvedFlake,
    after: SchemaRuntime,
    action: NexusAction,
)
    requires
        engine.active_deploy matches Some(pipeline) && pipeline.is_for(submission)
            && pipeline.deployment_input_mode == DeploymentInputMode::Horizon,
        is_full_commit(resolved.0.string@),
        engine.follows_effect(EffectResult::FlakeResolved(resolved), after, action),
    ensures
        action matches NexusAction::CommandEffect(EffectCommand::MaterializeHorizon(command)) && {
            let shape = command.materialization_shape;
            match submission {
                DeploySubmission::Host(host) => {
                    &&& shape == MaterializationShape::CompleteHost <==> host.host_composition
                        == HostComposition::CompleteHost
                    &&& shape == MaterializationShape::BaseHost <==> host.host_composition
                        == HostComposition::BaseHost
                    &&& DeploymentInput::of_shape(shape) matches Some(input) && {
                        &&& input.include_home <==> host.host_composition
                            == HostComposition::CompleteHost
                        &&& input.include_all_firmware <==> host.host_composition
                            == HostComposition::CompleteHost
                    }
                    &&& generated_inputs(shape).contains(GeneratedInputName::Deployment)
                    &&& command.cluster_name == host.cluster_name
                    &&& command.node_name == host.node_name
                    &&& command.proposal_source == host.proposal_source
                },
                DeploySubmission::UserEnvironment(user) => {
                    &&& shape matches MaterializationShape::UserEnvironment(made) && made.0
                        == user.user_name
                    &&& DeploymentInput::of_shape(shape) is None
                    &&& !generated_inputs(shape).contains(GeneratedInputName::Deployment)
                    &&& command.cluster_name == user.cluster_name
                    &&& command.node_name == user.node_name
                    &&& command.proposal_source == user.proposal_source
                },
            }
        },
{
    let shape = engine.active_deploy->0.shape();
    if submission is Host {
        assert(generated_inputs(shape)[2] == GeneratedInputName::Deployment);
    }
}

/// Every shape has its horizon, its system and its secrets written.
pub proof fn law_every_shape_has_its_common_inputs(shape: MaterializationShape)
    ensures
        generated_inputs(shape).contains(GeneratedInputName::Horizon),
        generated_inputs(shape).contains(GeneratedInputName::System),
        generated_inputs(shape).contains(GeneratedInputName::Secrets),
        generated_inputs(shape).no_duplicates(),
        generated_inputs(shape).contains(GeneratedInputName::Deployment)
            == DeploymentInput::of_shape(shape) is Some,
{
    let names = generated_inputs(shape);
    assert(names[0] == GeneratedInputName::Horizon);
    assert(names[1] == GeneratedInputName::System);
    assert(names.last() == GeneratedInputName::Secrets);
    if DeploymentInput::of_shape(shape) is Some {
        assert(names[2] == GeneratedInputName::Deployment);
    }
}

// ---- slots ----------------------------------------------------------------------------------

/// A generation is current only once it is live or its profile is set; one that is to
/// boot later is pending, and one that is only tested is merely recent. A failed
/// activation takes no slot.
pub proof fn law_a_slot_says_what_took_effect(
    command: ActivateGenerationCommand,
    output: Result<(), String>,
    result: EffectResult,
)
    requires
        ends_activation(command, output, result),
    ensures
        result is GenerationActivated <==> output is Ok,
        result matches EffectResult::GenerationActivated(activated) ==> {
            let effect = command.activation_effect;
            &&& activated.generation_identifier == command.generation_identifier
            &&& activated.node_name == command.node_name
            &&& activated.generation_slot == GenerationSlot::Current <==> effect
                == ActivationEffect::LiveActivation || effect == ActivationEffect::ProfileOnly
            &&& activated.generation_slot == GenerationSlot::BootPending <==> effect
                == ActivationEffect::BootProfile || effect == ActivationEffect::BootOnceProfile
            &&& activated.generation_slot == GenerationSlot::Recent <==> effect
                == ActivationEffect::TestActivation
        },
        output matches Err(detail) ==> (result matches EffectResult::EffectFailed(failure)
            && failure.effect_stage == EffectStage::Activate && failure.string@ == detail@),
{
}

/// The slot that a request asks for.
pub open spec fn asked_slot(submission: DeploySubmission, slot: GenerationSlot) -> bool {
    match submission {
        DeploySubmission::Host(host) => match host.host_deploy_action {
            HostDeployAction::ActivateNow => slot == GenerationSlot::Current,
            HostDeployAction::SetBootProfile => slot == GenerationSlot::BootPending,
            HostDeployAction::ScheduleBootOnce => slot == GenerationSlot::BootPending,
            HostDeployAction::TestActivation => slot == GenerationSlot::Recent,
            HostDeployAction::Evaluate | HostDeployAction::Realize => true,
        },
        DeploySubmission::UserEnvironment(_) => slot == GenerationSlot::Current,
    }
}

/// From the activation of a deployment to its live generation: the row and the root
/// that are left are for the target, the artifact and the closure of the deployment,
/// in the slot that its request asks for.
pub proof fn law_a_live_generation_is_what_was_asked(
    pipeline: DeployPipeline,
    submission: DeploySubmission,
    command: ActivateGenerationCommand,
    closure_path: ClosurePath,
    result: EffectResult,
    engine: SchemaRuntime,
    decided: SchemaRuntime,
    event: DeploymentPhaseEvent,
    announced: SchemaRuntime,
    receipt: PhaseReceipt,
    advanced: SchemaRuntime,
    commit: ActivationCommit,
    after: SchemaRuntime,
    output: SemaWriteOutput,
)
    requires
        pipeline.is_for(submission),
        pipeline.source_revision is Some,
        pipeline.closure_path == Some(closure_path),
        pipeline.stage == DeployStage::CopyingRecorded,
        pipeline.is_activation(command, closure_path),
        ends_activation(command, Ok(()), result),
        engine.active_deploy == Some(pipeline),
        engine.follows_effect(
            result,
            decided,
            NexusAction::CommandSemaWrite(SemaWriteInput::RecordPhaseTransition(event)),
        ),
        decided.writes(
            SemaWriteInput::RecordPhaseTransition(event),
            announced,
            SemaWriteOutput::PhaseRecorded(receipt),
        ),
        announced.follows_write(
            SemaWriteOutput::PhaseRecorded(receipt),
            advanced,
            NexusAction::CommandSemaWrite(SemaWriteInput::RecordGenerationActivated(commit)),
        ),
        advanced.writes(SemaWriteInput::RecordGenerationActivated(commit), after, output),
    ensures
        event.deployment_phase == DeploymentPhase::Activated,
        exists|i: int|
            0 <= i < after.store@.live_set.len() && {
                let row = #[trigger] after.store@.live_set[i];
                &&& row.generation_identifier == pipeline.generation_identifier
                &&& row.deployment_identifier == pipeline.deployment_identifier
                &&& row.cluster_name == pipeline.cluster_name
                &&& row.node_name == pipeline.node_name
                &&& row.closure_path == closure_path
                &&& Some(row.source_revision_record) == pipeline.source_revision
                &&& asked_artifact(submission, row.generation_artifact)
                &&& asked_effect(submission, row.activation_effect)
                &&& asked_slot(submission, row.generation_slot)
                &&& match submission {
                    DeploySubmission::Host(_) => row.deployment_environment
                        == DeploymentEnvironment::HostEnvironment,
                    DeploySubmission::UserEnvironment(user) => row.deployment_environment
                        == DeploymentEnvironment::UserEnvironment(user.user_name),
                }
            },
        exists|i: int|
            0 <= i < after.store@.roots.len() && {
                let root = #[trigger] after.store@.roots[i];
                &&& root.generation_identifier == pipeline.generation_identifier
                &&& root.cluster_name == pipeline.cluster_name
                &&& root.node_name == pipeline.node_name
                &&& root.closure_path == closure_path
                &&& root.optional_pin_label is None
                &&& asked_slot(submission, root.generation_slot)
            },
        forall|row: LiveGeneration|
            row.generation_identifier != pipeline.generation_identifier
                && advanced.store@.live_set.contains(row) ==> #[trigger]
                after.store@.live_set.contains(row),
        output matches SemaWriteOutput::GenerationActivated(applied) && applied.generation_identifier
            == pipeline.generation_identifier && asked_slot(submission, applied.generation_slot),
{
    let store = advanced.store@;
    let generation = commit.generation_identifier.0;
    let keys = live_keys(store.live_set);
    lemma_first_key(keys, generation);
    let roots = root_keys(store.roots);
    lemma_first_key(roots, generation);
    match first_key(keys, generation) {
        Some(at) => assert(after.store@.live_set[at] == advanced.activated_generation(commit)),
        None => assert(after.store@.live_set[store.live_set.len() as int]
            == advanced.activated_generation(commit)),
    }
    match first_key(roots, generation) {
        Some(at) => assert(after.store@.roots[at] == advanced.activated_root(commit)),
        None => assert(after.store@.roots[store.roots.len() as int] == advanced.activated_root(
            commit,
        )),
    }
    assert forall|row: LiveGeneration|
        row.generation_identifier != pipeline.generation_identifier
            && store.live_set.contains(row) implies #[trigger] after.store@.live_set.contains(
        row,
    ) by {
        let i = choose|i: int| 0 <= i < store.live_set.len() && store.live_set[i] == row;
        assert(keys[i] == row.generation_identifier.0);
        assert(after.store@.live_set[i] == row);
    }
}

// ---- commands -------------------------------------------------------------------------------

/// What a request carries to the commands of its deployment.
pub open spec fn asked_route(submission: DeploySubmission) -> DeploymentTransport {
    match submission {
        DeploySubmission::Host(host) => host.deployment_transport,
        DeploySubmission::UserEnvironment(user) => user.deployment_transport,
    }
}

/// The output of its flake that a request selects.
pub open spec fn asked_output(submission: DeploySubmission) -> Seq<char> {
    match submission {
        DeploySubmission::Host(host) => host.deployment_output_selector@,
        DeploySubmission::UserEnvironment(user) => user.deployment_output_selector@,
    }
}

/// The builder that a request names, if it names one.
pub open spec fn asked_builder(submission: DeploySubmission) -> Option<NixBuilderSpec> {
    match submission {
        DeploySubmission::Host(host) => host.optional_nix_builder_spec,
        DeploySubmission::UserEnvironment(user) => user.optional_nix_builder_spec,
    }
}

/// The caches that a request adds.
pub open spec fn asked_caches(submission: DeploySubmission) -> Seq<ExtraSubstituter> {
    match submission {
        DeploySubmission::Host(host) => host.extra_substituter_vector@,
        DeploySubmission::UserEnvironment(user) => user.extra_substituter_vector@,
    }
}

/// A source is resolved before anything else, and the request's own words are what is
/// resolved.
pub proof fn law_the_asked_source_is_resolved_first(
    engine: SchemaRuntime,
    submission: DeploySubmission,
    after: SchemaRuntime,
    accepted: SemaWriteOutput,
    later: SchemaRuntime,
    action: NexusAction,
)
    requires
        engine.writes(SemaWriteInput::RecordDeploySubmitted(submission), after, accepted),
        after.follows_write(accepted, later, action),
    ensures
        action matches NexusAction::CommandEffect(EffectCommand::ResolveFlakeAuth(request)) && {
            &&& match submission {
                DeploySubmission::Host(host) => {
                    &&& request.flake_reference == host.flake_reference
                    &&& request.proposal_source == host.proposal_source
                    &&& request.source_revision_policy == host.source_revision_policy
                },
                DeploySubmission::UserEnvironment(user) => {
                    &&& request.flake_reference == user.flake_reference
                    &&& request.proposal_source == user.proposal_source
                    &&& request.source_revision_policy == user.source_revision_policy
                },
            }
            &&& forall|fault: Option<String>, plan: EffectPlan| #[trigger]
                later.is_plan(EffectCommand::ResolveFlakeAuth(request), fault, plan) ==> (
                plan matches EffectPlan::Run(invocation) && invocation@.program == "nix"@
                    && invocation@.arguments == seq![
                    "flake"@,
                    "metadata"@,
                    "--json"@,
                    request.flake_reference@,
                ])
        },
{
}

/// A resolved source is kept with the deployment. It is what is evaluated from then on
/// where the request asks to resolve and record; a pinned source is evaluated as it
/// was written.
pub proof fn law_a_resolved_source_is_kept(
    engine: SchemaRuntime,
    resolved: ResolvedFlake,
    after: SchemaRuntime,
    action: NexusAction,
)
    requires
        engine.active_deploy is Some,
        engine.follows_effect(EffectResult::FlakeResolved(resolved), after, action),
    ensures
        is_full_commit(resolved.0.string@) ==> (after.active_deploy matches Some(pipeline) && {
            let before = engine.active_deploy->0;
            &&& pipeline.source_revision == Some(resolved.0)
            &&& before.source_revision_policy == SourceRevisionPolicy::ResolveAndRecord
                ==> pipeline.flake == resolved.0.resolved_ref
            &&& before.source_revision_policy == SourceRevisionPolicy::RequireImmutable
                ==> pipeline.flake == before.flake
            &&& pipeline.requested_flake == before.requested_flake
            &&& pipeline.generation_identifier == before.generation_identifier
            &&& pipeline.deployment_identifier == before.deployment_identifier
        }),
        !is_full_commit(resolved.0.string@) ==> after.active_deploy is None,
{
}

/// Whether `arguments` holds the override of `value` from `at` on.
pub open spec fn overrides_at(
    arguments: Seq<Seq<char>>,
    at: int,
    value: FlakeInputOverride,
) -> bool {
    &&& 0 <= at && at + 2 < arguments.len()
    &&& arguments[at] == "--override-input"@
    &&& arguments[at + 1] == value.string@
    &&& arguments[at + 2] == value.flake_input_reference.url@ + "?narHash="@
        + value.flake_input_reference.nix_archive_hash@
}

/// An evaluation asks for the derivation of the selected output of the deployment's
/// flake, with every materialised input in place of the flake's own, in order, and
/// afresh unless the source is pinned for good.
pub proof fn law_an_evaluation_is_of_the_asked_output(
    engine: SchemaRuntime,
    pipeline: DeployPipeline,
    submission: DeploySubmission,
    command: NixEvalCommand,
    fault: Option<String>,
    plan: EffectPlan,
)
    requires
        pipeline.is_for(submission),
        pipeline.is_eval(command),
        pipeline.source_revision matches Some(revision) ==> revision.source_revision_policy
            == pipeline.source_revision_policy,
        engine.is_plan(EffectCommand::NixEval(command), fault, plan),
    ensures
        command.generation_identifier == pipeline.generation_identifier,
        command.cluster_name == pipeline.cluster_name,
        command.node_name == pipeline.node_name,
        command.generation_artifact == pipeline.generation_artifact,
        command.build_target is Remote <==> asked_builder(submission) is Some,
        command.build_target matches BuildTarget::Remote(builder) ==> builder@
            == asked_builder(submission)->0@,
        pipeline.source_revision is None ==> {
            &&& command.source_revision_record.requested_ref == pipeline.requested_flake
            &&& command.source_revision_record.resolved_ref == pipeline.flake
            &&& command.source_revision_record.string@.len() == 0
        },
        pipeline.source_revision matches Some(revision) ==> command.source_revision_record
            == revision,
        plan matches EffectPlan::Run(invocation) && {
            let arguments = invocation@.arguments;
            let fresh = !(pipeline.source_revision_policy == SourceRevisionPolicy::RequireImmutable
                && is_pinned(pipeline.flake@));
            let head: int = if fresh {
                3
            } else {
                2
            };
            &&& invocation@.program == "nix"@
            &&& arguments.len() == head + 3 * pipeline.input_overrides@.len() + 1
            &&& arguments[0] == "eval"@
            &&& fresh ==> arguments[1] == "--refresh"@
            &&& arguments[head - 1] == "--raw"@
            &&& forall|k: int|
                0 <= k < pipeline.input_overrides@.len() ==> overrides_at(
                    arguments,
                    head + 3 * k,
                    #[trigger] pipeline.input_overrides@[k],
                )
            &&& arguments.last() == pipeline.flake@ + "#"@ + asked_output(submission)
                + ".drvPath"@
        },
{
    lemma_overrides(pipeline.input_overrides@);
    let arguments = plan->Run_0@.arguments;
    let overrides = override_arguments(pipeline.input_overrides@);
    let fresh = !(pipeline.source_revision_policy == SourceRevisionPolicy::RequireImmutable
        && is_pinned(pipeline.flake@));
    let head: int = if fresh {
        3
    } else {
        2
    };
    assert forall|k: int| 0 <= k < pipeline.input_overrides@.len() implies overrides_at(
        arguments,
        head + 3 * k,
        #[trigger] pipeline.input_overrides@[k],
    ) by {
        assert(overrides_at(overrides, 3 * k, pipeline.input_overrides@[k]));
        assert(arguments[head + 3 * k] == overrides[3 * k]);
        assert(arguments[head + 3 * k + 1] == overrides[3 * k + 1]);
        assert(arguments[head + 3 * k + 2] == overrides[3 * k + 2]);
    }
}

proof fn lemma_overrides(values: Seq<FlakeInputOverride>)
    ensures
        override_arguments(values).len() == 3 * values.len(),
        forall|k: int|
            0 <= k < values.len() ==> overrides_at(
                override_arguments(values),
                3 * k,
                #[trigger] values[k],
            ),
    decreases values.len(),
{
    if values.len() > 0 {
        let rest = values.drop_last();
        lemma_overrides(rest);
        assert forall|k: int| 0 <= k < values.len() implies overrides_at(
            override_arguments(values),
            3 * k,
            #[trigger] values[k],
        ) by {
            if k < rest.len() {
                assert(values[k] == rest[k]);
                assert(overrides_at(override_arguments(rest), 3 * k, rest[k]));
            }
        }
    }
}

/// A build is of the evaluated closure, on the builder that was asked for or on this
/// machine, with the caches that were asked for.
pub proof fn law_a_build_is_where_it_was_asked(
    engine: SchemaRuntime,
    pipeline: DeployPipeline,
    submission: DeploySubmission,
    command: NixBuildCommand,
    closure_path: ClosurePath,
    fault: Option<String>,
    plan: EffectPlan,
)
    requires
        pipeline.is_for(submission),
        pipeline.is_build(command, closure_path),
        engine.is_plan(EffectCommand::NixBuild(command), fault, plan),
    ensures
        command.generation_identifier == pipeline.generation_identifier,
        plan matches EffectPlan::Run(invocation) && {
            let arguments = invocation@.arguments;
            let caches = asked_caches(submission);
            let at: int = if asked_builder(submission) is Some {
                8
            } else {
                3
            };
            &&& invocation@.program == "nix"@
            &&& arguments.len() == at + 1 + (if caches.len() == 0 {
                0int
            } else {
                6
            })
            &&& arguments[0] == "build"@
            &&& arguments[1] == "--no-link"@
            &&& arguments[2] == "--print-out-paths"@
            &&& asked_builder(submission) matches Some(builder) ==> {
                &&& arguments[3] == "--option"@
                &&& arguments[4] == "max-jobs"@
                &&& arguments[5] == "0"@
                &&& arguments[6] == "--builders"@
                &&& arguments[7] == builder@
            }
            &&& arguments[at] == closure_path@ + "^*"@
            &&& caches.len() > 0 ==> {
                &&& arguments[at + 1] == "--option"@
                &&& arguments[at + 2] == "extra-substituters"@
                &&& arguments[at + 3] == joined(
                    caches.map_values(|cache: ExtraSubstituter| cache.url@),
                    " "@,
                )
                &&& arguments[at + 4] == "--option"@
                &&& arguments[at + 5] == "extra-trusted-public-keys"@
                &&& arguments[at + 6] == joined(
                    caches.map_values(|cache: ExtraSubstituter| cache.public_key@),
                    " "@,
                )
            }
        },
{
    let caches = asked_caches(submission);
    assert(substituter_urls(pipeline.substituters@) =~= caches.map_values(
        |cache: ExtraSubstituter| cache.url@,
    ));
    assert(substituter_keys(pipeline.substituters@) =~= caches.map_values(
        |cache: ExtraSubstituter| cache.public_key@,
    ));
}

/// A closure is copied to the store that was asked for, if the route is one at all.
pub proof fn law_a_copy_goes_to_the_asked_store(
    engine: SchemaRuntime,
    pipeline: DeployPipeline,
    submission: DeploySubmission,
    command: CopyClosureCommand,
    closure_path: ClosurePath,
    fault: Option<String>,
    plan: EffectPlan,
)
    requires
        pipeline.is_for(submission),
        pipeline.is_copy(command, closure_path),
        engine.is_plan(EffectCommand::CopyClosure(command), fault, plan),
    ensures
        command.generation_identifier == pipeline.generation_identifier,
        command.node_name == pipeline.node_name,
        is_store_uri(asked_route(submission).nix_store_uri@) && is_ssh_destination(
            asked_route(submission).ssh_destination@,
        ) ==> (plan matches EffectPlan::Run(invocation) && invocation@.program == "nix"@
            && invocation@.arguments == seq![
            "copy"@,
            "--substitute-on-destination"@,
            "--to"@,
            asked_route(submission).nix_store_uri@,
            closure_path@,
        ]),
        !(is_store_uri(asked_route(submission).nix_store_uri@) && is_ssh_destination(
            asked_route(submission).ssh_destination@,
        )) ==> (plan matches EffectPlan::Done(EffectResult::EffectFailed(failure))
            && failure.effect_stage == EffectStage::CopyClosure),
{
}

/// An activation is of the built closure, at the asked destination, by the asked
/// backend and in the asked way.
pub proof fn law_an_activation_is_what_was_asked(
    engine: SchemaRuntime,
    pipeline: DeployPipeline,
    submission: DeploySubmission,
    command: ActivateGenerationCommand,
    closure_path: ClosurePath,
    fault: Option<String>,
    plan: EffectPlan,
)
    requires
        pipeline.is_for(submission),
        pipeline.is_activation(command, closure_path),
        engine.is_plan(EffectCommand::ActivateGeneration(command), fault, plan),
    ensures
        command.generation_identifier == pipeline.generation_identifier,
        command.cluster_name == pipeline.cluster_name,
        asked_effect(submission, command.activation_effect),
        ({
            let route = asked_route(submission);
            let routed = is_store_uri(route.nix_store_uri@) && is_ssh_destination(
                route.ssh_destination@,
            );
            match submission {
                DeploySubmission::Host(host) => if routed && host.activation_backend
                    == ActivationBackend::NixosSystemdBootV1 {
                    plan matches EffectPlan::Activate(Activation::Host(activation)) && {
                        &&& activation.action == host.host_deploy_action
                        &&& activation.node_name == host.node_name
                        &&& activation.daemon_host == Some(engine.configuration.daemon_host)
                        &&& activation.store_path == closure_path.0
                        &&& activation.target.ssh_destination == route.ssh_destination.0
                        &&& activation.deployment_identifier == pipeline.deployment_identifier
                    }
                } else {
                    plan matches EffectPlan::Done(EffectResult::EffectFailed(failure))
                        && failure.effect_stage == EffectStage::Activate
                },
                DeploySubmission::UserEnvironment(user) => if routed && user.activation_backend
                    == ActivationBackend::HomeManagerNixProfileV1 && fault is None {
                    plan matches EffectPlan::Activate(Activation::UserEnvironment(activation)) && {
                        &&& activation.user == user.user_name.0
                        &&& activation.node_name == user.node_name
                        &&& activation.store_path == closure_path.0
                        &&& activation.target.ssh_destination == route.ssh_destination.0
                        &&& activation.mode == user.user_environment_action
                    }
                } else {
                    plan matches EffectPlan::Done(EffectResult::EffectFailed(failure))
                        && failure.effect_stage == EffectStage::Activate
                },
            }
        }),
{
}

} // verus!
