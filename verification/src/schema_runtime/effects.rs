//! The effects of a deployment or a test: the command that each one runs, and
//! what its output means.

use crate::runtime_flow::{
    ActivatedGeneration, ActivateGenerationCommand, ActivationProfile, BringUpTestVmCommand,
    BuildTarget, BuiltClosure, CheckBuilt, CopiedClosure, CopyClosureCommand, DeploymentTransport,
    EffectCommand, EffectFailure, EffectResult, EffectStage, EvaluatedClosure, FlakeAuthRequest,
    FlakeInputOverride, GarbageCollected, HermeticCheckCommand, MaterializedInputs,
    NixBuildCommand, NixEvalCommand, PathInfoGcCommand, ResolvedFlake, TearDownTestVmCommand,
    TestVmBroughtUp, TestVmTornDown,
};
use crate::runtime_model::{ClosurePath, NodeName, SourceRevisionPolicy, SourceRevisionRecord};
use crate::schema_runtime::activation::{Activation, activation_slot, backend_supports, slot_of};
use crate::schema_runtime::engine::SchemaRuntime;
use crate::schema_runtime::flake_metadata::{FlakeMetadataFields, json_read, NixFlakeMetadata};
use crate::schema_runtime::flake_policy::{EvalRefresh, is_pinned};
use crate::schema_runtime::nix_command::{
    count_filled, eval_arguments, first_line, NixCommand, NixCommandView, output_installable,
    substituter_arguments,
};
use crate::schema_runtime::ssh_target::{
    authority_of, ClosureCopy, is_ssh_destination, is_store_uri, login_of, ssh_destination_fault,
    store_uri_fault,
};
use crate::schema_runtime::store_path::{canonical_nix_store_root, is_canonical_store_root};
use crate::schema_runtime::test_runs::{HermeticCheck, LiveTestVm};
use crate::text::{concat, split};
use vstd::prelude::*;

verus! {

/// `result` is the failure of `stage` with `detail`.
pub open spec fn is_failure(result: EffectResult, stage: EffectStage, detail: Seq<char>) -> bool {
    result matches EffectResult::EffectFailed(failure) && failure.effect_stage == stage
        && failure.string@ == detail
}

/// The failure of an effect.
pub fn effect_failed(effect_stage: EffectStage, detail: String) -> (r: EffectResult)
    ensures
        r == EffectResult::EffectFailed(EffectFailure { effect_stage, string: detail }),
{
    EffectResult::EffectFailed(EffectFailure { effect_stage, string: detail })
}

/// What is wrong with a route, the store location first.
pub open spec fn route_fault(route: DeploymentTransport) -> Option<Seq<char>> {
    if !is_store_uri(route.nix_store_uri@) {
        Some(store_uri_fault())
    } else if !is_ssh_destination(route.ssh_destination@) {
        Some(ssh_destination_fault(route.ssh_destination@))
    } else {
        None
    }
}

// ---- resolving the flake --------------------------------------------------------------

/// Reads the metadata of the flake.
pub fn flake_auth_invocation(request: &FlakeAuthRequest) -> (r: NixCommand)
    ensures
        r@ == (NixCommandView {
            program: "nix"@,
            arguments: seq!["flake"@, "metadata"@, "--json"@, request.flake_reference@],
        }),
{
    NixCommand::flake_metadata(request.flake_reference.0.as_str())
}

/// `revision` is what the metadata in `document` says of the requested flake.
pub open spec fn is_resolved_from(
    revision: SourceRevisionRecord,
    document: Map<Seq<Seq<char>>, Seq<char>>,
    request: FlakeAuthRequest,
) -> bool {
    exists|fields: FlakeMetadataFields|
        {
            &&& #[trigger] fields.read_from(document)
            &&& revision.source_revision_policy == request.source_revision_policy
            &&& revision.requested_ref == request.flake_reference
            &&& revision.resolved_ref@ == fields.resolved_text(request.flake_reference@)
            &&& revision.string@ == fields.revision_text()
        }
}

/// What the metadata command's output means.
pub fn flake_auth_result(request: FlakeAuthRequest, output: Result<String, String>) -> (r:
    EffectResult)
    ensures
        reads_output(EffectCommand::ResolveFlakeAuth(request), output, r),
{
    match output {
        Ok(text) => match NixFlakeMetadata::parse(text.as_str()) {
            Ok(metadata) => {
                let fields = metadata.fields();
                let revision = fields.source_revision(
                    request.source_revision_policy,
                    request.flake_reference,
                );
                EffectResult::FlakeResolved(ResolvedFlake(revision))
            },
            Err(detail) => effect_failed(EffectStage::FlakeAuth, detail),
        },
        Err(detail) => effect_failed(EffectStage::FlakeAuth, detail),
    }
}

/// What the materialization came to.
pub fn materialization_result(output: Result<Vec<FlakeInputOverride>, String>) -> (r: EffectResult)
    ensures
        match output {
            Ok(inputs) => r == EffectResult::HorizonMaterialized(MaterializedInputs(inputs)),
            Err(detail) => is_failure(r, EffectStage::MaterializeHorizon, detail@),
        },
{
    match output {
        Ok(inputs) => EffectResult::HorizonMaterialized(MaterializedInputs(inputs)),
        Err(detail) => effect_failed(EffectStage::MaterializeHorizon, detail),
    }
}

// ---- evaluating and building -------------------------------------------------------------

/// How an evaluation treats the evaluation cache.
pub open spec fn refresh_of(policy: SourceRevisionPolicy, flake: Seq<char>) -> EvalRefresh {
    if policy == SourceRevisionPolicy::RequireImmutable && is_pinned(flake) {
        EvalRefresh::TrustImmutablePin
    } else {
        EvalRefresh::ForceRefresh
    }
}

/// Evaluates the selected output to its derivation.
pub fn nix_eval_invocation(command: &NixEvalCommand) -> (r: NixCommand)
    ensures
        r@ == (NixCommandView {
            program: "nix"@,
            arguments: eval_arguments(
                command.flake_reference@ + "#"@ + command.deployment_output_selector@,
                command.flake_input_override_vector@,
                refresh_of(
                    command.source_revision_record.source_revision_policy,
                    command.flake_reference@,
                ),
            ),
        }),
{
    let prefix = concat(command.flake_reference.0.as_str(), "#");
    let attribute = concat(prefix.as_str(), command.deployment_output_selector.0.0.as_str());
    let refresh = EvalRefresh::for_source(
        command.source_revision_record.source_revision_policy,
        command.flake_reference.0.as_str(),
    );
    NixCommand::eval_drv_path(
        attribute.as_str(),
        command.flake_input_override_vector.as_slice(),
        &command.build_target,
        refresh,
    )
}

/// What the evaluation's output means: its first line, where that is a canonical
/// store path. A path that is not is never repeated.
pub fn nix_eval_result(command: NixEvalCommand, output: Result<String, String>) -> (r: EffectResult)
    ensures
        reads_output(EffectCommand::NixEval(command), output, r),
{
    match output {
        Ok(text) => {
            let closure_path = NixCommand::first_line(text.as_str());
            if !canonical_nix_store_root(closure_path.as_str()) {
                return effect_failed(
                    EffectStage::Eval,
                    "nix eval returned a noncanonical closure path".to_string(),
                );
            }
            EffectResult::ClosureEvaluated(
                EvaluatedClosure {
                    generation_identifier: command.generation_identifier,
                    closure_path: ClosurePath(closure_path),
                },
            )
        },
        Err(detail) => effect_failed(EffectStage::Eval, detail),
    }
}

/// The arguments of a build: local, or on the named builders alone.
pub open spec fn build_arguments(command: NixBuildCommand) -> Seq<Seq<char>> {
    let installable = output_installable(command.closure_path@);
    let head = match command.build_target {
        BuildTarget::Local => seq!["build"@, "--no-link"@, "--print-out-paths"@, installable],
        BuildTarget::Remote(builder) => seq![
            "build"@,
            "--no-link"@,
            "--print-out-paths"@,
            "--option"@,
            "max-jobs"@,
            "0"@,
            "--builders"@,
            builder@,
            installable,
        ],
    };
    head + substituter_arguments(command.extra_substituter_vector@)
}

/// Realises the derivation.
pub fn nix_build_invocation(command: &NixBuildCommand) -> (r: NixCommand)
    ensures
        r@ == (NixCommandView { program: "nix"@, arguments: build_arguments(*command) }),
{
    match &command.build_target {
        BuildTarget::Local => NixCommand::build_closure(
            command.closure_path.0.as_str(),
            command.extra_substituter_vector.as_slice(),
        ),
        BuildTarget::Remote(builder_spec) => NixCommand::build_closure_remote(
            command.closure_path.0.as_str(),
            builder_spec.0.as_str(),
            command.extra_substituter_vector.as_slice(),
        ),
    }
}

/// The path that a build printed, or the one it was asked for where it printed none.
pub open spec fn built_path(output: Seq<char>, requested: Seq<char>) -> Seq<char> {
    if first_line(output).len() == 0 {
        requested
    } else {
        first_line(output)
    }
}

/// What the build's output means.
pub fn nix_build_result(command: NixBuildCommand, output: Result<String, String>) -> (r:
    EffectResult)
    ensures
        reads_output(EffectCommand::NixBuild(command), output, r),
{
    match output {
        Ok(text) => {
            let closure_path = NixCommand::first_line_or(
                text.as_str(),
                command.closure_path.0.as_str(),
            );
            if !canonical_nix_store_root(closure_path.as_str()) {
                return effect_failed(
                    EffectStage::Build,
                    "nix build returned a noncanonical closure path".to_string(),
                );
            }
            EffectResult::ClosureBuilt(
                BuiltClosure {
                    generation_identifier: command.generation_identifier,
                    closure_path: ClosurePath(closure_path),
                },
            )
        },
        Err(detail) => effect_failed(EffectStage::Build, detail),
    }
}

// ---- copying and activating ---------------------------------------------------------------

/// Copies the closure to the target; a route that cannot be used fails at once.
pub fn copy_closure_invocation(command: &CopyClosureCommand) -> (r: Result<
    NixCommand,
    EffectResult,
>)
    ensures
        match (r, route_fault(command.deployment_transport)) {
            (Ok(invocation), None) => invocation@ == (NixCommandView {
                program: "nix"@,
                arguments: seq![
                    "copy"@,
                    "--substitute-on-destination"@,
                    "--to"@,
                    command.deployment_transport.nix_store_uri@,
                    command.closure_path@,
                ],
            }),
            (Err(result), Some(detail)) => is_failure(result, EffectStage::CopyClosure, detail),
            _ => false,
        },
{
    match ClosureCopy::from_command(command) {
        Ok(copy) => Ok(copy.invocation()),
        Err(detail) => Err(effect_failed(EffectStage::CopyClosure, detail)),
    }
}

/// What the copy came to.
pub fn copy_closure_result(command: CopyClosureCommand, output: Result<String, String>) -> (r:
    EffectResult)
    ensures
        reads_output(EffectCommand::CopyClosure(command), output, r),
{
    match output {
        Ok(_) => EffectResult::ClosureCopied(
            CopiedClosure {
                generation_identifier: command.generation_identifier,
                node_name: command.node_name,
                closure_path: command.closure_path,
            },
        ),
        Err(detail) => effect_failed(EffectStage::CopyClosure, detail),
    }
}

/// What keeps an activation from being planned.
pub open spec fn activation_fault(
    command: ActivateGenerationCommand,
    user_name_fault: Option<String>,
) -> Option<Seq<char>> {
    match route_fault(command.deployment_transport) {
        Some(detail) => Some(detail),
        None => if !backend_supports(command.activation_backend, command.activation_profile) {
            Some("activation backend does not support the requested activation profile"@)
        } else {
            match (command.activation_profile, user_name_fault) {
                (ActivationProfile::UserEnvironment(_), Some(fault)) => Some(
                    "invalid user name for home activation: "@ + fault@,
                ),
                _ => None,
            }
        },
    }
}

/// `result` is how an activation ends whose commands came to `output`.
pub open spec fn ends_activation(
    command: ActivateGenerationCommand,
    output: Result<(), String>,
    result: EffectResult,
) -> bool {
    match output {
        Ok(_) => result == EffectResult::GenerationActivated(
            ActivatedGeneration {
                generation_identifier: command.generation_identifier,
                node_name: command.node_name,
                generation_slot: slot_of(command.activation_effect),
            },
        ),
        Err(detail) => is_failure(result, EffectStage::Activate, detail@),
    }
}

/// What the activation came to: the slot that the effect takes.
pub fn activation_result(command: ActivateGenerationCommand, output: Result<(), String>) -> (r:
    EffectResult)
    ensures
        ends_activation(command, output, r),
{
    let generation_slot = activation_slot(&command.activation_effect);
    match output {
        Ok(_) => EffectResult::GenerationActivated(
            ActivatedGeneration {
                generation_identifier: command.generation_identifier,
                node_name: command.node_name,
                generation_slot,
            },
        ),
        Err(detail) => effect_failed(EffectStage::Activate, detail),
    }
}

/// What a garbage collection printed: one filled line for each collected path.
pub fn path_info_gc_result(command: PathInfoGcCommand, output: Result<String, String>) -> (r:
    EffectResult)
    ensures
        reads_output(EffectCommand::PathInfoGc(command), output, r),
{
    match output {
        Ok(text) => EffectResult::PathsCollected(
            GarbageCollected {
                cluster_name: command.cluster_name,
                node_name: command.node_name,
                integer: NixCommand::count_lines(text.as_str()),
            },
        ),
        Err(detail) => effect_failed(EffectStage::Gc, detail),
    }
}

// ---- tests ------------------------------------------------------------------------------------

/// What the check's output means: a check passes only by a canonical closure.
pub fn hermetic_check_result(command: HermeticCheckCommand, output: Result<String, String>) -> (r:
    EffectResult)
    ensures
        reads_output(EffectCommand::HermeticCheck(command), output, r),
{
    match output {
        Ok(text) => match HermeticCheck::closure_from(text.as_str()) {
            Ok(closure_path) => EffectResult::HermeticCheckBuilt(
                CheckBuilt {
                    cluster_name: command.cluster_name,
                    node_name: command.node_name,
                    closure_path,
                },
            ),
            Err(detail) => effect_failed(EffectStage::HermeticCheck, detail),
        },
        Err(detail) => effect_failed(EffectStage::HermeticCheck, detail),
    }
}

/// Brings up the machine of a live test. The command is planned, and not run.
pub fn bring_up_test_vm(command: BringUpTestVmCommand) -> (r: EffectResult)
    ensures
        match route_fault(command.deployment_transport) {
            Some(detail) => is_failure(r, EffectStage::BringUpTestVm, detail),
            None => r == EffectResult::TestVmStarted(
                TestVmBroughtUp {
                    cluster_name: command.cluster_name,
                    node: command.node,
                    host: command.host,
                },
            ),
        },
{
    match LiveTestVm::from_bring_up(&command) {
        Ok(_) => EffectResult::TestVmStarted(
            TestVmBroughtUp {
                cluster_name: command.cluster_name,
                node: command.node,
                host: command.host,
            },
        ),
        Err(detail) => effect_failed(EffectStage::BringUpTestVm, detail),
    }
}

/// Tears down the machine of a live test. The command is planned, and not run.
pub fn tear_down_test_vm(command: TearDownTestVmCommand) -> (r: EffectResult)
    ensures
        match route_fault(command.deployment_transport) {
            Some(detail) => is_failure(r, EffectStage::TearDownTestVm, detail),
            None => r == EffectResult::TestVmStopped(
                TestVmTornDown {
                    cluster_name: command.cluster_name,
                    node: command.node,
                    host: command.host,
                },
            ),
        },
{
    match LiveTestVm::from_tear_down(&command) {
        Ok(_) => EffectResult::TestVmStopped(
            TestVmTornDown {
                cluster_name: command.cluster_name,
                node: command.node,
                host: command.host,
            },
        ),
        Err(detail) => effect_failed(EffectStage::TearDownTestVm, detail),
    }
}

// ---- all effects --------------------------------------------------------------------------------

/// What has to happen outside the engine for an effect.
#[derive(Debug, PartialEq, Eq)]
pub enum EffectPlan {
    /// One command is to be run.
    Run(NixCommand),
    /// The steps of an activation are to be run.
    Activate(Activation),
    /// The inputs are to be written.
    Materialize,
    /// Nothing: the effect is over.
    Done(EffectResult),
}

impl SchemaRuntime {
    /// `plan` is what `command` takes.
    pub open spec fn is_plan(
        &self,
        command: EffectCommand,
        user_name_fault: Option<String>,
        plan: EffectPlan,
    ) -> bool {
        match command {
            EffectCommand::ResolveFlakeAuth(request) => plan matches EffectPlan::Run(invocation)
                && invocation@ == (NixCommandView {
                program: "nix"@,
                arguments: seq!["flake"@, "metadata"@, "--json"@, request.flake_reference@],
            }),
            EffectCommand::MaterializeHorizon(_) => plan == EffectPlan::Materialize,
            EffectCommand::NixEval(command) => plan matches EffectPlan::Run(invocation)
                && invocation@ == (NixCommandView {
                program: "nix"@,
                arguments: eval_arguments(
                    command.flake_reference@ + "#"@ + command.deployment_output_selector@,
                    command.flake_input_override_vector@,
                    refresh_of(
                        command.source_revision_record.source_revision_policy,
                        command.flake_reference@,
                    ),
                ),
            }),
            EffectCommand::NixBuild(command) => plan matches EffectPlan::Run(invocation)
                && invocation@ == (NixCommandView {
                program: "nix"@,
                arguments: build_arguments(command),
            }),
            EffectCommand::CopyClosure(command) => match route_fault(
                command.deployment_transport,
            ) {
                None => plan matches EffectPlan::Run(invocation) && invocation@ == (
                NixCommandView {
                    program: "nix"@,
                    arguments: seq![
                        "copy"@,
                        "--substitute-on-destination"@,
                        "--to"@,
                        command.deployment_transport.nix_store_uri@,
                        command.closure_path@,
                    ],
                }),
                Some(detail) => plan matches EffectPlan::Done(result) && is_failure(
                    result,
                    EffectStage::CopyClosure,
                    detail,
                ),
            },
            EffectCommand::ActivateGeneration(command) => match activation_fault(
                command,
                user_name_fault,
            ) {
                None => plan matches EffectPlan::Activate(activation) && is_activation_of(
                    activation,
                    command,
                    self.configuration.daemon_host,
                ),
                Some(detail) => plan matches EffectPlan::Done(result) && is_failure(
                    result,
                    EffectStage::Activate,
                    detail,
                ),
            },
            EffectCommand::PathInfoGc(command) => plan matches EffectPlan::Run(invocation)
                && invocation@ == (NixCommandView {
                program: "ssh"@,
                arguments: seq![command.node_name@, "nix-store --gc"@],
            }),
            EffectCommand::HermeticCheck(command) => plan matches EffectPlan::Run(invocation)
                && invocation@ == (NixCommandView {
                program: "nix"@,
                arguments: seq![
                    "build"@,
                    "--no-link"@,
                    "--print-out-paths"@,
                    (HermeticCheck { command }).installable_text(),
                ],
            }),
            EffectCommand::BringUpTestVm(command) => plan matches EffectPlan::Done(result)
                && match route_fault(command.deployment_transport) {
                Some(detail) => is_failure(result, EffectStage::BringUpTestVm, detail),
                None => result == EffectResult::TestVmStarted(
                    TestVmBroughtUp {
                        cluster_name: command.cluster_name,
                        node: command.node,
                        host: command.host,
                    },
                ),
            },
            EffectCommand::TearDownTestVm(command) => plan matches EffectPlan::Done(result)
                && match route_fault(command.deployment_transport) {
                Some(detail) => is_failure(result, EffectStage::TearDownTestVm, detail),
                None => result == EffectResult::TestVmStopped(
                    TestVmTornDown {
                        cluster_name: command.cluster_name,
                        node: command.node,
                        host: command.host,
                    },
                ),
            },
        }
    }

    /// Plans an effect. `user_name_fault` is what is wrong with the name of the
    /// user that an environment is activated for.
    pub fn plan_effect(&self, command: &EffectCommand, user_name_fault: Option<String>) -> (r:
        EffectPlan)
        ensures
            self.is_plan(*command, user_name_fault, r),
    {
        match command {
            EffectCommand::ResolveFlakeAuth(request) => EffectPlan::Run(
                flake_auth_invocation(request),
            ),
            EffectCommand::MaterializeHorizon(_) => EffectPlan::Materialize,
            EffectCommand::NixEval(command) => EffectPlan::Run(nix_eval_invocation(command)),
            EffectCommand::NixBuild(command) => EffectPlan::Run(nix_build_invocation(command)),
            EffectCommand::CopyClosure(command) => match copy_closure_invocation(command) {
                Ok(invocation) => EffectPlan::Run(invocation),
                Err(result) => EffectPlan::Done(result),
            },
            EffectCommand::ActivateGeneration(command) => {
                let daemon_host: &NodeName = self.configuration.daemon_host();
                match Activation::from_command(command, Some(daemon_host), user_name_fault) {
                    Ok(activation) => EffectPlan::Activate(activation),
                    Err(detail) => EffectPlan::Done(effect_failed(EffectStage::Activate, detail)),
                }
            },
            EffectCommand::PathInfoGc(command) => EffectPlan::Run(
                NixCommand::collect_garbage(command.node_name.0.as_str()),
            ),
            EffectCommand::HermeticCheck(command) => EffectPlan::Run(
                HermeticCheck::new(command.clone()).invocation(),
            ),
            EffectCommand::BringUpTestVm(command) => EffectPlan::Done(
                bring_up_test_vm(command.clone()),
            ),
            EffectCommand::TearDownTestVm(command) => EffectPlan::Done(
                tear_down_test_vm(command.clone()),
            ),
        }
    }
}

/// `activation` is the one that `command` asks for, dispatched from `daemon_host`.
pub open spec fn is_activation_of(
    activation: Activation,
    command: ActivateGenerationCommand,
    daemon_host: NodeName,
) -> bool {
    match (activation, command.activation_profile) {
        (Activation::Host(host), ActivationProfile::Host(action)) => {
            &&& host.deployment_identifier == command.deployment_identifier
            &&& host.target.nix_store_uri == command.deployment_transport.nix_store_uri.0
            &&& host.target.ssh_destination == command.deployment_transport.ssh_destination.0
            &&& host.node_name == command.node_name
            &&& host.daemon_host == Some(daemon_host)
            &&& host.store_path == command.closure_path.0
            &&& host.action == action
        },
        (Activation::UserEnvironment(user), ActivationProfile::UserEnvironment(profile)) => {
            &&& user.node_name == command.node_name
            &&& user.target.nix_store_uri == command.deployment_transport.nix_store_uri.0
            &&& user.target.ssh_destination == command.deployment_transport.ssh_destination.0
            &&& user.authority == authority_of(
                login_of(
                    command.deployment_transport.ssh_destination@,
                ),
                profile.user_name@,
            )
            &&& user.user == profile.user_name.0
            &&& user.store_path == command.closure_path.0
            &&& user.mode == profile.user_environment_action
        },
        _ => false,
    }
}

/// `result` is what the output of the command that an effect ran means.
pub open spec fn reads_output(
    command: EffectCommand,
    output: Result<String, String>,
    result: EffectResult,
) -> bool {
    match command {
        EffectCommand::ResolveFlakeAuth(request) => match output {
                Err(detail) => is_failure(result, EffectStage::FlakeAuth, detail@),
                Ok(text) => match json_read(text@) {
                    Err(fault) => is_failure(
                        result,
                        EffectStage::FlakeAuth,
                        "nix flake metadata returned malformed json: "@ + fault,
                    ),
                    Ok(document) => result matches EffectResult::FlakeResolved(resolved)
                        && is_resolved_from(resolved.0, document, request),
                },
            },
        EffectCommand::NixEval(command) => match output {
                Err(detail) => is_failure(result, EffectStage::Eval, detail@),
                Ok(text) => if is_canonical_store_root(first_line(text@)) {
                    result matches EffectResult::ClosureEvaluated(evaluated)
                        && evaluated.generation_identifier == command.generation_identifier
                        && evaluated.closure_path@ == first_line(text@)
                } else {
                    is_failure(
                        result,
                        EffectStage::Eval,
                        "nix eval returned a noncanonical closure path"@,
                    )
                },
            },
        EffectCommand::NixBuild(command) => match output {
                Err(detail) => is_failure(result, EffectStage::Build, detail@),
                Ok(text) => if is_canonical_store_root(built_path(text@, command.closure_path@)) {
                    result matches EffectResult::ClosureBuilt(built) && built.generation_identifier
                        == command.generation_identifier && built.closure_path@ == built_path(
                        text@,
                        command.closure_path@,
                    )
                } else {
                    is_failure(
                        result,
                        EffectStage::Build,
                        "nix build returned a noncanonical closure path"@,
                    )
                },
            },
        EffectCommand::CopyClosure(command) => match output {
                Ok(_) => result == EffectResult::ClosureCopied(
                    CopiedClosure {
                        generation_identifier: command.generation_identifier,
                        node_name: command.node_name,
                        closure_path: command.closure_path,
                    },
                ),
                Err(detail) => is_failure(result, EffectStage::CopyClosure, detail@),
            },
        EffectCommand::PathInfoGc(command) => match output {
                Ok(text) => result matches EffectResult::PathsCollected(collected) && {
                    &&& collected.cluster_name == command.cluster_name
                    &&& collected.node_name == command.node_name
                    &&& collected.integer == count_filled(split(text@, '\n'))
                },
                Err(detail) => is_failure(result, EffectStage::Gc, detail@),
            },
        EffectCommand::HermeticCheck(command) => match output {
                Err(detail) => is_failure(result, EffectStage::HermeticCheck, detail@),
                Ok(text) => if is_canonical_store_root(first_line(text@)) {
                    result matches EffectResult::HermeticCheckBuilt(built) && {
                        &&& built.cluster_name == command.cluster_name
                        &&& built.node_name == command.node_name
                        &&& built.closure_path@ == first_line(text@)
                    }
                } else {
                    is_failure(
                        result,
                        EffectStage::HermeticCheck,
                        "nix hermetic check returned a noncanonical closure path"@,
                    )
                },
            },
        _ => false,
    }
}

/// What the output of a command that an effect ran means; nothing for the effects
/// that run no single command.
pub fn command_result(command: EffectCommand, output: Result<String, String>) -> (r: Option<
    EffectResult,
>)
    ensures
        r matches Some(result) ==> reads_output(command, output, result),
        r is Some <==> runs_one_command(command),
{
    match command {
        EffectCommand::ResolveFlakeAuth(request) => Some(flake_auth_result(request, output)),
        EffectCommand::NixEval(command) => Some(nix_eval_result(command, output)),
        EffectCommand::NixBuild(command) => Some(nix_build_result(command, output)),
        EffectCommand::CopyClosure(command) => Some(copy_closure_result(command, output)),
        EffectCommand::PathInfoGc(command) => Some(path_info_gc_result(command, output)),
        EffectCommand::HermeticCheck(command) => Some(hermetic_check_result(command, output)),
        _ => None,
    }
}

/// Whether an effect runs one command.
pub open spec fn runs_one_command(command: EffectCommand) -> bool {
    match command {
        EffectCommand::ResolveFlakeAuth(_) | EffectCommand::NixEval(_)
        | EffectCommand::NixBuild(_) | EffectCommand::CopyClosure(_)
        | EffectCommand::PathInfoGc(_) | EffectCommand::HermeticCheck(_) => true,
        _ => false,
    }
}

} // verus!
