//! The deploy engine: admission, the deploy pipeline, durable state and restart.

use lojix::error::Error;
use lojix::runtime_flow as flow;
use lojix::runtime_model as model;
use lojix::schema_runtime::decisions::DeploySubmissionOutcome;
use lojix::schema_runtime::effects::{hermetic_check_result, nix_build_result, nix_eval_result};
use lojix::schema_runtime::engine::SchemaRuntime;
use lojix::schema_runtime::materialization::{
    secrets_flake, ClusterSecretFile, ClusterSecretsDirectory, DeploymentInput, PathKind,
    ProposalFile,
};
use lojix::schema_runtime::meta::DeployRejectionReason;
use lojix::schema_runtime::pipeline::{DeployJobResumption, DeployPipeline, DeployStage};
use lojix::schema_runtime::requests::{
    admission_rejection, deployment_routing_rejection, source_revision_policy_rejection,
    unsupported_deploy_reason, AdmissionEvidence,
};
use lojix::schema_runtime::store::marker;

const STORE: &str = "/nix/store/aaaaaaaaaaaaaaaaaaaaaaaaaaaaaaaa-toplevel";

const ADMITTED: AdmissionEvidence =
    AdmissionEvidence { proposal_available: true, user_name_admitted: true };

fn engine() -> SchemaRuntime {
    SchemaRuntime::new("/tmp")
}

fn fixture_transport() -> model::DeploymentTransport {
    model::DeploymentTransport {
        nix_store_uri: model::NixStoreUri::new("ssh-ng://fixture-copy.invalid".to_string()),
        ssh_destination: model::SshDestination::new(
            "fixture-login@fixture-activate.invalid".to_string(),
        ),
    }
}

fn fixture_output_selector() -> model::DeploymentOutputSelector {
    model::DeploymentOutputSelector::new(model::FlakeAttribute::new("checks.fixture-a".to_string()))
}

fn host_deployment(
    action: model::HostDeployAction,
    policy: model::SourceRevisionPolicy,
    flake: &str,
) -> model::HostDeployment {
    model::HostDeployment {
        cluster_name: cluster(),
        node_name: node(),
        host_composition: model::HostComposition::BaseHost,
        proposal_source: model::ProposalSource::new("/dev/null".to_string()),
        secrets_input: model::SecretsInput::NoSecrets,
        flake_reference: model::FlakeReference::new(flake.to_string()),
        deployment_transport: fixture_transport(),
        deployment_input_mode: model::DeploymentInputMode::Direct,
        deployment_output_selector: fixture_output_selector(),
        activation_backend: model::ActivationBackend::NixosSystemdBootV1,
        host_deploy_action: action,
        source_revision_policy: policy,
        optional_nix_builder_spec: None,
        extra_substituter_vector: Vec::new(),
    }
}

fn host_submission(action: model::HostDeployAction) -> model::DeploySubmission {
    model::DeploySubmission::Host(host_deployment(
        action,
        model::SourceRevisionPolicy::ResolveAndRecord,
        "github:owner/repo",
    ))
}

fn host_pipeline(action: model::HostDeployAction) -> DeployPipeline {
    DeployPipeline::from_submission(
        model::DeploymentIdentifier::new(1),
        model::GenerationIdentifier::new(1),
        marker(0),
        host_submission(action),
    )
}

fn user_submission() -> model::DeploySubmission {
    model::DeploySubmission::UserEnvironment(model::UserEnvironmentDeployment {
        cluster_name: model::ClusterName::new("fixture-cluster".to_string()),
        node_name: model::NodeName::new("fixture-daemon".to_string()),
        user_name: model::UserName::new("fixture-user".to_string()),
        proposal_source: model::ProposalSource::new("/dev/null".to_string()),
        secrets_input: model::SecretsInput::NoSecrets,
        flake_reference: model::FlakeReference::new("github:owner/repo".to_string()),
        deployment_transport: fixture_transport(),
        deployment_input_mode: model::DeploymentInputMode::Direct,
        deployment_output_selector: fixture_output_selector(),
        activation_backend: model::ActivationBackend::HomeManagerNixProfileV1,
        user_environment_action: model::UserEnvironmentAction::ActivateNow,
        source_revision_policy: model::SourceRevisionPolicy::ResolveAndRecord,
        optional_nix_builder_spec: None,
        extra_substituter_vector: Vec::new(),
    })
}

fn source_revision(policy: model::SourceRevisionPolicy) -> model::SourceRevisionRecord {
    model::SourceRevisionRecord {
        source_revision_policy: policy,
        requested_ref: model::FlakeReference::new("github:owner/repo/main".to_string()),
        resolved_ref: model::FlakeReference::new(
            "github:owner/repo?rev=aaaaaaaaaaaaaaaaaaaaaaaaaaaaaaaaaaaaaaaa".to_string(),
        ),
        string: "aaaaaaaaaaaaaaaaaaaaaaaaaaaaaaaaaaaaaaaa".to_string(),
    }
}

fn resolved_flake(policy: model::SourceRevisionPolicy) -> flow::ResolvedFlake {
    flow::ResolvedFlake::new(source_revision(policy))
}

fn cluster() -> model::ClusterName {
    model::ClusterName::new("alpha".to_string())
}

fn node() -> model::NodeName {
    model::NodeName::new("node-1".to_string())
}

fn fixture_test_profile() -> flow::TestExecutionProfile {
    flow::TestExecutionProfile {
        test_mode: model::TestMode::Hermetic,
        nix_system: flow::NixSystem::new("x86_64-linux".to_string()),
        deployment_output_selector: flow::DeploymentOutputSelector::new(flow::FlakeAttribute::new(
            "checks.fixture-a".to_string(),
        )),
        optional_deployment_transport: None,
    }
}

fn submitted(engine: &mut SchemaRuntime, action: model::HostDeployAction) -> model::DeployHandle {
    match engine.record_deploy_submitted(host_submission(action)) {
        model::SemaWriteOutput::DeploySubmitted(handle) => handle,
        other => panic!("expected accepted deploy, got {other:?}"),
    }
}

fn terminal_record(action: flow::NexusAction) -> model::DeploymentRecord {
    match action {
        flow::NexusAction::ReplyToSignal(flow::SignalOutput::MetaOutput(
            model::MetaEgress::DeployTerminal(record),
        )) => record,
        other => panic!("expected a terminal deployment, got {other:?}"),
    }
}

// ---- the closure reaches the activation ------------------------------------------------

#[test]
fn activate_command_carries_built_closure_path() {
    let mut engine = engine();
    engine.active_deploy = Some(host_pipeline(model::HostDeployAction::ActivateNow));
    let built = model::ClosurePath::new(STORE.to_string());
    assert!(engine.set_closure_path(built.clone()));
    engine.set_stage(DeployStage::BuildingRecorded);
    match engine.advance_after_phase() {
        flow::NexusAction::CommandEffect(flow::EffectCommand::ActivateGeneration(command)) => {
            assert_eq!(command.closure_path, built);
            assert!(!command.closure_path.payload().is_empty());
        }
        other => panic!("expected ActivateGeneration effect, got {other:?}"),
    }
}

#[test]
fn activate_without_closure_fails_rather_than_activating_empty() {
    let mut engine = engine();
    assert!(matches!(
        engine.record_deploy_submitted(host_submission(model::HostDeployAction::ActivateNow)),
        model::SemaWriteOutput::DeploySubmitted(_)
    ));
    engine.set_stage(DeployStage::BuildingRecorded);
    match engine.advance_after_phase() {
        flow::NexusAction::ReplyToSignal(flow::SignalOutput::MetaOutput(
            model::MetaEgress::DeployTerminal(_record),
        )) => {}
        other => panic!("expected correlated failed deployment, got {other:?}"),
    }
}

#[test]
fn activation_commit_requires_closure_path() {
    let mut pipeline = host_pipeline(model::HostDeployAction::ActivateNow);
    pipeline.activation_slot = Some(model::GenerationSlot::Current);
    pipeline.source_revision =
        Some(source_revision(model::SourceRevisionPolicy::ResolveAndRecord));
    assert!(pipeline.activation_commit().is_none());
    pipeline.closure_path = Some(model::ClosurePath::new(STORE.to_string()));
    let commit = pipeline.activation_commit().expect("commit with closure");
    assert_eq!(commit.closure_path.payload(), STORE);
}

#[test]
fn activation_commit_persists_computed_boot_profile_slot() {
    let mut pipeline = host_pipeline(model::HostDeployAction::SetBootProfile);
    pipeline.closure_path = Some(model::ClosurePath::new(STORE.to_string()));
    pipeline.source_revision =
        Some(source_revision(model::SourceRevisionPolicy::ResolveAndRecord));
    pipeline.activation_slot = Some(model::GenerationSlot::BootPending);
    let commit = pipeline.activation_commit().expect("commit");
    assert_eq!(commit.generation_slot, model::GenerationSlot::BootPending);
}

#[test]
fn activation_commit_persists_computed_boot_once_slot() {
    let mut pipeline = host_pipeline(model::HostDeployAction::ScheduleBootOnce);
    pipeline.closure_path = Some(model::ClosurePath::new(STORE.to_string()));
    pipeline.source_revision =
        Some(source_revision(model::SourceRevisionPolicy::ResolveAndRecord));
    pipeline.activation_slot = Some(model::GenerationSlot::BootPending);
    let commit = pipeline.activation_commit().expect("commit");
    assert_eq!(commit.generation_slot, model::GenerationSlot::BootPending);
}

#[test]
fn activation_commit_persists_computed_test_activation_slot() {
    let mut pipeline = host_pipeline(model::HostDeployAction::TestActivation);
    pipeline.closure_path = Some(model::ClosurePath::new(STORE.to_string()));
    pipeline.source_revision =
        Some(source_revision(model::SourceRevisionPolicy::ResolveAndRecord));
    pipeline.activation_slot = Some(model::GenerationSlot::Recent);
    let commit = pipeline.activation_commit().expect("commit");
    assert_eq!(commit.generation_slot, model::GenerationSlot::Recent);
}

// ---- admission -------------------------------------------------------------------------

fn deployment_request(policy: model::SourceRevisionPolicy, flake: &str) -> model::DeploySubmission {
    model::DeploySubmission::Host(host_deployment(model::HostDeployAction::Evaluate, policy, flake))
}

fn require_immutable_request(flake: &str) -> model::DeploySubmission {
    deployment_request(model::SourceRevisionPolicy::RequireImmutable, flake)
}

#[test]
fn flake_locator_policy_acceptance_matrix_is_policy_specific_and_total() {
    for (policy, flake, accepted) in [
        (
            model::SourceRevisionPolicy::RequireImmutable,
            "github:owner/repo?rev=aaaaaaaaaaaaaaaaaaaaaaaaaaaaaaaaaaaaaaaa",
            true,
        ),
        (
            model::SourceRevisionPolicy::RequireImmutable,
            "github:owner/repo?dir=systems/base&rev=aaaaaaaaaaaaaaaaaaaaaaaaaaaaaaaaaaaaaaaa",
            true,
        ),
        (model::SourceRevisionPolicy::RequireImmutable, "github:owner/repo", false),
        (model::SourceRevisionPolicy::RequireImmutable, "github:owner/repo?ref=main", false),
        (model::SourceRevisionPolicy::ResolveAndRecord, "github:owner/repo", true),
        (
            model::SourceRevisionPolicy::ResolveAndRecord,
            "github:owner/repo?ref=release/v0.4&dir=systems/base",
            true,
        ),
        (
            model::SourceRevisionPolicy::ResolveAndRecord,
            "github:owner/repo?rev=aaaaaaaaaaaaaaaaaaaaaaaaaaaaaaaaaaaaaaaa",
            false,
        ),
        (
            model::SourceRevisionPolicy::ResolveAndRecord,
            "github:owner/repo?ref=main&ref=other",
            false,
        ),
    ] {
        let rejected = source_revision_policy_rejection(&deployment_request(policy, flake));
        assert_eq!(rejected.is_none(), accepted, "{policy:?}: {flake}");
    }
}

#[test]
fn admission_rejects_invalid_request_owned_routing_before_snapshot_persistence() {
    let mut deployment = host_deployment(
        model::HostDeployAction::Evaluate,
        model::SourceRevisionPolicy::ResolveAndRecord,
        "github:owner/repo",
    );
    deployment.deployment_transport.ssh_destination =
        model::SshDestination::new("root".to_string());
    let request = model::DeploySubmission::Host(deployment);
    assert_eq!(
        deployment_routing_rejection(&request, true),
        Some(DeployRejectionReason::InvalidDeploymentRouting)
    );
    let mut runtime = engine();
    let outcome = runtime.submit_deploy(request, ADMITTED);
    let DeploySubmissionOutcome::Rejected(rejected) = outcome else {
        panic!("invalid routing must reject")
    };
    assert!(matches!(
        rejected.0.optional_deployment_terminal,
        Some(model::DeploymentTerminal::Rejected(
            model::DeploymentTerminalReason::InvalidDeploymentRouting
        ))
    ));
    assert!(runtime.store().deploy_jobs().is_empty());
}

#[test]
fn flake_locator_policy_rejects_unsafe_common_forms_for_every_policy() {
    for policy in [
        model::SourceRevisionPolicy::RequireImmutable,
        model::SourceRevisionPolicy::ResolveAndRecord,
    ] {
        for flake in [
            "github:owner/repo#fragment",
            "github:owner@evil/repo?ref=main",
            "https://github.com/owner/repo?ref=main",
            "github:owner/repo?token=secret",
            "github:owner/repo?ref=release-secret",
            "github:owner/repo?dir=private/CREDENTIALS",
            "github:owner/repo?ref=release-%53eCrEt",
            "github:owner/repo?ref=APIKey-release",
            "github:owner/repo?dir=auth%252Fhidden",
            "github:owner/repo?ref=bad%ZZ",
            "github:owner/repo?dir=../private",
            "github:owner/repo?unknown=value",
            "github:owner/repo?ref=main&dir=systems//base",
            "github:owner/repo?ref=main&rev=aaaaaaaaaaaaaaaaaaaaaaaaaaaaaaaaaaaaaaaa",
            "github:owner/repo?ref=release/%2Funsafe",
        ] {
            assert_eq!(
                source_revision_policy_rejection(&deployment_request(policy, flake)),
                Some(DeployRejectionReason::FlakeReferenceMalformed),
                "{policy:?}: {flake}"
            );
        }
    }
}

#[test]
fn require_immutable_rejects_mutable_flake_reference() {
    let request = require_immutable_request("github:owner/repo/main");
    assert_eq!(
        source_revision_policy_rejection(&request),
        Some(DeployRejectionReason::FlakeReferenceMalformed)
    );
}

#[test]
fn require_immutable_rejects_malformed_refs_that_only_contain_rev_text() {
    for flake in [
        "github:owner/repo/rev=aaaaaaaaaaaaaaaaaaaaaaaaaaaaaaaaaaaaaaaa",
        "github:owner/repo?rev=not-a-full-commit",
        "github:owner/repo?foo=rev=aaaaaaaaaaaaaaaaaaaaaaaaaaaaaaaaaaaaaaaa",
    ] {
        let request = require_immutable_request(flake);
        assert_eq!(
            source_revision_policy_rejection(&request),
            Some(DeployRejectionReason::FlakeReferenceMalformed),
            "{flake} must not pass the structured immutable-ref parser"
        );
    }
}

#[test]
fn require_immutable_rejects_malformed_refs_that_only_contain_nar_hash_text() {
    for flake in [
        "github:owner/repo/narHash=sha256-deadbeef",
        "github:owner/repo?narHash=",
        "github:owner/repo?narHash=not-sri",
    ] {
        let request = require_immutable_request(flake);
        assert_eq!(
            source_revision_policy_rejection(&request),
            Some(DeployRejectionReason::FlakeReferenceMalformed),
            "{flake} must not pass the structured immutable-ref parser"
        );
    }
}

#[test]
fn require_immutable_accepts_structured_revision_query() {
    let request = require_immutable_request(
        "github:owner/repo?rev=aaaaaaaaaaaaaaaaaaaaaaaaaaaaaaaaaaaaaaaa",
    );
    assert!(source_revision_policy_rejection(&request).is_none());
}

fn proposal(path: &str) -> model::ProposalSource {
    model::ProposalSource::new(path.to_string())
}

#[test]
fn a_proposal_source_ends_in_the_artifacts_name() {
    let kinds = vec![PathKind::Directory, PathKind::Directory, PathKind::RegularFile];
    for source in [
        "/tmp/cluster/proposal.datom/",
        "/tmp/cluster/proposal.datom//",
        "/tmp/cluster/proposal.datom/.",
        "/tmp/cluster/proposal.datom/./",
    ] {
        assert!(!ProposalFile::is_safe_path(&proposal(source)), "{source}");
        assert!(ProposalFile::inspection(&proposal(source)).is_none(), "{source}");
        assert!(ProposalFile::checked(&proposal(source), &kinds).is_none(), "{source}");
    }
    let spelled = proposal("/tmp//cluster/./proposal.datom");
    let file = ProposalFile::checked(&spelled, &kinds).expect("the artifact itself");
    assert_eq!(file.path, "/tmp//cluster/./proposal.datom");
}

#[test]
fn proposal_source_is_the_safe_canonical_artifact_before_deploy_admission() {
    for source in [
        "/tmp/cluster/missing.datom",
        "/tmp/cluster/proposal.nota",
        "/tmp/cluster/proposal.dotos",
        "/tmp/cluster/proposal.datomic",
        "/tmp/cluster/malformed.datom",
        "/tmp/cluster/unreadable.datom",
        "/tmp/cluster/linked.datom",
        "/tmp/cluster/private-secret.datom",
        "/tmp/cluster/nested/../proposal.datom",
        "/tmp/proposal\n.datom",
    ] {
        let kinds = vec![PathKind::Directory, PathKind::Directory, PathKind::RegularFile];
        assert!(
            ProposalFile::inspection(&proposal(source)).is_none(),
            "unsafe proposal source must fail admission: {source}"
        );
        assert!(ProposalFile::checked(&proposal(source), &kinds).is_none());
    }
    let safe = proposal("/tmp/cluster/proposal.datom");
    for kinds in [
        vec![PathKind::Directory, PathKind::Directory, PathKind::Missing],
        vec![PathKind::Directory, PathKind::Directory, PathKind::Symlink],
        vec![PathKind::Directory, PathKind::Symlink, PathKind::RegularFile],
        vec![PathKind::Directory, PathKind::Directory, PathKind::Directory],
    ] {
        assert!(ProposalFile::checked(&safe, &kinds).is_none());
    }
    let kinds = vec![PathKind::Directory, PathKind::Directory, PathKind::RegularFile];
    let file = ProposalFile::checked(&safe, &kinds).expect("a canonical artifact");
    assert_eq!(file.path, "/tmp/cluster/proposal.datom");
    assert_eq!(
        ProposalFile::inspection(&safe).expect("a canonical artifact"),
        vec!["/tmp".to_string(), "/tmp/cluster".to_string(), "/tmp/cluster/proposal.datom".to_string()]
    );
    // What cannot be read or decoded is not available either.
    let request = deployment_request(
        model::SourceRevisionPolicy::ResolveAndRecord,
        "github:owner/repo",
    );
    let unreadable = AdmissionEvidence { proposal_available: false, user_name_admitted: true };
    assert_eq!(
        admission_rejection(&request, unreadable),
        Some(DeployRejectionReason::ProposalSourceUnreachable)
    );
    assert_eq!(admission_rejection(&request, ADMITTED), None);
}

#[test]
fn unavailable_proposal_source_returns_a_safe_correlated_rejection_before_effects() {
    let mut engine = engine();
    let request = deployment_request(
        model::SourceRevisionPolicy::ResolveAndRecord,
        "github:owner/repo",
    );
    let evidence = AdmissionEvidence { proposal_available: false, user_name_admitted: true };
    match engine.submit_deploy(request, evidence) {
        DeploySubmissionOutcome::Rejected(record) => {
            assert!(matches!(
                record.0.optional_deployment_terminal,
                Some(model::DeploymentTerminal::Rejected(
                    model::DeploymentTerminalReason::ProposalSourceUnreachable
                ))
            ));
        }
        other => panic!("unavailable proposal must reject before effects, got {other:?}"),
    }
    assert!(engine.active_deploy.is_none());
    assert!(engine.active_operation.is_none());
}

#[test]
fn guard_accepts_every_declared_action() {
    for action in [
        model::HostDeployAction::Evaluate,
        model::HostDeployAction::Realize,
        model::HostDeployAction::SetBootProfile,
        model::HostDeployAction::ActivateNow,
        model::HostDeployAction::TestActivation,
        model::HostDeployAction::ScheduleBootOnce,
    ] {
        assert!(
            unsupported_deploy_reason(&host_submission(action)).is_none(),
            "Host {action:?} should be supported"
        );
    }
    for mode in [
        model::UserEnvironmentAction::Realize,
        model::UserEnvironmentAction::SetProfile,
        model::UserEnvironmentAction::ActivateNow,
    ] {
        let request = model::DeploySubmission::UserEnvironment(model::UserEnvironmentDeployment {
            cluster_name: cluster(),
            node_name: node(),
            user_name: model::UserName::new("li".to_string()),
            proposal_source: proposal("/dev/null"),
            secrets_input: model::SecretsInput::NoSecrets,
            flake_reference: model::FlakeReference::new("github:owner/repo".to_string()),
            deployment_transport: fixture_transport(),
            deployment_input_mode: model::DeploymentInputMode::Direct,
            deployment_output_selector: fixture_output_selector(),
            activation_backend: model::ActivationBackend::HomeManagerNixProfileV1,
            user_environment_action: mode,
            source_revision_policy: model::SourceRevisionPolicy::ResolveAndRecord,
            optional_nix_builder_spec: None,
            extra_substituter_vector: Vec::new(),
        });
        assert!(
            unsupported_deploy_reason(&request).is_none(),
            "User environment {mode:?} should be supported"
        );
    }
}

// ---- effects reach durable state -------------------------------------------------------

#[test]
fn resolve_and_record_records_pipeline_flake_and_eval_source_revision() {
    let mut engine = engine();
    engine.active_deploy = Some(host_pipeline(model::HostDeployAction::Evaluate));
    assert!(engine.set_resolved_flake(
        resolved_flake(model::SourceRevisionPolicy::ResolveAndRecord),
        model::DeployResumeStage::RecordBuilding,
    ));
    let pipeline = engine.active_deploy.as_ref().expect("pipeline");
    assert_eq!(
        pipeline.flake,
        source_revision(model::SourceRevisionPolicy::ResolveAndRecord).resolved_ref
    );
    assert_eq!(
        pipeline.source_revision.as_ref().expect("source revision").requested_ref,
        model::FlakeReference::new("github:owner/repo/main".to_string())
    );
    let command = pipeline.nix_eval_command();
    assert_eq!(
        command.source_revision_record.string,
        "aaaaaaaaaaaaaaaaaaaaaaaaaaaaaaaaaaaaaaaa"
    );
    assert_eq!(command.flake_reference, command.source_revision_record.resolved_ref);
}

#[test]
fn unproven_resolver_metadata_terminalizes_before_any_later_effect() {
    let mut engine = engine();
    submitted(&mut engine, model::HostDeployAction::Evaluate);
    let mut source = source_revision(model::SourceRevisionPolicy::ResolveAndRecord);
    source.string = "sha256-unproven-nar-hash".to_string();
    let record = terminal_record(engine.decide_effect_completion(
        flow::EffectResult::FlakeResolved(flow::ResolvedFlake::new(source)),
    ));
    assert!(matches!(
        record.optional_deployment_terminal,
        Some(model::DeploymentTerminal::Failed(model::DeploymentFailure {
            deployment_failure_stage: model::DeploymentFailureStage::FlakeAuth,
            ..
        }))
    ));
    assert!(engine.active_deploy.is_none());
}

#[test]
fn injected_closure_effects_terminalize_before_build_copy_or_activation() {
    let unsafe_path = model::ClosurePath::new(
        "/nix/store/aaaaaaaaaaaaaaaaaaaaaaaaaaaaaaaa-private-secret".to_string(),
    );

    let mut evaluated = engine();
    submitted(&mut evaluated, model::HostDeployAction::Realize);
    let record = terminal_record(evaluated.decide_effect_completion(
        flow::EffectResult::ClosureEvaluated(flow::EvaluatedClosure {
            generation_identifier: model::GenerationIdentifier::new(1),
            closure_path: unsafe_path.clone(),
        }),
    ));
    assert!(matches!(
        record.optional_deployment_terminal,
        Some(model::DeploymentTerminal::Failed(model::DeploymentFailure {
            deployment_failure_stage: model::DeploymentFailureStage::Eval,
            ..
        }))
    ));
    assert!(evaluated.active_deploy.is_none());

    let mut built = engine();
    submitted(&mut built, model::HostDeployAction::ActivateNow);
    let record = terminal_record(built.decide_effect_completion(flow::EffectResult::ClosureBuilt(
        flow::BuiltClosure {
            generation_identifier: model::GenerationIdentifier::new(1),
            closure_path: unsafe_path,
        },
    )));
    assert!(matches!(
        record.optional_deployment_terminal,
        Some(model::DeploymentTerminal::Failed(model::DeploymentFailure {
            deployment_failure_stage: model::DeploymentFailureStage::Build,
            ..
        }))
    ));
    assert!(built.active_deploy.is_none());
}

#[test]
fn phase_projection_never_labels_nix_metadata_as_an_immutable_revision() {
    let mut pipeline = host_pipeline(model::HostDeployAction::Evaluate);
    let mut source = source_revision(model::SourceRevisionPolicy::ResolveAndRecord);
    source.string = "sha256-unproven-nar-hash".to_string();
    pipeline.source_revision = Some(source);
    assert!(pipeline
        .phase_event(model::DeploymentPhase::Building, model::EventLogPosition::new(7))
        .optional_immutable_revision
        .is_none());
}

#[test]
fn nix_output_boundaries_terminalize_unsafe_paths_without_echoing_them() {
    let unsafe_output = "/nix/store/aaaaaaaaaaaaaaaaaaaaaaaaaaaaaaaa-private-secret";
    let printed = format!("{unsafe_output}\n");
    let mut pipeline = host_pipeline(model::HostDeployAction::Evaluate);
    pipeline.source_revision =
        Some(source_revision(model::SourceRevisionPolicy::ResolveAndRecord));
    let eval = pipeline.nix_eval_command();
    let build = flow::NixBuildCommand {
        generation_identifier: model::GenerationIdentifier::new(1),
        closure_path: model::ClosurePath::new(STORE.to_string()),
        build_target: flow::BuildTarget::Local,
        extra_substituter_vector: Vec::new(),
    };
    let hermetic = flow::HermeticCheckCommand {
        cluster_name: cluster(),
        node_name: node(),
        flake_reference: model::FlakeReference::new("github:owner/repo".to_string()),
        test_execution_profile: fixture_test_profile(),
    };
    for (stage, result) in [
        (flow::EffectStage::Eval, nix_eval_result(eval, Ok(printed.clone()))),
        (flow::EffectStage::Build, nix_build_result(build, Ok(printed.clone()))),
        (
            flow::EffectStage::HermeticCheck,
            hermetic_check_result(hermetic, Ok(printed.clone())),
        ),
    ] {
        match result {
            flow::EffectResult::EffectFailed(failure) => {
                assert_eq!(failure.effect_stage, stage);
                assert!(!failure.string.contains(unsafe_output));
            }
            other => panic!("unsafe output must fail at {stage:?}, got {other:?}"),
        }
    }
}

#[test]
fn crash_after_atomic_resolved_source_commit_reopens_at_materialization_without_resolving_again() {
    let mut before_crash = engine();
    let accepted = submitted(&mut before_crash, model::HostDeployAction::Evaluate);
    before_crash.set_resolved_flake(
        resolved_flake(model::SourceRevisionPolicy::ResolveAndRecord),
        model::DeployResumeStage::MaterializeHorizon,
    );
    before_crash.set_input_overrides(vec![flow::FlakeInputOverride {
        string: "criomos".to_string(),
        flake_input_reference: flow::FlakeInputReference {
            url: "path:/var/lib/lojix/inputs/criomos".to_string(),
            nix_archive_hash: "sha256-immutable-horizon-snapshot".to_string(),
        },
    }]);
    let persisted = before_crash.store().deploy_jobs()[0].clone();
    assert_eq!(persisted.deploy_resume_stage, model::DeployResumeStage::RecordBuilding);
    assert_eq!(
        persisted.optional_flake_reference,
        Some(source_revision(model::SourceRevisionPolicy::ResolveAndRecord).resolved_ref)
    );
    let reopened = before_crash.store;

    let job = reopened.deploy_jobs()[0].clone();
    let mut resumed = SchemaRuntime::with_store(reopened, "/tmp");
    assert!(resumed.resume_deploy_job(job).expect("resume cursor"));
    let pipeline = resumed.active_deploy.as_ref().expect("restored pipeline");
    assert_eq!(pipeline.accepted_marker, accepted.state_marker);
    assert_eq!(pipeline.resume_stage, model::DeployResumeStage::RecordBuilding);
    assert_eq!(
        pipeline.flake,
        source_revision(model::SourceRevisionPolicy::ResolveAndRecord).resolved_ref
    );
    assert_eq!(
        pipeline.source_revision.as_ref().expect("exact durable source revision").string,
        "aaaaaaaaaaaaaaaaaaaaaaaaaaaaaaaaaaaaaaaa"
    );
    assert_eq!(pipeline.input_overrides.len(), 1);
    assert_eq!(pipeline.input_overrides[0].string, "criomos");
    assert_eq!(
        pipeline.input_overrides[0].flake_input_reference.nix_archive_hash,
        "sha256-immutable-horizon-snapshot"
    );
}

#[test]
fn restart_restores_or_recovers_the_exact_phase_receipt_for_each_resume_continuation() {
    let mut engine = engine();
    submitted(&mut engine, model::HostDeployAction::ActivateNow);
    engine.set_resolved_flake(
        resolved_flake(model::SourceRevisionPolicy::ResolveAndRecord),
        model::DeployResumeStage::RecordBuilding,
    );
    assert!(engine.set_closure_path(model::ClosurePath::new(STORE.to_string())));
    engine.set_activation_slot(model::GenerationSlot::Current);

    for (phase, resume_stage) in [
        (model::DeploymentPhase::Building, model::DeployResumeStage::NixEval),
        (model::DeploymentPhase::Copying, model::DeployResumeStage::ActivateGeneration),
        (model::DeploymentPhase::Activated, model::DeployResumeStage::RecordGenerationActivated),
    ] {
        let position = engine.store.allocate_event_log_position();
        let event = {
            let pipeline = engine.active_deploy.as_mut().expect("pipeline");
            pipeline.resume_stage = resume_stage;
            pipeline.phase_event(phase, model::EventLogPosition::new(position))
        };
        let receipt = match engine.record_phase_transition(event) {
            model::SemaWriteOutput::PhaseRecorded(receipt) => receipt,
            other => panic!("expected phase receipt, got {other:?}"),
        };
        let mut job = engine.store().deploy_jobs()[0].clone();
        assert_eq!(job.optional_phase_receipt, Some(receipt.clone()));

        // A crash between the public event and the receipt on the job row: the
        // receipt comes back from the event itself.
        job.optional_phase_receipt = None;
        engine.store.upsert_deploy_job(job);
        let job = engine.store().deploy_jobs()[0].clone();
        let mut resumed = SchemaRuntime::with_store(engine.store.clone(), "/tmp");
        assert!(resumed.resume_deploy_job(job).expect("resume exact receipt"));
        assert_eq!(
            resumed.active_deploy.as_ref().expect("restored pipeline").phase_receipt,
            Some(receipt)
        );
    }
}

#[test]
fn recorded_source_revision_survives_event_and_state_paths() {
    let mut engine = engine();
    submitted(&mut engine, model::HostDeployAction::ActivateNow);
    let mut pipeline = engine.active_deploy.clone().expect("accepted pipeline");
    let source_revision = source_revision(model::SourceRevisionPolicy::ResolveAndRecord);
    pipeline.source_revision = Some(source_revision.clone());
    pipeline.activation_slot = Some(model::GenerationSlot::Current);
    pipeline.closure_path = Some(model::ClosurePath::new(STORE.to_string()));
    engine.active_deploy = Some(pipeline.clone());

    let event =
        pipeline.phase_event(model::DeploymentPhase::Building, model::EventLogPosition::new(1));
    assert_eq!(event.deployment_identifier, pipeline.deployment_identifier);
    assert!(matches!(
        engine.record_phase_transition(event),
        model::SemaWriteOutput::PhaseRecorded(_)
    ));
    match engine.read_event_log(model::EventLogRange {
        from: model::EventLogPosition::new(1),
        until: model::EventLogPosition::new(2),
    }) {
        model::SemaReadOutput::EventLogRead(page) => assert_eq!(
            page.deployment_phase_event_vector
                .first()
                .expect("deployment event")
                .deployment_identifier,
            pipeline.deployment_identifier
        ),
        other => panic!("expected EventLogRead, got {other:?}"),
    }

    let commit = pipeline.activation_commit().expect("activation commit");
    assert!(matches!(
        engine.record_generation_activated(commit),
        model::SemaWriteOutput::GenerationActivated(_)
    ));
    match engine.query_generations(model::Selection::ByNode(model::NodeSelector {
        cluster_name: cluster(),
        node_name: node(),
        optional_generation_artifact: None,
    })) {
        model::SemaReadOutput::GenerationsQueried(listing) => assert_eq!(
            listing.generation_vector.first().expect("generation").closure_path,
            model::ClosurePath::new(STORE.to_string())
        ),
        other => panic!("expected GenerationsQueried, got {other:?}"),
    }
}

// ---- interrupted self-switches ---------------------------------------------------------

fn interrupted_self_switch_job(closure: Option<&str>) -> model::DeployJob {
    model::DeployJob {
        deployment_identifier: model::DeploymentIdentifier::new(72),
        generation_identifier: model::GenerationIdentifier::new(72),
        cluster_name: model::ClusterName::new("fixture-cluster".to_string()),
        node_name: model::NodeName::new("fixture-daemon".to_string()),
        deploy_job_phase: model::DeployJobPhase::Activating,
        optional_closure_path: closure.map(|path| model::ClosurePath::new(path.to_string())),
        source_revision_policy: model::SourceRevisionPolicy::RequireImmutable,
        flake_reference: model::FlakeReference::new(
            "github:LiGoldragon/CriomOS?rev=0123456789abcdef0123456789abcdef01234567".to_string(),
        ),
        optional_flake_reference: Some(model::FlakeReference::new(
            "github:LiGoldragon/CriomOS?rev=0123456789abcdef0123456789abcdef01234567".to_string(),
        )),
        resolved_revision: Some("0123456789abcdef0123456789abcdef01234567".to_string()),
        deployment_transport: fixture_transport(),
        deployment_input_mode: model::DeploymentInputMode::Direct,
        deployment_output_selector: fixture_output_selector(),
        activation_backend: model::ActivationBackend::NixosSystemdBootV1,
        optional_nix_builder_spec: None,
        boot_once_unit: None,
        optional_generation_slot: None,
        persisted_flake_input_override_vector: Vec::new(),
        deploy_resume_stage: model::DeployResumeStage::ResolveFlakeAuth,
        optional_phase_receipt: None,
        optional_deploy_submission: Some(host_submission(model::HostDeployAction::ActivateNow)),
    }
}

#[test]
fn interrupted_self_switch_reconstructs_a_current_generation_record() {
    let job = interrupted_self_switch_job(Some("/nix/store/aaaaaaaa-system"));
    assert_eq!(job.resumption(), DeployJobResumption::PollActivationUnit { unit: None });
    let (generation, root) = job
        .self_switch_activation_record(Some("/nix/store/aaaaaaaa-system"))
        .expect("a completed self-switch whose system profile matches records");
    assert_eq!(*generation.generation_identifier.payload(), 72);
    assert_eq!(*generation.deployment_identifier.payload(), 72);
    assert_eq!(generation.generation_slot, model::GenerationSlot::Current);
    assert_eq!(generation.activation_effect, model::ActivationEffect::LiveActivation);
    assert_eq!(generation.generation_artifact, model::GenerationArtifact::CompleteHost);
    assert_eq!(generation.closure_path.payload(), "/nix/store/aaaaaaaa-system");
    assert_eq!(
        generation.source_revision_record.string,
        "0123456789abcdef0123456789abcdef01234567"
    );
    assert_eq!(root.generation_slot, model::GenerationSlot::Current);
    assert_eq!(root.closure_path.payload(), "/nix/store/aaaaaaaa-system");
    assert_eq!(root.optional_pin_label, None);
}

#[test]
fn self_switch_without_a_built_closure_records_nothing() {
    let job = interrupted_self_switch_job(None);
    assert!(job.self_switch_activation_record(Some("/nix/store/aaaaaaaa-system")).is_none());
}

#[test]
fn activating_row_whose_system_profile_differs_is_not_recorded() {
    let job = interrupted_self_switch_job(Some("/nix/store/aaaaaaaa-system"));
    assert!(job
        .self_switch_activation_record(Some("/nix/store/bbbbbbbb-other-system"))
        .is_none());
    assert!(job.self_switch_activation_record(None).is_none());
}

#[test]
fn matching_profile_set_boot_profile_is_not_recovered_as_a_self_switch() {
    let mut job = interrupted_self_switch_job(Some("/nix/store/aaaaaaaa-system"));
    job.optional_deploy_submission =
        Some(host_submission(model::HostDeployAction::SetBootProfile));
    assert!(job.self_switch_activation_record(Some("/nix/store/aaaaaaaa-system")).is_none());
}

#[test]
fn matching_profile_user_activation_is_not_recovered_as_a_self_switch() {
    let mut job = interrupted_self_switch_job(Some("/nix/store/aaaaaaaa-system"));
    job.optional_deploy_submission = Some(user_submission());
    assert!(job.self_switch_activation_record(Some("/nix/store/aaaaaaaa-system")).is_none());
}

#[test]
fn matching_profile_without_the_systemd_boot_backend_is_not_recovered() {
    let mut job = interrupted_self_switch_job(Some("/nix/store/aaaaaaaa-system"));
    job.activation_backend = model::ActivationBackend::HomeManagerNixProfileV1;
    assert!(job.self_switch_activation_record(Some("/nix/store/aaaaaaaa-system")).is_none());
}

#[test]
fn non_boot_once_deploy_records_no_resume_unit() {
    let pipeline = host_pipeline(model::HostDeployAction::ActivateNow);
    assert!(pipeline.boot_once_unit().is_none());
}

// ---- where a closure is built ----------------------------------------------------------

#[test]
fn build_on_a_different_target_stays_in_the_local_owner_context() {
    let pipeline = host_pipeline(model::HostDeployAction::ScheduleBootOnce);
    assert!(matches!(pipeline.build_target(), flow::BuildTarget::Local));
}

#[test]
fn build_on_the_daemon_host_stays_local() {
    let pipeline = host_pipeline(model::HostDeployAction::ScheduleBootOnce);
    assert!(matches!(pipeline.build_target(), flow::BuildTarget::Local));
}

#[test]
fn explicit_builder_override_wins_over_the_default_local_builder() {
    let mut pipeline = host_pipeline(model::HostDeployAction::ScheduleBootOnce);
    pipeline.builder = Some(model::NixBuilderSpec::new(
        "ssh-ng://fixture-builder.invalid x86_64-linux - 4 2 k1".to_string(),
    ));
    assert!(matches!(pipeline.build_target(), flow::BuildTarget::Remote(_)));
}

#[test]
fn deployment_input_maps_complete_and_base_host_materialization() {
    let complete = DeploymentInput::from_shape(&flow::MaterializationShape::CompleteHost)
        .expect("complete host deployment input");
    assert_eq!(
        complete.flake_text(),
        "{ outputs = _: { deployment = { includeHome = true; includeAllFirmware = true; }; }; }\n"
    );

    let base = DeploymentInput::from_shape(&flow::MaterializationShape::BaseHost)
        .expect("base host deployment input");
    assert_eq!(
        base.flake_text(),
        "{ outputs = _: { deployment = { includeHome = false; includeAllFirmware = false; }; }; }\n"
    );

    let user = flow::MaterializationShape::UserEnvironment(
        flow::UserEnvironmentMaterialization::new(model::UserName::new("li".to_string())),
    );
    assert!(DeploymentInput::from_shape(&user).is_none());
}

// ---- secrets -----------------------------------------------------------------------------

fn secret_file(name: &str) -> ClusterSecretFile {
    ClusterSecretFile::new("/cluster/secrets".to_string(), name.as_bytes().to_vec())
}

fn secret_names(names: &[&str]) -> Vec<Vec<u8>> {
    names.iter().map(|name| name.as_bytes().to_vec()).collect()
}

#[test]
fn sops_attribute_name_is_the_filename_stem_verbatim() {
    assert_eq!(
        secret_file("fixtureCamelCase.sops").attribute_name().expect("utf8 stem"),
        "fixtureCamelCase"
    );
    assert_eq!(
        secret_file("fixtureSecondValue.sops").attribute_name().expect("utf8 stem"),
        "fixtureSecondValue"
    );
    assert_eq!(secret_file("token.sops").attribute_name().expect("utf8 stem"), "token");
}

#[test]
fn secrets_directory_is_the_datom_source_sibling() {
    let source = proposal("/fixture/cluster/proposal.datom");
    let directory = ClusterSecretsDirectory::from_proposal_source(&source);
    assert_eq!(directory.path, "/fixture/cluster/secrets");
}

#[test]
fn absent_secrets_directory_yields_no_files() {
    let source = proposal("/nonexistent/path/that/has/no/secrets/proposal.datom");
    let directory = ClusterSecretsDirectory::from_proposal_source(&source);
    assert!(directory.secret_files(Vec::new()).is_empty());
}

#[test]
fn generated_secrets_flake_maps_verbatim_stems_to_copied_files() {
    let cluster = ClusterSecretsDirectory::from_proposal_source(&proposal(
        "/cluster/proposal.datom",
    ));
    let files = cluster.secret_files(secret_names(&[
        "fixtureSecondValue.sops",
        "README.md",
        "fixtureCamelCase.sops",
    ]));
    let flake = secrets_flake(&files).expect("write secrets input");
    assert!(flake.contains("sopsFiles = {"), "{flake}");
    assert!(flake.contains("fixtureSecondValue = ./fixtureSecondValue.sops;"), "{flake}");
    assert!(flake.contains("fixtureCamelCase = ./fixtureCamelCase.sops;"), "{flake}");
    assert!(!flake.contains("README"), "non-sops files excluded: {flake}");
    assert_eq!(
        flake,
        "{ outputs = _: { sopsFiles = {\n    fixtureCamelCase = ./fixtureCamelCase.sops;\n    \
         fixtureSecondValue = ./fixtureSecondValue.sops;\n  }; }; }\n"
    );
    assert_eq!(files.len(), 2);
}

#[test]
fn colliding_secret_attribute_names_are_a_typed_error() {
    let files = vec![secret_file("shared.sops"), secret_file("shared.sops")];
    assert_eq!(
        secrets_flake(&files),
        Err(Error::SecretAttributeCollision {
            attribute_name: "shared".to_string(),
            first: "shared.sops".to_string(),
            second: "shared.sops".to_string(),
        })
    );
}

#[test]
fn non_utf8_secret_file_name_is_a_typed_error() {
    let file = ClusterSecretFile::new("/cluster/secrets".to_string(), b"bad\xff.sops".to_vec());
    assert!(matches!(file.attribute_name(), Err(Error::SecretFileNameNotUtf8(_))));
    assert!(matches!(file.file_name(), Err(Error::SecretFileNameNotUtf8(_))));
    assert_eq!(
        secrets_flake(&vec![file]),
        Err(Error::SecretFileNameNotUtf8(b"/cluster/secrets/bad\xff.sops".to_vec()))
    );
}

#[test]
fn empty_cluster_secrets_emit_empty_sops_files_attribute() {
    let source = proposal("/nonexistent/bootstrap/proposal.datom");
    let cluster = ClusterSecretsDirectory::from_proposal_source(&source);
    let flake = secrets_flake(&cluster.secret_files(Vec::new())).expect("empty secrets input");
    assert!(flake.contains("sopsFiles = {"), "{flake}");
    assert!(!flake.contains(" = ./"), "no entries: {flake}");
}
