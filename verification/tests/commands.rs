//! The commands that the daemon runs: exact arguments and scripts.

use lojix::runtime_flow as flow;
use lojix::runtime_model as model;
use lojix::schema_runtime::activation::{Activation, HostActivation, UserEnvironmentActivation};
use lojix::schema_runtime::flake_policy::EvalRefresh;
use lojix::schema_runtime::nix_command::NixCommand;
use lojix::schema_runtime::pipeline::DeployPipeline;
use lojix::schema_runtime::ssh_target::ClosureCopy;
use lojix::schema_runtime::store::marker;

const STORE: &str = "/nix/store/aaaaaaaaaaaaaaaaaaaaaaaaaaaaaaaa-toplevel";
const DERIVATION: &str = "/nix/store/bbbbbbbbbbbbbbbbbbbbbbbbbbbbbbbb-nixos-system-mercury.drv";

fn node() -> model::NodeName {
    model::NodeName::new("node-1".to_string())
}

fn flow_transport() -> flow::DeploymentTransport {
    flow::DeploymentTransport {
        nix_store_uri: flow::NixStoreUri::new("ssh-ng://fixture-copy.invalid".to_string()),
        ssh_destination: flow::SshDestination::new(
            "fixture-login@fixture-activate.invalid".to_string(),
        ),
    }
}

// ---- builds ------------------------------------------------------------------------------

#[test]
fn build_closure_selects_drv_outputs_not_the_bare_drv() {
    let invocation = NixCommand::build_closure(DERIVATION, &[]);
    assert_eq!(invocation.program(), "nix");
    let argv = invocation.joined_arguments();
    assert!(argv.contains("--print-out-paths"), "{argv}");
    assert!(
        argv.contains(&format!("{DERIVATION}^*")),
        "build installable must carry the `^*` output selector: {argv}"
    );
    assert!(
        !invocation.arguments.iter().any(|argument| argument == DERIVATION),
        "bare .drv must not appear as an installable token: {argv}"
    );
}

#[test]
fn remote_build_uses_the_exact_request_builder_spec_and_disables_local_fallback() {
    let builder_spec = "ssh-ng://fixture-builder.invalid x86_64-linux - 4 2 k1";
    let invocation = NixCommand::build_closure_remote(DERIVATION, builder_spec, &[]);
    assert_eq!(invocation.program(), "nix");
    let argv = invocation.joined_arguments();
    assert!(argv.contains(&format!("--builders {builder_spec}")), "{argv}");
    assert!(!argv.contains("/etc/nix/machines"), "{argv}");
    assert!(argv.contains("--option max-jobs 0"), "{argv}");
    assert!(argv.contains("--print-out-paths"), "{argv}");
    assert!(
        argv.contains(&format!("{DERIVATION}^*")),
        "remote build installable must carry the `^*` output selector: {argv}"
    );
    assert!(
        !invocation.arguments.iter().any(|argument| argument == DERIVATION),
        "bare .drv must not appear as an installable token: {argv}"
    );
}

#[test]
fn build_closure_stays_local_and_selects_the_realised_output() {
    let invocation = NixCommand::build_closure(DERIVATION, &[]);
    assert_eq!(invocation.program(), "nix");
    let argv = invocation.joined_arguments();
    assert!(
        !argv.contains("--store") && !argv.contains("--eval-store"),
        "build must remain in the local owner context: {argv}"
    );
    assert!(argv.contains("--print-out-paths"), "{argv}");
    assert!(
        argv.contains(&format!("{DERIVATION}^*")),
        "local build must carry the `^*` output selector: {argv}"
    );
    assert!(!argv.contains("--builders"), "{argv}");
}

// ---- evaluation --------------------------------------------------------------------------

#[test]
fn local_eval_never_redirects_over_ssh_ng() {
    let store = flow::BuildTarget::Local;
    let invocation =
        NixCommand::eval_drv_path(".#toplevel", &[], &store, EvalRefresh::ForceRefresh);
    assert_eq!(invocation.program(), "nix");
    let argv = invocation.joined_arguments();
    assert!(
        !argv.contains("--store") && !argv.contains("--eval-store"),
        "eval must remain local: {argv}"
    );
    assert!(argv.contains("--refresh"), "{argv}");
    assert!(argv.contains("--raw"), "{argv}");
    assert!(argv.ends_with(".#toplevel.drvPath"), "{argv}");
}

#[test]
fn immutable_pin_eval_omits_refresh_but_keeps_raw_and_selector() {
    let store = flow::BuildTarget::Local;
    let invocation =
        NixCommand::eval_drv_path(".#toplevel", &[], &store, EvalRefresh::TrustImmutablePin);
    let argv = invocation.joined_arguments();
    assert!(!argv.contains("--refresh"), "an immutable pin must not force a full re-eval: {argv}");
    assert!(argv.contains("--raw"), "{argv}");
    assert!(!argv.contains("--store"), "immutable eval remains local: {argv}");
    assert!(argv.ends_with(".#toplevel.drvPath"), "{argv}");
}

#[test]
fn refresh_is_dropped_only_for_require_immutable_against_a_pinned_ref() {
    let pinned = "github:LiGoldragon/CriomOS?rev=0123456789abcdef0123456789abcdef01234567";
    let mutable = "github:LiGoldragon/CriomOS";
    assert_eq!(
        EvalRefresh::for_source(model::SourceRevisionPolicy::RequireImmutable, pinned),
        EvalRefresh::TrustImmutablePin
    );
    assert_eq!(
        EvalRefresh::for_source(model::SourceRevisionPolicy::RequireImmutable, mutable),
        EvalRefresh::ForceRefresh
    );
    assert_eq!(
        EvalRefresh::for_source(model::SourceRevisionPolicy::ResolveAndRecord, pinned),
        EvalRefresh::ForceRefresh
    );
}

#[test]
fn local_eval_reads_the_daemon_host_store_with_no_redirect() {
    let invocation = NixCommand::eval_drv_path(
        ".#toplevel",
        &[],
        &flow::BuildTarget::Local,
        EvalRefresh::ForceRefresh,
    );
    let argv = invocation.joined_arguments();
    assert!(!argv.contains("--store"), "local eval adds no store: {argv}");
    assert!(!argv.contains("--eval-store"), "local eval adds no eval-store: {argv}");
    assert!(argv.ends_with(".#toplevel.drvPath"), "{argv}");
}

#[test]
fn remote_eval_stays_host_local_with_no_store_redirect() {
    let target = flow::BuildTarget::Remote(flow::NixBuilderSpec::new(
        "ssh-ng://fixture-builder.invalid x86_64-linux - 4 2 k1".to_string(),
    ));
    let invocation =
        NixCommand::eval_drv_path(".#toplevel", &[], &target, EvalRefresh::ForceRefresh);
    let argv = invocation.joined_arguments();
    assert!(!argv.contains("--store"), "remote eval adds no store redirect: {argv}");
    assert!(!argv.contains("--eval-store"), "remote eval adds no eval-store: {argv}");
    assert!(argv.ends_with(".#toplevel.drvPath"), "{argv}");
}

// ---- copies ------------------------------------------------------------------------------

fn copy_command() -> flow::CopyClosureCommand {
    flow::CopyClosureCommand {
        generation_identifier: model::GenerationIdentifier::new(1),
        node_name: node(),
        deployment_transport: flow_transport(),
        closure_path: model::ClosurePath::new(STORE.to_string()),
    }
}

#[test]
fn copy_from_dispatcher_uses_to_only_with_substitute() {
    let copy = ClosureCopy::from_command(&copy_command())
        .expect("local build copies from the dispatcher store");
    let invocation = copy.invocation();
    assert_eq!(invocation.program(), "nix");
    let argv = invocation.joined_arguments();
    assert!(argv.contains("--substitute-on-destination"), "{argv}");
    assert!(argv.contains("--to ssh-ng://fixture-copy.invalid"), "{argv}");
    assert!(!argv.contains("--from"), "{argv}");
    assert!(argv.contains(STORE), "{argv}");
}

#[test]
fn copy_uses_exact_nix_store_uri_without_rewriting_it() {
    let mut command = copy_command();
    command.deployment_transport.nix_store_uri =
        flow::NixStoreUri::new("ssh-ng://other-copy.invalid:2222?compress=true".to_string());
    let copy = ClosureCopy::from_command(&command).expect("copy transport");
    let invocation = copy.invocation();
    let argv = invocation.joined_arguments();
    assert!(argv.contains("--substitute-on-destination"), "{argv}");
    assert!(!argv.contains("--from"), "{argv}");
    assert!(
        argv.contains("--to ssh-ng://other-copy.invalid:2222?compress=true"),
        "{argv}"
    );
}

// ---- activation of hosts ------------------------------------------------------------

fn activate_command(
    profile: flow::ActivationProfile,
    kind: model::ActivationEffect,
) -> flow::ActivateGenerationCommand {
    flow::ActivateGenerationCommand {
        deployment_identifier: model::DeploymentIdentifier::new(7),
        generation_identifier: model::GenerationIdentifier::new(1),
        cluster_name: model::ClusterName::new("alpha".to_string()),
        node_name: node(),
        deployment_transport: flow_transport(),
        closure_path: model::ClosurePath::new(STORE.to_string()),
        activation_effect: kind,
        activation_backend: match &profile {
            flow::ActivationProfile::Host(_) => flow::ActivationBackend::NixosSystemdBootV1,
            flow::ActivationProfile::UserEnvironment(_) => {
                flow::ActivationBackend::HomeManagerNixProfileV1
            }
        },
        activation_profile: profile,
    }
}

fn host_activation(action: model::HostDeployAction) -> HostActivation {
    host_activation_on_host(action, None)
}

fn host_activation_on_host(
    action: model::HostDeployAction,
    daemon_host: Option<model::NodeName>,
) -> HostActivation {
    match Activation::from_command(
        &activate_command(
            flow::ActivationProfile::Host(action),
            model::ActivationEffect::LiveActivation,
        ),
        daemon_host.as_ref(),
        None,
    )
    .expect("activation")
    {
        Activation::Host(activation) => activation,
        Activation::UserEnvironment(_) => panic!("expected host activation"),
    }
}

#[test]
fn switch_activation_has_store_path_and_switch_subcommand_no_closure_token() {
    let activation = host_activation(model::HostDeployAction::ActivateNow);
    let invocation = activation.ssh_invocation().expect("switch invocation");
    assert_eq!(invocation.program(), "ssh");
    let argv = invocation.joined_arguments();
    assert!(argv.contains("fixture-login@fixture-activate.invalid"), "{argv}");
    assert!(argv.contains(STORE), "{argv}");
    assert!(argv.contains(&format!("{STORE}/bin/switch-to-configuration switch")), "{argv}");
    assert!(argv.contains("nix-env -p /nix/var/nix/profiles/system --set"), "{argv}");
    assert!(!argv.contains("$CLOSURE"), "no $CLOSURE token: {argv}");
}

#[test]
fn boot_activation_runs_switch_to_configuration_then_releases_efi_to_loader_configuration() {
    let activation = host_activation(model::HostDeployAction::SetBootProfile);
    let invocation = activation.ssh_invocation().expect("boot invocation");
    let argv = invocation.joined_arguments();
    assert!(argv.contains(&format!("{STORE}/bin/switch-to-configuration boot")), "{argv}");
    assert!(!argv.contains("$CLOSURE"), "{argv}");
    assert!(activation.requires_efi_reconcile());
    let clear_default = activation.step_clear_efi_default_invocation();
    assert!(
        clear_default.joined_arguments().contains("bootctl set-default ''"),
        "{}",
        clear_default.joined_arguments()
    );
    let clear = activation.step_clear_efi_oneshot_invocation();
    assert!(
        clear.joined_arguments().contains("bootctl set-oneshot ''"),
        "{}",
        clear.joined_arguments()
    );
}

#[test]
fn test_activation_runs_switch_to_configuration_test_only_no_profile_set() {
    let activation = host_activation(model::HostDeployAction::TestActivation);
    let invocation = activation.ssh_invocation().expect("test invocation");
    let argv = invocation.joined_arguments();
    assert!(argv.contains(&format!("{STORE}/bin/switch-to-configuration test")), "{argv}");
    assert!(!argv.contains("nix-env"), "test does not set the profile: {argv}");
    assert!(!activation.requires_efi_reconcile());
}

#[test]
fn boot_once_uses_simple_invocation_none() {
    let activation = host_activation(model::HostDeployAction::ScheduleBootOnce);
    assert!(activation.ssh_invocation().is_none());
}

#[test]
fn self_host_switch_selects_the_detached_shape() {
    let activation = host_activation_on_host(model::HostDeployAction::ActivateNow, Some(node()));
    assert!(
        activation.runs_detached_self_switch(),
        "self-host Switch must take the detached shape"
    );
    let invocation = activation
        .detached_invocation(&activation.self_switch_unit_name(), activation.self_switch_script());
    assert_eq!(invocation.program(), "ssh");
    let argv = invocation.joined_arguments();
    assert!(argv.contains("systemd-run"), "PID-1-owned unit: {argv}");
    assert!(argv.contains("--service-type=oneshot"), "{argv}");
    assert!(argv.contains("--wait"), "{argv}");
    assert!(
        argv.contains("--unit=lojix-self-switch-deploy-7"),
        "deterministic self-switch unit name: {argv}"
    );
    assert!(
        argv.contains("switch-to-configuration switch"),
        "self-switch runs the Switch action: {argv}"
    );
    assert!(
        argv.contains("nix-env -p /nix/var/nix/profiles/system --set"),
        "self-switch sets the system profile: {argv}"
    );
}

#[test]
fn foreign_target_switch_keeps_the_foreground_path() {
    let foreign = host_activation_on_host(
        model::HostDeployAction::ActivateNow,
        Some(model::NodeName::new("some-other-node".to_string())),
    );
    assert!(!foreign.runs_detached_self_switch());
    let no_context = host_activation(model::HostDeployAction::ActivateNow);
    assert!(!no_context.runs_detached_self_switch());
    let invocation = no_context.ssh_invocation().expect("foreground switch");
    assert_eq!(invocation.program(), "ssh");
    assert!(invocation.joined_arguments().contains("switch-to-configuration switch"));
}

#[test]
fn self_host_boot_does_not_take_the_self_switch_shape() {
    let boot = host_activation_on_host(model::HostDeployAction::SetBootProfile, Some(node()));
    assert!(!boot.runs_detached_self_switch());
    let boot_once =
        host_activation_on_host(model::HostDeployAction::ScheduleBootOnce, Some(node()));
    assert!(!boot_once.runs_detached_self_switch());
}

#[test]
fn boot_once_systemd_run_argv_shape() {
    let activation = host_activation(model::HostDeployAction::ScheduleBootOnce);
    let invocation = activation.systemd_run_invocation("lojix-boot-once-abc-def");
    assert_eq!(invocation.program(), "ssh");
    let argv = invocation.joined_arguments();
    assert!(argv.contains("fixture-login@fixture-activate.invalid"), "{argv}");
    assert!(argv.contains("systemd-run"), "{argv}");
    assert!(argv.contains("--unit=lojix-boot-once-abc-def"), "{argv}");
    assert!(argv.contains("--collect"), "{argv}");
    assert!(argv.contains("--wait"), "{argv}");
    assert!(argv.contains("--service-type=oneshot"), "{argv}");
    assert!(argv.contains("/bin/sh -c"), "{argv}");
}

#[test]
fn boot_once_unit_name_is_deterministic_in_the_deployment_identifier() {
    let activation = host_activation(model::HostDeployAction::ScheduleBootOnce);
    assert_eq!(activation.unit_name(), "lojix-boot-once-deploy-7");
}

#[test]
fn activation_unit_name_matches_the_resume_cursor_unit() {
    let submission = model::DeploySubmission::Host(model::HostDeployment {
        cluster_name: model::ClusterName::new("alpha".to_string()),
        node_name: node(),
        host_composition: model::HostComposition::BaseHost,
        proposal_source: model::ProposalSource::new("/dev/null".to_string()),
        secrets_input: model::SecretsInput::NoSecrets,
        flake_reference: model::FlakeReference::new("github:owner/repo".to_string()),
        deployment_transport: model::DeploymentTransport {
            nix_store_uri: model::NixStoreUri::new("ssh-ng://fixture-copy.invalid".to_string()),
            ssh_destination: model::SshDestination::new(
                "fixture-login@fixture-activate.invalid".to_string(),
            ),
        },
        deployment_input_mode: model::DeploymentInputMode::Direct,
        deployment_output_selector: model::DeploymentOutputSelector::new(
            model::FlakeAttribute::new("checks.fixture-a".to_string()),
        ),
        activation_backend: model::ActivationBackend::NixosSystemdBootV1,
        host_deploy_action: model::HostDeployAction::ScheduleBootOnce,
        source_revision_policy: model::SourceRevisionPolicy::ResolveAndRecord,
        optional_nix_builder_spec: None,
        extra_substituter_vector: Vec::new(),
    });
    let mut pipeline = DeployPipeline::from_submission(
        model::DeploymentIdentifier::new(1),
        model::GenerationIdentifier::new(1),
        marker(0),
        submission,
    );
    pipeline.deployment_identifier = model::DeploymentIdentifier::new(7);
    let cursor_unit = pipeline.boot_once_unit().expect("BootOnce records a unit");
    let activation = host_activation(model::HostDeployAction::ScheduleBootOnce);
    assert_eq!(activation.unit_name(), cursor_unit);
}

#[test]
fn boot_once_script_snapshot() {
    let activation = host_activation(model::HostDeployAction::ScheduleBootOnce);
    let expected = format!(
        "export PATH=/run/current-system/sw/bin:/run/wrappers/bin:$PATH\n\
         set -eu\n\
         CLOSURE='{STORE}'\n\
         OLD=$(bootctl status | awk -F': *' '/Current Entry:/ {{print $2}}')\n\
         [ -n \"$OLD\" ]\n\
         nix-env -p /nix/var/nix/profiles/system --set \"$CLOSURE\"\n\
         \"$CLOSURE/bin/switch-to-configuration\" boot\n\
         NEW=$(awk '$1 == \"default\" {{print $2; exit}}' /boot/loader/loader.conf)\n\
         [ -n \"$NEW\" ]\n\
         [ -f \"/boot/loader/entries/$NEW\" ]\n\
         [ \"$NEW\" != \"$OLD\" ]\n\
         bootctl set-default \"$OLD\"\n\
         bootctl set-oneshot \"$NEW\"\n\
         echo \"boot-once: oneshot=$NEW persistent-default=$OLD (=running generation)\"\n",
    );
    assert_eq!(activation.boot_once_script(), expected);
}

// ---- activation of user environments ------------------------------------------------

fn user_environment_activation(
    mode: model::UserEnvironmentAction,
    ssh_destination: &str,
) -> UserEnvironmentActivation {
    let profile = flow::ActivationProfile::UserEnvironment(flow::UserEnvironmentActivationProfile {
        user_environment_action: mode,
        user_name: model::UserName::new("li".to_string()),
    });
    let mut command = activate_command(profile, model::ActivationEffect::LiveActivation);
    command.deployment_transport.ssh_destination =
        flow::SshDestination::new(ssh_destination.to_string());
    match Activation::from_command(&command, None, None).expect("activation") {
        Activation::UserEnvironment(activation) => activation,
        Activation::Host(_) => panic!("expected user-environment activation"),
    }
}

#[test]
fn user_environment_remote_profile_uses_root_mediation() {
    let activation = user_environment_activation(
        model::UserEnvironmentAction::SetProfile,
        "root@fixture.invalid",
    );
    let invocation =
        activation.remote_profile_invocation().expect("root-mediated profile invocation");
    assert_eq!(invocation.program(), "ssh");
    let argv = invocation.joined_arguments();
    assert!(argv.contains("root@fixture.invalid"), "{argv}");
    assert!(argv.contains("runuser --login --command"), "{argv}");
    assert!(argv.trim_end().ends_with("li"), "{argv}");
    assert!(
        argv.contains("nix-env -p \"$HOME/.local/state/nix/profiles/home-manager\" --set"),
        "{argv}"
    );
    assert!(argv.contains(STORE), "{argv}");
}

#[test]
fn user_environment_remote_activate_uses_root_mediation() {
    let activation = user_environment_activation(
        model::UserEnvironmentAction::ActivateNow,
        "root@fixture.invalid",
    );
    let invocation =
        activation.remote_activate_invocation().expect("root-mediated activation invocation");
    let argv = invocation.joined_arguments();
    assert!(argv.contains("root@fixture.invalid"), "{argv}");
    assert!(argv.contains("runuser --login --command"), "{argv}");
    assert!(argv.trim_end().ends_with("li"), "{argv}");
    assert!(argv.contains(&format!("{STORE}/activate")), "{argv}");
}

#[test]
fn user_environment_matched_remote_login_runs_without_mediation() {
    let activation = user_environment_activation(
        model::UserEnvironmentAction::ActivateNow,
        "li@fixture.invalid",
    );
    let invocation =
        activation.remote_activate_invocation().expect("matched-user activation invocation");
    let argv = invocation.joined_arguments();
    assert!(argv.contains("li@fixture.invalid"), "{argv}");
    assert!(!argv.contains("runuser"), "{argv}");
    assert!(argv.contains(&format!("{STORE}/activate")), "{argv}");
}

#[test]
fn user_environment_local_profile_invocation_remains_local() {
    let activation = user_environment_activation(
        model::UserEnvironmentAction::SetProfile,
        "other@fixture.invalid",
    );
    let invocation = activation.local_profile_invocation("/home/li");
    assert_eq!(invocation.program(), "nix-env");
    let argv = invocation.joined_arguments();
    assert!(argv.contains("/home/li/.local/state/nix/profiles/home-manager"));
    assert!(!argv.contains("ssh"));
    assert!(!argv.contains("runuser"));
}
