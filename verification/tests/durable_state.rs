//! Durable state: what requests leave behind, and what can be asked of it.

use lojix::error::Error;
use lojix::runtime_flow as flow;
use lojix::runtime_model as model;
use lojix::schema_runtime::configuration::{
    ConfiguredTestDefaults, DaemonConfiguration, EffectExecution, RuntimeConfiguration,
};
use lojix::schema_runtime::decisions::DeploySubmissionOutcome;
use lojix::schema_runtime::effects::{
    activation_result, command_result, copy_closure_invocation, flake_auth_invocation,
    flake_auth_result, materialization_result, nix_build_result, nix_eval_invocation,
    path_info_gc_result, EffectPlan,
};
use lojix::schema_runtime::engine::{MetaOperation, SchemaRuntime};
use lojix::schema_runtime::requests::AdmissionEvidence;
use lojix::schema_runtime::runner::{RunnerStep, TestStep};
use lojix::schema_runtime::store::Store;
use lojix::schema_runtime::test_runs::{
    ClusterProjection, ProjectedNode, TestDefaults, TestSubmissionOutcome,
};

const STORE: &str = "/nix/store/aaaaaaaaaaaaaaaaaaaaaaaaaaaaaaaa-toplevel";
const DERIVATION: &str = "/nix/store/bbbbbbbbbbbbbbbbbbbbbbbbbbbbbbbb-system.drv";
const REVISION: &str = "aaaaaaaaaaaaaaaaaaaaaaaaaaaaaaaaaaaaaaaa";
const ADMITTED: AdmissionEvidence =
    AdmissionEvidence { proposal_available: true, user_name_admitted: true };

fn cluster() -> model::ClusterName {
    model::ClusterName::new("alpha".to_string())
}

fn node() -> model::NodeName {
    model::NodeName::new("node-1".to_string())
}

fn transport() -> model::DeploymentTransport {
    model::DeploymentTransport {
        nix_store_uri: model::NixStoreUri::new("ssh-ng://copy.invalid".to_string()),
        ssh_destination: model::SshDestination::new("root@activate.invalid".to_string()),
    }
}

fn selector() -> model::DeploymentOutputSelector {
    model::DeploymentOutputSelector::new(model::FlakeAttribute::new("checks.fixture".to_string()))
}

fn submission(action: model::HostDeployAction) -> model::DeploySubmission {
    model::DeploySubmission::Host(model::HostDeployment {
        cluster_name: cluster(),
        node_name: node(),
        host_composition: model::HostComposition::BaseHost,
        proposal_source: model::ProposalSource::new("/dev/null".to_string()),
        secrets_input: model::SecretsInput::NoSecrets,
        flake_reference: model::FlakeReference::new("github:owner/repo".to_string()),
        deployment_transport: transport(),
        deployment_input_mode: model::DeploymentInputMode::Direct,
        deployment_output_selector: selector(),
        activation_backend: model::ActivationBackend::NixosSystemdBootV1,
        host_deploy_action: action,
        source_revision_policy: model::SourceRevisionPolicy::ResolveAndRecord,
        optional_nix_builder_spec: None,
        extra_substituter_vector: Vec::new(),
    })
}

fn metadata() -> String {
    format!("{{\"url\":\"github:owner/repo?rev={REVISION}\",\"locked\":{{\"rev\":\"{REVISION}\"}}}}")
}

/// Runs hops until an effect is asked for or the request is answered.
fn hop(engine: &mut SchemaRuntime, work: flow::NexusWork) -> RunnerStep {
    let mut work = work;
    loop {
        match engine.advance(work, ADMITTED, None) {
            RunnerStep::Continue(next) => work = next,
            step => return step,
        }
    }
}

/// What the effect would come to on a machine where everything works.
fn performed(command: flow::EffectCommand) -> flow::EffectResult {
    match command {
        flow::EffectCommand::ResolveFlakeAuth(request) => flake_auth_result(request, Ok(metadata())),
        flow::EffectCommand::MaterializeHorizon(_) => materialization_result(Ok(Vec::new())),
        flow::EffectCommand::ActivateGeneration(command) => activation_result(command, Ok(())),
        flow::EffectCommand::NixBuild(command) => nix_build_result(command, Ok(format!("{STORE}\n"))),
        command => command_result(command, Ok(format!("{DERIVATION}\n"))).expect("a command"),
    }
}

/// Drives a submission to its answer; also gives the names of the effects it ran.
fn drive(engine: &mut SchemaRuntime, action: model::HostDeployAction) -> (model::MetaEgress, Vec<String>) {
    let mut effects: Vec<String> = Vec::new();
    let arrived = flow::NexusWork::SignalArrived(flow::SignalInput::MetaInput(
        model::MetaIngress::Deploy(submission(action)),
    ));
    let mut step = hop(engine, arrived);
    loop {
        match step {
            RunnerStep::Reply(flow::SignalOutput::MetaOutput(output)) => return (output, effects),
            RunnerStep::RunEffect(command) => {
                let name = format!("{command:?}");
                effects.push(name.split('(').next().unwrap_or("").to_string());
                step = hop(engine, flow::NexusWork::EffectCompleted(performed(command)));
            }
            other => panic!("a deployment runs effects until it is answered, got {other:?}"),
        }
    }
}

fn live(engine: &SchemaRuntime) -> Vec<model::Generation> {
    let selection = model::Selection::ByNode(model::NodeSelector {
        cluster_name: cluster(),
        node_name: node(),
        optional_generation_artifact: None,
    });
    match engine.query_generations(selection) {
        model::SemaReadOutput::GenerationsQueried(listing) => listing.generation_vector,
        other => panic!("expected generations, got {other:?}"),
    }
}

// ---- whole deployments -------------------------------------------------------------------

#[test]
fn a_switch_resolves_evaluates_builds_copies_and_activates() {
    let mut engine = SchemaRuntime::new("/tmp");
    let (answer, effects) = drive(&mut engine, model::HostDeployAction::ActivateNow);
    assert_eq!(
        effects,
        vec!["ResolveFlakeAuth", "NixEval", "NixBuild", "CopyClosure", "ActivateGeneration"]
    );
    match answer {
        model::MetaEgress::DeployTerminal(record) => {
            assert_eq!(record.optional_deployment_terminal, Some(model::DeploymentTerminal::Succeeded));
            assert_eq!(record.deployment_lifecycle, model::DeploymentLifecycle::Completed);
        }
        other => panic!("expected a finished deployment, got {other:?}"),
    }
    assert!(engine.active_deploy.is_none());
    let generations = live(&engine);
    assert_eq!(generations.len(), 1);
    assert_eq!(generations[0].closure_path.payload(), STORE);
    assert_eq!(generations[0].generation_slot, model::GenerationSlot::Current);
    assert_eq!(
        generations[0].optional_immutable_revision,
        Some(model::ImmutableRevision::new(REVISION.to_string()))
    );
    assert_eq!(engine.store().gc_roots().len(), 1);
}

#[test]
fn an_evaluation_builds_nothing() {
    let mut engine = SchemaRuntime::new("/tmp");
    let (_, effects) = drive(&mut engine, model::HostDeployAction::Evaluate);
    assert_eq!(effects, vec!["ResolveFlakeAuth", "NixEval"]);
    assert!(live(&engine).is_empty());
}

#[test]
fn a_realized_closure_is_not_activated() {
    let mut engine = SchemaRuntime::new("/tmp");
    let (_, effects) = drive(&mut engine, model::HostDeployAction::Realize);
    assert_eq!(effects, vec!["ResolveFlakeAuth", "NixEval", "NixBuild"]);
    assert!(live(&engine).is_empty());
}

#[test]
fn a_failed_effect_ends_the_deployment_without_its_details() {
    let mut engine = SchemaRuntime::new("/tmp");
    let arrived = flow::NexusWork::SignalArrived(flow::SignalInput::MetaInput(
        model::MetaIngress::Deploy(submission(model::HostDeployAction::Realize)),
    ));
    let RunnerStep::RunEffect(flow::EffectCommand::ResolveFlakeAuth(request)) =
        hop(&mut engine, arrived)
    else {
        panic!("the source is resolved first")
    };
    let failed = flake_auth_result(request, Err("nix: token-1234 refused".to_string()));
    let answer = hop(&mut engine, flow::NexusWork::EffectCompleted(failed));
    let RunnerStep::Reply(flow::SignalOutput::MetaOutput(model::MetaEgress::DeployTerminal(record))) =
        answer
    else {
        panic!("a failed deployment is answered")
    };
    assert_eq!(
        record.optional_deployment_terminal,
        Some(model::DeploymentTerminal::Failed(model::DeploymentFailure {
            deployment_failure_stage: model::DeploymentFailureStage::FlakeAuth,
            deployment_terminal_reason: model::DeploymentTerminalReason::ProposalSourceUnreachable,
        }))
    );
    assert!(!format!("{record:?}").contains("token-1234"));
    assert_eq!(engine.store().deployment_records().len(), 1);
}

#[test]
fn deployments_are_numbered_apart_and_found_again() {
    let mut engine = SchemaRuntime::new("/tmp");
    drive(&mut engine, model::HostDeployAction::Evaluate);
    drive(&mut engine, model::HostDeployAction::Evaluate);
    let records = engine.store().deployment_records();
    assert_eq!(records.len(), 2);
    let (first, second) = (*records[0].deployment_identifier.payload(), *records[1].deployment_identifier.payload());
    assert!(first < second);
    assert!(engine.store().has_deployment(second));
    assert!(!engine.store().has_deployment(second + 1));
    assert_eq!(
        *engine.store().find_deployment(first).expect("a record").deployment_identifier.payload(),
        first
    );
}

#[test]
fn a_second_deployment_is_refused_while_one_is_in_flight() {
    let mut engine = SchemaRuntime::new("/tmp");
    let rejected = engine.reject_deployment_in_flight(submission(model::HostDeployAction::Evaluate));
    assert_eq!(
        rejected.0.optional_deployment_terminal,
        Some(model::DeploymentTerminal::Rejected(model::DeploymentTerminalReason::DeploymentInFlight))
    );
    assert_eq!(engine.store().deployment_records().len(), 1);
    assert!(engine.store().deploy_jobs().is_empty());
}

#[test]
fn an_admission_leaves_a_job_that_survives_a_restart() {
    let mut engine = SchemaRuntime::new("/tmp");
    let outcome = engine.submit_deploy(submission(model::HostDeployAction::ScheduleBootOnce), ADMITTED);
    let DeploySubmissionOutcome::Accepted(handle) = outcome else {
        panic!("a good request is admitted")
    };
    let identifier = *handle.deployment_identifier.payload();
    let jobs = engine.store().deploy_jobs();
    assert_eq!(jobs.len(), 1);
    assert_eq!(
        jobs[0].boot_once_unit,
        Some(format!("lojix-boot-once-deploy-{identifier}"))
    );
    let job = jobs[0].clone();
    let mut restarted = SchemaRuntime::with_store(engine.store, "/tmp");
    assert_eq!(restarted.resume_deploy_job(job), Ok(true));
    assert_eq!(restarted.active_deployment_identifier(), Some(handle.deployment_identifier.clone()));
    match restarted.begin_submitted_deploy() {
        Ok(flow::NexusWork::SemaWriteCompleted(model::SemaWriteOutput::DeploySubmitted(again))) => {
            assert_eq!(again, handle);
        }
        other => panic!("the deployment starts where it was, got {other:?}"),
    }
}

#[test]
fn a_job_of_an_ended_deployment_is_not_resumed() {
    let mut engine = SchemaRuntime::new("/tmp");
    engine.submit_deploy(submission(model::HostDeployAction::Realize), ADMITTED);
    let job = engine.store().deploy_jobs()[0].clone();
    engine.finish_deploy_pipeline();
    assert_eq!(engine.resume_deploy_job(job), Ok(false));
    assert!(engine.active_deploy.is_none());
}

#[test]
fn a_job_without_its_deployment_contradicts_the_store() {
    let mut engine = SchemaRuntime::new("/tmp");
    engine.submit_deploy(submission(model::HostDeployAction::Realize), ADMITTED);
    let mut job = engine.store().deploy_jobs()[0].clone();
    job.deployment_identifier = model::DeploymentIdentifier::new(99);
    let mut other = SchemaRuntime::new("/tmp");
    assert!(matches!(other.resume_deploy_job(job), Err(Error::Invariant(_))));
}

// ---- what every step keeps ----------------------------------------------------------------

#[test]
fn every_event_has_its_intent_and_its_delivery() {
    let mut engine = SchemaRuntime::new("/tmp");
    drive(&mut engine, model::HostDeployAction::ActivateNow);
    drive(&mut engine, model::HostDeployAction::Realize);
    let store = engine.store();
    let mut events: Vec<model::DeploymentPhaseEvent> = Vec::new();
    for entry in store.events.payload() {
        if let model::LoggedEvent::Deployment(event) = &entry.logged_event {
            events.push(event.clone());
        }
    }
    assert!(events.len() > 5);
    assert_eq!(store.intents.payload().len(), events.len());
    assert_eq!(store.outbox.payload().len(), events.len());
    for at in 0..events.len() {
        let marker = model::TransitionMarker::new(events[at].state_marker.clone());
        let intent = &store.intents.payload()[at];
        assert_eq!(intent.transition_ordinal, model::TransitionOrdinal::new(at as u64));
        assert_eq!(intent.optional_transition_marker, Some(marker.clone()));
        assert_eq!(intent.transition_intent_state, model::TransitionIntentState::Acknowledged);
        assert_eq!(intent.event_log_position, events[at].event_log_position);
        let row = &store.outbox.payload()[at];
        assert_eq!(row.transition_marker, marker);
        assert_eq!(row.deployment_phase_event, events[at]);
        assert_eq!(row.outbox_delivery_state, model::OutboxDeliveryState::Acknowledged);
    }
}

#[test]
fn no_closure_that_is_not_a_store_root_becomes_a_generation() {
    let mut engine = SchemaRuntime::new("/tmp");
    let arrived = flow::NexusWork::SignalArrived(flow::SignalInput::MetaInput(
        model::MetaIngress::Deploy(submission(model::HostDeployAction::ActivateNow)),
    ));
    let mut step = hop(&mut engine, arrived);
    while let RunnerStep::RunEffect(command) = step {
        let result = match command {
            flow::EffectCommand::NixBuild(command) => {
                nix_build_result(command, Ok("/nix/store/../etc\n".to_string()))
            }
            command => performed(command),
        };
        step = hop(&mut engine, flow::NexusWork::EffectCompleted(result));
    }
    assert!(matches!(step, RunnerStep::Reply(_)));
    assert!(live(&engine).is_empty());
    assert!(engine.store().roots.payload().is_empty());
    let (kept, _) = deployed();
    assert_eq!(*kept.store().roots.payload()[0].closure_path.payload(), STORE);
}

/// `request` with another proposal source and flake reference.
fn sourced(request: model::DeploySubmission, proposal: &str, flake: &str) -> model::DeploySubmission {
    match request {
        model::DeploySubmission::Host(mut host) => {
            host.proposal_source = model::ProposalSource::new(proposal.to_string());
            host.flake_reference = model::FlakeReference::new(flake.to_string());
            model::DeploySubmission::Host(host)
        }
        other => other,
    }
}

#[test]
fn replies_show_neither_proposal_sources_nor_raw_references() {
    let asked = || submission(model::HostDeployAction::Realize);
    let mut first = SchemaRuntime::new("/tmp");
    let mut second = SchemaRuntime::new("/tmp");
    let one = sourced(asked(), "/srv/one/proposal.datom", "github:owner/repo");
    let other = sourced(asked(), "/srv/other/proposal.datom", "github:elsewhere/fork");
    assert_eq!(first.submit_deploy(one, ADMITTED), second.submit_deploy(other, ADMITTED));
    let events = |engine: &SchemaRuntime| engine.store().events.payload().clone();
    assert_eq!(first.store().deployment_records(), second.store().deployment_records());
    assert_eq!(events(&first), events(&second));
    assert_ne!(first.store().deploy_jobs()[0], second.store().deploy_jobs()[0]);
    first.finish_deploy_pipeline();
    second.finish_deploy_pipeline();
    assert_eq!(first.store().deployment_records(), second.store().deployment_records());
    assert_eq!(live(&first), live(&second));
    // Refused for want of a proposal.
    let absent = AdmissionEvidence { proposal_available: false, user_name_admitted: true };
    let one = sourced(asked(), "/srv/one/proposal.datom", "github:owner/repo");
    let other = sourced(asked(), "relative", "github:elsewhere/fork");
    assert_eq!(first.submit_deploy(one, absent), second.submit_deploy(other, absent));
    assert_eq!(events(&first), events(&second));
}

// ---- pins ---------------------------------------------------------------------------------

fn pin(generation: u64, label: &str) -> model::PinRequest {
    model::PinRequest {
        cluster_name: cluster(),
        node_name: node(),
        generation_identifier: model::GenerationIdentifier::new(generation),
        pin_label: model::PinLabel::new(label.to_string()),
    }
}

fn unpin(label: &str) -> model::UnpinRequest {
    model::UnpinRequest {
        cluster_name: cluster(),
        node_name: node(),
        pin_label: model::PinLabel::new(label.to_string()),
    }
}

fn retire(generation: u64) -> model::RetireRequest {
    model::RetireRequest {
        cluster_name: cluster(),
        node_name: node(),
        generation_identifier: model::GenerationIdentifier::new(generation),
    }
}

fn refused(output: model::SemaWriteOutput) -> model::RejectionReason {
    match output {
        model::SemaWriteOutput::WriteRejected(report) => report.rejection_reason,
        other => panic!("expected a refusal, got {other:?}"),
    }
}

fn deployed() -> (SchemaRuntime, u64) {
    let mut engine = SchemaRuntime::new("/tmp");
    drive(&mut engine, model::HostDeployAction::ActivateNow);
    let generation = *engine.store().gc_roots()[0].generation_identifier.payload();
    (engine, generation)
}

#[test]
fn a_pinned_generation_is_kept_until_it_is_unpinned() {
    let (mut engine, generation) = deployed();
    match engine.pin_generation(pin(generation, "stable")) {
        model::SemaWriteOutput::GenerationPinned(applied) => {
            assert_eq!(applied.from_slot, model::GenerationSlot::Current);
            assert_eq!(applied.to_slot, model::GenerationSlot::Pinned);
        }
        other => panic!("expected a pin, got {other:?}"),
    }
    assert_eq!(
        refused(engine.retire_generation(retire(generation))),
        model::RejectionReason::GenerationPinned
    );
    match engine.unpin_generation(unpin("stable")) {
        model::SemaWriteOutput::GenerationUnpinned(applied) => {
            assert_eq!(*applied.generation_identifier.payload(), generation);
            assert_eq!(applied.to_slot, model::GenerationSlot::Recent);
        }
        other => panic!("expected an unpin, got {other:?}"),
    }
    assert!(matches!(
        engine.retire_generation(retire(generation)),
        model::SemaWriteOutput::GenerationRetired(_)
    ));
    assert!(engine.store().gc_roots().is_empty());
}

#[test]
fn labels_and_generations_that_are_not_there_are_refused() {
    let (mut engine, generation) = deployed();
    assert_eq!(
        refused(engine.pin_generation(pin(generation + 1, "stable"))),
        model::RejectionReason::GenerationUnknown
    );
    assert_eq!(
        refused(engine.unpin_generation(unpin("stable"))),
        model::RejectionReason::PinLabelUnknown
    );
    assert_eq!(
        refused(engine.retire_generation(retire(generation + 1))),
        model::RejectionReason::GenerationUnknown
    );
    engine.pin_generation(pin(generation, "stable"));
    assert_eq!(
        refused(engine.pin_generation(pin(generation, "stable"))),
        model::RejectionReason::PinLabelInUse
    );
}

#[test]
fn a_refused_pin_is_answered_as_one() {
    let mut engine = SchemaRuntime::new("/tmp");
    let arrived = flow::NexusWork::SignalArrived(flow::SignalInput::MetaInput(
        model::MetaIngress::Pin(pin(1, "stable")),
    ));
    match hop(&mut engine, arrived) {
        RunnerStep::Reply(flow::SignalOutput::MetaOutput(model::MetaEgress::PinRejected(rejected))) => {
            assert_eq!(rejected.pin_rejection_reason, model::PinRejectionReason::GenerationUnknown);
        }
        other => panic!("expected a refused pin, got {other:?}"),
    }
    assert_eq!(engine.active_operation, None);
}

// ---- the event log -------------------------------------------------------------------------

#[test]
fn the_event_log_is_read_in_ranges() {
    let (engine, _) = deployed();
    let entries = engine.store().event_log_in_range(1, 100).expect("events");
    let positions: Vec<u64> =
        entries.iter().map(|entry| *entry.event_log_position.payload()).collect();
    assert_eq!(positions.len(), 5);
    assert!(positions.windows(2).all(|pair| pair[0] < pair[1]));
    match engine.read_event_log(model::EventLogRange {
        from: model::EventLogPosition::new(1),
        until: model::EventLogPosition::new(100),
    }) {
        model::SemaReadOutput::EventLogRead(page) => {
            let phases: Vec<model::DeploymentPhase> = page
                .deployment_phase_event_vector
                .iter()
                .map(|event| event.deployment_phase)
                .collect();
            assert_eq!(
                phases,
                vec![
                    model::DeploymentPhase::Submitted,
                    model::DeploymentPhase::Building,
                    model::DeploymentPhase::Copying,
                    model::DeploymentPhase::Activated,
                    model::DeploymentPhase::Completed,
                ]
            );
        }
        other => panic!("expected events, got {other:?}"),
    }
}

#[test]
fn subscriptions_get_tokens_of_their_own() {
    let mut engine = SchemaRuntime::new("/tmp");
    let mut watch = || {
        let arrived = flow::NexusWork::SignalArrived(flow::SignalInput::OrdinaryInput(
            model::OrdinaryIngress::WatchDeployments(model::DeploymentWatch {
                optional_deployment_identifier: None,
                optional_cluster_name: None,
                optional_node_name: None,
            }),
        ));
        match hop(&mut engine, arrived) {
            RunnerStep::Reply(flow::SignalOutput::OrdinaryOutput(
                model::OrdinaryEgress::Watching(opened),
            )) => *opened.subscription_token.payload(),
            other => panic!("expected a subscription, got {other:?}"),
        }
    };
    assert_ne!(watch(), watch());
}

#[test]
fn containers_are_logged_and_listed() {
    let mut engine = SchemaRuntime::new("/tmp");
    let transition = model::ContainerTransition {
        cluster_name: cluster(),
        node_name: node(),
        container_name: model::ContainerName::new("vm-node-1".to_string()),
        container_state: model::ContainerState::Started,
    };
    match engine.record_container_transition(transition) {
        model::SemaWriteOutput::ContainerRecorded(receipt) => {
            let listed = engine.store().container_transitions();
            assert_eq!(listed.len(), 1);
            assert_eq!(listed[0].event_log_position, receipt.event_log_position);
        }
        other => panic!("expected a receipt, got {other:?}"),
    }
}

// ---- tests of hosts -----------------------------------------------------------------------

fn projection() -> ClusterProjection {
    ClusterProjection {
        nodes: vec![
            ProjectedNode {
                name: node(),
                super_node: Some(model::NodeName::new("vm-host".to_string())),
            },
            ProjectedNode { name: model::NodeName::new("vm-host".to_string()), super_node: None },
        ],
    }
}

fn tested_engine() -> SchemaRuntime {
    let configuration = RuntimeConfiguration::from_daemon_configuration(&DaemonConfiguration {
        state_directory_path: "/var/lib/lojix".to_string(),
        daemon_host: "vm-host".to_string(),
        test_defaults: Some(ConfiguredTestDefaults {
            cluster: "alpha".to_string(),
            default_vm_host: "vm-host".to_string(),
            default_mode: model::TestMode::Hermetic,
            test_flake: "github:owner/tests".to_string(),
            test_nix_system: "x86_64-linux".to_string(),
            test_output_selector: "checks.fixture".to_string(),
            proposal_source: "/cluster/proposal.datom".to_string(),
        }),
    });
    SchemaRuntime::with_store_and_configuration(Store::new(), configuration)
}

fn quick_check() -> model::TestRequest {
    model::TestRequest::Check(model::QuickCheck::new(vec![node()]))
}

#[test]
fn a_passed_check_is_on_record_with_its_closure() {
    let mut engine = tested_engine();
    let projection = projection();
    let TestSubmissionOutcome::Accepted(accepted) =
        engine.submit_test(quick_check(), Some(&projection))
    else {
        panic!("a hermetic check is accepted")
    };
    let effect = engine.begin_submitted_test().expect("an effect");
    assert_eq!(engine.active_operation, Some(MetaOperation::Test));
    let flow::EffectCommand::HermeticCheck(_) = &effect else {
        panic!("a hermetic check builds, got {effect:?}")
    };
    let result = command_result(effect, Ok(format!("{STORE}\n"))).expect("a command");
    let action = engine.decide_test_effect_completion(result);
    assert!(matches!(engine.drive_to_terminal(action), TestStep::Done(model::MetaEgress::Tested(_))));
    let run = &engine.store().test_runs()[0];
    assert_eq!(run.test_run_identifier, accepted.test_run_identifier);
    assert_eq!(run.test_outcome, model::TestOutcome::Passed);
    assert_eq!(run.optional_closure_path, Some(model::ClosurePath::new(STORE.to_string())));
}

#[test]
fn a_failed_check_never_passes() {
    let mut engine = tested_engine();
    let projection = projection();
    engine.submit_test(quick_check(), Some(&projection));
    let effect = engine.begin_submitted_test().expect("an effect");
    let result = command_result(effect, Err("builder failed".to_string())).expect("a command");
    engine.decide_test_effect_completion(result);
    assert_eq!(
        engine.store().test_runs()[0].test_outcome,
        model::TestOutcome::Failed(model::FailureStage::HermeticCheck)
    );
    assert!(engine.active_test.is_none());
}

#[test]
fn a_check_that_returns_no_store_root_shows_no_closure() {
    let mut engine = tested_engine();
    let projection = projection();
    engine.submit_test(quick_check(), Some(&projection));
    let effect = engine.begin_submitted_test().expect("an effect");
    let result = command_result(effect, Ok("/nix/store/../etc\n".to_string())).expect("a command");
    engine.decide_test_effect_completion(result);
    let run = engine.store().test_runs()[0].clone();
    let output = engine.observe_sema(model::SemaReadInput::QueryTestRuns(model::TestRunLookup {
        cluster_name: run.cluster_name.clone(),
        node_name: run.node.clone(),
        optional_test_run_identifier: None,
    }));
    let model::SemaReadOutput::TestRunsQueried(listing) = output else {
        panic!("expected test runs, got {output:?}")
    };
    assert_eq!(listing.test_run_record_vector.len(), 1);
    assert_eq!(listing.test_run_record_vector[0].optional_closure_path, None);
    assert_eq!(
        listing.test_run_record_vector[0].test_outcome,
        model::TestOutcome::Failed(model::FailureStage::HermeticCheck)
    );
}

// ---- counters at their limits ---------------------------------------------------------------

fn ordinary(request: model::OrdinaryIngress) -> flow::NexusWork {
    flow::NexusWork::SignalArrived(flow::SignalInput::OrdinaryInput(request))
}

fn watch() -> flow::NexusWork {
    ordinary(model::OrdinaryIngress::WatchDeployments(model::DeploymentWatch {
        optional_deployment_identifier: None,
        optional_cluster_name: None,
        optional_node_name: None,
    }))
}

fn unwatch(token: u64) -> flow::NexusWork {
    ordinary(model::OrdinaryIngress::Unwatch(model::SubscriptionClose::new(
        model::SubscriptionToken::new(token),
    )))
}

#[test]
fn what_takes_nothing_is_answered_at_any_count() {
    let (mut engine, generation) = deployed();
    for commits in [u64::MAX - 7, u64::MAX] {
        engine.store.commits = commits;
        assert!(matches!(
            hop(&mut engine, unwatch(1)),
            RunnerStep::Reply(flow::SignalOutput::OrdinaryOutput(
                model::OrdinaryEgress::Unwatched(_)
            ))
        ));
        let listed = ordinary(model::OrdinaryIngress::Query(model::Selection::ByGeneration(
            model::GenerationLookup::new(model::GenerationIdentifier::new(generation)),
        )));
        assert!(matches!(hop(&mut engine, listed), RunnerStep::Reply(_)));
        assert!(matches!(hop(&mut engine, watch()), RunnerStep::Reply(_)));
    }
    // An unknown generation is refused without a commit; a known one has no commit left.
    let ask = |request| flow::NexusWork::SignalArrived(flow::SignalInput::MetaInput(
        model::MetaIngress::Pin(request),
    ));
    assert!(matches!(
        hop(&mut engine, ask(pin(generation + 1, "kept"))),
        RunnerStep::Reply(flow::SignalOutput::MetaOutput(model::MetaEgress::PinRejected(_)))
    ));
    assert!(matches!(
        hop(&mut engine, ask(pin(generation, "kept"))),
        RunnerStep::Unwritten(model::SemaWriteInput::PinGeneration(_))
    ));
    engine.store.commits = u64::MAX - 1;
    assert!(matches!(
        hop(&mut engine, ask(pin(generation, "kept"))),
        RunnerStep::Reply(flow::SignalOutput::MetaOutput(model::MetaEgress::Pinned(_)))
    ));
}

#[test]
fn one_counter_at_its_limit_stops_only_what_takes_from_it() {
    let mut engine = SchemaRuntime::new("/tmp");
    engine.store.next_token = u64::MAX;
    assert!(matches!(hop(&mut engine, watch()), RunnerStep::Undecided(_)));
    assert!(matches!(hop(&mut engine, unwatch(1)), RunnerStep::Reply(_)));
    let (answer, _) = drive(&mut engine, model::HostDeployAction::ActivateNow);
    assert!(matches!(answer, model::MetaEgress::DeployTerminal(_)));
    assert!(engine.store().has_room_for_deployment());
    engine.store.allocation.next_deployment_identifier = u64::MAX;
    assert!(!engine.store().has_room_for_deployment());
    assert!(engine.store().has_room(1, 1));
}

#[test]
fn tests_need_their_defaults() {
    let mut engine = SchemaRuntime::with_store_and_configuration(
        Store::new(),
        RuntimeConfiguration::from_daemon_configuration(&DaemonConfiguration {
            state_directory_path: "/var/lib/lojix".to_string(),
            daemon_host: "vm-host".to_string(),
            test_defaults: None,
        }),
    );
    match engine.submit_test(quick_check(), None) {
        TestSubmissionOutcome::Rejected(rejected) => {
            assert_eq!(rejected.test_rejection_reason, model::TestRejectionReason::NoTestDefaults);
        }
        other => panic!("expected a refusal, got {other:?}"),
    }
}

#[test]
fn a_host_runs_only_the_nodes_it_declares() {
    let projection = projection();
    let host = model::NodeName::new("vm-host".to_string());
    assert_eq!(projection.validate_host_for_node(&host, &node()), Ok(()));
    assert_eq!(projection.hosted_pod_nodes(), vec![node()]);
    let defaults = TestDefaults::test_default();
    assert_eq!(
        defaults.resolve_host(model::HostSelection::OnHost(node())),
        node()
    );
}

// ---- effects ------------------------------------------------------------------------------

fn auth_request() -> flow::FlakeAuthRequest {
    flow::FlakeAuthRequest {
        proposal_source: model::ProposalSource::new("/dev/null".to_string()),
        flake_reference: model::FlakeReference::new("github:owner/repo".to_string()),
        source_revision_policy: model::SourceRevisionPolicy::ResolveAndRecord,
    }
}

#[test]
fn flake_metadata_names_the_revision() {
    assert_eq!(
        flake_auth_invocation(&auth_request()).joined_arguments(),
        "flake metadata --json github:owner/repo"
    );
    match flake_auth_result(auth_request(), Ok(metadata())) {
        flow::EffectResult::FlakeResolved(resolved) => {
            assert_eq!(resolved.payload().string, REVISION);
            assert_eq!(
                resolved.payload().resolved_ref.payload(),
                &format!("github:owner/repo?rev={REVISION}")
            );
            assert_eq!(resolved.payload().requested_ref.payload(), "github:owner/repo");
        }
        other => panic!("expected a revision, got {other:?}"),
    }
    let printed = "{\"resolvedUrl\":\"github:owner/repo\",\"narHash\":\"sha256-x\"}";
    match flake_auth_result(auth_request(), Ok(printed.to_string())) {
        flow::EffectResult::FlakeResolved(resolved) => {
            assert_eq!(resolved.payload().string, "sha256-x");
        }
        flow::EffectResult::EffectFailed(failure) => {
            assert_eq!(failure.effect_stage, flow::EffectStage::FlakeAuth);
        }
        other => panic!("expected a revision, got {other:?}"),
    }
}

#[test]
fn metadata_that_is_no_json_fails_the_resolution() {
    match flake_auth_result(auth_request(), Ok("not json".to_string())) {
        flow::EffectResult::EffectFailed(failure) => {
            assert_eq!(failure.effect_stage, flow::EffectStage::FlakeAuth);
            assert!(failure.string.starts_with("nix flake metadata returned malformed json: "));
            assert!(failure.string.len() > "nix flake metadata returned malformed json: ".len());
        }
        other => panic!("expected a failure, got {other:?}"),
    }
}

#[test]
fn collected_paths_are_counted() {
    let command = flow::PathInfoGcCommand { cluster_name: cluster(), node_name: node() };
    match path_info_gc_result(command, Ok("/nix/store/a\n\n/nix/store/b\n".to_string())) {
        flow::EffectResult::PathsCollected(collected) => assert_eq!(collected.integer, 2),
        other => panic!("expected a count, got {other:?}"),
    }
}

#[test]
fn a_bad_route_is_refused_before_a_copy_runs() {
    let command = flow::CopyClosureCommand {
        generation_identifier: model::GenerationIdentifier::new(1),
        node_name: node(),
        deployment_transport: flow::DeploymentTransport {
            nix_store_uri: flow::NixStoreUri::new("not a uri".to_string()),
            ssh_destination: flow::SshDestination::new("root@x.invalid".to_string()),
        },
        closure_path: model::ClosurePath::new(STORE.to_string()),
    };
    match copy_closure_invocation(&command) {
        Err(flow::EffectResult::EffectFailed(failure)) => {
            assert_eq!(failure.effect_stage, flow::EffectStage::CopyClosure);
        }
        other => panic!("expected a refusal, got {other:?}"),
    }
    let engine = SchemaRuntime::new("/tmp");
    assert!(matches!(
        engine.plan_effect(&flow::EffectCommand::CopyClosure(command), None),
        EffectPlan::Done(flow::EffectResult::EffectFailed(_))
    ));
}

#[test]
fn evaluation_takes_the_overridden_inputs() {
    let mut engine = SchemaRuntime::new("/tmp");
    engine.submit_deploy(submission(model::HostDeployAction::Evaluate), ADMITTED);
    engine.set_input_overrides(vec![flow::FlakeInputOverride {
        string: "horizon".to_string(),
        flake_input_reference: flow::FlakeInputReference {
            url: "path:/inputs/horizon".to_string(),
            nix_archive_hash: "sha256-x".to_string(),
        },
    }]);
    let command = engine.active_deploy.as_ref().expect("a pipeline").nix_eval_command();
    let argv = nix_eval_invocation(&command).joined_arguments();
    assert!(argv.contains("--override-input horizon path:/inputs/horizon?narHash=sha256-x"), "{argv}");
    assert!(argv.ends_with("github:owner/repo#checks.fixture.drvPath"), "{argv}");
}

#[test]
fn programs_are_looked_up_where_a_test_puts_them() {
    assert_eq!(EffectExecution::production().program("nix"), "nix");
    assert_eq!(EffectExecution::test("/tmp/bin".to_string()).program("nix"), "/tmp/bin/nix");
}
