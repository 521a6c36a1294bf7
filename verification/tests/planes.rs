//! The planes of the daemon: conversations, mail, the ledger and the tools.

use lojix::error::Error;
use lojix::generated::{
    ActivationKind, ActivationRecord, ActorRequest, ActorReply, BuildLog, BuildRecord, ClosurePath,
    CopyRecord, CriomeAuthorization, DatabaseMarker, DeploymentIdentifier, DeploymentRequest,
    Detail, GenerationIdentifier, GenerationSelector, HelpQuery, HelpTopic, HorizonView, Input,
    MailLifecycle, MarkedOutput, MessageIdentifier, NotaDecodeError, ObservationRecord, Output,
    Phase, PlanRecord, RejectionReason, SemaCommand, SemaResponse, SourceDigest, SourceRecord,
    StateDirectory, Status, TargetNode, Toolchain,
};
use lojix::runtime::activator::{Activator, DriveActivation};
use lojix::runtime::authorization::{AuthorizationGate, AuthorizationPolicy, AuthorizeMessage};
use lojix::runtime::builder::{Builder, DriveBuild};
use lojix::runtime::communicate::{
    announced_length, decode_frame, encode_frame, length_prefix, UnixSocketCommunicate,
};
use lojix::runtime::conversation::{Answer, Ask, Conversation, Stage, Turn};
use lojix::runtime::copier::{ClosureCopier, DriveCopy};
use lojix::runtime::dispatcher::Dispatch;
use lojix::runtime::gc_root::{DrivePin, GcRootPinner};
use lojix::runtime::nexus::{DispatchMail, MailLogSnapshot, NexusMailKeeper};
use lojix::runtime::observation::{BroadcastObservation, ObservationFan, Subscribe};
use lojix::runtime::run::{single_root, unreadable_configuration, ConfigurationSource};
use lojix::runtime::socket::{bind_failure, unbound_socket};
use lojix::runtime::source_stager::SourceStager;
use lojix::runtime::store::Store;
use lojix::runtime::toolchain::{
    process_outcome, spawn_failure, ProcessToolchain, ToolOutcome, ToolchainMode,
};
use lojix::runtime::trace::{
    AuthorizationDecision, Plane, RecordWitness, SemaCommandTag, TraceLog, TraceWitness,
};

fn request(authorization: CriomeAuthorization) -> DeploymentRequest {
    DeploymentRequest {
        horizon_view: HorizonView("alpha".to_string()),
        target_node: TargetNode("node-1".to_string()),
        criome_authorization: authorization,
    }
}

fn plan(identifier: u64) -> PlanRecord {
    PlanRecord {
        deployment_identifier: DeploymentIdentifier(identifier),
        horizon_view: HorizonView("alpha".to_string()),
        target_node: TargetNode("node-1".to_string()),
    }
}

fn build(generation: u64) -> BuildRecord {
    BuildRecord {
        generation_identifier: GenerationIdentifier(generation),
        closure_path: ClosurePath("/nix/store/closure".to_string()),
        build_log: BuildLog("log".to_string()),
    }
}

fn copy(generation: u64) -> CopyRecord {
    CopyRecord {
        generation_identifier: GenerationIdentifier(generation),
        target_node: TargetNode("node-1".to_string()),
        closure_path: ClosurePath("/nix/store/closure".to_string()),
    }
}

fn activation(generation: u64) -> ActivationRecord {
    ActivationRecord {
        generation_identifier: GenerationIdentifier(generation),
        target_node: TargetNode("node-1".to_string()),
        activation_kind: ActivationKind::Test,
    }
}

fn observation(phase: Phase, status: Status, detail: &str) -> ObservationRecord {
    ObservationRecord {
        deployment_identifier: DeploymentIdentifier(1),
        phase,
        status,
        detail: Detail(detail.to_string()),
    }
}

fn sandbox() -> ProcessToolchain {
    ProcessToolchain::new(Toolchain::sandbox_default(), ToolchainMode::Sandbox)
}

fn printed(text: &str) -> ToolOutcome {
    process_outcome(true, Some(0), text, "")
}

// ---- conversations ---------------------------------------------------------------------

fn told(turn: Turn) -> ObservationRecord {
    match turn {
        Turn::Ask(Ask::Broadcast(record)) => record,
        other => panic!("expected an observation, got {other:?}"),
    }
}

fn drive_granted(plane: Plane, marks: bool) -> (Turn, Vec<TraceWitness>) {
    let mut witnesses: Vec<TraceWitness> = Vec::new();
    let asked = request(CriomeAuthorization::Bypass);
    let (mut conversation, turn) =
        Conversation::begin(plane, marks, Input::Submit(asked.clone()), &mut witnesses);
    assert_eq!(turn, Turn::Ask(Ask::Authorize(asked)));
    let mut say = |answer: Answer| conversation.answer(answer, &mut witnesses);
    assert_eq!(
        say(Answer::Decided(AuthorizationDecision::Granted)),
        Turn::Ask(Ask::Apply(SemaCommand::RecordPlan(plan(0))))
    );
    assert_eq!(
        say(Answer::Applied(SemaResponse::Acknowledged(
            lojix::generated::SemaCommandIdentifier(1)
        ))),
        Turn::Ask(Ask::Plans)
    );
    assert_eq!(say(Answer::Plans(vec![plan(7), plan(1)])), Turn::Ask(Ask::AllocateGeneration));
    assert_eq!(
        told(say(Answer::Generation(GenerationIdentifier(4)))),
        observation(Phase::Building, Status::Started, "build start")
    );
    assert_eq!(
        say(Answer::Told),
        Turn::Ask(Ask::Build { plan: plan(1), generation: GenerationIdentifier(4) })
    );
    assert_eq!(
        told(say(Answer::Built(build(4)))),
        observation(Phase::Building, Status::Complete, "build complete")
    );
    assert_eq!(say(Answer::Told), Turn::Ask(Ask::Apply(SemaCommand::RecordBuild(build(4)))));
    let acknowledged =
        || Answer::Applied(SemaResponse::Acknowledged(lojix::generated::SemaCommandIdentifier(2)));
    assert_eq!(say(acknowledged()), Turn::Ask(Ask::Pin(build(4))));
    assert_eq!(
        told(say(Answer::Pinned(GenerationIdentifier(4)))),
        observation(Phase::CopyingClosure, Status::Started, "copy start")
    );
    assert_eq!(
        say(Answer::Told),
        Turn::Ask(Ask::Copy { build: build(4), target_node: TargetNode("node-1".to_string()) })
    );
    assert_eq!(
        say(Answer::Copied(copy(4))),
        Turn::Ask(Ask::Apply(SemaCommand::RecordCopy(copy(4))))
    );
    assert_eq!(
        told(say(acknowledged())),
        observation(Phase::CopyingClosure, Status::Complete, "copy complete")
    );
    assert_eq!(
        told(say(Answer::Told)),
        observation(Phase::Activating, Status::Started, "activation start")
    );
    assert_eq!(
        say(Answer::Told),
        Turn::Ask(Ask::Activate { copy: copy(4), activation_kind: ActivationKind::Test })
    );
    assert_eq!(
        say(Answer::Activated(activation(4))),
        Turn::Ask(Ask::Apply(SemaCommand::RecordActivation(activation(4))))
    );
    assert_eq!(
        told(say(acknowledged())),
        observation(Phase::Activating, Status::Complete, "activation complete")
    );
    assert_eq!(
        told(say(Answer::Told)),
        observation(Phase::Observed, Status::Complete, "deploy done")
    );
    let last = say(Answer::Told);
    let turn = if marks {
        assert_eq!(last, Turn::Ask(Ask::Marker));
        say(Answer::Marked(DatabaseMarker(9)))
    } else {
        last
    };
    assert_eq!(conversation.stage, Stage::Over);
    (turn, witnesses)
}

fn expected_witnesses(plane: Plane) -> Vec<TraceWitness> {
    let fanned = TraceWitness::ObservationFanned { plane: Plane::ObservationFan };
    vec![
        TraceWitness::InputReceived { plane },
        TraceWitness::AuthorizationDecided {
            plane: Plane::AuthorizationGate,
            decision: AuthorizationDecision::Granted,
        },
        TraceWitness::PlanMaterialized { plane },
        TraceWitness::SemaApplied { plane: Plane::Store, command: SemaCommandTag::RecordPlan },
        TraceWitness::BuildStarted { plane: Plane::Builder },
        fanned.clone(),
        TraceWitness::BuildComplete { plane: Plane::Builder },
        fanned.clone(),
        TraceWitness::GcPinned { plane: Plane::GcRootPinner },
        fanned.clone(),
        TraceWitness::ClosureCopied { plane: Plane::ClosureCopier },
        fanned.clone(),
        fanned.clone(),
        TraceWitness::ActivationComplete { plane: Plane::Activator },
        fanned.clone(),
        fanned,
        TraceWitness::OutputEmitted { plane },
    ]
}

#[test]
fn a_granted_deployment_visits_every_plane_in_order() {
    let (turn, witnesses) = drive_granted(Plane::OperationDispatcher, false);
    assert_eq!(turn, Turn::Reply(Output::Accepted(DeploymentIdentifier(1)), None));
    assert_eq!(witnesses, expected_witnesses(Plane::OperationDispatcher));
}

#[test]
fn a_mailed_deployment_names_the_point_of_the_ledger() {
    let (turn, witnesses) = drive_granted(Plane::NexusMailKeeper, true);
    assert_eq!(
        turn,
        Turn::Reply(Output::Accepted(DeploymentIdentifier(1)), Some(DatabaseMarker(9)))
    );
    assert_eq!(witnesses, expected_witnesses(Plane::NexusMailKeeper));
}

#[test]
fn a_denied_deployment_is_refused_without_further_asks() {
    let mut witnesses: Vec<TraceWitness> = Vec::new();
    let (mut conversation, _) =
        Dispatch(Input::Submit(request(CriomeAuthorization::Criome))).drive(&mut witnesses);
    assert_eq!(
        conversation.answer(Answer::Decided(AuthorizationDecision::Denied), &mut witnesses),
        Turn::Reply(Output::Rejected(RejectionReason::Unauthorized), None)
    );
    assert_eq!(
        witnesses,
        vec![
            TraceWitness::InputReceived { plane: Plane::OperationDispatcher },
            TraceWitness::AuthorizationDecided {
                plane: Plane::AuthorizationGate,
                decision: AuthorizationDecision::Denied,
            },
        ]
    );
    let (mut mailed, _) = Conversation::begin(
        Plane::NexusMailKeeper,
        true,
        Input::Submit(request(CriomeAuthorization::Criome)),
        &mut witnesses,
    );
    assert_eq!(
        mailed.answer(Answer::Decided(AuthorizationDecision::Denied), &mut witnesses),
        Turn::Ask(Ask::Marker)
    );
    assert_eq!(
        mailed.answer(Answer::Marked(DatabaseMarker(3)), &mut witnesses),
        Turn::Reply(Output::Rejected(RejectionReason::Unauthorized), Some(DatabaseMarker(3)))
    );
}

#[test]
fn a_lost_answer_ends_the_conversation_under_its_planes_name() {
    let mut witnesses: Vec<TraceWitness> = Vec::new();
    let (mut conversation, _) =
        Dispatch(Input::Submit(request(CriomeAuthorization::Bypass))).drive(&mut witnesses);
    assert_eq!(
        conversation.answer(Answer::Lost("stopped".to_string()), &mut witnesses),
        Turn::Fault(Error::ActorSend("authorization: stopped".to_string()))
    );
    assert_eq!(conversation.stage, Stage::Over);

    let (mut empty, _) =
        Dispatch(Input::Submit(request(CriomeAuthorization::Bypass))).drive(&mut witnesses);
    empty.answer(Answer::Decided(AuthorizationDecision::Granted), &mut witnesses);
    empty.answer(
        Answer::Applied(SemaResponse::Missed(Detail("x".to_string()))),
        &mut witnesses,
    );
    assert_eq!(
        empty.answer(Answer::Plans(Vec::new()), &mut witnesses),
        Turn::Fault(Error::ActorSend("store has no plans after RecordPlan".to_string()))
    );
}

#[test]
fn other_requests_go_through_the_ledger_or_straight_back() {
    let mut witnesses: Vec<TraceWitness> = Vec::new();
    let selector = GenerationSelector(DeploymentIdentifier(5));
    let (mut query, turn) = Dispatch(Input::Query(selector)).drive(&mut witnesses);
    assert_eq!(turn, Turn::Ask(Ask::Apply(SemaCommand::QueryGeneration(selector))));
    assert_eq!(query.stage, Stage::Answering(SemaCommandTag::QueryGeneration));
    assert_eq!(
        query.answer(Answer::Lost("gone".to_string()), &mut witnesses),
        Turn::Fault(Error::ActorSend("store: gone".to_string()))
    );

    let mut heard: Vec<TraceWitness> = Vec::new();
    let help = Input::Help(HelpQuery(HelpTopic("deploy".to_string())));
    let (over, turn) = Dispatch(help).drive(&mut heard);
    assert!(matches!(turn, Turn::Reply(Output::HelpAnswer(_), None)));
    assert_eq!(over.stage, Stage::Over);
    assert_eq!(
        heard,
        vec![
            TraceWitness::InputReceived { plane: Plane::OperationDispatcher },
            TraceWitness::OutputEmitted { plane: Plane::OperationDispatcher },
        ]
    );
}

// ---- mail -------------------------------------------------------------------------------

#[test]
fn a_mail_is_sent_queued_processed_and_replied_to() {
    let mut keeper = NexusMailKeeper::new();
    let mut witnesses: Vec<TraceWitness> = Vec::new();
    let input = Input::Cancel(DeploymentIdentifier(3));
    let (sent, conversation, turn) = keeper.accept(DispatchMail(input.clone()), &mut witnesses);
    assert_eq!(sent.identifier, MessageIdentifier(1));
    assert_eq!(sent.input, input);
    assert_eq!(turn, Turn::Ask(Ask::Marker));
    assert!(conversation.marks);
    assert_eq!(keeper.in_flight().len(), 1);
    let plane = Plane::NexusMailKeeper;
    assert_eq!(
        witnesses,
        vec![
            TraceWitness::MailSent { plane, identifier: 1 },
            TraceWitness::MailQueued { plane, identifier: 1 },
            TraceWitness::MailProcessing { plane, identifier: 1 },
            TraceWitness::InputReceived { plane },
        ]
    );
    let reply = MarkedOutput {
        output: Output::Rejected(RejectionReason::MalformedRequest),
        database_marker: DatabaseMarker(2),
    };
    let processed =
        keeper.settle(MessageIdentifier(1), Ok(reply), &mut witnesses).expect("a reply");
    assert_eq!(processed.identifier, MessageIdentifier(1));
    assert_eq!(witnesses.len(), 5);
    assert_eq!(witnesses[4], TraceWitness::MailReplied { plane, identifier: 1 });
    assert!(keeper.in_flight().is_empty());
    let snapshot = MailLogSnapshot {
        in_flight: keeper.in_flight().clone(),
        completed: keeper.completed().clone(),
    };
    let entry = snapshot.find_completed(MessageIdentifier(1)).expect("a completed mail");
    assert_eq!(
        *entry.lifecycle_path(),
        vec![
            MailLifecycle::Sent,
            MailLifecycle::Queued,
            MailLifecycle::Processing,
            MailLifecycle::Replied,
        ]
    );
    assert_eq!(entry.lifecycle(), MailLifecycle::Replied);
    assert!(snapshot.find_completed(MessageIdentifier(2)).is_none());
}

#[test]
fn a_failed_mail_is_completed_without_a_reply() {
    let mut keeper = NexusMailKeeper::new();
    let mut witnesses: Vec<TraceWitness> = Vec::new();
    let first = Input::Cancel(DeploymentIdentifier(3));
    keeper.accept(DispatchMail(first.clone()), &mut witnesses);
    keeper.accept(DispatchMail(first), &mut witnesses);
    let before = witnesses.len();
    assert_eq!(
        keeper.settle(MessageIdentifier(2), Err(Error::Shutdown), &mut witnesses),
        Err(Error::Shutdown)
    );
    assert_eq!(witnesses.len(), before);
    assert_eq!(keeper.in_flight().len(), 1);
    assert_eq!(keeper.in_flight()[0].identifier(), MessageIdentifier(1));
    assert_eq!(keeper.completed()[0].lifecycle(), MailLifecycle::Failed);
}

// ---- the ledger -------------------------------------------------------------------------

#[test]
fn recorded_plans_are_numbered_and_found() {
    let mut store = Store::new();
    assert!(store.has_room_for(&SemaCommand::RecordPlan(plan(0))));
    assert!(store.has_room_for_generation());
    store.apply(SemaCommand::RecordPlan(plan(0)));
    store.apply(SemaCommand::RecordPlan(plan(0)));
    let numbers: Vec<u64> =
        store.plans().iter().map(|plan| plan.deployment_identifier.0).collect();
    assert_eq!(numbers.len(), 2);
    assert!(numbers[0] < numbers[1]);
    assert!(store.plan_for(&DeploymentIdentifier(numbers[1])).is_some());
    assert!(store.plan_for(&DeploymentIdentifier(numbers[1] + 1)).is_none());
}

#[test]
fn a_query_shows_the_generation_of_its_deployment() {
    let mut store = Store::new();
    store.apply(SemaCommand::RecordPlan(plan(0)));
    let deployment = store.plans()[0].deployment_identifier;
    assert!(matches!(
        store.apply(SemaCommand::QueryGeneration(GenerationSelector(deployment))),
        SemaResponse::Missed(_)
    ));
    let generation = store.allocate_generation_identifier();
    store.apply(SemaCommand::RecordBuild(build(generation.0)));
    match store.apply(SemaCommand::QueryGeneration(GenerationSelector(deployment))) {
        SemaResponse::GenerationLedgerEntry(entry) => {
            assert_eq!(entry.generation_identifier, generation);
            assert_eq!(entry.deployment_identifier, deployment);
            assert_eq!(entry.closure_path.0, "/nix/store/closure");
        }
        other => panic!("expected a generation, got {other:?}"),
    }
}

// ---- decisions and tools ---------------------------------------------------------------

#[test]
fn only_an_open_gate_lets_deployments_go_on() {
    for (policy, decision) in [
        (AuthorizationPolicy::AllowAll, AuthorizationDecision::Granted),
        (AuthorizationPolicy::CriomeBackedRequired, AuthorizationDecision::Denied),
        (AuthorizationPolicy::DenyAll, AuthorizationDecision::Denied),
    ] {
        let message = AuthorizeMessage(request(CriomeAuthorization::Criome));
        assert_eq!(AuthorizationGate::new(policy).decide(&message).0, decision);
    }
    let claimed = request(CriomeAuthorization::Bypass);
    assert_eq!(claimed.authorize(&AuthorizationPolicy::AllowAll), CriomeAuthorization::Bypass);
    assert_eq!(
        claimed.authorize(&AuthorizationPolicy::CriomeBackedRequired),
        CriomeAuthorization::OperatorAllowlist
    );
    assert_eq!(
        request(CriomeAuthorization::Criome).authorize(&AuthorizationPolicy::CriomeBackedRequired),
        CriomeAuthorization::Criome
    );
    assert_eq!(
        request(CriomeAuthorization::Criome).authorize(&AuthorizationPolicy::DenyAll),
        CriomeAuthorization::OperatorAllowlist
    );
}

#[test]
fn tools_are_echoed_in_a_sandbox_and_run_by_the_shell_otherwise() {
    let echoed = sandbox().build_invocation(&HorizonView("alpha".to_string()));
    assert_eq!(echoed.program, "echo");
    assert_eq!(echoed.arguments, vec!["sandbox:nix-build-sandbox:alpha".to_string()]);
    let production =
        ProcessToolchain::new(Toolchain::sandbox_default(), ToolchainMode::Production);
    let copied = production.copy_invocation(&build(1), &TargetNode("node-1".to_string()));
    assert_eq!(copied.program, "sh");
    assert_eq!(
        copied.arguments,
        vec!["-c".to_string(), "nix-copy-sandbox /nix/store/closure::node-1".to_string()]
    );
    let activated = production.activation_invocation(&copy(1), ActivationKind::Boot);
    assert_eq!(
        activated.arguments[1],
        "nixos-rebuild-sandbox /nix/store/closure::node-1::Boot"
    );
}

#[test]
fn finished_processes_mean_their_output_or_their_code() {
    assert_eq!(
        process_outcome(true, Some(0), " out \n", "\nlog "),
        Ok(("out".to_string(), "log".to_string()))
    );
    assert_eq!(
        process_outcome(false, Some(-7), "", "no\n"),
        Err("exit Some(-7): no\n".to_string())
    );
    assert_eq!(process_outcome(false, None, "", "killed"), Err("exit None: killed".to_string()));
    assert_eq!(spawn_failure("missing"), Err("spawn failed: missing".to_string()));
}

#[test]
fn a_build_is_in_flight_until_it_is_finished() {
    let mut builder = Builder::new(sandbox());
    let message = DriveBuild {
        source: SourceRecord::from_plan(&plan(1)),
        generation: GenerationIdentifier(3),
    };
    builder.begin(&message);
    assert!(builder.in_flight().is_some());
    let built = builder.finish(&message, printed("/nix/store/x\n")).expect("a build");
    assert_eq!(built.closure_path.0, "/nix/store/x");
    assert_eq!(built.generation_identifier, GenerationIdentifier(3));
    assert!(builder.in_flight().is_none());
    builder.begin(&message);
    assert_eq!(
        builder.finish(&message, spawn_failure("missing")),
        Err(Error::BuildFailed("nix-build-sandbox: spawn failed: missing".to_string()))
    );
}

#[test]
fn a_copy_leaves_the_queue_when_it_is_finished() {
    let mut copier = ClosureCopier::new(sandbox());
    let message =
        || DriveCopy { build: build(2), target_node: TargetNode("node-1".to_string()) };
    copier.begin(&message());
    assert_eq!(copier.queue().pending_count(), 1);
    let copied = copier.finish(message(), printed("")).expect("a copy");
    assert_eq!(copied, copy(2));
    assert_eq!(copier.queue().pending_count(), 0);
    copier.begin(&message());
    assert_eq!(
        copier.finish(message(), spawn_failure("missing")),
        Err(Error::CopyFailed("nix-copy-sandbox: spawn failed: missing".to_string()))
    );
}

#[test]
fn an_activation_is_current_when_it_succeeded() {
    let mut activator = Activator::new(sandbox());
    let message = DriveActivation { copy: copy(2), activation_kind: ActivationKind::Test };
    activator.begin(&message);
    assert_eq!(
        activator.finish(&message, spawn_failure("missing")),
        Err(Error::ActivationFailed("nixos-rebuild-sandbox: spawn failed: missing".to_string()))
    );
    assert!(activator.active().current().is_none());
    let record = activator.finish(&message, printed("")).expect("an activation");
    assert_eq!(record, activation(2));
    assert_eq!(activator.active().current(), Some(&activation(2)));
}

#[test]
fn pins_are_kept_once() {
    let mut pinner = GcRootPinner::new(sandbox());
    assert!(pinner.pinned().is_empty());
    assert_eq!(pinner.pin(&DrivePin(build(2))), GenerationIdentifier(2));
    assert_eq!(pinner.pin(&DrivePin(build(2))), GenerationIdentifier(2));
    assert_eq!(pinner.pinned().len(), 1);
    assert!(pinner.pinned().contains(&GenerationIdentifier(2)));
    assert!(!pinner.pinned().contains(&GenerationIdentifier(3)));
}

#[test]
fn subscribers_that_cannot_be_reached_are_dropped() {
    let mut fan: ObservationFan<u8> = ObservationFan::new();
    fan.subscribe(Subscribe(1));
    fan.subscribe(Subscribe(2));
    fan.subscribe(Subscribe(3));
    fan.publish(&BroadcastObservation(observation(Phase::Building, Status::Started, "x")));
    assert_eq!(fan.subscriber_count(), 3);
    assert_eq!(
        fan.most_recent(),
        Some(&observation(Phase::Building, Status::Started, "x"))
    );
    fan.settle(&vec![true, false, true]);
    assert_eq!(fan.subscribers.handles, vec![1, 3]);
}

#[test]
fn witnesses_are_kept_in_order() {
    let mut log = TraceLog::new();
    log.record(RecordWitness(TraceWitness::PlaneStarted { plane: Plane::Store }));
    log.record(RecordWitness(TraceWitness::OutputEmitted { plane: Plane::LojixRoot }));
    let planes: Vec<Plane> = log.snapshot().iter().map(|witness| witness.plane()).collect();
    assert_eq!(planes, vec![Plane::Store, Plane::LojixRoot]);
}

// ---- sources ------------------------------------------------------------------------------

#[test]
fn sources_are_kept_under_the_digest_of_their_plan() {
    let digest = plan(12).source_digest();
    assert_eq!(digest.0, blake3::hash(b"12\nalpha\nnode-1").to_hex().to_string());
    assert_eq!(digest.0.len(), 64);
    assert_ne!(digest, plan(13).source_digest());
    let mut stager = SourceStager::new(StateDirectory("/var/lib/lojix".to_string()));
    assert_eq!(stager.root_directory(), "/var/lib/lojix/sources");
    assert_eq!(
        stager.artifact_path(&SourceDigest("abc".to_string())),
        "/var/lib/lojix/sources/abc.source"
    );
    let source = stager.accept(ActorRequest::StageSources(plan(12))).expect("a source");
    assert_eq!(source.source_digest, digest);
    assert_eq!(source.artifact_text("(SourceRecord)"), "(SourceRecord)\n");
    let reply = stager.staged(source);
    assert_eq!(reply.variant_name(), "SourcesReady");
    assert!(matches!(reply, ActorReply::SourcesReady(_)));
    assert_eq!(stager.last_staged().expect("a source").source_digest, digest);
}

#[test]
fn only_sources_are_staged() {
    let stager = SourceStager::new(StateDirectory("/var/lib/lojix".to_string()));
    assert_eq!(
        stager.accept(ActorRequest::PinGenerationRoot(build(1))),
        Err(Error::UnexpectedActorRequest { actor: "SourceStager", request: "PinGenerationRoot" })
    );
}

// ---- frames and configuration ---------------------------------------------------------

#[test]
fn frames_read_back() {
    assert_eq!(length_prefix(258), Ok(vec![0, 0, 1, 2]));
    assert_eq!(announced_length(&[0, 0, 1, 2]), 258);
    assert_eq!(announced_length(&[255, 255, 255, 255]), u32::MAX);
    let framed = encode_frame(&vec![7, 8, 9]).expect("a frame");
    assert_eq!(framed, vec![0, 0, 0, 3, 7, 8, 9]);
    assert_eq!(decode_frame(&framed), Ok(vec![7, 8, 9]));
    assert_eq!(decode_frame(&vec![0, 0]), Err(Error::FrameTruncated));
    assert_eq!(decode_frame(&vec![0, 0, 0, 2, 1]), Err(Error::FrameTruncated));
    assert_eq!(
        length_prefix(4294967296),
        Err(Error::FrameTooLarge { found: 4294967296 })
    );
    let peer = UnixSocketCommunicate::new("/run/lojix.sock".to_string());
    assert_eq!(peer.socket_path(), "/run/lojix.sock");
}

#[test]
fn a_configuration_is_inline_where_it_opens_a_bracket() {
    assert_eq!(
        ConfigurationSource::of_argument(" \n(DaemonConfiguration)"),
        ConfigurationSource::Inline(" \n(DaemonConfiguration)".to_string())
    );
    assert!(matches!(
        ConfigurationSource::of_argument("[x]"),
        ConfigurationSource::Inline(_)
    ));
    assert_eq!(
        ConfigurationSource::of_argument("/etc/lojix.nota"),
        ConfigurationSource::File("/etc/lojix.nota".to_string())
    );
    assert_eq!(
        unreadable_configuration("/etc/x", "denied"),
        Error::ConfigurationDecode("read /etc/x: denied".to_string())
    );
    assert_eq!(single_root(1), Ok(()));
    assert_eq!(single_root(2), Err(NotaDecodeError::ExpectedSingleRoot { found: 2 }));
}

#[test]
fn busy_sockets_are_named() {
    assert_eq!(
        bind_failure("/run/x.sock", "in use"),
        Error::SocketBusy("/run/x.sock (in use)".to_string())
    );
    assert_eq!(unbound_socket("/run/x.sock"), Error::SocketBusy("/run/x.sock".to_string()));
}
