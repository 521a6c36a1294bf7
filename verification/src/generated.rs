//! The nouns of the deploy daemon's actors: what is asked, planned, built, copied,
//! activated and observed.

use vstd::prelude::*;

verus! {

/// Identifies a deployment.
#[derive(Clone, Copy, Debug, PartialEq, Eq, Structural)]
pub struct DeploymentIdentifier(pub u64);

/// Identifies a generation.
#[derive(Clone, Copy, Debug, PartialEq, Eq, Structural)]
pub struct GenerationIdentifier(pub u64);

/// Identifies an observation.
#[derive(Clone, Copy, Debug, PartialEq, Eq, Structural)]
pub struct ObservationIdentifier(pub u64);

/// Identifies a command that the ledger has applied.
#[derive(Clone, Copy, Debug, PartialEq, Eq, Structural)]
pub struct SemaCommandIdentifier(pub u64);

/// Identifies a mail.
#[derive(Clone, Copy, Debug, PartialEq, Eq, Structural)]
pub struct MessageIdentifier(pub u64);

/// The point of the ledger that an answer was made at.
#[derive(Clone, Copy, Debug, PartialEq, Eq, Structural)]
pub struct DatabaseMarker(pub u64);

/// The node that is deployed to.
#[derive(Debug, PartialEq, Eq)]
pub struct TargetNode(pub String);

impl Clone for TargetNode {
    fn clone(&self) -> (r: Self)
        ensures
            r == *self,
    {
        TargetNode(self.0.clone())
    }
}

impl View for TargetNode {
    type V = Seq<char>;

    open spec fn view(&self) -> Seq<char> {
        self.0@
    }
}

/// The view of the cluster that is deployed.
#[derive(Debug, PartialEq, Eq)]
pub struct HorizonView(pub String);

impl Clone for HorizonView {
    fn clone(&self) -> (r: Self)
        ensures
            r == *self,
    {
        HorizonView(self.0.clone())
    }
}

impl View for HorizonView {
    type V = Seq<char>;

    open spec fn view(&self) -> Seq<char> {
        self.0@
    }
}

/// The path of a realised closure.
#[derive(Debug, PartialEq, Eq)]
pub struct ClosurePath(pub String);

impl Clone for ClosurePath {
    fn clone(&self) -> (r: Self)
        ensures
            r == *self,
    {
        ClosurePath(self.0.clone())
    }
}

impl View for ClosurePath {
    type V = Seq<char>;

    open spec fn view(&self) -> Seq<char> {
        self.0@
    }
}

/// What a build printed.
#[derive(Debug, PartialEq, Eq)]
pub struct BuildLog(pub String);

impl Clone for BuildLog {
    fn clone(&self) -> (r: Self)
        ensures
            r == *self,
    {
        BuildLog(self.0.clone())
    }
}

impl View for BuildLog {
    type V = Seq<char>;

    open spec fn view(&self) -> Seq<char> {
        self.0@
    }
}

/// A remark for a reader.
#[derive(Debug, PartialEq, Eq)]
pub struct Detail(pub String);

impl Clone for Detail {
    fn clone(&self) -> (r: Self)
        ensures
            r == *self,
    {
        Detail(self.0.clone())
    }
}

impl View for Detail {
    type V = Seq<char>;

    open spec fn view(&self) -> Seq<char> {
        self.0@
    }
}

/// The digest of a staged source.
#[derive(Debug, PartialEq, Eq)]
pub struct SourceDigest(pub String);

impl Clone for SourceDigest {
    fn clone(&self) -> (r: Self)
        ensures
            r == *self,
    {
        SourceDigest(self.0.clone())
    }
}

impl View for SourceDigest {
    type V = Seq<char>;

    open spec fn view(&self) -> Seq<char> {
        self.0@
    }
}

/// What help is asked for.
#[derive(Debug, PartialEq, Eq)]
pub struct HelpTopic(pub String);

impl Clone for HelpTopic {
    fn clone(&self) -> (r: Self)
        ensures
            r == *self,
    {
        HelpTopic(self.0.clone())
    }
}

impl View for HelpTopic {
    type V = Seq<char>;

    open spec fn view(&self) -> Seq<char> {
        self.0@
    }
}

/// The text of a help answer.
#[derive(Debug, PartialEq, Eq)]
pub struct HelpReply(pub String);

impl Clone for HelpReply {
    fn clone(&self) -> (r: Self)
        ensures
            r == *self,
    {
        HelpReply(self.0.clone())
    }
}

impl View for HelpReply {
    type V = Seq<char>;

    open spec fn view(&self) -> Seq<char> {
        self.0@
    }
}

/// The command that builds.
#[derive(Debug, PartialEq, Eq)]
pub struct BuildCommand(pub String);

impl Clone for BuildCommand {
    fn clone(&self) -> (r: Self)
        ensures
            r == *self,
    {
        BuildCommand(self.0.clone())
    }
}

impl View for BuildCommand {
    type V = Seq<char>;

    open spec fn view(&self) -> Seq<char> {
        self.0@
    }
}

/// The command that copies.
#[derive(Debug, PartialEq, Eq)]
pub struct CopyCommand(pub String);

impl Clone for CopyCommand {
    fn clone(&self) -> (r: Self)
        ensures
            r == *self,
    {
        CopyCommand(self.0.clone())
    }
}

impl View for CopyCommand {
    type V = Seq<char>;

    open spec fn view(&self) -> Seq<char> {
        self.0@
    }
}

/// The command that activates.
#[derive(Debug, PartialEq, Eq)]
pub struct ActivationCommand(pub String);

impl Clone for ActivationCommand {
    fn clone(&self) -> (r: Self)
        ensures
            r == *self,
    {
        ActivationCommand(self.0.clone())
    }
}

impl View for ActivationCommand {
    type V = Seq<char>;

    open spec fn view(&self) -> Seq<char> {
        self.0@
    }
}

/// Where the daemon listens.
#[derive(Debug, PartialEq, Eq)]
pub struct SocketPath(pub String);

impl Clone for SocketPath {
    fn clone(&self) -> (r: Self)
        ensures
            r == *self,
    {
        SocketPath(self.0.clone())
    }
}

impl View for SocketPath {
    type V = Seq<char>;

    open spec fn view(&self) -> Seq<char> {
        self.0@
    }
}

/// Where the ledger is kept.
#[derive(Debug, PartialEq, Eq)]
pub struct SemaDatabasePath(pub String);

impl Clone for SemaDatabasePath {
    fn clone(&self) -> (r: Self)
        ensures
            r == *self,
    {
        SemaDatabasePath(self.0.clone())
    }
}

impl View for SemaDatabasePath {
    type V = Seq<char>;

    open spec fn view(&self) -> Seq<char> {
        self.0@
    }
}

/// Where the daemon keeps its state.
#[derive(Debug, PartialEq, Eq)]
pub struct StateDirectory(pub String);

impl Clone for StateDirectory {
    fn clone(&self) -> (r: Self)
        ensures
            r == *self,
    {
        StateDirectory(self.0.clone())
    }
}

impl View for StateDirectory {
    type V = Seq<char>;

    open spec fn view(&self) -> Seq<char> {
        self.0@
    }
}

/// Where roots are kept.
#[derive(Debug, PartialEq, Eq)]
pub struct GcRootDirectory(pub String);

impl Clone for GcRootDirectory {
    fn clone(&self) -> (r: Self)
        ensures
            r == *self,
    {
        GcRootDirectory(self.0.clone())
    }
}

impl View for GcRootDirectory {
    type V = Seq<char>;

    open spec fn view(&self) -> Seq<char> {
        self.0@
    }
}

/// A question for help.
#[derive(Debug, PartialEq, Eq)]
pub struct HelpQuery(pub HelpTopic);

impl Clone for HelpQuery {
    fn clone(&self) -> (r: Self)
        ensures
            r == *self,
    {
        HelpQuery(self.0.clone())
    }
}

/// Selects the generations of a deployment.
#[derive(Clone, Copy, Debug, PartialEq, Eq, Structural)]
pub struct GenerationSelector(pub DeploymentIdentifier);

/// How a closure is put into effect.
#[derive(Clone, Copy, Debug, PartialEq, Eq, Structural)]
pub enum ActivationKind {
    Switch,
    Boot,
    Test,
}

/// What a deployment is authorized by.
#[derive(Clone, Copy, Debug, PartialEq, Eq, Structural)]
pub enum CriomeAuthorization {
    Bypass,
    OperatorAllowlist,
    Criome,
}

/// A phase of a deployment that is observed.
#[derive(Clone, Copy, Debug, PartialEq, Eq, Structural)]
pub enum Phase {
    Building,
    CopyingClosure,
    Activating,
    Observed,
}

/// How far a phase has come.
#[derive(Clone, Copy, Debug, PartialEq, Eq, Structural)]
pub enum Status {
    Started,
    Complete,
}

/// Why a request is refused.
#[derive(Clone, Copy, Debug, PartialEq, Eq, Structural)]
pub enum RejectionReason {
    Unauthorized,
    MalformedRequest,
}

/// The state of a mail.
#[derive(Clone, Copy, Debug, PartialEq, Eq, Structural)]
pub enum MailLifecycle {
    Sent,
    Queued,
    Processing,
    Replied,
    Failed,
}

/// A deployment that is asked for.
#[derive(Debug, PartialEq, Eq)]
pub struct DeploymentRequest {
    pub horizon_view: HorizonView,
    pub target_node: TargetNode,
    pub criome_authorization: CriomeAuthorization,
}

impl Clone for DeploymentRequest {
    fn clone(&self) -> (r: Self)
        ensures
            r == *self,
    {
        DeploymentRequest {
            horizon_view: self.horizon_view.clone(),
            target_node: self.target_node.clone(),
            criome_authorization: self.criome_authorization,
        }
    }
}

/// A deployment that is planned.
#[derive(Debug, PartialEq, Eq)]
pub struct PlanRecord {
    pub deployment_identifier: DeploymentIdentifier,
    pub horizon_view: HorizonView,
    pub target_node: TargetNode,
}

impl Clone for PlanRecord {
    fn clone(&self) -> (r: Self)
        ensures
            r == *self,
    {
        PlanRecord {
            deployment_identifier: self.deployment_identifier,
            horizon_view: self.horizon_view.clone(),
            target_node: self.target_node.clone(),
        }
    }
}

/// A plan whose source is staged.
#[derive(Debug, PartialEq, Eq)]
pub struct SourceRecord {
    pub deployment_identifier: DeploymentIdentifier,
    pub horizon_view: HorizonView,
    pub target_node: TargetNode,
    pub source_digest: SourceDigest,
}

impl Clone for SourceRecord {
    fn clone(&self) -> (r: Self)
        ensures
            r == *self,
    {
        SourceRecord {
            deployment_identifier: self.deployment_identifier,
            horizon_view: self.horizon_view.clone(),
            target_node: self.target_node.clone(),
            source_digest: self.source_digest.clone(),
        }
    }
}

/// A closure that was built.
#[derive(Debug, PartialEq, Eq)]
pub struct BuildRecord {
    pub generation_identifier: GenerationIdentifier,
    pub closure_path: ClosurePath,
    pub build_log: BuildLog,
}

impl Clone for BuildRecord {
    fn clone(&self) -> (r: Self)
        ensures
            r == *self,
    {
        BuildRecord {
            generation_identifier: self.generation_identifier,
            closure_path: self.closure_path.clone(),
            build_log: self.build_log.clone(),
        }
    }
}

/// A closure that was copied to its node.
#[derive(Debug, PartialEq, Eq)]
pub struct CopyRecord {
    pub generation_identifier: GenerationIdentifier,
    pub target_node: TargetNode,
    pub closure_path: ClosurePath,
}

impl Clone for CopyRecord {
    fn clone(&self) -> (r: Self)
        ensures
            r == *self,
    {
        CopyRecord {
            generation_identifier: self.generation_identifier,
            target_node: self.target_node.clone(),
            closure_path: self.closure_path.clone(),
        }
    }
}

/// A generation that was put into effect.
#[derive(Debug, PartialEq, Eq)]
pub struct ActivationRecord {
    pub generation_identifier: GenerationIdentifier,
    pub target_node: TargetNode,
    pub activation_kind: ActivationKind,
}

impl Clone for ActivationRecord {
    fn clone(&self) -> (r: Self)
        ensures
            r == *self,
    {
        ActivationRecord {
            generation_identifier: self.generation_identifier,
            target_node: self.target_node.clone(),
            activation_kind: self.activation_kind,
        }
    }
}

/// A generation in the ledger.
#[derive(Debug, PartialEq, Eq)]
pub struct GenerationRecord {
    pub generation_identifier: GenerationIdentifier,
    pub deployment_identifier: DeploymentIdentifier,
    pub target_node: TargetNode,
    pub closure_path: ClosurePath,
    pub activation_kind: ActivationKind,
}

impl Clone for GenerationRecord {
    fn clone(&self) -> (r: Self)
        ensures
            r == *self,
    {
        GenerationRecord {
            generation_identifier: self.generation_identifier,
            deployment_identifier: self.deployment_identifier,
            target_node: self.target_node.clone(),
            closure_path: self.closure_path.clone(),
            activation_kind: self.activation_kind,
        }
    }
}

/// What is observed of a deployment.
#[derive(Debug, PartialEq, Eq)]
pub struct ObservationRecord {
    pub deployment_identifier: DeploymentIdentifier,
    pub phase: Phase,
    pub status: Status,
    pub detail: Detail,
}

impl Clone for ObservationRecord {
    fn clone(&self) -> (r: Self)
        ensures
            r == *self,
    {
        ObservationRecord {
            deployment_identifier: self.deployment_identifier,
            phase: self.phase,
            status: self.status,
            detail: self.detail.clone(),
        }
    }
}

/// The commands of a deployment.
#[derive(Debug, PartialEq, Eq)]
pub struct Toolchain {
    pub build_command: BuildCommand,
    pub copy_command: CopyCommand,
    pub activation_command: ActivationCommand,
}

impl Clone for Toolchain {
    fn clone(&self) -> (r: Self)
        ensures
            r == *self,
    {
        Toolchain {
            build_command: self.build_command.clone(),
            copy_command: self.copy_command.clone(),
            activation_command: self.activation_command.clone(),
        }
    }
}

/// How the daemon is run.
#[derive(Debug, PartialEq, Eq)]
pub struct DaemonConfiguration {
    pub socket_path: SocketPath,
    pub sema_database_path: SemaDatabasePath,
    pub state_directory: StateDirectory,
    pub gc_root_directory: GcRootDirectory,
    pub toolchain: Toolchain,
}

impl Clone for DaemonConfiguration {
    fn clone(&self) -> (r: Self)
        ensures
            r == *self,
    {
        DaemonConfiguration {
            socket_path: self.socket_path.clone(),
            sema_database_path: self.sema_database_path.clone(),
            state_directory: self.state_directory.clone(),
            gc_root_directory: self.gc_root_directory.clone(),
            toolchain: self.toolchain.clone(),
        }
    }
}

/// What the ledger is asked for.
#[derive(Debug, PartialEq, Eq)]
pub enum SemaCommand {
    RecordPlan(PlanRecord),
    RecordSource(SourceRecord),
    RecordBuild(BuildRecord),
    RecordCopy(CopyRecord),
    RecordActivation(ActivationRecord),
    RecordObservation(ObservationRecord),
    QueryGeneration(GenerationSelector),
}

impl Clone for SemaCommand {
    fn clone(&self) -> (r: Self)
        ensures
            r == *self,
    {
        match self {
            SemaCommand::RecordPlan(value) => SemaCommand::RecordPlan(value.clone()),
            SemaCommand::RecordSource(value) => SemaCommand::RecordSource(value.clone()),
            SemaCommand::RecordBuild(value) => SemaCommand::RecordBuild(value.clone()),
            SemaCommand::RecordCopy(value) => SemaCommand::RecordCopy(value.clone()),
            SemaCommand::RecordActivation(value) => SemaCommand::RecordActivation(value.clone()),
            SemaCommand::RecordObservation(value) => SemaCommand::RecordObservation(value.clone()),
            SemaCommand::QueryGeneration(value) => SemaCommand::QueryGeneration(*value),
        }
    }
}

/// What the ledger answers.
#[derive(Debug, PartialEq, Eq)]
pub enum SemaResponse {
    Acknowledged(SemaCommandIdentifier),
    GenerationLedgerEntry(GenerationRecord),
    ObservationStreamEntry(ObservationRecord),
    Missed(Detail),
}

impl Clone for SemaResponse {
    fn clone(&self) -> (r: Self)
        ensures
            r == *self,
    {
        match self {
            SemaResponse::Acknowledged(value) => SemaResponse::Acknowledged(*value),
            SemaResponse::GenerationLedgerEntry(value) => SemaResponse::GenerationLedgerEntry(value.clone()),
            SemaResponse::ObservationStreamEntry(value) => SemaResponse::ObservationStreamEntry(value.clone()),
            SemaResponse::Missed(value) => SemaResponse::Missed(value.clone()),
        }
    }
}

/// A request to the daemon.
#[derive(Debug, PartialEq, Eq)]
pub enum Input {
    Submit(DeploymentRequest),
    Cancel(DeploymentIdentifier),
    Query(GenerationSelector),
    Help(HelpQuery),
}

impl Clone for Input {
    fn clone(&self) -> (r: Self)
        ensures
            r == *self,
    {
        match self {
            Input::Submit(value) => Input::Submit(value.clone()),
            Input::Cancel(value) => Input::Cancel(*value),
            Input::Query(value) => Input::Query(*value),
            Input::Help(value) => Input::Help(value.clone()),
        }
    }
}

/// An answer of the daemon.
#[derive(Debug, PartialEq, Eq)]
pub enum Output {
    Accepted(DeploymentIdentifier),
    Rejected(RejectionReason),
    Snapshot(GenerationRecord),
    Observation(ObservationRecord),
    HelpAnswer(HelpReply),
}

impl Clone for Output {
    fn clone(&self) -> (r: Self)
        ensures
            r == *self,
    {
        match self {
            Output::Accepted(value) => Output::Accepted(*value),
            Output::Rejected(value) => Output::Rejected(*value),
            Output::Snapshot(value) => Output::Snapshot(value.clone()),
            Output::Observation(value) => Output::Observation(value.clone()),
            Output::HelpAnswer(value) => Output::HelpAnswer(value.clone()),
        }
    }
}

/// Work for one plane of the daemon.
#[derive(Debug, PartialEq, Eq)]
pub enum ActorRequest {
    AuthorizeDeployment(DeploymentRequest),
    MaterializePlan(DeploymentRequest),
    StageSources(PlanRecord),
    ExecuteBuild(SourceRecord),
    CopyClosure(BuildRecord),
    ActivateGeneration(CopyRecord),
    PinGenerationRoot(BuildRecord),
    EmitObservation(ObservationRecord),
}

impl Clone for ActorRequest {
    fn clone(&self) -> (r: Self)
        ensures
            r == *self,
    {
        match self {
            ActorRequest::AuthorizeDeployment(value) => ActorRequest::AuthorizeDeployment(value.clone()),
            ActorRequest::MaterializePlan(value) => ActorRequest::MaterializePlan(value.clone()),
            ActorRequest::StageSources(value) => ActorRequest::StageSources(value.clone()),
            ActorRequest::ExecuteBuild(value) => ActorRequest::ExecuteBuild(value.clone()),
            ActorRequest::CopyClosure(value) => ActorRequest::CopyClosure(value.clone()),
            ActorRequest::ActivateGeneration(value) => ActorRequest::ActivateGeneration(value.clone()),
            ActorRequest::PinGenerationRoot(value) => ActorRequest::PinGenerationRoot(value.clone()),
            ActorRequest::EmitObservation(value) => ActorRequest::EmitObservation(value.clone()),
        }
    }
}

/// The answer of one plane of the daemon.
#[derive(Debug, PartialEq, Eq)]
pub enum ActorReply {
    AuthorizationDecided(CriomeAuthorization),
    PlanReady(PlanRecord),
    SourcesReady(SourceRecord),
    BuildComplete(BuildRecord),
    CopyComplete(CopyRecord),
    ActivationComplete(ActivationRecord),
    PinReceipt(GenerationIdentifier),
    ObservationAccepted(ObservationRecord),
}

impl Clone for ActorReply {
    fn clone(&self) -> (r: Self)
        ensures
            r == *self,
    {
        match self {
            ActorReply::AuthorizationDecided(value) => ActorReply::AuthorizationDecided(*value),
            ActorReply::PlanReady(value) => ActorReply::PlanReady(value.clone()),
            ActorReply::SourcesReady(value) => ActorReply::SourcesReady(value.clone()),
            ActorReply::BuildComplete(value) => ActorReply::BuildComplete(value.clone()),
            ActorReply::CopyComplete(value) => ActorReply::CopyComplete(value.clone()),
            ActorReply::ActivationComplete(value) => ActorReply::ActivationComplete(value.clone()),
            ActorReply::PinReceipt(value) => ActorReply::PinReceipt(*value),
            ActorReply::ObservationAccepted(value) => ActorReply::ObservationAccepted(value.clone()),
        }
    }
}

/// An answer and the point of the ledger it was made at.
#[derive(Debug, PartialEq, Eq)]
pub struct MarkedOutput {
    pub output: Output,
    pub database_marker: DatabaseMarker,
}

impl Clone for MarkedOutput {
    fn clone(&self) -> (r: Self)
        ensures
            r == *self,
    {
        MarkedOutput {
            output: self.output.clone(),
            database_marker: self.database_marker,
        }
    }
}

/// A mail was accepted.
#[derive(Debug, PartialEq, Eq)]
pub struct MessageSent {
    pub identifier: MessageIdentifier,
    pub input: Input,
}

impl Clone for MessageSent {
    fn clone(&self) -> (r: Self)
        ensures
            r == *self,
    {
        MessageSent {
            identifier: self.identifier,
            input: self.input.clone(),
        }
    }
}

/// A mail was answered.
#[derive(Debug, PartialEq, Eq)]
pub struct MessageProcessed {
    pub identifier: MessageIdentifier,
    pub reply: MarkedOutput,
}

impl Clone for MessageProcessed {
    fn clone(&self) -> (r: Self)
        ensures
            r == *self,
    {
        MessageProcessed {
            identifier: self.identifier,
            reply: self.reply.clone(),
        }
    }
}

/// Why a configuration text cannot be read.
#[derive(Debug, PartialEq, Eq)]
pub enum NotaDecodeError {
    Parse(String),
    ExpectedSingleRoot { found: usize },
}

} // verus!
