//! Work items, effect commands and effect results of the decision engine.

use vstd::prelude::*;

pub use crate::runtime_model::{
    ActivationEffect, ClosurePath, ClusterName, DeploymentIdentifier, FlakeReference,
    GenerationArtifact, GenerationIdentifier, GenerationSlot, HostComposition, HostDeployAction,
    MetaEgress, MetaIngress, NodeName, OrdinaryEgress, OrdinaryIngress, ProposalSource,
    SemaReadInput, SemaReadOutput, SemaWriteInput, SemaWriteOutput, SourceRevisionPolicy,
    SourceRevisionRecord, TestMode, UserEnvironmentAction, UserName,
};

verus! {

/// A request from either socket.
#[derive(Clone, Debug, PartialEq, Eq)]
pub enum SignalInput {
    OrdinaryInput(OrdinaryIngress),
    MetaInput(MetaIngress),
}

/// A reply to either socket.
#[derive(Clone, Debug, PartialEq, Eq)]
pub enum SignalOutput {
    OrdinaryOutput(OrdinaryEgress),
    MetaOutput(MetaEgress),
}

/// Store that Nix copies a closure to, exactly as requested.
#[derive(Debug)]
pub struct NixStoreUri(pub String);

impl NixStoreUri {
    /// Wraps `payload`.
    pub fn new(payload: String) -> (r: Self)
        ensures
            r.0 == payload,
    {
        NixStoreUri(payload)
    }

    /// The wrapped value.
    pub fn payload(&self) -> (r: &String)
        ensures
            *r == self.0,
    {
        &self.0
    }

    /// Unwraps the value.
    pub fn into_payload(self) -> (r: String)
        ensures
            r == self.0,
    {
        self.0
    }
}

impl From<String> for NixStoreUri {
    fn from(payload: String) -> (r: Self) {
        NixStoreUri(payload)
    }
}

impl vstd::std_specs::convert::FromSpecImpl<String> for NixStoreUri {
    open spec fn obeys_from_spec() -> bool {
        true
    }

    open spec fn from_spec(payload: String) -> Self {
        NixStoreUri(payload)
    }
}

impl View for NixStoreUri {
    type V = Seq<char>;

    open spec fn view(&self) -> Seq<char> {
        self.0@
    }
}

impl Clone for NixStoreUri {
    fn clone(&self) -> (r: Self)
        ensures
            r == *self,
    {
        NixStoreUri(self.0.clone())
    }
}

impl PartialEq for NixStoreUri {
    fn eq(&self, other: &Self) -> (r: bool) {
        self.0 == other.0
    }
}

impl vstd::std_specs::cmp::PartialEqSpecImpl for NixStoreUri {
    open spec fn obeys_eq_spec() -> bool {
        true
    }

    open spec fn eq_spec(&self, other: &Self) -> bool {
        self@ == other@
    }
}

impl Eq for NixStoreUri {

}

/// Login and host that SSH activates on, exactly as requested.
#[derive(Debug)]
pub struct SshDestination(pub String);

impl SshDestination {
    /// Wraps `payload`.
    pub fn new(payload: String) -> (r: Self)
        ensures
            r.0 == payload,
    {
        SshDestination(payload)
    }

    /// The wrapped value.
    pub fn payload(&self) -> (r: &String)
        ensures
            *r == self.0,
    {
        &self.0
    }

    /// Unwraps the value.
    pub fn into_payload(self) -> (r: String)
        ensures
            r == self.0,
    {
        self.0
    }
}

impl From<String> for SshDestination {
    fn from(payload: String) -> (r: Self) {
        SshDestination(payload)
    }
}

impl vstd::std_specs::convert::FromSpecImpl<String> for SshDestination {
    open spec fn obeys_from_spec() -> bool {
        true
    }

    open spec fn from_spec(payload: String) -> Self {
        SshDestination(payload)
    }
}

impl View for SshDestination {
    type V = Seq<char>;

    open spec fn view(&self) -> Seq<char> {
        self.0@
    }
}

impl Clone for SshDestination {
    fn clone(&self) -> (r: Self)
        ensures
            r == *self,
    {
        SshDestination(self.0.clone())
    }
}

impl PartialEq for SshDestination {
    fn eq(&self, other: &Self) -> (r: bool) {
        self.0 == other.0
    }
}

impl vstd::std_specs::cmp::PartialEqSpecImpl for SshDestination {
    open spec fn obeys_eq_spec() -> bool {
        true
    }

    open spec fn eq_spec(&self, other: &Self) -> bool {
        self@ == other@
    }
}

impl Eq for SshDestination {

}

/// Request-owned route to the deployment target.
#[derive(Debug)]
pub struct DeploymentTransport {
    pub nix_store_uri: NixStoreUri,
    pub ssh_destination: SshDestination,
}

impl Clone for DeploymentTransport {
    fn clone(&self) -> (r: Self)
        ensures
            r == *self,
    {
        DeploymentTransport {
            nix_store_uri: self.nix_store_uri.clone(),
            ssh_destination: self.ssh_destination.clone(),
        }
    }
}

impl PartialEq for DeploymentTransport {
    fn eq(&self, other: &Self) -> (r: bool) {
        self.nix_store_uri == other.nix_store_uri && self.ssh_destination == other.ssh_destination
    }
}

impl vstd::std_specs::cmp::PartialEqSpecImpl for DeploymentTransport {
    open spec fn obeys_eq_spec() -> bool {
        true
    }

    open spec fn eq_spec(&self, other: &Self) -> bool {
        self.nix_store_uri@ == other.nix_store_uri@ && self.ssh_destination@ == other.ssh_destination@
    }
}

impl Eq for DeploymentTransport {

}

/// Whether the flake is built as it is or against materialized Horizon inputs.
#[derive(Clone, Copy, Debug, PartialEq, Eq, Structural)]
pub enum DeploymentInputMode {
    Direct,
    Horizon,
}

/// Attribute path inside a flake.
#[derive(Debug)]
pub struct FlakeAttribute(pub String);

impl FlakeAttribute {
    /// Wraps `payload`.
    pub fn new(payload: String) -> (r: Self)
        ensures
            r.0 == payload,
    {
        FlakeAttribute(payload)
    }

    /// The wrapped value.
    pub fn payload(&self) -> (r: &String)
        ensures
            *r == self.0,
    {
        &self.0
    }

    /// Unwraps the value.
    pub fn into_payload(self) -> (r: String)
        ensures
            r == self.0,
    {
        self.0
    }
}

impl From<String> for FlakeAttribute {
    fn from(payload: String) -> (r: Self) {
        FlakeAttribute(payload)
    }
}

impl vstd::std_specs::convert::FromSpecImpl<String> for FlakeAttribute {
    open spec fn obeys_from_spec() -> bool {
        true
    }

    open spec fn from_spec(payload: String) -> Self {
        FlakeAttribute(payload)
    }
}

impl View for FlakeAttribute {
    type V = Seq<char>;

    open spec fn view(&self) -> Seq<char> {
        self.0@
    }
}

impl Clone for FlakeAttribute {
    fn clone(&self) -> (r: Self)
        ensures
            r == *self,
    {
        FlakeAttribute(self.0.clone())
    }
}

impl PartialEq for FlakeAttribute {
    fn eq(&self, other: &Self) -> (r: bool) {
        self.0 == other.0
    }
}

impl vstd::std_specs::cmp::PartialEqSpecImpl for FlakeAttribute {
    open spec fn obeys_eq_spec() -> bool {
        true
    }

    open spec fn eq_spec(&self, other: &Self) -> bool {
        self@ == other@
    }
}

impl Eq for FlakeAttribute {

}

/// The exact flake output to evaluate.
#[derive(Debug)]
pub struct DeploymentOutputSelector(pub FlakeAttribute);

impl DeploymentOutputSelector {
    /// Wraps `payload`.
    pub fn new(payload: FlakeAttribute) -> (r: Self)
        ensures
            r.0 == payload,
    {
        DeploymentOutputSelector(payload)
    }

    /// The wrapped value.
    pub fn payload(&self) -> (r: &FlakeAttribute)
        ensures
            *r == self.0,
    {
        &self.0
    }

    /// Unwraps the value.
    pub fn into_payload(self) -> (r: FlakeAttribute)
        ensures
            r == self.0,
    {
        self.0
    }
}

impl From<FlakeAttribute> for DeploymentOutputSelector {
    fn from(payload: FlakeAttribute) -> (r: Self) {
        DeploymentOutputSelector(payload)
    }
}

impl vstd::std_specs::convert::FromSpecImpl<FlakeAttribute> for DeploymentOutputSelector {
    open spec fn obeys_from_spec() -> bool {
        true
    }

    open spec fn from_spec(payload: FlakeAttribute) -> Self {
        DeploymentOutputSelector(payload)
    }
}

impl View for DeploymentOutputSelector {
    type V = Seq<char>;

    open spec fn view(&self) -> Seq<char> {
        self.0@
    }
}

impl Clone for DeploymentOutputSelector {
    fn clone(&self) -> (r: Self)
        ensures
            r == *self,
    {
        DeploymentOutputSelector(self.0.clone())
    }
}

impl PartialEq for DeploymentOutputSelector {
    fn eq(&self, other: &Self) -> (r: bool) {
        self.0 == other.0
    }
}

impl vstd::std_specs::cmp::PartialEqSpecImpl for DeploymentOutputSelector {
    open spec fn obeys_eq_spec() -> bool {
        true
    }

    open spec fn eq_spec(&self, other: &Self) -> bool {
        self@ == other@
    }
}

impl Eq for DeploymentOutputSelector {

}

/// Protocol that puts a closure into effect on the target.
#[derive(Clone, Copy, Debug, PartialEq, Eq, Structural)]
pub enum ActivationBackend {
    NixosSystemdBootV1,
    HomeManagerNixProfileV1,
}

/// Builder specification handed to Nix verbatim.
#[derive(Debug)]
pub struct NixBuilderSpec(pub String);

impl NixBuilderSpec {
    /// Wraps `payload`.
    pub fn new(payload: String) -> (r: Self)
        ensures
            r.0 == payload,
    {
        NixBuilderSpec(payload)
    }

    /// The wrapped value.
    pub fn payload(&self) -> (r: &String)
        ensures
            *r == self.0,
    {
        &self.0
    }

    /// Unwraps the value.
    pub fn into_payload(self) -> (r: String)
        ensures
            r == self.0,
    {
        self.0
    }
}

impl From<String> for NixBuilderSpec {
    fn from(payload: String) -> (r: Self) {
        NixBuilderSpec(payload)
    }
}

impl vstd::std_specs::convert::FromSpecImpl<String> for NixBuilderSpec {
    open spec fn obeys_from_spec() -> bool {
        true
    }

    open spec fn from_spec(payload: String) -> Self {
        NixBuilderSpec(payload)
    }
}

impl View for NixBuilderSpec {
    type V = Seq<char>;

    open spec fn view(&self) -> Seq<char> {
        self.0@
    }
}

impl Clone for NixBuilderSpec {
    fn clone(&self) -> (r: Self)
        ensures
            r == *self,
    {
        NixBuilderSpec(self.0.clone())
    }
}

impl PartialEq for NixBuilderSpec {
    fn eq(&self, other: &Self) -> (r: bool) {
        self.0 == other.0
    }
}

impl vstd::std_specs::cmp::PartialEqSpecImpl for NixBuilderSpec {
    open spec fn obeys_eq_spec() -> bool {
        true
    }

    open spec fn eq_spec(&self, other: &Self) -> bool {
        self@ == other@
    }
}

impl Eq for NixBuilderSpec {

}

/// Nix platform name.
#[derive(Debug)]
pub struct NixSystem(pub String);

impl NixSystem {
    /// Wraps `payload`.
    pub fn new(payload: String) -> (r: Self)
        ensures
            r.0 == payload,
    {
        NixSystem(payload)
    }

    /// The wrapped value.
    pub fn payload(&self) -> (r: &String)
        ensures
            *r == self.0,
    {
        &self.0
    }

    /// Unwraps the value.
    pub fn into_payload(self) -> (r: String)
        ensures
            r == self.0,
    {
        self.0
    }
}

impl From<String> for NixSystem {
    fn from(payload: String) -> (r: Self) {
        NixSystem(payload)
    }
}

impl vstd::std_specs::convert::FromSpecImpl<String> for NixSystem {
    open spec fn obeys_from_spec() -> bool {
        true
    }

    open spec fn from_spec(payload: String) -> Self {
        NixSystem(payload)
    }
}

impl View for NixSystem {
    type V = Seq<char>;

    open spec fn view(&self) -> Seq<char> {
        self.0@
    }
}

impl Clone for NixSystem {
    fn clone(&self) -> (r: Self)
        ensures
            r == *self,
    {
        NixSystem(self.0.clone())
    }
}

impl PartialEq for NixSystem {
    fn eq(&self, other: &Self) -> (r: bool) {
        self.0 == other.0
    }
}

impl vstd::std_specs::cmp::PartialEqSpecImpl for NixSystem {
    open spec fn obeys_eq_spec() -> bool {
        true
    }

    open spec fn eq_spec(&self, other: &Self) -> bool {
        self@ == other@
    }
}

impl Eq for NixSystem {

}

/// Where a derivation is realised.
#[derive(Debug, PartialEq, Eq)]
pub enum BuildTarget {
    Local,
    Remote(NixBuilderSpec),
}

impl Clone for BuildTarget {
    fn clone(&self) -> (r: Self)
        ensures
            r == *self,
    {
        match self {
            BuildTarget::Local => BuildTarget::Local,
            BuildTarget::Remote(value) => BuildTarget::Remote(value.clone()),
        }
    }
}

/// A binary cache to build with.
#[derive(Debug, PartialEq, Eq)]
pub struct ExtraSubstituter {
    pub url: String,
    pub public_key: String,
}

impl Clone for ExtraSubstituter {
    fn clone(&self) -> (r: Self)
        ensures
            r == *self,
    {
        ExtraSubstituter {
            url: self.url.clone(),
            public_key: self.public_key.clone(),
        }
    }
}

/// Asks to resolve a flake.
#[derive(Debug, PartialEq, Eq)]
pub struct FlakeAuthRequest {
    pub proposal_source: ProposalSource,
    pub flake_reference: FlakeReference,
    pub source_revision_policy: SourceRevisionPolicy,
}

impl Clone for FlakeAuthRequest {
    fn clone(&self) -> (r: Self)
        ensures
            r == *self,
    {
        FlakeAuthRequest {
            proposal_source: self.proposal_source.clone(),
            flake_reference: self.flake_reference.clone(),
            source_revision_policy: self.source_revision_policy,
        }
    }
}

/// The resolved source of a flake.
#[derive(Debug, PartialEq, Eq)]
pub struct ResolvedFlake(pub SourceRevisionRecord);

impl ResolvedFlake {
    /// Wraps `payload`.
    pub fn new(payload: SourceRevisionRecord) -> (r: Self)
        ensures
            r.0 == payload,
    {
        ResolvedFlake(payload)
    }

    /// The wrapped value.
    pub fn payload(&self) -> (r: &SourceRevisionRecord)
        ensures
            *r == self.0,
    {
        &self.0
    }

    /// Unwraps the value.
    pub fn into_payload(self) -> (r: SourceRevisionRecord)
        ensures
            r == self.0,
    {
        self.0
    }
}

impl From<SourceRevisionRecord> for ResolvedFlake {
    fn from(payload: SourceRevisionRecord) -> (r: Self) {
        ResolvedFlake(payload)
    }
}

impl vstd::std_specs::convert::FromSpecImpl<SourceRevisionRecord> for ResolvedFlake {
    open spec fn obeys_from_spec() -> bool {
        true
    }

    open spec fn from_spec(payload: SourceRevisionRecord) -> Self {
        ResolvedFlake(payload)
    }
}

impl Clone for ResolvedFlake {
    fn clone(&self) -> (r: Self)
        ensures
            r == *self,
    {
        ResolvedFlake(self.0.clone())
    }
}

/// Materialization for one user.
#[derive(Debug, PartialEq, Eq)]
pub struct UserEnvironmentMaterialization(pub UserName);

impl UserEnvironmentMaterialization {
    /// Wraps `payload`.
    pub fn new(payload: UserName) -> (r: Self)
        ensures
            r.0 == payload,
    {
        UserEnvironmentMaterialization(payload)
    }

    /// The wrapped value.
    pub fn payload(&self) -> (r: &UserName)
        ensures
            *r == self.0,
    {
        &self.0
    }

    /// Unwraps the value.
    pub fn into_payload(self) -> (r: UserName)
        ensures
            r == self.0,
    {
        self.0
    }
}

impl From<UserName> for UserEnvironmentMaterialization {
    fn from(payload: UserName) -> (r: Self) {
        UserEnvironmentMaterialization(payload)
    }
}

impl vstd::std_specs::convert::FromSpecImpl<UserName> for UserEnvironmentMaterialization {
    open spec fn obeys_from_spec() -> bool {
        true
    }

    open spec fn from_spec(payload: UserName) -> Self {
        UserEnvironmentMaterialization(payload)
    }
}

impl Clone for UserEnvironmentMaterialization {
    fn clone(&self) -> (r: Self)
        ensures
            r == *self,
    {
        UserEnvironmentMaterialization(self.0.clone())
    }
}

/// What the materialized inputs describe.
#[derive(Debug, PartialEq, Eq)]
pub enum MaterializationShape {
    CompleteHost,
    BaseHost,
    UserEnvironment(UserEnvironmentMaterialization),
}

impl Clone for MaterializationShape {
    fn clone(&self) -> (r: Self)
        ensures
            r == *self,
    {
        match self {
            MaterializationShape::CompleteHost => MaterializationShape::CompleteHost,
            MaterializationShape::BaseHost => MaterializationShape::BaseHost,
            MaterializationShape::UserEnvironment(value) => MaterializationShape::UserEnvironment(value.clone()),
        }
    }
}

/// Asks to materialize the Horizon inputs.
#[derive(Debug, PartialEq, Eq)]
pub struct HorizonMaterializationCommand {
    pub cluster_name: ClusterName,
    pub node_name: NodeName,
    pub proposal_source: ProposalSource,
    pub materialization_shape: MaterializationShape,
}

impl Clone for HorizonMaterializationCommand {
    fn clone(&self) -> (r: Self)
        ensures
            r == *self,
    {
        HorizonMaterializationCommand {
            cluster_name: self.cluster_name.clone(),
            node_name: self.node_name.clone(),
            proposal_source: self.proposal_source.clone(),
            materialization_shape: self.materialization_shape.clone(),
        }
    }
}

/// Location and content hash of a flake input.
#[derive(Debug, PartialEq, Eq)]
pub struct FlakeInputReference {
    pub url: String,
    pub nix_archive_hash: String,
}

impl Clone for FlakeInputReference {
    fn clone(&self) -> (r: Self)
        ensures
            r == *self,
    {
        FlakeInputReference {
            url: self.url.clone(),
            nix_archive_hash: self.nix_archive_hash.clone(),
        }
    }
}

/// Replaces one input of a flake.
#[derive(Debug, PartialEq, Eq)]
pub struct FlakeInputOverride {
    pub string: String,
    pub flake_input_reference: FlakeInputReference,
}

impl Clone for FlakeInputOverride {
    fn clone(&self) -> (r: Self)
        ensures
            r == *self,
    {
        FlakeInputOverride {
            string: self.string.clone(),
            flake_input_reference: self.flake_input_reference.clone(),
        }
    }
}

/// The inputs that replace those of the flake.
#[derive(Clone, Debug, PartialEq, Eq)]
pub struct MaterializedInputs(pub Vec<FlakeInputOverride>);

impl MaterializedInputs {
    /// Wraps `payload`.
    pub fn new(payload: Vec<FlakeInputOverride>) -> (r: Self)
        ensures
            r.0 == payload,
    {
        MaterializedInputs(payload)
    }

    /// The wrapped value.
    pub fn payload(&self) -> (r: &Vec<FlakeInputOverride>)
        ensures
            *r == self.0,
    {
        &self.0
    }

    /// Unwraps the value.
    pub fn into_payload(self) -> (r: Vec<FlakeInputOverride>)
        ensures
            r == self.0,
    {
        self.0
    }
}

impl From<Vec<FlakeInputOverride>> for MaterializedInputs {
    fn from(payload: Vec<FlakeInputOverride>) -> (r: Self) {
        MaterializedInputs(payload)
    }
}

impl vstd::std_specs::convert::FromSpecImpl<Vec<FlakeInputOverride>> for MaterializedInputs {
    open spec fn obeys_from_spec() -> bool {
        true
    }

    open spec fn from_spec(payload: Vec<FlakeInputOverride>) -> Self {
        MaterializedInputs(payload)
    }
}

/// Asks to evaluate the selected output.
#[derive(Clone, Debug, PartialEq, Eq)]
pub struct NixEvalCommand {
    pub generation_identifier: GenerationIdentifier,
    pub cluster_name: ClusterName,
    pub node_name: NodeName,
    pub generation_artifact: GenerationArtifact,
    pub flake_reference: FlakeReference,
    pub source_revision_record: SourceRevisionRecord,
    pub deployment_output_selector: DeploymentOutputSelector,
    pub flake_input_override_vector: Vec<FlakeInputOverride>,
    pub build_target: BuildTarget,
}

/// Asks to realise a derivation.
#[derive(Clone, Debug, PartialEq, Eq)]
pub struct NixBuildCommand {
    pub generation_identifier: GenerationIdentifier,
    pub closure_path: ClosurePath,
    pub build_target: BuildTarget,
    pub extra_substituter_vector: Vec<ExtraSubstituter>,
}

/// Asks to copy a closure to the target.
#[derive(Debug, PartialEq, Eq)]
pub struct CopyClosureCommand {
    pub generation_identifier: GenerationIdentifier,
    pub node_name: NodeName,
    pub deployment_transport: DeploymentTransport,
    pub closure_path: ClosurePath,
}

impl Clone for CopyClosureCommand {
    fn clone(&self) -> (r: Self)
        ensures
            r == *self,
    {
        CopyClosureCommand {
            generation_identifier: self.generation_identifier.clone(),
            node_name: self.node_name.clone(),
            deployment_transport: self.deployment_transport.clone(),
            closure_path: self.closure_path.clone(),
        }
    }
}

/// The user and action of a user environment activation.
#[derive(Debug, PartialEq, Eq)]
pub struct UserEnvironmentActivationProfile {
    pub user_environment_action: UserEnvironmentAction,
    pub user_name: UserName,
}

impl Clone for UserEnvironmentActivationProfile {
    fn clone(&self) -> (r: Self)
        ensures
            r == *self,
    {
        UserEnvironmentActivationProfile {
            user_environment_action: self.user_environment_action,
            user_name: self.user_name.clone(),
        }
    }
}

/// What is activated.
#[derive(Debug, PartialEq, Eq)]
pub enum ActivationProfile {
    Host(HostDeployAction),
    UserEnvironment(UserEnvironmentActivationProfile),
}

impl Clone for ActivationProfile {
    fn clone(&self) -> (r: Self)
        ensures
            r == *self,
    {
        match self {
            ActivationProfile::Host(value) => ActivationProfile::Host(*value),
            ActivationProfile::UserEnvironment(value) => ActivationProfile::UserEnvironment(value.clone()),
        }
    }
}

/// Asks to activate a closure on the target.
#[derive(Debug, PartialEq, Eq)]
pub struct ActivateGenerationCommand {
    pub deployment_identifier: DeploymentIdentifier,
    pub generation_identifier: GenerationIdentifier,
    pub cluster_name: ClusterName,
    pub node_name: NodeName,
    pub deployment_transport: DeploymentTransport,
    pub closure_path: ClosurePath,
    pub activation_effect: ActivationEffect,
    pub activation_backend: ActivationBackend,
    pub activation_profile: ActivationProfile,
}

impl Clone for ActivateGenerationCommand {
    fn clone(&self) -> (r: Self)
        ensures
            r == *self,
    {
        ActivateGenerationCommand {
            deployment_identifier: self.deployment_identifier.clone(),
            generation_identifier: self.generation_identifier.clone(),
            cluster_name: self.cluster_name.clone(),
            node_name: self.node_name.clone(),
            deployment_transport: self.deployment_transport.clone(),
            closure_path: self.closure_path.clone(),
            activation_effect: self.activation_effect,
            activation_backend: self.activation_backend,
            activation_profile: self.activation_profile.clone(),
        }
    }
}

/// Asks to collect garbage on a node.
#[derive(Debug, PartialEq, Eq)]
pub struct PathInfoGcCommand {
    pub cluster_name: ClusterName,
    pub node_name: NodeName,
}

impl Clone for PathInfoGcCommand {
    fn clone(&self) -> (r: Self)
        ensures
            r == *self,
    {
        PathInfoGcCommand {
            cluster_name: self.cluster_name.clone(),
            node_name: self.node_name.clone(),
        }
    }
}

/// How a test run is executed.
#[derive(Debug, PartialEq, Eq)]
pub struct TestExecutionProfile {
    pub test_mode: TestMode,
    pub nix_system: NixSystem,
    pub deployment_output_selector: DeploymentOutputSelector,
    pub optional_deployment_transport: Option<DeploymentTransport>,
}

impl Clone for TestExecutionProfile {
    fn clone(&self) -> (r: Self)
        ensures
            r == *self,
    {
        TestExecutionProfile {
            test_mode: self.test_mode,
            nix_system: self.nix_system.clone(),
            deployment_output_selector: self.deployment_output_selector.clone(),
            optional_deployment_transport: self.optional_deployment_transport.clone(),
        }
    }
}

/// Asks to build a sandboxed check.
#[derive(Debug, PartialEq, Eq)]
pub struct HermeticCheckCommand {
    pub cluster_name: ClusterName,
    pub node_name: NodeName,
    pub flake_reference: FlakeReference,
    pub test_execution_profile: TestExecutionProfile,
}

impl Clone for HermeticCheckCommand {
    fn clone(&self) -> (r: Self)
        ensures
            r == *self,
    {
        HermeticCheckCommand {
            cluster_name: self.cluster_name.clone(),
            node_name: self.node_name.clone(),
            flake_reference: self.flake_reference.clone(),
            test_execution_profile: self.test_execution_profile.clone(),
        }
    }
}

/// A check was built.
#[derive(Debug, PartialEq, Eq)]
pub struct CheckBuilt {
    pub cluster_name: ClusterName,
    pub node_name: NodeName,
    pub closure_path: ClosurePath,
}

impl Clone for CheckBuilt {
    fn clone(&self) -> (r: Self)
        ensures
            r == *self,
    {
        CheckBuilt {
            cluster_name: self.cluster_name.clone(),
            node_name: self.node_name.clone(),
            closure_path: self.closure_path.clone(),
        }
    }
}

/// Asks to start a test machine.
#[derive(Debug, PartialEq, Eq)]
pub struct BringUpTestVmCommand {
    pub cluster_name: ClusterName,
    pub node: NodeName,
    pub host: NodeName,
    pub deployment_transport: DeploymentTransport,
    pub closure_path: ClosurePath,
    pub string: String,
}

impl Clone for BringUpTestVmCommand {
    fn clone(&self) -> (r: Self)
        ensures
            r == *self,
    {
        BringUpTestVmCommand {
            cluster_name: self.cluster_name.clone(),
            node: self.node.clone(),
            host: self.host.clone(),
            deployment_transport: self.deployment_transport.clone(),
            closure_path: self.closure_path.clone(),
            string: self.string.clone(),
        }
    }
}

/// Asks to stop a test machine.
#[derive(Debug, PartialEq, Eq)]
pub struct TearDownTestVmCommand {
    pub cluster_name: ClusterName,
    pub node: NodeName,
    pub host: NodeName,
    pub deployment_transport: DeploymentTransport,
}

impl Clone for TearDownTestVmCommand {
    fn clone(&self) -> (r: Self)
        ensures
            r == *self,
    {
        TearDownTestVmCommand {
            cluster_name: self.cluster_name.clone(),
            node: self.node.clone(),
            host: self.host.clone(),
            deployment_transport: self.deployment_transport.clone(),
        }
    }
}

/// A test machine was started.
#[derive(Debug, PartialEq, Eq)]
pub struct TestVmBroughtUp {
    pub cluster_name: ClusterName,
    pub node: NodeName,
    pub host: NodeName,
}

impl Clone for TestVmBroughtUp {
    fn clone(&self) -> (r: Self)
        ensures
            r == *self,
    {
        TestVmBroughtUp {
            cluster_name: self.cluster_name.clone(),
            node: self.node.clone(),
            host: self.host.clone(),
        }
    }
}

/// A test machine was stopped.
#[derive(Debug, PartialEq, Eq)]
pub struct TestVmTornDown {
    pub cluster_name: ClusterName,
    pub node: NodeName,
    pub host: NodeName,
}

impl Clone for TestVmTornDown {
    fn clone(&self) -> (r: Self)
        ensures
            r == *self,
    {
        TestVmTornDown {
            cluster_name: self.cluster_name.clone(),
            node: self.node.clone(),
            host: self.host.clone(),
        }
    }
}

/// Work that leaves the daemon.
#[derive(Clone, Debug, PartialEq, Eq)]
pub enum EffectCommand {
    ResolveFlakeAuth(FlakeAuthRequest),
    MaterializeHorizon(HorizonMaterializationCommand),
    NixEval(NixEvalCommand),
    NixBuild(NixBuildCommand),
    CopyClosure(CopyClosureCommand),
    ActivateGeneration(ActivateGenerationCommand),
    PathInfoGc(PathInfoGcCommand),
    HermeticCheck(HermeticCheckCommand),
    BringUpTestVm(BringUpTestVmCommand),
    TearDownTestVm(TearDownTestVmCommand),
}

/// An output was evaluated.
#[derive(Debug, PartialEq, Eq)]
pub struct EvaluatedClosure {
    pub generation_identifier: GenerationIdentifier,
    pub closure_path: ClosurePath,
}

impl Clone for EvaluatedClosure {
    fn clone(&self) -> (r: Self)
        ensures
            r == *self,
    {
        EvaluatedClosure {
            generation_identifier: self.generation_identifier.clone(),
            closure_path: self.closure_path.clone(),
        }
    }
}

/// A derivation was realised.
#[derive(Debug, PartialEq, Eq)]
pub struct BuiltClosure {
    pub generation_identifier: GenerationIdentifier,
    pub closure_path: ClosurePath,
}

impl Clone for BuiltClosure {
    fn clone(&self) -> (r: Self)
        ensures
            r == *self,
    {
        BuiltClosure {
            generation_identifier: self.generation_identifier.clone(),
            closure_path: self.closure_path.clone(),
        }
    }
}

/// A closure was copied.
#[derive(Debug, PartialEq, Eq)]
pub struct CopiedClosure {
    pub generation_identifier: GenerationIdentifier,
    pub node_name: NodeName,
    pub closure_path: ClosurePath,
}

impl Clone for CopiedClosure {
    fn clone(&self) -> (r: Self)
        ensures
            r == *self,
    {
        CopiedClosure {
            generation_identifier: self.generation_identifier.clone(),
            node_name: self.node_name.clone(),
            closure_path: self.closure_path.clone(),
        }
    }
}

/// A closure was activated.
#[derive(Debug, PartialEq, Eq)]
pub struct ActivatedGeneration {
    pub generation_identifier: GenerationIdentifier,
    pub node_name: NodeName,
    pub generation_slot: GenerationSlot,
}

impl Clone for ActivatedGeneration {
    fn clone(&self) -> (r: Self)
        ensures
            r == *self,
    {
        ActivatedGeneration {
            generation_identifier: self.generation_identifier.clone(),
            node_name: self.node_name.clone(),
            generation_slot: self.generation_slot,
        }
    }
}

/// Garbage was collected.
#[derive(Debug, PartialEq, Eq)]
pub struct GarbageCollected {
    pub cluster_name: ClusterName,
    pub node_name: NodeName,
    pub integer: u64,
}

impl Clone for GarbageCollected {
    fn clone(&self) -> (r: Self)
        ensures
            r == *self,
    {
        GarbageCollected {
            cluster_name: self.cluster_name.clone(),
            node_name: self.node_name.clone(),
            integer: self.integer,
        }
    }
}

/// An effect failed.
#[derive(Debug, PartialEq, Eq)]
pub struct EffectFailure {
    pub effect_stage: EffectStage,
    pub string: String,
}

impl Clone for EffectFailure {
    fn clone(&self) -> (r: Self)
        ensures
            r == *self,
    {
        EffectFailure {
            effect_stage: self.effect_stage,
            string: self.string.clone(),
        }
    }
}

/// The effect that failed.
#[derive(Clone, Copy, Debug, PartialEq, Eq, Structural)]
pub enum EffectStage {
    FlakeAuth,
    MaterializeHorizon,
    Eval,
    Build,
    CopyClosure,
    Activate,
    Gc,
    HermeticCheck,
    BringUpTestVm,
    TearDownTestVm,
}

/// What an effect returned.
#[derive(Clone, Debug, PartialEq, Eq)]
pub enum EffectResult {
    FlakeResolved(ResolvedFlake),
    HorizonMaterialized(MaterializedInputs),
    ClosureEvaluated(EvaluatedClosure),
    ClosureBuilt(BuiltClosure),
    ClosureCopied(CopiedClosure),
    GenerationActivated(ActivatedGeneration),
    DetachedTestActivationDispatched,
    PathsCollected(GarbageCollected),
    HermeticCheckBuilt(CheckBuilt),
    TestVmStarted(TestVmBroughtUp),
    TestVmStopped(TestVmTornDown),
    EffectFailed(EffectFailure),
}

/// Work for the decision engine.
#[derive(Clone, Debug, PartialEq, Eq)]
pub enum NexusWork {
    SignalArrived(SignalInput),
    SemaReadCompleted(SemaReadOutput),
    SemaWriteCompleted(SemaWriteOutput),
    EffectCompleted(EffectResult),
}

/// What the decision engine asks for next.
#[derive(Clone, Debug, PartialEq, Eq)]
pub enum NexusAction {
    CommandSemaRead(SemaReadInput),
    CommandSemaWrite(SemaWriteInput),
    CommandEffect(EffectCommand),
    ReplyToSignal(SignalOutput),
    Continue(NexusWork),
}

/// A request to the engine.
#[derive(Clone, Debug, PartialEq, Eq)]
pub enum Input {
    Work(NexusWork),
}

/// A reply of the engine.
#[derive(Clone, Debug, PartialEq, Eq)]
pub enum Output {
    Action(NexusAction),
}

/// The request a chain of work answers.
#[derive(Debug, PartialEq, Eq, Structural)]
pub struct OriginRoute(pub u64);

impl OriginRoute {
    /// Wraps `payload`.
    pub fn new(payload: u64) -> (r: Self)
        ensures
            r.0 == payload,
    {
        OriginRoute(payload)
    }

    /// The wrapped value.
    pub fn payload(&self) -> (r: &u64)
        ensures
            *r == self.0,
    {
        &self.0
    }
}

impl Clone for OriginRoute {
    fn clone(&self) -> (r: Self)
        ensures
            r == *self,
    {
        OriginRoute(self.0)
    }
}

/// A value on its way to or from the decision engine, with the request it belongs to.
#[derive(Clone, Debug, PartialEq, Eq)]
pub struct Nexus<Root> {
    pub origin_route: OriginRoute,
    pub root: Root,
}

impl<Root> Nexus<Root> {
    /// Tags `root` with its route.
    pub fn new(origin_route: OriginRoute, root: Root) -> (r: Self)
        ensures
            r.origin_route == origin_route,
            r.root == root,
    {
        Nexus { origin_route, root }
    }

    /// The route.
    pub fn origin_route(&self) -> (r: OriginRoute)
        ensures
            r == self.origin_route,
    {
        self.origin_route.clone()
    }

    /// The value.
    pub fn root(&self) -> (r: &Root)
        ensures
            *r == self.root,
    {
        &self.root
    }

    /// The value, by move.
    pub fn into_root(self) -> (r: Root)
        ensures
            r == self.root,
    {
        self.root
    }
}

impl NexusWork {
    /// Tags the work with the request it belongs to.
    pub fn with_origin_route(self, origin_route: OriginRoute) -> (r: Nexus<NexusWork>)
        ensures
            r.origin_route == origin_route,
            r.root == self,
    {
        Nexus::new(origin_route, self)
    }

    /// A write has completed.
    pub fn sema_write_completed(output: SemaWriteOutput) -> (r: Self)
        ensures
            r == NexusWork::SemaWriteCompleted(output),
    {
        NexusWork::SemaWriteCompleted(output)
    }

    /// A read has completed.
    pub fn sema_read_completed(output: SemaReadOutput) -> (r: Self)
        ensures
            r == NexusWork::SemaReadCompleted(output),
    {
        NexusWork::SemaReadCompleted(output)
    }

    /// An effect has completed.
    pub fn effect_completed(output: EffectResult) -> (r: Self)
        ensures
            r == NexusWork::EffectCompleted(output),
    {
        NexusWork::EffectCompleted(output)
    }
}

/// The runner's view of an action: answer, touch the state, run an effect, or go on.
#[derive(Clone, Debug, PartialEq, Eq)]
pub enum NexusRunnerNextStep {
    Reply(SignalOutput),
    SemaWrite(SemaWriteInput),
    SemaRead(SemaReadInput),
    RunEffect(EffectCommand),
    Continue(NexusWork),
}

impl NexusAction {
    /// Tags the action with the request it belongs to.
    pub fn with_origin_route(self, origin_route: OriginRoute) -> (r: Nexus<NexusAction>)
        ensures
            r.origin_route == origin_route,
            r.root == self,
    {
        Nexus::new(origin_route, self)
    }

    /// Answers the request.
    pub fn reply_to_signal(output: SignalOutput) -> (r: Self)
        ensures
            r == NexusAction::ReplyToSignal(output),
    {
        NexusAction::ReplyToSignal(output)
    }

    /// The step the runner takes for this action.
    pub fn into_next_step(self) -> (r: NexusRunnerNextStep)
        ensures
            r == (match self {
                NexusAction::CommandSemaWrite(input) => NexusRunnerNextStep::SemaWrite(input),
                NexusAction::CommandSemaRead(input) => NexusRunnerNextStep::SemaRead(input),
                NexusAction::ReplyToSignal(output) => NexusRunnerNextStep::Reply(output),
                NexusAction::CommandEffect(effect) => NexusRunnerNextStep::RunEffect(effect),
                NexusAction::Continue(work) => NexusRunnerNextStep::Continue(work),
            }),
    {
        match self {
            NexusAction::CommandSemaWrite(input) => NexusRunnerNextStep::SemaWrite(input),
            NexusAction::CommandSemaRead(input) => NexusRunnerNextStep::SemaRead(input),
            NexusAction::ReplyToSignal(output) => NexusRunnerNextStep::Reply(output),
            NexusAction::CommandEffect(effect) => NexusRunnerNextStep::RunEffect(effect),
            NexusAction::Continue(work) => NexusRunnerNextStep::Continue(work),
        }
    }
}

impl EffectResult {
    /// The flake was resolved to `value`.
    pub fn flake_resolved(value: SourceRevisionRecord) -> (r: Self)
        ensures
            r == EffectResult::FlakeResolved(ResolvedFlake(value)),
    {
        EffectResult::FlakeResolved(ResolvedFlake::new(value))
    }

    /// The inputs were materialized as `value`.
    pub fn horizon_materialized(value: Vec<FlakeInputOverride>) -> (r: Self)
        ensures
            r == EffectResult::HorizonMaterialized(MaterializedInputs(value)),
    {
        EffectResult::HorizonMaterialized(MaterializedInputs::new(value))
    }

    /// The output was evaluated to `value`.
    pub fn closure_evaluated(value: EvaluatedClosure) -> (r: Self)
        ensures
            r == EffectResult::ClosureEvaluated(value),
    {
        EffectResult::ClosureEvaluated(value)
    }

    /// The derivation was realised as `value`.
    pub fn closure_built(value: BuiltClosure) -> (r: Self)
        ensures
            r == EffectResult::ClosureBuilt(value),
    {
        EffectResult::ClosureBuilt(value)
    }
}

} // verus!
