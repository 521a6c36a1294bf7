//! Durable and decision-plane values of the deploy daemon.

use vstd::prelude::*;

verus! {

/// Name of a cluster.
#[derive(Debug)]
pub struct ClusterName(pub String);

impl ClusterName {
    /// Wraps `payload`.
    pub fn new(payload: String) -> (r: Self)
        ensures
            r.0 == payload,
    {
        ClusterName(payload)
    }

    /// The wrapped value.
    pub fn payload(&self) -> (r: &String)
        ensures
            *r == self.0,
    {
        &self.0
    }

    /// Unwraps the value.
    pub fn into_payload(self) -> (r: String)
        ensures
            r == self.0,
    {
        self.0
    }
}

impl From<String> for ClusterName {
    fn from(payload: String) -> (r: Self) {
        ClusterName(payload)
    }
}

impl vstd::std_specs::convert::FromSpecImpl<String> for ClusterName {
    open spec fn obeys_from_spec() -> bool {
        true
    }

    open spec fn from_spec(payload: String) -> Self {
        ClusterName(payload)
    }
}

impl View for ClusterName {
    type V = Seq<char>;

    open spec fn view(&self) -> Seq<char> {
        self.0@
    }
}

impl Clone for ClusterName {
    fn clone(&self) -> (r: Self)
        ensures
            r == *self,
    {
        ClusterName(self.0.clone())
    }
}

impl PartialEq for ClusterName {
    fn eq(&self, other: &Self) -> (r: bool) {
        self.0 == other.0
    }
}

impl vstd::std_specs::cmp::PartialEqSpecImpl for ClusterName {
    open spec fn obeys_eq_spec() -> bool {
        true
    }

    open spec fn eq_spec(&self, other: &Self) -> bool {
        self@ == other@
    }
}

impl Eq for ClusterName {

}

/// Name of a node in a cluster.
#[derive(Debug)]
pub struct NodeName(pub String);

impl NodeName {
    /// Wraps `payload`.
    pub fn new(payload: String) -> (r: Self)
        ensures
            r.0 == payload,
    {
        NodeName(payload)
    }

    /// The wrapped value.
    pub fn payload(&self) -> (r: &String)
        ensures
            *r == self.0,
    {
        &self.0
    }

    /// Unwraps the value.
    pub fn into_payload(self) -> (r: String)
        ensures
            r == self.0,
    {
        self.0
    }
}

impl From<String> for NodeName {
    fn from(payload: String) -> (r: Self) {
        NodeName(payload)
    }
}

impl vstd::std_specs::convert::FromSpecImpl<String> for NodeName {
    open spec fn obeys_from_spec() -> bool {
        true
    }

    open spec fn from_spec(payload: String) -> Self {
        NodeName(payload)
    }
}

impl View for NodeName {
    type V = Seq<char>;

    open spec fn view(&self) -> Seq<char> {
        self.0@
    }
}

impl Clone for NodeName {
    fn clone(&self) -> (r: Self)
        ensures
            r == *self,
    {
        NodeName(self.0.clone())
    }
}

impl PartialEq for NodeName {
    fn eq(&self, other: &Self) -> (r: bool) {
        self.0 == other.0
    }
}

impl vstd::std_specs::cmp::PartialEqSpecImpl for NodeName {
    open spec fn obeys_eq_spec() -> bool {
        true
    }

    open spec fn eq_spec(&self, other: &Self) -> bool {
        self@ == other@
    }
}

impl Eq for NodeName {

}

/// Login name of a user environment's owner.
#[derive(Debug)]
pub struct UserName(pub String);

impl UserName {
    /// Wraps `payload`.
    pub fn new(payload: String) -> (r: Self)
        ensures
            r.0 == payload,
    {
        UserName(payload)
    }

    /// The wrapped value.
    pub fn payload(&self) -> (r: &String)
        ensures
            *r == self.0,
    {
        &self.0
    }

    /// Unwraps the value.
    pub fn into_payload(self) -> (r: String)
        ensures
            r == self.0,
    {
        self.0
    }
}

impl From<String> for UserName {
    fn from(payload: String) -> (r: Self) {
        UserName(payload)
    }
}

impl vstd::std_specs::convert::FromSpecImpl<String> for UserName {
    open spec fn obeys_from_spec() -> bool {
        true
    }

    open spec fn from_spec(payload: String) -> Self {
        UserName(payload)
    }
}

impl View for UserName {
    type V = Seq<char>;

    open spec fn view(&self) -> Seq<char> {
        self.0@
    }
}

impl Clone for UserName {
    fn clone(&self) -> (r: Self)
        ensures
            r == *self,
    {
        UserName(self.0.clone())
    }
}

impl PartialEq for UserName {
    fn eq(&self, other: &Self) -> (r: bool) {
        self.0 == other.0
    }
}

impl vstd::std_specs::cmp::PartialEqSpecImpl for UserName {
    open spec fn obeys_eq_spec() -> bool {
        true
    }

    open spec fn eq_spec(&self, other: &Self) -> bool {
        self@ == other@
    }
}

impl Eq for UserName {

}

/// Label under which a generation is pinned.
#[derive(Debug)]
pub struct PinLabel(pub String);

impl PinLabel {
    /// Wraps `payload`.
    pub fn new(payload: String) -> (r: Self)
        ensures
            r.0 == payload,
    {
        PinLabel(payload)
    }

    /// The wrapped value.
    pub fn payload(&self) -> (r: &String)
        ensures
            *r == self.0,
    {
        &self.0
    }

    /// Unwraps the value.
    pub fn into_payload(self) -> (r: String)
        ensures
            r == self.0,
    {
        self.0
    }
}

impl From<String> for PinLabel {
    fn from(payload: String) -> (r: Self) {
        PinLabel(payload)
    }
}

impl vstd::std_specs::convert::FromSpecImpl<String> for PinLabel {
    open spec fn obeys_from_spec() -> bool {
        true
    }

    open spec fn from_spec(payload: String) -> Self {
        PinLabel(payload)
    }
}

impl View for PinLabel {
    type V = Seq<char>;

    open spec fn view(&self) -> Seq<char> {
        self.0@
    }
}

impl Clone for PinLabel {
    fn clone(&self) -> (r: Self)
        ensures
            r == *self,
    {
        PinLabel(self.0.clone())
    }
}

impl PartialEq for PinLabel {
    fn eq(&self, other: &Self) -> (r: bool) {
        self.0 == other.0
    }
}

impl vstd::std_specs::cmp::PartialEqSpecImpl for PinLabel {
    open spec fn obeys_eq_spec() -> bool {
        true
    }

    open spec fn eq_spec(&self, other: &Self) -> bool {
        self@ == other@
    }
}

impl Eq for PinLabel {

}

/// Store path of an evaluated, built or activated closure.
#[derive(Debug)]
pub struct ClosurePath(pub String);

impl ClosurePath {
    /// Wraps `payload`.
    pub fn new(payload: String) -> (r: Self)
        ensures
            r.0 == payload,
    {
        ClosurePath(payload)
    }

    /// The wrapped value.
    pub fn payload(&self) -> (r: &String)
        ensures
            *r == self.0,
    {
        &self.0
    }

    /// Unwraps the value.
    pub fn into_payload(self) -> (r: String)
        ensures
            r == self.0,
    {
        self.0
    }
}

impl From<String> for ClosurePath {
    fn from(payload: String) -> (r: Self) {
        ClosurePath(payload)
    }
}

impl vstd::std_specs::convert::FromSpecImpl<String> for ClosurePath {
    open spec fn obeys_from_spec() -> bool {
        true
    }

    open spec fn from_spec(payload: String) -> Self {
        ClosurePath(payload)
    }
}

impl View for ClosurePath {
    type V = Seq<char>;

    open spec fn view(&self) -> Seq<char> {
        self.0@
    }
}

impl Clone for ClosurePath {
    fn clone(&self) -> (r: Self)
        ensures
            r == *self,
    {
        ClosurePath(self.0.clone())
    }
}

impl PartialEq for ClosurePath {
    fn eq(&self, other: &Self) -> (r: bool) {
        self.0 == other.0
    }
}

impl vstd::std_specs::cmp::PartialEqSpecImpl for ClosurePath {
    open spec fn obeys_eq_spec() -> bool {
        true
    }

    open spec fn eq_spec(&self, other: &Self) -> bool {
        self@ == other@
    }
}

impl Eq for ClosurePath {

}

/// Locator of a flake.
#[derive(Debug)]
pub struct FlakeReference(pub String);

impl FlakeReference {
    /// Wraps `payload`.
    pub fn new(payload: String) -> (r: Self)
        ensures
            r.0 == payload,
    {
        FlakeReference(payload)
    }

    /// The wrapped value.
    pub fn payload(&self) -> (r: &String)
        ensures
            *r == self.0,
    {
        &self.0
    }

    /// Unwraps the value.
    pub fn into_payload(self) -> (r: String)
        ensures
            r == self.0,
    {
        self.0
    }
}

impl From<String> for FlakeReference {
    fn from(payload: String) -> (r: Self) {
        FlakeReference(payload)
    }
}

impl vstd::std_specs::convert::FromSpecImpl<String> for FlakeReference {
    open spec fn obeys_from_spec() -> bool {
        true
    }

    open spec fn from_spec(payload: String) -> Self {
        FlakeReference(payload)
    }
}

impl View for FlakeReference {
    type V = Seq<char>;

    open spec fn view(&self) -> Seq<char> {
        self.0@
    }
}

impl Clone for FlakeReference {
    fn clone(&self) -> (r: Self)
        ensures
            r == *self,
    {
        FlakeReference(self.0.clone())
    }
}

impl PartialEq for FlakeReference {
    fn eq(&self, other: &Self) -> (r: bool) {
        self.0 == other.0
    }
}

impl vstd::std_specs::cmp::PartialEqSpecImpl for FlakeReference {
    open spec fn obeys_eq_spec() -> bool {
        true
    }

    open spec fn eq_spec(&self, other: &Self) -> bool {
        self@ == other@
    }
}

impl Eq for FlakeReference {

}

/// Store that Nix copies a closure to, exactly as requested.
#[derive(Debug)]
pub struct NixStoreUri(pub String);

impl NixStoreUri {
    /// Wraps `payload`.
    pub fn new(payload: String) -> (r: Self)
        ensures
            r.0 == payload,
    {
        NixStoreUri(payload)
    }

    /// The wrapped value.
    pub fn payload(&self) -> (r: &String)
        ensures
            *r == self.0,
    {
        &self.0
    }

    /// Unwraps the value.
    pub fn into_payload(self) -> (r: String)
        ensures
            r == self.0,
    {
        self.0
    }
}

impl From<String> for NixStoreUri {
    fn from(payload: String) -> (r: Self) {
        NixStoreUri(payload)
    }
}

impl vstd::std_specs::convert::FromSpecImpl<String> for NixStoreUri {
    open spec fn obeys_from_spec() -> bool {
        true
    }

    open spec fn from_spec(payload: String) -> Self {
        NixStoreUri(payload)
    }
}

impl View for NixStoreUri {
    type V = Seq<char>;

    open spec fn view(&self) -> Seq<char> {
        self.0@
    }
}

impl Clone for NixStoreUri {
    fn clone(&self) -> (r: Self)
        ensures
            r == *self,
    {
        NixStoreUri(self.0.clone())
    }
}

impl PartialEq for NixStoreUri {
    fn eq(&self, other: &Self) -> (r: bool) {
        self.0 == other.0
    }
}

impl vstd::std_specs::cmp::PartialEqSpecImpl for NixStoreUri {
    open spec fn obeys_eq_spec() -> bool {
        true
    }

    open spec fn eq_spec(&self, other: &Self) -> bool {
        self@ == other@
    }
}

impl Eq for NixStoreUri {

}

/// Login and host that SSH activates on, exactly as requested.
#[derive(Debug)]
pub struct SshDestination(pub String);

impl SshDestination {
    /// Wraps `payload`.
    pub fn new(payload: String) -> (r: Self)
        ensures
            r.0 == payload,
    {
        SshDestination(payload)
    }

    /// The wrapped value.
    pub fn payload(&self) -> (r: &String)
        ensures
            *r == self.0,
    {
        &self.0
    }

    /// Unwraps the value.
    pub fn into_payload(self) -> (r: String)
        ensures
            r == self.0,
    {
        self.0
    }
}

impl From<String> for SshDestination {
    fn from(payload: String) -> (r: Self) {
        SshDestination(payload)
    }
}

impl vstd::std_specs::convert::FromSpecImpl<String> for SshDestination {
    open spec fn obeys_from_spec() -> bool {
        true
    }

    open spec fn from_spec(payload: String) -> Self {
        SshDestination(payload)
    }
}

impl View for SshDestination {
    type V = Seq<char>;

    open spec fn view(&self) -> Seq<char> {
        self.0@
    }
}

impl Clone for SshDestination {
    fn clone(&self) -> (r: Self)
        ensures
            r == *self,
    {
        SshDestination(self.0.clone())
    }
}

impl PartialEq for SshDestination {
    fn eq(&self, other: &Self) -> (r: bool) {
        self.0 == other.0
    }
}

impl vstd::std_specs::cmp::PartialEqSpecImpl for SshDestination {
    open spec fn obeys_eq_spec() -> bool {
        true
    }

    open spec fn eq_spec(&self, other: &Self) -> bool {
        self@ == other@
    }
}

impl Eq for SshDestination {

}

/// Request-owned route to the deployment target.
#[derive(Debug)]
pub struct DeploymentTransport {
    pub nix_store_uri: NixStoreUri,
    pub ssh_destination: SshDestination,
}

impl Clone for DeploymentTransport {
    fn clone(&self) -> (r: Self)
        ensures
            r == *self,
    {
        DeploymentTransport {
            nix_store_uri: self.nix_store_uri.clone(),
            ssh_destination: self.ssh_destination.clone(),
        }
    }
}

impl PartialEq for DeploymentTransport {
    fn eq(&self, other: &Self) -> (r: bool) {
        self.nix_store_uri == other.nix_store_uri && self.ssh_destination == other.ssh_destination
    }
}

impl vstd::std_specs::cmp::PartialEqSpecImpl for DeploymentTransport {
    open spec fn obeys_eq_spec() -> bool {
        true
    }

    open spec fn eq_spec(&self, other: &Self) -> bool {
        self.nix_store_uri@ == other.nix_store_uri@ && self.ssh_destination@ == other.ssh_destination@
    }
}

impl Eq for DeploymentTransport {

}

/// Whether the flake is built as it is or against materialized Horizon inputs.
#[derive(Clone, Copy, Debug, PartialEq, Eq, Structural)]
pub enum DeploymentInputMode {
    Direct,
    Horizon,
}

/// Attribute path inside a flake.
#[derive(Debug)]
pub struct FlakeAttribute(pub String);

impl FlakeAttribute {
    /// Wraps `payload`.
    pub fn new(payload: String) -> (r: Self)
        ensures
            r.0 == payload,
    {
        FlakeAttribute(payload)
    }

    /// The wrapped value.
    pub fn payload(&self) -> (r: &String)
        ensures
            *r == self.0,
    {
        &self.0
    }

    /// Unwraps the value.
    pub fn into_payload(self) -> (r: String)
        ensures
            r == self.0,
    {
        self.0
    }
}

impl From<String> for FlakeAttribute {
    fn from(payload: String) -> (r: Self) {
        FlakeAttribute(payload)
    }
}

impl vstd::std_specs::convert::FromSpecImpl<String> for FlakeAttribute {
    open spec fn obeys_from_spec() -> bool {
        true
    }

    open spec fn from_spec(payload: String) -> Self {
        FlakeAttribute(payload)
    }
}

impl View for FlakeAttribute {
    type V = Seq<char>;

    open spec fn view(&self) -> Seq<char> {
        self.0@
    }
}

impl Clone for FlakeAttribute {
    fn clone(&self) -> (r: Self)
        ensures
            r == *self,
    {
        FlakeAttribute(self.0.clone())
    }
}

impl PartialEq for FlakeAttribute {
    fn eq(&self, other: &Self) -> (r: bool) {
        self.0 == other.0
    }
}

impl vstd::std_specs::cmp::PartialEqSpecImpl for FlakeAttribute {
    open spec fn obeys_eq_spec() -> bool {
        true
    }

    open spec fn eq_spec(&self, other: &Self) -> bool {
        self@ == other@
    }
}

impl Eq for FlakeAttribute {

}

/// The exact flake output to evaluate.
#[derive(Debug)]
pub struct DeploymentOutputSelector(pub FlakeAttribute);

impl DeploymentOutputSelector {
    /// Wraps `payload`.
    pub fn new(payload: FlakeAttribute) -> (r: Self)
        ensures
            r.0 == payload,
    {
        DeploymentOutputSelector(payload)
    }

    /// The wrapped value.
    pub fn payload(&self) -> (r: &FlakeAttribute)
        ensures
            *r == self.0,
    {
        &self.0
    }

    /// Unwraps the value.
    pub fn into_payload(self) -> (r: FlakeAttribute)
        ensures
            r == self.0,
    {
        self.0
    }
}

impl From<FlakeAttribute> for DeploymentOutputSelector {
    fn from(payload: FlakeAttribute) -> (r: Self) {
        DeploymentOutputSelector(payload)
    }
}

impl vstd::std_specs::convert::FromSpecImpl<FlakeAttribute> for DeploymentOutputSelector {
    open spec fn obeys_from_spec() -> bool {
        true
    }

    open spec fn from_spec(payload: FlakeAttribute) -> Self {
        DeploymentOutputSelector(payload)
    }
}

impl View for DeploymentOutputSelector {
    type V = Seq<char>;

    open spec fn view(&self) -> Seq<char> {
        self.0@
    }
}

impl Clone for DeploymentOutputSelector {
    fn clone(&self) -> (r: Self)
        ensures
            r == *self,
    {
        DeploymentOutputSelector(self.0.clone())
    }
}

impl PartialEq for DeploymentOutputSelector {
    fn eq(&self, other: &Self) -> (r: bool) {
        self.0 == other.0
    }
}

impl vstd::std_specs::cmp::PartialEqSpecImpl for DeploymentOutputSelector {
    open spec fn obeys_eq_spec() -> bool {
        true
    }

    open spec fn eq_spec(&self, other: &Self) -> bool {
        self@ == other@
    }
}

impl Eq for DeploymentOutputSelector {

}

/// Protocol that puts a closure into effect on the target.
#[derive(Clone, Copy, Debug, PartialEq, Eq, Structural)]
pub enum ActivationBackend {
    NixosSystemdBootV1,
    HomeManagerNixProfileV1,
}

/// Builder specification handed to Nix verbatim.
#[derive(Debug)]
pub struct NixBuilderSpec(pub String);

impl NixBuilderSpec {
    /// Wraps `payload`.
    pub fn new(payload: String) -> (r: Self)
        ensures
            r.0 == payload,
    {
        NixBuilderSpec(payload)
    }

    /// The wrapped value.
    pub fn payload(&self) -> (r: &String)
        ensures
            *r == self.0,
    {
        &self.0
    }

    /// Unwraps the value.
    pub fn into_payload(self) -> (r: String)
        ensures
            r == self.0,
    {
        self.0
    }
}

impl From<String> for NixBuilderSpec {
    fn from(payload: String) -> (r: Self) {
        NixBuilderSpec(payload)
    }
}

impl vstd::std_specs::convert::FromSpecImpl<String> for NixBuilderSpec {
    open spec fn obeys_from_spec() -> bool {
        true
    }

    open spec fn from_spec(payload: String) -> Self {
        NixBuilderSpec(payload)
    }
}

impl View for NixBuilderSpec {
    type V = Seq<char>;

    open spec fn view(&self) -> Seq<char> {
        self.0@
    }
}

impl Clone for NixBuilderSpec {
    fn clone(&self) -> (r: Self)
        ensures
            r == *self,
    {
        NixBuilderSpec(self.0.clone())
    }
}

impl PartialEq for NixBuilderSpec {
    fn eq(&self, other: &Self) -> (r: bool) {
        self.0 == other.0
    }
}

impl vstd::std_specs::cmp::PartialEqSpecImpl for NixBuilderSpec {
    open spec fn obeys_eq_spec() -> bool {
        true
    }

    open spec fn eq_spec(&self, other: &Self) -> bool {
        self@ == other@
    }
}

impl Eq for NixBuilderSpec {

}

/// Nix platform name.
#[derive(Debug)]
pub struct NixSystem(pub String);

impl NixSystem {
    /// Wraps `payload`.
    pub fn new(payload: String) -> (r: Self)
        ensures
            r.0 == payload,
    {
        NixSystem(payload)
    }

    /// The wrapped value.
    pub fn payload(&self) -> (r: &String)
        ensures
            *r == self.0,
    {
        &self.0
    }

    /// Unwraps the value.
    pub fn into_payload(self) -> (r: String)
        ensures
            r == self.0,
    {
        self.0
    }
}

impl From<String> for NixSystem {
    fn from(payload: String) -> (r: Self) {
        NixSystem(payload)
    }
}

impl vstd::std_specs::convert::FromSpecImpl<String> for NixSystem {
    open spec fn obeys_from_spec() -> bool {
        true
    }

    open spec fn from_spec(payload: String) -> Self {
        NixSystem(payload)
    }
}

impl View for NixSystem {
    type V = Seq<char>;

    open spec fn view(&self) -> Seq<char> {
        self.0@
    }
}

impl Clone for NixSystem {
    fn clone(&self) -> (r: Self)
        ensures
            r == *self,
    {
        NixSystem(self.0.clone())
    }
}

impl PartialEq for NixSystem {
    fn eq(&self, other: &Self) -> (r: bool) {
        self.0 == other.0
    }
}

impl vstd::std_specs::cmp::PartialEqSpecImpl for NixSystem {
    open spec fn obeys_eq_spec() -> bool {
        true
    }

    open spec fn eq_spec(&self, other: &Self) -> bool {
        self@ == other@
    }
}

impl Eq for NixSystem {

}

/// How a test run is executed.
#[derive(Debug, PartialEq, Eq)]
pub struct TestExecutionProfile {
    pub test_mode: TestMode,
    pub nix_system: NixSystem,
    pub deployment_output_selector: DeploymentOutputSelector,
    pub optional_deployment_transport: Option<DeploymentTransport>,
}

impl Clone for TestExecutionProfile {
    fn clone(&self) -> (r: Self)
        ensures
            r == *self,
    {
        TestExecutionProfile {
            test_mode: self.test_mode,
            nix_system: self.nix_system.clone(),
            deployment_output_selector: self.deployment_output_selector.clone(),
            optional_deployment_transport: self.optional_deployment_transport.clone(),
        }
    }
}

/// Path of the cluster proposal artifact.
#[derive(Debug)]
pub struct ProposalSource(pub String);

impl ProposalSource {
    /// Wraps `payload`.
    pub fn new(payload: String) -> (r: Self)
        ensures
            r.0 == payload,
    {
        ProposalSource(payload)
    }

    /// The wrapped value.
    pub fn payload(&self) -> (r: &String)
        ensures
            *r == self.0,
    {
        &self.0
    }

    /// Unwraps the value.
    pub fn into_payload(self) -> (r: String)
        ensures
            r == self.0,
    {
        self.0
    }
}

impl From<String> for ProposalSource {
    fn from(payload: String) -> (r: Self) {
        ProposalSource(payload)
    }
}

impl vstd::std_specs::convert::FromSpecImpl<String> for ProposalSource {
    open spec fn obeys_from_spec() -> bool {
        true
    }

    open spec fn from_spec(payload: String) -> Self {
        ProposalSource(payload)
    }
}

impl View for ProposalSource {
    type V = Seq<char>;

    open spec fn view(&self) -> Seq<char> {
        self.0@
    }
}

impl Clone for ProposalSource {
    fn clone(&self) -> (r: Self)
        ensures
            r == *self,
    {
        ProposalSource(self.0.clone())
    }
}

impl PartialEq for ProposalSource {
    fn eq(&self, other: &Self) -> (r: bool) {
        self.0 == other.0
    }
}

impl vstd::std_specs::cmp::PartialEqSpecImpl for ProposalSource {
    open spec fn obeys_eq_spec() -> bool {
        true
    }

    open spec fn eq_spec(&self, other: &Self) -> bool {
        self@ == other@
    }
}

impl Eq for ProposalSource {

}

/// Path of a directory of encrypted secrets.
#[derive(Debug)]
pub struct SecretsDirectory(pub String);

impl SecretsDirectory {
    /// Wraps `payload`.
    pub fn new(payload: String) -> (r: Self)
        ensures
            r.0 == payload,
    {
        SecretsDirectory(payload)
    }

    /// The wrapped value.
    pub fn payload(&self) -> (r: &String)
        ensures
            *r == self.0,
    {
        &self.0
    }

    /// Unwraps the value.
    pub fn into_payload(self) -> (r: String)
        ensures
            r == self.0,
    {
        self.0
    }
}

impl From<String> for SecretsDirectory {
    fn from(payload: String) -> (r: Self) {
        SecretsDirectory(payload)
    }
}

impl vstd::std_specs::convert::FromSpecImpl<String> for SecretsDirectory {
    open spec fn obeys_from_spec() -> bool {
        true
    }

    open spec fn from_spec(payload: String) -> Self {
        SecretsDirectory(payload)
    }
}

impl View for SecretsDirectory {
    type V = Seq<char>;

    open spec fn view(&self) -> Seq<char> {
        self.0@
    }
}

impl Clone for SecretsDirectory {
    fn clone(&self) -> (r: Self)
        ensures
            r == *self,
    {
        SecretsDirectory(self.0.clone())
    }
}

impl PartialEq for SecretsDirectory {
    fn eq(&self, other: &Self) -> (r: bool) {
        self.0 == other.0
    }
}

impl vstd::std_specs::cmp::PartialEqSpecImpl for SecretsDirectory {
    open spec fn obeys_eq_spec() -> bool {
        true
    }

    open spec fn eq_spec(&self, other: &Self) -> bool {
        self@ == other@
    }
}

impl Eq for SecretsDirectory {

}

/// Where a deployment takes its secrets from.
#[derive(Debug, PartialEq, Eq)]
pub enum SecretsInput {
    NoSecrets,
    SecretsDirectory(SecretsDirectory),
}

impl Clone for SecretsInput {
    fn clone(&self) -> (r: Self)
        ensures
            r == *self,
    {
        match self {
            SecretsInput::NoSecrets => SecretsInput::NoSecrets,
            SecretsInput::SecretsDirectory(value) => SecretsInput::SecretsDirectory(value.clone()),
        }
    }
}

/// Full commit identity of a source.
#[derive(Debug)]
pub struct ImmutableRevision(pub String);

impl ImmutableRevision {
    /// Wraps `payload`.
    pub fn new(payload: String) -> (r: Self)
        ensures
            r.0 == payload,
    {
        ImmutableRevision(payload)
    }

    /// The wrapped value.
    pub fn payload(&self) -> (r: &String)
        ensures
            *r == self.0,
    {
        &self.0
    }

    /// Unwraps the value.
    pub fn into_payload(self) -> (r: String)
        ensures
            r == self.0,
    {
        self.0
    }
}

impl From<String> for ImmutableRevision {
    fn from(payload: String) -> (r: Self) {
        ImmutableRevision(payload)
    }
}

impl vstd::std_specs::convert::FromSpecImpl<String> for ImmutableRevision {
    open spec fn obeys_from_spec() -> bool {
        true
    }

    open spec fn from_spec(payload: String) -> Self {
        ImmutableRevision(payload)
    }
}

impl View for ImmutableRevision {
    type V = Seq<char>;

    open spec fn view(&self) -> Seq<char> {
        self.0@
    }
}

impl Clone for ImmutableRevision {
    fn clone(&self) -> (r: Self)
        ensures
            r == *self,
    {
        ImmutableRevision(self.0.clone())
    }
}

impl PartialEq for ImmutableRevision {
    fn eq(&self, other: &Self) -> (r: bool) {
        self.0 == other.0
    }
}

impl vstd::std_specs::cmp::PartialEqSpecImpl for ImmutableRevision {
    open spec fn obeys_eq_spec() -> bool {
        true
    }

    open spec fn eq_spec(&self, other: &Self) -> bool {
        self@ == other@
    }
}

impl Eq for ImmutableRevision {

}

/// Identity of one deployment.
#[derive(Debug, PartialEq, Eq, Structural)]
pub struct DeploymentIdentifier(pub u64);

impl DeploymentIdentifier {
    /// Wraps `payload`.
    pub fn new(payload: u64) -> (r: Self)
        ensures
            r.0 == payload,
    {
        DeploymentIdentifier(payload)
    }

    /// The wrapped value.
    pub fn payload(&self) -> (r: &u64)
        ensures
            *r == self.0,
    {
        &self.0
    }

    /// Unwraps the value.
    pub fn into_payload(self) -> (r: u64)
        ensures
            r == self.0,
    {
        self.0
    }
}

impl From<u64> for DeploymentIdentifier {
    fn from(payload: u64) -> (r: Self) {
        DeploymentIdentifier(payload)
    }
}

impl vstd::std_specs::convert::FromSpecImpl<u64> for DeploymentIdentifier {
    open spec fn obeys_from_spec() -> bool {
        true
    }

    open spec fn from_spec(payload: u64) -> Self {
        DeploymentIdentifier(payload)
    }
}

impl Clone for DeploymentIdentifier {
    fn clone(&self) -> (r: Self)
        ensures
            r == *self,
    {
        DeploymentIdentifier(self.0)
    }
}

/// Identity of one generation.
#[derive(Debug, PartialEq, Eq, Structural)]
pub struct GenerationIdentifier(pub u64);

impl GenerationIdentifier {
    /// Wraps `payload`.
    pub fn new(payload: u64) -> (r: Self)
        ensures
            r.0 == payload,
    {
        GenerationIdentifier(payload)
    }

    /// The wrapped value.
    pub fn payload(&self) -> (r: &u64)
        ensures
            *r == self.0,
    {
        &self.0
    }

    /// Unwraps the value.
    pub fn into_payload(self) -> (r: u64)
        ensures
            r == self.0,
    {
        self.0
    }
}

impl From<u64> for GenerationIdentifier {
    fn from(payload: u64) -> (r: Self) {
        GenerationIdentifier(payload)
    }
}

impl vstd::std_specs::convert::FromSpecImpl<u64> for GenerationIdentifier {
    open spec fn obeys_from_spec() -> bool {
        true
    }

    open spec fn from_spec(payload: u64) -> Self {
        GenerationIdentifier(payload)
    }
}

impl Clone for GenerationIdentifier {
    fn clone(&self) -> (r: Self)
        ensures
            r == *self,
    {
        GenerationIdentifier(self.0)
    }
}

/// Identity of one test run.
#[derive(Debug, PartialEq, Eq, Structural)]
pub struct TestRunIdentifier(pub u64);

impl TestRunIdentifier {
    /// Wraps `payload`.
    pub fn new(payload: u64) -> (r: Self)
        ensures
            r.0 == payload,
    {
        TestRunIdentifier(payload)
    }

    /// The wrapped value.
    pub fn payload(&self) -> (r: &u64)
        ensures
            *r == self.0,
    {
        &self.0
    }

    /// Unwraps the value.
    pub fn into_payload(self) -> (r: u64)
        ensures
            r == self.0,
    {
        self.0
    }
}

impl From<u64> for TestRunIdentifier {
    fn from(payload: u64) -> (r: Self) {
        TestRunIdentifier(payload)
    }
}

impl vstd::std_specs::convert::FromSpecImpl<u64> for TestRunIdentifier {
    open spec fn obeys_from_spec() -> bool {
        true
    }

    open spec fn from_spec(payload: u64) -> Self {
        TestRunIdentifier(payload)
    }
}

impl Clone for TestRunIdentifier {
    fn clone(&self) -> (r: Self)
        ensures
            r == *self,
    {
        TestRunIdentifier(self.0)
    }
}

/// Handle of an open subscription.
#[derive(Debug, PartialEq, Eq, Structural)]
pub struct SubscriptionToken(pub u64);

impl SubscriptionToken {
    /// Wraps `payload`.
    pub fn new(payload: u64) -> (r: Self)
        ensures
            r.0 == payload,
    {
        SubscriptionToken(payload)
    }

    /// The wrapped value.
    pub fn payload(&self) -> (r: &u64)
        ensures
            *r == self.0,
    {
        &self.0
    }

    /// Unwraps the value.
    pub fn into_payload(self) -> (r: u64)
        ensures
            r == self.0,
    {
        self.0
    }
}

impl From<u64> for SubscriptionToken {
    fn from(payload: u64) -> (r: Self) {
        SubscriptionToken(payload)
    }
}

impl vstd::std_specs::convert::FromSpecImpl<u64> for SubscriptionToken {
    open spec fn obeys_from_spec() -> bool {
        true
    }

    open spec fn from_spec(payload: u64) -> Self {
        SubscriptionToken(payload)
    }
}

impl Clone for SubscriptionToken {
    fn clone(&self) -> (r: Self)
        ensures
            r == *self,
    {
        SubscriptionToken(self.0)
    }
}

/// Position in the event log.
#[derive(Debug, PartialEq, Eq, Structural)]
pub struct EventLogPosition(pub u64);

impl EventLogPosition {
    /// Wraps `payload`.
    pub fn new(payload: u64) -> (r: Self)
        ensures
            r.0 == payload,
    {
        EventLogPosition(payload)
    }

    /// The wrapped value.
    pub fn payload(&self) -> (r: &u64)
        ensures
            *r == self.0,
    {
        &self.0
    }

    /// Unwraps the value.
    pub fn into_payload(self) -> (r: u64)
        ensures
            r == self.0,
    {
        self.0
    }
}

impl From<u64> for EventLogPosition {
    fn from(payload: u64) -> (r: Self) {
        EventLogPosition(payload)
    }
}

impl vstd::std_specs::convert::FromSpecImpl<u64> for EventLogPosition {
    open spec fn obeys_from_spec() -> bool {
        true
    }

    open spec fn from_spec(payload: u64) -> Self {
        EventLogPosition(payload)
    }
}

impl Clone for EventLogPosition {
    fn clone(&self) -> (r: Self)
        ensures
            r == *self,
    {
        EventLogPosition(self.0)
    }
}

/// Ordinal of a durable commit.
#[derive(Debug, PartialEq, Eq, Structural)]
pub struct CommitSequence(pub u64);

impl CommitSequence {
    /// Wraps `payload`.
    pub fn new(payload: u64) -> (r: Self)
        ensures
            r.0 == payload,
    {
        CommitSequence(payload)
    }

    /// The wrapped value.
    pub fn payload(&self) -> (r: &u64)
        ensures
            *r == self.0,
    {
        &self.0
    }

    /// Unwraps the value.
    pub fn into_payload(self) -> (r: u64)
        ensures
            r == self.0,
    {
        self.0
    }
}

impl From<u64> for CommitSequence {
    fn from(payload: u64) -> (r: Self) {
        CommitSequence(payload)
    }
}

impl vstd::std_specs::convert::FromSpecImpl<u64> for CommitSequence {
    open spec fn obeys_from_spec() -> bool {
        true
    }

    open spec fn from_spec(payload: u64) -> Self {
        CommitSequence(payload)
    }
}

impl Clone for CommitSequence {
    fn clone(&self) -> (r: Self)
        ensures
            r == *self,
    {
        CommitSequence(self.0)
    }
}

/// Digest of the durable state at a commit.
#[derive(Debug, PartialEq, Eq, Structural)]
pub struct StateDigest(pub u64);

impl StateDigest {
    /// Wraps `payload`.
    pub fn new(payload: u64) -> (r: Self)
        ensures
            r.0 == payload,
    {
        StateDigest(payload)
    }

    /// The wrapped value.
    pub fn payload(&self) -> (r: &u64)
        ensures
            *r == self.0,
    {
        &self.0
    }

    /// Unwraps the value.
    pub fn into_payload(self) -> (r: u64)
        ensures
            r == self.0,
    {
        self.0
    }
}

impl From<u64> for StateDigest {
    fn from(payload: u64) -> (r: Self) {
        StateDigest(payload)
    }
}

impl vstd::std_specs::convert::FromSpecImpl<u64> for StateDigest {
    open spec fn obeys_from_spec() -> bool {
        true
    }

    open spec fn from_spec(payload: u64) -> Self {
        StateDigest(payload)
    }
}

impl Clone for StateDigest {
    fn clone(&self) -> (r: Self)
        ensures
            r == *self,
    {
        StateDigest(self.0)
    }
}

/// Which flake references a deployment accepts.
#[derive(Clone, Copy, Debug, PartialEq, Eq, Structural)]
pub enum SourceRevisionPolicy {
    RequireImmutable,
    ResolveAndRecord,
}

/// What a generation contains.
#[derive(Clone, Copy, Debug, PartialEq, Eq, Structural)]
pub enum GenerationArtifact {
    CompleteHost,
    BaseHost,
    UserEnvironment,
}

/// How an activation takes effect.
#[derive(Clone, Copy, Debug, PartialEq, Eq, Structural)]
pub enum ActivationEffect {
    LiveActivation,
    BootProfile,
    TestActivation,
    BootOnceProfile,
    ProfileOnly,
}

/// Role of a generation on its node.
#[derive(Clone, Copy, Debug, PartialEq, Eq, Structural)]
pub enum GenerationSlot {
    Current,
    BootPending,
    Rollback,
    Pinned,
    Recent,
}

/// Whether a test runs sandboxed or against a live host.
#[derive(Clone, Copy, Debug, PartialEq, Eq, Structural)]
pub enum TestMode {
    Hermetic,
    Live,
}

/// Progress of a test run.
#[derive(Clone, Copy, Debug, PartialEq, Eq, Structural)]
pub enum TestRunPhase {
    Submitted,
    BringingUp,
    Deploying,
    Asserting,
    TearingDown,
    Completed,
    Failed,
}

/// Step at which a test run failed.
#[derive(Clone, Copy, Debug, PartialEq, Eq, Structural)]
pub enum FailureStage {
    BringUp,
    Deploy,
    Assert,
    TearDown,
    HermeticCheck,
}

/// Verdict of a test run.
#[derive(Debug, PartialEq, Eq, Structural)]
pub enum TestOutcome {
    Pending,
    Passed,
    Failed(FailureStage),
}

impl Clone for TestOutcome {
    fn clone(&self) -> (r: Self)
        ensures
            r == *self,
    {
        match self {
            TestOutcome::Pending => TestOutcome::Pending,
            TestOutcome::Passed => TestOutcome::Passed,
            TestOutcome::Failed(value) => TestOutcome::Failed(*value),
        }
    }
}

/// Durable state a reply was read from.
#[derive(Debug, PartialEq, Eq, Structural)]
pub struct StateMarker {
    pub commit_sequence: CommitSequence,
    pub state_digest: StateDigest,
}

impl Clone for StateMarker {
    fn clone(&self) -> (r: Self)
        ensures
            r == *self,
    {
        StateMarker {
            commit_sequence: self.commit_sequence.clone(),
            state_digest: self.state_digest.clone(),
        }
    }
}

/// Marker of a database read.
#[derive(Debug, PartialEq, Eq, Structural)]
pub struct DatabaseMarker(pub StateMarker);

impl DatabaseMarker {
    /// Wraps `payload`.
    pub fn new(payload: StateMarker) -> (r: Self)
        ensures
            r.0 == payload,
    {
        DatabaseMarker(payload)
    }

    /// The wrapped value.
    pub fn payload(&self) -> (r: &StateMarker)
        ensures
            *r == self.0,
    {
        &self.0
    }

    /// Unwraps the value.
    pub fn into_payload(self) -> (r: StateMarker)
        ensures
            r == self.0,
    {
        self.0
    }
}

impl From<StateMarker> for DatabaseMarker {
    fn from(payload: StateMarker) -> (r: Self) {
        DatabaseMarker(payload)
    }
}

impl vstd::std_specs::convert::FromSpecImpl<StateMarker> for DatabaseMarker {
    open spec fn obeys_from_spec() -> bool {
        true
    }

    open spec fn from_spec(payload: StateMarker) -> Self {
        DatabaseMarker(payload)
    }
}

impl Clone for DatabaseMarker {
    fn clone(&self) -> (r: Self)
        ensures
            r == *self,
    {
        DatabaseMarker(self.0.clone())
    }
}

/// Marker of the commit that admitted a deployment.
#[derive(Debug, PartialEq, Eq, Structural)]
pub struct AdmissionMarker(pub StateMarker);

impl AdmissionMarker {
    /// Wraps `payload`.
    pub fn new(payload: StateMarker) -> (r: Self)
        ensures
            r.0 == payload,
    {
        AdmissionMarker(payload)
    }

    /// The wrapped value.
    pub fn payload(&self) -> (r: &StateMarker)
        ensures
            *r == self.0,
    {
        &self.0
    }

    /// Unwraps the value.
    pub fn into_payload(self) -> (r: StateMarker)
        ensures
            r == self.0,
    {
        self.0
    }
}

impl From<StateMarker> for AdmissionMarker {
    fn from(payload: StateMarker) -> (r: Self) {
        AdmissionMarker(payload)
    }
}

impl vstd::std_specs::convert::FromSpecImpl<StateMarker> for AdmissionMarker {
    open spec fn obeys_from_spec() -> bool {
        true
    }

    open spec fn from_spec(payload: StateMarker) -> Self {
        AdmissionMarker(payload)
    }
}

impl Clone for AdmissionMarker {
    fn clone(&self) -> (r: Self)
        ensures
            r == *self,
    {
        AdmissionMarker(self.0.clone())
    }
}

/// Marker of the commit that ended a deployment.
#[derive(Debug, PartialEq, Eq, Structural)]
pub struct TerminalMarker(pub StateMarker);

impl TerminalMarker {
    /// Wraps `payload`.
    pub fn new(payload: StateMarker) -> (r: Self)
        ensures
            r.0 == payload,
    {
        TerminalMarker(payload)
    }

    /// The wrapped value.
    pub fn payload(&self) -> (r: &StateMarker)
        ensures
            *r == self.0,
    {
        &self.0
    }

    /// Unwraps the value.
    pub fn into_payload(self) -> (r: StateMarker)
        ensures
            r == self.0,
    {
        self.0
    }
}

impl From<StateMarker> for TerminalMarker {
    fn from(payload: StateMarker) -> (r: Self) {
        TerminalMarker(payload)
    }
}

impl vstd::std_specs::convert::FromSpecImpl<StateMarker> for TerminalMarker {
    open spec fn obeys_from_spec() -> bool {
        true
    }

    open spec fn from_spec(payload: StateMarker) -> Self {
        TerminalMarker(payload)
    }
}

impl Clone for TerminalMarker {
    fn clone(&self) -> (r: Self)
        ensures
            r == *self,
    {
        TerminalMarker(self.0.clone())
    }
}

/// Marker of the commit of a phase transition.
#[derive(Debug, PartialEq, Eq, Structural)]
pub struct TransitionMarker(pub StateMarker);

impl TransitionMarker {
    /// Wraps `payload`.
    pub fn new(payload: StateMarker) -> (r: Self)
        ensures
            r.0 == payload,
    {
        TransitionMarker(payload)
    }

    /// The wrapped value.
    pub fn payload(&self) -> (r: &StateMarker)
        ensures
            *r == self.0,
    {
        &self.0
    }

    /// Unwraps the value.
    pub fn into_payload(self) -> (r: StateMarker)
        ensures
            r == self.0,
    {
        self.0
    }
}

impl From<StateMarker> for TransitionMarker {
    fn from(payload: StateMarker) -> (r: Self) {
        TransitionMarker(payload)
    }
}

impl vstd::std_specs::convert::FromSpecImpl<StateMarker> for TransitionMarker {
    open spec fn obeys_from_spec() -> bool {
        true
    }

    open spec fn from_spec(payload: StateMarker) -> Self {
        TransitionMarker(payload)
    }
}

impl Clone for TransitionMarker {
    fn clone(&self) -> (r: Self)
        ensures
            r == *self,
    {
        TransitionMarker(self.0.clone())
    }
}

/// Selects the generations of one node.
#[derive(Debug, PartialEq, Eq)]
pub struct NodeSelector {
    pub cluster_name: ClusterName,
    pub node_name: NodeName,
    pub optional_generation_artifact: Option<GenerationArtifact>,
}

impl Clone for NodeSelector {
    fn clone(&self) -> (r: Self)
        ensures
            r == *self,
    {
        NodeSelector {
            cluster_name: self.cluster_name.clone(),
            node_name: self.node_name.clone(),
            optional_generation_artifact: self.optional_generation_artifact.clone(),
        }
    }
}

/// Selects one generation.
#[derive(Debug, PartialEq, Eq, Structural)]
pub struct GenerationLookup(pub GenerationIdentifier);

impl GenerationLookup {
    /// Wraps `payload`.
    pub fn new(payload: GenerationIdentifier) -> (r: Self)
        ensures
            r.0 == payload,
    {
        GenerationLookup(payload)
    }

    /// The wrapped value.
    pub fn payload(&self) -> (r: &GenerationIdentifier)
        ensures
            *r == self.0,
    {
        &self.0
    }

    /// Unwraps the value.
    pub fn into_payload(self) -> (r: GenerationIdentifier)
        ensures
            r == self.0,
    {
        self.0
    }
}

impl From<GenerationIdentifier> for GenerationLookup {
    fn from(payload: GenerationIdentifier) -> (r: Self) {
        GenerationLookup(payload)
    }
}

impl vstd::std_specs::convert::FromSpecImpl<GenerationIdentifier> for GenerationLookup {
    open spec fn obeys_from_spec() -> bool {
        true
    }

    open spec fn from_spec(payload: GenerationIdentifier) -> Self {
        GenerationLookup(payload)
    }
}

impl Clone for GenerationLookup {
    fn clone(&self) -> (r: Self)
        ensures
            r == *self,
    {
        GenerationLookup(self.0.clone())
    }
}

/// Selects one deployment.
#[derive(Debug, PartialEq, Eq, Structural)]
pub struct DeploymentLookup(pub DeploymentIdentifier);

impl DeploymentLookup {
    /// Wraps `payload`.
    pub fn new(payload: DeploymentIdentifier) -> (r: Self)
        ensures
            r.0 == payload,
    {
        DeploymentLookup(payload)
    }

    /// The wrapped value.
    pub fn payload(&self) -> (r: &DeploymentIdentifier)
        ensures
            *r == self.0,
    {
        &self.0
    }

    /// Unwraps the value.
    pub fn into_payload(self) -> (r: DeploymentIdentifier)
        ensures
            r == self.0,
    {
        self.0
    }
}

impl From<DeploymentIdentifier> for DeploymentLookup {
    fn from(payload: DeploymentIdentifier) -> (r: Self) {
        DeploymentLookup(payload)
    }
}

impl vstd::std_specs::convert::FromSpecImpl<DeploymentIdentifier> for DeploymentLookup {
    open spec fn obeys_from_spec() -> bool {
        true
    }

    open spec fn from_spec(payload: DeploymentIdentifier) -> Self {
        DeploymentLookup(payload)
    }
}

impl Clone for DeploymentLookup {
    fn clone(&self) -> (r: Self)
        ensures
            r == *self,
    {
        DeploymentLookup(self.0.clone())
    }
}

/// Half-open range of event log positions.
#[derive(Debug, PartialEq, Eq, Structural)]
pub struct EventLogRange {
    pub from: EventLogPosition,
    pub until: EventLogPosition,
}

impl Clone for EventLogRange {
    fn clone(&self) -> (r: Self)
        ensures
            r == *self,
    {
        EventLogRange {
            from: self.from.clone(),
            until: self.until.clone(),
        }
    }
}

/// Selects the test runs of one node.
#[derive(Debug, PartialEq, Eq)]
pub struct TestRunLookup {
    pub cluster_name: ClusterName,
    pub node_name: NodeName,
    pub optional_test_run_identifier: Option<TestRunIdentifier>,
}

impl Clone for TestRunLookup {
    fn clone(&self) -> (r: Self)
        ensures
            r == *self,
    {
        TestRunLookup {
            cluster_name: self.cluster_name.clone(),
            node_name: self.node_name.clone(),
            optional_test_run_identifier: self.optional_test_run_identifier.clone(),
        }
    }
}

/// What a query reads.
#[derive(Debug, PartialEq, Eq)]
pub enum Selection {
    ByNode(NodeSelector),
    ByGeneration(GenerationLookup),
    ByDeployment(DeploymentLookup),
    ByEventLog(EventLogRange),
    ByTestRun(TestRunLookup),
}

impl Clone for Selection {
    fn clone(&self) -> (r: Self)
        ensures
            r == *self,
    {
        match self {
            Selection::ByNode(value) => Selection::ByNode(value.clone()),
            Selection::ByGeneration(value) => Selection::ByGeneration(value.clone()),
            Selection::ByDeployment(value) => Selection::ByDeployment(value.clone()),
            Selection::ByEventLog(value) => Selection::ByEventLog(value.clone()),
            Selection::ByTestRun(value) => Selection::ByTestRun(value.clone()),
        }
    }
}

/// Requested and resolved source of a deployment.
#[derive(Debug, PartialEq, Eq)]
pub struct SourceRevisionRecord {
    pub source_revision_policy: SourceRevisionPolicy,
    pub requested_ref: FlakeReference,
    pub resolved_ref: FlakeReference,
    pub string: String,
}

impl Clone for SourceRevisionRecord {
    fn clone(&self) -> (r: Self)
        ensures
            r == *self,
    {
        SourceRevisionRecord {
            source_revision_policy: self.source_revision_policy,
            requested_ref: self.requested_ref.clone(),
            resolved_ref: self.resolved_ref.clone(),
            string: self.string.clone(),
        }
    }
}

/// Public projection of a live generation.
#[derive(Debug, PartialEq, Eq)]
pub struct Generation {
    pub generation_identifier: GenerationIdentifier,
    pub deployment_identifier: DeploymentIdentifier,
    pub cluster_name: ClusterName,
    pub node_name: NodeName,
    pub generation_artifact: GenerationArtifact,
    pub activation_effect: ActivationEffect,
    pub generation_slot: GenerationSlot,
    pub closure_path: ClosurePath,
    pub optional_immutable_revision: Option<ImmutableRevision>,
}

impl Clone for Generation {
    fn clone(&self) -> (r: Self)
        ensures
            r == *self,
    {
        Generation {
            generation_identifier: self.generation_identifier.clone(),
            deployment_identifier: self.deployment_identifier.clone(),
            cluster_name: self.cluster_name.clone(),
            node_name: self.node_name.clone(),
            generation_artifact: self.generation_artifact,
            activation_effect: self.activation_effect,
            generation_slot: self.generation_slot,
            closure_path: self.closure_path.clone(),
            optional_immutable_revision: self.optional_immutable_revision.clone(),
        }
    }
}

/// Whether a deployment targets the host or one user.
#[derive(Debug, PartialEq, Eq)]
pub enum DeploymentEnvironment {
    HostEnvironment,
    UserEnvironment(UserName),
}

impl Clone for DeploymentEnvironment {
    fn clone(&self) -> (r: Self)
        ensures
            r == *self,
    {
        match self {
            DeploymentEnvironment::HostEnvironment => DeploymentEnvironment::HostEnvironment,
            DeploymentEnvironment::UserEnvironment(value) => DeploymentEnvironment::UserEnvironment(value.clone()),
        }
    }
}

/// The action a deployment asked for.
#[derive(Debug, PartialEq, Eq, Structural)]
pub enum RequestedDeploymentAction {
    Host(HostDeployAction),
    UserEnvironment(UserEnvironmentAction),
}

impl Clone for RequestedDeploymentAction {
    fn clone(&self) -> (r: Self)
        ensures
            r == *self,
    {
        match self {
            RequestedDeploymentAction::Host(value) => RequestedDeploymentAction::Host(*value),
            RequestedDeploymentAction::UserEnvironment(value) => RequestedDeploymentAction::UserEnvironment(*value),
        }
    }
}

/// Durable progress of a deployment.
#[derive(Clone, Copy, Debug, PartialEq, Eq, Structural)]
pub enum DeploymentLifecycle {
    Submitted,
    Building,
    Built,
    Copying,
    Activating,
    Activated,
    Completed,
    Rejected,
    Failed,
}

/// Step at which a deployment failed.
#[derive(Clone, Copy, Debug, PartialEq, Eq, Structural)]
pub enum DeploymentFailureStage {
    Admission,
    FlakeAuth,
    MaterializeHorizon,
    Eval,
    Build,
    CopyClosure,
    Activate,
    Daemon,
}

/// Public reason for which a deployment ended early.
#[derive(Clone, Copy, Debug, PartialEq, Eq, Structural)]
pub enum DeploymentTerminalReason {
    ClusterUnknown,
    NodeUnknown,
    ProposalSourceUnreachable,
    FlakeReferenceMalformed,
    InvalidDeploymentRouting,
    BuilderUnreachable,
    SubstituterUnreachable,
    DeploymentInFlight,
    UnsupportedDeployAction,
    InternalError,
    ActivationFailed,
}

/// Where and why a deployment failed.
#[derive(Debug, PartialEq, Eq, Structural)]
pub struct DeploymentFailure {
    pub deployment_failure_stage: DeploymentFailureStage,
    pub deployment_terminal_reason: DeploymentTerminalReason,
}

impl Clone for DeploymentFailure {
    fn clone(&self) -> (r: Self)
        ensures
            r == *self,
    {
        DeploymentFailure {
            deployment_failure_stage: self.deployment_failure_stage,
            deployment_terminal_reason: self.deployment_terminal_reason,
        }
    }
}

/// How a deployment ended.
#[derive(Debug, PartialEq, Eq, Structural)]
pub enum DeploymentTerminal {
    Succeeded,
    Rejected(DeploymentTerminalReason),
    Failed(DeploymentFailure),
}

impl Clone for DeploymentTerminal {
    fn clone(&self) -> (r: Self)
        ensures
            r == *self,
    {
        match self {
            DeploymentTerminal::Succeeded => DeploymentTerminal::Succeeded,
            DeploymentTerminal::Rejected(value) => DeploymentTerminal::Rejected(*value),
            DeploymentTerminal::Failed(value) => DeploymentTerminal::Failed(value.clone()),
        }
    }
}

/// Public identity of a deployment request.
#[derive(Debug, PartialEq, Eq)]
pub struct DeploymentRequestIdentity {
    pub deployment_environment: DeploymentEnvironment,
    pub cluster_name: ClusterName,
    pub node_name: NodeName,
    pub generation_artifact: GenerationArtifact,
    pub requested_deployment_action: RequestedDeploymentAction,
    pub activation_effect: ActivationEffect,
    pub source_revision_policy: SourceRevisionPolicy,
    pub optional_immutable_revision: Option<ImmutableRevision>,
}

impl Clone for DeploymentRequestIdentity {
    fn clone(&self) -> (r: Self)
        ensures
            r == *self,
    {
        DeploymentRequestIdentity {
            deployment_environment: self.deployment_environment.clone(),
            cluster_name: self.cluster_name.clone(),
            node_name: self.node_name.clone(),
            generation_artifact: self.generation_artifact,
            requested_deployment_action: self.requested_deployment_action.clone(),
            activation_effect: self.activation_effect,
            source_revision_policy: self.source_revision_policy,
            optional_immutable_revision: self.optional_immutable_revision.clone(),
        }
    }
}

/// Durable correlation record of a deployment.
#[derive(Debug, PartialEq, Eq)]
pub struct DeploymentRecord {
    pub deployment_identifier: DeploymentIdentifier,
    pub generation_identifier: GenerationIdentifier,
    pub deployment_request_identity: DeploymentRequestIdentity,
    pub optional_admission_marker: Option<AdmissionMarker>,
    pub deployment_lifecycle: DeploymentLifecycle,
    pub optional_terminal_marker: Option<TerminalMarker>,
    pub optional_deployment_terminal: Option<DeploymentTerminal>,
}

impl Clone for DeploymentRecord {
    fn clone(&self) -> (r: Self)
        ensures
            r == *self,
    {
        DeploymentRecord {
            deployment_identifier: self.deployment_identifier.clone(),
            generation_identifier: self.generation_identifier.clone(),
            deployment_request_identity: self.deployment_request_identity.clone(),
            optional_admission_marker: self.optional_admission_marker.clone(),
            deployment_lifecycle: self.deployment_lifecycle,
            optional_terminal_marker: self.optional_terminal_marker.clone(),
            optional_deployment_terminal: self.optional_deployment_terminal.clone(),
        }
    }
}

/// High-water marks of the identifiers handed out.
#[derive(Debug, PartialEq, Eq, Structural)]
pub struct IdentifierAllocation {
    pub next_deployment_identifier: u64,
    pub next_generation_identifier: u64,
    pub next_event_log_position: u64,
}

impl Clone for IdentifierAllocation {
    fn clone(&self) -> (r: Self)
        ensures
            r == *self,
    {
        IdentifierAllocation {
            next_deployment_identifier: self.next_deployment_identifier,
            next_generation_identifier: self.next_generation_identifier,
            next_event_log_position: self.next_event_log_position,
        }
    }
}

/// Reply to a generation query.
#[derive(Clone, Debug, PartialEq, Eq)]
pub struct GenerationListing {
    pub generation_vector: Vec<Generation>,
    pub deployment_record_vector: Vec<DeploymentRecord>,
    pub state_marker: StateMarker,
}

/// Asks for the key material of a host.
#[derive(Debug, PartialEq, Eq)]
pub struct KeyMaterialQuery {
    pub cluster_name: ClusterName,
    pub node_name: NodeName,
    pub proposal_source: ProposalSource,
}

impl Clone for KeyMaterialQuery {
    fn clone(&self) -> (r: Self)
        ensures
            r == *self,
    {
        KeyMaterialQuery {
            cluster_name: self.cluster_name.clone(),
            node_name: self.node_name.clone(),
            proposal_source: self.proposal_source.clone(),
        }
    }
}

/// Key material of a host.
#[derive(Clone, Debug, PartialEq, Eq)]
pub struct KeyMaterialReport {
    pub node_name: NodeName,
    pub string_vector: Vec<String>,
    pub state_marker: StateMarker,
}

/// Phase announced in the event log.
#[derive(Clone, Copy, Debug, PartialEq, Eq, Structural)]
pub enum DeploymentPhase {
    Submitted,
    Building,
    Built,
    Copying,
    Activating,
    Activated,
    Completed,
    Rejected,
    Failed,
}

/// One phase transition of a deployment.
#[derive(Debug, PartialEq, Eq)]
pub struct DeploymentPhaseEvent {
    pub deployment_identifier: DeploymentIdentifier,
    pub generation_identifier: GenerationIdentifier,
    pub cluster_name: ClusterName,
    pub node_name: NodeName,
    pub deployment_phase: DeploymentPhase,
    pub event_log_position: EventLogPosition,
    pub state_marker: StateMarker,
    pub optional_immutable_revision: Option<ImmutableRevision>,
    pub optional_deployment_terminal: Option<DeploymentTerminal>,
}

impl Clone for DeploymentPhaseEvent {
    fn clone(&self) -> (r: Self)
        ensures
            r == *self,
    {
        DeploymentPhaseEvent {
            deployment_identifier: self.deployment_identifier.clone(),
            generation_identifier: self.generation_identifier.clone(),
            cluster_name: self.cluster_name.clone(),
            node_name: self.node_name.clone(),
            deployment_phase: self.deployment_phase,
            event_log_position: self.event_log_position.clone(),
            state_marker: self.state_marker.clone(),
            optional_immutable_revision: self.optional_immutable_revision.clone(),
            optional_deployment_terminal: self.optional_deployment_terminal.clone(),
        }
    }
}

/// Delivery progress of an outbox row.
#[derive(Clone, Copy, Debug, PartialEq, Eq, Structural)]
pub enum OutboxDeliveryState {
    Pending,
    Dispatched,
    Acknowledged,
}

/// How often an outbox row was sent again.
#[derive(Debug, PartialEq, Eq, Structural)]
pub struct OutboxRetryCount(pub u64);

impl OutboxRetryCount {
    /// Wraps `payload`.
    pub fn new(payload: u64) -> (r: Self)
        ensures
            r.0 == payload,
    {
        OutboxRetryCount(payload)
    }

    /// The wrapped value.
    pub fn payload(&self) -> (r: &u64)
        ensures
            *r == self.0,
    {
        &self.0
    }

    /// Unwraps the value.
    pub fn into_payload(self) -> (r: u64)
        ensures
            r == self.0,
    {
        self.0
    }
}

impl From<u64> for OutboxRetryCount {
    fn from(payload: u64) -> (r: Self) {
        OutboxRetryCount(payload)
    }
}

impl vstd::std_specs::convert::FromSpecImpl<u64> for OutboxRetryCount {
    open spec fn obeys_from_spec() -> bool {
        true
    }

    open spec fn from_spec(payload: u64) -> Self {
        OutboxRetryCount(payload)
    }
}

impl Clone for OutboxRetryCount {
    fn clone(&self) -> (r: Self)
        ensures
            r == *self,
    {
        OutboxRetryCount(self.0)
    }
}

/// Order of a transition intent.
#[derive(Debug, PartialEq, Eq, Structural)]
pub struct TransitionOrdinal(pub u64);

impl TransitionOrdinal {
    /// Wraps `payload`.
    pub fn new(payload: u64) -> (r: Self)
        ensures
            r.0 == payload,
    {
        TransitionOrdinal(payload)
    }

    /// The wrapped value.
    pub fn payload(&self) -> (r: &u64)
        ensures
            *r == self.0,
    {
        &self.0
    }

    /// Unwraps the value.
    pub fn into_payload(self) -> (r: u64)
        ensures
            r == self.0,
    {
        self.0
    }
}

impl From<u64> for TransitionOrdinal {
    fn from(payload: u64) -> (r: Self) {
        TransitionOrdinal(payload)
    }
}

impl vstd::std_specs::convert::FromSpecImpl<u64> for TransitionOrdinal {
    open spec fn obeys_from_spec() -> bool {
        true
    }

    open spec fn from_spec(payload: u64) -> Self {
        TransitionOrdinal(payload)
    }
}

impl Clone for TransitionOrdinal {
    fn clone(&self) -> (r: Self)
        ensures
            r == *self,
    {
        TransitionOrdinal(self.0)
    }
}

/// A phase event on its way to the event log.
#[derive(Debug, PartialEq, Eq)]
pub struct DeploymentOutboxRecord {
    pub deployment_identifier: DeploymentIdentifier,
    pub transition_marker: TransitionMarker,
    pub deployment_phase_event: DeploymentPhaseEvent,
    pub outbox_delivery_state: OutboxDeliveryState,
    pub outbox_retry_count: OutboxRetryCount,
}

impl Clone for DeploymentOutboxRecord {
    fn clone(&self) -> (r: Self)
        ensures
            r == *self,
    {
        DeploymentOutboxRecord {
            deployment_identifier: self.deployment_identifier.clone(),
            transition_marker: self.transition_marker.clone(),
            deployment_phase_event: self.deployment_phase_event.clone(),
            outbox_delivery_state: self.outbox_delivery_state,
            outbox_retry_count: self.outbox_retry_count.clone(),
        }
    }
}

/// A phase transition that was committed and is to be announced.
#[derive(Debug, PartialEq, Eq)]
pub struct PendingTransitionIntent {
    pub deployment_identifier: DeploymentIdentifier,
    pub generation_identifier: GenerationIdentifier,
    pub cluster_name: ClusterName,
    pub node_name: NodeName,
    pub deployment_phase: DeploymentPhase,
    pub event_log_position: EventLogPosition,
    pub optional_immutable_revision: Option<ImmutableRevision>,
    pub optional_deployment_terminal: Option<DeploymentTerminal>,
    pub transition_ordinal: TransitionOrdinal,
    pub optional_transition_marker: Option<TransitionMarker>,
    pub transition_intent_state: TransitionIntentState,
}

impl Clone for PendingTransitionIntent {
    fn clone(&self) -> (r: Self)
        ensures
            r == *self,
    {
        PendingTransitionIntent {
            deployment_identifier: self.deployment_identifier.clone(),
            generation_identifier: self.generation_identifier.clone(),
            cluster_name: self.cluster_name.clone(),
            node_name: self.node_name.clone(),
            deployment_phase: self.deployment_phase,
            event_log_position: self.event_log_position.clone(),
            optional_immutable_revision: self.optional_immutable_revision.clone(),
            optional_deployment_terminal: self.optional_deployment_terminal.clone(),
            transition_ordinal: self.transition_ordinal.clone(),
            optional_transition_marker: self.optional_transition_marker.clone(),
            transition_intent_state: self.transition_intent_state,
        }
    }
}

/// Progress of a transition intent.
#[derive(Clone, Copy, Debug, PartialEq, Eq, Structural)]
pub enum TransitionIntentState {
    Pending,
    Bound,
    Appended,
    Acknowledged,
}

/// Change of a generation's retention.
#[derive(Clone, Copy, Debug, PartialEq, Eq, Structural)]
pub enum CacheRetentionTransition {
    Pinned,
    Unpinned,
    Promoted,
    Demoted,
    Retired,
    Evicted,
}

/// One retention change.
#[derive(Debug, PartialEq, Eq)]
pub struct CacheRetentionTransitionEvent {
    pub generation_identifier: GenerationIdentifier,
    pub cluster_name: ClusterName,
    pub node_name: NodeName,
    pub cache_retention_transition: CacheRetentionTransition,
    pub generation_slot: GenerationSlot,
    pub optional_generation_slot: Option<GenerationSlot>,
    pub optional_pin_label: Option<PinLabel>,
    pub event_log_position: EventLogPosition,
}

impl Clone for CacheRetentionTransitionEvent {
    fn clone(&self) -> (r: Self)
        ensures
            r == *self,
    {
        CacheRetentionTransitionEvent {
            generation_identifier: self.generation_identifier.clone(),
            cluster_name: self.cluster_name.clone(),
            node_name: self.node_name.clone(),
            cache_retention_transition: self.cache_retention_transition,
            generation_slot: self.generation_slot,
            optional_generation_slot: self.optional_generation_slot.clone(),
            optional_pin_label: self.optional_pin_label.clone(),
            event_log_position: self.event_log_position.clone(),
        }
    }
}

/// Public projection of a test run.
#[derive(Debug, PartialEq, Eq)]
pub struct TestRunRecord {
    pub test_run_identifier: TestRunIdentifier,
    pub cluster_name: ClusterName,
    pub node: NodeName,
    pub host: NodeName,
    pub test_mode: TestMode,
    pub test_run_phase: TestRunPhase,
    pub test_outcome: TestOutcome,
    pub optional_closure_path: Option<ClosurePath>,
}

impl Clone for TestRunRecord {
    fn clone(&self) -> (r: Self)
        ensures
            r == *self,
    {
        TestRunRecord {
            test_run_identifier: self.test_run_identifier.clone(),
            cluster_name: self.cluster_name.clone(),
            node: self.node.clone(),
            host: self.host.clone(),
            test_mode: self.test_mode,
            test_run_phase: self.test_run_phase,
            test_outcome: self.test_outcome.clone(),
            optional_closure_path: self.optional_closure_path.clone(),
        }
    }
}

/// Reply to a test-run query.
#[derive(Clone, Debug, PartialEq, Eq)]
pub struct TestRunListing {
    pub test_run_record_vector: Vec<TestRunRecord>,
    pub database_marker: DatabaseMarker,
}

/// Filters a deployment subscription.
#[derive(Debug, PartialEq, Eq)]
pub struct DeploymentWatch {
    pub optional_deployment_identifier: Option<DeploymentIdentifier>,
    pub optional_cluster_name: Option<ClusterName>,
    pub optional_node_name: Option<NodeName>,
}

impl Clone for DeploymentWatch {
    fn clone(&self) -> (r: Self)
        ensures
            r == *self,
    {
        DeploymentWatch {
            optional_deployment_identifier: self.optional_deployment_identifier.clone(),
            optional_cluster_name: self.optional_cluster_name.clone(),
            optional_node_name: self.optional_node_name.clone(),
        }
    }
}

/// Filters a retention subscription.
#[derive(Debug, PartialEq, Eq)]
pub struct CacheRetentionWatch {
    pub optional_cluster_name: Option<ClusterName>,
    pub optional_node_name: Option<NodeName>,
}

impl Clone for CacheRetentionWatch {
    fn clone(&self) -> (r: Self)
        ensures
            r == *self,
    {
        CacheRetentionWatch {
            optional_cluster_name: self.optional_cluster_name.clone(),
            optional_node_name: self.optional_node_name.clone(),
        }
    }
}

/// Closes a subscription.
#[derive(Debug, PartialEq, Eq, Structural)]
pub struct SubscriptionClose(pub SubscriptionToken);

impl SubscriptionClose {
    /// Wraps `payload`.
    pub fn new(payload: SubscriptionToken) -> (r: Self)
        ensures
            r.0 == payload,
    {
        SubscriptionClose(payload)
    }

    /// The wrapped value.
    pub fn payload(&self) -> (r: &SubscriptionToken)
        ensures
            *r == self.0,
    {
        &self.0
    }

    /// Unwraps the value.
    pub fn into_payload(self) -> (r: SubscriptionToken)
        ensures
            r == self.0,
    {
        self.0
    }
}

impl From<SubscriptionToken> for SubscriptionClose {
    fn from(payload: SubscriptionToken) -> (r: Self) {
        SubscriptionClose(payload)
    }
}

impl vstd::std_specs::convert::FromSpecImpl<SubscriptionToken> for SubscriptionClose {
    open spec fn obeys_from_spec() -> bool {
        true
    }

    open spec fn from_spec(payload: SubscriptionToken) -> Self {
        SubscriptionClose(payload)
    }
}

impl Clone for SubscriptionClose {
    fn clone(&self) -> (r: Self)
        ensures
            r == *self,
    {
        SubscriptionClose(self.0.clone())
    }
}

/// A subscription was opened.
#[derive(Debug, PartialEq, Eq, Structural)]
pub struct SubscriptionOpened {
    pub subscription_token: SubscriptionToken,
    pub commit_sequence: CommitSequence,
}

impl Clone for SubscriptionOpened {
    fn clone(&self) -> (r: Self)
        ensures
            r == *self,
    {
        SubscriptionOpened {
            subscription_token: self.subscription_token.clone(),
            commit_sequence: self.commit_sequence.clone(),
        }
    }
}

/// A subscription was closed.
#[derive(Debug, PartialEq, Eq, Structural)]
pub struct SubscriptionClosed(pub SubscriptionToken);

impl SubscriptionClosed {
    /// Wraps `payload`.
    pub fn new(payload: SubscriptionToken) -> (r: Self)
        ensures
            r.0 == payload,
    {
        SubscriptionClosed(payload)
    }

    /// The wrapped value.
    pub fn payload(&self) -> (r: &SubscriptionToken)
        ensures
            *r == self.0,
    {
        &self.0
    }

    /// Unwraps the value.
    pub fn into_payload(self) -> (r: SubscriptionToken)
        ensures
            r == self.0,
    {
        self.0
    }
}

impl From<SubscriptionToken> for SubscriptionClosed {
    fn from(payload: SubscriptionToken) -> (r: Self) {
        SubscriptionClosed(payload)
    }
}

impl vstd::std_specs::convert::FromSpecImpl<SubscriptionToken> for SubscriptionClosed {
    open spec fn obeys_from_spec() -> bool {
        true
    }

    open spec fn from_spec(payload: SubscriptionToken) -> Self {
        SubscriptionClosed(payload)
    }
}

impl Clone for SubscriptionClosed {
    fn clone(&self) -> (r: Self)
        ensures
            r == *self,
    {
        SubscriptionClosed(self.0.clone())
    }
}

/// What to do with a host closure.
#[derive(Clone, Copy, Debug, PartialEq, Eq, Structural)]
pub enum HostDeployAction {
    Evaluate,
    Realize,
    SetBootProfile,
    ActivateNow,
    TestActivation,
    ScheduleBootOnce,
}

/// What a host closure includes.
#[derive(Clone, Copy, Debug, PartialEq, Eq, Structural)]
pub enum HostComposition {
    CompleteHost,
    BaseHost,
}

/// What to do with a user environment closure.
#[derive(Clone, Copy, Debug, PartialEq, Eq, Structural)]
pub enum UserEnvironmentAction {
    Realize,
    SetProfile,
    ActivateNow,
}

/// Which host a test runs on.
#[derive(Debug, PartialEq, Eq)]
pub enum HostSelection {
    DefaultHost,
    OnHost(NodeName),
}

impl Clone for HostSelection {
    fn clone(&self) -> (r: Self)
        ensures
            r == *self,
    {
        match self {
            HostSelection::DefaultHost => HostSelection::DefaultHost,
            HostSelection::OnHost(value) => HostSelection::OnHost(value.clone()),
        }
    }
}

/// Which nodes a test covers.
#[derive(Clone, Debug, PartialEq, Eq)]
pub enum NodeSelection {
    Nodes(Vec<NodeName>),
    All,
}

/// A fully specified test request.
#[derive(Clone, Debug, PartialEq, Eq)]
pub struct TestRun {
    pub cluster_name: ClusterName,
    pub node_selection: NodeSelection,
    pub host_selection: HostSelection,
    pub test_execution_profile: TestExecutionProfile,
}

/// A test request that takes everything but the nodes from the defaults.
#[derive(Clone, Debug, PartialEq, Eq)]
pub struct QuickCheck(pub Vec<NodeName>);

impl QuickCheck {
    /// Wraps `payload`.
    pub fn new(payload: Vec<NodeName>) -> (r: Self)
        ensures
            r.0 == payload,
    {
        QuickCheck(payload)
    }

    /// The wrapped value.
    pub fn payload(&self) -> (r: &Vec<NodeName>)
        ensures
            *r == self.0,
    {
        &self.0
    }

    /// Unwraps the value.
    pub fn into_payload(self) -> (r: Vec<NodeName>)
        ensures
            r == self.0,
    {
        self.0
    }
}

impl From<Vec<NodeName>> for QuickCheck {
    fn from(payload: Vec<NodeName>) -> (r: Self) {
        QuickCheck(payload)
    }
}

impl vstd::std_specs::convert::FromSpecImpl<Vec<NodeName>> for QuickCheck {
    open spec fn obeys_from_spec() -> bool {
        true
    }

    open spec fn from_spec(payload: Vec<NodeName>) -> Self {
        QuickCheck(payload)
    }
}

/// A test request.
#[derive(Clone, Debug, PartialEq, Eq)]
pub enum TestRequest {
    Run(TestRun),
    Check(QuickCheck),
}

/// A binary cache to build with.
#[derive(Debug, PartialEq, Eq)]
pub struct ExtraSubstituter {
    pub url: String,
    pub public_key: String,
}

impl Clone for ExtraSubstituter {
    fn clone(&self) -> (r: Self)
        ensures
            r == *self,
    {
        ExtraSubstituter {
            url: self.url.clone(),
            public_key: self.public_key.clone(),
        }
    }
}

/// A request to deploy a host.
#[derive(Debug, PartialEq, Eq)]
pub struct HostDeployment {
    pub cluster_name: ClusterName,
    pub node_name: NodeName,
    pub host_composition: HostComposition,
    pub proposal_source: ProposalSource,
    pub secrets_input: SecretsInput,
    pub flake_reference: FlakeReference,
    pub deployment_transport: DeploymentTransport,
    pub deployment_input_mode: DeploymentInputMode,
    pub deployment_output_selector: DeploymentOutputSelector,
    pub activation_backend: ActivationBackend,
    pub host_deploy_action: HostDeployAction,
    pub source_revision_policy: SourceRevisionPolicy,
    pub optional_nix_builder_spec: Option<NixBuilderSpec>,
    pub extra_substituter_vector: Vec<ExtraSubstituter>,
}

/// The contents of a [`HostDeployment`].
pub struct HostDeploymentView {
    pub cluster_name: ClusterName,
    pub node_name: NodeName,
    pub host_composition: HostComposition,
    pub proposal_source: ProposalSource,
    pub secrets_input: SecretsInput,
    pub flake_reference: FlakeReference,
    pub deployment_transport: DeploymentTransport,
    pub deployment_input_mode: DeploymentInputMode,
    pub deployment_output_selector: DeploymentOutputSelector,
    pub activation_backend: ActivationBackend,
    pub host_deploy_action: HostDeployAction,
    pub source_revision_policy: SourceRevisionPolicy,
    pub optional_nix_builder_spec: Option<NixBuilderSpec>,
    pub extra_substituter_vector: Seq<ExtraSubstituter>,
}

impl View for HostDeployment {
    type V = HostDeploymentView;

    open spec fn view(&self) -> HostDeploymentView {
        HostDeploymentView {
            cluster_name: self.cluster_name,
            node_name: self.node_name,
            host_composition: self.host_composition,
            proposal_source: self.proposal_source,
            secrets_input: self.secrets_input,
            flake_reference: self.flake_reference,
            deployment_transport: self.deployment_transport,
            deployment_input_mode: self.deployment_input_mode,
            deployment_output_selector: self.deployment_output_selector,
            activation_backend: self.activation_backend,
            host_deploy_action: self.host_deploy_action,
            source_revision_policy: self.source_revision_policy,
            optional_nix_builder_spec: self.optional_nix_builder_spec,
            extra_substituter_vector: self.extra_substituter_vector@,
        }
    }
}

impl Clone for HostDeployment {
    fn clone(&self) -> (r: Self)
        ensures
            r@ == self@,
    {
        HostDeployment {
            cluster_name: self.cluster_name.clone(),
            node_name: self.node_name.clone(),
            host_composition: self.host_composition,
            proposal_source: self.proposal_source.clone(),
            secrets_input: self.secrets_input.clone(),
            flake_reference: self.flake_reference.clone(),
            deployment_transport: self.deployment_transport.clone(),
            deployment_input_mode: self.deployment_input_mode,
            deployment_output_selector: self.deployment_output_selector.clone(),
            activation_backend: self.activation_backend,
            host_deploy_action: self.host_deploy_action,
            source_revision_policy: self.source_revision_policy,
            optional_nix_builder_spec: self.optional_nix_builder_spec.clone(),
            extra_substituter_vector: self.extra_substituter_vector.clone(),
        }
    }
}

/// A request to deploy a user environment.
#[derive(Debug, PartialEq, Eq)]
pub struct UserEnvironmentDeployment {
    pub cluster_name: ClusterName,
    pub node_name: NodeName,
    pub user_name: UserName,
    pub proposal_source: ProposalSource,
    pub secrets_input: SecretsInput,
    pub flake_reference: FlakeReference,
    pub deployment_transport: DeploymentTransport,
    pub deployment_input_mode: DeploymentInputMode,
    pub deployment_output_selector: DeploymentOutputSelector,
    pub activation_backend: ActivationBackend,
    pub user_environment_action: UserEnvironmentAction,
    pub source_revision_policy: SourceRevisionPolicy,
    pub optional_nix_builder_spec: Option<NixBuilderSpec>,
    pub extra_substituter_vector: Vec<ExtraSubstituter>,
}

/// The contents of a [`UserEnvironmentDeployment`].
pub struct UserEnvironmentDeploymentView {
    pub cluster_name: ClusterName,
    pub node_name: NodeName,
    pub user_name: UserName,
    pub proposal_source: ProposalSource,
    pub secrets_input: SecretsInput,
    pub flake_reference: FlakeReference,
    pub deployment_transport: DeploymentTransport,
    pub deployment_input_mode: DeploymentInputMode,
    pub deployment_output_selector: DeploymentOutputSelector,
    pub activation_backend: ActivationBackend,
    pub user_environment_action: UserEnvironmentAction,
    pub source_revision_policy: SourceRevisionPolicy,
    pub optional_nix_builder_spec: Option<NixBuilderSpec>,
    pub extra_substituter_vector: Seq<ExtraSubstituter>,
}

impl View for UserEnvironmentDeployment {
    type V = UserEnvironmentDeploymentView;

    open spec fn view(&self) -> UserEnvironmentDeploymentView {
        UserEnvironmentDeploymentView {
            cluster_name: self.cluster_name,
            node_name: self.node_name,
            user_name: self.user_name,
            proposal_source: self.proposal_source,
            secrets_input: self.secrets_input,
            flake_reference: self.flake_reference,
            deployment_transport: self.deployment_transport,
            deployment_input_mode: self.deployment_input_mode,
            deployment_output_selector: self.deployment_output_selector,
            activation_backend: self.activation_backend,
            user_environment_action: self.user_environment_action,
            source_revision_policy: self.source_revision_policy,
            optional_nix_builder_spec: self.optional_nix_builder_spec,
            extra_substituter_vector: self.extra_substituter_vector@,
        }
    }
}

impl Clone for UserEnvironmentDeployment {
    fn clone(&self) -> (r: Self)
        ensures
            r@ == self@,
    {
        UserEnvironmentDeployment {
            cluster_name: self.cluster_name.clone(),
            node_name: self.node_name.clone(),
            user_name: self.user_name.clone(),
            proposal_source: self.proposal_source.clone(),
            secrets_input: self.secrets_input.clone(),
            flake_reference: self.flake_reference.clone(),
            deployment_transport: self.deployment_transport.clone(),
            deployment_input_mode: self.deployment_input_mode,
            deployment_output_selector: self.deployment_output_selector.clone(),
            activation_backend: self.activation_backend,
            user_environment_action: self.user_environment_action,
            source_revision_policy: self.source_revision_policy,
            optional_nix_builder_spec: self.optional_nix_builder_spec.clone(),
            extra_substituter_vector: self.extra_substituter_vector.clone(),
        }
    }
}

/// Asks to pin a generation.
#[derive(Debug, PartialEq, Eq)]
pub struct PinRequest {
    pub cluster_name: ClusterName,
    pub node_name: NodeName,
    pub generation_identifier: GenerationIdentifier,
    pub pin_label: PinLabel,
}

impl Clone for PinRequest {
    fn clone(&self) -> (r: Self)
        ensures
            r == *self,
    {
        PinRequest {
            cluster_name: self.cluster_name.clone(),
            node_name: self.node_name.clone(),
            generation_identifier: self.generation_identifier.clone(),
            pin_label: self.pin_label.clone(),
        }
    }
}

/// Asks to release a pin.
#[derive(Debug, PartialEq, Eq)]
pub struct UnpinRequest {
    pub cluster_name: ClusterName,
    pub node_name: NodeName,
    pub pin_label: PinLabel,
}

impl Clone for UnpinRequest {
    fn clone(&self) -> (r: Self)
        ensures
            r == *self,
    {
        UnpinRequest {
            cluster_name: self.cluster_name.clone(),
            node_name: self.node_name.clone(),
            pin_label: self.pin_label.clone(),
        }
    }
}

/// Asks to retire a generation.
#[derive(Debug, PartialEq, Eq)]
pub struct RetireRequest {
    pub cluster_name: ClusterName,
    pub node_name: NodeName,
    pub generation_identifier: GenerationIdentifier,
}

impl Clone for RetireRequest {
    fn clone(&self) -> (r: Self)
        ensures
            r == *self,
    {
        RetireRequest {
            cluster_name: self.cluster_name.clone(),
            node_name: self.node_name.clone(),
            generation_identifier: self.generation_identifier.clone(),
        }
    }
}

/// Admission handle of a deployment.
#[derive(Debug, PartialEq, Eq, Structural)]
pub struct DeployHandle {
    pub deployment_identifier: DeploymentIdentifier,
    pub state_marker: StateMarker,
}

impl Clone for DeployHandle {
    fn clone(&self) -> (r: Self)
        ensures
            r == *self,
    {
        DeployHandle {
            deployment_identifier: self.deployment_identifier.clone(),
            state_marker: self.state_marker.clone(),
        }
    }
}

/// Admission handle of a test run.
#[derive(Debug, PartialEq, Eq, Structural)]
pub struct AcceptedTest {
    pub test_run_identifier: TestRunIdentifier,
    pub state_marker: StateMarker,
}

impl Clone for AcceptedTest {
    fn clone(&self) -> (r: Self)
        ensures
            r == *self,
    {
        AcceptedTest {
            test_run_identifier: self.test_run_identifier.clone(),
            state_marker: self.state_marker.clone(),
        }
    }
}

/// A generation was pinned.
#[derive(Debug, PartialEq, Eq)]
pub struct AppliedPin {
    pub generation_identifier: GenerationIdentifier,
    pub pin_label: PinLabel,
    pub from_slot: GenerationSlot,
    pub to_slot: GenerationSlot,
    pub state_marker: StateMarker,
}

impl Clone for AppliedPin {
    fn clone(&self) -> (r: Self)
        ensures
            r == *self,
    {
        AppliedPin {
            generation_identifier: self.generation_identifier.clone(),
            pin_label: self.pin_label.clone(),
            from_slot: self.from_slot,
            to_slot: self.to_slot,
            state_marker: self.state_marker.clone(),
        }
    }
}

/// A generation was unpinned.
#[derive(Debug, PartialEq, Eq)]
pub struct AppliedUnpin {
    pub generation_identifier: GenerationIdentifier,
    pub pin_label: PinLabel,
    pub from_slot: GenerationSlot,
    pub to_slot: GenerationSlot,
    pub state_marker: StateMarker,
}

impl Clone for AppliedUnpin {
    fn clone(&self) -> (r: Self)
        ensures
            r == *self,
    {
        AppliedUnpin {
            generation_identifier: self.generation_identifier.clone(),
            pin_label: self.pin_label.clone(),
            from_slot: self.from_slot,
            to_slot: self.to_slot,
            state_marker: self.state_marker.clone(),
        }
    }
}

/// A generation was retired.
#[derive(Debug, PartialEq, Eq, Structural)]
pub struct AppliedRetire {
    pub generation_identifier: GenerationIdentifier,
    pub generation_slot: GenerationSlot,
    pub state_marker: StateMarker,
}

impl Clone for AppliedRetire {
    fn clone(&self) -> (r: Self)
        ensures
            r == *self,
    {
        AppliedRetire {
            generation_identifier: self.generation_identifier.clone(),
            generation_slot: self.generation_slot,
            state_marker: self.state_marker.clone(),
        }
    }
}

/// A read of the durable state.
#[derive(Debug, PartialEq, Eq)]
pub enum SemaReadInput {
    QueryGenerations(Selection),
    ReadEventLog(EventLogRange),
    CheckKeyMaterial(KeyMaterialQuery),
    QueryTestRuns(TestRunLookup),
}

impl Clone for SemaReadInput {
    fn clone(&self) -> (r: Self)
        ensures
            r == *self,
    {
        match self {
            SemaReadInput::QueryGenerations(value) => SemaReadInput::QueryGenerations(value.clone()),
            SemaReadInput::ReadEventLog(value) => SemaReadInput::ReadEventLog(value.clone()),
            SemaReadInput::CheckKeyMaterial(value) => SemaReadInput::CheckKeyMaterial(value.clone()),
            SemaReadInput::QueryTestRuns(value) => SemaReadInput::QueryTestRuns(value.clone()),
        }
    }
}

/// What a read returned.
#[derive(Clone, Debug, PartialEq, Eq)]
pub enum SemaReadOutput {
    GenerationsQueried(GenerationListing),
    EventLogRead(EventLogPage),
    KeyMaterialChecked(KeyMaterialReport),
    TestRunsQueried(TestRunListing),
    ReadMissed(RejectionReport),
}

/// The public events of a log range.
#[derive(Clone, Debug, PartialEq, Eq)]
pub struct EventLogPage {
    pub deployment_phase_event_vector: Vec<DeploymentPhaseEvent>,
    pub cache_retention_transition_event_vector: Vec<CacheRetentionTransitionEvent>,
    pub state_marker: StateMarker,
}

/// A write to the durable state.
#[derive(Clone, Debug, PartialEq, Eq)]
pub enum SemaWriteInput {
    RecordDeploySubmitted(DeploySubmission),
    RecordPhaseTransition(DeploymentPhaseEvent),
    RecordGenerationActivated(ActivationCommit),
    PinGeneration(PinRequest),
    UnpinGeneration(UnpinRequest),
    RetireGeneration(RetireRequest),
    RecordContainerTransition(ContainerTransition),
    RecordTestRun(TestRunRecord),
}

/// A deployment request of either environment.
#[derive(Debug, PartialEq, Eq)]
pub enum DeploySubmission {
    Host(HostDeployment),
    UserEnvironment(UserEnvironmentDeployment),
}

/// The contents of a [`DeploySubmission`].
pub enum DeploySubmissionView {
    Host(HostDeploymentView),
    UserEnvironment(UserEnvironmentDeploymentView),
}

impl View for DeploySubmission {
    type V = DeploySubmissionView;

    open spec fn view(&self) -> DeploySubmissionView {
        match self {
            DeploySubmission::Host(value) => DeploySubmissionView::Host(value@),
            DeploySubmission::UserEnvironment(value) => DeploySubmissionView::UserEnvironment(value@),
        }
    }
}

impl Clone for DeploySubmission {
    fn clone(&self) -> (r: Self)
        ensures
            r@ == self@,
    {
        match self {
            DeploySubmission::Host(value) => DeploySubmission::Host(value.clone()),
            DeploySubmission::UserEnvironment(value) => DeploySubmission::UserEnvironment(value.clone()),
        }
    }
}

/// The facts committed when an activation succeeded.
#[derive(Debug, PartialEq, Eq)]
pub struct ActivationCommit {
    pub generation_identifier: GenerationIdentifier,
    pub cluster_name: ClusterName,
    pub node_name: NodeName,
    pub deployment_environment: DeploymentEnvironment,
    pub generation_slot: GenerationSlot,
    pub closure_path: ClosurePath,
    pub source_revision_record: SourceRevisionRecord,
}

impl Clone for ActivationCommit {
    fn clone(&self) -> (r: Self)
        ensures
            r == *self,
    {
        ActivationCommit {
            generation_identifier: self.generation_identifier.clone(),
            cluster_name: self.cluster_name.clone(),
            node_name: self.node_name.clone(),
            deployment_environment: self.deployment_environment.clone(),
            generation_slot: self.generation_slot,
            closure_path: self.closure_path.clone(),
            source_revision_record: self.source_revision_record.clone(),
        }
    }
}

/// A container changed state.
#[derive(Debug, PartialEq, Eq)]
pub struct ContainerTransition {
    pub cluster_name: ClusterName,
    pub node_name: NodeName,
    pub container_name: ContainerName,
    pub container_state: ContainerState,
}

impl Clone for ContainerTransition {
    fn clone(&self) -> (r: Self)
        ensures
            r == *self,
    {
        ContainerTransition {
            cluster_name: self.cluster_name.clone(),
            node_name: self.node_name.clone(),
            container_name: self.container_name.clone(),
            container_state: self.container_state,
        }
    }
}

/// Name of a test container.
#[derive(Debug)]
pub struct ContainerName(pub String);

impl ContainerName {
    /// Wraps `payload`.
    pub fn new(payload: String) -> (r: Self)
        ensures
            r.0 == payload,
    {
        ContainerName(payload)
    }

    /// The wrapped value.
    pub fn payload(&self) -> (r: &String)
        ensures
            *r == self.0,
    {
        &self.0
    }

    /// Unwraps the value.
    pub fn into_payload(self) -> (r: String)
        ensures
            r == self.0,
    {
        self.0
    }
}

impl From<String> for ContainerName {
    fn from(payload: String) -> (r: Self) {
        ContainerName(payload)
    }
}

impl vstd::std_specs::convert::FromSpecImpl<String> for ContainerName {
    open spec fn obeys_from_spec() -> bool {
        true
    }

    open spec fn from_spec(payload: String) -> Self {
        ContainerName(payload)
    }
}

impl View for ContainerName {
    type V = Seq<char>;

    open spec fn view(&self) -> Seq<char> {
        self.0@
    }
}

impl Clone for ContainerName {
    fn clone(&self) -> (r: Self)
        ensures
            r == *self,
    {
        ContainerName(self.0.clone())
    }
}

impl PartialEq for ContainerName {
    fn eq(&self, other: &Self) -> (r: bool) {
        self.0 == other.0
    }
}

impl vstd::std_specs::cmp::PartialEqSpecImpl for ContainerName {
    open spec fn obeys_eq_spec() -> bool {
        true
    }

    open spec fn eq_spec(&self, other: &Self) -> bool {
        self@ == other@
    }
}

impl Eq for ContainerName {

}

/// State of a test container.
#[derive(Clone, Copy, Debug, PartialEq, Eq, Structural)]
pub enum ContainerState {
    Starting,
    Started,
    Stopping,
    Stopped,
    Failed,
}

/// What a write returned.
#[derive(Debug, PartialEq, Eq)]
pub enum SemaWriteOutput {
    DeploySubmitted(DeployHandle),
    PhaseRecorded(PhaseReceipt),
    GenerationActivated(AppliedActivation),
    GenerationPinned(AppliedPin),
    GenerationUnpinned(AppliedUnpin),
    GenerationRetired(AppliedRetire),
    ContainerRecorded(ContainerReceipt),
    TestRunRecorded(AcceptedTest),
    WriteRejected(RejectionReport),
}

impl Clone for SemaWriteOutput {
    fn clone(&self) -> (r: Self)
        ensures
            r == *self,
    {
        match self {
            SemaWriteOutput::DeploySubmitted(value) => SemaWriteOutput::DeploySubmitted(value.clone()),
            SemaWriteOutput::PhaseRecorded(value) => SemaWriteOutput::PhaseRecorded(value.clone()),
            SemaWriteOutput::GenerationActivated(value) => SemaWriteOutput::GenerationActivated(value.clone()),
            SemaWriteOutput::GenerationPinned(value) => SemaWriteOutput::GenerationPinned(value.clone()),
            SemaWriteOutput::GenerationUnpinned(value) => SemaWriteOutput::GenerationUnpinned(value.clone()),
            SemaWriteOutput::GenerationRetired(value) => SemaWriteOutput::GenerationRetired(value.clone()),
            SemaWriteOutput::ContainerRecorded(value) => SemaWriteOutput::ContainerRecorded(value.clone()),
            SemaWriteOutput::TestRunRecorded(value) => SemaWriteOutput::TestRunRecorded(value.clone()),
            SemaWriteOutput::WriteRejected(value) => SemaWriteOutput::WriteRejected(value.clone()),
        }
    }
}

/// Receipt of a recorded phase.
#[derive(Debug, PartialEq, Eq, Structural)]
pub struct PhaseReceipt {
    pub event_log_position: EventLogPosition,
    pub state_marker: StateMarker,
}

impl Clone for PhaseReceipt {
    fn clone(&self) -> (r: Self)
        ensures
            r == *self,
    {
        PhaseReceipt {
            event_log_position: self.event_log_position.clone(),
            state_marker: self.state_marker.clone(),
        }
    }
}

/// An activation was committed.
#[derive(Debug, PartialEq, Eq, Structural)]
pub struct AppliedActivation {
    pub generation_identifier: GenerationIdentifier,
    pub generation_slot: GenerationSlot,
    pub state_marker: StateMarker,
}

impl Clone for AppliedActivation {
    fn clone(&self) -> (r: Self)
        ensures
            r == *self,
    {
        AppliedActivation {
            generation_identifier: self.generation_identifier.clone(),
            generation_slot: self.generation_slot,
            state_marker: self.state_marker.clone(),
        }
    }
}

/// Receipt of a container transition.
#[derive(Debug, PartialEq, Eq, Structural)]
pub struct ContainerReceipt {
    pub event_log_position: EventLogPosition,
    pub state_marker: StateMarker,
}

impl Clone for ContainerReceipt {
    fn clone(&self) -> (r: Self)
        ensures
            r == *self,
    {
        ContainerReceipt {
            event_log_position: self.event_log_position.clone(),
            state_marker: self.state_marker.clone(),
        }
    }
}

/// A read or write was refused.
#[derive(Debug, PartialEq, Eq, Structural)]
pub struct RejectionReport {
    pub rejection_reason: RejectionReason,
    pub state_marker: StateMarker,
}

impl Clone for RejectionReport {
    fn clone(&self) -> (r: Self)
        ensures
            r == *self,
    {
        RejectionReport {
            rejection_reason: self.rejection_reason,
            state_marker: self.state_marker.clone(),
        }
    }
}

/// Why a read or write was refused.
#[derive(Clone, Copy, Debug, PartialEq, Eq, Structural)]
pub enum RejectionReason {
    GenerationUnknown,
    NodeUnknown,
    ClusterUnknown,
    PlanNotApproved,
    PinLabelInUse,
    PinLabelUnknown,
    GenerationActive,
    GenerationPinned,
    EventLogPositionOutOfRange,
    ProposalSourceUnreachable,
}

/// Why a query was refused.
#[derive(Clone, Copy, Debug, PartialEq, Eq, Structural)]
pub enum QueryRejectionReason {
    GenerationUnknown,
    NodeUnknown,
    EventLogPositionOutOfRange,
    MalformedSelector,
}

/// Why a subscription was refused.
#[derive(Clone, Copy, Debug, PartialEq, Eq, Structural)]
pub enum WatchRejectionReason {
    SubscriptionLimitReached,
    MalformedWatch,
    StreamUnavailable,
}

/// Why closing a subscription was refused.
#[derive(Clone, Copy, Debug, PartialEq, Eq, Structural)]
pub enum UnwatchRejectionReason {
    SubscriptionTokenUnknown,
    SubscriptionAlreadyClosed,
}

/// Why a key material check was refused.
#[derive(Clone, Copy, Debug, PartialEq, Eq, Structural)]
pub enum KeyMaterialCheckRejectionReason {
    NodeUnknown,
    ProposalSourceUnreachable,
    HostUnreachable,
    PublicationMalformed,
}

/// A refused query.
#[derive(Debug, PartialEq, Eq, Structural)]
pub struct RejectedQuery {
    pub query_rejection_reason: QueryRejectionReason,
    pub state_marker: StateMarker,
}

impl Clone for RejectedQuery {
    fn clone(&self) -> (r: Self)
        ensures
            r == *self,
    {
        RejectedQuery {
            query_rejection_reason: self.query_rejection_reason,
            state_marker: self.state_marker.clone(),
        }
    }
}

/// A refused subscription.
#[derive(Debug, PartialEq, Eq, Structural)]
pub struct RejectedWatch(pub WatchRejectionReason);

impl RejectedWatch {
    /// Wraps `payload`.
    pub fn new(payload: WatchRejectionReason) -> (r: Self)
        ensures
            r.0 == payload,
    {
        RejectedWatch(payload)
    }

    /// The wrapped value.
    pub fn payload(&self) -> (r: &WatchRejectionReason)
        ensures
            *r == self.0,
    {
        &self.0
    }

    /// Unwraps the value.
    pub fn into_payload(self) -> (r: WatchRejectionReason)
        ensures
            r == self.0,
    {
        self.0
    }
}

impl From<WatchRejectionReason> for RejectedWatch {
    fn from(payload: WatchRejectionReason) -> (r: Self) {
        RejectedWatch(payload)
    }
}

impl vstd::std_specs::convert::FromSpecImpl<WatchRejectionReason> for RejectedWatch {
    open spec fn obeys_from_spec() -> bool {
        true
    }

    open spec fn from_spec(payload: WatchRejectionReason) -> Self {
        RejectedWatch(payload)
    }
}

impl Clone for RejectedWatch {
    fn clone(&self) -> (r: Self)
        ensures
            r == *self,
    {
        RejectedWatch(self.0)
    }
}

/// A refused close.
#[derive(Debug, PartialEq, Eq, Structural)]
pub struct RejectedUnwatch {
    pub unwatch_rejection_reason: UnwatchRejectionReason,
    pub subscription_token: SubscriptionToken,
}

impl Clone for RejectedUnwatch {
    fn clone(&self) -> (r: Self)
        ensures
            r == *self,
    {
        RejectedUnwatch {
            unwatch_rejection_reason: self.unwatch_rejection_reason,
            subscription_token: self.subscription_token.clone(),
        }
    }
}

/// A refused key material check.
#[derive(Debug, PartialEq, Eq, Structural)]
pub struct RejectedKeyMaterialCheck {
    pub key_material_check_rejection_reason: KeyMaterialCheckRejectionReason,
    pub state_marker: StateMarker,
}

impl Clone for RejectedKeyMaterialCheck {
    fn clone(&self) -> (r: Self)
        ensures
            r == *self,
    {
        RejectedKeyMaterialCheck {
            key_material_check_rejection_reason: self.key_material_check_rejection_reason,
            state_marker: self.state_marker.clone(),
        }
    }
}

/// Why a pin was refused.
#[derive(Clone, Copy, Debug, PartialEq, Eq, Structural)]
pub enum PinRejectionReason {
    GenerationUnknown,
    NodeUnknown,
    PinLabelInUse,
    PinSlotExhausted,
    InternalError,
}

/// Why an unpin was refused.
#[derive(Clone, Copy, Debug, PartialEq, Eq, Structural)]
pub enum UnpinRejectionReason {
    PinLabelUnknown,
    NodeUnknown,
    GenerationNotPinned,
    InternalError,
}

/// Why a retirement was refused.
#[derive(Clone, Copy, Debug, PartialEq, Eq, Structural)]
pub enum RetireRejectionReason {
    GenerationUnknown,
    NodeUnknown,
    GenerationActive,
    GenerationPinned,
    InternalError,
}

/// Why a test was refused.
#[derive(Clone, Copy, Debug, PartialEq, Eq, Structural)]
pub enum TestRejectionReason {
    ClusterUnknown,
    NodeUnknown,
    VmHostNotDeclaredForNode,
    HostDeclaresNoVmHost,
    NoTestDefaults,
    LiveNotYetEnabled,
    SubstrateUnavailable,
    InternalError,
}

/// A refused deployment with its correlation record.
#[derive(Debug, PartialEq, Eq)]
pub struct RejectedDeploy(pub DeploymentRecord);

impl RejectedDeploy {
    /// Wraps `payload`.
    pub fn new(payload: DeploymentRecord) -> (r: Self)
        ensures
            r.0 == payload,
    {
        RejectedDeploy(payload)
    }

    /// The wrapped value.
    pub fn payload(&self) -> (r: &DeploymentRecord)
        ensures
            *r == self.0,
    {
        &self.0
    }

    /// Unwraps the value.
    pub fn into_payload(self) -> (r: DeploymentRecord)
        ensures
            r == self.0,
    {
        self.0
    }
}

impl From<DeploymentRecord> for RejectedDeploy {
    fn from(payload: DeploymentRecord) -> (r: Self) {
        RejectedDeploy(payload)
    }
}

impl vstd::std_specs::convert::FromSpecImpl<DeploymentRecord> for RejectedDeploy {
    open spec fn obeys_from_spec() -> bool {
        true
    }

    open spec fn from_spec(payload: DeploymentRecord) -> Self {
        RejectedDeploy(payload)
    }
}

impl Clone for RejectedDeploy {
    fn clone(&self) -> (r: Self)
        ensures
            r == *self,
    {
        RejectedDeploy(self.0.clone())
    }
}

/// A refused pin.
#[derive(Debug, PartialEq, Eq, Structural)]
pub struct RejectedPin {
    pub pin_rejection_reason: PinRejectionReason,
    pub state_marker: StateMarker,
}

impl Clone for RejectedPin {
    fn clone(&self) -> (r: Self)
        ensures
            r == *self,
    {
        RejectedPin {
            pin_rejection_reason: self.pin_rejection_reason,
            state_marker: self.state_marker.clone(),
        }
    }
}

/// A refused unpin.
#[derive(Debug, PartialEq, Eq, Structural)]
pub struct RejectedUnpin {
    pub unpin_rejection_reason: UnpinRejectionReason,
    pub state_marker: StateMarker,
}

impl Clone for RejectedUnpin {
    fn clone(&self) -> (r: Self)
        ensures
            r == *self,
    {
        RejectedUnpin {
            unpin_rejection_reason: self.unpin_rejection_reason,
            state_marker: self.state_marker.clone(),
        }
    }
}

/// A refused retirement.
#[derive(Debug, PartialEq, Eq, Structural)]
pub struct RejectedRetire {
    pub retire_rejection_reason: RetireRejectionReason,
    pub state_marker: StateMarker,
}

impl Clone for RejectedRetire {
    fn clone(&self) -> (r: Self)
        ensures
            r == *self,
    {
        RejectedRetire {
            retire_rejection_reason: self.retire_rejection_reason,
            state_marker: self.state_marker.clone(),
        }
    }
}

/// A refused test.
#[derive(Debug, PartialEq, Eq, Structural)]
pub struct RejectedTest {
    pub test_rejection_reason: TestRejectionReason,
    pub state_marker: StateMarker,
}

impl Clone for RejectedTest {
    fn clone(&self) -> (r: Self)
        ensures
            r == *self,
    {
        RejectedTest {
            test_rejection_reason: self.test_rejection_reason,
            state_marker: self.state_marker.clone(),
        }
    }
}

/// Requests of the ordinary socket.
#[derive(Debug, PartialEq, Eq)]
pub enum OrdinaryIngress {
    Query(Selection),
    WatchDeployments(DeploymentWatch),
    WatchCacheRetention(CacheRetentionWatch),
    Unwatch(SubscriptionClose),
    CheckHostKeyMaterial(KeyMaterialQuery),
}

impl Clone for OrdinaryIngress {
    fn clone(&self) -> (r: Self)
        ensures
            r == *self,
    {
        match self {
            OrdinaryIngress::Query(value) => OrdinaryIngress::Query(value.clone()),
            OrdinaryIngress::WatchDeployments(value) => OrdinaryIngress::WatchDeployments(value.clone()),
            OrdinaryIngress::WatchCacheRetention(value) => OrdinaryIngress::WatchCacheRetention(value.clone()),
            OrdinaryIngress::Unwatch(value) => OrdinaryIngress::Unwatch(value.clone()),
            OrdinaryIngress::CheckHostKeyMaterial(value) => OrdinaryIngress::CheckHostKeyMaterial(value.clone()),
        }
    }
}

/// Replies of the ordinary socket.
#[derive(Clone, Debug, PartialEq, Eq)]
pub enum OrdinaryEgress {
    Queried(GenerationListing),
    DeploymentEventsQueried(EventLogPage),
    TestRunsQueried(TestRunListing),
    Watching(SubscriptionOpened),
    Unwatched(SubscriptionClosed),
    KeyMaterialChecked(KeyMaterialReport),
    QueryRejected(RejectedQuery),
    WatchRejected(RejectedWatch),
    UnwatchRejected(RejectedUnwatch),
    KeyMaterialCheckRejected(RejectedKeyMaterialCheck),
}

/// Requests of the owner socket.
#[derive(Clone, Debug, PartialEq, Eq)]
pub enum MetaIngress {
    Deploy(DeploySubmission),
    Pin(PinRequest),
    Unpin(UnpinRequest),
    Retire(RetireRequest),
    Test(TestRequest),
}

/// Replies of the owner socket.
#[derive(Debug, PartialEq, Eq)]
pub enum MetaEgress {
    DeployAccepted(DeployHandle),
    DeployRejected(RejectedDeploy),
    DeployTerminal(DeploymentRecord),
    Pinned(AppliedPin),
    PinRejected(RejectedPin),
    Unpinned(AppliedUnpin),
    UnpinRejected(RejectedUnpin),
    Retired(AppliedRetire),
    RetireRejected(RejectedRetire),
    Tested(AcceptedTest),
    TestRejected(RejectedTest),
}

impl Clone for MetaEgress {
    fn clone(&self) -> (r: Self)
        ensures
            r == *self,
    {
        match self {
            MetaEgress::DeployAccepted(value) => MetaEgress::DeployAccepted(value.clone()),
            MetaEgress::DeployRejected(value) => MetaEgress::DeployRejected(value.clone()),
            MetaEgress::DeployTerminal(value) => MetaEgress::DeployTerminal(value.clone()),
            MetaEgress::Pinned(value) => MetaEgress::Pinned(value.clone()),
            MetaEgress::PinRejected(value) => MetaEgress::PinRejected(value.clone()),
            MetaEgress::Unpinned(value) => MetaEgress::Unpinned(value.clone()),
            MetaEgress::UnpinRejected(value) => MetaEgress::UnpinRejected(value.clone()),
            MetaEgress::Retired(value) => MetaEgress::Retired(value.clone()),
            MetaEgress::RetireRejected(value) => MetaEgress::RetireRejected(value.clone()),
            MetaEgress::Tested(value) => MetaEgress::Tested(value.clone()),
            MetaEgress::TestRejected(value) => MetaEgress::TestRejected(value.clone()),
        }
    }
}

/// Rows of the live generations.
#[derive(Clone, Debug, PartialEq, Eq)]
pub struct LiveSetTable(pub Vec<LiveGeneration>);

impl LiveSetTable {
    /// Wraps `payload`.
    pub fn new(payload: Vec<LiveGeneration>) -> (r: Self)
        ensures
            r.0 == payload,
    {
        LiveSetTable(payload)
    }

    /// The wrapped value.
    pub fn payload(&self) -> (r: &Vec<LiveGeneration>)
        ensures
            *r == self.0,
    {
        &self.0
    }

    /// Unwraps the value.
    pub fn into_payload(self) -> (r: Vec<LiveGeneration>)
        ensures
            r == self.0,
    {
        self.0
    }
}

impl From<Vec<LiveGeneration>> for LiveSetTable {
    fn from(payload: Vec<LiveGeneration>) -> (r: Self) {
        LiveSetTable(payload)
    }
}

impl vstd::std_specs::convert::FromSpecImpl<Vec<LiveGeneration>> for LiveSetTable {
    open spec fn obeys_from_spec() -> bool {
        true
    }

    open spec fn from_spec(payload: Vec<LiveGeneration>) -> Self {
        LiveSetTable(payload)
    }
}

/// Rows of the deployments.
#[derive(Clone, Debug, PartialEq, Eq)]
pub struct DeploymentRecordTable(pub Vec<DeploymentRecord>);

impl DeploymentRecordTable {
    /// Wraps `payload`.
    pub fn new(payload: Vec<DeploymentRecord>) -> (r: Self)
        ensures
            r.0 == payload,
    {
        DeploymentRecordTable(payload)
    }

    /// The wrapped value.
    pub fn payload(&self) -> (r: &Vec<DeploymentRecord>)
        ensures
            *r == self.0,
    {
        &self.0
    }

    /// Unwraps the value.
    pub fn into_payload(self) -> (r: Vec<DeploymentRecord>)
        ensures
            r == self.0,
    {
        self.0
    }
}

impl From<Vec<DeploymentRecord>> for DeploymentRecordTable {
    fn from(payload: Vec<DeploymentRecord>) -> (r: Self) {
        DeploymentRecordTable(payload)
    }
}

impl vstd::std_specs::convert::FromSpecImpl<Vec<DeploymentRecord>> for DeploymentRecordTable {
    open spec fn obeys_from_spec() -> bool {
        true
    }

    open spec fn from_spec(payload: Vec<DeploymentRecord>) -> Self {
        DeploymentRecordTable(payload)
    }
}

/// Rows of the identifier allocation.
#[derive(Clone, Debug, PartialEq, Eq)]
pub struct IdentifierAllocationTable(pub Vec<IdentifierAllocation>);

impl IdentifierAllocationTable {
    /// Wraps `payload`.
    pub fn new(payload: Vec<IdentifierAllocation>) -> (r: Self)
        ensures
            r.0 == payload,
    {
        IdentifierAllocationTable(payload)
    }

    /// The wrapped value.
    pub fn payload(&self) -> (r: &Vec<IdentifierAllocation>)
        ensures
            *r == self.0,
    {
        &self.0
    }

    /// Unwraps the value.
    pub fn into_payload(self) -> (r: Vec<IdentifierAllocation>)
        ensures
            r == self.0,
    {
        self.0
    }
}

impl From<Vec<IdentifierAllocation>> for IdentifierAllocationTable {
    fn from(payload: Vec<IdentifierAllocation>) -> (r: Self) {
        IdentifierAllocationTable(payload)
    }
}

impl vstd::std_specs::convert::FromSpecImpl<Vec<IdentifierAllocation>> for IdentifierAllocationTable {
    open spec fn obeys_from_spec() -> bool {
        true
    }

    open spec fn from_spec(payload: Vec<IdentifierAllocation>) -> Self {
        IdentifierAllocationTable(payload)
    }
}

/// Rows of the outbox.
#[derive(Clone, Debug, PartialEq, Eq)]
pub struct DeploymentOutboxTable(pub Vec<DeploymentOutboxRecord>);

impl DeploymentOutboxTable {
    /// Wraps `payload`.
    pub fn new(payload: Vec<DeploymentOutboxRecord>) -> (r: Self)
        ensures
            r.0 == payload,
    {
        DeploymentOutboxTable(payload)
    }

    /// The wrapped value.
    pub fn payload(&self) -> (r: &Vec<DeploymentOutboxRecord>)
        ensures
            *r == self.0,
    {
        &self.0
    }

    /// Unwraps the value.
    pub fn into_payload(self) -> (r: Vec<DeploymentOutboxRecord>)
        ensures
            r == self.0,
    {
        self.0
    }
}

impl From<Vec<DeploymentOutboxRecord>> for DeploymentOutboxTable {
    fn from(payload: Vec<DeploymentOutboxRecord>) -> (r: Self) {
        DeploymentOutboxTable(payload)
    }
}

impl vstd::std_specs::convert::FromSpecImpl<Vec<DeploymentOutboxRecord>> for DeploymentOutboxTable {
    open spec fn obeys_from_spec() -> bool {
        true
    }

    open spec fn from_spec(payload: Vec<DeploymentOutboxRecord>) -> Self {
        DeploymentOutboxTable(payload)
    }
}

/// Rows of the transition intents.
#[derive(Clone, Debug, PartialEq, Eq)]
pub struct PendingTransitionIntentTable(pub Vec<PendingTransitionIntent>);

impl PendingTransitionIntentTable {
    /// Wraps `payload`.
    pub fn new(payload: Vec<PendingTransitionIntent>) -> (r: Self)
        ensures
            r.0 == payload,
    {
        PendingTransitionIntentTable(payload)
    }

    /// The wrapped value.
    pub fn payload(&self) -> (r: &Vec<PendingTransitionIntent>)
        ensures
            *r == self.0,
    {
        &self.0
    }

    /// Unwraps the value.
    pub fn into_payload(self) -> (r: Vec<PendingTransitionIntent>)
        ensures
            r == self.0,
    {
        self.0
    }
}

impl From<Vec<PendingTransitionIntent>> for PendingTransitionIntentTable {
    fn from(payload: Vec<PendingTransitionIntent>) -> (r: Self) {
        PendingTransitionIntentTable(payload)
    }
}

impl vstd::std_specs::convert::FromSpecImpl<Vec<PendingTransitionIntent>> for PendingTransitionIntentTable {
    open spec fn obeys_from_spec() -> bool {
        true
    }

    open spec fn from_spec(payload: Vec<PendingTransitionIntent>) -> Self {
        PendingTransitionIntentTable(payload)
    }
}

/// A generation that was put into effect.
#[derive(Debug, PartialEq, Eq)]
pub struct LiveGeneration {
    pub deployment_identifier: DeploymentIdentifier,
    pub generation_identifier: GenerationIdentifier,
    pub cluster_name: ClusterName,
    pub node_name: NodeName,
    pub deployment_environment: DeploymentEnvironment,
    pub generation_artifact: GenerationArtifact,
    pub activation_effect: ActivationEffect,
    pub generation_slot: GenerationSlot,
    pub closure_path: ClosurePath,
    pub source_revision_record: SourceRevisionRecord,
}

impl Clone for LiveGeneration {
    fn clone(&self) -> (r: Self)
        ensures
            r == *self,
    {
        LiveGeneration {
            deployment_identifier: self.deployment_identifier.clone(),
            generation_identifier: self.generation_identifier.clone(),
            cluster_name: self.cluster_name.clone(),
            node_name: self.node_name.clone(),
            deployment_environment: self.deployment_environment.clone(),
            generation_artifact: self.generation_artifact,
            activation_effect: self.activation_effect,
            generation_slot: self.generation_slot,
            closure_path: self.closure_path.clone(),
            source_revision_record: self.source_revision_record.clone(),
        }
    }
}

/// Rows of the garbage-collection roots.
#[derive(Clone, Debug, PartialEq, Eq)]
pub struct GcRootsTable(pub Vec<GcRoot>);

impl GcRootsTable {
    /// Wraps `payload`.
    pub fn new(payload: Vec<GcRoot>) -> (r: Self)
        ensures
            r.0 == payload,
    {
        GcRootsTable(payload)
    }

    /// The wrapped value.
    pub fn payload(&self) -> (r: &Vec<GcRoot>)
        ensures
            *r == self.0,
    {
        &self.0
    }

    /// Unwraps the value.
    pub fn into_payload(self) -> (r: Vec<GcRoot>)
        ensures
            r == self.0,
    {
        self.0
    }
}

impl From<Vec<GcRoot>> for GcRootsTable {
    fn from(payload: Vec<GcRoot>) -> (r: Self) {
        GcRootsTable(payload)
    }
}

impl vstd::std_specs::convert::FromSpecImpl<Vec<GcRoot>> for GcRootsTable {
    open spec fn obeys_from_spec() -> bool {
        true
    }

    open spec fn from_spec(payload: Vec<GcRoot>) -> Self {
        GcRootsTable(payload)
    }
}

/// A closure kept from garbage collection.
#[derive(Debug, PartialEq, Eq)]
pub struct GcRoot {
    pub generation_identifier: GenerationIdentifier,
    pub cluster_name: ClusterName,
    pub node_name: NodeName,
    pub generation_slot: GenerationSlot,
    pub closure_path: ClosurePath,
    pub optional_pin_label: Option<PinLabel>,
}

impl Clone for GcRoot {
    fn clone(&self) -> (r: Self)
        ensures
            r == *self,
    {
        GcRoot {
            generation_identifier: self.generation_identifier.clone(),
            cluster_name: self.cluster_name.clone(),
            node_name: self.node_name.clone(),
            generation_slot: self.generation_slot,
            closure_path: self.closure_path.clone(),
            optional_pin_label: self.optional_pin_label.clone(),
        }
    }
}

/// Rows of the event log.
#[derive(Clone, Debug, PartialEq, Eq)]
pub struct EventLogTable(pub Vec<EventLogEntry>);

impl EventLogTable {
    /// Wraps `payload`.
    pub fn new(payload: Vec<EventLogEntry>) -> (r: Self)
        ensures
            r.0 == payload,
    {
        EventLogTable(payload)
    }

    /// The wrapped value.
    pub fn payload(&self) -> (r: &Vec<EventLogEntry>)
        ensures
            *r == self.0,
    {
        &self.0
    }

    /// Unwraps the value.
    pub fn into_payload(self) -> (r: Vec<EventLogEntry>)
        ensures
            r == self.0,
    {
        self.0
    }
}

impl From<Vec<EventLogEntry>> for EventLogTable {
    fn from(payload: Vec<EventLogEntry>) -> (r: Self) {
        EventLogTable(payload)
    }
}

impl vstd::std_specs::convert::FromSpecImpl<Vec<EventLogEntry>> for EventLogTable {
    open spec fn obeys_from_spec() -> bool {
        true
    }

    open spec fn from_spec(payload: Vec<EventLogEntry>) -> Self {
        EventLogTable(payload)
    }
}

/// One row of the event log.
#[derive(Debug, PartialEq, Eq)]
pub struct EventLogEntry {
    pub event_log_position: EventLogPosition,
    pub logged_event: LoggedEvent,
}

impl Clone for EventLogEntry {
    fn clone(&self) -> (r: Self)
        ensures
            r == *self,
    {
        EventLogEntry {
            event_log_position: self.event_log_position.clone(),
            logged_event: self.logged_event.clone(),
        }
    }
}

/// What the event log records.
#[derive(Debug, PartialEq, Eq)]
pub enum LoggedEvent {
    Deployment(DeploymentPhaseEvent),
    CacheRetention(CacheRetentionTransitionEvent),
    Container(ContainerLifecycleRecord),
}

impl Clone for LoggedEvent {
    fn clone(&self) -> (r: Self)
        ensures
            r == *self,
    {
        match self {
            LoggedEvent::Deployment(value) => LoggedEvent::Deployment(value.clone()),
            LoggedEvent::CacheRetention(value) => LoggedEvent::CacheRetention(value.clone()),
            LoggedEvent::Container(value) => LoggedEvent::Container(value.clone()),
        }
    }
}

/// Rows of the container lifecycle.
#[derive(Clone, Debug, PartialEq, Eq)]
pub struct ContainerLifecycleTable(pub Vec<ContainerLifecycleRecord>);

impl ContainerLifecycleTable {
    /// Wraps `payload`.
    pub fn new(payload: Vec<ContainerLifecycleRecord>) -> (r: Self)
        ensures
            r.0 == payload,
    {
        ContainerLifecycleTable(payload)
    }

    /// The wrapped value.
    pub fn payload(&self) -> (r: &Vec<ContainerLifecycleRecord>)
        ensures
            *r == self.0,
    {
        &self.0
    }

    /// Unwraps the value.
    pub fn into_payload(self) -> (r: Vec<ContainerLifecycleRecord>)
        ensures
            r == self.0,
    {
        self.0
    }
}

impl From<Vec<ContainerLifecycleRecord>> for ContainerLifecycleTable {
    fn from(payload: Vec<ContainerLifecycleRecord>) -> (r: Self) {
        ContainerLifecycleTable(payload)
    }
}

impl vstd::std_specs::convert::FromSpecImpl<Vec<ContainerLifecycleRecord>> for ContainerLifecycleTable {
    open spec fn obeys_from_spec() -> bool {
        true
    }

    open spec fn from_spec(payload: Vec<ContainerLifecycleRecord>) -> Self {
        ContainerLifecycleTable(payload)
    }
}

/// One container transition.
#[derive(Debug, PartialEq, Eq)]
pub struct ContainerLifecycleRecord {
    pub cluster_name: ClusterName,
    pub node_name: NodeName,
    pub container_name: ContainerName,
    pub container_state: ContainerState,
    pub event_log_position: EventLogPosition,
}

impl Clone for ContainerLifecycleRecord {
    fn clone(&self) -> (r: Self)
        ensures
            r == *self,
    {
        ContainerLifecycleRecord {
            cluster_name: self.cluster_name.clone(),
            node_name: self.node_name.clone(),
            container_name: self.container_name.clone(),
            container_state: self.container_state,
            event_log_position: self.event_log_position.clone(),
        }
    }
}

/// Rows of the in-flight deployments.
#[derive(Clone, Debug, PartialEq, Eq)]
pub struct DeployJobTable(pub Vec<DeployJob>);

impl DeployJobTable {
    /// Wraps `payload`.
    pub fn new(payload: Vec<DeployJob>) -> (r: Self)
        ensures
            r.0 == payload,
    {
        DeployJobTable(payload)
    }

    /// The wrapped value.
    pub fn payload(&self) -> (r: &Vec<DeployJob>)
        ensures
            *r == self.0,
    {
        &self.0
    }

    /// Unwraps the value.
    pub fn into_payload(self) -> (r: Vec<DeployJob>)
        ensures
            r == self.0,
    {
        self.0
    }
}

impl From<Vec<DeployJob>> for DeployJobTable {
    fn from(payload: Vec<DeployJob>) -> (r: Self) {
        DeployJobTable(payload)
    }
}

impl vstd::std_specs::convert::FromSpecImpl<Vec<DeployJob>> for DeployJobTable {
    open spec fn obeys_from_spec() -> bool {
        true
    }

    open spec fn from_spec(payload: Vec<DeployJob>) -> Self {
        DeployJobTable(payload)
    }
}

/// Durable form of a flake input.
#[derive(Debug, PartialEq, Eq)]
pub struct PersistedFlakeInputReference {
    pub url: String,
    pub nix_archive_hash: String,
}

impl Clone for PersistedFlakeInputReference {
    fn clone(&self) -> (r: Self)
        ensures
            r == *self,
    {
        PersistedFlakeInputReference {
            url: self.url.clone(),
            nix_archive_hash: self.nix_archive_hash.clone(),
        }
    }
}

/// Durable form of a flake input override.
#[derive(Debug, PartialEq, Eq)]
pub struct PersistedFlakeInputOverride {
    pub string: String,
    pub persisted_flake_input_reference: PersistedFlakeInputReference,
}

impl Clone for PersistedFlakeInputOverride {
    fn clone(&self) -> (r: Self)
        ensures
            r == *self,
    {
        PersistedFlakeInputOverride {
            string: self.string.clone(),
            persisted_flake_input_reference: self.persisted_flake_input_reference.clone(),
        }
    }
}

/// The next step of an in-flight deployment.
#[derive(Clone, Copy, Debug, PartialEq, Eq, Structural)]
pub enum DeployResumeStage {
    ResolveFlakeAuth,
    MaterializeHorizon,
    RecordBuilding,
    NixEval,
    NixBuild,
    CopyClosure,
    ActivateGeneration,
    RecordGenerationActivated,
    FinishDeployment,
}

/// Durable cursor of an in-flight deployment.
#[derive(Debug, PartialEq, Eq)]
pub struct DeployJob {
    pub deployment_identifier: DeploymentIdentifier,
    pub generation_identifier: GenerationIdentifier,
    pub cluster_name: ClusterName,
    pub node_name: NodeName,
    pub deploy_job_phase: DeployJobPhase,
    pub optional_closure_path: Option<ClosurePath>,
    pub source_revision_policy: SourceRevisionPolicy,
    pub flake_reference: FlakeReference,
    pub optional_flake_reference: Option<FlakeReference>,
    pub resolved_revision: Option<String>,
    pub deployment_transport: DeploymentTransport,
    pub deployment_input_mode: DeploymentInputMode,
    pub deployment_output_selector: DeploymentOutputSelector,
    pub activation_backend: ActivationBackend,
    pub optional_nix_builder_spec: Option<NixBuilderSpec>,
    pub boot_once_unit: Option<String>,
    pub optional_generation_slot: Option<GenerationSlot>,
    pub persisted_flake_input_override_vector: Vec<PersistedFlakeInputOverride>,
    pub deploy_resume_stage: DeployResumeStage,
    pub optional_phase_receipt: Option<PhaseReceipt>,
    pub optional_deploy_submission: Option<DeploySubmission>,
}

/// The contents of a [`DeployJob`].
pub struct DeployJobView {
    pub deployment_identifier: DeploymentIdentifier,
    pub generation_identifier: GenerationIdentifier,
    pub cluster_name: ClusterName,
    pub node_name: NodeName,
    pub deploy_job_phase: DeployJobPhase,
    pub optional_closure_path: Option<ClosurePath>,
    pub source_revision_policy: SourceRevisionPolicy,
    pub flake_reference: FlakeReference,
    pub optional_flake_reference: Option<FlakeReference>,
    pub resolved_revision: Option<String>,
    pub deployment_transport: DeploymentTransport,
    pub deployment_input_mode: DeploymentInputMode,
    pub deployment_output_selector: DeploymentOutputSelector,
    pub activation_backend: ActivationBackend,
    pub optional_nix_builder_spec: Option<NixBuilderSpec>,
    pub boot_once_unit: Option<Seq<char>>,
    pub optional_generation_slot: Option<GenerationSlot>,
    pub persisted_flake_input_override_vector: Seq<PersistedFlakeInputOverride>,
    pub deploy_resume_stage: DeployResumeStage,
    pub optional_phase_receipt: Option<PhaseReceipt>,
    pub optional_deploy_submission: Option<DeploySubmissionView>,
}

impl View for DeployJob {
    type V = DeployJobView;

    open spec fn view(&self) -> DeployJobView {
        DeployJobView {
            deployment_identifier: self.deployment_identifier,
            generation_identifier: self.generation_identifier,
            cluster_name: self.cluster_name,
            node_name: self.node_name,
            deploy_job_phase: self.deploy_job_phase,
            optional_closure_path: self.optional_closure_path,
            source_revision_policy: self.source_revision_policy,
            flake_reference: self.flake_reference,
            optional_flake_reference: self.optional_flake_reference,
            resolved_revision: self.resolved_revision,
            deployment_transport: self.deployment_transport,
            deployment_input_mode: self.deployment_input_mode,
            deployment_output_selector: self.deployment_output_selector,
            activation_backend: self.activation_backend,
            optional_nix_builder_spec: self.optional_nix_builder_spec,
            boot_once_unit: match self.boot_once_unit {
                Some(unit) => Some(unit@),
                None => None,
            },
            optional_generation_slot: self.optional_generation_slot,
            persisted_flake_input_override_vector: self.persisted_flake_input_override_vector@,
            deploy_resume_stage: self.deploy_resume_stage,
            optional_phase_receipt: self.optional_phase_receipt,
            optional_deploy_submission: match self.optional_deploy_submission {
                Some(submission) => Some(submission@),
                None => None,
            },
        }
    }
}

impl Clone for DeployJob {
    fn clone(&self) -> (r: Self)
        ensures
            r@ == self@,
    {
        DeployJob {
            deployment_identifier: self.deployment_identifier.clone(),
            generation_identifier: self.generation_identifier.clone(),
            cluster_name: self.cluster_name.clone(),
            node_name: self.node_name.clone(),
            deploy_job_phase: self.deploy_job_phase,
            optional_closure_path: self.optional_closure_path.clone(),
            source_revision_policy: self.source_revision_policy,
            flake_reference: self.flake_reference.clone(),
            optional_flake_reference: self.optional_flake_reference.clone(),
            resolved_revision: self.resolved_revision.clone(),
            deployment_transport: self.deployment_transport.clone(),
            deployment_input_mode: self.deployment_input_mode,
            deployment_output_selector: self.deployment_output_selector.clone(),
            activation_backend: self.activation_backend,
            optional_nix_builder_spec: self.optional_nix_builder_spec.clone(),
            boot_once_unit: self.boot_once_unit.clone(),
            optional_generation_slot: self.optional_generation_slot.clone(),
            persisted_flake_input_override_vector: self.persisted_flake_input_override_vector.clone(),
            deploy_resume_stage: self.deploy_resume_stage,
            optional_phase_receipt: self.optional_phase_receipt.clone(),
            optional_deploy_submission: self.optional_deploy_submission.clone(),
        }
    }
}

/// Progress of an in-flight deployment.
#[derive(Clone, Copy, Debug, PartialEq, Eq, Structural)]
pub enum DeployJobPhase {
    Submitted,
    Building,
    Built,
    Copying,
    Activating,
    Activated,
    Failed,
}

/// Rows of the test runs.
#[derive(Clone, Debug, PartialEq, Eq)]
pub struct TestRunTable(pub Vec<StoredTestRun>);

impl TestRunTable {
    /// Wraps `payload`.
    pub fn new(payload: Vec<StoredTestRun>) -> (r: Self)
        ensures
            r.0 == payload,
    {
        TestRunTable(payload)
    }

    /// The wrapped value.
    pub fn payload(&self) -> (r: &Vec<StoredTestRun>)
        ensures
            *r == self.0,
    {
        &self.0
    }

    /// Unwraps the value.
    pub fn into_payload(self) -> (r: Vec<StoredTestRun>)
        ensures
            r == self.0,
    {
        self.0
    }
}

impl From<Vec<StoredTestRun>> for TestRunTable {
    fn from(payload: Vec<StoredTestRun>) -> (r: Self) {
        TestRunTable(payload)
    }
}

impl vstd::std_specs::convert::FromSpecImpl<Vec<StoredTestRun>> for TestRunTable {
    open spec fn obeys_from_spec() -> bool {
        true
    }

    open spec fn from_spec(payload: Vec<StoredTestRun>) -> Self {
        TestRunTable(payload)
    }
}

/// Durable row of a test run.
#[derive(Debug, PartialEq, Eq)]
pub struct StoredTestRun {
    pub test_run_identifier: TestRunIdentifier,
    pub cluster_name: ClusterName,
    pub node: NodeName,
    pub host: NodeName,
    pub test_mode: TestMode,
    pub test_run_phase: TestRunPhase,
    pub test_outcome: TestOutcome,
    pub optional_closure_path: Option<ClosurePath>,
}

impl Clone for StoredTestRun {
    fn clone(&self) -> (r: Self)
        ensures
            r == *self,
    {
        StoredTestRun {
            test_run_identifier: self.test_run_identifier.clone(),
            cluster_name: self.cluster_name.clone(),
            node: self.node.clone(),
            host: self.host.clone(),
            test_mode: self.test_mode,
            test_run_phase: self.test_run_phase,
            test_outcome: self.test_outcome.clone(),
            optional_closure_path: self.optional_closure_path.clone(),
        }
    }
}

/// A request to the engine.
#[derive(Clone, Debug, PartialEq, Eq)]
pub enum Input {
    Read(SemaReadInput),
    Write(SemaWriteInput),
}

/// A reply of the engine.
#[derive(Clone, Debug, PartialEq, Eq)]
pub enum Output {
    ReadCompleted(SemaReadOutput),
    WriteCompleted(SemaWriteOutput),
}

} // verus!
