//! The cursor of one deployment: the commands it asks for and the durable job
//! it leaves behind.

use crate::runtime_flow;
use crate::runtime_flow::{
    ActivateGenerationCommand, ActivationProfile, BuildTarget, CopyClosureCommand,
    FlakeAuthRequest, FlakeInputOverride, FlakeInputReference, HorizonMaterializationCommand,
    MaterializationShape, NixBuildCommand, NixEvalCommand, UserEnvironmentActivationProfile,
    UserEnvironmentMaterialization,
};
use crate::runtime_model::{
    ActivationBackend, ActivationCommit, ActivationEffect, ClosurePath, ClusterName, DeployJob,
    DeployJobPhase, DeployJobView, DeployResumeStage, DeploySubmission, DeploymentEnvironment,
    DeploymentIdentifier, DeploymentInputMode, DeploymentOutputSelector, DeploymentPhase,
    DeploymentPhaseEvent, DeploymentRequestIdentity, DeploymentTransport, EventLogPosition,
    ExtraSubstituter, FlakeReference, GcRoot, GenerationArtifact, GenerationIdentifier,
    GenerationSlot, HostComposition, HostDeployAction, ImmutableRevision, LiveGeneration,
    NixBuilderSpec, NodeName, PersistedFlakeInputOverride, PersistedFlakeInputReference,
    PhaseReceipt, ProposalSource, RequestedDeploymentAction, SourceRevisionPolicy,
    SourceRevisionRecord, StateMarker, UserEnvironmentAction, UserName,
};
use crate::schema_runtime::activation::boot_once_unit_text;
use crate::schema_runtime::flake_policy::{
    immutable_revision, is_full_commit, is_pinned, query, value_of, FlakeReferencePolicy,
};
use crate::text::split;
use vstd::prelude::*;

verus! {

// ---- what a submission asks for --------------------------------------------------

/// What a host closure contains.
pub open spec fn artifact_of(composition: HostComposition) -> GenerationArtifact {
    match composition {
        HostComposition::CompleteHost => GenerationArtifact::CompleteHost,
        HostComposition::BaseHost => GenerationArtifact::BaseHost,
    }
}

/// How a host action takes effect.
pub open spec fn host_effect(action: HostDeployAction) -> ActivationEffect {
    match action {
        HostDeployAction::SetBootProfile => ActivationEffect::BootProfile,
        HostDeployAction::TestActivation => ActivationEffect::TestActivation,
        HostDeployAction::ScheduleBootOnce => ActivationEffect::BootOnceProfile,
        HostDeployAction::Evaluate | HostDeployAction::Realize
        | HostDeployAction::ActivateNow => ActivationEffect::LiveActivation,
    }
}

/// How a user environment action takes effect.
pub open spec fn user_effect(action: UserEnvironmentAction) -> ActivationEffect {
    match action {
        UserEnvironmentAction::Realize | UserEnvironmentAction::SetProfile
            => ActivationEffect::ProfileOnly,
        UserEnvironmentAction::ActivateNow => ActivationEffect::LiveActivation,
    }
}

/// The action of a deployment.
#[derive(Debug, PartialEq, Eq)]
pub enum DeployAction {
    Host(HostDeployAction),
    UserEnvironment { action: UserEnvironmentAction, user: UserName },
}

impl Clone for DeployAction {
    fn clone(&self) -> (r: Self)
        ensures
            r == *self,
    {
        match self {
            DeployAction::Host(action) => DeployAction::Host(*action),
            DeployAction::UserEnvironment { action, user } => DeployAction::UserEnvironment {
                action: *action,
                user: user.clone(),
            },
        }
    }
}

impl DeployAction {
    /// Whether the action realises a closure: all but a host evaluation do.
    pub open spec fn realises(&self) -> bool {
        *self != DeployAction::Host(HostDeployAction::Evaluate)
    }

    /// Whether the action puts the closure into effect on the target.
    pub open spec fn takes_effect(&self) -> bool {
        match self {
            DeployAction::Host(action) => *action != HostDeployAction::Evaluate && *action
                != HostDeployAction::Realize,
            DeployAction::UserEnvironment { action, .. } => *action
                != UserEnvironmentAction::Realize,
        }
    }

    /// What is activated.
    pub open spec fn profile(&self) -> ActivationProfile {
        match self {
            DeployAction::Host(action) => ActivationProfile::Host(*action),
            DeployAction::UserEnvironment { action, user } => ActivationProfile::UserEnvironment(
                UserEnvironmentActivationProfile {
                    user_environment_action: *action,
                    user_name: *user,
                },
            ),
        }
    }

    /// Whether the action realises a closure.
    pub fn produces_closure(&self) -> (r: bool)
        ensures
            r == self.realises(),
    {
        match self {
            DeployAction::Host(action) => match *action {
                HostDeployAction::Evaluate => false,
                _ => true,
            },
            DeployAction::UserEnvironment { .. } => true,
        }
    }

    /// Whether the action puts the closure into effect on the target.
    pub fn activates(&self) -> (r: bool)
        ensures
            r == self.takes_effect(),
    {
        match self {
            DeployAction::Host(action) => match *action {
                HostDeployAction::SetBootProfile | HostDeployAction::ActivateNow
                | HostDeployAction::TestActivation | HostDeployAction::ScheduleBootOnce => true,
                HostDeployAction::Evaluate | HostDeployAction::Realize => false,
            },
            DeployAction::UserEnvironment { action, .. } => match *action {
                UserEnvironmentAction::SetProfile | UserEnvironmentAction::ActivateNow => true,
                UserEnvironmentAction::Realize => false,
            },
        }
    }

    /// What is activated.
    pub fn activation_profile(&self) -> (r: ActivationProfile)
        ensures
            r == self.profile(),
    {
        match self {
            DeployAction::Host(action) => ActivationProfile::Host(*action),
            DeployAction::UserEnvironment { action, user } => ActivationProfile::UserEnvironment(
                UserEnvironmentActivationProfile {
                    user_environment_action: *action,
                    user_name: user.clone(),
                },
            ),
        }
    }
}

/// The step of a deployment whose record has been written.
#[derive(Clone, Copy, Debug, PartialEq, Eq, Structural)]
pub enum DeployStage {
    Submitted,
    BuildingRecorded,
    CopyingRecorded,
    ActivatedRecorded,
}

/// The cursor of a deployment.
#[derive(Clone, Debug, PartialEq, Eq)]
pub struct DeployPipeline {
    pub deployment_identifier: DeploymentIdentifier,
    pub generation_identifier: GenerationIdentifier,
    pub cluster_name: ClusterName,
    pub node_name: NodeName,
    pub generation_artifact: GenerationArtifact,
    pub activation_effect: ActivationEffect,
    pub activation_slot: Option<GenerationSlot>,
    pub source: ProposalSource,
    pub requested_flake: FlakeReference,
    pub flake: FlakeReference,
    pub deployment_transport: DeploymentTransport,
    pub deployment_input_mode: DeploymentInputMode,
    pub deployment_output_selector: DeploymentOutputSelector,
    pub activation_backend: ActivationBackend,
    pub action: DeployAction,
    pub source_revision_policy: SourceRevisionPolicy,
    pub source_revision: Option<SourceRevisionRecord>,
    pub builder: Option<NixBuilderSpec>,
    pub substituters: Vec<runtime_flow::ExtraSubstituter>,
    pub input_overrides: Vec<FlakeInputOverride>,
    pub closure_path: Option<ClosurePath>,
    pub accepted_marker: StateMarker,
    pub stage: DeployStage,
    /// The next step, as it stands in the durable job.
    pub resume_stage: DeployResumeStage,
    /// The receipt of the phase recorded last.
    pub phase_receipt: Option<PhaseReceipt>,
    pub submission: DeploySubmission,
}

/// A substituter as build commands carry it.
pub open spec fn carried_substituter(substituter: ExtraSubstituter) -> runtime_flow::ExtraSubstituter {
    runtime_flow::ExtraSubstituter { url: substituter.url, public_key: substituter.public_key }
}

/// Substituters as build commands carry them.
pub open spec fn carried_substituters(substituters: Seq<ExtraSubstituter>) -> Seq<
    runtime_flow::ExtraSubstituter,
> {
    substituters.map_values(|substituter: ExtraSubstituter| carried_substituter(substituter))
}

/// An override as the durable job keeps it.
pub open spec fn persisted_override(value: FlakeInputOverride) -> PersistedFlakeInputOverride {
    PersistedFlakeInputOverride {
        string: value.string,
        persisted_flake_input_reference: PersistedFlakeInputReference {
            url: value.flake_input_reference.url,
            nix_archive_hash: value.flake_input_reference.nix_archive_hash,
        },
    }
}

/// Overrides as the durable job keeps them.
pub open spec fn persisted_overrides(values: Seq<FlakeInputOverride>) -> Seq<
    PersistedFlakeInputOverride,
> {
    values.map_values(|value: FlakeInputOverride| persisted_override(value))
}

/// An override restored from the durable job.
pub open spec fn restored_override(value: PersistedFlakeInputOverride) -> FlakeInputOverride {
    FlakeInputOverride {
        string: value.string,
        flake_input_reference: FlakeInputReference {
            url: value.persisted_flake_input_reference.url,
            nix_archive_hash: value.persisted_flake_input_reference.nix_archive_hash,
        },
    }
}

/// Overrides restored from the durable job.
pub open spec fn restored_overrides(values: Seq<PersistedFlakeInputOverride>) -> Seq<
    FlakeInputOverride,
> {
    values.map_values(|value: PersistedFlakeInputOverride| restored_override(value))
}

/// Restores the overrides of a durable job.
pub fn restore_overrides(values: &Vec<PersistedFlakeInputOverride>) -> (r: Vec<FlakeInputOverride>)
    ensures
        r@ == restored_overrides(values@),
{
    let mut restored: Vec<FlakeInputOverride> = Vec::new();
    let mut i: usize = 0;
    while i < values.len()
        invariant
            i <= values@.len(),
            restored@.len() == i,
            forall|k: int| 0 <= k < i ==> #[trigger] restored@[k] == restored_override(values@[k]),
        decreases values@.len() - i,
    {
        restored.push(
            FlakeInputOverride {
                string: values[i].string.clone(),
                flake_input_reference: FlakeInputReference {
                    url: values[i].persisted_flake_input_reference.url.clone(),
                    nix_archive_hash: values[i].persisted_flake_input_reference.nix_archive_hash.clone(),
                },
            },
        );
        i = i + 1;
    }
    assert(restored@ =~= restored_overrides(values@));
    restored
}

/// The revision that a pinned reference names.
pub open spec fn pinned_revision(reference: Seq<char>) -> Option<Seq<char>> {
    if is_pinned(reference) {
        value_of(split(query(reference)->0, '&'), "rev"@)
    } else {
        None
    }
}

/// The text of an optional revision.
pub open spec fn revision_view(revision: Option<ImmutableRevision>) -> Option<Seq<char>> {
    match revision {
        Some(value) => Some(value@),
        None => None,
    }
}

impl DeploymentRequestIdentity {
    /// The identity of `submission`: its target, what is deployed and how, and
    /// the revision that its flake reference already pins.
    pub open spec fn identifies(&self, submission: DeploySubmission) -> bool {
        match submission {
            DeploySubmission::Host(host) => {
                &&& self.deployment_environment == DeploymentEnvironment::HostEnvironment
                &&& self.cluster_name == host.cluster_name
                &&& self.node_name == host.node_name
                &&& self.generation_artifact == artifact_of(host.host_composition)
                &&& self.requested_deployment_action == RequestedDeploymentAction::Host(
                    host.host_deploy_action,
                )
                &&& self.activation_effect == host_effect(host.host_deploy_action)
                &&& self.source_revision_policy == host.source_revision_policy
                &&& revision_view(self.optional_immutable_revision) == pinned_revision(
                    host.flake_reference@,
                )
            },
            DeploySubmission::UserEnvironment(user) => {
                &&& self.deployment_environment == DeploymentEnvironment::UserEnvironment(
                    user.user_name,
                )
                &&& self.cluster_name == user.cluster_name
                &&& self.node_name == user.node_name
                &&& self.generation_artifact == GenerationArtifact::UserEnvironment
                &&& self.requested_deployment_action == RequestedDeploymentAction::UserEnvironment(
                    user.user_environment_action,
                )
                &&& self.activation_effect == user_effect(user.user_environment_action)
                &&& self.source_revision_policy == user.source_revision_policy
                &&& revision_view(self.optional_immutable_revision) == pinned_revision(
                    user.flake_reference@,
                )
            },
        }
    }
}

/// The nix store location and SSH destination of `route` stand unchanged in `carried`.
pub open spec fn carries_route(
    carried: runtime_flow::DeploymentTransport,
    route: DeploymentTransport,
) -> bool {
    carried.nix_store_uri.0 == route.nix_store_uri.0 && carried.ssh_destination.0
        == route.ssh_destination.0
}

fn carry_route(route: &DeploymentTransport) -> (r: runtime_flow::DeploymentTransport)
    ensures
        carries_route(r, *route),
{
    runtime_flow::DeploymentTransport {
        nix_store_uri: runtime_flow::NixStoreUri(route.nix_store_uri.0.clone()),
        ssh_destination: runtime_flow::SshDestination(route.ssh_destination.0.clone()),
    }
}

/// The backend as effect commands carry it.
pub open spec fn carried_backend(backend: ActivationBackend) -> runtime_flow::ActivationBackend {
    match backend {
        ActivationBackend::NixosSystemdBootV1 => runtime_flow::ActivationBackend::NixosSystemdBootV1,
        ActivationBackend::HomeManagerNixProfileV1
            => runtime_flow::ActivationBackend::HomeManagerNixProfileV1,
    }
}

impl DeployPipeline {
    /// The cursor right after `submission` was admitted.
    pub open spec fn starts(
        &self,
        deployment_identifier: DeploymentIdentifier,
        generation_identifier: GenerationIdentifier,
        accepted_marker: StateMarker,
        submission: DeploySubmission,
    ) -> bool {
        &&& self.deployment_identifier == deployment_identifier
        &&& self.generation_identifier == generation_identifier
        &&& self.accepted_marker == accepted_marker
        &&& self.activation_slot is None
        &&& self.requested_flake == self.flake
        &&& self.source_revision is None
        &&& self.input_overrides@ == Seq::<FlakeInputOverride>::empty()
        &&& self.closure_path is None
        &&& self.stage == DeployStage::Submitted
        &&& self.resume_stage == DeployResumeStage::ResolveFlakeAuth
        &&& self.phase_receipt is None
        &&& self.submission@ == submission@
        &&& self.is_for(submission)
    }

    /// The parts of the cursor that the submission alone decides.
    pub open spec fn is_for(&self, submission: DeploySubmission) -> bool {
        match submission {
            DeploySubmission::Host(host) => {
                &&& self.cluster_name == host.cluster_name
                &&& self.node_name == host.node_name
                &&& self.generation_artifact == artifact_of(host.host_composition)
                &&& self.activation_effect == host_effect(host.host_deploy_action)
                &&& self.source == host.proposal_source
                &&& self.requested_flake == host.flake_reference
                &&& self.deployment_transport == host.deployment_transport
                &&& self.deployment_input_mode == host.deployment_input_mode
                &&& self.deployment_output_selector == host.deployment_output_selector
                &&& self.activation_backend == host.activation_backend
                &&& self.action == DeployAction::Host(host.host_deploy_action)
                &&& self.source_revision_policy == host.source_revision_policy
                &&& self.builder == host.optional_nix_builder_spec
                &&& self.substituters@ == carried_substituters(host.extra_substituter_vector@)
            },
            DeploySubmission::UserEnvironment(user) => {
                &&& self.cluster_name == user.cluster_name
                &&& self.node_name == user.node_name
                &&& self.generation_artifact == GenerationArtifact::UserEnvironment
                &&& self.activation_effect == user_effect(user.user_environment_action)
                &&& self.source == user.proposal_source
                &&& self.requested_flake == user.flake_reference
                &&& self.deployment_transport == user.deployment_transport
                &&& self.deployment_input_mode == user.deployment_input_mode
                &&& self.deployment_output_selector == user.deployment_output_selector
                &&& self.activation_backend == user.activation_backend
                &&& self.action == (DeployAction::UserEnvironment {
                    action: user.user_environment_action,
                    user: user.user_name,
                })
                &&& self.source_revision_policy == user.source_revision_policy
                &&& self.builder == user.optional_nix_builder_spec
                &&& self.substituters@ == carried_substituters(user.extra_substituter_vector@)
            },
        }
    }

    /// Where the deployment is realised.
    pub open spec fn target(&self) -> BuildTarget {
        match self.builder {
            Some(builder) => BuildTarget::Remote(runtime_flow::NixBuilderSpec(builder.0)),
            None => BuildTarget::Local,
        }
    }

    /// What the materialized inputs describe.
    pub open spec fn shape(&self) -> MaterializationShape {
        match self.action {
            DeployAction::Host(_) => match self.generation_artifact {
                GenerationArtifact::CompleteHost => MaterializationShape::CompleteHost,
                GenerationArtifact::BaseHost => MaterializationShape::BaseHost,
                GenerationArtifact::UserEnvironment => MaterializationShape::BaseHost,
            },
            DeployAction::UserEnvironment { user, .. } => MaterializationShape::UserEnvironment(
                UserEnvironmentMaterialization(user),
            ),
        }
    }

    /// Whether the deployment targets the host or one user.
    pub open spec fn environment(&self) -> DeploymentEnvironment {
        match self.action {
            DeployAction::Host(_) => DeploymentEnvironment::HostEnvironment,
            DeployAction::UserEnvironment { user, .. } => DeploymentEnvironment::UserEnvironment(
                user,
            ),
        }
    }

    /// The unit that a boot-once deployment is scheduled by.
    pub open spec fn unit(&self) -> Option<Seq<char>> {
        if self.action == DeployAction::Host(HostDeployAction::ScheduleBootOnce) {
            Some(boot_once_unit_text(self.deployment_identifier.0))
        } else {
            None
        }
    }

    /// The durable job of this cursor in `phase`.
    pub open spec fn job(&self, phase: DeployJobPhase) -> DeployJobView {
        DeployJobView {
            deployment_identifier: self.deployment_identifier,
            generation_identifier: self.generation_identifier,
            cluster_name: self.cluster_name,
            node_name: self.node_name,
            deploy_job_phase: phase,
            optional_closure_path: self.closure_path,
            source_revision_policy: self.source_revision_policy,
            flake_reference: self.requested_flake,
            optional_flake_reference: match self.source_revision {
                Some(revision) => Some(revision.resolved_ref),
                None => None,
            },
            resolved_revision: match self.source_revision {
                Some(revision) => Some(revision.string),
                None => None,
            },
            deployment_transport: self.deployment_transport,
            deployment_input_mode: self.deployment_input_mode,
            deployment_output_selector: self.deployment_output_selector,
            activation_backend: self.activation_backend,
            optional_nix_builder_spec: self.builder,
            boot_once_unit: self.unit(),
            optional_generation_slot: self.activation_slot,
            persisted_flake_input_override_vector: persisted_overrides(self.input_overrides@),
            deploy_resume_stage: self.resume_stage,
            optional_phase_receipt: self.phase_receipt,
            optional_deploy_submission: Some(self.submission@),
        }
    }

    /// The facts to commit once the activation has succeeded; nothing while the
    /// slot, the closure or the resolved source is unknown.
    pub open spec fn commit(&self) -> Option<ActivationCommit> {
        match (self.activation_slot, self.closure_path, self.source_revision) {
            (Some(generation_slot), Some(closure_path), Some(source_revision_record)) => Some(
                ActivationCommit {
                    generation_identifier: self.generation_identifier,
                    cluster_name: self.cluster_name,
                    node_name: self.node_name,
                    deployment_environment: self.environment(),
                    generation_slot,
                    closure_path,
                    source_revision_record,
                },
            ),
            _ => None,
        }
    }

    /// The commit that the resolved source names.
    pub open spec fn proven_revision(&self) -> Option<Seq<char>> {
        match self.source_revision {
            Some(revision) => if is_full_commit(revision.string@) {
                Some(revision.string@)
            } else {
                None
            },
            None => None,
        }
    }

    /// The identity of a submission.
    pub fn deployment_request_identity(submission: &DeploySubmission) -> (r:
        DeploymentRequestIdentity)
        ensures
            r.identifies(*submission),
    {
        match submission {
            DeploySubmission::Host(host) => DeploymentRequestIdentity {
                deployment_environment: DeploymentEnvironment::HostEnvironment,
                cluster_name: host.cluster_name.clone(),
                node_name: host.node_name.clone(),
                generation_artifact: Self::host_generation_artifact(host.host_composition),
                requested_deployment_action: RequestedDeploymentAction::Host(
                    host.host_deploy_action,
                ),
                activation_effect: Self::host_activation_effect(host.host_deploy_action),
                source_revision_policy: host.source_revision_policy,
                optional_immutable_revision: FlakeReferencePolicy::new(
                    host.flake_reference.0.as_str(),
                ).immutable_revision(),
            },
            DeploySubmission::UserEnvironment(user) => DeploymentRequestIdentity {
                deployment_environment: DeploymentEnvironment::UserEnvironment(
                    user.user_name.clone(),
                ),
                cluster_name: user.cluster_name.clone(),
                node_name: user.node_name.clone(),
                generation_artifact: GenerationArtifact::UserEnvironment,
                requested_deployment_action: RequestedDeploymentAction::UserEnvironment(
                    user.user_environment_action,
                ),
                activation_effect: Self::user_environment_activation_effect(
                    user.user_environment_action,
                ),
                source_revision_policy: user.source_revision_policy,
                optional_immutable_revision: FlakeReferencePolicy::new(
                    user.flake_reference.0.as_str(),
                ).immutable_revision(),
            },
        }
    }

    /// The cursor right after `submission` was admitted.
    pub fn from_submission(
        deployment_identifier: DeploymentIdentifier,
        generation_identifier: GenerationIdentifier,
        accepted_marker: StateMarker,
        submission: DeploySubmission,
    ) -> (r: Self)
        ensures
            r.starts(deployment_identifier, generation_identifier, accepted_marker, submission),
    {
        let durable_submission = submission.clone();
        match submission {
            DeploySubmission::Host(host) => DeployPipeline {
                deployment_identifier,
                generation_identifier,
                cluster_name: host.cluster_name,
                node_name: host.node_name,
                generation_artifact: Self::host_generation_artifact(host.host_composition),
                activation_effect: Self::host_activation_effect(host.host_deploy_action),
                activation_slot: None,
                source: host.proposal_source,
                requested_flake: host.flake_reference.clone(),
                flake: host.flake_reference,
                deployment_transport: host.deployment_transport,
                deployment_input_mode: host.deployment_input_mode,
                deployment_output_selector: host.deployment_output_selector,
                activation_backend: host.activation_backend,
                action: DeployAction::Host(host.host_deploy_action),
                source_revision_policy: host.source_revision_policy,
                source_revision: None,
                builder: host.optional_nix_builder_spec,
                substituters: Self::convert_substituters(&host.extra_substituter_vector),
                input_overrides: Vec::new(),
                closure_path: None,
                accepted_marker,
                stage: DeployStage::Submitted,
                resume_stage: DeployResumeStage::ResolveFlakeAuth,
                phase_receipt: None,
                submission: durable_submission,
            },
            DeploySubmission::UserEnvironment(user) => DeployPipeline {
                deployment_identifier,
                generation_identifier,
                cluster_name: user.cluster_name,
                node_name: user.node_name,
                generation_artifact: GenerationArtifact::UserEnvironment,
                activation_effect: Self::user_environment_activation_effect(
                    user.user_environment_action,
                ),
                activation_slot: None,
                source: user.proposal_source,
                requested_flake: user.flake_reference.clone(),
                flake: user.flake_reference,
                deployment_transport: user.deployment_transport,
                deployment_input_mode: user.deployment_input_mode,
                deployment_output_selector: user.deployment_output_selector,
                activation_backend: user.activation_backend,
                action: DeployAction::UserEnvironment {
                    action: user.user_environment_action,
                    user: user.user_name,
                },
                source_revision_policy: user.source_revision_policy,
                source_revision: None,
                builder: user.optional_nix_builder_spec,
                substituters: Self::convert_substituters(&user.extra_substituter_vector),
                input_overrides: Vec::new(),
                closure_path: None,
                accepted_marker,
                stage: DeployStage::Submitted,
                resume_stage: DeployResumeStage::ResolveFlakeAuth,
                phase_receipt: None,
                submission: durable_submission,
            },
        }
    }

    /// What a host closure contains.
    pub fn host_generation_artifact(composition: HostComposition) -> (r: GenerationArtifact)
        ensures
            r == artifact_of(composition),
    {
        match composition {
            HostComposition::CompleteHost => GenerationArtifact::CompleteHost,
            HostComposition::BaseHost => GenerationArtifact::BaseHost,
        }
    }

    /// How a host action takes effect.
    pub fn host_activation_effect(action: HostDeployAction) -> (r: ActivationEffect)
        ensures
            r == host_effect(action),
    {
        match action {
            HostDeployAction::SetBootProfile => ActivationEffect::BootProfile,
            HostDeployAction::TestActivation => ActivationEffect::TestActivation,
            HostDeployAction::ScheduleBootOnce => ActivationEffect::BootOnceProfile,
            HostDeployAction::Evaluate | HostDeployAction::Realize
            | HostDeployAction::ActivateNow => ActivationEffect::LiveActivation,
        }
    }

    /// How a user environment action takes effect.
    pub fn user_environment_activation_effect(action: UserEnvironmentAction) -> (r:
        ActivationEffect)
        ensures
            r == user_effect(action),
    {
        match action {
            UserEnvironmentAction::Realize | UserEnvironmentAction::SetProfile
                => ActivationEffect::ProfileOnly,
            UserEnvironmentAction::ActivateNow => ActivationEffect::LiveActivation,
        }
    }

    /// Substituters as build commands carry them.
    pub fn convert_substituters(substituters: &Vec<ExtraSubstituter>) -> (r: Vec<
        runtime_flow::ExtraSubstituter,
    >)
        ensures
            r@ == carried_substituters(substituters@),
    {
        let mut carried: Vec<runtime_flow::ExtraSubstituter> = Vec::new();
        let mut i: usize = 0;
        while i < substituters.len()
            invariant
                i <= substituters@.len(),
                carried@.len() == i,
                forall|k: int|
                    0 <= k < i ==> #[trigger] carried@[k] == carried_substituter(substituters@[k]),
            decreases substituters@.len() - i,
        {
            carried.push(
                runtime_flow::ExtraSubstituter {
                    url: substituters[i].url.clone(),
                    public_key: substituters[i].public_key.clone(),
                },
            );
            i = i + 1;
        }
        assert(carried@ =~= carried_substituters(substituters@));
        carried
    }

    /// Where the deployment is realised: on the named builders, else locally.
    pub fn build_target(&self) -> (r: BuildTarget)
        ensures
            r == self.target(),
    {
        match &self.builder {
            Some(builder) => BuildTarget::Remote(runtime_flow::NixBuilderSpec(builder.0.clone())),
            None => BuildTarget::Local,
        }
    }

    /// Asks to resolve the flake.
    pub fn flake_auth_request(&self) -> (r: FlakeAuthRequest)
        ensures
            r == (FlakeAuthRequest {
                proposal_source: self.source,
                flake_reference: self.flake,
                source_revision_policy: self.source_revision_policy,
            }),
    {
        FlakeAuthRequest {
            proposal_source: self.source.clone(),
            flake_reference: self.flake.clone(),
            source_revision_policy: self.source_revision_policy,
        }
    }

    /// Whether the flake is built against materialized inputs.
    pub fn needs_horizon_materialization(&self) -> (r: bool)
        ensures
            r == (self.deployment_input_mode == DeploymentInputMode::Horizon),
    {
        match self.deployment_input_mode {
            DeploymentInputMode::Horizon => true,
            DeploymentInputMode::Direct => false,
        }
    }

    /// Asks to materialize the inputs.
    pub fn horizon_materialization_command(&self) -> (r: HorizonMaterializationCommand)
        ensures
            r == (HorizonMaterializationCommand {
                cluster_name: self.cluster_name,
                node_name: self.node_name,
                proposal_source: self.source,
                materialization_shape: self.shape(),
            }),
    {
        HorizonMaterializationCommand {
            cluster_name: self.cluster_name.clone(),
            node_name: self.node_name.clone(),
            proposal_source: self.source.clone(),
            materialization_shape: self.materialization_shape(),
        }
    }

    /// What the materialized inputs describe.
    pub fn materialization_shape(&self) -> (r: MaterializationShape)
        ensures
            r == self.shape(),
    {
        match &self.action {
            DeployAction::Host(_) => match self.generation_artifact {
                GenerationArtifact::CompleteHost => MaterializationShape::CompleteHost,
                GenerationArtifact::BaseHost => MaterializationShape::BaseHost,
                GenerationArtifact::UserEnvironment => MaterializationShape::BaseHost,
            },
            DeployAction::UserEnvironment { user, .. } => MaterializationShape::UserEnvironment(
                UserEnvironmentMaterialization(user.clone()),
            ),
        }
    }

    /// The evaluation that `command` asks for is this cursor's.
    pub open spec fn is_eval(&self, command: NixEvalCommand) -> bool {
        &&& command.generation_identifier == self.generation_identifier
        &&& command.cluster_name == self.cluster_name
        &&& command.node_name == self.node_name
        &&& command.generation_artifact == self.generation_artifact
        &&& command.flake_reference == self.flake
        &&& self.source_revision matches Some(revision) ==> command.source_revision_record
            == revision
        &&& self.source_revision is None ==> {
            &&& command.source_revision_record.source_revision_policy
                == self.source_revision_policy
            &&& command.source_revision_record.requested_ref == self.requested_flake
            &&& command.source_revision_record.resolved_ref == self.flake
            &&& command.source_revision_record.string@ == Seq::<char>::empty()
        }
        &&& command.deployment_output_selector.0.0 == self.deployment_output_selector.0.0
        &&& command.flake_input_override_vector@ == self.input_overrides@
        &&& command.build_target == self.target()
    }

    /// The build that `command` asks for is this cursor's.
    pub open spec fn is_build(&self, command: NixBuildCommand, closure_path: ClosurePath) -> bool {
        &&& command.generation_identifier == self.generation_identifier
        &&& command.closure_path == closure_path
        &&& command.build_target == self.target()
        &&& command.extra_substituter_vector@ == self.substituters@
    }

    /// The copy that `command` asks for is this cursor's.
    pub open spec fn is_copy(&self, command: CopyClosureCommand, closure_path: ClosurePath) -> bool {
        &&& command.generation_identifier == self.generation_identifier
        &&& command.node_name == self.node_name
        &&& carries_route(command.deployment_transport, self.deployment_transport)
        &&& command.closure_path == closure_path
    }

    /// The activation that `command` asks for is this cursor's.
    pub open spec fn is_activation(
        &self,
        command: ActivateGenerationCommand,
        closure_path: ClosurePath,
    ) -> bool {
        &&& command.deployment_identifier == self.deployment_identifier
        &&& command.generation_identifier == self.generation_identifier
        &&& command.cluster_name == self.cluster_name
        &&& command.node_name == self.node_name
        &&& carries_route(command.deployment_transport, self.deployment_transport)
        &&& command.closure_path == closure_path
        &&& command.activation_effect == self.activation_effect
        &&& command.activation_backend == carried_backend(self.activation_backend)
        &&& command.activation_profile == self.action.profile()
    }

    /// Asks to evaluate the selected output.
    pub fn nix_eval_command(&self) -> (r: NixEvalCommand)
        ensures
            self.is_eval(r),
    {
        NixEvalCommand {
            generation_identifier: self.generation_identifier.clone(),
            cluster_name: self.cluster_name.clone(),
            node_name: self.node_name.clone(),
            generation_artifact: self.generation_artifact,
            flake_reference: self.flake.clone(),
            source_revision_record: self.source_revision_record(),
            deployment_output_selector: runtime_flow::DeploymentOutputSelector(
                runtime_flow::FlakeAttribute(self.deployment_output_selector.0.0.clone()),
            ),
            flake_input_override_vector: self.input_overrides.clone(),
            build_target: self.build_target(),
        }
    }

    /// Asks to realise the derivation at `closure_path`.
    pub fn nix_build_command(&self, closure_path: ClosurePath) -> (r: NixBuildCommand)
        ensures
            self.is_build(r, closure_path),
    {
        NixBuildCommand {
            generation_identifier: self.generation_identifier.clone(),
            closure_path,
            build_target: self.build_target(),
            extra_substituter_vector: self.substituters.clone(),
        }
    }

    /// Asks to copy `closure_path` to the target.
    pub fn copy_closure_command(&self, closure_path: ClosurePath) -> (r: CopyClosureCommand)
        ensures
            self.is_copy(r, closure_path),
    {
        CopyClosureCommand {
            generation_identifier: self.generation_identifier.clone(),
            node_name: self.node_name.clone(),
            deployment_transport: carry_route(&self.deployment_transport),
            closure_path,
        }
    }

    /// Asks to activate `closure_path` on the target.
    pub fn activate_generation_command(&self, closure_path: ClosurePath) -> (r:
        ActivateGenerationCommand)
        ensures
            self.is_activation(r, closure_path),
    {
        ActivateGenerationCommand {
            deployment_identifier: self.deployment_identifier.clone(),
            generation_identifier: self.generation_identifier.clone(),
            cluster_name: self.cluster_name.clone(),
            node_name: self.node_name.clone(),
            deployment_transport: carry_route(&self.deployment_transport),
            closure_path,
            activation_effect: self.activation_effect,
            activation_backend: match self.activation_backend {
                ActivationBackend::NixosSystemdBootV1
                    => runtime_flow::ActivationBackend::NixosSystemdBootV1,
                ActivationBackend::HomeManagerNixProfileV1
                    => runtime_flow::ActivationBackend::HomeManagerNixProfileV1,
            },
            activation_profile: self.action.activation_profile(),
        }
    }

    /// The resolved source; the requested one with an empty revision before the
    /// flake is resolved.
    pub fn source_revision_record(&self) -> (r: SourceRevisionRecord)
        ensures
            self.source_revision matches Some(revision) ==> r == revision,
            self.source_revision is None ==> {
                &&& r.source_revision_policy == self.source_revision_policy
                &&& r.requested_ref == self.requested_flake
                &&& r.resolved_ref == self.flake
                &&& r.string@ == Seq::<char>::empty()
            },
    {
        match &self.source_revision {
            Some(revision) => revision.clone(),
            None => SourceRevisionRecord {
                source_revision_policy: self.source_revision_policy,
                requested_ref: self.requested_flake.clone(),
                resolved_ref: self.flake.clone(),
                string: String::new(),
            },
        }
    }

    /// The facts to commit once the activation has succeeded.
    pub fn activation_commit(&self) -> (r: Option<ActivationCommit>)
        ensures
            r == self.commit(),
    {
        match (&self.activation_slot, &self.closure_path, &self.source_revision) {
            (Some(generation_slot), Some(closure_path), Some(source_revision)) => Some(
                ActivationCommit {
                    generation_identifier: self.generation_identifier.clone(),
                    cluster_name: self.cluster_name.clone(),
                    node_name: self.node_name.clone(),
                    deployment_environment: self.deployment_environment(),
                    generation_slot: *generation_slot,
                    closure_path: closure_path.clone(),
                    source_revision_record: source_revision.clone(),
                },
            ),
            _ => None,
        }
    }

    /// The event that announces `phase`.
    pub open spec fn announces(
        &self,
        event: DeploymentPhaseEvent,
        phase: DeploymentPhase,
        position: EventLogPosition,
    ) -> bool {
        &&& event.deployment_identifier == self.deployment_identifier
        &&& event.generation_identifier == self.generation_identifier
        &&& event.cluster_name == self.cluster_name
        &&& event.node_name == self.node_name
        &&& event.deployment_phase == phase
        &&& event.event_log_position == position
        &&& event.state_marker == self.accepted_marker
        &&& revision_view(event.optional_immutable_revision) == self.proven_revision()
        &&& event.optional_deployment_terminal is None
    }

    /// The event that announces `phase`. It names a revision only where the
    /// resolved source is a full commit identity.
    pub fn phase_event(
        &self,
        phase: DeploymentPhase,
        event_log_position: EventLogPosition,
    ) -> (r: DeploymentPhaseEvent)
        ensures
            self.announces(r, phase, event_log_position),
    {
        DeploymentPhaseEvent {
            deployment_identifier: self.deployment_identifier.clone(),
            generation_identifier: self.generation_identifier.clone(),
            cluster_name: self.cluster_name.clone(),
            node_name: self.node_name.clone(),
            deployment_phase: phase,
            event_log_position,
            state_marker: self.accepted_marker.clone(),
            optional_immutable_revision: match &self.source_revision {
                Some(revision) => immutable_revision(revision.string.as_str()),
                None => None,
            },
            optional_deployment_terminal: None,
        }
    }

    /// Whether the deployment targets the host or one user.
    pub fn deployment_environment(&self) -> (r: DeploymentEnvironment)
        ensures
            r == self.environment(),
    {
        match &self.action {
            DeployAction::Host(_) => DeploymentEnvironment::HostEnvironment,
            DeployAction::UserEnvironment { user, .. } => DeploymentEnvironment::UserEnvironment(
                user.clone(),
            ),
        }
    }

    /// The unit that a boot-once deployment is scheduled by.
    pub fn boot_once_unit(&self) -> (r: Option<String>)
        ensures
            match (r, self.unit()) {
                (Some(text), Some(expected)) => text@ == expected,
                (None, None) => true,
                _ => false,
            },
    {
        match &self.action {
            DeployAction::Host(HostDeployAction::ScheduleBootOnce) => Some(
                self.deployment_identifier.boot_once_unit_name(),
            ),
            _ => None,
        }
    }

    /// The durable job of this cursor in `phase`.
    pub fn deploy_job(&self, phase: DeployJobPhase) -> (r: DeployJob)
        ensures
            r@ == self.job(phase),
    {
        let mut overrides: Vec<PersistedFlakeInputOverride> = Vec::new();
        let mut i: usize = 0;
        while i < self.input_overrides.len()
            invariant
                i <= self.input_overrides@.len(),
                overrides@.len() == i,
                forall|k: int|
                    0 <= k < i ==> #[trigger] overrides@[k] == persisted_override(
                        self.input_overrides@[k],
                    ),
            decreases self.input_overrides@.len() - i,
        {
            overrides.push(
                PersistedFlakeInputOverride {
                    string: self.input_overrides[i].string.clone(),
                    persisted_flake_input_reference: PersistedFlakeInputReference {
                        url: self.input_overrides[i].flake_input_reference.url.clone(),
                        nix_archive_hash: self.input_overrides[i].flake_input_reference.nix_archive_hash.clone(),
                    },
                },
            );
            i = i + 1;
        }
        assert(overrides@ =~= persisted_overrides(self.input_overrides@));
        let (resolved_reference, resolved_revision) = match &self.source_revision {
            Some(revision) => (Some(revision.resolved_ref.clone()), Some(revision.string.clone())),
            None => (None, None),
        };
        DeployJob {
            deployment_identifier: self.deployment_identifier.clone(),
            generation_identifier: self.generation_identifier.clone(),
            cluster_name: self.cluster_name.clone(),
            node_name: self.node_name.clone(),
            deploy_job_phase: phase,
            optional_closure_path: self.closure_path.clone(),
            source_revision_policy: self.source_revision_policy,
            flake_reference: self.requested_flake.clone(),
            optional_flake_reference: resolved_reference,
            resolved_revision,
            deployment_transport: self.deployment_transport.clone(),
            deployment_input_mode: self.deployment_input_mode,
            deployment_output_selector: self.deployment_output_selector.clone(),
            activation_backend: self.activation_backend,
            optional_nix_builder_spec: self.builder.clone(),
            boot_once_unit: self.boot_once_unit(),
            optional_generation_slot: self.activation_slot,
            persisted_flake_input_override_vector: overrides,
            deploy_resume_stage: self.resume_stage,
            optional_phase_receipt: self.phase_receipt.clone(),
            optional_deploy_submission: Some(self.submission.clone()),
        }
    }
}

// ---- persisted jobs ---------------------------------------------------------------------

/// What a restarted daemon does with a persisted job.
#[derive(Debug, PartialEq, Eq)]
pub enum DeployJobResumption {
    /// The activation was in flight: adopt the outcome of its unit, where it has one.
    PollActivationUnit { unit: Option<String> },
    /// Nothing was put into effect yet: drive the pipeline again.
    RestartPipeline,
    /// The deployment has ended: drop the row.
    AlreadyTerminal,
}

/// Whether a submission switches a host at once through the boot-loader backend.
pub open spec fn is_host_switch(submission: Option<DeploySubmission>) -> bool {
    submission matches Some(DeploySubmission::Host(host)) && host.host_deploy_action
        == HostDeployAction::ActivateNow && host.activation_backend
        == ActivationBackend::NixosSystemdBootV1
}

impl DeployJob {
    /// Whether the persisted job may be recovered as a switch of the daemon's host.
    pub open spec fn is_recoverable_switch(&self) -> bool {
        self.activation_backend == ActivationBackend::NixosSystemdBootV1 && is_host_switch(
            self.optional_deploy_submission,
        )
    }

    /// The live system profile is this job's closure.
    pub open spec fn is_live_profile(&self, system_closure: Option<&str>) -> bool {
        match (self.optional_closure_path, system_closure) {
            (Some(closure_path), Some(text)) => closure_path@ == text@,
            _ => false,
        }
    }

    /// What a restarted daemon does with this job, by its phase.
    pub open spec fn resumes_as(&self) -> DeployJobResumption {
        match self.deploy_job_phase {
            DeployJobPhase::Activating => DeployJobResumption::PollActivationUnit {
                unit: self.boot_once_unit,
            },
            DeployJobPhase::Submitted | DeployJobPhase::Building | DeployJobPhase::Built
            | DeployJobPhase::Copying => DeployJobResumption::RestartPipeline,
            DeployJobPhase::Activated | DeployJobPhase::Failed
                => DeployJobResumption::AlreadyTerminal,
        }
    }

    /// What a restarted daemon does with this job.
    pub fn resumption(&self) -> (r: DeployJobResumption)
        ensures
            r == self.resumes_as(),
    {
        match self.deploy_job_phase {
            DeployJobPhase::Activating => DeployJobResumption::PollActivationUnit {
                unit: self.boot_once_unit.clone(),
            },
            DeployJobPhase::Submitted | DeployJobPhase::Building | DeployJobPhase::Built
            | DeployJobPhase::Copying => DeployJobResumption::RestartPipeline,
            DeployJobPhase::Activated | DeployJobPhase::Failed
                => DeployJobResumption::AlreadyTerminal,
        }
    }

    /// `generation` and `root` are what a switch to this job's closure leaves.
    pub open spec fn leaves(&self, generation: LiveGeneration, root: GcRoot) -> bool {
        &&& generation.deployment_identifier == self.deployment_identifier
        &&& generation.generation_identifier == self.generation_identifier
        &&& generation.cluster_name == self.cluster_name
        &&& generation.node_name == self.node_name
        &&& generation.deployment_environment == DeploymentEnvironment::HostEnvironment
        &&& generation.generation_artifact == GenerationArtifact::CompleteHost
        &&& generation.activation_effect == ActivationEffect::LiveActivation
        &&& generation.generation_slot == GenerationSlot::Current
        &&& generation.closure_path == self.optional_closure_path->0
        &&& generation.source_revision_record.source_revision_policy
            == self.source_revision_policy
        &&& generation.source_revision_record.requested_ref == self.flake_reference
        &&& generation.source_revision_record.resolved_ref == (
        match self.optional_flake_reference {
            Some(reference) => reference,
            None => self.flake_reference,
        })
        &&& generation.source_revision_record.string@ == (match self.resolved_revision {
            Some(revision) => revision@,
            None => Seq::empty(),
        })
        &&& root == (GcRoot {
            generation_identifier: self.generation_identifier,
            cluster_name: self.cluster_name,
            node_name: self.node_name,
            generation_slot: GenerationSlot::Current,
            closure_path: self.optional_closure_path->0,
            optional_pin_label: None,
        })
    }

    /// The generation and root of a switch of the daemon's own host that the
    /// daemon could not record, because the switch restarted it. Recovered only
    /// where the persisted submission is such a switch and the live system
    /// profile is exactly the job's closure.
    pub fn self_switch_activation_record(
        &self,
        daemon_host_system_closure: Option<&str>,
    ) -> (r: Option<(LiveGeneration, GcRoot)>)
        ensures
            r is Some <==> self.is_recoverable_switch() && self.is_live_profile(
                daemon_host_system_closure,
            ),
            r matches Some((generation, root)) ==> self.leaves(generation, root),
    {
        if !self.is_persisted_host_activate_now() {
            return None;
        }
        let closure_path = match &self.optional_closure_path {
            Some(closure_path) => closure_path.clone(),
            None => {
                return None;
            },
        };
        match daemon_host_system_closure {
            Some(text) => {
                if text.to_owned() != closure_path.0 {
                    return None;
                }
            },
            None => {
                return None;
            },
        }
        let source_revision_record = SourceRevisionRecord {
            source_revision_policy: self.source_revision_policy,
            requested_ref: self.flake_reference.clone(),
            resolved_ref: match &self.optional_flake_reference {
                Some(reference) => reference.clone(),
                None => self.flake_reference.clone(),
            },
            string: match &self.resolved_revision {
                Some(revision) => revision.clone(),
                None => String::new(),
            },
        };
        let generation = LiveGeneration {
            deployment_identifier: self.deployment_identifier.clone(),
            generation_identifier: self.generation_identifier.clone(),
            cluster_name: self.cluster_name.clone(),
            node_name: self.node_name.clone(),
            deployment_environment: DeploymentEnvironment::HostEnvironment,
            generation_artifact: GenerationArtifact::CompleteHost,
            activation_effect: ActivationEffect::LiveActivation,
            generation_slot: GenerationSlot::Current,
            closure_path: closure_path.clone(),
            source_revision_record,
        };
        let root = GcRoot {
            generation_identifier: self.generation_identifier.clone(),
            cluster_name: self.cluster_name.clone(),
            node_name: self.node_name.clone(),
            generation_slot: GenerationSlot::Current,
            closure_path,
            optional_pin_label: None,
        };
        Some((generation, root))
    }

    fn is_persisted_host_activate_now(&self) -> (r: bool)
        ensures
            r == self.is_recoverable_switch(),
    {
        self.activation_backend == ActivationBackend::NixosSystemdBootV1
            && match &self.optional_deploy_submission {
            Some(DeploySubmission::Host(host)) => host.host_deploy_action
                == HostDeployAction::ActivateNow && host.activation_backend
                == ActivationBackend::NixosSystemdBootV1,
            _ => false,
        }
    }
}

// ---- laws ---------------------------------------------------------------------------------

/// Overrides survive a restart: what a job keeps is restored as it was.
pub proof fn law_overrides_survive_a_restart(values: Seq<FlakeInputOverride>)
    ensures
        restored_overrides(persisted_overrides(values)) == values,
{
    assert(restored_overrides(persisted_overrides(values)) =~= values);
}

/// The unit that a boot-once job is resumed by is the one that its activation starts.
pub proof fn law_resumed_unit_is_the_activated_unit(pipeline: DeployPipeline, phase: DeployJobPhase)
    requires
        pipeline.action == DeployAction::Host(HostDeployAction::ScheduleBootOnce),
    ensures
        pipeline.job(phase).boot_once_unit == Some(
            boot_once_unit_text(pipeline.deployment_identifier.0),
        ),
{
}

/// A commit is made only of a closure, a slot and a resolved source that are all known.
pub proof fn law_commits_are_complete(pipeline: DeployPipeline)
    ensures
        pipeline.commit() is Some <==> pipeline.activation_slot is Some
            && pipeline.closure_path is Some && pipeline.source_revision is Some,
        pipeline.commit() matches Some(commit) ==> Some(commit.closure_path)
            == pipeline.closure_path && Some(commit.generation_slot) == pipeline.activation_slot
            && Some(commit.source_revision_record) == pipeline.source_revision,
{
}

} // verus!
