//! Admission rules of a deployment, and how refusals and failures are reported.

use crate::runtime_flow;
use crate::runtime_flow::EffectStage;
use crate::runtime_model::{
    ActivationBackend, DeployJobPhase, DeploySubmission, DeploymentFailureStage,
    DeploymentLifecycle, DeploymentPhase, DeploymentTerminalReason, FailureStage,
    HostDeployAction, PinRejectionReason, RejectionReason, RetireRejectionReason,
    SourceRevisionPolicy, StoredTestRun, TestRejectionReason, TestRunRecord,
    UnpinRejectionReason, UserEnvironmentAction,
};
use crate::schema_runtime::flake_policy::{policy_accepts, FlakeReferencePolicy};
use crate::schema_runtime::meta::DeployRejectionReason;
use crate::schema_runtime::ssh_target::{
    authority_of, is_ssh_destination, is_store_uri, is_unspaced, login_of, unspaced,
    RemoteUserActivationAuthority, SshTarget,
};
use crate::text::{ascii_control, chars_of, is_ascii_control};
use vstd::prelude::*;

verus! {

// ---- admission -----------------------------------------------------------------

/// A selector that is nonempty and holds neither blanks nor control characters.
pub open spec fn is_selector(s: Seq<char>) -> bool {
    s.len() > 0 && is_unspaced(s)
}

/// A builder specification that is nonempty and holds no control character.
pub open spec fn is_builder_spec(s: Seq<char>) -> bool {
    s.len() > 0 && forall|i: int| 0 <= i < s.len() ==> !is_ascii_control(#[trigger] s[i])
}

impl DeploySubmission {
    /// Whether the backend is the one of the deployment's environment.
    pub open spec fn has_matching_backend(&self) -> bool {
        match self {
            DeploySubmission::Host(host) => host.activation_backend
                == ActivationBackend::NixosSystemdBootV1,
            DeploySubmission::UserEnvironment(user) => user.activation_backend
                == ActivationBackend::HomeManagerNixProfileV1,
        }
    }

    /// The selected flake output.
    pub open spec fn selector(&self) -> Seq<char> {
        match self {
            DeploySubmission::Host(host) => host.deployment_output_selector@,
            DeploySubmission::UserEnvironment(user) => user.deployment_output_selector@,
        }
    }

    /// The named builders, where there are any.
    pub open spec fn builder(&self) -> Option<Seq<char>> {
        match self {
            DeploySubmission::Host(host) => match host.optional_nix_builder_spec {
                Some(spec) => Some(spec@),
                None => None,
            },
            DeploySubmission::UserEnvironment(user) => match user.optional_nix_builder_spec {
                Some(spec) => Some(spec@),
                None => None,
            },
        }
    }

    /// Where Nix copies to.
    pub open spec fn store_uri(&self) -> Seq<char> {
        match self {
            DeploySubmission::Host(host) => host.deployment_transport.nix_store_uri@,
            DeploySubmission::UserEnvironment(user) => user.deployment_transport.nix_store_uri@,
        }
    }

    /// Where SSH activates.
    pub open spec fn destination(&self) -> Seq<char> {
        match self {
            DeploySubmission::Host(host) => host.deployment_transport.ssh_destination@,
            DeploySubmission::UserEnvironment(user) => user.deployment_transport.ssh_destination@,
        }
    }

    /// The requested flake.
    pub open spec fn flake(&self) -> Seq<char> {
        match self {
            DeploySubmission::Host(host) => host.flake_reference@,
            DeploySubmission::UserEnvironment(user) => user.flake_reference@,
        }
    }

    /// The source revision policy.
    pub open spec fn policy(&self) -> SourceRevisionPolicy {
        match self {
            DeploySubmission::Host(host) => host.source_revision_policy,
            DeploySubmission::UserEnvironment(user) => user.source_revision_policy,
        }
    }

    /// Whether the SSH login may do what the action asks for. A user environment
    /// that is put into effect needs a name that the cluster admits, and a login
    /// that is the user's or root's.
    pub open spec fn has_authority(&self, user_name_admitted: bool) -> bool {
        match self {
            DeploySubmission::Host(_) => true,
            DeploySubmission::UserEnvironment(user) => user.user_environment_action
                == UserEnvironmentAction::Realize || (user_name_admitted && authority_of(
                login_of(user.deployment_transport.ssh_destination@),
                user.user_name@,
            ) != RemoteUserActivationAuthority::UnprivilegedMismatch),
        }
    }

    /// Everything that the request says of its route can be used as it stands.
    pub open spec fn has_valid_routing(&self, user_name_admitted: bool) -> bool {
        &&& self.has_matching_backend()
        &&& is_selector(self.selector())
        &&& self.builder() matches Some(spec) ==> is_builder_spec(spec)
        &&& is_store_uri(self.store_uri())
        &&& is_ssh_destination(self.destination())
        &&& self.has_authority(user_name_admitted)
    }
}

/// What was found out about a request's surroundings before it is judged.
#[derive(Clone, Copy, Debug, PartialEq, Eq, Structural)]
pub struct AdmissionEvidence {
    /// The proposal artifact can be read and is a cluster proposal.
    pub proposal_available: bool,
    /// The cluster's naming rules admit the user name of a user environment.
    pub user_name_admitted: bool,
}

/// The first rule that a request breaks: its routing, its proposal, its flake reference.
pub open spec fn admission_fault(
    request: DeploySubmission,
    evidence: AdmissionEvidence,
) -> Option<DeployRejectionReason> {
    if !request.has_valid_routing(evidence.user_name_admitted) {
        Some(DeployRejectionReason::InvalidDeploymentRouting)
    } else if !evidence.proposal_available {
        Some(DeployRejectionReason::ProposalSourceUnreachable)
    } else if !policy_accepts(request.policy(), request.flake()) {
        Some(DeployRejectionReason::FlakeReferenceMalformed)
    } else {
        None
    }
}

/// Why the action is not supported: every declared action is.
pub fn unsupported_deploy_reason(request: &DeploySubmission) -> (r: Option<DeployRejectionReason>)
    ensures
        r is None,
{
    let supported = match request {
        DeploySubmission::Host(host) => match host.host_deploy_action {
            HostDeployAction::Evaluate | HostDeployAction::Realize
            | HostDeployAction::SetBootProfile | HostDeployAction::ActivateNow
            | HostDeployAction::TestActivation | HostDeployAction::ScheduleBootOnce => true,
        },
        DeploySubmission::UserEnvironment(user) => match user.user_environment_action {
            UserEnvironmentAction::Realize | UserEnvironmentAction::SetProfile
            | UserEnvironmentAction::ActivateNow => true,
        },
    };
    if supported {
        None
    } else {
        Some(DeployRejectionReason::UnsupportedDeployAction)
    }
}

/// Why the flake reference is refused under the request's policy.
pub fn source_revision_policy_rejection(request: &DeploySubmission) -> (r: Option<
    DeployRejectionReason,
>)
    ensures
        r == (if policy_accepts(request.policy(), request.flake()) {
            None
        } else {
            Some(DeployRejectionReason::FlakeReferenceMalformed)
        }),
{
    let (policy, flake) = match request {
        DeploySubmission::Host(host) => (
            host.source_revision_policy,
            host.flake_reference.0.as_str(),
        ),
        DeploySubmission::UserEnvironment(user) => (
            user.source_revision_policy,
            user.flake_reference.0.as_str(),
        ),
    };
    let accepted = match policy {
        SourceRevisionPolicy::ResolveAndRecord => FlakeReferencePolicy::new(
            flake,
        ).is_resolve_and_record(),
        SourceRevisionPolicy::RequireImmutable => FlakeReferencePolicy::new(flake).is_immutable(),
    };
    if accepted {
        None
    } else {
        Some(DeployRejectionReason::FlakeReferenceMalformed)
    }
}

fn is_builder_text(v: &Vec<char>) -> (r: bool)
    ensures
        r == is_builder_spec(v@),
{
    if v.len() == 0 {
        return false;
    }
    let mut i: usize = 0;
    while i < v.len()
        invariant
            i <= v@.len(),
            forall|j: int| 0 <= j < i ==> !is_ascii_control(#[trigger] v@[j]),
        decreases v@.len() - i,
    {
        if ascii_control(v[i]) {
            assert(is_ascii_control(v@[i as int]));
            return false;
        }
        i = i + 1;
    }
    true
}

/// Why the request's route is refused.
pub fn deployment_routing_rejection(
    request: &DeploySubmission,
    user_name_admitted: bool,
) -> (r: Option<DeployRejectionReason>)
    ensures
        r == (if request.has_valid_routing(user_name_admitted) {
            None
        } else {
            Some(DeployRejectionReason::InvalidDeploymentRouting)
        }),
{
    let (transport, selector, builder) = match request {
        DeploySubmission::Host(host) => (
            &host.deployment_transport,
            &host.deployment_output_selector,
            &host.optional_nix_builder_spec,
        ),
        DeploySubmission::UserEnvironment(user) => (
            &user.deployment_transport,
            &user.deployment_output_selector,
            &user.optional_nix_builder_spec,
        ),
    };
    let valid_backend = match request {
        DeploySubmission::Host(host) => host.activation_backend
            == ActivationBackend::NixosSystemdBootV1,
        DeploySubmission::UserEnvironment(user) => user.activation_backend
            == ActivationBackend::HomeManagerNixProfileV1,
    };
    let selector_chars = chars_of(selector.0.0.as_str());
    let valid_selector = selector_chars.len() > 0 && unspaced(&selector_chars);
    let valid_builder = match builder {
        Some(specification) => is_builder_text(&chars_of(specification.0.as_str())),
        None => true,
    };
    let target = SshTarget::from_transport(
        &runtime_flow::DeploymentTransport {
            nix_store_uri: runtime_flow::NixStoreUri(transport.nix_store_uri.0.clone()),
            ssh_destination: runtime_flow::SshDestination(transport.ssh_destination.0.clone()),
        },
    );
    let valid_authority = match (request, &target) {
        (DeploySubmission::Host(_), _) => true,
        (DeploySubmission::UserEnvironment(user), Ok(target)) => user.user_environment_action
            == UserEnvironmentAction::Realize || (user_name_admitted
            && target.user_environment_activation_authority(user.user_name.0.as_str())
            != RemoteUserActivationAuthority::UnprivilegedMismatch),
        (DeploySubmission::UserEnvironment(user), Err(_)) => user.user_environment_action
            == UserEnvironmentAction::Realize,
    };
    if valid_backend && valid_selector && valid_builder && target.is_ok() && valid_authority {
        None
    } else {
        Some(DeployRejectionReason::InvalidDeploymentRouting)
    }
}

/// Why the proposal is refused.
pub fn proposal_source_rejection(proposal_available: bool) -> (r: Option<DeployRejectionReason>)
    ensures
        r == (if proposal_available {
            None
        } else {
            Some(DeployRejectionReason::ProposalSourceUnreachable)
        }),
{
    if proposal_available {
        None
    } else {
        Some(DeployRejectionReason::ProposalSourceUnreachable)
    }
}

/// The first rule that a request breaks.
pub fn admission_rejection(request: &DeploySubmission, evidence: AdmissionEvidence) -> (r: Option<
    DeployRejectionReason,
>)
    ensures
        r == admission_fault(*request, evidence),
{
    if let Some(reason) = unsupported_deploy_reason(request) {
        return Some(reason);
    }
    if let Some(reason) = deployment_routing_rejection(request, evidence.user_name_admitted) {
        return Some(reason);
    }
    if let Some(reason) = proposal_source_rejection(evidence.proposal_available) {
        return Some(reason);
    }
    source_revision_policy_rejection(request)
}

// ---- reasons ---------------------------------------------------------------------

/// The reason a refused test write is reported with.
pub open spec fn test_reason_of(reason: RejectionReason) -> TestRejectionReason {
    match reason {
        RejectionReason::ClusterUnknown => TestRejectionReason::ClusterUnknown,
        RejectionReason::NodeUnknown => TestRejectionReason::NodeUnknown,
        _ => TestRejectionReason::InternalError,
    }
}

/// The reason a refused test write is reported with.
pub fn test_reason(reason: RejectionReason) -> (r: TestRejectionReason)
    ensures
        r == test_reason_of(reason),
{
    match reason {
        RejectionReason::ClusterUnknown => TestRejectionReason::ClusterUnknown,
        RejectionReason::NodeUnknown => TestRejectionReason::NodeUnknown,
        _ => TestRejectionReason::InternalError,
    }
}

/// The reason a refused pin is reported with.
pub open spec fn pin_reason_of(reason: RejectionReason) -> PinRejectionReason {
    match reason {
        RejectionReason::GenerationUnknown => PinRejectionReason::GenerationUnknown,
        RejectionReason::NodeUnknown => PinRejectionReason::NodeUnknown,
        RejectionReason::PinLabelInUse => PinRejectionReason::PinLabelInUse,
        _ => PinRejectionReason::InternalError,
    }
}

/// The reason a refused pin is reported with.
pub fn pin_reason(reason: RejectionReason) -> (r: PinRejectionReason)
    ensures
        r == pin_reason_of(reason),
{
    match reason {
        RejectionReason::GenerationUnknown => PinRejectionReason::GenerationUnknown,
        RejectionReason::NodeUnknown => PinRejectionReason::NodeUnknown,
        RejectionReason::PinLabelInUse => PinRejectionReason::PinLabelInUse,
        _ => PinRejectionReason::InternalError,
    }
}

/// The reason a refused unpin is reported with.
pub open spec fn unpin_reason_of(reason: RejectionReason) -> UnpinRejectionReason {
    match reason {
        RejectionReason::PinLabelUnknown => UnpinRejectionReason::PinLabelUnknown,
        RejectionReason::NodeUnknown => UnpinRejectionReason::NodeUnknown,
        _ => UnpinRejectionReason::GenerationNotPinned,
    }
}

/// The reason a refused unpin is reported with.
pub fn unpin_reason(reason: RejectionReason) -> (r: UnpinRejectionReason)
    ensures
        r == unpin_reason_of(reason),
{
    match reason {
        RejectionReason::PinLabelUnknown => UnpinRejectionReason::PinLabelUnknown,
        RejectionReason::NodeUnknown => UnpinRejectionReason::NodeUnknown,
        _ => UnpinRejectionReason::GenerationNotPinned,
    }
}

/// The reason a refused retirement is reported with.
pub open spec fn retire_reason_of(reason: RejectionReason) -> RetireRejectionReason {
    match reason {
        RejectionReason::GenerationUnknown => RetireRejectionReason::GenerationUnknown,
        RejectionReason::NodeUnknown => RetireRejectionReason::NodeUnknown,
        RejectionReason::GenerationActive => RetireRejectionReason::GenerationActive,
        RejectionReason::GenerationPinned => RetireRejectionReason::GenerationPinned,
        _ => RetireRejectionReason::InternalError,
    }
}

/// The reason a refused retirement is reported with.
pub fn retire_reason(reason: RejectionReason) -> (r: RetireRejectionReason)
    ensures
        r == retire_reason_of(reason),
{
    match reason {
        RejectionReason::GenerationUnknown => RetireRejectionReason::GenerationUnknown,
        RejectionReason::NodeUnknown => RetireRejectionReason::NodeUnknown,
        RejectionReason::GenerationActive => RetireRejectionReason::GenerationActive,
        RejectionReason::GenerationPinned => RetireRejectionReason::GenerationPinned,
        _ => RetireRejectionReason::InternalError,
    }
}

/// The reason a refused deployment write is reported with.
pub open spec fn deploy_reason_of(reason: RejectionReason) -> DeployRejectionReason {
    match reason {
        RejectionReason::ClusterUnknown => DeployRejectionReason::ClusterUnknown,
        RejectionReason::NodeUnknown => DeployRejectionReason::NodeUnknown,
        RejectionReason::ProposalSourceUnreachable => DeployRejectionReason::ProposalSourceUnreachable,
        _ => DeployRejectionReason::InternalError,
    }
}

/// The reason a refused deployment write is reported with.
pub fn deploy_reason(reason: RejectionReason) -> (r: DeployRejectionReason)
    ensures
        r == deploy_reason_of(reason),
{
    match reason {
        RejectionReason::ClusterUnknown => DeployRejectionReason::ClusterUnknown,
        RejectionReason::NodeUnknown => DeployRejectionReason::NodeUnknown,
        RejectionReason::ProposalSourceUnreachable => DeployRejectionReason::ProposalSourceUnreachable,
        _ => DeployRejectionReason::InternalError,
    }
}

/// The public form of a reason.
pub open spec fn terminal_reason_of(reason: DeployRejectionReason) -> DeploymentTerminalReason {
    match reason {
        DeployRejectionReason::ClusterUnknown => DeploymentTerminalReason::ClusterUnknown,
        DeployRejectionReason::NodeUnknown => DeploymentTerminalReason::NodeUnknown,
        DeployRejectionReason::ProposalSourceUnreachable => DeploymentTerminalReason::ProposalSourceUnreachable,
        DeployRejectionReason::FlakeReferenceMalformed => DeploymentTerminalReason::FlakeReferenceMalformed,
        DeployRejectionReason::InvalidDeploymentRouting => DeploymentTerminalReason::InvalidDeploymentRouting,
        DeployRejectionReason::BuilderUnreachable => DeploymentTerminalReason::BuilderUnreachable,
        DeployRejectionReason::DeploymentInFlight => DeploymentTerminalReason::DeploymentInFlight,
        DeployRejectionReason::UnsupportedDeployAction => DeploymentTerminalReason::UnsupportedDeployAction,
        DeployRejectionReason::InternalError => DeploymentTerminalReason::InternalError,
        DeployRejectionReason::ActivationFailed => DeploymentTerminalReason::ActivationFailed,
    }
}

/// The public form of a reason.
pub fn terminal_reason(reason: DeployRejectionReason) -> (r: DeploymentTerminalReason)
    ensures
        r == terminal_reason_of(reason),
{
    match reason {
        DeployRejectionReason::ClusterUnknown => DeploymentTerminalReason::ClusterUnknown,
        DeployRejectionReason::NodeUnknown => DeploymentTerminalReason::NodeUnknown,
        DeployRejectionReason::ProposalSourceUnreachable => DeploymentTerminalReason::ProposalSourceUnreachable,
        DeployRejectionReason::FlakeReferenceMalformed => DeploymentTerminalReason::FlakeReferenceMalformed,
        DeployRejectionReason::InvalidDeploymentRouting => DeploymentTerminalReason::InvalidDeploymentRouting,
        DeployRejectionReason::BuilderUnreachable => DeploymentTerminalReason::BuilderUnreachable,
        DeployRejectionReason::DeploymentInFlight => DeploymentTerminalReason::DeploymentInFlight,
        DeployRejectionReason::UnsupportedDeployAction => DeploymentTerminalReason::UnsupportedDeployAction,
        DeployRejectionReason::InternalError => DeploymentTerminalReason::InternalError,
        DeployRejectionReason::ActivationFailed => DeploymentTerminalReason::ActivationFailed,
    }
}

/// The public form of a failed effect.
pub open spec fn deployment_failure_stage_of(stage: EffectStage) -> DeploymentFailureStage {
    match stage {
        EffectStage::FlakeAuth => DeploymentFailureStage::FlakeAuth,
        EffectStage::MaterializeHorizon => DeploymentFailureStage::MaterializeHorizon,
        EffectStage::Eval => DeploymentFailureStage::Eval,
        EffectStage::Build => DeploymentFailureStage::Build,
        EffectStage::CopyClosure => DeploymentFailureStage::CopyClosure,
        EffectStage::Activate => DeploymentFailureStage::Activate,
        EffectStage::Gc => DeploymentFailureStage::Daemon,
        EffectStage::HermeticCheck => DeploymentFailureStage::Daemon,
        EffectStage::BringUpTestVm => DeploymentFailureStage::Daemon,
        EffectStage::TearDownTestVm => DeploymentFailureStage::Daemon,
    }
}

/// The public form of a failed effect.
pub fn deployment_failure_stage(stage: EffectStage) -> (r: DeploymentFailureStage)
    ensures
        r == deployment_failure_stage_of(stage),
{
    match stage {
        EffectStage::FlakeAuth => DeploymentFailureStage::FlakeAuth,
        EffectStage::MaterializeHorizon => DeploymentFailureStage::MaterializeHorizon,
        EffectStage::Eval => DeploymentFailureStage::Eval,
        EffectStage::Build => DeploymentFailureStage::Build,
        EffectStage::CopyClosure => DeploymentFailureStage::CopyClosure,
        EffectStage::Activate => DeploymentFailureStage::Activate,
        EffectStage::Gc => DeploymentFailureStage::Daemon,
        EffectStage::HermeticCheck => DeploymentFailureStage::Daemon,
        EffectStage::BringUpTestVm => DeploymentFailureStage::Daemon,
        EffectStage::TearDownTestVm => DeploymentFailureStage::Daemon,
    }
}

/// The reason that a failed effect is reported with.
pub open spec fn deploy_failure_reason_of(stage: EffectStage) -> DeployRejectionReason {
    match stage {
        EffectStage::FlakeAuth => DeployRejectionReason::ProposalSourceUnreachable,
        EffectStage::MaterializeHorizon => DeployRejectionReason::ProposalSourceUnreachable,
        EffectStage::Eval => DeployRejectionReason::FlakeReferenceMalformed,
        EffectStage::Build => DeployRejectionReason::FlakeReferenceMalformed,
        EffectStage::CopyClosure => DeployRejectionReason::BuilderUnreachable,
        EffectStage::Activate => DeployRejectionReason::ActivationFailed,
        EffectStage::Gc => DeployRejectionReason::DeploymentInFlight,
        EffectStage::HermeticCheck => DeployRejectionReason::InternalError,
        EffectStage::BringUpTestVm => DeployRejectionReason::InternalError,
        EffectStage::TearDownTestVm => DeployRejectionReason::InternalError,
    }
}

/// The reason that a failed effect is reported with.
pub fn deploy_failure_reason(stage: EffectStage) -> (r: DeployRejectionReason)
    ensures
        r == deploy_failure_reason_of(stage),
{
    match stage {
        EffectStage::FlakeAuth => DeployRejectionReason::ProposalSourceUnreachable,
        EffectStage::MaterializeHorizon => DeployRejectionReason::ProposalSourceUnreachable,
        EffectStage::Eval => DeployRejectionReason::FlakeReferenceMalformed,
        EffectStage::Build => DeployRejectionReason::FlakeReferenceMalformed,
        EffectStage::CopyClosure => DeployRejectionReason::BuilderUnreachable,
        EffectStage::Activate => DeployRejectionReason::ActivationFailed,
        EffectStage::Gc => DeployRejectionReason::DeploymentInFlight,
        EffectStage::HermeticCheck => DeployRejectionReason::InternalError,
        EffectStage::BringUpTestVm => DeployRejectionReason::InternalError,
        EffectStage::TearDownTestVm => DeployRejectionReason::InternalError,
    }
}

/// The step of a test that a failed effect stands for.
pub open spec fn test_failure_stage_of(stage: EffectStage) -> FailureStage {
    match stage {
        EffectStage::HermeticCheck => FailureStage::HermeticCheck,
        EffectStage::BringUpTestVm => FailureStage::BringUp,
        EffectStage::TearDownTestVm => FailureStage::TearDown,
        EffectStage::Activate => FailureStage::Assert,
        _ => FailureStage::Deploy,
    }
}

/// The step of a test that a failed effect stands for.
pub fn test_failure_stage(stage: EffectStage) -> (r: FailureStage)
    ensures
        r == test_failure_stage_of(stage),
{
    match stage {
        EffectStage::HermeticCheck => FailureStage::HermeticCheck,
        EffectStage::BringUpTestVm => FailureStage::BringUp,
        EffectStage::TearDownTestVm => FailureStage::TearDown,
        EffectStage::Activate => FailureStage::Assert,
        _ => FailureStage::Deploy,
    }
}

/// The lifecycle that a phase stands for.
pub open spec fn deployment_lifecycle_of(phase: DeploymentPhase) -> DeploymentLifecycle {
    match phase {
        DeploymentPhase::Submitted => DeploymentLifecycle::Submitted,
        DeploymentPhase::Building => DeploymentLifecycle::Building,
        DeploymentPhase::Built => DeploymentLifecycle::Built,
        DeploymentPhase::Copying => DeploymentLifecycle::Copying,
        DeploymentPhase::Activating => DeploymentLifecycle::Activating,
        DeploymentPhase::Activated => DeploymentLifecycle::Activated,
        DeploymentPhase::Completed => DeploymentLifecycle::Completed,
        DeploymentPhase::Rejected => DeploymentLifecycle::Rejected,
        DeploymentPhase::Failed => DeploymentLifecycle::Failed,
    }
}

/// The lifecycle that a phase stands for.
pub fn deployment_lifecycle(phase: DeploymentPhase) -> (r: DeploymentLifecycle)
    ensures
        r == deployment_lifecycle_of(phase),
{
    match phase {
        DeploymentPhase::Submitted => DeploymentLifecycle::Submitted,
        DeploymentPhase::Building => DeploymentLifecycle::Building,
        DeploymentPhase::Built => DeploymentLifecycle::Built,
        DeploymentPhase::Copying => DeploymentLifecycle::Copying,
        DeploymentPhase::Activating => DeploymentLifecycle::Activating,
        DeploymentPhase::Activated => DeploymentLifecycle::Activated,
        DeploymentPhase::Completed => DeploymentLifecycle::Completed,
        DeploymentPhase::Rejected => DeploymentLifecycle::Rejected,
        DeploymentPhase::Failed => DeploymentLifecycle::Failed,
    }
}

/// The progress of an in-flight deployment that a phase stands for.
pub open spec fn deploy_job_phase_of(phase: DeploymentPhase) -> DeployJobPhase {
    match phase {
        DeploymentPhase::Submitted => DeployJobPhase::Submitted,
        DeploymentPhase::Building => DeployJobPhase::Building,
        DeploymentPhase::Built => DeployJobPhase::Built,
        DeploymentPhase::Copying => DeployJobPhase::Copying,
        DeploymentPhase::Activating => DeployJobPhase::Activating,
        DeploymentPhase::Activated => DeployJobPhase::Activated,
        DeploymentPhase::Completed => DeployJobPhase::Failed,
        DeploymentPhase::Rejected => DeployJobPhase::Failed,
        DeploymentPhase::Failed => DeployJobPhase::Failed,
    }
}

/// The progress of an in-flight deployment that a phase stands for.
pub fn deploy_job_phase(phase: DeploymentPhase) -> (r: DeployJobPhase)
    ensures
        r == deploy_job_phase_of(phase),
{
    match phase {
        DeploymentPhase::Submitted => DeployJobPhase::Submitted,
        DeploymentPhase::Building => DeployJobPhase::Building,
        DeploymentPhase::Built => DeployJobPhase::Built,
        DeploymentPhase::Copying => DeployJobPhase::Copying,
        DeploymentPhase::Activating => DeployJobPhase::Activating,
        DeploymentPhase::Activated => DeployJobPhase::Activated,
        DeploymentPhase::Completed => DeployJobPhase::Failed,
        DeploymentPhase::Rejected => DeployJobPhase::Failed,
        DeploymentPhase::Failed => DeployJobPhase::Failed,
    }
}

impl From<DeploymentPhase> for DeployJobPhase {
    fn from(phase: DeploymentPhase) -> (r: Self) {
        deploy_job_phase(phase)
    }
}

impl vstd::std_specs::convert::FromSpecImpl<DeploymentPhase> for DeployJobPhase {
    open spec fn obeys_from_spec() -> bool {
        true
    }

    open spec fn from_spec(phase: DeploymentPhase) -> Self {
        deploy_job_phase_of(phase)
    }
}

// ---- test-run rows ------------------------------------------------------------------

/// The durable row of a test run.
pub open spec fn stored_run(record: TestRunRecord) -> StoredTestRun {
    StoredTestRun {
        test_run_identifier: record.test_run_identifier,
        cluster_name: record.cluster_name,
        node: record.node,
        host: record.host,
        test_mode: record.test_mode,
        test_run_phase: record.test_run_phase,
        test_outcome: record.test_outcome,
        optional_closure_path: record.optional_closure_path,
    }
}

/// The public record of a test run's row.
pub open spec fn public_run(run: StoredTestRun) -> TestRunRecord {
    TestRunRecord {
        test_run_identifier: run.test_run_identifier,
        cluster_name: run.cluster_name,
        node: run.node,
        host: run.host,
        test_mode: run.test_mode,
        test_run_phase: run.test_run_phase,
        test_outcome: run.test_outcome,
        optional_closure_path: run.optional_closure_path,
    }
}

impl From<TestRunRecord> for StoredTestRun {
    fn from(record: TestRunRecord) -> (r: Self) {
        StoredTestRun {
            test_run_identifier: record.test_run_identifier,
            cluster_name: record.cluster_name,
            node: record.node,
            host: record.host,
            test_mode: record.test_mode,
            test_run_phase: record.test_run_phase,
            test_outcome: record.test_outcome,
            optional_closure_path: record.optional_closure_path,
        }
    }
}

impl vstd::std_specs::convert::FromSpecImpl<TestRunRecord> for StoredTestRun {
    open spec fn obeys_from_spec() -> bool {
        true
    }

    open spec fn from_spec(record: TestRunRecord) -> Self {
        stored_run(record)
    }
}

impl From<StoredTestRun> for TestRunRecord {
    fn from(run: StoredTestRun) -> (r: Self) {
        TestRunRecord {
            test_run_identifier: run.test_run_identifier,
            cluster_name: run.cluster_name,
            node: run.node,
            host: run.host,
            test_mode: run.test_mode,
            test_run_phase: run.test_run_phase,
            test_outcome: run.test_outcome,
            optional_closure_path: run.optional_closure_path,
        }
    }
}

impl vstd::std_specs::convert::FromSpecImpl<StoredTestRun> for TestRunRecord {
    open spec fn obeys_from_spec() -> bool {
        true
    }

    open spec fn from_spec(run: StoredTestRun) -> Self {
        public_run(run)
    }
}

// ---- laws ----------------------------------------------------------------------------

/// A test run reads back from its row as it was written.
pub proof fn law_test_run_rows_round_trip(record: TestRunRecord)
    ensures
        public_run(stored_run(record)) == record,
{
}

/// A request with invalid routing is refused for its routing, whatever else
/// holds of it.
pub proof fn law_routing_is_judged_first(request: DeploySubmission, evidence: AdmissionEvidence)
    requires
        !request.has_valid_routing(evidence.user_name_admitted),
    ensures
        admission_fault(request, evidence) == Some(
            DeployRejectionReason::InvalidDeploymentRouting,
        ),
{
}

/// A login that is neither the user's nor root's never puts a user environment
/// into effect.
pub proof fn law_foreign_logins_are_refused(request: DeploySubmission, evidence: AdmissionEvidence)
    requires
        request matches DeploySubmission::UserEnvironment(user) && {
            &&& user.user_environment_action != UserEnvironmentAction::Realize
            &&& login_of(user.deployment_transport.ssh_destination@) != user.user_name@
            &&& login_of(user.deployment_transport.ssh_destination@) != "root"@
        },
    ensures
        admission_fault(request, evidence) == Some(
            DeployRejectionReason::InvalidDeploymentRouting,
        ),
{
}

} // verus!
