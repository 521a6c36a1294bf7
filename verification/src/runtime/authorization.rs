//! Whether a deployment is allowed.

use crate::generated::{CriomeAuthorization, DeploymentRequest};
use crate::runtime::trace::AuthorizationDecision;
use vstd::prelude::*;

verus! {

/// The rule that deployments are held to.
#[derive(Clone, Copy, Debug, PartialEq, Eq, Structural)]
pub enum AuthorizationPolicy {
    /// Every request is allowed.
    AllowAll,
    /// Nothing is allowed until requests are backed by criome.
    CriomeBackedRequired,
    /// Nothing is allowed.
    DenyAll,
}

impl AuthorizationPolicy {
    /// The rule that tests run under.
    pub fn allow_all_for_tests() -> (r: Self)
        ensures
            r == AuthorizationPolicy::AllowAll,
    {
        AuthorizationPolicy::AllowAll
    }
}

/// Decides on deployments under one rule.
#[derive(Clone, Debug, PartialEq, Eq)]
pub struct AuthorizationGate {
    pub policy: AuthorizationPolicy,
}

/// Asks for a decision on a request.
#[derive(Debug, PartialEq, Eq)]
pub struct AuthorizeMessage(pub DeploymentRequest);

/// What a request counts as authorized by under a rule: what it says itself where
/// every request is allowed; no more than the operator's allowlist otherwise,
/// unless criome backs it and the rule asks for that.
pub open spec fn authorization_of(
    claimed: CriomeAuthorization,
    policy: AuthorizationPolicy,
) -> CriomeAuthorization {
    match policy {
        AuthorizationPolicy::AllowAll => claimed,
        AuthorizationPolicy::CriomeBackedRequired => if claimed == CriomeAuthorization::Criome {
            CriomeAuthorization::Criome
        } else {
            CriomeAuthorization::OperatorAllowlist
        },
        AuthorizationPolicy::DenyAll => CriomeAuthorization::OperatorAllowlist,
    }
}

/// Whether a rule lets deployments go on.
pub open spec fn decision_under(policy: AuthorizationPolicy) -> AuthorizationDecision {
    if policy == AuthorizationPolicy::AllowAll {
        AuthorizationDecision::Granted
    } else {
        AuthorizationDecision::Denied
    }
}

impl DeploymentRequest {
    /// What the request counts as authorized by under `policy`.
    pub fn authorize(&self, policy: &AuthorizationPolicy) -> (r: CriomeAuthorization)
        ensures
            r == authorization_of(self.criome_authorization, *policy),
    {
        match (self.criome_authorization, *policy) {
            (claimed, AuthorizationPolicy::AllowAll) => claimed,
            (CriomeAuthorization::Bypass, AuthorizationPolicy::CriomeBackedRequired)
                => CriomeAuthorization::OperatorAllowlist,
            (CriomeAuthorization::OperatorAllowlist, AuthorizationPolicy::CriomeBackedRequired)
                => CriomeAuthorization::OperatorAllowlist,
            (CriomeAuthorization::Criome, AuthorizationPolicy::CriomeBackedRequired)
                => CriomeAuthorization::Criome,
            (_, AuthorizationPolicy::DenyAll) => CriomeAuthorization::OperatorAllowlist,
        }
    }
}

impl AuthorizationGate {
    /// Decisions under `policy`.
    pub fn new(policy: AuthorizationPolicy) -> (r: Self)
        ensures
            r.policy == policy,
    {
        AuthorizationGate { policy }
    }

    /// The rule.
    pub fn policy(&self) -> (r: &AuthorizationPolicy)
        ensures
            *r == self.policy,
    {
        &self.policy
    }

    /// Whether the request may go on, and what it counts as authorized by.
    pub fn decide(&self, message: &AuthorizeMessage) -> (r: (
        AuthorizationDecision,
        CriomeAuthorization,
    ))
        ensures
            r == (
                decision_under(self.policy),
                authorization_of(message.0.criome_authorization, self.policy),
            ),
    {
        let decision = match self.policy {
            AuthorizationPolicy::AllowAll => AuthorizationDecision::Granted,
            AuthorizationPolicy::CriomeBackedRequired => AuthorizationDecision::Denied,
            AuthorizationPolicy::DenyAll => AuthorizationDecision::Denied,
        };
        (decision, message.0.authorize(&self.policy))
    }
}

/// A gate that is locked down lets no request pass, whatever it claims.
pub proof fn law_a_lockdown_admits_nothing(policy: AuthorizationPolicy)
    requires
        policy == AuthorizationPolicy::DenyAll || policy
            == AuthorizationPolicy::CriomeBackedRequired,
    ensures
        decision_under(policy) == AuthorizationDecision::Denied,
{
}

} // verus!
