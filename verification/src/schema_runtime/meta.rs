//! Reply constructors of the owner socket.

use crate::runtime_model::{
    AcceptedTest, AppliedPin, AppliedRetire, AppliedUnpin, DeployHandle, RejectedDeploy, RejectedPin, RejectedRetire,
    RejectedTest, RejectedUnpin, TestRequest,
};
use vstd::prelude::*;

verus! {

/// Why a deployment is refused or fails, before it is rendered as a public reason.
#[derive(Clone, Copy, Debug, PartialEq, Eq, Structural)]
pub enum DeployRejectionReason {
    ClusterUnknown,
    NodeUnknown,
    ProposalSourceUnreachable,
    FlakeReferenceMalformed,
    InvalidDeploymentRouting,
    BuilderUnreachable,
    DeploymentInFlight,
    UnsupportedDeployAction,
    InternalError,
    ActivationFailed,
}

/// A deployment was admitted.
#[derive(Clone, Copy, Debug, PartialEq, Eq)]
pub struct DeployAccepted;

impl DeployAccepted {
    /// The payload of the reply.
    pub fn new(payload: DeployHandle) -> (r: DeployHandle)
        ensures
            r == payload,
    {
        payload
    }
}

/// A deployment was refused.
#[derive(Clone, Copy, Debug, PartialEq, Eq)]
pub struct DeployRejected;

impl DeployRejected {
    /// The payload of the reply.
    pub fn new(payload: RejectedDeploy) -> (r: RejectedDeploy)
        ensures
            r == payload,
    {
        payload
    }
}

/// A generation was pinned.
#[derive(Clone, Copy, Debug, PartialEq, Eq)]
pub struct Pinned;

impl Pinned {
    /// The payload of the reply.
    pub fn new(payload: AppliedPin) -> (r: AppliedPin)
        ensures
            r == payload,
    {
        payload
    }
}

/// A pin was refused.
#[derive(Clone, Copy, Debug, PartialEq, Eq)]
pub struct PinRejected;

impl PinRejected {
    /// The payload of the reply.
    pub fn new(payload: RejectedPin) -> (r: RejectedPin)
        ensures
            r == payload,
    {
        payload
    }
}

/// A generation was unpinned.
#[derive(Clone, Copy, Debug, PartialEq, Eq)]
pub struct Unpinned;

impl Unpinned {
    /// The payload of the reply.
    pub fn new(payload: AppliedUnpin) -> (r: AppliedUnpin)
        ensures
            r == payload,
    {
        payload
    }
}

/// An unpin was refused.
#[derive(Clone, Copy, Debug, PartialEq, Eq)]
pub struct UnpinRejected;

impl UnpinRejected {
    /// The payload of the reply.
    pub fn new(payload: RejectedUnpin) -> (r: RejectedUnpin)
        ensures
            r == payload,
    {
        payload
    }
}

/// A generation was retired.
#[derive(Clone, Copy, Debug, PartialEq, Eq)]
pub struct Retired;

impl Retired {
    /// The payload of the reply.
    pub fn new(payload: AppliedRetire) -> (r: AppliedRetire)
        ensures
            r == payload,
    {
        payload
    }
}

/// A retirement was refused.
#[derive(Clone, Copy, Debug, PartialEq, Eq)]
pub struct RetireRejected;

impl RetireRejected {
    /// The payload of the reply.
    pub fn new(payload: RejectedRetire) -> (r: RejectedRetire)
        ensures
            r == payload,
    {
        payload
    }
}

/// A test was accepted.
#[derive(Clone, Copy, Debug, PartialEq, Eq)]
pub struct Tested;

impl Tested {
    /// The payload of the reply.
    pub fn new(payload: AcceptedTest) -> (r: AcceptedTest)
        ensures
            r == payload,
    {
        payload
    }
}

/// A test was refused.
#[derive(Clone, Copy, Debug, PartialEq, Eq)]
pub struct TestRejected;

impl TestRejected {
    /// The payload of the reply.
    pub fn new(payload: RejectedTest) -> (r: RejectedTest)
        ensures
            r == payload,
    {
        payload
    }
}

/// A test was requested.
#[derive(Clone, Copy, Debug, PartialEq, Eq)]
pub struct Test;

impl Test {
    /// The payload of the reply.
    pub fn new(payload: TestRequest) -> (r: TestRequest)
        ensures
            r == payload,
    {
        payload
    }
}

} // verus!
