//! Witnesses of the planes that a request has passed.

use vstd::prelude::*;

verus! {

/// A plane of the daemon.
#[derive(Clone, Copy, Debug, PartialEq, Eq, Structural)]
pub enum Plane {
    SocketListener,
    OperationDispatcher,
    NexusMailKeeper,
    AuthorizationGate,
    Builder,
    ClosureCopier,
    Activator,
    GcRootPinner,
    ObservationFan,
    Store,
    LojixRoot,
}

/// Whether a deployment may go on.
#[derive(Clone, Copy, Debug, PartialEq, Eq, Structural)]
pub enum AuthorizationDecision {
    Granted,
    Denied,
}

/// The kind of a ledger command.
#[derive(Clone, Copy, Debug, PartialEq, Eq, Structural)]
pub enum SemaCommandTag {
    RecordPlan,
    RecordSource,
    RecordBuild,
    RecordCopy,
    RecordActivation,
    RecordObservation,
    QueryGeneration,
}

/// One witness: the plane that ran and what it did.
#[derive(Clone, Copy, Debug, PartialEq, Eq, Structural)]
pub enum TraceWitness {
    PlaneStarted { plane: Plane },
    InputReceived { plane: Plane },
    MailSent { plane: Plane, identifier: u64 },
    MailQueued { plane: Plane, identifier: u64 },
    MailProcessing { plane: Plane, identifier: u64 },
    MailReplied { plane: Plane, identifier: u64 },
    AuthorizationDecided { plane: Plane, decision: AuthorizationDecision },
    PlanMaterialized { plane: Plane },
    BuildStarted { plane: Plane },
    BuildComplete { plane: Plane },
    ClosureCopied { plane: Plane },
    ActivationComplete { plane: Plane },
    GcPinned { plane: Plane },
    ObservationFanned { plane: Plane },
    SemaApplied { plane: Plane, command: SemaCommandTag },
    OutputEmitted { plane: Plane },
}

/// The plane that a witness names.
pub open spec fn plane_of(witness: TraceWitness) -> Plane {
    match witness {
        TraceWitness::PlaneStarted { plane } => plane,
        TraceWitness::InputReceived { plane } => plane,
        TraceWitness::MailSent { plane, .. } => plane,
        TraceWitness::MailQueued { plane, .. } => plane,
        TraceWitness::MailProcessing { plane, .. } => plane,
        TraceWitness::MailReplied { plane, .. } => plane,
        TraceWitness::AuthorizationDecided { plane, .. } => plane,
        TraceWitness::PlanMaterialized { plane } => plane,
        TraceWitness::BuildStarted { plane } => plane,
        TraceWitness::BuildComplete { plane } => plane,
        TraceWitness::ClosureCopied { plane } => plane,
        TraceWitness::ActivationComplete { plane } => plane,
        TraceWitness::GcPinned { plane } => plane,
        TraceWitness::ObservationFanned { plane } => plane,
        TraceWitness::SemaApplied { plane, .. } => plane,
        TraceWitness::OutputEmitted { plane } => plane,
    }
}

impl TraceWitness {
    /// The plane that emitted the witness.
    pub fn plane(&self) -> (r: Plane)
        ensures
            r == plane_of(*self),
    {
        match self {
            TraceWitness::PlaneStarted { plane } => *plane,
            TraceWitness::InputReceived { plane } => *plane,
            TraceWitness::MailSent { plane, .. } => *plane,
            TraceWitness::MailQueued { plane, .. } => *plane,
            TraceWitness::MailProcessing { plane, .. } => *plane,
            TraceWitness::MailReplied { plane, .. } => *plane,
            TraceWitness::AuthorizationDecided { plane, .. } => *plane,
            TraceWitness::PlanMaterialized { plane } => *plane,
            TraceWitness::BuildStarted { plane } => *plane,
            TraceWitness::BuildComplete { plane } => *plane,
            TraceWitness::ClosureCopied { plane } => *plane,
            TraceWitness::ActivationComplete { plane } => *plane,
            TraceWitness::GcPinned { plane } => *plane,
            TraceWitness::ObservationFanned { plane } => *plane,
            TraceWitness::SemaApplied { plane, .. } => *plane,
            TraceWitness::OutputEmitted { plane } => *plane,
        }
    }
}

/// The witnesses so far.
#[derive(Clone, Debug, PartialEq, Eq)]
pub struct TraceLog {
    pub events: Vec<TraceWitness>,
}

/// Asks the log to keep a witness.
#[derive(Clone, Copy, Debug, PartialEq, Eq)]
pub struct RecordWitness(pub TraceWitness);

/// Asks the log for its witnesses.
#[derive(Clone, Copy, Debug, PartialEq, Eq)]
pub struct Snapshot;

impl Default for TraceLog {
    fn default() -> (r: Self)
        ensures
            r.events@.len() == 0,
    {
        Self::new()
    }
}

impl TraceLog {
    /// An empty log.
    pub fn new() -> (r: Self)
        ensures
            r.events@.len() == 0,
    {
        TraceLog { events: Vec::new() }
    }

    /// Keeps a witness behind all others.
    pub fn record(&mut self, witness: RecordWitness)
        ensures
            final(self).events@ == old(self).events@.push(witness.0),
    {
        self.events.push(witness.0);
    }

    /// The witnesses, in the order they came.
    pub fn snapshot(&self) -> (r: Vec<TraceWitness>)
        ensures
            r@ == self.events@,
    {
        self.events.clone()
    }
}

} // verus!
