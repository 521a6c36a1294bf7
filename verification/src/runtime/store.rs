//! The ledger: the single writer of plans, sources, builds, copies, generations
//! and observations.

use crate::generated::{
    ActivationKind, ActivationRecord, BuildRecord, ClosurePath, CopyRecord, DeploymentIdentifier,
    Detail, GenerationIdentifier, GenerationRecord, GenerationSelector, ObservationIdentifier,
    ObservationRecord, PlanRecord, SemaCommand, SemaCommandIdentifier, SemaResponse, SourceRecord,
    TargetNode,
};
use crate::text::{concat, decimal, decimal_text};
use vstd::prelude::*;

verus! {

/// The ledger.
#[derive(Debug, PartialEq, Eq)]
pub struct Store {
    pub plans: Vec<PlanRecord>,
    pub sources: Vec<SourceRecord>,
    pub builds: Vec<BuildRecord>,
    pub copies: Vec<CopyRecord>,
    pub generations: Vec<GenerationRecord>,
    pub observations: Vec<ObservationRecord>,
    pub next_command_identifier: u64,
    pub next_deployment_identifier: u64,
    pub next_generation_identifier: u64,
    pub next_observation_identifier: u64,
}

/// Asks the ledger to apply a command.
#[derive(Debug, PartialEq, Eq)]
pub struct Apply(pub SemaCommand);

/// Asks the ledger for a generation identifier.
#[derive(Clone, Copy, Debug, PartialEq, Eq)]
pub struct AllocateGeneration;

/// Asks the ledger for its generations.
#[derive(Clone, Copy, Debug, PartialEq, Eq)]
pub struct GenerationsSnapshot;

/// Asks the ledger for its plans.
#[derive(Clone, Copy, Debug, PartialEq, Eq)]
pub struct PlansSnapshot;

/// Asks the ledger for its staged sources.
#[derive(Clone, Copy, Debug, PartialEq, Eq)]
pub struct SourcesSnapshot;

/// The contents of the ledger.
#[verifier::ext_equal]
pub struct StoreView {
    pub plans: Seq<PlanRecord>,
    pub sources: Seq<SourceRecord>,
    pub builds: Seq<BuildRecord>,
    pub copies: Seq<CopyRecord>,
    pub generations: Seq<GenerationRecord>,
    pub observations: Seq<ObservationRecord>,
    pub next_command_identifier: u64,
    pub next_deployment_identifier: u64,
    pub next_generation_identifier: u64,
    pub next_observation_identifier: u64,
}

impl View for Store {
    type V = StoreView;

    open spec fn view(&self) -> StoreView {
        StoreView {
            plans: self.plans@,
            sources: self.sources@,
            builds: self.builds@,
            copies: self.copies@,
            generations: self.generations@,
            observations: self.observations@,
            next_command_identifier: self.next_command_identifier,
            next_deployment_identifier: self.next_deployment_identifier,
            next_generation_identifier: self.next_generation_identifier,
            next_observation_identifier: self.next_observation_identifier,
        }
    }
}

/// The last plan of `deployment`.
pub open spec fn last_plan(plans: Seq<PlanRecord>, deployment: DeploymentIdentifier) -> Option<
    PlanRecord,
>
    decreases plans.len(),
{
    if plans.len() == 0 {
        None
    } else if plans.last().deployment_identifier == deployment {
        Some(plans.last())
    } else {
        last_plan(plans.drop_last(), deployment)
    }
}

/// The last generation of `deployment`.
pub open spec fn last_generation(
    generations: Seq<GenerationRecord>,
    deployment: DeploymentIdentifier,
) -> Option<GenerationRecord>
    decreases generations.len(),
{
    if generations.len() == 0 {
        None
    } else if generations.last().deployment_identifier == deployment {
        Some(generations.last())
    } else {
        last_generation(generations.drop_last(), deployment)
    }
}

/// Where the first record of `generation` stands.
pub open spec fn generation_at(
    generations: Seq<GenerationRecord>,
    generation: GenerationIdentifier,
) -> Option<int>
    decreases generations.len(),
{
    if generations.len() == 0 {
        None
    } else if generations[0].generation_identifier == generation {
        Some(0)
    } else {
        match generation_at(generations.skip(1), generation) {
            Some(at) => Some(at + 1),
            None => None,
        }
    }
}

/// The deployment that was planned last; none is numbered zero.
pub open spec fn latest_deployment(plans: Seq<PlanRecord>) -> DeploymentIdentifier {
    if plans.len() == 0 {
        DeploymentIdentifier(0)
    } else {
        plans.last().deployment_identifier
    }
}

/// What a query that finds nothing says.
pub open spec fn missing_text(deployment: u64) -> Seq<char> {
    "no generation recorded for deployment "@ + decimal(deployment as nat)
}

impl StoreView {
    /// One more command acknowledged.
    pub open spec fn acknowledged(self) -> StoreView {
        StoreView {
            next_command_identifier: (self.next_command_identifier + 1) as u64,
            ..self
        }
    }

    /// The plan as it is recorded: under the next identifier.
    pub open spec fn numbered(self, plan: PlanRecord) -> PlanRecord {
        PlanRecord {
            deployment_identifier: DeploymentIdentifier(self.next_deployment_identifier),
            ..plan
        }
    }

    /// Whether `generations` is what an activation leaves: its generation's entry
    /// with the activation's target and kind, or a new entry for it.
    pub open spec fn activates(
        self,
        activation: ActivationRecord,
        generations: Seq<GenerationRecord>,
    ) -> bool {
        match generation_at(self.generations, activation.generation_identifier) {
            Some(at) => generations == self.generations.update(
                at,
                GenerationRecord {
                    target_node: activation.target_node,
                    activation_kind: activation.activation_kind,
                    ..self.generations[at]
                },
            ),
            None => generations.len() == self.generations.len() + 1 && generations.drop_last()
                == self.generations && {
                let entry = generations.last();
                &&& entry.generation_identifier == activation.generation_identifier
                &&& entry.deployment_identifier == latest_deployment(self.plans)
                &&& entry.target_node == activation.target_node
                &&& entry.closure_path@ == Seq::<char>::empty()
                &&& entry.activation_kind == activation.activation_kind
            },
        }
    }

    /// Whether `generations` is what a build leaves: an entry for its generation,
    /// bound to the deployment planned last and to no node yet.
    pub open spec fn builds_generation(
        self,
        build: BuildRecord,
        generations: Seq<GenerationRecord>,
    ) -> bool {
        generations.len() == self.generations.len() + 1 && generations.drop_last()
            == self.generations && {
            let entry = generations.last();
            &&& entry.generation_identifier == build.generation_identifier
            &&& entry.deployment_identifier == latest_deployment(self.plans)
            &&& entry.target_node@ == Seq::<char>::empty()
            &&& entry.closure_path == build.closure_path
            &&& entry.activation_kind == ActivationKind::Test
        }
    }

    /// `after` and `response` follow from applying `command`.
    pub open spec fn applies(
        self,
        command: SemaCommand,
        after: StoreView,
        response: SemaResponse,
    ) -> bool {
        match command {
            SemaCommand::QueryGeneration(selector) => {
                &&& after == self
                &&& match last_generation(self.generations, selector.0) {
                    Some(record) => response == SemaResponse::GenerationLedgerEntry(record),
                    None => response matches SemaResponse::Missed(detail) && detail@
                        == missing_text(selector.0.0),
                }
            },
            _ => {
                &&& response == SemaResponse::Acknowledged(
                    SemaCommandIdentifier(self.next_command_identifier),
                )
                &&& match command {
                    SemaCommand::RecordPlan(plan) => after == (StoreView {
                        plans: self.plans.push(self.numbered(plan)),
                        next_deployment_identifier: (self.next_deployment_identifier + 1) as u64,
                        ..self
                    }).acknowledged(),
                    SemaCommand::RecordSource(source) => after == (StoreView {
                        sources: self.sources.push(source),
                        ..self
                    }).acknowledged(),
                    SemaCommand::RecordBuild(build) => after == (StoreView {
                        builds: self.builds.push(build),
                        generations: after.generations,
                        ..self
                    }).acknowledged() && self.builds_generation(build, after.generations),
                    SemaCommand::RecordCopy(copy) => after == (StoreView {
                        copies: self.copies.push(copy),
                        ..self
                    }).acknowledged(),
                    SemaCommand::RecordActivation(activation) => after == (StoreView {
                        generations: after.generations,
                        ..self
                    }).acknowledged() && self.activates(activation, after.generations),
                    SemaCommand::RecordObservation(observation) => after == (StoreView {
                        observations: self.observations.push(observation),
                        ..self
                    }).acknowledged(),
                    SemaCommand::QueryGeneration(_) => true,
                }
            },
        }
    }

    /// There is an identifier left for everything that `command` numbers. A query
    /// numbers nothing.
    pub open spec fn fits(self, command: SemaCommand) -> bool {
        match command {
            SemaCommand::QueryGeneration(_) => true,
            SemaCommand::RecordPlan(_) => self.next_command_identifier < u64::MAX
                && self.next_deployment_identifier < u64::MAX,
            _ => self.next_command_identifier < u64::MAX,
        }
    }

    /// Plans are numbered in order below the next identifier.
    pub open spec fn is_numbered(self) -> bool {
        &&& self.next_deployment_identifier > 0
        &&& forall|i: int|
            0 <= i < self.plans.len() ==> 0 < (#[trigger] self.plans[i]).deployment_identifier.0
                < self.next_deployment_identifier
        &&& forall|i: int, j: int|
            0 <= i < j < self.plans.len() ==> (#[trigger] self.plans[i]).deployment_identifier.0 < (
            #[trigger] self.plans[j]).deployment_identifier.0
    }
}

impl Default for Store {
    fn default() -> (r: Self)
        ensures
            r.is_empty_ledger(),
    {
        Self::new()
    }
}

impl Store {
    /// Nothing is recorded, and every identifier starts at one.
    pub open spec fn is_empty_ledger(&self) -> bool {
        &&& self@.plans.len() == 0
        &&& self@.sources.len() == 0
        &&& self@.builds.len() == 0
        &&& self@.copies.len() == 0
        &&& self@.generations.len() == 0
        &&& self@.observations.len() == 0
        &&& self@.next_command_identifier == 1
        &&& self@.next_deployment_identifier == 1
        &&& self@.next_generation_identifier == 1
        &&& self@.next_observation_identifier == 1
    }

    /// An empty ledger.
    pub fn new() -> (r: Self)
        ensures
            r.is_empty_ledger(),
            r@.is_numbered(),
    {
        Store {
            plans: Vec::new(),
            sources: Vec::new(),
            builds: Vec::new(),
            copies: Vec::new(),
            generations: Vec::new(),
            observations: Vec::new(),
            next_command_identifier: 1,
            next_deployment_identifier: 1,
            next_generation_identifier: 1,
            next_observation_identifier: 1,
        }
    }

    /// Whether there is an identifier left for everything that `command` numbers.
    pub fn has_room_for(&self, command: &SemaCommand) -> (r: bool)
        ensures
            r == self@.fits(*command),
    {
        match command {
            SemaCommand::QueryGeneration(_) => true,
            SemaCommand::RecordPlan(_) => self.next_command_identifier < u64::MAX
                && self.next_deployment_identifier < u64::MAX,
            _ => self.next_command_identifier < u64::MAX,
        }
    }

    /// Whether there is a generation identifier left.
    pub fn has_room_for_generation(&self) -> (r: bool)
        ensures
            r == (self@.next_generation_identifier < u64::MAX),
    {
        self.next_generation_identifier < u64::MAX
    }

    /// Applies a command.
    pub fn apply(&mut self, command: SemaCommand) -> (r: SemaResponse)
        requires
            old(self)@.fits(command),
        ensures
            old(self)@.applies(command, final(self)@, r),
            old(self)@.is_numbered() ==> final(self)@.is_numbered(),
    {
        match command {
            SemaCommand::RecordPlan(plan) => {
                let mut recorded = plan;
                recorded.deployment_identifier = self.allocate_deployment_identifier();
                self.plans.push(recorded);
                SemaResponse::Acknowledged(self.allocate_command_identifier())
            },
            SemaCommand::RecordBuild(build) => {
                let record = GenerationRecord {
                    generation_identifier: build.generation_identifier,
                    deployment_identifier: self.synthesize_deployment_identifier(),
                    target_node: TargetNode(String::new()),
                    closure_path: build.closure_path.clone(),
                    activation_kind: ActivationKind::Test,
                };
                self.builds.push(build);
                self.generations.push(record);
                assert(self@.generations.drop_last() =~= old(self)@.generations);
                SemaResponse::Acknowledged(self.allocate_command_identifier())
            },
            SemaCommand::RecordSource(source) => {
                self.sources.push(source);
                SemaResponse::Acknowledged(self.allocate_command_identifier())
            },
            SemaCommand::RecordCopy(copy) => {
                self.copies.push(copy);
                SemaResponse::Acknowledged(self.allocate_command_identifier())
            },
            SemaCommand::RecordActivation(activation) => {
                match self.find_generation(activation.generation_identifier) {
                    Some(at) => {
                        let mut record = self.generations[at].clone();
                        record.target_node = activation.target_node;
                        record.activation_kind = activation.activation_kind;
                        self.generations.set(at, record);
                    },
                    None => {
                        let record = GenerationRecord {
                            generation_identifier: activation.generation_identifier,
                            deployment_identifier: self.synthesize_deployment_identifier(),
                            target_node: activation.target_node,
                            closure_path: ClosurePath(String::new()),
                            activation_kind: activation.activation_kind,
                        };
                        self.generations.push(record);
                        assert(self@.generations.drop_last() =~= old(self)@.generations);
                    },
                }
                SemaResponse::Acknowledged(self.allocate_command_identifier())
            },
            SemaCommand::RecordObservation(observation) => {
                self.observations.push(observation);
                SemaResponse::Acknowledged(self.allocate_command_identifier())
            },
            SemaCommand::QueryGeneration(selector) => self.query_generation(&selector),
        }
    }

    fn find_generation(&self, generation: GenerationIdentifier) -> (r: Option<usize>)
        ensures
            match (r, generation_at(self@.generations, generation)) {
                (Some(at), Some(expected)) => at == expected && at < self@.generations.len(),
                (None, None) => true,
                _ => false,
            },
    {
        let ghost all = self.generations@;
        let mut i: usize = 0;
        assert(all.skip(0) =~= all);
        while i < self.generations.len()
            invariant
                i <= self.generations@.len(),
                all == self.generations@,
                generation_at(all, generation) == (match generation_at(
                    all.skip(i as int),
                    generation,
                ) {
                    Some(at) => Some(at + i),
                    None => None,
                }),
            decreases self.generations@.len() - i,
        {
            assert(all.skip(i as int)[0] == all[i as int]);
            if self.generations[i].generation_identifier == generation {
                return Some(i);
            }
            assert(all.skip(i as int).skip(1) =~= all.skip(i + 1));
            i = i + 1;
        }
        None
    }

    /// The last plan of `deployment`.
    pub fn plan_for(&self, deployment: &DeploymentIdentifier) -> (r: Option<&PlanRecord>)
        ensures
            match (r, last_plan(self@.plans, *deployment)) {
                (Some(plan), Some(expected)) => *plan == expected,
                (None, None) => true,
                _ => false,
            },
    {
        let mut i: usize = self.plans.len();
        assert(self.plans@.take(i as int) =~= self.plans@);
        while i > 0
            invariant
                i <= self.plans@.len(),
                last_plan(self.plans@, *deployment) == last_plan(
                    self.plans@.take(i as int),
                    *deployment,
                ),
            decreases i,
        {
            assert(self.plans@.take(i as int).last() == self.plans@[i - 1]);
            if self.plans[i - 1].deployment_identifier == *deployment {
                return Some(&self.plans[i - 1]);
            }
            assert(self.plans@.take(i as int).drop_last() =~= self.plans@.take(i - 1));
            i = i - 1;
        }
        None
    }

    /// The generations.
    pub fn generations(&self) -> (r: &Vec<GenerationRecord>)
        ensures
            r@ == self@.generations,
    {
        &self.generations
    }

    /// The observations.
    pub fn observations(&self) -> (r: &Vec<ObservationRecord>)
        ensures
            r@ == self@.observations,
    {
        &self.observations
    }

    /// The plans.
    pub fn plans(&self) -> (r: &Vec<PlanRecord>)
        ensures
            r@ == self@.plans,
    {
        &self.plans
    }

    /// The staged sources.
    pub fn sources(&self) -> (r: &Vec<SourceRecord>)
        ensures
            r@ == self@.sources,
    {
        &self.sources
    }

    /// Hands out a generation identifier.
    pub fn allocate_generation_identifier(&mut self) -> (r: GenerationIdentifier)
        requires
            old(self)@.next_generation_identifier < u64::MAX,
        ensures
            r.0 == old(self)@.next_generation_identifier,
            final(self)@ == (StoreView {
                next_generation_identifier: (old(self)@.next_generation_identifier + 1) as u64,
                ..old(self)@
            }),
    {
        let identifier = GenerationIdentifier(self.next_generation_identifier);
        self.next_generation_identifier = self.next_generation_identifier + 1;
        identifier
    }

    /// Hands out an observation identifier.
    pub fn allocate_observation_identifier(&mut self) -> (r: ObservationIdentifier)
        requires
            old(self)@.next_observation_identifier < u64::MAX,
        ensures
            r.0 == old(self)@.next_observation_identifier,
            final(self)@ == (StoreView {
                next_observation_identifier: (old(self)@.next_observation_identifier + 1) as u64,
                ..old(self)@
            }),
    {
        let identifier = ObservationIdentifier(self.next_observation_identifier);
        self.next_observation_identifier = self.next_observation_identifier + 1;
        identifier
    }

    fn allocate_command_identifier(&mut self) -> (r: SemaCommandIdentifier)
        requires
            old(self)@.next_command_identifier < u64::MAX,
        ensures
            r.0 == old(self)@.next_command_identifier,
            final(self)@ == old(self)@.acknowledged(),
    {
        let identifier = SemaCommandIdentifier(self.next_command_identifier);
        self.next_command_identifier = self.next_command_identifier + 1;
        identifier
    }

    fn allocate_deployment_identifier(&mut self) -> (r: DeploymentIdentifier)
        requires
            old(self)@.next_deployment_identifier < u64::MAX,
        ensures
            r.0 == old(self)@.next_deployment_identifier,
            final(self)@ == (StoreView {
                next_deployment_identifier: (old(self)@.next_deployment_identifier + 1) as u64,
                ..old(self)@
            }),
    {
        let identifier = DeploymentIdentifier(self.next_deployment_identifier);
        self.next_deployment_identifier = self.next_deployment_identifier + 1;
        identifier
    }

    fn synthesize_deployment_identifier(&self) -> (r: DeploymentIdentifier)
        ensures
            r == latest_deployment(self@.plans),
    {
        if self.plans.len() == 0 {
            DeploymentIdentifier(0)
        } else {
            self.plans[self.plans.len() - 1].deployment_identifier
        }
    }

    fn query_generation(&self, selector: &GenerationSelector) -> (r: SemaResponse)
        ensures
            match last_generation(self@.generations, selector.0) {
                Some(record) => r == SemaResponse::GenerationLedgerEntry(record),
                None => r matches SemaResponse::Missed(detail) && detail@ == missing_text(
                    selector.0.0,
                ),
            },
    {
        let target = *selector.target_deployment();
        let mut i: usize = self.generations.len();
        assert(self.generations@.take(i as int) =~= self.generations@);
        while i > 0
            invariant
                i <= self.generations@.len(),
                target == selector.0,
                last_generation(self.generations@, target) == last_generation(
                    self.generations@.take(i as int),
                    target,
                ),
            decreases i,
        {
            assert(self.generations@.take(i as int).last() == self.generations@[i - 1]);
            if self.generations[i - 1].deployment_identifier == target {
                return SemaResponse::GenerationLedgerEntry(self.generations[i - 1].clone());
            }
            assert(self.generations@.take(i as int).drop_last() =~= self.generations@.take(i - 1));
            i = i - 1;
        }
        let number = decimal_text(target.0);
        SemaResponse::Missed(
            Detail(concat("no generation recorded for deployment ", number.as_str())),
        )
    }
}

// ---- laws -------------------------------------------------------------------------------

/// A recorded plan is the plan of its identifier.
pub proof fn law_a_recorded_plan_is_found(
    store: StoreView,
    plan: PlanRecord,
    after: StoreView,
    response: SemaResponse,
)
    requires
        store.applies(SemaCommand::RecordPlan(plan), after, response),
    ensures
        last_plan(after.plans, DeploymentIdentifier(store.next_deployment_identifier)) == Some(
            store.numbered(plan),
        ),
        latest_deployment(after.plans) == DeploymentIdentifier(store.next_deployment_identifier),
{
}

/// A build of the deployment planned last is what a query of that deployment shows.
pub proof fn law_a_build_is_what_a_query_shows(
    store: StoreView,
    build: BuildRecord,
    after: StoreView,
    response: SemaResponse,
    answer: SemaResponse,
)
    requires
        store.applies(SemaCommand::RecordBuild(build), after, response),
        after.applies(
            SemaCommand::QueryGeneration(GenerationSelector(latest_deployment(store.plans))),
            after,
            answer,
        ),
    ensures
        answer matches SemaResponse::GenerationLedgerEntry(record) && record.closure_path
            == build.closure_path && record.generation_identifier == build.generation_identifier,
{
}

/// No two plans share an identifier.
pub proof fn law_plans_are_numbered_apart(store: StoreView, first: int, second: int)
    requires
        store.is_numbered(),
        0 <= first < store.plans.len(),
        0 <= second < store.plans.len(),
        store.plans[first].deployment_identifier == store.plans[second].deployment_identifier,
    ensures
        first == second,
{
}

} // verus!
