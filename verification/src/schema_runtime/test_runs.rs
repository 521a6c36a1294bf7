//! Test requests: lowering to concrete runs, validation, and the commands and
//! records of one run.

use crate::runtime_flow;
use crate::runtime_flow::{
    BringUpTestVmCommand, HermeticCheckCommand, TearDownTestVmCommand,
};
use crate::runtime_model::{
    AcceptedTest, ClosurePath, ClusterName, CommitSequence, ContainerName, ContainerState,
    ContainerTransition, DeploymentOutputSelector, FlakeAttribute, FlakeReference, HostSelection,
    NixSystem, NodeName, NodeSelection, ProposalSource, QuickCheck, RejectedTest, StateDigest,
    StateMarker, TestExecutionProfile, TestMode, TestOutcome, TestRejectionReason, TestRequest,
    TestRun, TestRunIdentifier, TestRunPhase, TestRunRecord,
};
use crate::schema_runtime::nix_command::{first_line, NixCommand};
use crate::schema_runtime::shell::{shell_word, ShellArgument, ShellCommand};
use crate::schema_runtime::ssh_target::{
    is_ssh_destination, is_store_uri, remote_command, ssh_destination_fault, store_uri_fault,
    SshTarget,
};
use crate::schema_runtime::store_path::{canonical_nix_store_root, is_canonical_store_root};
use crate::text::concat;
use vstd::prelude::*;

verus! {

// ---- the projected cluster -----------------------------------------------------

/// A node of the cluster proposal and the host that it runs on, where it is a guest.
#[derive(Debug, PartialEq, Eq)]
pub struct ProjectedNode {
    pub name: NodeName,
    pub super_node: Option<NodeName>,
}

/// The nodes of the cluster proposal, in the proposal's order.
#[derive(Debug, PartialEq, Eq)]
pub struct ClusterProjection {
    pub nodes: Vec<ProjectedNode>,
}

/// The first node called `name`.
pub open spec fn node_named(nodes: Seq<ProjectedNode>, name: Seq<char>) -> Option<ProjectedNode>
    decreases nodes.len(),
{
    if nodes.len() == 0 {
        None
    } else if nodes[0].name@ == name {
        Some(nodes[0])
    } else {
        node_named(nodes.skip(1), name)
    }
}

/// Why `host` may not run `node`; nothing where it may.
pub open spec fn host_fault(
    nodes: Seq<ProjectedNode>,
    host: Seq<char>,
    node: Seq<char>,
) -> Option<TestRejectionReason> {
    match node_named(nodes, node) {
        None => Some(TestRejectionReason::NodeUnknown),
        Some(found) => match found.super_node {
            Some(primary) => if primary@ == host {
                None
            } else {
                Some(TestRejectionReason::VmHostNotDeclaredForNode)
            },
            None => Some(TestRejectionReason::VmHostNotDeclaredForNode),
        },
    }
}

/// The names of the nodes that run on a host.
pub open spec fn hosted_nodes(nodes: Seq<ProjectedNode>) -> Seq<NodeName>
    decreases nodes.len(),
{
    if nodes.len() == 0 {
        Seq::empty()
    } else if nodes.last().super_node is Some {
        hosted_nodes(nodes.drop_last()).push(nodes.last().name)
    } else {
        hosted_nodes(nodes.drop_last())
    }
}

impl ClusterProjection {
    /// Whether `host` is declared for `node`.
    pub fn validate_host_for_node(
        &self,
        host: &NodeName,
        node: &NodeName,
    ) -> (r: Result<(), TestRejectionReason>)
        ensures
            match host_fault(self.nodes@, host@, node@) {
                Some(reason) => r == Err::<(), TestRejectionReason>(reason),
                None => r is Ok,
            },
    {
        let mut i: usize = 0;
        assert(self.nodes@.skip(0) =~= self.nodes@);
        while i < self.nodes.len()
            invariant
                i <= self.nodes@.len(),
                node_named(self.nodes@, node@) == node_named(self.nodes@.skip(i as int), node@),
            decreases self.nodes@.len() - i,
        {
            assert(self.nodes@.skip(i as int)[0] == self.nodes@[i as int]);
            assert(self.nodes@.skip(i as int).skip(1) =~= self.nodes@.skip(i + 1));
            if self.nodes[i].name == *node {
                return match &self.nodes[i].super_node {
                    Some(primary) => {
                        if *primary == *host {
                            Ok(())
                        } else {
                            Err(TestRejectionReason::VmHostNotDeclaredForNode)
                        }
                    },
                    None => Err(TestRejectionReason::VmHostNotDeclaredForNode),
                };
            }
            i = i + 1;
        }
        Err(TestRejectionReason::NodeUnknown)
    }

    /// The nodes that run on a host.
    pub fn hosted_pod_nodes(&self) -> (r: Vec<NodeName>)
        ensures
            r@ == hosted_nodes(self.nodes@),
    {
        let mut hosted: Vec<NodeName> = Vec::new();
        let mut i: usize = 0;
        while i < self.nodes.len()
            invariant
                i <= self.nodes@.len(),
                hosted@ == hosted_nodes(self.nodes@.take(i as int)),
            decreases self.nodes@.len() - i,
        {
            let ghost after = self.nodes@.take(i + 1);
            assert(after.drop_last() =~= self.nodes@.take(i as int));
            assert(after.last() == self.nodes@[i as int]);
            if self.nodes[i].super_node.is_some() {
                hosted.push(self.nodes[i].name.clone());
            }
            i = i + 1;
        }
        assert(self.nodes@.take(i as int) =~= self.nodes@);
        hosted
    }
}

/// The nodes of an optional projection that run on a host; none without one.
pub open spec fn projected_hosted_nodes(projection: Option<&ClusterProjection>) -> Seq<NodeName> {
    match projection {
        Some(cluster) => hosted_nodes(cluster.nodes@),
        None => Seq::empty(),
    }
}

// ---- concrete runs ------------------------------------------------------------------

/// A test run with everything decided.
#[derive(Debug, PartialEq, Eq)]
pub struct ResolvedTestRun {
    pub cluster: ClusterName,
    pub node: NodeName,
    pub host: NodeName,
    pub profile: TestExecutionProfile,
    pub flake: FlakeReference,
}

impl Clone for ResolvedTestRun {
    fn clone(&self) -> (r: Self)
        ensures
            r == *self,
    {
        ResolvedTestRun {
            cluster: self.cluster.clone(),
            node: self.node.clone(),
            host: self.host.clone(),
            profile: self.profile.clone(),
            flake: self.flake.clone(),
        }
    }
}

/// The selector, system and route of `profile` stand unchanged in `carried`.
pub open spec fn carries_profile(
    carried: runtime_flow::TestExecutionProfile,
    profile: TestExecutionProfile,
) -> bool {
    &&& carried.test_mode == profile.test_mode
    &&& carried.nix_system.0 == profile.nix_system.0
    &&& carried.deployment_output_selector.0.0 == profile.deployment_output_selector.0.0
    &&& match (carried.optional_deployment_transport, profile.optional_deployment_transport) {
        (Some(carried_route), Some(route)) => carried_route.nix_store_uri.0
            == route.nix_store_uri.0 && carried_route.ssh_destination.0 == route.ssh_destination.0,
        (None, None) => true,
        _ => false,
    }
}

impl ResolvedTestRun {
    /// The row of an accepted run.
    pub fn pending_record(&self, identifier: TestRunIdentifier) -> (r: TestRunRecord)
        ensures
            r == (TestRunRecord {
                test_run_identifier: identifier,
                cluster_name: self.cluster,
                node: self.node,
                host: self.host,
                test_mode: self.profile.test_mode,
                test_run_phase: TestRunPhase::Submitted,
                test_outcome: TestOutcome::Pending,
                optional_closure_path: None,
            }),
    {
        TestRunRecord {
            test_run_identifier: identifier,
            cluster_name: self.cluster.clone(),
            node: self.node.clone(),
            host: self.host.clone(),
            test_mode: self.profile.test_mode,
            test_run_phase: TestRunPhase::Submitted,
            test_outcome: TestOutcome::Pending,
            optional_closure_path: None,
        }
    }

    /// The profile as effect commands carry it.
    pub fn nexus_test_execution_profile(&self) -> (r: runtime_flow::TestExecutionProfile)
        ensures
            carries_profile(r, self.profile),
    {
        runtime_flow::TestExecutionProfile {
            test_mode: self.profile.test_mode,
            nix_system: runtime_flow::NixSystem(self.profile.nix_system.0.clone()),
            deployment_output_selector: runtime_flow::DeploymentOutputSelector(
                runtime_flow::FlakeAttribute(self.profile.deployment_output_selector.0.0.clone()),
            ),
            optional_deployment_transport: match &self.profile.optional_deployment_transport {
                Some(transport) => Some(
                    runtime_flow::DeploymentTransport {
                        nix_store_uri: runtime_flow::NixStoreUri(transport.nix_store_uri.0.clone()),
                        ssh_destination: runtime_flow::SshDestination(
                            transport.ssh_destination.0.clone(),
                        ),
                    },
                ),
                None => None,
            },
        }
    }

    /// The sandboxed check of this run.
    pub fn hermetic_check_command(&self) -> (r: HermeticCheckCommand)
        ensures
            r.cluster_name == self.cluster,
            r.node_name == self.node,
            r.flake_reference == self.flake,
            carries_profile(r.test_execution_profile, self.profile),
    {
        HermeticCheckCommand {
            cluster_name: self.cluster.clone(),
            node_name: self.node.clone(),
            flake_reference: self.flake.clone(),
            test_execution_profile: self.nexus_test_execution_profile(),
        }
    }

    /// Starts the machine of a live run.
    pub fn bring_up_command(&self, runner: ClosurePath) -> (r: BringUpTestVmCommand)
        requires
            self.profile.optional_deployment_transport is Some,
        ensures
            r.cluster_name == self.cluster,
            r.node == self.node,
            r.host == self.host,
            r.deployment_transport.nix_store_uri.0
                == self.profile.optional_deployment_transport->0.nix_store_uri.0,
            r.deployment_transport.ssh_destination.0
                == self.profile.optional_deployment_transport->0.ssh_destination.0,
            r.closure_path == runner,
            r.string@ == Seq::<char>::empty(),
    {
        BringUpTestVmCommand {
            cluster_name: self.cluster.clone(),
            node: self.node.clone(),
            host: self.host.clone(),
            deployment_transport: self.live_transport(),
            closure_path: runner,
            string: String::new(),
        }
    }

    /// Stops the machine of a live run.
    pub fn tear_down_command(&self) -> (r: TearDownTestVmCommand)
        requires
            self.profile.optional_deployment_transport is Some,
        ensures
            r.cluster_name == self.cluster,
            r.node == self.node,
            r.host == self.host,
            r.deployment_transport.nix_store_uri.0
                == self.profile.optional_deployment_transport->0.nix_store_uri.0,
            r.deployment_transport.ssh_destination.0
                == self.profile.optional_deployment_transport->0.ssh_destination.0,
    {
        TearDownTestVmCommand {
            cluster_name: self.cluster.clone(),
            node: self.node.clone(),
            host: self.host.clone(),
            deployment_transport: self.live_transport(),
        }
    }

    /// The route of a live run.
    fn live_transport(&self) -> (r: runtime_flow::DeploymentTransport)
        requires
            self.profile.optional_deployment_transport is Some,
        ensures
            r.nix_store_uri.0 == self.profile.optional_deployment_transport->0.nix_store_uri.0,
            r.ssh_destination.0 == self.profile.optional_deployment_transport->0.ssh_destination.0,
    {
        let transport = self.profile.optional_deployment_transport.as_ref().unwrap();
        runtime_flow::DeploymentTransport {
            nix_store_uri: runtime_flow::NixStoreUri(transport.nix_store_uri.0.clone()),
            ssh_destination: runtime_flow::SshDestination(transport.ssh_destination.0.clone()),
        }
    }
}

// ---- defaults and lowering --------------------------------------------------------------

/// What a quick check takes everything but its nodes from.
#[derive(Debug, PartialEq, Eq)]
pub struct TestDefaults {
    pub cluster: ClusterName,
    pub default_vm_host: NodeName,
    pub default_mode: TestMode,
    pub test_flake: FlakeReference,
    pub test_nix_system: NixSystem,
    pub test_output_selector: DeploymentOutputSelector,
    pub proposal_source: ProposalSource,
}

/// The run of `node` with everything else given.
pub open spec fn run_of(
    cluster: ClusterName,
    node: NodeName,
    host: NodeName,
    profile: TestExecutionProfile,
    flake: FlakeReference,
) -> ResolvedTestRun {
    ResolvedTestRun { cluster, node, host, profile, flake }
}

/// One run per node, in order.
pub open spec fn runs_of(
    cluster: ClusterName,
    nodes: Seq<NodeName>,
    host: NodeName,
    profile: TestExecutionProfile,
    flake: FlakeReference,
) -> Seq<ResolvedTestRun> {
    nodes.map_values(|node: NodeName| run_of(cluster, node, host, profile, flake))
}

fn lower_nodes(
    cluster: &ClusterName,
    nodes: &Vec<NodeName>,
    host: &NodeName,
    profile: &TestExecutionProfile,
    flake: &FlakeReference,
) -> (r: Vec<ResolvedTestRun>)
    ensures
        r@ == runs_of(*cluster, nodes@, *host, *profile, *flake),
{
    let mut runs: Vec<ResolvedTestRun> = Vec::new();
    let mut i: usize = 0;
    while i < nodes.len()
        invariant
            i <= nodes@.len(),
            runs@.len() == i,
            forall|k: int|
                0 <= k < i ==> #[trigger] runs@[k] == run_of(
                    *cluster,
                    nodes@[k],
                    *host,
                    *profile,
                    *flake,
                ),
        decreases nodes@.len() - i,
    {
        runs.push(
            ResolvedTestRun {
                cluster: cluster.clone(),
                node: nodes[i].clone(),
                host: host.clone(),
                profile: profile.clone(),
                flake: flake.clone(),
            },
        );
        i = i + 1;
    }
    assert(runs@ =~= runs_of(*cluster, nodes@, *host, *profile, *flake));
    runs
}

impl TestDefaults {
    /// The profile of a quick check.
    pub open spec fn profile(&self) -> TestExecutionProfile {
        TestExecutionProfile {
            test_mode: self.default_mode,
            nix_system: self.test_nix_system,
            deployment_output_selector: self.test_output_selector,
            optional_deployment_transport: None,
        }
    }

    /// The host that a selection names.
    pub open spec fn selected_host(&self, selection: HostSelection) -> NodeName {
        match selection {
            HostSelection::DefaultHost => self.default_vm_host,
            HostSelection::OnHost(host) => host,
        }
    }

    /// The runs that a request stands for.
    pub open spec fn lowered(
        &self,
        request: TestRequest,
        hosted: Seq<NodeName>,
    ) -> Seq<ResolvedTestRun> {
        match request {
            TestRequest::Run(run) => runs_of(
                run.cluster_name,
                match run.node_selection {
                    NodeSelection::Nodes(nodes) => nodes@,
                    NodeSelection::All => hosted,
                },
                self.selected_host(run.host_selection),
                run.test_execution_profile,
                self.test_flake,
            ),
            TestRequest::Check(check) => runs_of(
                self.cluster,
                check.0@,
                self.default_vm_host,
                self.profile(),
                self.test_flake,
            ),
        }
    }

    /// The values of the synthetic defaults.
    pub open spec fn is_synthetic(&self) -> bool {
        &&& self.cluster@ == "fixture-cluster"@
        &&& self.default_vm_host@ == "fixture-vm-host"@
        &&& self.default_mode == TestMode::Hermetic
        &&& self.test_flake@ == "github:fixture-owner/fixture-test-flake"@
        &&& self.test_nix_system@ == "x86_64-linux"@
        &&& self.test_output_selector@ == "checks.fixture-a"@
        &&& self.proposal_source@ == ""@
    }

    /// The runs that `request` stands for. A selection of all nodes takes those
    /// that `projection` shows on a host.
    pub fn lower(
        &self,
        request: TestRequest,
        projection: Option<&ClusterProjection>,
    ) -> (r: Vec<ResolvedTestRun>)
        ensures
            r@ == self.lowered(request, projected_hosted_nodes(projection)),
    {
        match request {
            TestRequest::Run(run) => self.lower_run(run, projection),
            TestRequest::Check(check) => self.lower_check(check),
        }
    }

    /// The runs of a fully specified request.
    pub fn lower_run(
        &self,
        run: TestRun,
        projection: Option<&ClusterProjection>,
    ) -> (r: Vec<ResolvedTestRun>)
        ensures
            r@ == self.lowered(TestRequest::Run(run), projected_hosted_nodes(projection)),
    {
        let host = self.resolve_host(run.host_selection);
        let nodes = Self::nodes_of(run.node_selection, projection);
        lower_nodes(&run.cluster_name, &nodes, &host, &run.test_execution_profile, &self.test_flake)
    }

    /// The runs of a quick check.
    pub fn lower_check(&self, check: QuickCheck) -> (r: Vec<ResolvedTestRun>)
        ensures
            r@ == self.lowered(TestRequest::Check(check), Seq::empty()),
    {
        let profile = self.default_profile();
        lower_nodes(&self.cluster, &check.0, &self.default_vm_host, &profile, &self.test_flake)
    }

    /// The host that a selection names.
    pub fn resolve_host(&self, selection: HostSelection) -> (r: NodeName)
        ensures
            r == self.selected_host(selection),
    {
        match selection {
            HostSelection::DefaultHost => self.default_vm_host.clone(),
            HostSelection::OnHost(host) => host,
        }
    }

    /// The nodes that a selection names.
    pub fn nodes_of(
        selection: NodeSelection,
        projection: Option<&ClusterProjection>,
    ) -> (r: Vec<NodeName>)
        ensures
            r@ == (match selection {
                NodeSelection::Nodes(nodes) => nodes@,
                NodeSelection::All => projected_hosted_nodes(projection),
            }),
    {
        match selection {
            NodeSelection::Nodes(nodes) => nodes,
            NodeSelection::All => match projection {
                Some(cluster) => cluster.hosted_pod_nodes(),
                None => Vec::new(),
            },
        }
    }

    /// The profile of a quick check.
    pub fn default_profile(&self) -> (r: TestExecutionProfile)
        ensures
            r == self.profile(),
    {
        TestExecutionProfile {
            test_mode: self.default_mode,
            nix_system: self.test_nix_system.clone(),
            deployment_output_selector: self.test_output_selector.clone(),
            optional_deployment_transport: None,
        }
    }

    /// Synthetic defaults for tests.
    pub fn test_default() -> (r: Self)
        ensures
            r.is_synthetic(),
    {
        TestDefaults {
            cluster: ClusterName("fixture-cluster".to_owned()),
            default_vm_host: NodeName("fixture-vm-host".to_owned()),
            default_mode: TestMode::Hermetic,
            test_flake: FlakeReference("github:fixture-owner/fixture-test-flake".to_owned()),
            test_nix_system: NixSystem("x86_64-linux".to_owned()),
            test_output_selector: DeploymentOutputSelector(
                FlakeAttribute("checks.fixture-a".to_owned()),
            ),
            proposal_source: ProposalSource("".to_owned()),
        }
    }
}

// ---- validation ---------------------------------------------------------------------------

/// Whether any run is live.
pub open spec fn any_live(runs: Seq<ResolvedTestRun>) -> bool {
    exists|i: int| 0 <= i < runs.len() && (#[trigger] runs[i]).profile.test_mode == TestMode::Live
}

/// The fault of the first run whose host is not declared for its node.
pub open spec fn first_host_fault(
    runs: Seq<ResolvedTestRun>,
    nodes: Seq<ProjectedNode>,
) -> Option<TestRejectionReason>
    decreases runs.len(),
{
    if runs.len() == 0 {
        None
    } else {
        match first_host_fault(runs.drop_last(), nodes) {
            Some(reason) => Some(reason),
            None => host_fault(nodes, runs.last().host@, runs.last().node@),
        }
    }
}

/// Why a request is refused: there are no defaults, it names no node, a run is
/// live, or a host is not declared for its node. Nothing where it is accepted.
pub open spec fn test_fault(
    defaults: Option<TestDefaults>,
    request: TestRequest,
    projection: Option<&ClusterProjection>,
) -> Option<TestRejectionReason> {
    match defaults {
        None => Some(TestRejectionReason::NoTestDefaults),
        Some(defaults) => {
            let runs = defaults.lowered(request, projected_hosted_nodes(projection));
            if runs.len() == 0 {
                Some(TestRejectionReason::NodeUnknown)
            } else if any_live(runs) {
                Some(TestRejectionReason::LiveNotYetEnabled)
            } else {
                match projection {
                    Some(cluster) => first_host_fault(runs, cluster.nodes@),
                    None => None,
                }
            }
        },
    }
}

/// The runs of an accepted request, or why it is refused.
#[verifier::loop_isolation(false)]
pub fn resolve_and_validate(
    defaults: &Option<TestDefaults>,
    request: TestRequest,
    projection: Option<&ClusterProjection>,
) -> (r: Result<Vec<ResolvedTestRun>, TestRejectionReason>)
    ensures
        match (r, test_fault(*defaults, request, projection)) {
            (Ok(runs), None) => runs@ == defaults->0.lowered(
                request,
                projected_hosted_nodes(projection),
            ) && runs@.len() > 0,
            (Err(reason), Some(expected)) => reason == expected,
            _ => false,
        },
{
    let chosen = match defaults {
        Some(chosen) => chosen,
        None => {
            return Err(TestRejectionReason::NoTestDefaults);
        },
    };
    let runs = chosen.lower(request, projection);
    if runs.len() == 0 {
        return Err(TestRejectionReason::NodeUnknown);
    }
    let mut i: usize = 0;
    while i < runs.len()
        invariant
            i <= runs@.len(),
            forall|k: int|
                0 <= k < i ==> (#[trigger] runs@[k]).profile.test_mode != TestMode::Live,
        decreases runs@.len() - i,
    {
        if runs[i].profile.test_mode == TestMode::Live {
            assert(any_live(runs@));
            return Err(TestRejectionReason::LiveNotYetEnabled);
        }
        i = i + 1;
    }
    assert(!any_live(runs@));
    match projection {
        Some(cluster) => {
            let mut k: usize = 0;
            while k < runs.len()
                invariant
                    k <= runs@.len(),
                    first_host_fault(runs@.take(k as int), cluster.nodes@) is None,
                decreases runs@.len() - k,
            {
                let ghost after = runs@.take(k + 1);
                assert(after.drop_last() =~= runs@.take(k as int));
                assert(after.last() == runs@[k as int]);
                match cluster.validate_host_for_node(&runs[k].host, &runs[k].node) {
                    Ok(()) => {},
                    Err(reason) => {
                        proof {
                            lemma_first_host_fault_prefix(runs@, cluster.nodes@, k + 1);
                        }
                        return Err(reason);
                    },
                }
                k = k + 1;
            }
            assert(runs@.take(k as int) =~= runs@);
        },
        None => {},
    }
    Ok(runs)
}

/// A copy of `request`, which stands for the same runs.
fn copied_request(request: &TestRequest) -> (r: TestRequest)
    ensures
        forall|defaults: TestDefaults, hosted: Seq<NodeName>| #[trigger]
            defaults.lowered(r, hosted) == defaults.lowered(*request, hosted),
{
    match request {
        TestRequest::Run(run) => {
            let node_selection = match &run.node_selection {
                NodeSelection::Nodes(nodes) => {
                    let copy = nodes.clone();
                    assert(copy@ =~= nodes@);
                    NodeSelection::Nodes(copy)
                },
                NodeSelection::All => NodeSelection::All,
            };
            TestRequest::Run(
                TestRun {
                    cluster_name: run.cluster_name.clone(),
                    node_selection,
                    host_selection: run.host_selection.clone(),
                    test_execution_profile: run.test_execution_profile.clone(),
                },
            )
        },
        TestRequest::Check(check) => {
            let copy = check.0.clone();
            assert(copy@ =~= check.0@);
            TestRequest::Check(QuickCheck(copy))
        },
    }
}

/// Whether a request is refused.
pub fn refuses_test(
    defaults: &Option<TestDefaults>,
    request: &TestRequest,
    projection: Option<&ClusterProjection>,
) -> (r: bool)
    ensures
        r == test_fault(*defaults, *request, projection) is Some,
{
    resolve_and_validate(defaults, copied_request(request), projection).is_err()
}

proof fn lemma_first_host_fault_prefix(
    runs: Seq<ResolvedTestRun>,
    nodes: Seq<ProjectedNode>,
    count: int,
)
    requires
        0 <= count <= runs.len(),
        first_host_fault(runs.take(count), nodes) is Some,
    ensures
        first_host_fault(runs, nodes) == first_host_fault(runs.take(count), nodes),
    decreases runs.len() - count,
{
    if count == runs.len() {
        assert(runs.take(count) =~= runs);
    } else {
        assert(runs.take(count + 1).drop_last() =~= runs.take(count));
        lemma_first_host_fault_prefix(runs, nodes, count + 1);
    }
}

// ---- the cursor of one run ------------------------------------------------------------------

/// The step of a run that has completed.
#[derive(Clone, Copy, Debug, PartialEq, Eq, Structural)]
pub enum TestStage {
    Submitted,
    BroughtUp,
    Asserted,
}

/// The cursor of an accepted run.
#[derive(Debug, PartialEq, Eq)]
pub struct TestPipeline {
    pub run: ResolvedTestRun,
    pub identifier: TestRunIdentifier,
    pub stage: TestStage,
    pub accepted_marker: StateMarker,
}

impl Clone for TestPipeline {
    fn clone(&self) -> (r: Self)
        ensures
            r == *self,
    {
        TestPipeline {
            run: self.run.clone(),
            identifier: self.identifier.clone(),
            stage: self.stage,
            accepted_marker: self.accepted_marker.clone(),
        }
    }
}

impl TestPipeline {
    /// The row of this run with a phase, an outcome and a closure.
    pub open spec fn row(
        &self,
        phase: TestRunPhase,
        outcome: TestOutcome,
        closure_path: Option<ClosurePath>,
    ) -> TestRunRecord {
        TestRunRecord {
            test_run_identifier: self.identifier,
            cluster_name: self.run.cluster,
            node: self.run.node,
            host: self.run.host,
            test_mode: self.run.profile.test_mode,
            test_run_phase: phase,
            test_outcome: outcome,
            optional_closure_path: closure_path,
        }
    }

    /// The cursor at acceptance.
    pub fn accepted(run: ResolvedTestRun, identifier: TestRunIdentifier) -> (r: Self)
        ensures
            r.run == run,
            r.identifier == identifier,
            r.stage == TestStage::Submitted,
            r.accepted_marker == (StateMarker {
                commit_sequence: CommitSequence(0),
                state_digest: StateDigest(0),
            }),
    {
        TestPipeline {
            run,
            identifier,
            stage: TestStage::Submitted,
            accepted_marker: StateMarker {
                commit_sequence: CommitSequence(0),
                state_digest: StateDigest(0),
            },
        }
    }

    /// The row of this run with a phase, an outcome and a closure.
    pub fn record_at(
        &self,
        phase: TestRunPhase,
        outcome: TestOutcome,
        closure_path: Option<ClosurePath>,
    ) -> (r: TestRunRecord)
        ensures
            r == self.row(phase, outcome, closure_path),
    {
        TestRunRecord {
            test_run_identifier: self.identifier.clone(),
            cluster_name: self.run.cluster.clone(),
            node: self.run.node.clone(),
            host: self.run.host.clone(),
            test_mode: self.run.profile.test_mode,
            test_run_phase: phase,
            test_outcome: outcome,
            optional_closure_path: closure_path,
        }
    }

    /// A change of state of this run's machine.
    pub fn container_transition(&self, state: ContainerState) -> (r: ContainerTransition)
        ensures
            r.cluster_name == self.run.cluster,
            r.node_name == self.run.node,
            r.container_name@ == "vm-"@ + self.run.node@,
            r.container_state == state,
    {
        ContainerTransition {
            cluster_name: self.run.cluster.clone(),
            node_name: self.run.node.clone(),
            container_name: ContainerName(concat("vm-", self.run.node.0.as_str())),
            container_state: state,
        }
    }
}

/// The answer to a test request.
#[derive(Debug, PartialEq, Eq)]
pub enum TestSubmissionOutcome {
    Accepted(AcceptedTest),
    Rejected(RejectedTest),
}

// ---- sandboxed checks -------------------------------------------------------------------------

/// The build of a sandboxed check.
#[derive(Debug, PartialEq, Eq)]
pub struct HermeticCheck {
    pub command: HermeticCheckCommand,
}

impl HermeticCheck {
    /// Takes the check to build.
    pub fn new(command: HermeticCheckCommand) -> (r: Self)
        ensures
            r.command == command,
    {
        HermeticCheck { command }
    }

    /// What is built: exactly the requested output of the flake.
    pub open spec fn installable_text(&self) -> Seq<char> {
        self.command.flake_reference@ + "#"@
            + self.command.test_execution_profile.deployment_output_selector@
    }

    /// What is built.
    pub fn installable(&self) -> (r: String)
        ensures
            r@ == self.installable_text(),
    {
        let mut text = self.command.flake_reference.0.clone();
        text.append("#");
        text.append(self.command.test_execution_profile.deployment_output_selector.0.0.as_str());
        text
    }

    /// Builds the check.
    pub fn invocation(&self) -> (r: NixCommand)
        ensures
            r@.program == "nix"@,
            r@.arguments == seq![
                "build"@,
                "--no-link"@,
                "--print-out-paths"@,
                self.installable_text(),
            ],
    {
        NixCommand::build_check(self.installable().as_str())
    }

    /// The closure that the build printed.
    pub fn closure_from(output: &str) -> (r: Result<ClosurePath, String>)
        ensures
            match r {
                Ok(closure_path) => is_canonical_store_root(first_line(output@)) && closure_path@
                    == first_line(output@),
                Err(detail) => !is_canonical_store_root(first_line(output@)) && detail@
                    == "nix hermetic check returned a noncanonical closure path"@,
            },
    {
        let closure_path = NixCommand::first_line(output);
        if canonical_nix_store_root(closure_path.as_str()) {
            Ok(ClosurePath(closure_path))
        } else {
            Err("nix hermetic check returned a noncanonical closure path".to_owned())
        }
    }
}

// ---- live machines ------------------------------------------------------------------------------

/// A test machine on a live host.
#[derive(Debug, PartialEq, Eq)]
pub struct LiveTestVm {
    pub target: SshTarget,
    pub node: NodeName,
    pub runner: String,
    pub guest_ip: String,
}

/// The user unit of a test machine.
pub open spec fn test_vm_unit(node: Seq<char>) -> Seq<char> {
    "lojix-test-vm-"@ + node
}

/// The commands run inside the machine's private network namespace.
pub open spec fn bring_up_text(guest_ip: Seq<char>, runner: Seq<char>) -> Seq<char> {
    "ip tuntap add dev vmt0 mode tap; ip addr add 169.254.100.1/32 dev vmt0; ip link set vmt0 up; ip route add "@
        + guest_ip + " dev vmt0; exec "@ + runner
}

impl LiveTestVm {
    /// Takes the machine to start.
    pub fn from_bring_up(command: &BringUpTestVmCommand) -> (r: Result<Self, String>)
        ensures
            r is Ok <==> is_store_uri(command.deployment_transport.nix_store_uri@)
                && is_ssh_destination(command.deployment_transport.ssh_destination@),
            r matches Ok(machine) ==> {
                &&& machine.target.is_valid()
                &&& machine.target.nix_store_uri == command.deployment_transport.nix_store_uri.0
                &&& machine.target.ssh_destination
                    == command.deployment_transport.ssh_destination.0
                &&& machine.node == command.node
                &&& machine.runner == command.closure_path.0
                &&& machine.guest_ip == command.string
            },
            r matches Err(fault) ==> fault@ == (if !is_store_uri(
                command.deployment_transport.nix_store_uri@,
            ) {
                store_uri_fault()
            } else {
                ssh_destination_fault(command.deployment_transport.ssh_destination@)
            }),
    {
        match SshTarget::from_transport(&command.deployment_transport) {
            Ok(target) => Ok(
                LiveTestVm {
                    target,
                    node: command.node.clone(),
                    runner: command.closure_path.0.clone(),
                    guest_ip: command.string.clone(),
                },
            ),
            Err(fault) => Err(fault),
        }
    }

    /// Takes the machine to stop.
    pub fn from_tear_down(command: &TearDownTestVmCommand) -> (r: Result<Self, String>)
        ensures
            r is Ok <==> is_store_uri(command.deployment_transport.nix_store_uri@)
                && is_ssh_destination(command.deployment_transport.ssh_destination@),
            r matches Ok(machine) ==> {
                &&& machine.target.is_valid()
                &&& machine.target.nix_store_uri == command.deployment_transport.nix_store_uri.0
                &&& machine.target.ssh_destination
                    == command.deployment_transport.ssh_destination.0
                &&& machine.node == command.node
                &&& machine.runner@ == Seq::<char>::empty()
                &&& machine.guest_ip@ == Seq::<char>::empty()
            },
            r matches Err(fault) ==> fault@ == (if !is_store_uri(
                command.deployment_transport.nix_store_uri@,
            ) {
                store_uri_fault()
            } else {
                ssh_destination_fault(command.deployment_transport.ssh_destination@)
            }),
    {
        match SshTarget::from_transport(&command.deployment_transport) {
            Ok(target) => Ok(
                LiveTestVm {
                    target,
                    node: command.node.clone(),
                    runner: String::new(),
                    guest_ip: String::new(),
                },
            ),
            Err(fault) => Err(fault),
        }
    }

    /// The user unit of the machine.
    pub fn unit_name(&self) -> (r: String)
        ensures
            r@ == test_vm_unit(self.node@),
    {
        concat("lojix-test-vm-", self.node.0.as_str())
    }

    /// The commands run inside the machine's private network namespace.
    pub fn bring_up_body(&self) -> (r: String)
        ensures
            r@ == bring_up_text(self.guest_ip@, self.runner@),
    {
        let mut text =
            "ip tuntap add dev vmt0 mode tap; ip addr add 169.254.100.1/32 dev vmt0; ip link set vmt0 up; ip route add ".to_owned();
        text.append(self.guest_ip.as_str());
        text.append(" dev vmt0; exec ");
        text.append(self.runner.as_str());
        text
    }

    /// Starts the machine in a user unit of its own.
    pub fn bring_up_invocation(&self) -> (r: NixCommand)
        ensures
            r@ == remote_command(
                self.target.ssh_destination@,
                "set -eu\nsystemd-run --user --unit="@ + test_vm_unit(self.node@)
                    + " --collect --service-type=notify unshare -rn /bin/sh -c "@ + shell_word(
                    bring_up_text(self.guest_ip@, self.runner@),
                ) + "\n"@,
            ),
    {
        let mut text = "set -eu\nsystemd-run --user --unit=".to_owned();
        text.append(self.unit_name().as_str());
        text.append(" --collect --service-type=notify unshare -rn /bin/sh -c ");
        text.append(ShellArgument::new(self.bring_up_body()).to_command_text().as_str());
        text.append("\n");
        self.target.remote_invocation(ShellCommand::from_raw(text))
    }

    /// Stops the machine's user unit.
    pub fn tear_down_invocation(&self) -> (r: NixCommand)
        ensures
            r@ == remote_command(
                self.target.ssh_destination@,
                "systemctl --user stop "@ + test_vm_unit(self.node@) + " || true"@,
            ),
    {
        let mut text = "systemctl --user stop ".to_owned();
        text.append(self.unit_name().as_str());
        text.append(" || true");
        self.target.remote_invocation(ShellCommand::from_raw(text))
    }
}

// ---- laws ------------------------------------------------------------------------------------------

/// No accepted request holds a live run.
pub proof fn law_live_runs_are_refused(
    defaults: Option<TestDefaults>,
    request: TestRequest,
    projection: Option<&ClusterProjection>,
)
    requires
        test_fault(defaults, request, projection) is None,
    ensures
        defaults is Some,
        !any_live(defaults->0.lowered(request, projected_hosted_nodes(projection))),
{
}

/// Where the cluster is projected, every run of an accepted request stands on
/// the host that is declared for its node.
pub proof fn law_accepted_runs_stand_on_declared_hosts(
    defaults: TestDefaults,
    request: TestRequest,
    projection: &ClusterProjection,
    i: int,
)
    requires
        test_fault(Some(defaults), request, Some(projection)) is None,
        0 <= i < defaults.lowered(request, hosted_nodes(projection.nodes@)).len(),
    ensures
        host_fault(
            projection.nodes@,
            defaults.lowered(request, hosted_nodes(projection.nodes@))[i].host@,
            defaults.lowered(request, hosted_nodes(projection.nodes@))[i].node@,
        ) is None,
{
    let runs = defaults.lowered(request, hosted_nodes(projection.nodes@));
    lemma_no_host_fault(runs, projection.nodes@, i);
}

proof fn lemma_no_host_fault(runs: Seq<ResolvedTestRun>, nodes: Seq<ProjectedNode>, i: int)
    requires
        first_host_fault(runs, nodes) is None,
        0 <= i < runs.len(),
    ensures
        host_fault(nodes, runs[i].host@, runs[i].node@) is None,
    decreases runs.len(),
{
    if i < runs.len() - 1 {
        lemma_no_host_fault(runs.drop_last(), nodes, i);
    }
}

} // verus!
