//! What a test request comes to: the runs that it asks for, why it is refused, and the
//! verdict of a run.

use crate::runtime_flow::{
    BringUpTestVmCommand, EffectCommand, EffectResult, EffectStage, HermeticCheckCommand,
    NexusAction, PathInfoGcCommand, SignalOutput, TearDownTestVmCommand,
};
use crate::runtime_flow;
use crate::runtime_model::{
    ContainerState, FailureStage, HostSelection, MetaEgress, NodeSelection, SemaWriteInput,
    StoredTestRun, TestExecutionProfile, TestMode, TestOutcome, TestRejectionReason, TestRequest,
    TestRunPhase,
};
use crate::schema_runtime::configuration::ConfiguredTestDefaults;
use crate::schema_runtime::effects::EffectPlan;
use crate::schema_runtime::engine::SchemaRuntime;
use crate::schema_runtime::ssh_target::{is_ssh_destination, is_store_uri};
use crate::schema_runtime::store::{first_key, largest, lemma_first_key, run_keys, StoreView};
use crate::schema_runtime::test_runs::{
    bring_up_text, carries_profile, ClusterProjection, first_host_fault, host_fault, hosted_nodes,
    node_named, projected_hosted_nodes, ProjectedNode, ResolvedTestRun, test_fault, test_vm_unit,
    TestDefaults,
};
use vstd::prelude::*;

verus! {

// ---- the runs of a request ------------------------------------------------------------------

/// The nodes of a cluster that stand on a host.
pub open spec fn on_a_host() -> spec_fn(ProjectedNode) -> bool {
    |node: ProjectedNode| node.super_node is Some
}

/// Whether `runs` are one run for each node that `request` asks for, in order.
pub open spec fn are_runs_of_nodes(
    runs: Seq<ResolvedTestRun>,
    request: TestRequest,
    projection: Option<&ClusterProjection>,
) -> bool {
    match request {
        TestRequest::Run(run) => match run.node_selection {
            NodeSelection::Nodes(nodes) => runs.len() == nodes@.len() && forall|i: int|
                0 <= i < runs.len() ==> (#[trigger] runs[i]).node == nodes@[i],
            NodeSelection::All => match projection {
                Some(cluster) => {
                    let hosted = cluster.nodes@.filter(on_a_host());
                    runs.len() == hosted.len() && forall|i: int|
                        0 <= i < runs.len() ==> (#[trigger] runs[i]).node == hosted[i].name
                },
                None => runs.len() == 0,
            },
        },
        TestRequest::Check(check) => runs.len() == check.0@.len() && forall|i: int|
            0 <= i < runs.len() ==> (#[trigger] runs[i]).node == check.0@[i],
    }
}

/// A request is lowered to one run for each node that it names, or for each node of the
/// cluster that stands on a host where it names all; on the host and with the profile
/// that it names, or with the defaults where it names none.
pub proof fn law_a_test_runs_what_was_asked(
    defaults: TestDefaults,
    request: TestRequest,
    projection: Option<&ClusterProjection>,
)
    ensures
        ({
            let runs = defaults.lowered(request, projected_hosted_nodes(projection));
            &&& are_runs_of_nodes(runs, request, projection)
            &&& forall|i: int|
                0 <= i < runs.len() ==> {
                    let run = #[trigger] runs[i];
                    &&& run.flake == defaults.test_flake
                    &&& match request {
                        TestRequest::Run(asked) => {
                            &&& run.cluster == asked.cluster_name
                            &&& run.profile == asked.test_execution_profile
                            &&& asked.host_selection is DefaultHost ==> run.host
                                == defaults.default_vm_host
                            &&& asked.host_selection matches HostSelection::OnHost(host)
                                ==> run.host == host
                        },
                        TestRequest::Check(_) => {
                            &&& run.cluster == defaults.cluster
                            &&& run.host == defaults.default_vm_host
                            &&& run.profile.test_mode == defaults.default_mode
                            &&& run.profile.nix_system == defaults.test_nix_system
                            &&& run.profile.deployment_output_selector
                                == defaults.test_output_selector
                            &&& run.profile.optional_deployment_transport is None
                        },
                    }
                }
        }),
{
    match projection {
        Some(cluster) => lemma_hosted(cluster.nodes@),
        None => {},
    }
}

proof fn lemma_hosted(nodes: Seq<ProjectedNode>)
    ensures
        hosted_nodes(nodes).len() == nodes.filter(on_a_host()).len(),
        forall|i: int|
            0 <= i < hosted_nodes(nodes).len() ==> #[trigger] hosted_nodes(nodes)[i]
                == nodes.filter(on_a_host())[i].name,
    decreases nodes.len(),
{
    reveal(Seq::filter);
    if nodes.len() > 0 {
        lemma_hosted(nodes.drop_last());
    }
}

// ---- refusals -------------------------------------------------------------------------------

/// Whether the node at `at` is the first one of its name.
pub open spec fn is_first_named(nodes: Seq<ProjectedNode>, name: Seq<char>, at: int) -> bool {
    &&& 0 <= at < nodes.len()
    &&& nodes[at].name@ == name
    &&& forall|i: int| 0 <= i < at ==> (#[trigger] nodes[i]).name@ != name
}

/// Whether the cluster knows a node.
pub open spec fn is_known(nodes: Seq<ProjectedNode>, name: Seq<char>) -> bool {
    exists|i: int| 0 <= i < nodes.len() && (#[trigger] nodes[i]).name@ == name
}

/// Whether the cluster says that a node stands on a host.
pub open spec fn stands_on(nodes: Seq<ProjectedNode>, name: Seq<char>, host: Seq<char>) -> bool {
    exists|at: int|
        #[trigger] is_first_named(nodes, name, at) && nodes[at].super_node is Some
            && nodes[at].super_node->0@ == host
}

/// Whether the first run that does not stand on its host is the one at `at`.
pub open spec fn is_first_misplaced(
    runs: Seq<ResolvedTestRun>,
    nodes: Seq<ProjectedNode>,
    at: int,
) -> bool {
    &&& 0 <= at < runs.len()
    &&& !stands_on(nodes, runs[at].node@, runs[at].host@)
    &&& forall|i: int|
        0 <= i < at ==> stands_on(nodes, (#[trigger] runs[i]).node@, runs[i].host@)
}

/// A test is refused without defaults, without a node, or with a live run; and, where
/// the cluster is known, for the first run whose node the cluster does not know or does
/// not have on the run's host. Any other test is accepted.
pub proof fn law_a_test_is_refused_for_its_first_fault(
    defaults: Option<TestDefaults>,
    request: TestRequest,
    projection: Option<&ClusterProjection>,
)
    ensures
        ({
            let runs = defaults->0.lowered(request, projected_hosted_nodes(projection));
            let live = exists|i: int|
                0 <= i < runs.len() && (#[trigger] runs[i]).profile.test_mode == TestMode::Live;
            match test_fault(defaults, request, projection) {
                Some(TestRejectionReason::NoTestDefaults) => defaults is None,
                Some(TestRejectionReason::LiveNotYetEnabled) => defaults is Some && live,
                Some(TestRejectionReason::NodeUnknown) => defaults is Some && (runs.len() == 0 || (
                !live && projection is Some && exists|at: int|
                    #[trigger] is_first_misplaced(runs, projection->0.nodes@, at) && !is_known(
                        projection->0.nodes@,
                        runs[at].node@,
                    ))),
                Some(TestRejectionReason::VmHostNotDeclaredForNode) => defaults is Some
                    && runs.len() > 0 && !live && projection is Some && exists|at: int|
                    #[trigger] is_first_misplaced(runs, projection->0.nodes@, at) && is_known(
                        projection->0.nodes@,
                        runs[at].node@,
                    ),
                None => defaults is Some && runs.len() > 0 && !live && (projection is Some
                    ==> forall|i: int|
                    0 <= i < runs.len() ==> stands_on(
                        projection->0.nodes@,
                        (#[trigger] runs[i]).node@,
                        runs[i].host@,
                    )),
                _ => false,
            }
        }),
{
    if defaults is Some && projection is Some {
        let runs = defaults->0.lowered(request, projected_hosted_nodes(projection));
        lemma_first_misplaced(runs, projection->0.nodes@);
    }
}

proof fn lemma_named(nodes: Seq<ProjectedNode>, name: Seq<char>)
    ensures
        node_named(nodes, name) is Some <==> is_known(nodes, name),
        node_named(nodes, name) matches Some(found) ==> exists|at: int|
            #[trigger] is_first_named(nodes, name, at) && nodes[at] == found,
    decreases nodes.len(),
{
    if nodes.len() > 0 {
        if nodes[0].name@ == name {
            assert(is_first_named(nodes, name, 0));
        } else {
            let rest = nodes.skip(1);
            lemma_named(rest, name);
            if is_known(rest, name) {
                let i = choose|i: int| 0 <= i < rest.len() && (#[trigger] rest[i]).name@ == name;
                assert(nodes[i + 1].name@ == name);
                let at = choose|at: int|
                    #[trigger] is_first_named(rest, name, at) && rest[at] == node_named(
                        rest,
                        name,
                    )->0;
                assert forall|k: int| 0 <= k < at + 1 implies (#[trigger] nodes[k]).name@
                    != name by {
                    if k > 0 {
                        assert(nodes[k] == rest[k - 1]);
                    }
                }
                assert(is_first_named(nodes, name, at + 1));
            }
            if is_known(nodes, name) {
                let i = choose|i: int| 0 <= i < nodes.len() && (#[trigger] nodes[i]).name@ == name;
                assert(rest[i - 1].name@ == name);
            }
        }
    }
}

proof fn lemma_host_fault(nodes: Seq<ProjectedNode>, host: Seq<char>, node: Seq<char>)
    ensures
        match host_fault(nodes, host, node) {
            None => stands_on(nodes, node, host),
            Some(TestRejectionReason::NodeUnknown) => !stands_on(nodes, node, host) && !is_known(
                nodes,
                node,
            ),
            Some(TestRejectionReason::VmHostNotDeclaredForNode) => !stands_on(nodes, node, host)
                && is_known(nodes, node),
            _ => false,
        },
{
    lemma_named(nodes, node);
    if stands_on(nodes, node, host) {
        let at = choose|at: int|
            #[trigger] is_first_named(nodes, node, at) && nodes[at].super_node is Some
                && nodes[at].super_node->0@ == host;
        assert(is_known(nodes, node));
        let other = choose|other: int|
            #[trigger] is_first_named(nodes, node, other) && nodes[other] == node_named(
                nodes,
                node,
            )->0;
        assert(at == other) by {
            if at < other {
                assert(nodes[at].name@ != node);
            }
            if other < at {
                assert(nodes[other].name@ != node);
            }
        }
    }
}

proof fn lemma_first_misplaced(runs: Seq<ResolvedTestRun>, nodes: Seq<ProjectedNode>)
    ensures
        match first_host_fault(runs, nodes) {
            None => forall|i: int|
                0 <= i < runs.len() ==> stands_on(nodes, (#[trigger] runs[i]).node@, runs[i].host@),
            Some(TestRejectionReason::NodeUnknown) => exists|at: int|
                #[trigger] is_first_misplaced(runs, nodes, at) && !is_known(
                    nodes,
                    runs[at].node@,
                ),
            Some(TestRejectionReason::VmHostNotDeclaredForNode) => exists|at: int|
                #[trigger] is_first_misplaced(runs, nodes, at) && is_known(nodes, runs[at].node@),
            _ => false,
        },
    decreases runs.len(),
{
    if runs.len() > 0 {
        let rest = runs.drop_last();
        let last = runs.len() - 1;
        lemma_first_misplaced(rest, nodes);
        lemma_host_fault(nodes, runs.last().host@, runs.last().node@);
        match first_host_fault(rest, nodes) {
            None => {
                assert forall|i: int| 0 <= i < last implies stands_on(
                    nodes,
                    (#[trigger] runs[i]).node@,
                    runs[i].host@,
                ) by {
                    assert(rest[i] == runs[i]);
                }
                if !stands_on(nodes, runs.last().node@, runs.last().host@) {
                    assert(is_first_misplaced(runs, nodes, last));
                }
            },
            Some(_) => {
                let at = choose|at: int|
                    #[trigger] is_first_misplaced(rest, nodes, at) && is_known(
                        nodes,
                        rest[at].node@,
                    ) == (first_host_fault(rest, nodes) != Some(
                        TestRejectionReason::NodeUnknown,
                    ));
                assert forall|i: int| 0 <= i < at implies stands_on(
                    nodes,
                    (#[trigger] runs[i]).node@,
                    runs[i].host@,
                ) by {
                    assert(rest[i] == runs[i]);
                }
                assert(is_first_misplaced(runs, nodes, at));
            },
        }
    }
}

// ---- verdicts -------------------------------------------------------------------------------

/// An accepted test is recorded as pending under a number that no run has had, for the
/// first of its runs; nothing is known of its closure yet.
pub proof fn law_an_accepted_test_is_pending(
    engine: SchemaRuntime,
    request: TestRequest,
    projection: Option<&ClusterProjection>,
    after: SchemaRuntime,
    action: NexusAction,
)
    requires
        engine.store@.fits_run(),
        test_fault(engine.configuration.test_defaults, request, projection) is None,
        engine.follows_test(request, projection, after, action),
    ensures
        action matches NexusAction::CommandSemaWrite(SemaWriteInput::RecordTestRun(row)) && {
            let run = engine.configuration.test_defaults->0.lowered(
                request,
                projected_hosted_nodes(projection),
            )[0];
            &&& forall|i: int|
                0 <= i < engine.store@.runs.len() ==> (
                #[trigger] engine.store@.runs[i]).test_run_identifier.0
                    < row.test_run_identifier.0
            &&& row.cluster_name == run.cluster
            &&& row.node == run.node
            &&& row.host == run.host
            &&& row.test_mode == run.profile.test_mode
            &&& row.test_run_phase == TestRunPhase::Submitted
            &&& row.test_outcome == TestOutcome::Pending
            &&& row.optional_closure_path is None
            &&& after.active_test matches Some(pipeline) && pipeline.run == run
                && pipeline.identifier == row.test_run_identifier
        },
{
    let keys = run_keys(engine.store@.runs);
    lemma_largest_bounds(keys);
    assert forall|i: int| 0 <= i < engine.store@.runs.len() implies (
    #[trigger] engine.store@.runs[i]).test_run_identifier.0 <= largest(keys) by {
        assert(keys[i] == engine.store@.runs[i].test_run_identifier.0);
    }
}

proof fn lemma_largest_bounds(keys: Seq<u64>)
    ensures
        forall|i: int| 0 <= i < keys.len() ==> #[trigger] keys[i] <= largest(keys),
    decreases keys.len(),
{
    if keys.len() > 0 {
        lemma_largest_bounds(keys.drop_last());
        assert forall|i: int| 0 <= i < keys.len() implies #[trigger] keys[i] <= largest(keys) by {
            if i < keys.len() - 1 {
                assert(keys[i] == keys.drop_last()[i]);
            }
        }
    }
}

/// The row of a run that is kept.
pub open spec fn row_of(store: StoreView, identifier: u64) -> StoredTestRun {
    store.runs[first_key(run_keys(store.runs), identifier)->0]
}

/// The verdict of a run that failed in `stage`.
pub open spec fn blames(stage: EffectStage, named: FailureStage) -> bool {
    match named {
        FailureStage::HermeticCheck => stage == EffectStage::HermeticCheck,
        FailureStage::BringUp => stage == EffectStage::BringUpTestVm,
        FailureStage::TearDown => stage == EffectStage::TearDownTestVm,
        FailureStage::Assert => stage == EffectStage::Activate,
        FailureStage::Deploy => stage == EffectStage::FlakeAuth || stage
            == EffectStage::MaterializeHorizon || stage == EffectStage::Eval || stage
            == EffectStage::Build || stage == EffectStage::CopyClosure || stage
            == EffectStage::Gc,
    }
}

/// The verdict of a run: it passes with the closure of its check, and with nothing
/// else. It fails in the stage that failed. A machine that was started is stopped
/// again, and a run that only got so far has not shown what it was to show.
pub proof fn law_a_verdict_is_of_its_run(
    engine: SchemaRuntime,
    result: EffectResult,
    after: SchemaRuntime,
    action: NexusAction,
)
    requires
        engine.active_test is Some,
        engine.follows_test_effect(result, after, action),
    ensures
        ({
            let pipeline = engine.active_test->0;
            let row = row_of(after.store@, pipeline.identifier.0);
            &&& after.active_deploy == engine.active_deploy
            &&& after.configuration == engine.configuration
            &&& after.store@.deployments == engine.store@.deployments
            &&& after.store@.live_set == engine.store@.live_set
            &&& after.store@.roots == engine.store@.roots
            &&& result is TestVmStarted ==> {
                &&& action matches NexusAction::CommandEffect(EffectCommand::TearDownTestVm(command))
                    && command.node == pipeline.run.node && command.host == pipeline.run.host
                    && command.cluster_name == pipeline.run.cluster
                &&& after.active_test is Some
                &&& after.store@.runs == engine.store@.runs
                &&& after.store@.containers.last().container_state == ContainerState::Started
                &&& after.store@.containers.last().container_name@ == "vm-"@ + pipeline.run.node@
            }
            &&& !(result is TestVmStarted) ==> {
                &&& after.active_test is None
                &&& after.active_operation is None
                &&& row.test_run_identifier == pipeline.identifier
                &&& row.cluster_name == pipeline.run.cluster
                &&& row.node == pipeline.run.node
                &&& row.host == pipeline.run.host
                &&& row.test_mode == pipeline.run.profile.test_mode
                &&& action matches NexusAction::ReplyToSignal(
                    SignalOutput::MetaOutput(MetaEgress::Tested(accepted)),
                ) && accepted.test_run_identifier == pipeline.identifier
                    && accepted.state_marker.commit_sequence.0 == after.store@.commits
            }
            &&& result matches EffectResult::HermeticCheckBuilt(built) ==> {
                &&& row.test_outcome == TestOutcome::Passed
                &&& row.test_run_phase == TestRunPhase::Completed
                &&& row.optional_closure_path == Some(built.closure_path)
            }
            &&& !(result is HermeticCheckBuilt) && !(result is TestVmStarted) ==> {
                &&& row.test_run_phase == TestRunPhase::Failed
                &&& row.optional_closure_path is None
                &&& row.test_outcome matches TestOutcome::Failed(named) && match result {
                    EffectResult::EffectFailed(failure) => blames(failure.effect_stage, named),
                    EffectResult::TestVmStopped(_) => named == FailureStage::Assert,
                    _ => named == FailureStage::HermeticCheck,
                }
            }
            &&& result is TestVmStopped ==> after.store@.containers.last().container_state
                == ContainerState::Stopped && after.store@.containers.last().container_name@
                == "vm-"@ + pipeline.run.node@
        }),
{
    let identifier = engine.active_test->0.identifier.0;
    let keys = run_keys(engine.store@.runs);
    lemma_first_key(keys, identifier);
    let after_keys = run_keys(after.store@.runs);
    if !(result is TestVmStarted) {
        match first_key(keys, identifier) {
            Some(at) => {
                assert(after_keys =~= keys);
            },
            None => {
                assert(after_keys =~= keys.push(identifier));
                assert(after_keys[keys.len() as int] == identifier);
                assert(after_keys.contains(identifier));
                lemma_first_key(after_keys, identifier);
                let at = first_key(after_keys, identifier)->0;
                if at < keys.len() {
                    assert(keys[at] == identifier);
                    assert(keys.contains(identifier));
                }
            },
        }
    }
}

/// Every machine has a unit of its own, named after its node.
pub proof fn law_test_machines_have_their_own_units(first: Seq<char>, second: Seq<char>)
    requires
        test_vm_unit(first) == test_vm_unit(second),
    ensures
        first == second,
        test_vm_unit(first) == "lojix-test-vm-"@ + first,
{
    let prefix = "lojix-test-vm-"@;
    assert(test_vm_unit(first).skip(prefix.len() as int) =~= first);
    assert(test_vm_unit(second).skip(prefix.len() as int) =~= second);
}

/// A check builds the output that its profile selects, of its own flake.
pub proof fn law_a_check_builds_the_selected_output(
    engine: SchemaRuntime,
    command: HermeticCheckCommand,
    fault: Option<String>,
    plan: EffectPlan,
)
    requires
        engine.is_plan(EffectCommand::HermeticCheck(command), fault, plan),
    ensures
        plan matches EffectPlan::Run(invocation) && invocation@.program == "nix"@
            && invocation@.arguments == seq![
            "build"@,
            "--no-link"@,
            "--print-out-paths"@,
            command.flake_reference@ + "#"@
                + command.test_execution_profile.deployment_output_selector@,
        ],
{
}

/// A profile is carried to a command as it is.
pub proof fn law_a_profile_is_carried_as_it_is(
    carried: runtime_flow::TestExecutionProfile,
    profile: TestExecutionProfile,
)
    requires
        carries_profile(carried, profile),
    ensures
        carried.test_mode == profile.test_mode,
        carried.nix_system@ == profile.nix_system@,
        carried.deployment_output_selector@ == profile.deployment_output_selector@,
        carried.optional_deployment_transport is Some
            <==> profile.optional_deployment_transport is Some,
        carried.optional_deployment_transport matches Some(route) ==> {
            &&& route.nix_store_uri@ == profile.optional_deployment_transport->0.nix_store_uri@
            &&& route.ssh_destination@
                == profile.optional_deployment_transport->0.ssh_destination@
        },
{
}

/// Garbage is collected on the asked node and nowhere else.
pub proof fn law_garbage_is_collected_on_the_asked_node(
    engine: SchemaRuntime,
    command: PathInfoGcCommand,
    fault: Option<String>,
    plan: EffectPlan,
)
    requires
        engine.is_plan(EffectCommand::PathInfoGc(command), fault, plan),
    ensures
        plan matches EffectPlan::Run(invocation) && invocation@.program == "ssh"@
            && invocation@.arguments == seq![command.node_name@, "nix-store --gc"@],
{
}

/// A machine is started or stopped where its route is one, and named in the result; a
/// route that is none fails the stage.
pub proof fn law_a_machine_needs_its_route(
    engine: SchemaRuntime,
    up: BringUpTestVmCommand,
    down: TearDownTestVmCommand,
    fault: Option<String>,
    started: EffectPlan,
    stopped: EffectPlan,
)
    requires
        engine.is_plan(EffectCommand::BringUpTestVm(up), fault, started),
        engine.is_plan(EffectCommand::TearDownTestVm(down), fault, stopped),
    ensures
        is_store_uri(up.deployment_transport.nix_store_uri@) && is_ssh_destination(
            up.deployment_transport.ssh_destination@,
        ) ==> (started matches EffectPlan::Done(EffectResult::TestVmStarted(machine))
            && machine.node == up.node && machine.host == up.host && machine.cluster_name
            == up.cluster_name),
        !(is_store_uri(up.deployment_transport.nix_store_uri@) && is_ssh_destination(
            up.deployment_transport.ssh_destination@,
        )) ==> (started matches EffectPlan::Done(EffectResult::EffectFailed(failure))
            && failure.effect_stage == EffectStage::BringUpTestVm),
        is_store_uri(down.deployment_transport.nix_store_uri@) && is_ssh_destination(
            down.deployment_transport.ssh_destination@,
        ) ==> (stopped matches EffectPlan::Done(EffectResult::TestVmStopped(machine))
            && machine.node == down.node && machine.host == down.host && machine.cluster_name
            == down.cluster_name),
        !(is_store_uri(down.deployment_transport.nix_store_uri@) && is_ssh_destination(
            down.deployment_transport.ssh_destination@,
        )) ==> (stopped matches EffectPlan::Done(EffectResult::EffectFailed(failure))
            && failure.effect_stage == EffectStage::TearDownTestVm),
{
}

/// What runs inside a machine's own network: a link to the guest, and then the runner.
pub proof fn law_a_machine_runs_behind_its_own_link(guest: Seq<char>, runner: Seq<char>)
    ensures
        bring_up_text(guest, runner)
            == "ip tuntap add dev vmt0 mode tap; ip addr add 169.254.100.1/32 dev vmt0; ip link set vmt0 up; ip route add "@
            + guest + " dev vmt0; exec "@ + runner,
{
}

/// The defaults of tests are those that were configured.
pub proof fn law_defaults_are_those_configured(
    defaults: TestDefaults,
    configured: ConfiguredTestDefaults,
)
    requires
        defaults.is_configured_by(configured),
    ensures
        defaults.cluster@ == configured.cluster@,
        defaults.default_vm_host@ == configured.default_vm_host@,
        defaults.default_mode == configured.default_mode,
        defaults.test_flake@ == configured.test_flake@,
        defaults.test_nix_system@ == configured.test_nix_system@,
        defaults.test_output_selector@ == configured.test_output_selector@,
        defaults.proposal_source@ == configured.proposal_source@,
{
}

/// A submitted test begins with the check of its own node, cluster and flake, under its
/// own profile; a live one would begin with its machine.
pub proof fn law_a_submitted_test_begins_with_its_check(
    run: ResolvedTestRun,
    effect: EffectCommand,
)
    requires
        SchemaRuntime::begins_with(run, effect),
    ensures
        effect is HermeticCheck <==> run.profile.test_mode == TestMode::Hermetic,
        effect is BringUpTestVm <==> run.profile.test_mode == TestMode::Live,
        effect matches EffectCommand::HermeticCheck(command) ==> command.node_name == run.node
            && command.cluster_name == run.cluster && command.flake_reference == run.flake
            && command.test_execution_profile.deployment_output_selector@
            == run.profile.deployment_output_selector@,
        effect matches EffectCommand::BringUpTestVm(command) ==> command.node == run.node
            && command.host == run.host && command.cluster_name == run.cluster,
{
}

} // verus!
