//! What pinning, unpinning and retiring come to, from the request to its answer.

use crate::runtime_flow::{NexusAction, SignalOutput};
use crate::runtime_model::{
    GcRoot, GenerationSlot, MetaEgress, MetaIngress, PinRejectionReason, PinRequest,
    RetireRejectionReason, RetireRequest, SemaWriteOutput, UnpinRejectionReason, UnpinRequest,
};
use crate::schema_runtime::engine::SchemaRuntime;
use crate::schema_runtime::requests::AdmissionEvidence;
use crate::schema_runtime::store::{root_keys, StoreView};
use crate::schema_runtime::test_runs::ClusterProjection;
use crate::schema_runtime::writes::{
    first_root, has_label, is_label_used, lemma_first_root, of_generation, with_label,
};
use vstd::prelude::*;

verus! {

/// Whether `root` carries `label`.
pub open spec fn is_labelled(root: GcRoot, label: Seq<char>) -> bool {
    root.optional_pin_label is Some && root.optional_pin_label->0@ == label
}

/// Whether `root` keeps a generation of a node.
pub open spec fn keeps(root: GcRoot, generation: u64, cluster: Seq<char>, node: Seq<char>) -> bool {
    root.generation_identifier.0 == generation && root.cluster_name@ == cluster && root.node_name@
        == node
}

/// Two roots keep the same closure for the same node.
pub open spec fn is_same_root(first: GcRoot, second: GcRoot) -> bool {
    &&& first.generation_identifier == second.generation_identifier
    &&& first.cluster_name == second.cluster_name
    &&& first.node_name == second.node_name
    &&& first.closure_path == second.closure_path
}

/// `after` holds the roots of `before` but for the one at `at`.
pub open spec fn differs_at(before: Seq<GcRoot>, after: Seq<GcRoot>, at: int) -> bool {
    &&& 0 <= at < before.len()
    &&& after.len() == before.len()
    &&& forall|i: int| 0 <= i < before.len() && i != at ==> #[trigger] after[i] == before[i]
}

/// `after` is `before` with other roots, one commit later.
pub open spec fn changes_roots_only(before: StoreView, after: StoreView) -> bool {
    after == (StoreView { roots: after.roots, commits: (before.commits + 1) as u64, ..before })
}

/// A pin is applied to the asked generation of the asked node, under a label that was
/// free, and changes nothing else. A label that any generation carries is refused
/// first, and a generation that is not kept on the node after that; neither changes
/// anything.
pub proof fn law_a_pin_holds_the_asked_generation(
    engine: SchemaRuntime,
    request: PinRequest,
    evidence: AdmissionEvidence,
    projection: Option<&ClusterProjection>,
    asked: SchemaRuntime,
    action: NexusAction,
    written: SchemaRuntime,
    output: SemaWriteOutput,
    after: SchemaRuntime,
    answer: NexusAction,
)
    requires
        engine.follows_meta(MetaIngress::Pin(request), evidence, projection, asked, action),
        action matches NexusAction::CommandSemaWrite(input) && asked.writes(input, written, output),
        written.follows_write(output, after, answer),
    ensures
        ({
            let roots = engine.store@.roots;
            let label = request.pin_label@;
            let in_use = exists|i: int|
                0 <= i < roots.len() && is_labelled(#[trigger] roots[i], label);
            let known = exists|i: int|
                0 <= i < roots.len() && keeps(
                    #[trigger] roots[i],
                    request.generation_identifier.0,
                    request.cluster_name@,
                    request.node_name@,
                );
            let reply = answer->ReplyToSignal_0->MetaOutput_0;
            &&& answer matches NexusAction::ReplyToSignal(SignalOutput::MetaOutput(_))
            &&& reply is Pinned <==> !in_use && known
            &&& reply matches MetaEgress::PinRejected(rejected) ==> {
                &&& rejected.pin_rejection_reason == (if in_use {
                    PinRejectionReason::PinLabelInUse
                } else {
                    PinRejectionReason::GenerationUnknown
                })
                &&& rejected.state_marker.commit_sequence.0 == engine.store@.commits
                &&& after.store@ == engine.store@
            }
            &&& reply is Pinned || reply is PinRejected
            &&& reply matches MetaEgress::Pinned(applied) ==> {
                &&& applied.generation_identifier == request.generation_identifier
                &&& applied.pin_label == request.pin_label
                &&& applied.to_slot == GenerationSlot::Pinned
                &&& applied.state_marker.commit_sequence.0 == after.store@.commits
                &&& changes_roots_only(engine.store@, after.store@)
                &&& exists|at: int|
                    {
                        &&& #[trigger] differs_at(roots, after.store@.roots, at)
                        &&& keeps(
                            roots[at],
                            request.generation_identifier.0,
                            request.cluster_name@,
                            request.node_name@,
                        )
                        &&& applied.from_slot == roots[at].generation_slot
                        &&& is_same_root(after.store@.roots[at], roots[at])
                        &&& after.store@.roots[at].generation_slot == GenerationSlot::Pinned
                        &&& is_labelled(after.store@.roots[at], label)
                    }
            }
        }),
{
    let roots = engine.store@.roots;
    let label = request.pin_label@;
    let wanted = of_generation(
        request.generation_identifier.0,
        request.cluster_name@,
        request.node_name@,
    );
    lemma_first_root(roots, wanted);
    assert forall|i: int| 0 <= i < roots.len() implies has_label(#[trigger] roots[i], label)
        == is_labelled(roots[i], label) by {}
    match first_root(roots, wanted) {
        Some(at) => {
            assert(keeps(
                roots[at],
                request.generation_identifier.0,
                request.cluster_name@,
                request.node_name@,
            ));
            if !is_label_used(roots, label) {
                assert(differs_at(roots, after.store@.roots, at));
            }
        },
        None => {
            assert forall|i: int| 0 <= i < roots.len() implies !keeps(
                #[trigger] roots[i],
                request.generation_identifier.0,
                request.cluster_name@,
                request.node_name@,
            ) by {
                assert(!wanted(roots[i]));
            }
        },
    }
}

/// An unpin takes the asked label from a generation of the asked node that carries it,
/// and changes nothing else; it is refused where no such generation is.
pub proof fn law_an_unpin_frees_the_asked_label(
    engine: SchemaRuntime,
    request: UnpinRequest,
    evidence: AdmissionEvidence,
    projection: Option<&ClusterProjection>,
    asked: SchemaRuntime,
    action: NexusAction,
    written: SchemaRuntime,
    output: SemaWriteOutput,
    after: SchemaRuntime,
    answer: NexusAction,
)
    requires
        engine.follows_meta(MetaIngress::Unpin(request), evidence, projection, asked, action),
        action matches NexusAction::CommandSemaWrite(input) && asked.writes(input, written, output),
        written.follows_write(output, after, answer),
    ensures
        ({
            let roots = engine.store@.roots;
            let label = request.pin_label@;
            let known = exists|i: int|
                0 <= i < roots.len() && is_labelled(#[trigger] roots[i], label)
                    && roots[i].cluster_name@ == request.cluster_name@ && roots[i].node_name@
                    == request.node_name@;
            let reply = answer->ReplyToSignal_0->MetaOutput_0;
            &&& answer matches NexusAction::ReplyToSignal(SignalOutput::MetaOutput(_))
            &&& reply is Unpinned <==> known
            &&& reply is Unpinned || reply is UnpinRejected
            &&& reply matches MetaEgress::UnpinRejected(rejected) ==> {
                &&& rejected.unpin_rejection_reason == UnpinRejectionReason::PinLabelUnknown
                &&& rejected.state_marker.commit_sequence.0 == engine.store@.commits
                &&& after.store@ == engine.store@
            }
            &&& reply matches MetaEgress::Unpinned(applied) ==> {
                &&& applied.pin_label == request.pin_label
                &&& applied.to_slot == GenerationSlot::Recent
                &&& applied.state_marker.commit_sequence.0 == after.store@.commits
                &&& changes_roots_only(engine.store@, after.store@)
                &&& exists|at: int|
                    {
                        &&& #[trigger] differs_at(roots, after.store@.roots, at)
                        &&& is_labelled(roots[at], label)
                        &&& roots[at].cluster_name@ == request.cluster_name@
                        &&& roots[at].node_name@ == request.node_name@
                        &&& applied.generation_identifier == roots[at].generation_identifier
                        &&& applied.from_slot == roots[at].generation_slot
                        &&& is_same_root(after.store@.roots[at], roots[at])
                        &&& after.store@.roots[at].generation_slot == GenerationSlot::Recent
                        &&& after.store@.roots[at].optional_pin_label is None
                    }
            }
        }),
{
    let roots = engine.store@.roots;
    let label = request.pin_label@;
    let wanted = with_label(label, request.cluster_name@, request.node_name@);
    lemma_first_root(roots, wanted);
    match first_root(roots, wanted) {
        Some(at) => {
            assert(is_labelled(roots[at], label));
            assert(differs_at(roots, after.store@.roots, at));
        },
        None => {
            assert forall|i: int| 0 <= i < roots.len() && is_labelled(#[trigger] roots[i], label)
                && roots[i].cluster_name@ == request.cluster_name@ && roots[i].node_name@
                == request.node_name@ implies false by {
                assert(!wanted(roots[i]));
            }
        },
    }
}

/// A retirement drops the root of the asked generation of the asked node and leaves
/// every other; a pinned generation and one that is not kept there are refused.
pub proof fn law_a_retirement_drops_the_asked_root(
    engine: SchemaRuntime,
    request: RetireRequest,
    evidence: AdmissionEvidence,
    projection: Option<&ClusterProjection>,
    asked: SchemaRuntime,
    action: NexusAction,
    written: SchemaRuntime,
    output: SemaWriteOutput,
    after: SchemaRuntime,
    answer: NexusAction,
)
    requires
        engine.store@.is_consistent(),
        engine.follows_meta(MetaIngress::Retire(request), evidence, projection, asked, action),
        action matches NexusAction::CommandSemaWrite(input) && asked.writes(input, written, output),
        written.follows_write(output, after, answer),
    ensures
        ({
            let roots = engine.store@.roots;
            let generation = request.generation_identifier.0;
            let cluster = request.cluster_name@;
            let node = request.node_name@;
            let known = exists|i: int|
                0 <= i < roots.len() && keeps(#[trigger] roots[i], generation, cluster, node);
            let pinned = exists|i: int|
                0 <= i < roots.len() && keeps(#[trigger] roots[i], generation, cluster, node)
                    && roots[i].generation_slot == GenerationSlot::Pinned;
            let reply = answer->ReplyToSignal_0->MetaOutput_0;
            &&& answer matches NexusAction::ReplyToSignal(SignalOutput::MetaOutput(_))
            &&& reply is Retired <==> known && !pinned
            &&& reply is Retired || reply is RetireRejected
            &&& reply matches MetaEgress::RetireRejected(rejected) ==> {
                &&& rejected.retire_rejection_reason == (if known {
                    RetireRejectionReason::GenerationPinned
                } else {
                    RetireRejectionReason::GenerationUnknown
                })
                &&& rejected.state_marker.commit_sequence.0 == engine.store@.commits
                &&& after.store@ == engine.store@
            }
            &&& reply matches MetaEgress::Retired(applied) ==> {
                &&& applied.generation_identifier == request.generation_identifier
                &&& applied.state_marker.commit_sequence.0 == after.store@.commits
                &&& changes_roots_only(engine.store@, after.store@)
                &&& exists|at: int|
                    {
                        &&& 0 <= at < roots.len()
                        &&& keeps(#[trigger] roots[at], generation, cluster, node)
                        &&& applied.generation_slot == roots[at].generation_slot
                        &&& after.store@.roots == roots.remove(at)
                    }
            }
        }),
{
    let roots = engine.store@.roots;
    let generation = request.generation_identifier.0;
    let cluster = request.cluster_name@;
    let node = request.node_name@;
    let wanted = of_generation(generation, cluster, node);
    lemma_first_root(roots, wanted);
    match first_root(roots, wanted) {
        Some(at) => {
            assert(keeps(roots[at], generation, cluster, node));
            assert forall|i: int| 0 <= i < roots.len() && keeps(
                #[trigger] roots[i],
                generation,
                cluster,
                node,
            ) implies i == at by {
                let keys = root_keys(roots);
                assert(keys[i] == keys[at]);
            }
        },
        None => {
            assert forall|i: int| 0 <= i < roots.len() implies !keeps(
                #[trigger] roots[i],
                generation,
                cluster,
                node,
            ) by {
                assert(!wanted(roots[i]));
            }
        },
    }
}

} // verus!
