//! The staging plane: where sources are kept, and the source staged last.

use crate::error::Error;
use crate::generated::{
    ActorReply, ActorRequest, PlanRecord, SourceDigest, SourceRecord, StateDirectory,
};
use crate::paths::{join_path, path_join};
use crate::text::{concat, decimal, decimal_text, is_lower_hex};
use vstd::prelude::*;
use vstd::utf8::encode_utf8;

verus! {

/// The BLAKE3 digest of `bytes`, as lowercase hexadecimal digits.
pub uninterp spec fn blake3_hex(bytes: Seq<u8>) -> Seq<char>;

/// `blake3::Hasher::new`, `update`, `finalize` and `Hash::to_hex`: the digest of the
/// whole input depends on its bytes alone, and its text is 64 lowercase
/// hexadecimal digits. Nothing else is claimed of which digits they are.
#[verifier::external_body]
fn digest_text(bytes: &[u8]) -> (r: String)
    ensures
        r@ == blake3_hex(bytes@),
        r@.len() == 64,
        forall|i: int| 0 <= i < r@.len() ==> is_lower_hex(#[trigger] r@[i]),
{
    let mut hasher = blake3::Hasher::new();
    hasher.update(bytes);
    hasher.finalize().to_hex().to_string()
}

/// What a plan's digest is taken of: its identifier, its view and its node, a line
/// each.
pub open spec fn digested_bytes(plan: PlanRecord) -> Seq<u8> {
    encode_utf8(decimal(plan.deployment_identifier.0 as nat)) + seq![10u8] + encode_utf8(
        plan.horizon_view@,
    ) + seq![10u8] + encode_utf8(plan.target_node@)
}

fn append_text(bytes: &mut Vec<u8>, text: &str)
    ensures
        final(bytes)@ == old(bytes)@ + encode_utf8(text@),
{
    let source = text.as_bytes();
    let ghost before = bytes@;
    let size: usize = source.len();
    let mut i: usize = 0;
    while i < size
        invariant
            i <= size,
            size == source@.len(),
            bytes@ == before + source@.take(i as int),
        decreases size - i,
    {
        bytes.push(source[i]);
        assert(source@.take(i + 1) =~= source@.take(i as int).push(source@[i as int]));
        assert(bytes@ =~= before + source@.take(i + 1));
        i = i + 1;
    }
    assert(source@.take(i as int) =~= source@);
}

impl PlanRecord {
    /// The digest of the plan's source.
    pub fn source_digest(&self) -> (r: SourceDigest)
        ensures
            r@ == blake3_hex(digested_bytes(*self)),
            r@.len() == 64,
            forall|i: int| 0 <= i < r@.len() ==> is_lower_hex(#[trigger] r@[i]),
    {
        let mut bytes: Vec<u8> = Vec::new();
        let number = decimal_text(self.deployment_identifier.0);
        append_text(&mut bytes, number.as_str());
        bytes.push(10u8);
        append_text(&mut bytes, self.horizon_view.0.as_str());
        bytes.push(10u8);
        append_text(&mut bytes, self.target_node.0.as_str());
        assert(bytes@ =~= digested_bytes(*self));
        SourceDigest(digest_text(bytes.as_slice()))
    }
}

impl SourceRecord {
    /// The source of `plan` under a digest.
    pub open spec fn stages(&self, plan: PlanRecord, digest: Seq<char>) -> bool {
        &&& self.deployment_identifier == plan.deployment_identifier
        &&& self.horizon_view == plan.horizon_view
        &&& self.target_node == plan.target_node
        &&& self.source_digest@ == digest
    }

    /// The source of `plan` under `source_digest`.
    pub fn with_digest(plan: &PlanRecord, source_digest: SourceDigest) -> (r: Self)
        ensures
            r.stages(*plan, source_digest@),
    {
        SourceRecord {
            deployment_identifier: plan.deployment_identifier,
            horizon_view: plan.horizon_view.clone(),
            target_node: plan.target_node.clone(),
            source_digest,
        }
    }

    /// The source of `plan`.
    pub fn from_plan(plan: &PlanRecord) -> (r: Self)
        ensures
            r.stages(*plan, blake3_hex(digested_bytes(*plan))),
    {
        Self::with_digest(plan, plan.source_digest())
    }

    /// The text of the staged artifact: the record as it is rendered, and a line end.
    pub fn artifact_text(&self, rendered: &str) -> (r: String)
        ensures
            r@ == rendered@ + "\n"@,
    {
        concat(rendered, "\n")
    }
}

/// The staging plane.
#[derive(Debug, PartialEq, Eq)]
pub struct SourceStager {
    pub root_directory: String,
    pub last_staged: Option<SourceRecord>,
}

impl SourceStager {
    /// A plane that keeps its sources below `state_directory`.
    pub fn new(state_directory: StateDirectory) -> (r: Self)
        ensures
            r.root_directory@ == path_join(state_directory@, "sources"@),
            r.last_staged is None,
    {
        SourceStager {
            root_directory: join_path(state_directory.0.as_str(), "sources"),
            last_staged: None,
        }
    }

    /// Where sources are kept.
    pub fn root_directory(&self) -> (r: &str)
        ensures
            r@ == self.root_directory@,
    {
        self.root_directory.as_str()
    }

    /// The source staged last.
    pub fn last_staged(&self) -> (r: Option<&SourceRecord>)
        ensures
            match (r, self.last_staged) {
                (Some(source), Some(expected)) => *source == expected,
                (None, None) => true,
                _ => false,
            },
    {
        match &self.last_staged {
            Some(source) => Some(source),
            None => None,
        }
    }

    /// The file that the source under `digest` is written to.
    pub fn artifact_path(&self, digest: &SourceDigest) -> (r: String)
        ensures
            r@ == path_join(self.root_directory@, digest@ + ".source"@),
    {
        let name = concat(digest.0.as_str(), ".source");
        join_path(self.root_directory.as_str(), name.as_str())
    }

    /// Takes a request: only sources are staged here.
    pub fn accept(&self, request: ActorRequest) -> (r: Result<SourceRecord, Error>)
        ensures
            match request {
                ActorRequest::StageSources(plan) => r matches Ok(source) && source.stages(
                    plan,
                    blake3_hex(digested_bytes(plan)),
                ),
                _ => r matches Err(Error::UnexpectedActorRequest { actor, request: name }) && actor@
                    == "SourceStager"@ && name@ == request_name(request),
            },
    {
        match request {
            ActorRequest::StageSources(plan) => Ok(SourceRecord::from_plan(&plan)),
            other => Err(
                Error::UnexpectedActorRequest {
                    actor: "SourceStager",
                    request: other.variant_name(),
                },
            ),
        }
    }

    /// Keeps a source whose artifact was written.
    pub fn staged(&mut self, source: SourceRecord) -> (r: ActorReply)
        ensures
            r == ActorReply::SourcesReady(source),
            final(self).last_staged == Some(source),
            final(self).root_directory == old(self).root_directory,
    {
        self.last_staged = Some(source.clone());
        ActorReply::SourcesReady(source)
    }
}

/// The name of a request's kind.
pub open spec fn request_name(request: ActorRequest) -> Seq<char> {
    match request {
        ActorRequest::AuthorizeDeployment(_) => "AuthorizeDeployment"@,
        ActorRequest::MaterializePlan(_) => "MaterializePlan"@,
        ActorRequest::StageSources(_) => "StageSources"@,
        ActorRequest::ExecuteBuild(_) => "ExecuteBuild"@,
        ActorRequest::CopyClosure(_) => "CopyClosure"@,
        ActorRequest::ActivateGeneration(_) => "ActivateGeneration"@,
        ActorRequest::PinGenerationRoot(_) => "PinGenerationRoot"@,
        ActorRequest::EmitObservation(_) => "EmitObservation"@,
    }
}

/// The name of a reply's kind.
pub open spec fn reply_name(reply: ActorReply) -> Seq<char> {
    match reply {
        ActorReply::AuthorizationDecided(_) => "AuthorizationDecided"@,
        ActorReply::PlanReady(_) => "PlanReady"@,
        ActorReply::SourcesReady(_) => "SourcesReady"@,
        ActorReply::BuildComplete(_) => "BuildComplete"@,
        ActorReply::CopyComplete(_) => "CopyComplete"@,
        ActorReply::ActivationComplete(_) => "ActivationComplete"@,
        ActorReply::PinReceipt(_) => "PinReceipt"@,
        ActorReply::ObservationAccepted(_) => "ObservationAccepted"@,
    }
}

impl ActorRequest {
    /// The name of the request's kind.
    pub fn variant_name(&self) -> (r: &'static str)
        ensures
            r@ == request_name(*self),
    {
        match self {
            ActorRequest::AuthorizeDeployment(_) => "AuthorizeDeployment",
            ActorRequest::MaterializePlan(_) => "MaterializePlan",
            ActorRequest::StageSources(_) => "StageSources",
            ActorRequest::ExecuteBuild(_) => "ExecuteBuild",
            ActorRequest::CopyClosure(_) => "CopyClosure",
            ActorRequest::ActivateGeneration(_) => "ActivateGeneration",
            ActorRequest::PinGenerationRoot(_) => "PinGenerationRoot",
            ActorRequest::EmitObservation(_) => "EmitObservation",
        }
    }
}

impl ActorReply {
    /// The name of the reply's kind.
    pub fn variant_name(&self) -> (r: &'static str)
        ensures
            r@ == reply_name(*self),
    {
        match self {
            ActorReply::AuthorizationDecided(_) => "AuthorizationDecided",
            ActorReply::PlanReady(_) => "PlanReady",
            ActorReply::SourcesReady(_) => "SourcesReady",
            ActorReply::BuildComplete(_) => "BuildComplete",
            ActorReply::CopyComplete(_) => "CopyComplete",
            ActorReply::ActivationComplete(_) => "ActivationComplete",
            ActorReply::PinReceipt(_) => "PinReceipt",
            ActorReply::ObservationAccepted(_) => "ObservationAccepted",
        }
    }
}

/// Plans that agree in identifier, view and node are staged under one digest.
pub proof fn law_equal_plans_share_a_digest(
    first: PlanRecord,
    second: PlanRecord,
    left: SourceRecord,
    right: SourceRecord,
)
    requires
        first.deployment_identifier == second.deployment_identifier,
        first.horizon_view@ == second.horizon_view@,
        first.target_node@ == second.target_node@,
        left.stages(first, blake3_hex(digested_bytes(first))),
        right.stages(second, blake3_hex(digested_bytes(second))),
    ensures
        left.source_digest@ == right.source_digest@,
{
}

} // verus!
