//! The inputs generated for one deployment, and the proposal they are made from.

use crate::error::Error;
use crate::paths::{
    components, components_of, file_name, file_name_of, join_path, parent, parent_path, path_join,
};
use crate::runtime_flow::{
    FlakeInputOverride, FlakeInputReference, HorizonMaterializationCommand, MaterializationShape,
    ProposalSource,
};
use crate::text::{
    begins_with, chars_of, closes_with, concat, control, credential_like, ends_with, is_control,
    names_credential, push_text, starts_with, texts, utf8_text,
};
use vstd::prelude::*;
use vstd::utf8::{decode_utf8, valid_utf8};

verus! {

// ---- generated inputs ------------------------------------------------------------

/// A generated flake input.
#[derive(Clone, Copy, Debug, PartialEq, Eq, Structural)]
pub enum GeneratedInputName {
    Horizon,
    System,
    Deployment,
    Secrets,
}

/// The name a generated input is overridden under.
pub open spec fn input_name(name: GeneratedInputName) -> Seq<char> {
    match name {
        GeneratedInputName::Horizon => "horizon"@,
        GeneratedInputName::System => "system"@,
        GeneratedInputName::Deployment => "deployment"@,
        GeneratedInputName::Secrets => "secrets"@,
    }
}

/// The inputs generated for a shape, in order.
pub open spec fn generated_inputs(shape: MaterializationShape) -> Seq<GeneratedInputName> {
    match shape {
        MaterializationShape::CompleteHost | MaterializationShape::BaseHost => seq![
            GeneratedInputName::Horizon,
            GeneratedInputName::System,
            GeneratedInputName::Deployment,
            GeneratedInputName::Secrets,
        ],
        MaterializationShape::UserEnvironment(_) => seq![
            GeneratedInputName::Horizon,
            GeneratedInputName::System,
            GeneratedInputName::Secrets,
        ],
    }
}

impl GeneratedInputName {
    /// The name the input is overridden under.
    pub fn as_str(self) -> (r: &'static str)
        ensures
            r@ == input_name(self),
    {
        match self {
            GeneratedInputName::Horizon => "horizon",
            GeneratedInputName::System => "system",
            GeneratedInputName::Deployment => "deployment",
            GeneratedInputName::Secrets => "secrets",
        }
    }

    /// The inputs to generate for `shape`, in order.
    pub fn for_shape(shape: &MaterializationShape) -> (r: Vec<GeneratedInputName>)
        ensures
            r@ == generated_inputs(*shape),
    {
        let mut names: Vec<GeneratedInputName> = Vec::new();
        names.push(GeneratedInputName::Horizon);
        names.push(GeneratedInputName::System);
        if DeploymentInput::from_shape(shape).is_some() {
            names.push(GeneratedInputName::Deployment);
        }
        names.push(GeneratedInputName::Secrets);
        assert(names@ =~= generated_inputs(*shape));
        names
    }
}

/// What a host deployment includes.
#[derive(Clone, Copy, Debug, PartialEq, Eq, Structural)]
pub struct DeploymentInput {
    pub include_home: bool,
    pub include_all_firmware: bool,
}

/// A truth value as Nix writes it.
pub open spec fn nix_bool(value: bool) -> Seq<char> {
    if value {
        "true"@
    } else {
        "false"@
    }
}

fn nix_bool_text(value: bool) -> (r: &'static str)
    ensures
        r@ == nix_bool(value),
{
    if value {
        "true"
    } else {
        "false"
    }
}

impl DeploymentInput {
    /// What a shape includes, where it has a deployment input.
    pub open spec fn of_shape(shape: MaterializationShape) -> Option<Self> {
        match shape {
            MaterializationShape::CompleteHost => Some(
                DeploymentInput { include_home: true, include_all_firmware: true },
            ),
            MaterializationShape::BaseHost => Some(
                DeploymentInput { include_home: false, include_all_firmware: false },
            ),
            MaterializationShape::UserEnvironment(_) => None,
        }
    }

    /// A complete host includes everything, a base host neither home nor
    /// firmware; a user environment has no deployment input.
    pub fn from_shape(shape: &MaterializationShape) -> (r: Option<Self>)
        ensures
            r == Self::of_shape(*shape),
    {
        match shape {
            MaterializationShape::CompleteHost => Some(
                DeploymentInput { include_home: true, include_all_firmware: true },
            ),
            MaterializationShape::BaseHost => Some(
                DeploymentInput { include_home: false, include_all_firmware: false },
            ),
            MaterializationShape::UserEnvironment(_) => None,
        }
    }

    /// The flake that exposes this input.
    pub fn flake_text(&self) -> (r: String)
        ensures
            r@ == "{ outputs = _: { deployment = { includeHome = "@ + nix_bool(self.include_home)
                + "; includeAllFirmware = "@ + nix_bool(self.include_all_firmware)
                + "; }; }; }\n"@,
    {
        let mut text = "{ outputs = _: { deployment = { includeHome = ".to_owned();
        text.append(nix_bool_text(self.include_home));
        text.append("; includeAllFirmware = ");
        text.append(nix_bool_text(self.include_all_firmware));
        text.append("; }; }; }\n");
        text
    }
}

/// The system of a node.
#[derive(Clone, Copy, Debug, PartialEq, Eq, Structural)]
pub enum NodeSystem {
    X86_64Linux,
    Aarch64Linux,
}

/// The Nix platform name of a system.
pub open spec fn platform_name(system: NodeSystem) -> Seq<char> {
    match system {
        NodeSystem::X86_64Linux => "x86_64-linux"@,
        NodeSystem::Aarch64Linux => "aarch64-linux"@,
    }
}

impl NodeSystem {
    /// The Nix platform name.
    pub fn nix_system_name(self) -> (r: &'static str)
        ensures
            r@ == platform_name(self),
    {
        match self {
            NodeSystem::X86_64Linux => "x86_64-linux",
            NodeSystem::Aarch64Linux => "aarch64-linux",
        }
    }

    /// The flake that exposes the platform name.
    pub fn flake_text(self) -> (r: String)
        ensures
            r@ == "{ outputs = _: { system = \""@ + platform_name(self) + "\"; }; }\n"@,
    {
        let mut text = "{ outputs = _: { system = \"".to_owned();
        text.append(self.nix_system_name());
        text.append("\"; }; }\n");
        text
    }
}

/// The flake that exposes the projected Horizon beside it.
pub fn horizon_flake_text() -> (r: &'static str)
    ensures
        r@
            == "{ outputs = _: { horizon = builtins.fromJSON (builtins.readFile ./horizon.json); }; }\n"@,
{
    "{ outputs = _: { horizon = builtins.fromJSON (builtins.readFile ./horizon.json); }; }\n"
}

/// The directory name of a shape.
pub open spec fn shape_directory(shape: MaterializationShape) -> Seq<char> {
    match shape {
        MaterializationShape::CompleteHost => "complete-host"@,
        MaterializationShape::BaseHost => "base-host"@,
        MaterializationShape::UserEnvironment(_) => "user-environment"@,
    }
}

/// The directory name of a shape.
pub fn shape_name(shape: &MaterializationShape) -> (r: &'static str)
    ensures
        r@ == shape_directory(*shape),
{
    match shape {
        MaterializationShape::CompleteHost => "complete-host",
        MaterializationShape::BaseHost => "base-host",
        MaterializationShape::UserEnvironment(_) => "user-environment",
    }
}

/// The directory of one materialization: a directory for the cluster, in it one for the
/// node, and in that one for the shape.
pub open spec fn materialization_place(
    directory: Seq<char>,
    command: HorizonMaterializationCommand,
) -> Seq<char> {
    path_join(
        path_join(path_join(directory, command.cluster_name@), command.node_name@),
        shape_directory(command.materialization_shape),
    )
}

/// The directory of one materialization under `generated_inputs_directory`.
pub fn materialization_root(
    generated_inputs_directory: &str,
    command: &HorizonMaterializationCommand,
) -> (r: String)
    ensures
        r@ == materialization_place(generated_inputs_directory@, *command),
{
    let cluster = join_path(generated_inputs_directory, command.cluster_name.0.as_str());
    let node = join_path(cluster.as_str(), command.node_name.0.as_str());
    join_path(node.as_str(), shape_name(&command.materialization_shape))
}

// ---- content hashes ------------------------------------------------------------------

/// A character as it stands in a query value.
pub open spec fn query_char(c: char) -> Seq<char> {
    if c == '+' {
        "%2B"@
    } else if c == '/' {
        "%2F"@
    } else if c == '=' {
        "%3D"@
    } else {
        seq![c]
    }
}

/// `s` with the characters of a hash that a query gives another meaning escaped.
pub open spec fn query_value_text(s: Seq<char>) -> Seq<char>
    decreases s.len(),
{
    if s.len() == 0 {
        Seq::empty()
    } else {
        query_value_text(s.drop_last()) + query_char(s.last())
    }
}

/// Content hash of a generated input.
#[derive(Debug, PartialEq, Eq)]
pub struct NarHash(pub String);

impl NarHash {
    /// The hash as it stands in a query value.
    pub fn as_url_query_value(&self) -> (r: String)
        ensures
            r@ == query_value_text(self.0@),
    {
        let v = chars_of(self.0.as_str());
        let mut text = String::new();
        let mut i: usize = 0;
        while i < v.len()
            invariant
                i <= v.len(),
                v@ == self.0@,
                text@ == query_value_text(v@.take(i as int)),
            decreases v.len() - i,
        {
            let ghost after = v@.take(i + 1);
            assert(after.drop_last() =~= v@.take(i as int));
            assert(after.last() == v@[i as int]);
            let c = v[i];
            if c == '+' {
                text.append("%2B");
            } else if c == '/' {
                text.append("%2F");
            } else if c == '=' {
                text.append("%3D");
            } else {
                let ghost before = text@;
                text.push(c);
                assert(text@ =~= before + seq![c]);
            }
            i = i + 1;
        }
        assert(v@.take(i as int) =~= v@);
        text
    }
}

/// The override that puts the generated directory `path` in place of `name`.
pub fn input_override(name: GeneratedInputName, path: &str, hash: &NarHash) -> (r:
    FlakeInputOverride)
    ensures
        r.string@ == input_name(name),
        r.flake_input_reference.url@ == "path:"@ + path@,
        r.flake_input_reference.nix_archive_hash@ == query_value_text(hash.0@),
{
    FlakeInputOverride {
        string: name.as_str().to_owned(),
        flake_input_reference: FlakeInputReference {
            url: concat("path:", path),
            nix_archive_hash: hash.as_url_query_value(),
        },
    }
}

// ---- the proposal ----------------------------------------------------------------------

/// What is found at a path, without following links.
#[derive(Clone, Copy, Debug, PartialEq, Eq, Structural)]
pub enum PathKind {
    RegularFile,
    Directory,
    Symlink,
    Other,
    Missing,
}

/// The file name of the proposal artifact.
pub open spec fn proposal_artifact() -> Seq<char> {
    "proposal.datom"@
}

/// An absolute path to the proposal artifact that climbs no directory, holds no
/// control character and names no credential. It ends in the artifact's name: with a
/// separator behind it, a path names a directory, which the artifact is not.
pub open spec fn is_safe_proposal_path(raw: Seq<char>) -> bool {
    &&& raw.len() > 0
    &&& forall|i: int| 0 <= i < raw.len() ==> !is_control(#[trigger] raw[i])
    &&& !names_credential(raw)
    &&& starts_with(raw, "/"@)
    &&& file_name_of(raw) == Some(proposal_artifact())
    &&& ends_with(raw, proposal_artifact())
    &&& forall|i: int| 0 <= i < components(raw).len() ==> #[trigger] components(raw)[i] != ".."@
}

/// The path made of the first `count` components.
pub open spec fn component_prefix(parts: Seq<Seq<char>>, count: int) -> Seq<char>
    decreases count,
{
    if count <= 0 {
        "/"@
    } else {
        path_join(component_prefix(parts, count - 1), parts[count - 1])
    }
}

/// The paths that lead to the artifact, from the root down to the artifact itself.
pub open spec fn inspected_paths(raw: Seq<char>) -> Seq<Seq<char>> {
    Seq::new(
        components(raw).len(),
        |i: int| component_prefix(components(raw), i + 1),
    )
}

/// Every path exists and is no link, and the last one is a regular file.
pub open spec fn leads_to_a_file(kinds: Seq<PathKind>) -> bool {
    &&& kinds.len() > 0
    &&& forall|i: int|
        0 <= i < kinds.len() ==> #[trigger] kinds[i] != PathKind::Symlink && kinds[i]
            != PathKind::Missing
    &&& kinds.last() == PathKind::RegularFile
}

fn has_control(v: &Vec<char>) -> (r: bool)
    ensures
        r == !(forall|i: int| 0 <= i < v@.len() ==> !is_control(#[trigger] v@[i])),
{
    let mut i: usize = 0;
    while i < v.len()
        invariant
            i <= v.len(),
            forall|j: int| 0 <= j < i ==> !is_control(#[trigger] v@[j]),
        decreases v.len() - i,
    {
        if control(v[i]) {
            assert(is_control(v@[i as int]));
            return true;
        }
        i = i + 1;
    }
    false
}

/// The proposal artifact of a deployment.
#[derive(Debug, PartialEq, Eq)]
pub struct ProposalFile {
    pub path: String,
}

impl ProposalFile {
    /// Whether the path alone may name a proposal.
    pub fn is_safe_path(source: &ProposalSource) -> (r: bool)
        ensures
            r == is_safe_proposal_path(source@),
    {
        let raw = source.0.as_str();
        let v = chars_of(raw);
        if v.len() == 0 || has_control(&v) || credential_like(raw) || !begins_with(&v, "/")
            || !closes_with(&v, "proposal.datom") {
            return false;
        }
        match file_name(raw) {
            Some(name) => {
                if name != "proposal.datom".to_owned() {
                    return false;
                }
            },
            None => {
                return false;
            },
        }
        let parts = components_of(raw);
        let mut i: usize = 0;
        while i < parts.len()
            invariant
                i <= parts.len(),
                texts(parts@) == components(source@),
                forall|j: int| 0 <= j < i ==> #[trigger] components(source@)[j] != ".."@,
            decreases parts.len() - i,
        {
            assert(texts(parts@)[i as int] == parts@[i as int]@);
            if parts[i] == "..".to_owned() {
                assert(components(source@)[i as int] == ".."@);
                return false;
            }
            i = i + 1;
        }
        true
    }

    /// The paths whose kinds decide whether the artifact may be read; nothing
    /// where the path itself is unsafe.
    pub fn inspection(source: &ProposalSource) -> (r: Option<Vec<String>>)
        ensures
            r is Some <==> is_safe_proposal_path(source@),
            r matches Some(paths) ==> texts(paths@) == inspected_paths(source@),
    {
        if !Self::is_safe_path(source) {
            return None;
        }
        let parts = components_of(source.0.as_str());
        let ghost all = components(source@);
        let mut paths: Vec<String> = Vec::new();
        let mut prefix = "/".to_owned();
        let mut i: usize = 0;
        while i < parts.len()
            invariant
                i <= parts.len(),
                all == components(source@),
                texts(parts@) == all,
                prefix@ == component_prefix(all, i as int),
                texts(paths@) == Seq::new(i as nat, |k: int| component_prefix(all, k + 1)),
            decreases parts.len() - i,
        {
            assert(texts(parts@)[i as int] == parts@[i as int]@);
            prefix = join_path(prefix.as_str(), parts[i].as_str());
            push_text(&mut paths, prefix.as_str());
            assert(texts(paths@) =~= Seq::new(
                (i + 1) as nat,
                |k: int| component_prefix(all, k + 1),
            ));
            i = i + 1;
        }
        assert(texts(paths@) =~= inspected_paths(source@));
        Some(paths)
    }

    /// The artifact, where its path is safe and `kinds`, found at the inspected
    /// paths, lead to a file without a link on the way.
    pub fn checked(source: &ProposalSource, kinds: &Vec<PathKind>) -> (r: Option<Self>)
        ensures
            r is Some <==> is_safe_proposal_path(source@) && kinds@.len() == components(
                source@,
            ).len() && leads_to_a_file(kinds@),
            r matches Some(file) ==> file.path@ == source@,
    {
        let paths = match Self::inspection(source) {
            Some(paths) => paths,
            None => {
                return None;
            },
        };
        assert(texts(paths@).len() == paths@.len());
        if kinds.len() == 0 || kinds.len() != paths.len() {
            return None;
        }
        let mut i: usize = 0;
        while i < kinds.len()
            invariant
                i <= kinds.len(),
                forall|j: int|
                    0 <= j < i ==> #[trigger] kinds@[j] != PathKind::Symlink && kinds@[j]
                        != PathKind::Missing,
            decreases kinds.len() - i,
        {
            if kinds[i] == PathKind::Symlink || kinds[i] == PathKind::Missing {
                return None;
            }
            i = i + 1;
        }
        if kinds[kinds.len() - 1] != PathKind::RegularFile {
            return None;
        }
        Some(ProposalFile { path: source.0.clone() })
    }
}

// ---- secrets ------------------------------------------------------------------------------

/// The cluster's directory of encrypted secrets, beside the proposal.
#[derive(Debug, PartialEq, Eq)]
pub struct ClusterSecretsDirectory {
    pub path: String,
}

impl ClusterSecretsDirectory {
    /// `secrets` in the directory that holds the proposal.
    pub fn from_proposal_source(source: &ProposalSource) -> (r: Self)
        ensures
            r.path@ == path_join(
                match parent_path(source@) {
                    Some(directory) => directory,
                    None => Seq::empty(),
                },
                "secrets"@,
            ),
    {
        let directory = match parent(source.0.as_str()) {
            Some(directory) => directory,
            None => String::new(),
        };
        ClusterSecretsDirectory { path: join_path(directory.as_str(), "secrets") }
    }

    /// The secret files among `names`, the entries of this directory, in byte order.
    pub fn secret_files(&self, names: Vec<Vec<u8>>) -> (r: Vec<ClusterSecretFile>)
        ensures
            forall|i: int| 0 <= i < r@.len() ==> (#[trigger] r@[i]).directory@ == self.path@,
            is_sorted_bytes(secret_names(r@)),
            secret_names(r@).to_multiset() == byte_views(names@).filter(secret_filter()).to_multiset(),
    {
        let mut files: Vec<ClusterSecretFile> = Vec::new();
        let ghost all = byte_views(names@);
        let mut i: usize = 0;
        proof {
            assert(all.take(0) =~= Seq::<Seq<u8>>::empty());
            reveal(Seq::filter);
            assert(secret_names(files@) =~= Seq::<Seq<u8>>::empty());
        }
        while i < names.len()
            invariant
                i <= names.len(),
                all == byte_views(names@),
                forall|k: int| 0 <= k < files@.len() ==> (#[trigger] files@[k]).directory@ == self.path@,
                is_sorted_bytes(secret_names(files@)),
                secret_names(files@).to_multiset() == all.take(i as int).filter(secret_filter()).to_multiset(),
            decreases names.len() - i,
        {
            let ghost before = all.take(i as int);
            let ghost after = all.take(i + 1);
            proof {
                assert(after.drop_last() =~= before);
                assert(after.last() == names@[i as int]@);
                reveal(Seq::filter);
            }
            let file = ClusterSecretFile::new(self.path.clone(), copy_bytes(&names[i]));
            if file.is_secret() {
                let ghost old_names = secret_names(files@);
                let mut at: usize = 0;
                while at < files.len() && bytes_in_order(&files[at].name, &file.name)
                    invariant
                        at <= files.len(),
                        forall|k: int|
                            0 <= k < at ==> in_order(#[trigger] secret_names(files@)[k], file.name@),
                    decreases files.len() - at,
                {
                    assert(secret_names(files@)[at as int] == files@[at as int].name@);
                    at = at + 1;
                }
                let ghost name = file.name@;
                proof {
                    if at < files.len() {
                        assert(secret_names(files@)[at as int] == files@[at as int].name@);
                        lemma_in_order_total(old_names[at as int], name);
                    }
                }
                files.insert(at, file);
                proof {
                    let new_names = secret_names(files@);
                    assert(new_names =~= old_names.insert(at as int, name));
                    vstd::seq_lib::to_multiset_insert(old_names, at as int, name);
                    assert(secret_filter()(name));
                    assert(after.filter(secret_filter()) == before.filter(secret_filter()).push(
                        name,
                    ));
                    vstd::seq_lib::to_multiset_build(before.filter(secret_filter()), name);
                    assert forall|a: int, b: int| 0 <= a < b < new_names.len() implies in_order(
                        #[trigger] new_names[a],
                        #[trigger] new_names[b],
                    ) by {
                        if a < at && b > at {
                            assert(in_order(old_names[a], old_names[b - 1]));
                        } else if b < at {
                            assert(in_order(old_names[a], old_names[b]));
                        } else if a > at {
                            assert(in_order(old_names[a - 1], old_names[b - 1]));
                        } else if a == at {
                            if b - 1 > at {
                                assert(in_order(old_names[at as int], old_names[b - 1]));
                                lemma_in_order_transitive(
                                    name,
                                    old_names[at as int],
                                    old_names[b - 1],
                                );
                            }
                        }
                    }
                }
            } else {
                assert(!secret_filter()(names@[i as int]@));
                assert(after.filter(secret_filter()) == before.filter(secret_filter()));
            }
            i = i + 1;
        }
        assert(all.take(i as int) =~= all);
        files
    }
}

/// The offset of the last dot of a file name, unless the name starts with it.
pub open spec fn extension_dot(name: Seq<u8>) -> Option<int>
    decreases name.len(),
{
    if name.len() <= 1 {
        None
    } else if name.last() == 46 {
        Some(name.len() - 1)
    } else {
        extension_dot(name.drop_last())
    }
}

/// A file name without its extension.
pub open spec fn file_stem(name: Seq<u8>) -> Seq<u8> {
    match extension_dot(name) {
        Some(dot) => if name == seq![46u8, 46u8] {
            name
        } else {
            name.take(dot)
        },
        None => name,
    }
}

/// A name with the extension `sops`.
pub open spec fn is_secret_name(name: Seq<u8>) -> bool {
    match extension_dot(name) {
        Some(dot) => name.skip(dot + 1) == seq![115u8, 111u8, 112u8, 115u8],
        None => false,
    }
}

/// Keeps the names of secrets.
pub open spec fn secret_filter() -> spec_fn(Seq<u8>) -> bool {
    |name: Seq<u8>| is_secret_name(name)
}

/// `left` does not come after `right` in byte order.
pub open spec fn in_order(left: Seq<u8>, right: Seq<u8>) -> bool
    decreases left.len(),
{
    if left.len() == 0 {
        true
    } else if right.len() == 0 {
        false
    } else if left[0] != right[0] {
        left[0] < right[0]
    } else {
        in_order(left.skip(1), right.skip(1))
    }
}

/// Names in byte order.
pub open spec fn is_sorted_bytes(names: Seq<Seq<u8>>) -> bool {
    forall|i: int, j: int|
        0 <= i < j < names.len() ==> in_order(#[trigger] names[i], #[trigger] names[j])
}

/// The contents of byte vectors.
pub open spec fn byte_views(names: Seq<Vec<u8>>) -> Seq<Seq<u8>> {
    names.map_values(|name: Vec<u8>| name@)
}

/// The names of secret files.
pub open spec fn secret_names(files: Seq<ClusterSecretFile>) -> Seq<Seq<u8>> {
    files.map_values(|file: ClusterSecretFile| file.name@)
}

proof fn lemma_in_order_total(left: Seq<u8>, right: Seq<u8>)
    ensures
        in_order(left, right) || in_order(right, left),
    decreases left.len(),
{
    if left.len() > 0 && right.len() > 0 && left[0] == right[0] {
        lemma_in_order_total(left.skip(1), right.skip(1));
    }
}

proof fn lemma_in_order_transitive(a: Seq<u8>, b: Seq<u8>, c: Seq<u8>)
    requires
        in_order(a, b),
        in_order(b, c),
    ensures
        in_order(a, c),
    decreases a.len(),
{
    if a.len() > 0 && b.len() > 0 && c.len() > 0 && a[0] == b[0] && b[0] == c[0] {
        lemma_in_order_transitive(a.skip(1), b.skip(1), c.skip(1));
    }
}

fn bytes_in_order(left: &Vec<u8>, right: &Vec<u8>) -> (r: bool)
    ensures
        r == in_order(left@, right@),
{
    let mut i: usize = 0;
    assert(left@.skip(0) =~= left@);
    assert(right@.skip(0) =~= right@);
    while i < left.len() && i < right.len()
        invariant
            i <= left@.len(),
            i <= right@.len(),
            in_order(left@, right@) == in_order(left@.skip(i as int), right@.skip(i as int)),
        decreases left@.len() - i,
    {
        assert(left@.skip(i as int).skip(1) =~= left@.skip(i + 1));
        assert(right@.skip(i as int).skip(1) =~= right@.skip(i + 1));
        if left[i] != right[i] {
            return left[i] < right[i];
        }
        i = i + 1;
    }
    i == left.len()
}

fn copy_bytes(bytes: &Vec<u8>) -> (r: Vec<u8>)
    ensures
        r@ == bytes@,
{
    let mut copy: Vec<u8> = Vec::new();
    let mut i: usize = 0;
    while i < bytes.len()
        invariant
            i <= bytes.len(),
            copy@ == bytes@.take(i as int),
        decreases bytes.len() - i,
    {
        copy.push(bytes[i]);
        i = i + 1;
        assert(bytes@.take(i as int) =~= bytes@.take(i - 1).push(bytes@[i - 1]));
    }
    assert(bytes@.take(i as int) =~= bytes@);
    copy
}

/// One encrypted file of the secrets directory. Its contents are never read.
#[derive(Debug, PartialEq, Eq)]
pub struct ClusterSecretFile {
    pub directory: String,
    /// The file name as the file system gives it.
    pub name: Vec<u8>,
}

impl ClusterSecretFile {
    /// The file `name` in `directory`.
    pub fn new(directory: String, name: Vec<u8>) -> (r: Self)
        ensures
            r.directory == directory,
            r.name == name,
    {
        ClusterSecretFile { directory, name }
    }

    /// The offset of the dot before the extension.
    fn extension_offset(&self) -> (r: Option<usize>)
        ensures
            match (r, extension_dot(self.name@)) {
                (Some(dot), Some(expected)) => dot == expected && 0 < dot < self.name@.len(),
                (None, None) => true,
                _ => false,
            },
    {
        let mut end: usize = self.name.len();
        assert(self.name@.take(end as int) =~= self.name@);
        while end > 1
            invariant
                end <= self.name@.len(),
                extension_dot(self.name@.take(end as int)) == extension_dot(self.name@),
            decreases end,
        {
            assert(self.name@.take(end as int).last() == self.name@[end - 1]);
            assert(self.name@.take(end as int).drop_last() =~= self.name@.take(end - 1));
            if self.name[end - 1] == 46 {
                return Some(end - 1);
            }
            end = end - 1;
        }
        None
    }

    /// Whether the file has the extension of a secret.
    pub fn is_secret(&self) -> (r: bool)
        ensures
            r == is_secret_name(self.name@),
    {
        match self.extension_offset() {
            Some(dot) => {
                let size: usize = self.name.len();
                let r = size - dot == 5 && self.name[dot + 1] == 115 && self.name[dot + 2] == 111
                    && self.name[dot + 3] == 112 && self.name[dot + 4] == 115;
                proof {
                    let extension = self.name@.skip(dot + 1);
                    if r {
                        assert(extension =~= seq![115u8, 111u8, 112u8, 115u8]);
                    } else if extension == seq![115u8, 111u8, 112u8, 115u8] {
                        assert(extension.len() == 4);
                        assert(extension[0] == self.name@[dot + 1]);
                        assert(extension[1] == self.name@[dot + 2]);
                        assert(extension[2] == self.name@[dot + 3]);
                        assert(extension[3] == self.name@[dot + 4]);
                    }
                }
                r
            },
            None => false,
        }
    }

    /// The path of the file as bytes.
    pub fn path_bytes(&self) -> (r: Vec<u8>)
        ensures
            r@ == vstd::utf8::encode_utf8(self.directory@) + seq![47u8] + self.name@,
    {
        let mut path = copy_slice(self.directory.as_str().as_bytes());
        path.push(47);
        let mut name = copy_bytes(&self.name);
        path.append(&mut name);
        assert(path@ =~= vstd::utf8::encode_utf8(self.directory@) + seq![47u8] + self.name@);
        path
    }

    /// The file name, where it is text.
    pub fn file_name(&self) -> (r: Result<String, Error>)
        ensures
            r is Ok <==> valid_utf8(self.name@),
            r matches Ok(name) ==> name@ == decode_utf8(self.name@),
            r matches Err(fault) ==> fault is SecretFileNameNotUtf8
                && fault->SecretFileNameNotUtf8_0@ == vstd::utf8::encode_utf8(self.directory@)
                + seq![47u8] + self.name@,
    {
        match utf8_text(copy_bytes(&self.name)) {
            Some(name) => Ok(name),
            None => Err(Error::SecretFileNameNotUtf8(self.path_bytes())),
        }
    }

    /// The attribute of the secret: the file name without its extension, unchanged.
    pub fn attribute_name(&self) -> (r: Result<String, Error>)
        ensures
            r is Ok <==> valid_utf8(file_stem(self.name@)),
            r matches Ok(name) ==> name@ == decode_utf8(file_stem(self.name@)),
            r matches Err(fault) ==> fault is SecretFileNameNotUtf8
                && fault->SecretFileNameNotUtf8_0@ == vstd::utf8::encode_utf8(self.directory@)
                + seq![47u8] + self.name@,
    {
        let stem = match self.extension_offset() {
            Some(dot) => {
                if self.name.len() == 2 && self.name[0] == 46 && self.name[1] == 46 {
                    assert(self.name@ =~= seq![46u8, 46u8]);
                    copy_bytes(&self.name)
                } else {
                    let mut stem = copy_bytes(&self.name);
                    stem.truncate(dot);
                    assert(stem@ =~= self.name@.take(dot as int));
                    stem
                }
            },
            None => copy_bytes(&self.name),
        };
        assert(stem@ == file_stem(self.name@));
        match utf8_text(stem) {
            Some(name) => Ok(name),
            None => Err(Error::SecretFileNameNotUtf8(self.path_bytes())),
        }
    }
}

fn copy_slice(bytes: &[u8]) -> (r: Vec<u8>)
    ensures
        r@ == bytes@,
{
    let mut copy: Vec<u8> = Vec::new();
    let mut i: usize = 0;
    while i < bytes.len()
        invariant
            i <= bytes@.len(),
            copy@ == bytes@.take(i as int),
        decreases bytes@.len() - i,
    {
        copy.push(bytes[i]);
        i = i + 1;
        assert(bytes@.take(i as int) =~= bytes@.take(i - 1).push(bytes@[i - 1]));
    }
    assert(bytes@.take(i as int) =~= bytes@);
    copy
}

/// The line that maps a secret's attribute to its file.
pub open spec fn secret_entry(name: Seq<u8>) -> Seq<char> {
    "    "@ + decode_utf8(file_stem(name)) + " = ./"@ + decode_utf8(name) + ";\n"@
}

/// The lines of all secrets, in order.
pub open spec fn secret_entries(names: Seq<Seq<u8>>) -> Seq<char>
    decreases names.len(),
{
    if names.len() == 0 {
        Seq::empty()
    } else {
        secret_entries(names.drop_last()) + secret_entry(names.last())
    }
}

/// Names that are text, no two of which claim one attribute.
pub open spec fn are_distinct_secrets(names: Seq<Seq<u8>>) -> bool {
    &&& forall|i: int|
        0 <= i < names.len() ==> valid_utf8(#[trigger] names[i]) && valid_utf8(file_stem(names[i]))
    &&& forall|i: int, j: int|
        0 <= i < j < names.len() ==> decode_utf8(file_stem(#[trigger] names[i])) != decode_utf8(
            file_stem(#[trigger] names[j]),
        )
}

/// The flake that maps each secret's attribute to its file, where every name is
/// text and no attribute is claimed twice.
pub fn secrets_flake(files: &Vec<ClusterSecretFile>) -> (r: Result<String, Error>)
    ensures
        r is Ok <==> are_distinct_secrets(secret_names(files@)),
        r matches Ok(text) ==> text@ == "{ outputs = _: { sopsFiles = {\n"@ + secret_entries(
            secret_names(files@),
        ) + "  }; }; }\n"@,
        r matches Err(fault) ==> match fault {
            Error::SecretFileNameNotUtf8(path) => exists|i: int|
                {
                    &&& 0 <= i < files@.len()
                    &&& are_distinct_secrets(secret_names(files@).take(i))
                    &&& !(valid_utf8((#[trigger] files@[i]).name@) && valid_utf8(
                        file_stem(files@[i].name@),
                    ))
                    &&& path@ == vstd::utf8::encode_utf8(files@[i].directory@) + seq![47u8]
                        + files@[i].name@
                },
            Error::SecretAttributeCollision { attribute_name, first, second } => exists|
                i: int,
                j: int,
            |
                {
                    &&& 0 <= i < j < files@.len()
                    &&& are_distinct_secrets(secret_names(files@).take(j))
                    &&& valid_utf8(files@[j].name@)
                    &&& attribute_name@ == decode_utf8(file_stem((#[trigger] files@[i]).name@))
                    &&& attribute_name@ == decode_utf8(file_stem((#[trigger] files@[j]).name@))
                    &&& first@ == decode_utf8(files@[i].name@)
                    &&& second@ == decode_utf8(files@[j].name@)
                },
            _ => false,
        },
{
    let ghost names = secret_names(files@);
    let mut entries = String::new();
    let mut attributes: Vec<String> = Vec::new();
    let mut file_names: Vec<String> = Vec::new();
    let mut index: usize = 0;
    while index < files.len()
        invariant
            index <= files.len(),
            names == secret_names(files@),
            attributes@.len() == index,
            file_names@.len() == index,
            are_distinct_secrets(names.take(index as int)),
            entries@ == secret_entries(names.take(index as int)),
            forall|k: int|
                0 <= k < index ==> (#[trigger] attributes@[k])@ == decode_utf8(file_stem(names[k])),
            forall|k: int| 0 <= k < index ==> (#[trigger] file_names@[k])@ == decode_utf8(names[k]),
        decreases files.len() - index,
    {
        let ghost before = names.take(index as int);
        let ghost after = names.take(index + 1);
        proof {
            assert(names[index as int] == files@[index as int].name@);
            assert(after.drop_last() =~= before);
            assert(after.last() == names[index as int]);
        }
        let name = match files[index].file_name() {
            Ok(name) => name,
            Err(fault) => {
                proof {
                    assert(!valid_utf8(names[index as int]));
                }
                return Err(fault);
            },
        };
        let attribute_name = match files[index].attribute_name() {
            Ok(attribute_name) => attribute_name,
            Err(fault) => {
                proof {
                    assert(!valid_utf8(file_stem(names[index as int])));
                }
                return Err(fault);
            },
        };
        let mut k: usize = 0;
        while k < attributes.len()
            invariant
                index < files.len(),
                names == secret_names(files@),
                k <= attributes.len(),
                attributes@.len() == index,
                file_names@.len() == index,
                are_distinct_secrets(names.take(index as int)),
                valid_utf8(files@[index as int].name@),
                name@ == decode_utf8(files@[index as int].name@),
                attribute_name@ == decode_utf8(file_stem(names[index as int])),
                forall|m: int|
                    0 <= m < index ==> (#[trigger] attributes@[m])@ == decode_utf8(
                        file_stem(names[m]),
                    ),
                forall|m: int|
                    0 <= m < index ==> (#[trigger] file_names@[m])@ == decode_utf8(names[m]),
                forall|m: int| 0 <= m < k ==> (#[trigger] attributes@[m])@ != attribute_name@,
            decreases attributes.len() - k,
        {
            if attributes[k] == attribute_name {
                let first = file_names[k].clone();
                proof {
                    assert(names[k as int] == files@[k as int].name@);
                    assert(names[index as int] == files@[index as int].name@);
                    assert(decode_utf8(file_stem(names[k as int])) == decode_utf8(
                        file_stem(names[index as int]),
                    ));
                    assert(files@[k as int].name@ == names[k as int]);
                }
                return Err(
                    Error::SecretAttributeCollision { attribute_name, first, second: name },
                );
            }
            k = k + 1;
        }
        proof {
            assert forall|a: int, b: int| 0 <= a < b < after.len() implies decode_utf8(
                file_stem(#[trigger] after[a]),
            ) != decode_utf8(file_stem(#[trigger] after[b])) by {
                assert(after[a] == before[a]);
                if b < index {
                    assert(after[b] == before[b]);
                } else {
                    assert(attributes@[a]@ == decode_utf8(file_stem(names[a])));
                }
            }
            assert forall|a: int| 0 <= a < after.len() implies valid_utf8(#[trigger] after[a])
                && valid_utf8(file_stem(after[a])) by {
                if a < index {
                    assert(after[a] == before[a]);
                }
            }
        }
        let mut entry = "    ".to_owned();
        entry.append(attribute_name.as_str());
        entry.append(" = ./");
        entry.append(name.as_str());
        entry.append(";\n");
        entries.append(entry.as_str());
        attributes.push(attribute_name);
        file_names.push(name);
        index = index + 1;
    }
    assert(names.take(index as int) =~= names);
    let mut text = "{ outputs = _: { sopsFiles = {\n".to_owned();
    text.append(entries.as_str());
    text.append("  }; }; }\n");
    Ok(text)
}

// ---- laws --------------------------------------------------------------------------------

/// A cluster without secrets still gets a secrets flake, with no entry.
pub proof fn law_no_secrets_give_an_empty_mapping()
    ensures
        are_distinct_secrets(Seq::empty()),
        secret_entries(Seq::empty()) == Seq::<char>::empty(),
{
}

/// A proposal path that is safe never climbs a directory on the way to the
/// artifact it names.
pub proof fn law_safe_proposals_are_the_canonical_artifact(raw: Seq<char>, i: int)
    requires
        is_safe_proposal_path(raw),
        0 <= i < components(raw).len(),
    ensures
        file_name_of(raw) == Some(proposal_artifact()),
        ends_with(raw, proposal_artifact()),
        components(raw)[i] != ".."@,
        !names_credential(raw),
{
}

} // verus!
