//! What the generated inputs of a deployment are made of: their names and places, the
//! secrets of the cluster, and the proposal that they come from.

use crate::paths::{components, file_name_of, path_join};
use crate::runtime_flow::{HorizonMaterializationCommand, MaterializationShape};
use crate::schema_runtime::materialization::{
    component_prefix, extension_dot, file_stem, GeneratedInputName, in_order, input_name,
    inspected_paths, is_safe_proposal_path, is_secret_name, is_sorted_bytes, leads_to_a_file,
    materialization_place, nix_bool, NodeSystem, PathKind, platform_name, query_char,
    query_value_text, secret_entries, secret_filter, shape_directory,
};
use crate::text::{ends_with, is_control, joined, names_credential, starts_with};
use crate::text_laws::{
    is_plain_name, law_a_joined_name_is_the_last, law_components_are_the_filled_pieces,
};
use vstd::prelude::*;
use vstd::utf8::decode_utf8;

verus! {

// ---- names ----------------------------------------------------------------------------------

/// Every generated input goes by its own name.
pub proof fn law_inputs_go_by_their_own_names(name: GeneratedInputName)
    ensures
        input_name(name) == "horizon"@ <==> name == GeneratedInputName::Horizon,
        input_name(name) == "system"@ <==> name == GeneratedInputName::System,
        input_name(name) == "deployment"@ <==> name == GeneratedInputName::Deployment,
        input_name(name) == "secrets"@ <==> name == GeneratedInputName::Secrets,
{
    reveal_strlit("horizon");
    reveal_strlit("system");
    reveal_strlit("deployment");
    reveal_strlit("secrets");
    assert("horizon"@[0] == 'h');
    assert("system"@[1] == 'y');
    assert("deployment"@[0] == 'd');
    assert("secrets"@[1] == 'e' && "secrets"@[0] == 's');
    assert("system"@[0] == 's');
}

/// The shapes of one node are kept apart, each under its own name.
pub proof fn law_shapes_are_kept_apart(shape: MaterializationShape)
    ensures
        shape_directory(shape) == "complete-host"@ <==> shape == MaterializationShape::CompleteHost,
        shape_directory(shape) == "base-host"@ <==> shape == MaterializationShape::BaseHost,
        shape_directory(shape) == "user-environment"@ <==> shape is UserEnvironment,
{
    reveal_strlit("complete-host");
    reveal_strlit("base-host");
    reveal_strlit("user-environment");
    assert("complete-host"@[0] == 'c');
    assert("base-host"@[0] == 'b');
    assert("user-environment"@[0] == 'u');
}

/// The systems and the truth values are written as Nix reads them.
pub proof fn law_values_are_written_as_nix_reads_them(system: NodeSystem, value: bool)
    ensures
        platform_name(system) == "x86_64-linux"@ <==> system == NodeSystem::X86_64Linux,
        platform_name(system) == "aarch64-linux"@ <==> system == NodeSystem::Aarch64Linux,
        nix_bool(value) == "true"@ <==> value,
        nix_bool(value) == "false"@ <==> !value,
{
    reveal_strlit("x86_64-linux");
    reveal_strlit("aarch64-linux");
    reveal_strlit("true");
    reveal_strlit("false");
    assert("x86_64-linux"@[0] == 'x');
    assert("aarch64-linux"@[0] == 'a');
    assert("true"@[0] == 't');
    assert("false"@[0] == 'f');
}

// ---- hashes in a query ----------------------------------------------------------------------

/// Writing a hash into a query changes one character at a time: the three that a query
/// would misread are written by their codes, and every other stays.
pub proof fn law_a_hash_is_quoted_character_by_character(head: Seq<char>, c: char)
    ensures
        query_value_text(head.push(c)) == query_value_text(head) + (if c == '+' {
            "%2B"@
        } else if c == '/' {
            "%2F"@
        } else if c == '=' {
            "%3D"@
        } else {
            seq![c]
        }),
        query_value_text(Seq::<char>::empty()) == Seq::<char>::empty(),
{
    assert(head.push(c).drop_last() =~= head);
}

/// No character that a query would misread is left.
pub proof fn law_a_quoted_hash_is_read_as_one_value(s: Seq<char>)
    ensures
        forall|i: int|
            0 <= i < query_value_text(s).len() ==> #[trigger] query_value_text(s)[i] != '+'
                && query_value_text(s)[i] != '/' && query_value_text(s)[i] != '=',
    decreases s.len(),
{
    reveal_strlit("%2B");
    reveal_strlit("%2F");
    reveal_strlit("%3D");
    if s.len() > 0 {
        law_a_quoted_hash_is_read_as_one_value(s.drop_last());
        let rest = query_value_text(s.drop_last());
        let last = query_char(s.last());
        assert forall|i: int| 0 <= i < query_value_text(s).len() implies #[trigger]
            query_value_text(s)[i] != '+' && query_value_text(s)[i] != '/' && query_value_text(s)[i]
            != '=' by {
            if i >= rest.len() {
                assert(query_value_text(s)[i] == last[i - rest.len()]);
            }
        }
    }
}

// ---- secrets --------------------------------------------------------------------------------

/// Whether `name` is `stem` with the ending `.sops`.
pub open spec fn is_sops_file(name: Seq<u8>, stem: Seq<u8>) -> bool {
    stem.len() > 0 && name == stem + seq![46u8, 115u8, 111u8, 112u8, 115u8]
}

/// A file is a secret exactly where something stands before the ending `.sops`, and
/// that is what the secret is called.
pub proof fn law_a_secret_is_called_after_its_file(name: Seq<u8>)
    ensures
        is_secret_name(name) <==> exists|stem: Seq<u8>| #[trigger] is_sops_file(name, stem),
        forall|stem: Seq<u8>| #[trigger] is_sops_file(name, stem) ==> file_stem(name) == stem,
{
    let ending = seq![46u8, 115u8, 111u8, 112u8, 115u8];
    lemma_dot(name);
    if is_secret_name(name) {
        let dot = extension_dot(name)->0;
        let stem = name.take(dot);
        let rest = name.skip(dot + 1);
        assert(name =~= stem + seq![46u8] + rest);
        assert(name =~= stem + ending);
        assert(is_sops_file(name, stem));
    }
    assert forall|stem: Seq<u8>| #[trigger] is_sops_file(name, stem) implies file_stem(name) == stem
        && is_secret_name(name) by {
        let at = stem.len() as int;
        assert(name[at] == ending[0]);
        assert forall|i: int| at < i < name.len() implies name[i] != 46 by {
            assert(name[i] == ending[i - at]);
        }
        let dot = extension_dot(name)->0;
        assert(extension_dot(name) is Some);
        assert(dot == at);
        assert(name.take(at) =~= stem);
        assert(name.skip(at + 1) =~= seq![115u8, 111u8, 112u8, 115u8]);
    }
}

/// Where the last dot behind the first byte stands.
proof fn lemma_dot(name: Seq<u8>)
    ensures
        extension_dot(name) matches Some(dot) ==> 0 < dot < name.len() && name[dot] == 46
            && forall|i: int| dot < i < name.len() ==> name[i] != 46,
        extension_dot(name) is None ==> forall|i: int| 0 < i < name.len() ==> name[i] != 46,
    decreases name.len(),
{
    if name.len() > 1 && name.last() != 46 {
        let rest = name.drop_last();
        lemma_dot(rest);
        assert forall|i: int| 0 < i < rest.len() implies rest[i] == name[i] by {}
        match extension_dot(rest) {
            Some(dot) => {
                assert forall|i: int| dot < i < name.len() implies name[i] != 46 by {
                    if i < rest.len() {
                        assert(rest[i] == name[i]);
                    }
                }
            },
            None => {
                assert forall|i: int| 0 < i < name.len() implies name[i] != 46 by {
                    if i < rest.len() {
                        assert(rest[i] == name[i]);
                    }
                }
            },
        }
    }
}

/// Names are ordered by their first differing byte, and a name comes before those that
/// it starts.
pub proof fn law_names_are_ordered_by_their_first_difference(
    common: Seq<u8>,
    left: Seq<u8>,
    right: Seq<u8>,
)
    ensures
        left.len() == 0 ==> in_order(common + left, common + right),
        left.len() > 0 && right.len() == 0 ==> !in_order(common + left, common + right),
        left.len() > 0 && right.len() > 0 && left[0] != right[0] ==> (in_order(
            common + left,
            common + right,
        ) <==> left[0] < right[0]),
    decreases common.len(),
{
    let first = common + left;
    let second = common + right;
    if common.len() > 0 {
        assert(first.skip(1) =~= common.skip(1) + left);
        assert(second.skip(1) =~= common.skip(1) + right);
        assert(first[0] == second[0]);
        law_names_are_ordered_by_their_first_difference(common.skip(1), left, right);
    } else {
        assert(first =~= left);
        assert(second =~= right);
    }
}

/// The mapping of the secrets has one line for each file, in order: what it is called,
/// and the file itself.
pub proof fn law_every_secret_has_its_line(names: Seq<Seq<u8>>, name: Seq<u8>, stem: Seq<u8>)
    requires
        is_sops_file(name, stem),
    ensures
        secret_entries(names.push(name)) == secret_entries(names) + ("    "@ + decode_utf8(stem)
            + " = ./"@ + decode_utf8(name) + ";\n"@),
{
    law_a_secret_is_called_after_its_file(name);
    assert(names.push(name).drop_last() =~= names);
}

// ---- the proposal ---------------------------------------------------------------------------

/// An absolute path to the proposal is taken unless it holds a control character, names
/// a credential or steps up.
pub proof fn law_a_path_to_the_proposal_is_taken(directory: Seq<char>)
    requires
        starts_with(directory, "/"@),
        ({
            let raw = path_join(directory, "proposal.datom"@);
            &&& forall|i: int| 0 <= i < raw.len() ==> !is_control(#[trigger] raw[i])
            &&& !names_credential(raw)
            &&& !components(raw).contains(".."@)
        }),
    ensures
        is_safe_proposal_path(path_join(directory, "proposal.datom"@)),
{
    let raw = path_join(directory, "proposal.datom"@);
    reveal_strlit("proposal.datom");
    reveal_strlit("/");
    reveal_strlit(".");
    reveal_strlit("..");
    let name = "proposal.datom"@;
    assert(is_plain_name(name)) by {
        assert(name[0] == 'p');
        assert(".."@[0] == '.');
        assert("."@[0] == '.');
        if name.contains('/') {
            let i = choose|i: int| 0 <= i < name.len() && name[i] == '/';
            assert(name[i] == '/');
        }
    }
    law_a_joined_name_is_the_last(directory, name);
    assert(raw.subrange(raw.len() - name.len(), raw.len() as int) =~= name);
    assert(directory.subrange(0, 1)[0] == '/');
    assert(raw.subrange(0, directory.len() as int) == directory);
    assert(raw[0] == raw.subrange(0, directory.len() as int)[0]);
    assert(raw.subrange(0, 1) =~= "/"@) by {
        assert("/"@ =~= seq!['/']);
    }
    assert forall|i: int| 0 <= i < components(raw).len() implies #[trigger] components(raw)[i]
        != ".."@ by {
        assert(components(raw).contains(components(raw)[i]));
    }
}

/// What is not the proposal, is not absolute or steps up is not taken.
pub proof fn law_nothing_but_the_proposal_is_taken(raw: Seq<char>)
    requires
        is_safe_proposal_path(raw),
    ensures
        raw.len() > 0 && raw[0] == '/',
        file_name_of(raw) == Some("proposal.datom"@),
        ends_with(raw, "proposal.datom"@),
        !components(raw).contains(".."@),
        !names_credential(raw),
        forall|i: int| 0 <= i < raw.len() ==> !is_control(#[trigger] raw[i]),
{
    reveal_strlit("/");
    assert(raw.subrange(0, 1)[0] == '/');
    assert("/"@ =~= seq!['/']);
}

/// On the way to the proposal every directory is looked at, from the root down, and the
/// proposal last.
pub proof fn law_every_step_to_the_proposal_is_inspected(raw: Seq<char>, i: int)
    requires
        0 <= i < components(raw).len(),
    ensures
        inspected_paths(raw).len() == components(raw).len(),
        inspected_paths(raw)[i] == "/"@ + joined(components(raw).take(i + 1), "/"@),
{
    assert forall|k: int| 0 <= k < components(raw).len() implies !(
    #[trigger] components(raw)[k]).contains('/') && components(raw)[k].len() > 0 by {
        law_components_are_the_filled_pieces(raw, components(raw)[k]);
        assert(components(raw).contains(components(raw)[k]));
    }
    lemma_prefix(components(raw), i + 1);
}

proof fn lemma_prefix(parts: Seq<Seq<char>>, count: int)
    requires
        0 < count <= parts.len(),
        forall|k: int|
            0 <= k < parts.len() ==> !(#[trigger] parts[k]).contains('/') && parts[k].len() > 0,
    ensures
        component_prefix(parts, count) == "/"@ + joined(parts.take(count), "/"@),
        component_prefix(parts, count).last() != '/',
    decreases count,
{
    reveal_strlit("/");
    assert("/"@ =~= seq!['/']);
    let part = parts[count - 1];
    assert(!part.contains('/') && part.len() > 0);
    assert(part.contains(part[0]));
    assert(part.contains(part.last()));
    assert(!starts_with(part, "/"@)) by {
        if starts_with(part, "/"@) {
            assert(part.subrange(0, 1)[0] == '/');
        }
    }
    let taken = parts.take(count);
    if count == 1 {
        assert(component_prefix(parts, 0) == "/"@);
        assert(joined(taken, "/"@) == part);
        assert(component_prefix(parts, 1) =~= "/"@ + part);
    } else {
        lemma_prefix(parts, count - 1);
        assert(taken.drop_last() =~= parts.take(count - 1));
        assert(taken.last() == part);
        let before = component_prefix(parts, count - 1);
        assert(component_prefix(parts, count) == before + "/"@ + part);
        assert(component_prefix(parts, count) =~= "/"@ + joined(taken, "/"@));
    }
}

/// The proposal is read where every step to it is there, none is a link, and the last
/// is a file.
pub proof fn law_no_link_leads_to_the_proposal(kinds: Seq<PathKind>)
    ensures
        leads_to_a_file(kinds) <==> kinds.len() > 0 && kinds.last() == PathKind::RegularFile
            && !kinds.contains(PathKind::Symlink) && !kinds.contains(PathKind::Missing),
{
    if kinds.len() > 0 && !kinds.contains(PathKind::Symlink) && !kinds.contains(
        PathKind::Missing,
    ) {
        assert forall|i: int| 0 <= i < kinds.len() implies #[trigger] kinds[i] != PathKind::Symlink
            && kinds[i] != PathKind::Missing by {
            assert(kinds.contains(kinds[i]));
        }
    }
}

/// The secrets of a directory are its files with the ending, and no others.
pub proof fn law_only_files_with_the_ending_are_secrets(names: Seq<Seq<u8>>, name: Seq<u8>)
    ensures
        names.filter(secret_filter()).contains(name) <==> names.contains(name) && exists|
            stem: Seq<u8>,
        |
            #[trigger] is_sops_file(name, stem),
{
    broadcast use vstd::seq_lib::group_filter_ensures;

    law_a_secret_is_called_after_its_file(name);
    let kept = names.filter(secret_filter());
    if kept.contains(name) {
        let i = choose|i: int| 0 <= i < kept.len() && kept[i] == name;
        assert(secret_filter()(kept[i]));
        names.lemma_filter_contains_rev(secret_filter(), name);
    }
    if names.contains(name) && is_secret_name(name) {
        assert(secret_filter()(name));
    }
}

/// In a sorted listing no name stands behind one that it should come before.
pub proof fn law_a_sorted_listing_has_no_name_out_of_place(
    names: Seq<Seq<u8>>,
    i: int,
    j: int,
    common: Seq<u8>,
    left: Seq<u8>,
    right: Seq<u8>,
)
    requires
        is_sorted_bytes(names),
        0 <= i < j < names.len(),
        names[i] == common + left,
        names[j] == common + right,
        left.len() > 0 && right.len() > 0 && left[0] != right[0],
    ensures
        left[0] < right[0],
{
    law_names_are_ordered_by_their_first_difference(common, left, right);
    assert(in_order(names[i], names[j]));
}

/// The inputs of a node lie in a directory of their own: below the cluster's, below the
/// node's, under the name of the shape.
pub proof fn law_a_materialization_has_its_own_place(
    directory: Seq<char>,
    command: HorizonMaterializationCommand,
)
    requires
        directory.len() > 0,
        directory.last() != '/',
        is_plain_name(command.cluster_name@),
        is_plain_name(command.node_name@),
    ensures
        materialization_place(directory, command) == directory + seq!['/'] + command.cluster_name@
            + seq!['/'] + command.node_name@ + seq!['/'] + shape_directory(
            command.materialization_shape,
        ),
{
    let cluster = command.cluster_name@;
    let node = command.node_name@;
    let shape = shape_directory(command.materialization_shape);
    reveal_strlit("complete-host");
    reveal_strlit("base-host");
    reveal_strlit("user-environment");
    reveal_strlit(".");
    reveal_strlit("..");
    assert("."@[0] == '.');
    assert(".."@[0] == '.');
    assert(is_plain_name(shape)) by {
        assert(shape[0] == 'c' || shape[0] == 'b' || shape[0] == 'u');
        if shape.contains('/') {
            let i = choose|i: int| 0 <= i < shape.len() && shape[i] == '/';
            assert(shape[i] == '/');
        }
    }
    law_a_joined_name_is_the_last(directory, cluster);
    let first = path_join(directory, cluster);
    assert(cluster.contains(cluster.last()));
    assert(first.last() == cluster.last());
    law_a_joined_name_is_the_last(first, node);
    let second = path_join(first, node);
    assert(node.contains(node.last()));
    assert(second.last() == node.last());
    law_a_joined_name_is_the_last(second, shape);
    assert(path_join(second, shape) =~= directory + seq!['/'] + cluster + seq!['/'] + node
        + seq!['/'] + shape);
}

} // verus!
