//! What the output of a command is read as: closures, revisions and counts.

use crate::runtime_flow::{EffectCommand, EffectResult, EffectStage};
use crate::schema_runtime::effects::{reads_output, runs_one_command};
use crate::schema_runtime::flake_metadata::json_read;
use crate::schema_runtime::nix_command::{count_filled, first_line};
use crate::schema_runtime::store_path::{
    is_canonical_store_root, is_store_hash_char, is_store_name_char,
};
use crate::text::{
    contains_text, is_alphanumeric, is_white_space, lemma_first_offset, lemma_first_offset_unique,
    names_credential, split, split_once, trim,
};
use crate::text_laws::{law_a_text_is_cut_at_its_first_mark, law_a_trimmed_text_stays};
use vstd::prelude::*;

verus! {

// ---- store roots ----------------------------------------------------------------------------

/// A hash of the store: 32 digits and lower-case letters, without `e`, `o`, `t` and `u`.
pub open spec fn is_hash(s: Seq<char>) -> bool {
    s.len() == 32 && forall|i: int|
        0 <= i < s.len() ==> "0123456789abcdfghijklmnpqrsvwxyz"@.contains(#[trigger] s[i])
}

/// A name of the store: letters, digits and a few marks, and no way up.
pub open spec fn is_store_name(s: Seq<char>) -> bool {
    s.len() > 0 && !contains_text(s, ".."@) && forall|i: int|
        0 <= i < s.len() ==> is_alphanumeric(#[trigger] s[i]) || "+-._"@.contains(s[i])
}

/// A store root is the store, a hash and a name, and names no credential.
pub proof fn law_a_store_root_is_a_hash_and_a_name(value: Seq<char>)
    ensures
        is_canonical_store_root(value) <==> !names_credential(value) && exists|
            hash: Seq<char>,
            name: Seq<char>,
        |
            {
                &&& value == #[trigger] ("/nix/store/"@ + hash + seq!['-'] + name)
                &&& is_hash(hash)
                &&& is_store_name(name)
            },
{
    let prefix = "/nix/store/"@;
    reveal_strlit("0123456789abcdfghijklmnpqrsvwxyz");
    reveal_strlit("+-._");
    assert forall|c: char| #[trigger] is_store_hash_char(c)
        == "0123456789abcdfghijklmnpqrsvwxyz"@.contains(c) by {
        lemma_hash_char(c);
    }
    assert forall|c: char| #[trigger] is_store_name_char(c) == (is_alphanumeric(c)
        || "+-._"@.contains(c)) by {
        assert("+-._"@[0] == '+' && "+-._"@[1] == '-' && "+-._"@[2] == '.' && "+-._"@[3] == '_');
    }
    if is_canonical_store_root(value) {
        let rest = value.skip(prefix.len() as int);
        law_a_text_is_cut_at_its_first_mark(rest, '-');
        let (hash, name) = split_once(rest, '-')->0;
        assert(value =~= value.subrange(0, prefix.len() as int) + rest);
        assert(value =~= prefix + hash + seq!['-'] + name);
        assert(is_hash(hash));
        assert(is_store_name(name));
    }
    if exists|hash: Seq<char>, name: Seq<char>|
        {
            &&& value == #[trigger] (prefix + hash + seq!['-'] + name)
            &&& is_hash(hash)
            &&& is_store_name(name)
        } {
        let (hash, name) = choose|hash: Seq<char>, name: Seq<char>|
            {
                &&& value == #[trigger] (prefix + hash + seq!['-'] + name)
                &&& is_hash(hash)
                &&& is_store_name(name)
            };
        let rest = value.skip(prefix.len() as int);
        assert(value.subrange(0, prefix.len() as int) =~= prefix);
        assert(rest =~= hash + seq!['-'] + name);
        assert forall|i: int| 0 <= i < 32 implies rest[i] != '-' by {
            assert(rest[i] == hash[i]);
            assert(is_store_hash_char(hash[i]));
        }
        lemma_first_offset_unique(rest, '-', 32);
        assert(rest.take(32) =~= hash);
        assert(rest.skip(33) =~= name);
        assert forall|i: int| 0 <= i < hash.len() implies is_store_hash_char(
            #[trigger] hash[i],
        ) by {}
        assert forall|i: int| 0 <= i < name.len() implies is_store_name_char(
            #[trigger] name[i],
        ) by {}
    }
}

proof fn lemma_hash_char(c: char)
    ensures
        is_store_hash_char(c) == "0123456789abcdfghijklmnpqrsvwxyz"@.contains(c),
{
    let all = "0123456789abcdfghijklmnpqrsvwxyz"@;
    reveal_strlit("0123456789abcdfghijklmnpqrsvwxyz");
    if is_store_hash_char(c) {
        let code = c as int;
        let i: int = if code <= 57 {
            code - 48
        } else if code <= 100 {
            code - 87
        } else if code <= 110 {
            code - 88
        } else if code <= 115 {
            code - 89
        } else {
            code - 91
        };
        assert(all[i] == c);
    }
}

proof fn lemma_store_roots_hold_no_white_space(value: Seq<char>)
    requires
        is_canonical_store_root(value),
    ensures
        value.len() > 0,
        forall|i: int| 0 <= i < value.len() ==> !is_white_space(#[trigger] value[i]),
{
    let prefix = "/nix/store/"@;
    reveal_strlit("/nix/store/");
    let rest = value.skip(prefix.len() as int);
    law_a_text_is_cut_at_its_first_mark(rest, '-');
    let (hash, name) = split_once(rest, '-')->0;
    assert(value =~= value.subrange(0, prefix.len() as int) + rest);
    assert(value =~= prefix + hash + seq!['-'] + name);
    assert forall|i: int| 0 <= i < value.len() implies !is_white_space(#[trigger] value[i]) by {
        if i < 11 {
            assert(value[i] == prefix[i]);
        } else if i < 11 + hash.len() {
            assert(value[i] == hash[i - 11]);
            assert(is_store_hash_char(hash[i - 11]));
        } else if i > 11 + hash.len() {
            assert(value[i] == name[i - 12 - hash.len()]);
            assert(is_store_name_char(name[i - 12 - hash.len()]));
        }
    }
}

// ---- printed lines --------------------------------------------------------------------------

/// What is read of an output is its first line, without white space around it.
pub proof fn law_the_first_line_is_read(line: Seq<char>, rest: Seq<char>)
    requires
        !line.contains('\n'),
    ensures
        first_line(line) == trim(line),
        first_line(line + seq!['\n'] + rest) == trim(line),
{
    let output = line + seq!['\n'] + rest;
    lemma_first_offset(line, '\n');
    let at = line.len() as int;
    assert(output[at] == '\n');
    assert forall|i: int| 0 <= i < at implies output[i] != '\n' by {
        assert(output[i] == line[i]);
        assert(line.contains(line[i]));
    }
    lemma_first_offset_unique(output, '\n', at);
    assert(output.take(at) =~= line);
    assert(split(output, '\n')[0] == line);
    assert(split(line, '\n')[0] == line);
}

proof fn lemma_a_root_is_read(path: Seq<char>, rest: Seq<char>)
    requires
        is_canonical_store_root(path),
    ensures
        first_line(path + seq!['\n'] + rest) == path,
        path.len() > 0,
{
    lemma_store_roots_hold_no_white_space(path);
    assert(!path.contains('\n')) by {
        if path.contains('\n') {
            let i = choose|i: int| 0 <= i < path.len() && path[i] == '\n';
            assert(is_white_space(path[i]));
        }
    }
    law_the_first_line_is_read(path, rest);
    law_a_trimmed_text_stays(path);
}

/// The closure that a command printed is the one that goes on: a store root on the
/// first line of an evaluation, a build or a check is its result.
pub proof fn law_a_printed_closure_goes_on(
    command: EffectCommand,
    output: String,
    path: Seq<char>,
    rest: Seq<char>,
    result: EffectResult,
)
    requires
        is_canonical_store_root(path),
        output@ == path + seq!['\n'] + rest,
        command is NixEval || command is NixBuild || command is HermeticCheck,
        reads_output(command, Ok(output), result),
    ensures
        match command {
            EffectCommand::NixEval(asked) => result matches EffectResult::ClosureEvaluated(evaluated)
                && evaluated.closure_path@ == path && evaluated.generation_identifier
                == asked.generation_identifier,
            EffectCommand::NixBuild(asked) => result matches EffectResult::ClosureBuilt(built)
                && built.closure_path@ == path && built.generation_identifier
                == asked.generation_identifier,
            EffectCommand::HermeticCheck(asked) => result matches EffectResult::HermeticCheckBuilt(
                built,
            ) && built.closure_path@ == path && built.node_name == asked.node_name
                && built.cluster_name == asked.cluster_name,
            _ => false,
        },
{
    lemma_a_root_is_read(path, rest);
}

/// A command that failed fails its own stage with what it said, and a closure that is
/// none fails it too.
pub proof fn law_a_failed_command_fails_its_stage(
    command: EffectCommand,
    output: Result<String, String>,
    result: EffectResult,
)
    requires
        reads_output(command, output, result),
    ensures
        output matches Err(detail) ==> (result matches EffectResult::EffectFailed(failure)
            && failure.string@ == detail@ && match command {
            EffectCommand::ResolveFlakeAuth(_) => failure.effect_stage == EffectStage::FlakeAuth,
            EffectCommand::NixEval(_) => failure.effect_stage == EffectStage::Eval,
            EffectCommand::NixBuild(_) => failure.effect_stage == EffectStage::Build,
            EffectCommand::CopyClosure(_) => failure.effect_stage == EffectStage::CopyClosure,
            EffectCommand::PathInfoGc(_) => failure.effect_stage == EffectStage::Gc,
            EffectCommand::HermeticCheck(_) => failure.effect_stage == EffectStage::HermeticCheck,
            _ => false,
        }),
        output is Ok ==> match result {
            EffectResult::ClosureEvaluated(evaluated) => command is NixEval
                && is_canonical_store_root(evaluated.closure_path@),
            EffectResult::ClosureBuilt(built) => command is NixBuild && is_canonical_store_root(
                built.closure_path@,
            ),
            EffectResult::HermeticCheckBuilt(built) => command is HermeticCheck
                && is_canonical_store_root(built.closure_path@),
            EffectResult::FlakeResolved(_) => command is ResolveFlakeAuth,
            EffectResult::ClosureCopied(copied) => command matches EffectCommand::CopyClosure(asked)
                && copied.closure_path == asked.closure_path && copied.node_name
                == asked.node_name && copied.generation_identifier
                == asked.generation_identifier,
            EffectResult::PathsCollected(collected) => command matches EffectCommand::PathInfoGc(
                asked,
            ) && collected.node_name == asked.node_name && collected.cluster_name
                == asked.cluster_name,
            EffectResult::EffectFailed(failure) => match command {
                EffectCommand::ResolveFlakeAuth(_) => failure.effect_stage
                    == EffectStage::FlakeAuth,
                EffectCommand::NixEval(_) => failure.effect_stage == EffectStage::Eval,
                EffectCommand::NixBuild(_) => failure.effect_stage == EffectStage::Build,
                EffectCommand::HermeticCheck(_) => failure.effect_stage
                    == EffectStage::HermeticCheck,
                _ => false,
            },
            _ => false,
        },
{
}

/// A build that printed nothing has built what was asked for.
pub proof fn law_a_silent_build_is_what_was_asked(
    command: EffectCommand,
    output: String,
    result: EffectResult,
)
    requires
        command is NixBuild,
        output@ == Seq::<char>::empty(),
        is_canonical_store_root(command->NixBuild_0.closure_path@),
        reads_output(command, Ok(output), result),
    ensures
        result matches EffectResult::ClosureBuilt(built) && built.closure_path@
            == command->NixBuild_0.closure_path@,
{
    law_the_first_line_is_read(output@, output@);
    law_a_trimmed_text_stays(output@);
}

/// Whether a line holds more than white space.
pub open spec fn is_filled() -> spec_fn(Seq<char>) -> bool {
    |line: Seq<char>| trim(line).len() > 0
}

/// A collection counts the lines that hold something.
pub proof fn law_a_collection_counts_its_paths(lines: Seq<Seq<char>>)
    ensures
        count_filled(lines) == lines.filter(is_filled()).len(),
    decreases lines.len(),
{
    reveal(Seq::filter);
    if lines.len() > 0 {
        law_a_collection_counts_its_paths(lines.drop_last());
    }
}

// ---- revisions ------------------------------------------------------------------------------

/// The text at the first of `places` that a document has.
pub open spec fn first_present(
    document: Map<Seq<Seq<char>>, Seq<char>>,
    places: Seq<Seq<Seq<char>>>,
) -> Option<Seq<char>>
    decreases places.len(),
{
    if places.len() == 0 {
        None
    } else if document.contains_key(places[0]) {
        Some(document[places[0]])
    } else {
        first_present(document, places.skip(1))
    }
}

/// A resolved source has the locked revision of its metadata, or failing that the
/// plain one, or failing both the archive's hash; and the locator that the metadata
/// gives, or failing that the requested one. What was requested is kept beside it.
pub proof fn law_a_resolved_source_is_that_of_its_metadata(
    command: EffectCommand,
    output: String,
    result: EffectResult,
)
    requires
        command is ResolveFlakeAuth,
        json_read(output@) is Ok,
        reads_output(command, Ok(output), result),
    ensures
        result matches EffectResult::FlakeResolved(resolved) && {
            let request = command->ResolveFlakeAuth_0;
            let document = json_read(output@)->Ok_0;
            let revision = first_present(
                document,
                seq![
                    seq!["locked"@, "rev"@],
                    seq!["revision"@],
                    seq!["rev"@],
                    seq!["locked"@, "narHash"@],
                    seq!["narHash"@],
                ],
            );
            let locator = first_present(document, seq![seq!["url"@], seq!["resolvedUrl"@]]);
            &&& revision matches Some(text) ==> resolved.0.string@ == text
            &&& revision is None ==> resolved.0.string@ == Seq::<char>::empty()
            &&& locator matches Some(text) ==> resolved.0.resolved_ref@ == text
            &&& locator is None ==> resolved.0.resolved_ref@ == request.flake_reference@
            &&& resolved.0.requested_ref == request.flake_reference
            &&& resolved.0.source_revision_policy == request.source_revision_policy
        },
{
    let document = json_read(output@)->Ok_0;
    let places = seq![
        seq!["locked"@, "rev"@],
        seq!["revision"@],
        seq!["rev"@],
        seq!["locked"@, "narHash"@],
        seq!["narHash"@],
    ];
    reveal_with_fuel(first_present, 6);
    assert(places.skip(1).skip(1) =~= places.skip(2));
    assert(places.skip(2).skip(1) =~= places.skip(3));
    assert(places.skip(3).skip(1) =~= places.skip(4));
    assert(places.skip(4).skip(1) =~= places.skip(5));
    let urls = seq![seq!["url"@], seq!["resolvedUrl"@]];
    assert(urls.skip(1).skip(1) =~= urls.skip(2));
}

// ---- which commands are read ----------------------------------------------------------------

/// Every effect but a materialisation, an activation and those of a test machine is one
/// command, whose output is read.
pub proof fn law_effects_of_one_command_are_read(command: EffectCommand)
    ensures
        runs_one_command(command) <==> !(command is MaterializeHorizon) && !(
        command is ActivateGeneration) && !(command is BringUpTestVm) && !(
        command is TearDownTestVm),
{
}

} // verus!
