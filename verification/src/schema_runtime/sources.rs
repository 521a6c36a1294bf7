//! Which flake sources a policy accepts, in terms of how they are written.

use crate::runtime_model::SourceRevisionPolicy;
use crate::schema_runtime::flake_policy::{
    has_safe_locator, hex_value, is_credential_shaped, is_full_commit, is_pinned,
    is_safe_component, is_safe_parameter, is_safe_path, law_policies_are_disjoint, locator,
    parameter_key, parameter_value, policy_accepts, query, unescaped, value_of,
};
use crate::schema_runtime::pipeline::pinned_revision;
use crate::text::{
    contains_text, is_alphanumeric, is_lower_hex, joined, lemma_first_offset,
    lemma_first_offset_unique, names_credential, occurs_at, split, split_once,
};
use crate::text_laws::{
    law_a_text_is_cut_at_its_first_mark, law_joined_pieces_split_back,
    law_letters_and_digits_are_ascii, law_pieces_join_back,
};
use vstd::prelude::*;
use vstd::utf8::{decode_utf8, encode_utf8, valid_utf8};

verus! {

/// A full commit is forty lower-case hexadecimal digits.
pub proof fn law_a_full_commit_is_forty_digits(s: Seq<char>)
    ensures
        is_full_commit(s) <==> s.len() == 40 && forall|i: int|
            0 <= i < s.len() ==> "0123456789abcdef"@.contains(#[trigger] s[i]),
{
    assert forall|c: char| #[trigger] is_lower_hex(c)
        == "0123456789abcdef"@.contains(c) by {
        law_letters_and_digits_are_ascii(c);
    }
}

/// A name of an owner, a repository or a directory: letters, digits, and the marks
/// `-`, `_` and `.`, and no step up or in place.
pub open spec fn is_plain(s: Seq<char>) -> bool {
    &&& s.len() > 0
    &&& s != "."@
    &&& s != ".."@
    &&& forall|i: int|
        0 <= i < s.len() ==> is_alphanumeric(#[trigger] s[i]) || s[i] == '-' || s[i] == '_' || s[i]
            == '.'
}

/// A relative path of plain names.
pub open spec fn is_plain_path(s: Seq<char>) -> bool {
    forall|i: int| 0 <= i < split(s, '/').len() ==> is_plain(#[trigger] split(s, '/')[i])
}

/// `reference` is `github:`, a plain owner and a plain repository, and the parameters
/// of `query` behind a question mark where there is a query.
pub open spec fn is_github(
    reference: Seq<char>,
    owner: Seq<char>,
    repository: Seq<char>,
    query: Option<Seq<char>>,
) -> bool {
    let place = "github:"@ + owner + seq!['/'] + repository;
    &&& is_plain(owner)
    &&& is_plain(repository)
    &&& reference == match query {
        Some(text) => place + seq!['?'] + text,
        None => place,
    }
}

/// An accepted source names an owner and a repository of the one forge, and what is
/// more only behind a question mark; no login and no fragment.
pub proof fn law_an_accepted_source_is_a_repository(
    policy: SourceRevisionPolicy,
    reference: Seq<char>,
)
    requires
        policy_accepts(policy, reference),
    ensures
        exists|owner: Seq<char>, repository: Seq<char>|
            #[trigger] is_github(reference, owner, repository, query(reference)),
        !reference.contains('#'),
        !reference.contains('@'),
{
    let place = locator(reference);
    let path = place.skip("github:"@.len() as int);
    let pieces = split(path, '/');
    law_a_text_is_cut_at_its_first_mark(reference, '?');
    law_pieces_join_back(path, '/');
    let owner = pieces[0];
    let repository = pieces[1];
    assert(pieces =~= seq![owner, repository]);
    assert(pieces.drop_last() =~= seq![owner]);
    assert(joined(seq![owner], seq!['/']) == owner);
    assert(joined(pieces, seq!['/']) == owner + seq!['/'] + repository);
    assert(place =~= place.subrange(0, "github:"@.len() as int) + path);
    assert(place =~= "github:"@ + owner + seq!['/'] + repository);
    assert(is_plain(owner)) by {
        assert(is_safe_component(owner));
    }
    assert(is_plain(repository)) by {
        assert(is_safe_component(repository));
    }
    assert(is_github(reference, owner, repository, query(reference)));
}

/// Whether `parameter` gives `value` for `key`.
pub open spec fn gives(parameter: Seq<char>, key: Seq<char>, value: Seq<char>) -> bool {
    parameter == key + seq!['='] + value && !value.contains('=')
}

/// The parameters of an accepted source: a pinned one gives a full commit under `rev`,
/// one that is to be resolved gives a plain path under `ref` if anything, and either
/// may give a plain path under `dir`. Nothing is given twice.
pub proof fn law_an_accepted_source_gives_what_its_policy_asks(
    policy: SourceRevisionPolicy,
    reference: Seq<char>,
)
    requires
        policy_accepts(policy, reference),
    ensures
        policy == SourceRevisionPolicy::RequireImmutable ==> query(reference) is Some
            && pinned_revision(reference) is Some && is_full_commit(pinned_revision(reference)->0)
            && exists|i: int|
            0 <= i < split(query(reference)->0, '&').len() && gives(
                #[trigger] split(query(reference)->0, '&')[i],
                "rev"@,
                pinned_revision(reference)->0,
            ),
        policy == SourceRevisionPolicy::ResolveAndRecord ==> pinned_revision(reference) is None,
        query(reference) matches Some(text) ==> forall|i: int|
            0 <= i < split(text, '&').len() ==> is_asked_parameter(
                policy,
                #[trigger] split(text, '&')[i],
            ),
        query(reference) matches Some(text) ==> forall|i: int, j: int|
            0 <= i < j < split(text, '&').len() ==> parameter_key(#[trigger] split(text, '&')[i])
                != parameter_key(#[trigger] split(text, '&')[j]),
{
    if policy == SourceRevisionPolicy::ResolveAndRecord {
        law_policies_are_disjoint(reference);
    }
    if query(reference) is Some {
        let parameters = split(query(reference)->0, '&');
        let main = match policy {
            SourceRevisionPolicy::RequireImmutable => "rev"@,
            SourceRevisionPolicy::ResolveAndRecord => "ref"@,
        };
        reveal_strlit("rev");
        reveal_strlit("ref");
        reveal_strlit("dir");
        assert("rev"@[0] != "dir"@[0]);
        lemma_value(parameters, main);
        if value_of(parameters, main) is Some {
            let i = choose|i: int|
                0 <= i < parameters.len() && parameter_key(#[trigger] parameters[i]) == main
                    && Some(parameter_value(parameters[i])) == value_of(parameters, main);
            assert(is_safe_parameter(parameters[i], main));
            law_a_text_is_cut_at_its_first_mark(parameters[i], '=');
            assert(gives(parameters[i], main, value_of(parameters, main)->0));
        }
        assert forall|i: int| 0 <= i < parameters.len() implies is_asked_parameter(
            policy,
            #[trigger] parameters[i],
        ) by {
            assert(is_safe_parameter(parameters[i], main));
            law_a_text_is_cut_at_its_first_mark(parameters[i], '=');
            let (key, value) = split_once(parameters[i], '=')->0;
            assert(gives(parameters[i], key, value));
            if key == main {
                lemma_value_is(parameters, main, i);
                if policy == SourceRevisionPolicy::ResolveAndRecord {
                    lemma_plain_path(value);
                }
            } else {
                lemma_plain_path(value);
            }
        }
    }
}

/// Whether a parameter is one that `policy` takes.
pub open spec fn is_asked_parameter(policy: SourceRevisionPolicy, parameter: Seq<char>) -> bool {
    exists|key: Seq<char>, value: Seq<char>|
        {
            &&& #[trigger] gives(parameter, key, value)
            &&& value.len() > 0
            &&& !is_credential_shaped(value)
            &&& match policy {
                SourceRevisionPolicy::RequireImmutable => (key == "rev"@ && is_full_commit(value))
                    || (key == "dir"@ && is_plain_path(value)),
                SourceRevisionPolicy::ResolveAndRecord => (key == "ref"@ || key == "dir"@)
                    && is_plain_path(value),
            }
        }
}

proof fn lemma_plain_path(s: Seq<char>)
    requires
        is_safe_path(s),
    ensures
        is_plain_path(s),
{
    assert forall|i: int| 0 <= i < split(s, '/').len() implies is_plain(
        #[trigger] split(s, '/')[i],
    ) by {
        assert(is_safe_component(split(s, '/')[i]));
    }
}

proof fn lemma_value(parameters: Seq<Seq<char>>, key: Seq<char>)
    ensures
        value_of(parameters, key) is Some ==> exists|i: int|
            0 <= i < parameters.len() && parameter_key(#[trigger] parameters[i]) == key && Some(
                parameter_value(parameters[i]),
            ) == value_of(parameters, key),
    decreases parameters.len(),
{
    if parameters.len() > 0 {
        let rest = parameters.drop_last();
        if parameter_key(parameters.last()) == key {
            assert(parameter_key(parameters[parameters.len() - 1]) == key);
        } else {
            lemma_value(rest, key);
            if value_of(rest, key) is Some {
                let i = choose|i: int|
                    0 <= i < rest.len() && parameter_key(#[trigger] rest[i]) == key && Some(
                        parameter_value(rest[i]),
                    ) == value_of(rest, key);
                assert(parameters[i] == rest[i]);
            }
        }
    }
}

proof fn lemma_value_is(parameters: Seq<Seq<char>>, key: Seq<char>, at: int)
    requires
        0 <= at < parameters.len(),
        parameter_key(parameters[at]) == key,
        forall|i: int, j: int|
            0 <= i < j < parameters.len() ==> parameter_key(#[trigger] parameters[i])
                != parameter_key(#[trigger] parameters[j]),
    ensures
        value_of(parameters, key) == Some(parameter_value(parameters[at])),
    decreases parameters.len(),
{
    let rest = parameters.drop_last();
    if at < rest.len() {
        assert(parameter_key(parameters[at]) != parameter_key(parameters[parameters.len() - 1]));
        assert forall|i: int, j: int| 0 <= i < j < rest.len() implies parameter_key(
            #[trigger] rest[i],
        ) != parameter_key(#[trigger] rest[j]) by {
            assert(rest[i] == parameters[i] && rest[j] == parameters[j]);
        }
        assert(rest[at] == parameters[at]);
        lemma_value_is(rest, key, at);
    }
}

/// A repository without any parameter is accepted where it is to be resolved, and
/// refused where it must be pinned.
pub proof fn law_a_bare_repository_is_to_be_resolved(
    reference: Seq<char>,
    owner: Seq<char>,
    repository: Seq<char>,
)
    requires
        is_github(reference, owner, repository, None),
    ensures
        policy_accepts(SourceRevisionPolicy::ResolveAndRecord, reference),
        !policy_accepts(SourceRevisionPolicy::RequireImmutable, reference),
{
    lemma_github(reference, owner, repository, None);
}

/// A repository at a full commit is accepted where it must be pinned, and refused where
/// it is to be resolved.
pub proof fn law_a_repository_at_a_commit_is_pinned(
    reference: Seq<char>,
    owner: Seq<char>,
    repository: Seq<char>,
    commit: Seq<char>,
)
    requires
        is_github(reference, owner, repository, Some("rev"@ + seq!['='] + commit)),
        is_full_commit(commit),
        !is_credential_shaped("rev"@),
        !is_credential_shaped(commit),
    ensures
        policy_accepts(SourceRevisionPolicy::RequireImmutable, reference),
        !policy_accepts(SourceRevisionPolicy::ResolveAndRecord, reference),
        pinned_revision(reference) == Some(commit),
{
    let text = "rev"@ + seq!['='] + commit;
    reveal_strlit("rev");
    assert forall|i: int| 0 <= i < text.len() implies text[i] != '&' && text[i] != '#' && text[i]
        != '@' && text[i] != '?' by {
        if i >= 4 {
            assert(text[i] == commit[i - 4]);
            assert(is_lower_hex(commit[i - 4]));
        }
    }
    lemma_github(reference, owner, repository, Some(text));
    lemma_first_offset(text, '&');
    assert(split(text, '&') =~= seq![text]);
    assert(text[3] == '=');
    assert forall|i: int| 0 <= i < 3 implies text[i] != '=' by {}
    lemma_first_offset_unique(text, '=', 3);
    assert(text.take(3) =~= "rev"@);
    assert(text.skip(4) =~= commit);
    assert(!commit.contains('=')) by {
        if commit.contains('=') {
            let i = choose|i: int| 0 <= i < commit.len() && commit[i] == '=';
            assert(is_lower_hex(commit[i]));
        }
    }
    let parameters = split(text, '&');
    assert(is_safe_parameter(parameters[0], "rev"@));
    assert(parameters.last() == text);
    assert(value_of(parameters, "rev"@) == Some(commit));
    assert(is_pinned(reference));
    law_policies_are_disjoint(reference);
}

proof fn lemma_github(
    reference: Seq<char>,
    owner: Seq<char>,
    repository: Seq<char>,
    given: Option<Seq<char>>,
)
    requires
        is_github(reference, owner, repository, given),
        given matches Some(text) ==> !text.contains('#') && !text.contains('@'),
    ensures
        has_safe_locator(reference),
        query(reference) == given,
{
    reveal_strlit("github:");
    reveal_strlit("//");
    let prefix = "github:"@;
    let place = prefix + owner + seq!['/'] + repository;
    assert forall|i: int| 0 <= i < place.len() implies place[i] != '?' && place[i] != '#'
        && place[i] != '@' by {
        if i < 7 {
            assert(place[i] == prefix[i]);
        } else if i < 7 + owner.len() {
            assert(place[i] == owner[i - 7]);
        } else if i > 7 + owner.len() {
            assert(place[i] == repository[i - 8 - owner.len()]);
        }
    }
    match given {
        Some(text) => {
            let at = place.len() as int;
            assert(reference[at] == '?');
            assert forall|i: int| 0 <= i < at implies reference[i] != '?' by {
                assert(reference[i] == place[i]);
            }
            lemma_first_offset_unique(reference, '?', at);
            assert(reference.take(at) =~= place);
            assert(reference.skip(at + 1) =~= text);
            assert forall|c: char| c == '#' || c == '@' implies !(#[trigger] reference.contains(
                c,
            )) by {
                if reference.contains(c) {
                    let i = choose|i: int| 0 <= i < reference.len() && reference[i] == c;
                    if i < at {
                        assert(reference[i] == place[i]);
                    } else if i > at {
                        assert(reference[i] == text[i - at - 1]);
                        assert(text.contains(c));
                    }
                }
            }
        },
        None => {
            lemma_first_offset(reference, '?');
            if reference.contains('?') {
                let i = choose|i: int| 0 <= i < reference.len() && reference[i] == '?';
                assert(place[i] != '?');
            }
        },
    }
    assert(locator(reference) == place);
    assert(place.subrange(0, 7) =~= prefix);
    let path = place.skip(7);
    let pieces = seq![owner, repository];
    assert(pieces.drop_last() =~= seq![owner]);
    assert(joined(seq![owner], seq!['/']) == owner);
    assert(joined(pieces, seq!['/']) == owner + seq!['/'] + repository);
    assert(path =~= joined(pieces, seq!['/']));
    assert forall|i: int| 0 <= i < pieces.len() implies !(#[trigger] pieces[i]).contains('/') by {
        assert(is_plain(pieces[i]));
        if pieces[i].contains('/') {
            let k = choose|k: int| 0 <= k < pieces[i].len() && pieces[i][k] == '/';
            assert(is_alphanumeric(pieces[i][k]) || pieces[i][k] == '-' || pieces[i][k] == '_'
                || pieces[i][k] == '.');
        }
    }
    law_joined_pieces_split_back(pieces, '/');
    assert(is_safe_component(owner));
    assert(is_safe_component(repository));
    assert(!contains_text(place, "//"@)) by {
        if contains_text(place, "//"@) {
            let at = choose|at: int| occurs_at(place, "//"@, at);
            let found = place.subrange(at, at + 2);
            assert(found[0] == '/' && found[1] == '/');
            assert(place[at] == '/' && place[at + 1] == '/');
            assert(!pieces[0].contains('/'));
            assert(!pieces[1].contains('/'));
            if at < 7 {
                assert(place[at] == prefix[at]);
            } else if at < 7 + owner.len() {
                assert(place[at] == owner[at - 7]);
                assert(owner.contains('/'));
            } else {
                assert(place[at + 1] == repository[at + 1 - 8 - owner.len()]);
                assert(repository.contains('/'));
            }
        }
    }
}

// ---- escapes --------------------------------------------------------------------------------

/// The digits of an escape, in either case; nothing else is one.
pub proof fn law_escape_digits_count_to_fifteen(digit: u8)
    ensures
        digit < 10 ==> hex_value((48 + digit) as u8) == Some(digit),
        10 <= digit < 16 ==> hex_value((87 + digit) as u8) == Some(digit),
        10 <= digit < 16 ==> hex_value((55 + digit) as u8) == Some(digit),
        hex_value(digit) is Some <==> 48 <= digit <= 57 || 65 <= digit <= 70 || 97 <= digit <= 102,
{
}

/// An escape stands for the byte that its two digits count, any other byte for itself,
/// and an escape that is cut short or has another digit for nothing.
pub proof fn law_an_escape_stands_for_its_byte(first: u8, high: u8, low: u8, rest: Seq<u8>)
    requires
        first != 37,
        unescaped(rest) is Some,
    ensures
        unescaped(seq![first] + rest) == Some(seq![first] + unescaped(rest)->0),
        hex_value(high) is Some && hex_value(low) is Some ==> unescaped(
            seq![37u8, high, low] + rest,
        ) == Some(
            seq![(16 * hex_value(high)->0 + hex_value(low)->0) as u8] + unescaped(rest)->0,
        ),
        hex_value(high) is None || hex_value(low) is None ==> unescaped(
            seq![37u8, high, low] + rest,
        ) is None,
        unescaped(seq![37u8]) is None,
        unescaped(seq![37u8, high]) is None,
        unescaped(Seq::<u8>::empty()) == Some(Seq::<u8>::empty()),
{
    assert((seq![first] + rest).skip(1) =~= rest);
    assert((seq![37u8, high, low] + rest).skip(3) =~= rest);
}

/// A text is judged by what it stands for: it is taken for a credential where that
/// names one, where it stands for no text, or where it stands for another escape.
pub proof fn law_a_text_is_judged_by_what_it_stands_for(s: Seq<char>)
    ensures
        is_credential_shaped(s) <==> match unescaped(encode_utf8(s)) {
            Some(bytes) => !valid_utf8(bytes) || decode_utf8(bytes).contains('%')
                || names_credential(decode_utf8(bytes)),
            None => true,
        },
{
}

} // verus!
