//! Which flake references a deployment accepts, and what evaluation may trust.

use crate::runtime_model::{ImmutableRevision, SourceRevisionPolicy};
use crate::text::{
    alphanumeric, begins_with, char_views, chars_of, contains_char, contains_part, contains_text,
    credential_like, is_alphanumeric, is_lower_hex, is_text, lower_hex,
    names_credential, slice_of, split, split_all, split_at_first, split_once,
    starts_with, text_of, utf8_text,
};
use vstd::prelude::*;
use vstd::utf8::{decode_utf8, encode_utf8, valid_utf8};

verus! {

// ---- full commit identities -------------------------------------------------

/// A full commit identity: forty lower-case hexadecimal digits.
pub open spec fn is_full_commit(s: Seq<char>) -> bool {
    s.len() == 40 && forall|i: int| 0 <= i < s.len() ==> is_lower_hex(#[trigger] s[i])
}

/// The immutable revision that `text` names, where it is a full commit identity.
pub fn immutable_revision(text: &str) -> (r: Option<ImmutableRevision>)
    ensures
        r is Some <==> is_full_commit(text@),
        r matches Some(revision) ==> revision@ == text@,
{
    let v = chars_of(text);
    if v.len() != 40 {
        return None;
    }
    let mut i: usize = 0;
    while i < v.len()
        invariant
            v@ == text@,
            i <= v.len(),
            forall|j: int| 0 <= j < i ==> is_lower_hex(#[trigger] text@[j]),
        decreases v.len() - i,
    {
        if !lower_hex(v[i]) {
            assert(!is_lower_hex(text@[i as int]));
            return None;
        }
        i = i + 1;
    }
    Some(ImmutableRevision(text.to_owned()))
}

// ---- percent escapes ----------------------------------------------------------

/// The value of a hexadecimal digit in either case.
pub open spec fn hex_value(byte: u8) -> Option<u8> {
    if 48 <= byte <= 57 {
        Some((byte - 48) as u8)
    } else if 97 <= byte <= 102 {
        Some((byte - 97 + 10) as u8)
    } else if 65 <= byte <= 70 {
        Some((byte - 65 + 10) as u8)
    } else {
        None
    }
}

/// Every `%XY` of `bytes` replaced by the byte it stands for; nothing where an
/// escape is cut short or holds anything but hexadecimal digits.
pub open spec fn unescaped(bytes: Seq<u8>) -> Option<Seq<u8>>
    decreases bytes.len(),
{
    if bytes.len() == 0 {
        Some(Seq::empty())
    } else if bytes[0] != 37 {
        match unescaped(bytes.skip(1)) {
            Some(rest) => Some(seq![bytes[0]] + rest),
            None => None,
        }
    } else if bytes.len() < 3 {
        None
    } else {
        match (hex_value(bytes[1]), hex_value(bytes[2]), unescaped(bytes.skip(3))) {
            (Some(high), Some(low), Some(rest)) => Some(seq![(16 * high + low) as u8] + rest),
            _ => None,
        }
    }
}

/// The text that one round of percent decoding gives, where the escapes are
/// well formed, the result is valid text, and no `%` is left in it.
pub open spec fn percent_decoded(s: Seq<char>) -> Option<Seq<char>> {
    match unescaped(encode_utf8(s)) {
        Some(bytes) => if valid_utf8(bytes) && !decode_utf8(bytes).contains('%') {
            Some(decode_utf8(bytes))
        } else {
            None
        },
        None => None,
    }
}

/// Text that names a credential once its percent escapes are decoded, or whose
/// escapes cannot be decoded in one round.
pub open spec fn is_credential_shaped(s: Seq<char>) -> bool {
    match percent_decoded(s) {
        Some(decoded) => names_credential(decoded),
        None => true,
    }
}

fn hex_digit(byte: u8) -> (r: Option<u8>)
    ensures
        r == hex_value(byte),
        r matches Some(value) ==> value < 16,
{
    if 48 <= byte && byte <= 57 {
        Some(byte - 48)
    } else if 97 <= byte && byte <= 102 {
        Some(byte - 97 + 10)
    } else if 65 <= byte && byte <= 70 {
        Some(byte - 65 + 10)
    } else {
        None
    }
}

// ---- the shape of a reference ---------------------------------------------------

/// A character of an owner, repository, directory or branch component.
pub open spec fn is_component_char(c: char) -> bool {
    is_alphanumeric(c) || c == '-' || c == '_' || c == '.'
}

/// A path component that names no other directory.
pub open spec fn is_safe_component(s: Seq<char>) -> bool {
    &&& s.len() > 0
    &&& s != "."@
    &&& s != ".."@
    &&& forall|i: int| 0 <= i < s.len() ==> is_component_char(#[trigger] s[i])
}

/// A relative path of safe components.
pub open spec fn is_safe_path(s: Seq<char>) -> bool {
    &&& !starts_with(s, "/"@)
    &&& !(s.len() > 0 && s.last() == '/')
    &&& forall|i: int|
        0 <= i < split(s, '/').len() ==> is_safe_component(#[trigger] split(s, '/')[i])
}

/// The part of a reference before its query.
pub open spec fn locator(reference: Seq<char>) -> Seq<char> {
    match split_once(reference, '?') {
        Some((before, _)) => before,
        None => reference,
    }
}

/// The query of a reference.
pub open spec fn query(reference: Seq<char>) -> Option<Seq<char>> {
    match split_once(reference, '?') {
        Some((_, after)) => Some(after),
        None => None,
    }
}

/// `github:<owner>/<repository>` with safe components, and neither fragment nor
/// user information anywhere in the reference.
pub open spec fn has_safe_locator(reference: Seq<char>) -> bool {
    let place = locator(reference);
    let path = split(place.skip("github:"@.len() as int), '/');
    &&& !reference.contains('#')
    &&& !reference.contains('@')
    &&& !contains_text(place, "//"@)
    &&& starts_with(place, "github:"@)
    &&& path.len() == 2
    &&& is_safe_component(path[0])
    &&& is_safe_component(path[1])
}

/// A parameter `key=value` that names no credential, whose key is `main` or is
/// `dir` with a safe path.
pub open spec fn is_safe_parameter(parameter: Seq<char>, main: Seq<char>) -> bool {
    match split_once(parameter, '=') {
        Some((key, value)) => {
            &&& key.len() > 0
            &&& value.len() > 0
            &&& !value.contains('=')
            &&& !is_credential_shaped(key)
            &&& !is_credential_shaped(value)
            &&& key == main || (key == "dir"@ && is_safe_path(value))
        },
        None => false,
    }
}

/// The key of a parameter.
pub open spec fn parameter_key(parameter: Seq<char>) -> Seq<char> {
    match split_once(parameter, '=') {
        Some((key, _)) => key,
        None => parameter,
    }
}

/// The value of a parameter.
pub open spec fn parameter_value(parameter: Seq<char>) -> Seq<char> {
    match split_once(parameter, '=') {
        Some((_, value)) => value,
        None => parameter,
    }
}

/// Safe parameters, none of them given twice.
pub open spec fn are_safe_parameters(parameters: Seq<Seq<char>>, main: Seq<char>) -> bool {
    &&& forall|i: int| 0 <= i < parameters.len() ==> is_safe_parameter(#[trigger] parameters[i], main)
    &&& forall|i: int, j: int|
        0 <= i < j < parameters.len() ==> parameter_key(#[trigger] parameters[i]) != parameter_key(
            #[trigger] parameters[j],
        )
}

/// The value of the parameter `key`, where it is given.
pub open spec fn value_of(parameters: Seq<Seq<char>>, key: Seq<char>) -> Option<Seq<char>>
    decreases parameters.len(),
{
    if parameters.len() == 0 {
        None
    } else if parameter_key(parameters.last()) == key {
        Some(parameter_value(parameters.last()))
    } else {
        value_of(parameters.drop_last(), key)
    }
}

/// A reference pinned to one full commit: `github:<owner>/<repository>?rev=<commit>`,
/// with an optional `dir`.
pub open spec fn is_pinned(reference: Seq<char>) -> bool {
    has_safe_locator(reference) && match query(reference) {
        Some(text) => {
            let parameters = split(text, '&');
            &&& are_safe_parameters(parameters, "rev"@)
            &&& value_of(parameters, "rev"@) is Some
            &&& is_full_commit(value_of(parameters, "rev"@)->0)
        },
        None => false,
    }
}

/// A reference that is resolved when it is deployed: `github:<owner>/<repository>`,
/// with an optional `ref` and `dir`.
pub open spec fn is_resolvable(reference: Seq<char>) -> bool {
    has_safe_locator(reference) && match query(reference) {
        Some(text) => {
            let parameters = split(text, '&');
            &&& are_safe_parameters(parameters, "ref"@)
            &&& value_of(parameters, "ref"@) matches Some(branch) ==> is_safe_path(branch)
        },
        None => true,
    }
}

/// Whether `policy` accepts `reference`.
pub open spec fn policy_accepts(policy: SourceRevisionPolicy, reference: Seq<char>) -> bool {
    match policy {
        SourceRevisionPolicy::RequireImmutable => is_pinned(reference),
        SourceRevisionPolicy::ResolveAndRecord => is_resolvable(reference),
    }
}

proof fn lemma_value_of(parameters: Seq<Seq<char>>, key: Seq<char>)
    ensures
        value_of(parameters, key) is Some <==> exists|i: int|
            0 <= i < parameters.len() && parameter_key(#[trigger] parameters[i]) == key,
    decreases parameters.len(),
{
    if parameters.len() > 0 {
        let rest = parameters.drop_last();
        lemma_value_of(rest, key);
        if parameter_key(parameters.last()) == key {
            assert(parameter_key(parameters[parameters.len() - 1]) == key);
        } else {
            if exists|i: int|
                0 <= i < parameters.len() && parameter_key(#[trigger] parameters[i]) == key {
                let i = choose|i: int|
                    0 <= i < parameters.len() && parameter_key(#[trigger] parameters[i]) == key;
                assert(parameter_key(rest[i]) == key);
            }
            if exists|i: int| 0 <= i < rest.len() && parameter_key(#[trigger] rest[i]) == key {
                let i = choose|i: int| 0 <= i < rest.len() && parameter_key(#[trigger] rest[i]) == key;
                assert(parameter_key(parameters[i]) == key);
            }
        }
    }
}

fn all_component_chars(v: &Vec<char>) -> (r: bool)
    ensures
        r == (forall|i: int| 0 <= i < v@.len() ==> is_component_char(#[trigger] v@[i])),
{
    let mut i: usize = 0;
    while i < v.len()
        invariant
            i <= v.len(),
            forall|j: int| 0 <= j < i ==> is_component_char(#[trigger] v@[j]),
        decreases v.len() - i,
    {
        let c = v[i];
        if !(alphanumeric(c) || c == '-' || c == '_' || c == '.') {
            assert(!is_component_char(v@[i as int]));
            return false;
        }
        i = i + 1;
    }
    true
}

/// A flake reference held against the source revision policies.
pub struct FlakeReferencePolicy<'a> {
    pub reference: &'a str,
}

impl<'a> FlakeReferencePolicy<'a> {
    /// Takes the reference to judge.
    pub fn new(reference: &'a str) -> (r: Self)
        ensures
            r.reference@ == reference@,
    {
        FlakeReferencePolicy { reference }
    }

    /// Whether `value` is a safe path component.
    pub fn safe_locator_component(value: &Vec<char>) -> (r: bool)
        ensures
            r == is_safe_component(value@),
    {
        value.len() > 0 && !is_text(value, ".") && !is_text(value, "..") && all_component_chars(
            value,
        )
    }

    /// Whether `value` is a relative path of safe components.
    pub fn safe_relative_dir(value: &Vec<char>) -> (r: bool)
        ensures
            r == is_safe_path(value@),
    {
        if begins_with(value, "/") {
            return false;
        }
        if value.len() > 0 && value[value.len() - 1] == '/' {
            return false;
        }
        let pieces = split_all(value, '/');
        let mut i: usize = 0;
        while i < pieces.len()
            invariant
                i <= pieces.len(),
                char_views(pieces@) == split(value@, '/'),
                forall|j: int| 0 <= j < i ==> is_safe_component(#[trigger] split(value@, '/')[j]),
            decreases pieces.len() - i,
        {
            assert(char_views(pieces@)[i as int] == pieces@[i as int]@);
            if !Self::safe_locator_component(&pieces[i]) {
                assert(!is_safe_component(split(value@, '/')[i as int]));
                return false;
            }
            i = i + 1;
        }
        true
    }

    /// Whether `value` is a branch or tag name of safe components.
    pub fn safe_ref(value: &Vec<char>) -> (r: bool)
        ensures
            r == is_safe_path(value@),
    {
        Self::safe_relative_dir(value)
    }

    /// `value` after one round of percent decoding; nothing where that needs a
    /// second round or does not give text.
    pub fn percent_decode_once(value: &str) -> (r: Option<String>)
        ensures
            match (r, percent_decoded(value@)) {
                (Some(text), Some(decoded)) => text@ == decoded,
                (None, None) => true,
                _ => false,
            },
    {
        let bytes = value.as_bytes();
        let ghost all = encode_utf8(value@);
        let mut decoded: Vec<u8> = Vec::new();
        let mut index: usize = 0;
        assert(bytes@.skip(0) =~= bytes@);
        proof {
            match unescaped(bytes@) {
                Some(rest) => assert(decoded@ + rest =~= rest),
                None => {},
            }
        }
        while index < bytes.len()
            invariant
                bytes@ == all,
                all == encode_utf8(value@),
                index <= bytes@.len(),
                match (unescaped(all), unescaped(all.skip(index as int))) {
                    (Some(whole), Some(rest)) => whole == decoded@ + rest,
                    (None, None) => true,
                    _ => false,
                },
            decreases bytes@.len() - index,
        {
            let ghost rest = all.skip(index as int);
            assert(rest[0] == bytes@[index as int]);
            if bytes[index] != 37 {
                proof {
                    assert(rest.skip(1) =~= all.skip(index + 1));
                    match unescaped(all.skip(index + 1)) {
                        Some(tail) => assert(decoded@ + (seq![bytes@[index as int]] + tail)
                            =~= decoded@.push(bytes@[index as int]) + tail),
                        None => {},
                    }
                }
                decoded.push(bytes[index]);
                index = index + 1;
            } else {
                if bytes.len() - index < 3 {
                    return None;
                }
                assert(rest[1] == bytes@[index + 1]);
                assert(rest[2] == bytes@[index + 2]);
                assert(rest.skip(3) =~= all.skip(index + 3));
                match (hex_digit(bytes[index + 1]), hex_digit(bytes[index + 2])) {
                    (Some(high), Some(low)) => {
                        let byte: u8 = 16 * high + low;
                        proof {
                            match unescaped(all.skip(index + 3)) {
                                Some(tail) => assert(decoded@ + (seq![byte] + tail) =~= decoded@.push(
                                    byte,
                                ) + tail),
                                None => {},
                            }
                        }
                        decoded.push(byte);
                        index = index + 3;
                    },
                    _ => {
                        return None;
                    },
                }
            }
        }
        proof {
            assert(all.skip(index as int).len() == 0);
            assert(unescaped(all.skip(index as int)) == Some(Seq::<u8>::empty()));
            assert(decoded@ + Seq::<u8>::empty() =~= decoded@);
        }
        match utf8_text(decoded) {
            Some(text) => {
                if contains_char(&chars_of(text.as_str()), '%') {
                    None
                } else {
                    Some(text)
                }
            },
            None => None,
        }
    }

    /// Whether `value` is shaped like a credential.
    pub fn credential_like(value: &str) -> (r: bool)
        ensures
            r == is_credential_shaped(value@),
    {
        match Self::percent_decode_once(value) {
            Some(decoded) => credential_like(decoded.as_str()),
            None => true,
        }
    }

    /// The locator and query of the reference, where the locator is safe.
    pub fn common_locator_and_query(&self) -> (r: Option<(Vec<char>, Option<Vec<char>>)>)
        ensures
            r is Some <==> has_safe_locator(self.reference@),
            r matches Some((place, rest)) ==> {
                &&& place@ == locator(self.reference@)
                &&& match (rest, query(self.reference@)) {
                    (Some(text), Some(expected)) => text@ == expected,
                    (None, None) => true,
                    _ => false,
                }
            },
    {
        let reference = chars_of(self.reference);
        let (place, rest) = match split_at_first(&reference, '?') {
            Some((before, after)) => (before, Some(after)),
            None => (slice_of(&reference, 0, reference.len()), None),
        };
        assert(place@ =~= locator(self.reference@));
        if contains_char(&reference, '#') || contains_char(&reference, '@') || contains_part(
            &place,
            "//",
        ) || !begins_with(&place, "github:") {
            return None;
        }
        proof {
            reveal_strlit("github:");
        }
        let path_text = slice_of(&place, 7, place.len());
        assert(path_text@ =~= place@.skip("github:"@.len() as int));
        let path = split_all(&path_text, '/');
        if path.len() != 2 {
            assert(char_views(path@).len() == path@.len());
            return None;
        }
        assert(char_views(path@)[0] == path@[0]@);
        assert(char_views(path@)[1] == path@[1]@);
        if !Self::safe_locator_component(&path[0]) || !Self::safe_locator_component(&path[1]) {
            return None;
        }
        Some((place, rest))
    }

    /// The value of `main` in a query of safe parameters; nothing where a
    /// parameter is unsafe or given twice.
    fn safe_query_value(text: &Vec<char>, main: &str) -> (r: Option<Option<Vec<char>>>)
        requires
            main@ != "dir"@,
        ensures
            r is Some <==> are_safe_parameters(split(text@, '&'), main@),
            r matches Some(found) ==> match (found, value_of(split(text@, '&'), main@)) {
                (Some(value), Some(expected)) => value@ == expected,
                (None, None) => true,
                _ => false,
            },
    {
        let pieces = split_all(text, '&');
        let ghost parameters = split(text@, '&');
        let mut main_value: Option<Vec<char>> = None;
        let mut has_directory: bool = false;
        let mut i: usize = 0;
        proof {
            assert(parameters.take(0) =~= Seq::<Seq<char>>::empty());
            lemma_value_of(parameters.take(0), main@);
            lemma_value_of(parameters.take(0), "dir"@);
        }
        while i < pieces.len()
            invariant
                main@ != "dir"@,
                i <= pieces.len(),
                parameters == split(text@, '&'),
                char_views(pieces@) == parameters,
                are_safe_parameters(parameters.take(i as int), main@),
                match (main_value, value_of(parameters.take(i as int), main@)) {
                    (Some(value), Some(expected)) => value@ == expected,
                    (None, None) => true,
                    _ => false,
                },
                has_directory <==> value_of(parameters.take(i as int), "dir"@) is Some,
            decreases pieces.len() - i,
        {
            assert(char_views(pieces@)[i as int] == pieces@[i as int]@);
            let ghost parameter = parameters[i as int];
            let ghost before = parameters.take(i as int);
            let ghost after = parameters.take(i + 1);
            proof {
                assert(after.drop_last() =~= before);
                assert(after.last() == parameter);
                lemma_value_of(before, main@);
                lemma_value_of(before, "dir"@);
            }
            let (key, value) = match split_at_first(&pieces[i], '=') {
                Some(pair) => pair,
                None => {
                    assert(!is_safe_parameter(parameters[i as int], main@));
                    return None;
                },
            };
            if key.len() == 0 || value.len() == 0 || contains_char(&value, '=') {
                assert(!is_safe_parameter(parameters[i as int], main@));
                return None;
            }
            if Self::credential_like(text_of(&key).as_str()) || Self::credential_like(
                text_of(&value).as_str(),
            ) {
                assert(!is_safe_parameter(parameters[i as int], main@));
                return None;
            }
            let is_main = is_text(&key, main);
            let is_directory = is_text(&key, "dir");
            if is_main && main_value.is_none() {
                proof {
                    assert(is_safe_parameter(parameter, main@));
                    assert forall|a: int, b: int| 0 <= a < b < after.len() implies parameter_key(
                        #[trigger] after[a],
                    ) != parameter_key(#[trigger] after[b]) by {
                        assert(after[a] == before[a]);
                        if b < i {
                            assert(after[b] == before[b]);
                        }
                    }
                    assert forall|a: int| 0 <= a < after.len() implies is_safe_parameter(
                        #[trigger] after[a],
                        main@,
                    ) by {
                        if a < i {
                            assert(after[a] == before[a]);
                        }
                    }
                }
                main_value = Some(value);
            } else if is_directory && !has_directory && Self::safe_relative_dir(&value) {
                proof {
                    assert(is_safe_parameter(parameter, main@));
                    assert forall|a: int, b: int| 0 <= a < b < after.len() implies parameter_key(
                        #[trigger] after[a],
                    ) != parameter_key(#[trigger] after[b]) by {
                        assert(after[a] == before[a]);
                        if b < i {
                            assert(after[b] == before[b]);
                        }
                    }
                    assert forall|a: int| 0 <= a < after.len() implies is_safe_parameter(
                        #[trigger] after[a],
                        main@,
                    ) by {
                        if a < i {
                            assert(after[a] == before[a]);
                        }
                    }
                }
                has_directory = true;
            } else {
                proof {
                    if is_main {
                        let a = choose|a: int|
                            0 <= a < before.len() && parameter_key(#[trigger] before[a]) == main@;
                        assert(parameter_key(parameters[a]) == parameter_key(parameters[i as int]));
                    } else if is_directory && has_directory {
                        let a = choose|a: int|
                            0 <= a < before.len() && parameter_key(#[trigger] before[a]) == "dir"@;
                        assert(parameter_key(parameters[a]) == parameter_key(parameters[i as int]));
                    } else {
                        assert(!is_safe_parameter(parameters[i as int], main@));
                    }
                }
                return None;
            }
            i = i + 1;
        }
        assert(parameters.take(i as int) =~= parameters);
        Some(main_value)
    }

    /// Whether the reference is pinned to one full commit.
    pub fn is_immutable(&self) -> (r: bool)
        ensures
            r == is_pinned(self.reference@),
    {
        self.pinned_commit().is_some()
    }

    /// The commit that the reference is pinned to.
    fn pinned_commit(&self) -> (r: Option<ImmutableRevision>)
        ensures
            r is Some <==> is_pinned(self.reference@),
            r matches Some(revision) ==> Some(revision@) == value_of(
                split(query(self.reference@)->0, '&'),
                "rev"@,
            ),
    {
        proof {
            reveal_strlit("rev");
            reveal_strlit("dir");
            assert("rev"@[0] != "dir"@[0]);
        }
        match self.common_locator_and_query() {
            Some((_, Some(text))) => match Self::safe_query_value(&text, "rev") {
                Some(Some(value)) => immutable_revision(text_of(&value).as_str()),
                _ => None,
            },
            _ => None,
        }
    }

    /// Whether the reference is one that is resolved when it is deployed.
    pub fn is_resolve_and_record(&self) -> (r: bool)
        ensures
            r == is_resolvable(self.reference@),
    {
        proof {
            reveal_strlit("ref");
            reveal_strlit("dir");
            assert("ref"@[0] != "dir"@[0]);
        }
        match self.common_locator_and_query() {
            Some((_, Some(text))) => match Self::safe_query_value(&text, "ref") {
                Some(Some(value)) => Self::safe_ref(&value),
                Some(None) => true,
                None => false,
            },
            Some((_, None)) => true,
            None => false,
        }
    }

    /// The revision of a pinned reference.
    pub fn immutable_revision(&self) -> (r: Option<ImmutableRevision>)
        ensures
            r is Some <==> is_pinned(self.reference@),
            r matches Some(revision) ==> Some(revision@) == value_of(
                split(query(self.reference@)->0, '&'),
                "rev"@,
            ),
    {
        self.pinned_commit()
    }
}

// ---- evaluation freshness ---------------------------------------------------------

/// Whether an evaluation fetches the flake again or trusts the evaluation cache.
#[derive(Clone, Copy, Debug, PartialEq, Eq, Structural)]
pub enum EvalRefresh {
    ForceRefresh,
    TrustImmutablePin,
}

impl EvalRefresh {
    /// Only a deployment that requires an immutable source, against a reference
    /// that is pinned, trusts the evaluation cache.
    pub fn for_source(policy: SourceRevisionPolicy, flake: &str) -> (r: Self)
        ensures
            r == EvalRefresh::TrustImmutablePin <==> policy == SourceRevisionPolicy::RequireImmutable
                && is_pinned(flake@),
    {
        match policy {
            SourceRevisionPolicy::RequireImmutable => {
                if FlakeReferencePolicy::new(flake).is_immutable() {
                    EvalRefresh::TrustImmutablePin
                } else {
                    EvalRefresh::ForceRefresh
                }
            },
            SourceRevisionPolicy::ResolveAndRecord => EvalRefresh::ForceRefresh,
        }
    }

    /// Whether the evaluation is told to refresh.
    pub fn adds_refresh_flag(self) -> (r: bool)
        ensures
            r == (self == EvalRefresh::ForceRefresh),
    {
        match self {
            EvalRefresh::ForceRefresh => true,
            EvalRefresh::TrustImmutablePin => false,
        }
    }
}

// ---- laws --------------------------------------------------------------------------

/// No reference is accepted under both policies: a pinned one carries `rev`,
/// which a resolvable one may not.
pub proof fn law_policies_are_disjoint(reference: Seq<char>)
    ensures
        !(is_pinned(reference) && is_resolvable(reference)),
{
    if is_pinned(reference) && is_resolvable(reference) {
        let parameters = split(query(reference)->0, '&');
        lemma_value_of(parameters, "rev"@);
        let i = choose|i: int|
            0 <= i < parameters.len() && parameter_key(#[trigger] parameters[i]) == "rev"@;
        assert(is_safe_parameter(parameters[i], "ref"@));
        reveal_strlit("rev");
        reveal_strlit("ref");
        reveal_strlit("dir");
        assert("rev"@[2] != "ref"@[2]);
        assert("rev"@[0] != "dir"@[0]);
    }
}

/// Neither policy accepts a reference with a fragment or with user information.
pub proof fn law_no_fragment_and_no_login(policy: SourceRevisionPolicy, reference: Seq<char>)
    requires
        reference.contains('#') || reference.contains('@'),
    ensures
        !policy_accepts(policy, reference),
{
}

/// No accepted reference holds a credential-shaped key or value in its query.
pub proof fn law_accepted_queries_carry_no_credential(
    policy: SourceRevisionPolicy,
    reference: Seq<char>,
    i: int,
)
    requires
        policy_accepts(policy, reference),
        query(reference) is Some,
        0 <= i < split(query(reference)->0, '&').len(),
    ensures
        !is_credential_shaped(parameter_key(split(query(reference)->0, '&')[i])),
        !is_credential_shaped(parameter_value(split(query(reference)->0, '&')[i])),
{
    let parameters = split(query(reference)->0, '&');
    match policy {
        SourceRevisionPolicy::RequireImmutable => assert(is_safe_parameter(parameters[i], "rev"@)),
        SourceRevisionPolicy::ResolveAndRecord => assert(is_safe_parameter(parameters[i], "ref"@)),
    }
}

} // verus!
