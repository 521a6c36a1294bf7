//! Canonical roots of the Nix store.

use crate::text::{
    alphanumeric, begins_with, chars_of, contains_part, contains_text, credential_like, is_alphanumeric,
    is_digit, is_lower, names_credential, slice_of, split_at_first, split_once, starts_with,
};
use vstd::prelude::*;

verus! {

/// A character of Nix's base-32 alphabet: digits and lower-case letters without `e`, `o`, `t`, `u`.
pub open spec fn is_store_hash_char(c: char) -> bool {
    (is_digit(c) || is_lower(c)) && c != 'e' && c != 'o' && c != 't' && c != 'u'
}

/// A character that a store name may hold.
pub open spec fn is_store_name_char(c: char) -> bool {
    is_alphanumeric(c) || c == '.' || c == '+' || c == '_' || c == '-'
}

/// `/nix/store/<hash>-<name>` with a 32-character hash, a name that climbs no
/// directory, and nothing in it that names a credential.
pub open spec fn is_canonical_store_root(value: Seq<char>) -> bool {
    &&& starts_with(value, "/nix/store/"@)
    &&& match split_once(value.skip("/nix/store/"@.len() as int), '-') {
        Some((hash, name)) => {
            &&& hash.len() == 32
            &&& forall|i: int| 0 <= i < hash.len() ==> is_store_hash_char(#[trigger] hash[i])
            &&& name.len() > 0
            &&& !contains_text(name, ".."@)
            &&& forall|i: int| 0 <= i < name.len() ==> is_store_name_char(#[trigger] name[i])
        },
        None => false,
    }
    &&& !names_credential(value)
}

fn all_hash_chars(v: &Vec<char>) -> (r: bool)
    ensures
        r == (forall|i: int| 0 <= i < v@.len() ==> is_store_hash_char(#[trigger] v@[i])),
{
    let mut i: usize = 0;
    while i < v.len()
        invariant
            i <= v.len(),
            forall|j: int| 0 <= j < i ==> is_store_hash_char(#[trigger] v@[j]),
        decreases v.len() - i,
    {
        let c = v[i];
        let code: u32 = c as u32;
        if !((48 <= code && code <= 57) || (97 <= code && code <= 122)) || c == 'e' || c == 'o' || c
            == 't' || c == 'u' {
            assert(!is_store_hash_char(v@[i as int]));
            return false;
        }
        i = i + 1;
    }
    true
}

fn all_name_chars(v: &Vec<char>) -> (r: bool)
    ensures
        r == (forall|i: int| 0 <= i < v@.len() ==> is_store_name_char(#[trigger] v@[i])),
{
    let mut i: usize = 0;
    while i < v.len()
        invariant
            i <= v.len(),
            forall|j: int| 0 <= j < i ==> is_store_name_char(#[trigger] v@[j]),
        decreases v.len() - i,
    {
        let c = v[i];
        if !(alphanumeric(c) || c == '.' || c == '+' || c == '_' || c == '-') {
            assert(!is_store_name_char(v@[i as int]));
            return false;
        }
        i = i + 1;
    }
    true
}

/// Whether `value` is a canonical immutable store root.
pub fn canonical_nix_store_root(value: &str) -> (r: bool)
    ensures
        r == is_canonical_store_root(value@),
{
    let v = chars_of(value);
    if !begins_with(&v, "/nix/store/") {
        return false;
    }
    proof {
        reveal_strlit("/nix/store/");
    }
    let item = slice_of(&v, 11, v.len());
    assert(item@ =~= value@.skip("/nix/store/"@.len() as int));
    match split_at_first(&item, '-') {
        None => false,
        Some((hash, name)) => {
            hash.len() == 32 && all_hash_chars(&hash) && name.len() > 0 && !contains_part(
                &name,
                "..",
            ) && all_name_chars(&name) && !credential_like(value)
        },
    }
}

} // verus!
