//! What Nix reports of a flake, and the source revision read from it.

use crate::runtime_model::{FlakeReference, SourceRevisionPolicy, SourceRevisionRecord};
use crate::text::concat;
use vstd::prelude::*;

verus! {

/// A parsed JSON document of `serde_json`.
#[verifier::external_type_specification]
#[verifier::external_body]
pub struct ExJsonValue(serde_json::Value);

/// The strings that a JSON document holds, each under the path of object keys
/// that leads to it.
pub uninterp spec fn json_texts(value: serde_json::Value) -> Map<Seq<Seq<char>>, Seq<char>>;

/// What `serde_json::from_str` reads from a text: the strings of the document,
/// or the rendered error where the text is no JSON.
pub uninterp spec fn json_read(text: Seq<char>) -> Result<
    Map<Seq<Seq<char>>, Seq<char>>,
    Seq<char>,
>;

/// `serde_json::from_str` into a `serde_json::Value`: a document is read, or
/// refused with an error, as a function of the text alone.
#[verifier::external_body]
fn json_from_str(text: &str) -> (r: Result<serde_json::Value, String>)
    ensures
        match r {
            Ok(value) => json_read(text@) == Ok::<Map<Seq<Seq<char>>, Seq<char>>, Seq<char>>(
                json_texts(value),
            ),
            Err(fault) => json_read(text@) == Err::<Map<Seq<Seq<char>>, Seq<char>>, Seq<char>>(
                fault@,
            ),
        },
{
    match serde_json::from_str::<serde_json::Value>(text) {
        Ok(value) => Ok(value),
        Err(error) => Err(error.to_string()),
    }
}

/// `serde_json::Value::get` with a string key: the member of that name of an
/// object; nothing for any other document and for an absent name. The strings
/// of the member are those of the document whose path starts with the key.
#[verifier::external_body]
fn json_member<'a>(value: &'a serde_json::Value, key: &str) -> (r: Option<&'a serde_json::Value>)
    ensures
        r matches Some(member) ==> forall|rest: Seq<Seq<char>>|
            #![trigger json_texts(*member).contains_key(rest)]
            {
                &&& json_texts(*member).contains_key(rest) == json_texts(*value).contains_key(
                    seq![key@] + rest,
                )
                &&& json_texts(*member).contains_key(rest) ==> json_texts(*member)[rest]
                    == json_texts(*value)[seq![key@] + rest]
            },
        r is None ==> forall|rest: Seq<Seq<char>>|
            #![trigger json_texts(*value).contains_key(seq![key@] + rest)]
            !json_texts(*value).contains_key(seq![key@] + rest),
{
    value.get(key)
}

/// `serde_json::Value::as_str`: the text of a document that is a string; nothing
/// for any other document.
#[verifier::external_body]
fn json_text<'a>(value: &'a serde_json::Value) -> (r: Option<&'a str>)
    ensures
        r is Some <==> json_texts(*value).contains_key(Seq::empty()),
        r matches Some(text) ==> text@ == json_texts(*value)[Seq::empty()],
{
    value.as_str()
}

/// The string at `path`, where there is one.
pub open spec fn text_at(
    document: Map<Seq<Seq<char>>, Seq<char>>,
    path: Seq<Seq<char>>,
) -> Option<Seq<char>> {
    if document.contains_key(path) {
        Some(document[path])
    } else {
        None
    }
}

/// The texts of a path of keys.
pub open spec fn path_texts(path: Seq<&str>) -> Seq<Seq<char>> {
    path.map_values(|key: &str| key@)
}

/// The text of an optional string.
pub open spec fn optional_text(text: Option<String>) -> Option<Seq<char>> {
    match text {
        Some(value) => Some(value@),
        None => None,
    }
}

/// `first` where it is given, else `second`.
pub open spec fn first_of(first: Option<Seq<char>>, second: Option<Seq<char>>) -> Option<Seq<char>> {
    match first {
        Some(text) => Some(text),
        None => second,
    }
}

/// The parsed metadata of a flake.
pub struct NixFlakeMetadata {
    pub value: serde_json::Value,
}

/// The metadata fields that a source revision is read from.
#[derive(Debug, PartialEq, Eq)]
pub struct FlakeMetadataFields {
    pub url: Option<String>,
    pub resolved_url: Option<String>,
    pub locked_rev: Option<String>,
    pub revision: Option<String>,
    pub rev: Option<String>,
    pub locked_nar_hash: Option<String>,
    pub nar_hash: Option<String>,
}

impl FlakeMetadataFields {
    /// The fields hold the strings of `document` at their paths.
    pub open spec fn read_from(&self, document: Map<Seq<Seq<char>>, Seq<char>>) -> bool {
        &&& optional_text(self.url) == text_at(document, seq!["url"@])
        &&& optional_text(self.resolved_url) == text_at(document, seq!["resolvedUrl"@])
        &&& optional_text(self.locked_rev) == text_at(document, seq!["locked"@, "rev"@])
        &&& optional_text(self.revision) == text_at(document, seq!["revision"@])
        &&& optional_text(self.rev) == text_at(document, seq!["rev"@])
        &&& optional_text(self.locked_nar_hash) == text_at(document, seq!["locked"@, "narHash"@])
        &&& optional_text(self.nar_hash) == text_at(document, seq!["narHash"@])
    }

    /// The revision: the locked commit first, then the other commits, then the
    /// content hashes; empty where none is given.
    pub open spec fn revision_text(&self) -> Seq<char> {
        let found = first_of(
            optional_text(self.locked_rev),
            first_of(
                optional_text(self.revision),
                first_of(
                    optional_text(self.rev),
                    first_of(optional_text(self.locked_nar_hash), optional_text(self.nar_hash)),
                ),
            ),
        );
        match found {
            Some(text) => text,
            None => Seq::empty(),
        }
    }

    /// Where the flake was found: `url` first, then `resolvedUrl`, else `requested`.
    pub open spec fn resolved_text(&self, requested: Seq<char>) -> Seq<char> {
        match first_of(optional_text(self.url), optional_text(self.resolved_url)) {
            Some(text) => text,
            None => requested,
        }
    }

    /// The resolved revision.
    pub fn resolved_revision(&self) -> (r: String)
        ensures
            r@ == self.revision_text(),
    {
        match (&self.locked_rev, &self.revision, &self.rev) {
            (Some(text), _, _) => text.clone(),
            (None, Some(text), _) => text.clone(),
            (None, None, Some(text)) => text.clone(),
            (None, None, None) => match (&self.locked_nar_hash, &self.nar_hash) {
                (Some(text), _) => text.clone(),
                (None, Some(text)) => text.clone(),
                (None, None) => String::new(),
            },
        }
    }

    /// The source revision of a flake requested as `requested_ref`.
    pub fn source_revision(
        &self,
        policy: SourceRevisionPolicy,
        requested_ref: FlakeReference,
    ) -> (r: SourceRevisionRecord)
        ensures
            r.source_revision_policy == policy,
            r.requested_ref == requested_ref,
            r.resolved_ref@ == self.resolved_text(requested_ref@),
            r.string@ == self.revision_text(),
    {
        let resolved_ref = match (&self.url, &self.resolved_url) {
            (Some(text), _) => FlakeReference(text.clone()),
            (None, Some(text)) => FlakeReference(text.clone()),
            (None, None) => requested_ref.clone(),
        };
        SourceRevisionRecord {
            source_revision_policy: policy,
            requested_ref,
            resolved_ref,
            string: self.resolved_revision(),
        }
    }
}

impl NixFlakeMetadata {
    /// Reads the metadata that Nix printed.
    pub fn parse(text: &str) -> (r: Result<Self, String>)
        ensures
            match (r, json_read(text@)) {
                (Ok(metadata), Ok(document)) => json_texts(metadata.value) == document,
                (Err(detail), Err(fault)) => detail@
                    == "nix flake metadata returned malformed json: "@ + fault,
                _ => false,
            },
    {
        match json_from_str(text) {
            Ok(value) => Ok(NixFlakeMetadata { value }),
            Err(fault) => Err(
                concat("nix flake metadata returned malformed json: ", fault.as_str()),
            ),
        }
    }

    /// The string at `path`.
    pub fn string_at(&self, path: &[&str]) -> (r: Option<String>)
        ensures
            optional_text(r) == text_at(json_texts(self.value), path_texts(path@)),
    {
        let ghost document = json_texts(self.value);
        let ghost keys = path_texts(path@);
        let mut value = &self.value;
        let mut i: usize = 0;
        assert forall|rest: Seq<Seq<char>>| #[trigger]
            json_texts(*value).contains_key(rest) implies document.contains_key(keys.take(0) + rest)
            && document[keys.take(0) + rest] == json_texts(*value)[rest] by {
            assert(keys.take(0) + rest =~= rest);
        }
        assert forall|rest: Seq<Seq<char>>|
            !(#[trigger] json_texts(*value).contains_key(rest)) implies !document.contains_key(
            keys.take(0) + rest,
        ) by {
            assert(keys.take(0) + rest =~= rest);
        }
        while i < path.len()
            invariant
                i <= path@.len(),
                keys == path_texts(path@),
                document == json_texts(self.value),
                forall|rest: Seq<Seq<char>>|
                    #![trigger json_texts(*value).contains_key(rest)]
                    json_texts(*value).contains_key(rest) == document.contains_key(
                        keys.take(i as int) + rest,
                    ) && (json_texts(*value).contains_key(rest) ==> json_texts(*value)[rest]
                        == document[keys.take(i as int) + rest]),
            decreases path@.len() - i,
        {
            let ghost before = json_texts(*value);
            let ghost key = keys[i as int];
            match json_member(value, path[i]) {
                Some(member) => {
                    proof {
                        let now = json_texts(*member);
                        assert forall|rest: Seq<Seq<char>>|
                            #![trigger now.contains_key(rest)]
                            now.contains_key(rest) == document.contains_key(
                                keys.take(i + 1) + rest,
                            ) && (now.contains_key(rest) ==> now[rest] == document[keys.take(i + 1)
                                + rest]) by {
                            assert(before.contains_key(seq![key] + rest) == document.contains_key(
                                keys.take(i as int) + (seq![key] + rest),
                            ));
                            assert(keys.take(i as int) + (seq![key] + rest) =~= keys.take(i + 1)
                                + rest);
                        }
                    }
                    value = member;
                    i = i + 1;
                },
                None => {
                    proof {
                        let rest = keys.skip(i + 1);
                        assert(!before.contains_key(seq![key] + rest));
                        assert(keys.take(i as int) + (seq![key] + rest) =~= keys);
                    }
                    return None;
                },
            }
        }
        proof {
            assert(keys.take(i as int) + Seq::<Seq<char>>::empty() =~= keys);
        }
        match json_text(value) {
            Some(text) => Some(text.to_owned()),
            None => None,
        }
    }

    /// The string under `key`.
    fn string_under(&self, key: &str) -> (r: Option<String>)
        ensures
            optional_text(r) == text_at(json_texts(self.value), seq![key@]),
    {
        let mut path: Vec<&str> = Vec::new();
        path.push(key);
        assert(path_texts(path@) =~= seq![key@]);
        self.string_at(path.as_slice())
    }

    /// The string under `key` of the locked source.
    fn locked_string(&self, key: &str) -> (r: Option<String>)
        ensures
            optional_text(r) == text_at(json_texts(self.value), seq!["locked"@, key@]),
    {
        let mut path: Vec<&str> = Vec::new();
        path.push("locked");
        path.push(key);
        assert(path_texts(path@) =~= seq!["locked"@, key@]);
        self.string_at(path.as_slice())
    }

    /// The fields that a source revision is read from.
    pub fn fields(&self) -> (r: FlakeMetadataFields)
        ensures
            r.read_from(json_texts(self.value)),
    {
        FlakeMetadataFields {
            url: self.string_under("url"),
            resolved_url: self.string_under("resolvedUrl"),
            locked_rev: self.locked_string("rev"),
            revision: self.string_under("revision"),
            rev: self.string_under("rev"),
            locked_nar_hash: self.locked_string("narHash"),
            nar_hash: self.string_under("narHash"),
        }
    }
}

} // verus!
