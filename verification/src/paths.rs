//! Lexical handling of Unix paths.

use crate::text::{
    begins_with, char_views, chars_of, concat, is_text, push_text, slice_of, split, split_all,
    starts_with, text_of, texts,
};
use vstd::prelude::*;

verus! {

/// `relative` appended to `base` with one separator between them; an absolute
/// `relative` replaces `base`.
pub open spec fn path_join(base: Seq<char>, relative: Seq<char>) -> Seq<char> {
    if starts_with(relative, "/"@) {
        relative
    } else if base.len() == 0 || base.last() == '/' {
        base + relative
    } else {
        base + "/"@ + relative
    }
}

/// `relative` appended to `base`.
pub fn join_path(base: &str, relative: &str) -> (r: String)
    ensures
        r@ == path_join(base@, relative@),
{
    if begins_with(&chars_of(relative), "/") {
        return relative.to_owned();
    }
    let v = chars_of(base);
    if v.len() == 0 || v[v.len() - 1] == '/' {
        concat(base, relative)
    } else {
        concat(concat(base, "/").as_str(), relative)
    }
}

/// The length of the root of a path.
pub open spec fn root_len(path: Seq<char>) -> int {
    if path.len() > 0 && path[0] == '/' {
        1
    } else {
        0
    }
}

/// `path` without trailing separators and trailing `.` components.
pub open spec fn trimmed_path(path: Seq<char>) -> Seq<char>
    decreases path.len(),
{
    if path.len() > root_len(path) && path.last() == '/' {
        trimmed_path(path.drop_last())
    } else if path.len() >= 2 && path.last() == '.' && path[path.len() - 2] == '/' {
        trimmed_path(path.drop_last())
    } else {
        path
    }
}

/// The offset behind the last separator.
pub open spec fn last_component_start(path: Seq<char>) -> int
    decreases path.len(),
{
    if path.len() == 0 || path.last() == '/' {
        path.len() as int
    } else {
        last_component_start(path.drop_last())
    }
}

/// The directory that holds `path`; nothing for a root or an empty path.
pub open spec fn parent_path(path: Seq<char>) -> Option<Seq<char>> {
    let whole = trimmed_path(path);
    if whole.len() <= root_len(whole) {
        None
    } else {
        Some(trimmed_path(whole.take(last_component_start(whole))))
    }
}

/// The name of the file at `path`; nothing where the path ends in `..` or has
/// no component.
pub open spec fn file_name_of(path: Seq<char>) -> Option<Seq<char>> {
    let whole = trimmed_path(path);
    let name = whole.skip(last_component_start(whole));
    if name.len() == 0 || name == "."@ || name == ".."@ {
        None
    } else {
        Some(name)
    }
}

/// A piece between separators that is a component: neither empty nor `.`.
pub open spec fn is_component(piece: Seq<char>) -> bool {
    piece.len() > 0 && piece != "."@
}

/// Keeps the pieces that are components.
pub open spec fn component_filter() -> spec_fn(Seq<char>) -> bool {
    |piece: Seq<char>| is_component(piece)
}

/// The components of an absolute path.
pub open spec fn components(path: Seq<char>) -> Seq<Seq<char>> {
    split(path, '/').filter(component_filter())
}

fn trim_path(v: &Vec<char>) -> (r: Vec<char>)
    ensures
        r@ == trimmed_path(v@),
{
    let mut to: usize = v.len();
    assert(v@.take(to as int) =~= v@);
    loop
        invariant
            to <= v@.len(),
            trimmed_path(v@.take(to as int)) == trimmed_path(v@),
        decreases to,
    {
        let ghost now = v@.take(to as int);
        if to > 0 {
            assert(now.drop_last() =~= v@.take(to - 1));
            assert(now.last() == v@[to - 1]);
            assert(now[0] == v@[0]);
        }
        if to > 0 && v[to - 1] == '/' && (to > 1 || v[0] != '/') {
            to = to - 1;
        } else if to >= 2 && v[to - 1] == '.' && v[to - 2] == '/' {
            assert(now[to - 2] == v@[to - 2]);
            to = to - 1;
        } else {
            let kept = slice_of(v, 0, to);
            proof {
                assert(kept@ =~= now);
                if to >= 2 {
                    assert(now[to - 2] == v@[to - 2]);
                }
            }
            return kept;
        }
    }
}

fn component_start(v: &Vec<char>) -> (r: usize)
    ensures
        r == last_component_start(v@),
        r <= v@.len(),
{
    let mut at: usize = v.len();
    assert(v@.take(at as int) =~= v@);
    while at > 0 && v[at - 1] != '/'
        invariant
            at <= v@.len(),
            last_component_start(v@.take(at as int)) == last_component_start(v@),
        decreases at,
    {
        assert(v@.take(at as int).drop_last() =~= v@.take(at - 1));
        assert(v@.take(at as int).last() == v@[at - 1]);
        at = at - 1;
    }
    proof {
        if at > 0 {
            assert(v@.take(at as int).last() == v@[at - 1]);
        }
    }
    at
}

/// The directory that holds `path`.
pub fn parent(path: &str) -> (r: Option<String>)
    ensures
        match (r, parent_path(path@)) {
            (Some(text), Some(expected)) => text@ == expected,
            (None, None) => true,
            _ => false,
        },
{
    let whole = trim_path(&chars_of(path));
    if whole.len() == 0 || (whole.len() == 1 && whole[0] == '/') {
        return None;
    }
    let start = component_start(&whole);
    let head = slice_of(&whole, 0, start);
    assert(head@ =~= whole@.take(start as int));
    Some(text_of(&trim_path(&head)))
}

/// The name of the file at `path`.
pub fn file_name(path: &str) -> (r: Option<String>)
    ensures
        match (r, file_name_of(path@)) {
            (Some(text), Some(expected)) => text@ == expected,
            (None, None) => true,
            _ => false,
        },
{
    let whole = trim_path(&chars_of(path));
    let start = component_start(&whole);
    let name = slice_of(&whole, start, whole.len());
    assert(name@ =~= whole@.skip(start as int));
    if name.len() == 0 || is_text(&name, ".") || is_text(&name, "..") {
        None
    } else {
        Some(text_of(&name))
    }
}

/// The components of an absolute path.
pub fn components_of(path: &str) -> (r: Vec<String>)
    ensures
        texts(r@) == components(path@),
{
    let pieces = split_all(&chars_of(path), '/');
    let ghost all = split(path@, '/');
    let mut kept: Vec<String> = Vec::new();
    let mut i: usize = 0;
    proof {
        assert(all.take(0) =~= Seq::<Seq<char>>::empty());
        assert(all.take(0).filter(component_filter()) =~= Seq::empty()) by {
            reveal(Seq::filter);
        }
        assert(texts(kept@) =~= Seq::<Seq<char>>::empty());
    }
    while i < pieces.len()
        invariant
            i <= pieces.len(),
            char_views(pieces@) == all,
            texts(kept@) == all.take(i as int).filter(component_filter()),
        decreases pieces.len() - i,
    {
        let ghost before = all.take(i as int);
        let ghost after = all.take(i + 1);
        assert(char_views(pieces@)[i as int] == pieces@[i as int]@);
        proof {
            assert(after.drop_last() =~= before);
            assert(after.last() == all[i as int]);
            reveal(Seq::filter);
        }
        if pieces[i].len() > 0 && !is_text(&pieces[i], ".") {
            push_text(&mut kept, text_of(&pieces[i]).as_str());
        }
        i = i + 1;
    }
    assert(all.take(i as int) =~= all);
    kept
}

} // verus!
