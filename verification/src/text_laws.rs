//! What the operations on texts and paths keep: pieces join back, trimming drops white
//! space alone, numbers read back, and a joined path ends in what was joined.

use crate::paths::{
    component_filter, components, file_name_of, last_component_start, parent_path, path_join,
    trimmed_path,
};
use crate::text::{
    ascii_lower, contains_text, decimal, digit_char, first_offset, is_alphanumeric, is_ascii_blank,
    is_ascii_control, is_control, is_digit, is_lower, is_lower_hex, is_upper, is_white_space,
    joined, leading_white, lemma_first_offset, lemma_first_offset_unique, lowercase,
    names_credential, occurs_at, split, split_once, starts_with, trailing_white, trim,
};
use vstd::prelude::*;

verus! {

// ---- pieces ---------------------------------------------------------------------------------

/// A text is cut at its first mark: what stands before holds no mark, and the three
/// parts make up the text. It is not cut where it holds no mark.
pub proof fn law_a_text_is_cut_at_its_first_mark(s: Seq<char>, mark: char)
    ensures
        match split_once(s, mark) {
            Some((head, rest)) => s == head + seq![mark] + rest && !head.contains(mark),
            None => !s.contains(mark),
        },
{
    lemma_first_offset(s, mark);
    match first_offset(s, mark) {
        Some(at) => {
            assert(s =~= s.take(at) + seq![mark] + s.skip(at + 1));
        },
        None => {},
    }
}

proof fn lemma_joined_front(first: Seq<char>, rest: Seq<Seq<char>>, separator: Seq<char>)
    requires
        rest.len() > 0,
    ensures
        joined(seq![first] + rest, separator) == first + separator + joined(rest, separator),
    decreases rest.len(),
{
    let all = seq![first] + rest;
    assert(all.last() == rest.last());
    assert(all.drop_last() =~= seq![first] + rest.drop_last());
    if rest.len() == 1 {
        assert(all.drop_last() =~= seq![first]);
        assert(joined(seq![first], separator) == first);
        assert(rest.last() == rest[0]);
        assert(joined(all, separator) == first + separator + rest[0]);
    } else {
        lemma_joined_front(first, rest.drop_last(), separator);
        assert(joined(all, separator) =~= first + separator + joined(rest, separator));
    }
}

/// The pieces of a text hold no mark, and joined by it they are the text again.
pub proof fn law_pieces_join_back(s: Seq<char>, mark: char)
    ensures
        split(s, mark).len() > 0,
        forall|i: int|
            0 <= i < split(s, mark).len() ==> !(#[trigger] split(s, mark)[i]).contains(mark),
        joined(split(s, mark), seq![mark]) == s,
    decreases s.len(),
{
    lemma_first_offset(s, mark);
    match first_offset(s, mark) {
        Some(at) => {
            let head = s.take(at);
            let rest = s.skip(at + 1);
            law_pieces_join_back(rest, mark);
            lemma_joined_front(head, split(rest, mark), seq![mark]);
            assert(s =~= head + seq![mark] + rest);
            assert(!head.contains(mark));
            assert forall|i: int| 0 <= i < split(s, mark).len() implies !(
            #[trigger] split(s, mark)[i]).contains(mark) by {
                if i > 0 {
                    assert(split(s, mark)[i] == split(rest, mark)[i - 1]);
                }
            }
        },
        None => {},
    }
}

/// Pieces without a mark are what a text that they are joined to is split into.
pub proof fn law_joined_pieces_split_back(pieces: Seq<Seq<char>>, mark: char)
    requires
        pieces.len() > 0,
        forall|i: int| 0 <= i < pieces.len() ==> !(#[trigger] pieces[i]).contains(mark),
    ensures
        split(joined(pieces, seq![mark]), mark) == pieces,
    decreases pieces.len(),
{
    let whole = joined(pieces, seq![mark]);
    let first = pieces[0];
    if pieces.len() == 1 {
        lemma_first_offset(first, mark);
        assert(pieces =~= seq![first]);
    } else {
        let rest = pieces.skip(1);
        assert(pieces =~= seq![first] + rest);
        lemma_joined_front(first, rest, seq![mark]);
        assert forall|i: int| 0 <= i < rest.len() implies !(#[trigger] rest[i]).contains(mark) by {
            assert(rest[i] == pieces[i + 1]);
        }
        law_joined_pieces_split_back(rest, mark);
        let at = first.len() as int;
        assert(whole[at] == mark);
        assert forall|i: int| 0 <= i < at implies whole[i] != mark by {
            assert(whole[i] == first[i]);
            assert(first.contains(first[i]));
        }
        lemma_first_offset_unique(whole, mark, at);
        assert(whole.take(at) =~= first);
        assert(whole.skip(at + 1) =~= joined(rest, seq![mark]));
    }
}

// ---- trimming -------------------------------------------------------------------------------

/// Every character of `s` is white space.
pub open spec fn is_blank(s: Seq<char>) -> bool {
    forall|i: int| 0 <= i < s.len() ==> is_white_space(#[trigger] s[i])
}

proof fn lemma_leading(s: Seq<char>)
    ensures
        leading_white(s) <= s.len(),
        is_blank(s.take(leading_white(s) as int)),
        leading_white(s) < s.len() ==> !is_white_space(s[leading_white(s) as int]),
    decreases s.len(),
{
    if s.len() > 0 && is_white_space(s[0]) {
        let rest = s.skip(1);
        lemma_leading(rest);
        assert forall|i: int| 0 <= i < leading_white(s) implies is_white_space(
            #[trigger] s.take(leading_white(s) as int)[i],
        ) by {
            if i > 0 {
                assert(rest.take(leading_white(rest) as int)[i - 1] == s[i]);
            }
        }
    }
}

proof fn lemma_trailing(s: Seq<char>)
    ensures
        trailing_white(s) <= s.len(),
        is_blank(s.skip(s.len() - trailing_white(s))),
        trailing_white(s) < s.len() ==> !is_white_space(s[s.len() - trailing_white(s) - 1]),
    decreases s.len(),
{
    if s.len() > 0 && is_white_space(s.last()) {
        let rest = s.drop_last();
        lemma_trailing(rest);
        let from = s.len() - trailing_white(s);
        assert forall|i: int| 0 <= i < trailing_white(s) implies is_white_space(
            #[trigger] s.skip(from)[i],
        ) by {
            if i < trailing_white(rest) {
                assert(rest.skip(from)[i] == s[from + i]);
            }
        }
    }
}

/// Trimming drops white space from both ends and nothing else: what it keeps neither
/// starts nor ends with any, and what it dropped is nothing but.
pub proof fn law_trimming_drops_white_space_alone(s: Seq<char>)
    ensures
        exists|before: Seq<char>, after: Seq<char>|
            {
                &&& s == #[trigger] (before + trim(s) + after)
                &&& is_blank(before)
                &&& is_blank(after)
            },
        trim(s).len() > 0 ==> !is_white_space(trim(s)[0]) && !is_white_space(trim(s).last()),
{
    lemma_leading(s);
    let from = leading_white(s) as int;
    let rest = s.skip(from);
    lemma_trailing(rest);
    let to = rest.len() - trailing_white(rest);
    let before = s.take(from);
    let after = rest.skip(to);
    assert(s =~= before + trim(s) + after);
    assert(trim(s) == rest.take(to));
}

/// A text without white space at its ends is kept as it is.
pub proof fn law_a_trimmed_text_stays(s: Seq<char>)
    requires
        s.len() > 0 ==> !is_white_space(s[0]) && !is_white_space(s.last()),
    ensures
        trim(s) == s,
{
    lemma_leading(s);
    assert(leading_white(s) == 0) by {
        if leading_white(s) > 0 {
            assert(s.take(leading_white(s) as int)[0] == s[0]);
        }
    }
    let rest = s.skip(0);
    assert(rest =~= s);
    lemma_trailing(s);
    assert(trailing_white(s) == 0) by {
        if trailing_white(s) > 0 {
            let tail = s.skip(s.len() - trailing_white(s));
            assert(tail[tail.len() - 1] == s.last());
        }
    }
    assert(trim(s) =~= s);
}

// ---- numbers --------------------------------------------------------------------------------

/// The number that digits stand for.
pub open spec fn number_of(digits: Seq<char>) -> int
    decreases digits.len(),
{
    if digits.len() == 0 {
        0
    } else {
        10 * number_of(digits.drop_last()) + (digits.last() as u32 - '0' as u32)
    }
}

/// A number is written in digits that stand for it, without a zero in front.
pub proof fn law_numbers_read_back(n: nat)
    ensures
        number_of(decimal(n)) == n,
        forall|i: int|
            0 <= i < decimal(n).len() ==> '0' as u32 <= #[trigger] decimal(n)[i] as u32 <= '9' as u32,
        decimal(n).len() > 1 ==> decimal(n)[0] != '0',
    decreases n,
{
    if n < 10 {
        assert(decimal(n).drop_last() =~= Seq::<char>::empty());
        assert(number_of(Seq::<char>::empty()) == 0);
    } else {
        law_numbers_read_back(n / 10);
        let digits = decimal(n / 10);
        assert(decimal(n).drop_last() =~= digits);
        assert(digits.len() > 0) by {
            if n / 10 < 10 {
                assert(digits.len() == 1);
            }
        }
        if n / 10 < 10 {
            assert(digits[0] == digit_char(n / 10));
        } else {
            assert(digits.len() > 1) by {
                assert(decimal(n / 10 / 10).len() > 0) by {
                    law_numbers_read_back(n / 10 / 10);
                    if decimal(n / 10 / 10).len() == 0 {
                        assert(number_of(decimal(n / 10 / 10)) == 0);
                    }
                }
            }
        }
    }
}

// ---- characters -----------------------------------------------------------------------------

/// The letters, digits and hexadecimal digits are those of ASCII.
pub proof fn law_letters_and_digits_are_ascii(c: char)
    ensures
        is_lower(c) <==> "abcdefghijklmnopqrstuvwxyz"@.contains(c),
        is_upper(c) <==> "ABCDEFGHIJKLMNOPQRSTUVWXYZ"@.contains(c),
        is_digit(c) <==> "0123456789"@.contains(c),
        is_lower_hex(c) <==> "0123456789abcdef"@.contains(c),
        is_alphanumeric(c) <==> is_lower(c) || is_upper(c) || is_digit(c),
{
    reveal_strlit("abcdefghijklmnopqrstuvwxyz");
    reveal_strlit("ABCDEFGHIJKLMNOPQRSTUVWXYZ");
    reveal_strlit("0123456789");
    reveal_strlit("0123456789abcdef");
    if is_lower(c) {
        assert("abcdefghijklmnopqrstuvwxyz"@[c as int - 97] == c);
    }
    if is_upper(c) {
        assert("ABCDEFGHIJKLMNOPQRSTUVWXYZ"@[c as int - 65] == c);
    }
    if is_digit(c) {
        assert("0123456789"@[c as int - 48] == c);
        assert("0123456789abcdef"@[c as int - 48] == c);
    } else if is_lower_hex(c) {
        assert("0123456789abcdef"@[c as int - 87] == c);
    }
}

/// Lowering changes the upper-case letters alone, each to its own lower-case letter.
pub proof fn law_lowering_keeps_the_letter(c: char)
    ensures
        !"ABCDEFGHIJKLMNOPQRSTUVWXYZ"@.contains(c) ==> ascii_lower(c) == c,
        forall|i: int|
            0 <= i < 26 && #[trigger] "ABCDEFGHIJKLMNOPQRSTUVWXYZ"@[i] == c ==> ascii_lower(c)
                == "abcdefghijklmnopqrstuvwxyz"@[i],
{
    law_letters_and_digits_are_ascii(c);
    reveal_strlit("abcdefghijklmnopqrstuvwxyz");
    reveal_strlit("ABCDEFGHIJKLMNOPQRSTUVWXYZ");
}

/// White space is what Unicode calls so.
pub proof fn law_white_space_is_that_of_unicode(c: char)
    ensures
        is_white_space(c)
            <==> " \t\n\u{b}\u{c}\r\u{85}\u{a0}\u{1680}\u{2000}\u{2001}\u{2002}\u{2003}\u{2004}\u{2005}\u{2006}\u{2007}\u{2008}\u{2009}\u{200a}\u{2028}\u{2029}\u{202f}\u{205f}\u{3000}"@.contains(
        c),
{
    let all =
        " \t\n\u{b}\u{c}\r\u{85}\u{a0}\u{1680}\u{2000}\u{2001}\u{2002}\u{2003}\u{2004}\u{2005}\u{2006}\u{2007}\u{2008}\u{2009}\u{200a}\u{2028}\u{2029}\u{202f}\u{205f}\u{3000}"@;
    reveal_strlit(" \t\n\u{b}\u{c}\r\u{85}\u{a0}\u{1680}\u{2000}\u{2001}\u{2002}\u{2003}\u{2004}\u{2005}\u{2006}\u{2007}\u{2008}\u{2009}\u{200a}\u{2028}\u{2029}\u{202f}\u{205f}\u{3000}");
    if is_white_space(c) {
        let i: int = if c as u32 == 0x20 {
            0
        } else if c as u32 <= 13 {
            c as int - 8
        } else if c as u32 == 0x85 {
            6
        } else if c as u32 == 0xA0 {
            7
        } else if c as u32 == 0x1680 {
            8
        } else if c as u32 <= 0x200A {
            c as int - 0x2000 + 9
        } else if c as u32 == 0x2028 {
            20
        } else if c as u32 == 0x2029 {
            21
        } else if c as u32 == 0x202F {
            22
        } else if c as u32 == 0x205F {
            23
        } else {
            24
        };
        assert(all[i] == c);
    }
}

/// One of the words that stand for a credential.
pub open spec fn is_credential_word(word: Seq<char>) -> bool {
    ||| word == "token"@
    ||| word == "secret"@
    ||| word == "password"@
    ||| word == "passwd"@
    ||| word == "credential"@
    ||| word == "apikey"@
    ||| word == "api-key"@
    ||| word == "api_key"@
    ||| word == "auth"@
}

/// A text names a credential exactly where one of the words stands in it, in any letter
/// case.
pub proof fn law_credential_words_are_found(s: Seq<char>)
    ensures
        names_credential(s) <==> exists|before: Seq<char>, word: Seq<char>, after: Seq<char>|
            s == #[trigger] (before + word + after) && is_credential_word(lowercase(word)),
{
    let lower = lowercase(s);
    if names_credential(s) {
        let word = choose|word: Seq<char>|
            is_credential_word(word) && #[trigger] contains_text(lower, word);
        let at = choose|at: int| occurs_at(lower, word, at);
        let end = at + word.len();
        let before = s.take(at);
        let found = s.subrange(at, end);
        let after = s.skip(end);
        assert(s =~= before + found + after);
        assert(lowercase(found) =~= lower.subrange(at, end));
    }
    if exists|before: Seq<char>, word: Seq<char>, after: Seq<char>|
        s == #[trigger] (before + word + after) && is_credential_word(lowercase(word)) {
        let (before, word, after) = choose|before: Seq<char>, word: Seq<char>, after: Seq<char>|
            s == #[trigger] (before + word + after) && is_credential_word(lowercase(word));
        let at = before.len() as int;
        assert(lower.subrange(at, at + word.len()) =~= lowercase(word));
        assert(occurs_at(lower, lowercase(word), at));
        assert(contains_text(lower, lowercase(word)));
    }
}

// ---- paths ----------------------------------------------------------------------------------

/// A name that stands for itself in a path.
pub open spec fn is_plain_name(name: Seq<char>) -> bool {
    name.len() > 0 && !name.contains('/') && name != "."@ && name != ".."@
}

proof fn lemma_component_start(head: Seq<char>, name: Seq<char>)
    requires
        !name.contains('/'),
        head.len() > 0 ==> head.last() == '/',
    ensures
        last_component_start(head + name) == head.len(),
    decreases name.len(),
{
    let path = head + name;
    if name.len() > 0 {
        assert(path.last() == name.last());
        assert(name.contains(name.last()));
        assert(path.drop_last() =~= head + name.drop_last());
        assert(!name.drop_last().contains('/')) by {
            if name.drop_last().contains('/') {
                let i = choose|i: int|
                    0 <= i < name.drop_last().len() && name.drop_last()[i] == '/';
                assert(name[i] == '/');
            }
        }
        lemma_component_start(head, name.drop_last());
    } else {
        assert(path =~= head);
    }
}

/// What is joined to a path lies in it under its own name: an absolute path replaces
/// it, and anything else follows it after one separator.
pub proof fn law_a_joined_name_is_the_last(base: Seq<char>, name: Seq<char>)
    requires
        is_plain_name(name),
    ensures
        file_name_of(path_join(base, name)) == Some(name),
        starts_with(path_join(base, name), base),
        base.len() > 0 && base.last() != '/' ==> path_join(base, name) == base + seq!['/'] + name,
        base.len() == 0 || base.last() == '/' ==> path_join(base, name) == base + name,
{
    reveal_strlit("/");
    reveal_strlit(".");
    reveal_strlit("..");
    assert("/"@ =~= seq!['/']);
    assert(!starts_with(name, "/"@)) by {
        if starts_with(name, "/"@) {
            assert(name.subrange(0, 1)[0] == '/');
            assert(name[0] == '/');
        }
    }
    let head = if base.len() == 0 || base.last() == '/' {
        base
    } else {
        base + "/"@
    };
    let path = path_join(base, name);
    assert(path =~= head + name);
    assert(path.subrange(0, base.len() as int) =~= base);
    assert(name.contains(name.last()));
    assert(path.last() == name.last());
    assert(trimmed_path(path) == path) by {
        if path.last() == '.' && path.len() >= 2 && path[path.len() - 2] == '/' {
            if name.len() >= 2 {
                assert(path[path.len() - 2] == name[name.len() - 2]);
                assert(name.contains('/'));
            } else {
                assert(name =~= "."@);
            }
        }
    }
    lemma_component_start(head, name);
    assert(path.skip(head.len() as int) =~= name);
}

/// The parent of a name in a directory is the directory.
pub proof fn law_the_parent_of_a_joined_name_is_its_directory(base: Seq<char>, name: Seq<char>)
    requires
        is_plain_name(name),
        base.len() > 0,
        base.last() != '/',
        !(base.len() >= 2 && base.last() == '.' && base[base.len() - 2] == '/'),
    ensures
        parent_path(path_join(base, name)) == Some(base),
{
    reveal_strlit("/");
    reveal_strlit(".");
    assert("/"@ =~= seq!['/']);
    law_a_joined_name_is_the_last(base, name);
    let path = path_join(base, name);
    let head = base + seq!['/'];
    assert(path =~= head + name);
    assert(name.contains(name.last()));
    assert(path.last() == name.last());
    assert(trimmed_path(path) == path) by {
        if path.last() == '.' && path.len() >= 2 && path[path.len() - 2] == '/' {
            if name.len() >= 2 {
                assert(path[path.len() - 2] == name[name.len() - 2]);
                assert(name.contains('/'));
            } else {
                assert(name =~= "."@);
            }
        }
    }
    lemma_component_start(head, name);
    assert(path.take(head.len() as int) =~= head);
    assert(head.drop_last() =~= base);
    assert(trimmed_path(base) == base);
    assert(trimmed_path(head) == base);
}

/// The components of a path are what stands between its separators, but for nothing and
/// a single dot.
pub proof fn law_components_are_the_filled_pieces(path: Seq<char>, piece: Seq<char>)
    ensures
        components(path).contains(piece) <==> split(path, '/').contains(piece) && piece.len() > 0
            && piece != "."@,
        components(path).contains(piece) ==> !piece.contains('/'),
{
    let pieces = split(path, '/');
    law_pieces_join_back(path, '/');
    broadcast use vstd::seq_lib::group_filter_ensures;

    if components(path).contains(piece) {
        let i = choose|i: int| 0 <= i < components(path).len() && components(path)[i] == piece;
        assert(component_filter()(components(path)[i]));
        pieces.lemma_filter_contains_rev(component_filter(), piece);
        let k = choose|k: int| 0 <= k < pieces.len() && pieces[k] == piece;
        assert(!pieces[k].contains('/'));
    }
    if pieces.contains(piece) && piece.len() > 0 && piece != "."@ {
        assert(component_filter()(piece));
    }
}

/// Blanks and controls are those of ASCII and of Latin-1.
pub proof fn law_blanks_and_controls_are_known(c: char)
    ensures
        is_ascii_blank(c) <==> " \t\n\u{c}\r"@.contains(c),
        is_ascii_control(c) <==> c as u32 <= 0x1f || c as u32 == 0x7f,
        is_control(c) <==> c as u32 <= 0x1f || (0x7f <= c as u32 && c as u32 <= 0x9f),
{
    let blanks = " \t\n\u{c}\r"@;
    reveal_strlit(" \t\n\u{c}\r");
    assert(blanks[0] == ' ' && blanks[1] == '\t' && blanks[2] == '\n' && blanks[3] == '\u{c}'
        && blanks[4] == '\r');
}

} // verus!
