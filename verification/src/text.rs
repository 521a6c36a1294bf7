//! Text as a sequence of characters: the predicates, searches and renderings
//! that request validation and command construction are stated in.

use vstd::prelude::*;

verus! {

/// `String::push` appends one character to the end of the text.
pub assume_specification[ String::push ](text: &mut String, character: char)
    ensures
        final(text)@ == old(text)@.push(character),
;

/// `String::from_utf8` gives the text of a byte string exactly where the bytes
/// are valid UTF-8, and that text is the one the bytes encode.
#[verifier::external_body]
pub(crate) fn utf8_text(bytes: Vec<u8>) -> (r: Option<String>)
    ensures
        r is Some <==> vstd::utf8::valid_utf8(bytes@),
        r matches Some(text) ==> text@ == vstd::utf8::decode_utf8(bytes@),
{
    String::from_utf8(bytes).ok()
}

// ---- character classes ----------------------------------------------------

/// `'a'..='z'`.
pub open spec fn is_lower(c: char) -> bool {
    97 <= c as u32 <= 122
}

/// `'A'..='Z'`.
pub open spec fn is_upper(c: char) -> bool {
    65 <= c as u32 <= 90
}

/// `'0'..='9'`.
pub open spec fn is_digit(c: char) -> bool {
    48 <= c as u32 <= 57
}

/// An ASCII letter or digit.
pub open spec fn is_alphanumeric(c: char) -> bool {
    is_lower(c) || is_upper(c) || is_digit(c)
}

/// An ASCII control character: below space, or delete.
pub open spec fn is_ascii_control(c: char) -> bool {
    (c as u32) < 32 || c as u32 == 127
}

/// A control character of Unicode category `Cc`.
pub open spec fn is_control(c: char) -> bool {
    (c as u32) < 32 || 127 <= c as u32 <= 159
}

/// Space, tab, line feed, form feed or carriage return.
pub open spec fn is_ascii_blank(c: char) -> bool {
    c as u32 == 32 || c as u32 == 9 || c as u32 == 10 || c as u32 == 12 || c as u32 == 13
}

/// A character with the Unicode property `White_Space`.
pub open spec fn is_white_space(c: char) -> bool {
    ||| 9 <= c as u32 <= 13
    ||| c as u32 == 0x20
    ||| c as u32 == 0x85
    ||| c as u32 == 0xA0
    ||| c as u32 == 0x1680
    ||| 0x2000 <= c as u32 <= 0x200A
    ||| c as u32 == 0x2028
    ||| c as u32 == 0x2029
    ||| c as u32 == 0x202F
    ||| c as u32 == 0x205F
    ||| c as u32 == 0x3000
}

/// A hexadecimal digit as Git writes revisions: `0-9a-f`.
pub open spec fn is_lower_hex(c: char) -> bool {
    is_digit(c) || 97 <= c as u32 <= 102
}

/// The lower-case form of an ASCII letter; every other character unchanged.
pub open spec fn ascii_lower(c: char) -> char {
    if is_upper(c) {
        (c as u32 + 32) as char
    } else {
        c
    }
}

/// Whether `c` is an ASCII letter or digit.
pub fn alphanumeric(c: char) -> (r: bool)
    ensures
        r == is_alphanumeric(c),
{
    let code: u32 = c as u32;
    (97 <= code && code <= 122) || (65 <= code && code <= 90) || (48 <= code && code <= 57)
}

/// Whether `c` is an ASCII control character.
pub fn ascii_control(c: char) -> (r: bool)
    ensures
        r == is_ascii_control(c),
{
    let code: u32 = c as u32;
    code < 32 || code == 127
}

/// Whether `c` is a control character.
pub fn control(c: char) -> (r: bool)
    ensures
        r == is_control(c),
{
    let code: u32 = c as u32;
    code < 32 || (127 <= code && code <= 159)
}

/// Whether `c` is an ASCII blank.
pub fn ascii_blank(c: char) -> (r: bool)
    ensures
        r == is_ascii_blank(c),
{
    let code: u32 = c as u32;
    code == 32 || code == 9 || code == 10 || code == 12 || code == 13
}

/// Whether `c` has the Unicode property `White_Space`.
pub fn white_space(c: char) -> (r: bool)
    ensures
        r == is_white_space(c),
{
    let code: u32 = c as u32;
    (9 <= code && code <= 13) || code == 0x20 || code == 0x85 || code == 0xA0 || code == 0x1680 || (
    0x2000 <= code && code <= 0x200A) || code == 0x2028 || code == 0x2029 || code == 0x202F || code
        == 0x205F || code == 0x3000
}

/// Whether `c` is one of `0-9a-f`.
pub fn lower_hex(c: char) -> (r: bool)
    ensures
        r == is_lower_hex(c),
{
    let code: u32 = c as u32;
    (48 <= code && code <= 57) || (97 <= code && code <= 102)
}

/// The ASCII lower-case form of `c`.
pub fn lowered(c: char) -> (r: char)
    ensures
        r == ascii_lower(c),
{
    let code: u32 = c as u32;
    if 65 <= code && code <= 90 {
        ((code + 32) as u8) as char
    } else {
        c
    }
}

// ---- sequences of characters ----------------------------------------------

/// Every character lower-cased.
pub open spec fn lowercase(s: Seq<char>) -> Seq<char> {
    s.map_values(|c: char| ascii_lower(c))
}

/// Whether `part` occurs in `s` at offset `at`.
pub open spec fn occurs_at(s: Seq<char>, part: Seq<char>, at: int) -> bool {
    0 <= at && at + part.len() <= s.len() && s.subrange(at, at + part.len()) == part
}

/// Whether `part` occurs in `s`.
pub open spec fn contains_text(s: Seq<char>, part: Seq<char>) -> bool {
    exists|at: int| occurs_at(s, part, at)
}

/// Whether `s` begins with `prefix`.
pub open spec fn starts_with(s: Seq<char>, prefix: Seq<char>) -> bool {
    occurs_at(s, prefix, 0)
}

/// Whether `s` ends with `suffix`.
pub open spec fn ends_with(s: Seq<char>, suffix: Seq<char>) -> bool {
    occurs_at(s, suffix, s.len() - suffix.len())
}

/// The offset of the first `mark`, if there is one.
pub open spec fn first_offset(s: Seq<char>, mark: char) -> Option<int>
    decreases s.len(),
{
    if s.len() == 0 {
        None
    } else if s[0] == mark {
        Some(0)
    } else {
        match first_offset(s.skip(1), mark) {
            Some(at) => Some(at + 1),
            None => None,
        }
    }
}

/// The text before and after the first `mark`.
pub open spec fn split_once(s: Seq<char>, mark: char) -> Option<(Seq<char>, Seq<char>)> {
    match first_offset(s, mark) {
        Some(at) => Some((s.take(at), s.skip(at + 1))),
        None => None,
    }
}

/// The pieces of `s` between consecutive `mark`s; at least one piece.
pub open spec fn split(s: Seq<char>, mark: char) -> Seq<Seq<char>>
    decreases s.len(),
{
    match first_offset(s, mark) {
        Some(at) => if 0 <= at < s.len() {
            seq![s.take(at)] + split(s.skip(at + 1), mark)
        } else {
            seq![s]
        },
        None => seq![s],
    }
}

/// `pieces` with `separator` between each two of them.
pub open spec fn joined(pieces: Seq<Seq<char>>, separator: Seq<char>) -> Seq<char>
    decreases pieces.len(),
{
    if pieces.len() == 0 {
        Seq::empty()
    } else if pieces.len() == 1 {
        pieces[0]
    } else {
        joined(pieces.drop_last(), separator) + separator + pieces.last()
    }
}

/// The text of each string in `parts`.
pub open spec fn texts(parts: Seq<String>) -> Seq<Seq<char>> {
    parts.map_values(|part: String| part@)
}

/// The decimal digits of `n`.
pub open spec fn decimal(n: nat) -> Seq<char>
    decreases n,
{
    if n < 10 {
        seq![digit_char(n)]
    } else {
        decimal(n / 10).push(digit_char(n % 10))
    }
}

/// The character of a decimal digit.
pub open spec fn digit_char(digit: nat) -> char {
    (48 + digit) as char
}

/// How many leading characters of `s` are white space.
pub open spec fn leading_white(s: Seq<char>) -> nat
    decreases s.len(),
{
    if s.len() == 0 || !is_white_space(s[0]) {
        0
    } else {
        1 + leading_white(s.skip(1))
    }
}

/// How many trailing characters of `s` are white space.
pub open spec fn trailing_white(s: Seq<char>) -> nat
    decreases s.len(),
{
    if s.len() == 0 || !is_white_space(s.last()) {
        0
    } else {
        1 + trailing_white(s.drop_last())
    }
}

/// `s` without trailing white space.
pub open spec fn trim_end(s: Seq<char>) -> Seq<char> {
    s.take(s.len() - trailing_white(s))
}

/// `s` without leading and trailing white space.
pub open spec fn trim(s: Seq<char>) -> Seq<char> {
    trim_end(s.skip(leading_white(s) as int))
}

/// Position bounds of `first_offset`.
pub proof fn lemma_first_offset(s: Seq<char>, mark: char)
    ensures
        first_offset(s, mark) is Some <==> s.contains(mark),
        first_offset(s, mark) matches Some(at) ==> {
            &&& 0 <= at < s.len()
            &&& s[at] == mark
            &&& forall|i: int| 0 <= i < at ==> s[i] != mark
        },
    decreases s.len(),
{
    if s.len() > 0 && s[0] != mark {
        let tail = s.skip(1);
        lemma_first_offset(tail, mark);
        if s.contains(mark) {
            let i = choose|i: int| 0 <= i < s.len() && s[i] == mark;
            assert(tail[i - 1] == mark);
        }
        match first_offset(tail, mark) {
            Some(at) => {
                assert(s[at + 1] == tail[at]);
                assert forall|i: int| 0 <= i < at + 1 implies s[i] != mark by {
                    if i > 0 {
                        assert(s[i] == tail[i - 1]);
                    }
                }
            },
            None => {},
        }
    }
}

/// The first offset is the only position that holds `mark` with none before.
pub proof fn lemma_first_offset_unique(s: Seq<char>, mark: char, at: int)
    requires
        0 <= at < s.len(),
        s[at] == mark,
        forall|i: int| 0 <= i < at ==> s[i] != mark,
    ensures
        first_offset(s, mark) == Some(at),
{
    lemma_first_offset(s, mark);
    assert(s.contains(mark));
    let found = first_offset(s, mark)->0;
    if found < at {
        assert(s[found] != mark);
    } else if at < found {
        assert(s[at] != mark);
    }
}

/// Two numbers with the same digits are equal.
pub proof fn lemma_decimal_injective(a: nat, b: nat)
    requires
        decimal(a) == decimal(b),
    ensures
        a == b,
    decreases a,
{
    lemma_decimal_len(a);
    lemma_decimal_len(b);
    let left = decimal(a);
    let right = decimal(b);
    assert(left.last() == right.last());
    if a >= 10 && b >= 10 {
        assert(left.drop_last() =~= decimal(a / 10));
        assert(right.drop_last() =~= decimal(b / 10));
        lemma_decimal_injective(a / 10, b / 10);
        assert(digit_char(a % 10) == digit_char(b % 10));
    } else if a < 10 && b < 10 {
        assert(digit_char(a) == digit_char(b));
    }
}

proof fn lemma_decimal_len(n: nat)
    ensures
        decimal(n).len() >= 1,
        n >= 10 <==> decimal(n).len() >= 2,
    decreases n,
{
    if n >= 10 {
        lemma_decimal_len(n / 10);
    }
}

/// White space counts stay within the text.
pub proof fn lemma_white_bounds(s: Seq<char>)
    ensures
        leading_white(s) <= s.len(),
        trailing_white(s) <= s.len(),
    decreases s.len(),
{
    if s.len() > 0 {
        lemma_white_bounds(s.skip(1));
        lemma_white_bounds(s.drop_last());
    }
}

// ---- conversions ------------------------------------------------------------

/// The characters of `text`.
pub fn chars_of(text: &str) -> (r: Vec<char>)
    ensures
        r@ == text@,
{
    let mut characters: Vec<char> = Vec::new();
    for c in iter: text.chars()
        invariant
            characters@ == iter.seq().take(iter.index() as int),
    {
        characters.push(c);
    }
    characters
}

/// The text made of `characters`.
pub fn text_of(characters: &Vec<char>) -> (r: String)
    ensures
        r@ == characters@,
{
    let mut text: String = String::new();
    let mut i: usize = 0;
    while i < characters.len()
        invariant
            i <= characters.len(),
            text@ == characters@.take(i as int),
        decreases characters.len() - i,
    {
        text.push(characters[i]);
        i = i + 1;
        assert(characters@.take(i as int) =~= characters@.take(i - 1).push(characters@[i - 1]));
    }
    assert(characters@.take(i as int) =~= characters@);
    text
}

/// The characters of `v` from `from` up to but not including `to`.
pub fn slice_of(v: &Vec<char>, from: usize, to: usize) -> (r: Vec<char>)
    requires
        from <= to <= v@.len(),
    ensures
        r@ == v@.subrange(from as int, to as int),
{
    let mut part: Vec<char> = Vec::new();
    let mut i: usize = from;
    while i < to
        invariant
            from <= i <= to <= v@.len(),
            part@ == v@.subrange(from as int, i as int),
        decreases to - i,
    {
        part.push(v[i]);
        i = i + 1;
        assert(v@.subrange(from as int, i as int) =~= v@.subrange(from as int, i - 1).push(
            v@[i - 1],
        ));
    }
    part
}

/// Whether two character vectors hold the same text.
pub fn same_chars(left: &Vec<char>, right: &Vec<char>) -> (r: bool)
    ensures
        r == (left@ == right@),
{
    if left.len() != right.len() {
        return false;
    }
    let mut i: usize = 0;
    while i < left.len()
        invariant
            i <= left.len(),
            left.len() == right.len(),
            forall|j: int| 0 <= j < i ==> left@[j] == right@[j],
        decreases left.len() - i,
    {
        if left[i] != right[i] {
            return false;
        }
        i = i + 1;
    }
    assert(left@ =~= right@);
    true
}

/// Whether `v` holds exactly `text`.
pub fn is_text(v: &Vec<char>, text: &str) -> (r: bool)
    ensures
        r == (v@ == text@),
{
    same_chars(v, &chars_of(text))
}

/// `v` with every ASCII letter lower-cased.
pub fn lowercase_of(v: &Vec<char>) -> (r: Vec<char>)
    ensures
        r@ == lowercase(v@),
{
    let mut lower: Vec<char> = Vec::new();
    let mut i: usize = 0;
    while i < v.len()
        invariant
            i <= v.len(),
            lower@.len() == i,
            forall|j: int| 0 <= j < i ==> lower@[j] == ascii_lower(v@[j]),
        decreases v.len() - i,
    {
        lower.push(lowered(v[i]));
        i = i + 1;
    }
    assert(lower@ =~= lowercase(v@));
    lower
}

/// Whether `part` occurs in `v` at offset `at`.
pub fn occurs(v: &Vec<char>, part: &Vec<char>, at: usize) -> (r: bool)
    ensures
        r == occurs_at(v@, part@, at as int),
{
    if part.len() > v.len() || at > v.len() - part.len() {
        return false;
    }
    let mut i: usize = 0;
    while i < part.len()
        invariant
            i <= part.len(),
            at + part.len() <= v.len(),
            forall|j: int| 0 <= j < i ==> v@[at + j] == part@[j],
        decreases part.len() - i,
    {
        if v[at + i] != part[i] {
            assert(v@.subrange(at as int, at + part@.len())[i as int] != part@[i as int]);
            return false;
        }
        i = i + 1;
    }
    assert(v@.subrange(at as int, at + part@.len()) =~= part@);
    true
}

/// Whether `v` begins with `prefix`.
pub fn begins_with(v: &Vec<char>, prefix: &str) -> (r: bool)
    ensures
        r == starts_with(v@, prefix@),
{
    occurs(v, &chars_of(prefix), 0)
}

/// Whether `v` ends with `suffix`.
pub fn closes_with(v: &Vec<char>, suffix: &str) -> (r: bool)
    ensures
        r == ends_with(v@, suffix@),
{
    let wanted = chars_of(suffix);
    wanted.len() <= v.len() && occurs(v, &wanted, v.len() - wanted.len())
}

/// Whether `part` occurs anywhere in `v`.
pub fn contains_part(v: &Vec<char>, part: &str) -> (r: bool)
    ensures
        r == contains_text(v@, part@),
{
    let wanted = chars_of(part);
    let mut at: usize = 0;
    while at <= v.len() && wanted.len() <= v.len() && at <= v.len() - wanted.len()
        invariant
            wanted@ == part@,
            at <= v.len() + 1,
            forall|j: int| 0 <= j < at ==> !occurs_at(v@, part@, j),
        decreases v.len() + 1 - at,
    {
        if occurs(v, &wanted, at) {
            return true;
        }
        if at == v.len() {
            assert forall|j: int| !occurs_at(v@, part@, j) by {}
            return false;
        }
        at = at + 1;
    }
    assert forall|j: int| !occurs_at(v@, part@, j) by {}
    false
}

/// Whether `mark` occurs in `v`.
pub fn contains_char(v: &Vec<char>, mark: char) -> (r: bool)
    ensures
        r == v@.contains(mark),
{
    let mut i: usize = 0;
    while i < v.len()
        invariant
            i <= v.len(),
            forall|j: int| 0 <= j < i ==> v@[j] != mark,
        decreases v.len() - i,
    {
        if v[i] == mark {
            return true;
        }
        i = i + 1;
    }
    false
}

/// The offset of the first `mark` in `v`.
pub fn offset_of(v: &Vec<char>, mark: char) -> (r: Option<usize>)
    ensures
        r is Some <==> first_offset(v@, mark) is Some,
        r matches Some(at) ==> first_offset(v@, mark) == Some(at as int) && at < v@.len(),
{
    let mut i: usize = 0;
    while i < v.len()
        invariant
            i <= v.len(),
            forall|j: int| 0 <= j < i ==> v@[j] != mark,
        decreases v.len() - i,
    {
        if v[i] == mark {
            proof {
                lemma_first_offset_unique(v@, mark, i as int);
            }
            return Some(i);
        }
        i = i + 1;
    }
    proof {
        lemma_first_offset(v@, mark);
    }
    None
}

/// The text before and after the first `mark`.
pub fn split_at_first(v: &Vec<char>, mark: char) -> (r: Option<(Vec<char>, Vec<char>)>)
    ensures
        match (r, split_once(v@, mark)) {
            (Some((before, after)), Some((b, a))) => before@ == b && after@ == a,
            (None, None) => true,
            _ => false,
        },
{
    match offset_of(v, mark) {
        Some(at) => {
            let size: usize = v.len();
            let before = slice_of(v, 0, at);
            let after = slice_of(v, at + 1, size);
            assert(before@ =~= v@.take(at as int));
            assert(after@ =~= v@.skip(at + 1));
            Some((before, after))
        },
        None => None,
    }
}

/// The character sequences of each vector in `parts`.
pub open spec fn char_views(parts: Seq<Vec<char>>) -> Seq<Seq<char>> {
    parts.map_values(|part: Vec<char>| part@)
}

/// The pieces of `v` between consecutive `mark`s.
pub fn split_all(v: &Vec<char>, mark: char) -> (r: Vec<Vec<char>>)
    ensures
        char_views(r@) == split(v@, mark),
        r@.len() >= 1,
{
    let mut pieces: Vec<Vec<char>> = Vec::new();
    let mut rest: Vec<char> = slice_of(v, 0, v.len());
    assert(rest@ =~= v@);
    proof {
        assert(char_views(pieces@) + split(rest@, mark) =~= split(v@, mark));
    }
    loop
        invariant
            char_views(pieces@) + split(rest@, mark) == split(v@, mark),
        decreases rest@.len(),
    {
        match split_at_first(&rest, mark) {
            Some((before, after)) => {
                proof {
                    lemma_first_offset(rest@, mark);
                    let at = first_offset(rest@, mark)->0;
                    assert(split(rest@, mark) == seq![rest@.take(at)] + split(
                        rest@.skip(at + 1),
                        mark,
                    ));
                    assert(char_views(pieces@.push(before)) =~= char_views(pieces@).push(before@));
                    assert(char_views(pieces@).push(before@) + split(after@, mark) =~= char_views(
                        pieces@,
                    ) + split(rest@, mark));
                }
                pieces.push(before);
                rest = after;
            },
            None => {
                proof {
                    assert(split(rest@, mark) == seq![rest@]);
                    assert(char_views(pieces@.push(rest)) =~= char_views(pieces@) + seq![rest@]);
                }
                pieces.push(rest);
                return pieces;
            },
        }
    }
}

/// `pieces` joined by `separator`.
pub fn join(pieces: &Vec<String>, separator: &str) -> (r: String)
    ensures
        r@ == joined(texts(pieces@), separator@),
{
    let mut text: String = String::new();
    let mut i: usize = 0;
    proof {
        assert(texts(pieces@).take(0) =~= Seq::<Seq<char>>::empty());
    }
    while i < pieces.len()
        invariant
            i <= pieces.len(),
            text@ == joined(texts(pieces@).take(i as int), separator@),
        decreases pieces.len() - i,
    {
        let ghost before = texts(pieces@).take(i as int);
        let ghost after = texts(pieces@).take(i + 1);
        assert(after.drop_last() =~= before);
        assert(after.last() == pieces@[i as int]@);
        if i > 0 {
            text.append(separator);
        } else {
            assert(text@ + pieces@[0]@ =~= pieces@[0]@);
        }
        text.append(pieces[i].as_str());
        i = i + 1;
    }
    assert(texts(pieces@).take(i as int) =~= texts(pieces@));
    text
}

/// Appends `text` to `parts`.
pub fn push_text(parts: &mut Vec<String>, text: &str)
    ensures
        texts(final(parts)@) == texts(old(parts)@).push(text@),
{
    parts.push(text.to_owned());
    assert(texts(parts@) =~= texts(old(parts)@).push(text@));
}

/// The decimal rendering of `n`.
pub fn decimal_text(n: u64) -> (r: String)
    ensures
        r@ == decimal(n as nat),
    decreases n,
{
    if n < 10 {
        let mut text: String = String::new();
        text.push(((48 + n) as u8) as char);
        assert(text@ =~= seq![digit_char(n as nat)]);
        text
    } else {
        let mut text = decimal_text(n / 10);
        text.push(((48 + n % 10) as u8) as char);
        text
    }
}

/// `v` without leading and trailing white space.
pub fn trimmed(v: &Vec<char>) -> (r: Vec<char>)
    ensures
        r@ == trim(v@),
{
    let mut from: usize = 0;
    assert(v@.skip(0) =~= v@);
    while from < v.len() && white_space(v[from])
        invariant
            from <= v.len(),
            leading_white(v@) == from + leading_white(v@.skip(from as int)),
        decreases v.len() - from,
    {
        assert(v@.skip(from as int).skip(1) =~= v@.skip(from + 1));
        from = from + 1;
    }
    let ghost core = v@.skip(from as int);
    proof {
        assert(leading_white(core) == 0);
        lemma_white_bounds(core);
    }
    let mut to: usize = v.len();
    assert(core.take(core.len() as int) =~= core);
    while from < to && white_space(v[to - 1])
        invariant
            from <= to <= v.len(),
            core == v@.skip(from as int),
            trailing_white(core) == (v.len() - to) + trailing_white(core.take(to - from)),
        decreases to - from,
    {
        assert(core.take(to - from).drop_last() =~= core.take(to - from - 1));
        assert(core.take(to - from).last() == v@[to - 1]);
        to = to - 1;
    }
    proof {
        assert(trailing_white(core.take(to - from)) == 0) by {
            if from < to {
                assert(core.take(to - from).last() == v@[to - 1]);
            }
        }
        assert(v@.subrange(from as int, to as int) =~= trim(v@));
    }
    slice_of(v, from, to)
}

/// `left` followed by `right`.
pub fn concat(left: &str, right: &str) -> (r: String)
    ensures
        r@ == left@ + right@,
{
    let mut text = left.to_owned();
    text.append(right);
    text
}

// ---- credential-shaped text ---------------------------------------------------

/// Text that names a credential in any letter case.
pub open spec fn names_credential(s: Seq<char>) -> bool {
    let lower = lowercase(s);
    ||| contains_text(lower, "token"@)
    ||| contains_text(lower, "secret"@)
    ||| contains_text(lower, "password"@)
    ||| contains_text(lower, "passwd"@)
    ||| contains_text(lower, "credential"@)
    ||| contains_text(lower, "apikey"@)
    ||| contains_text(lower, "api-key"@)
    ||| contains_text(lower, "api_key"@)
    ||| contains_text(lower, "auth"@)
}

/// Whether `value` names a credential in any letter case.
pub fn credential_like(value: &str) -> (r: bool)
    ensures
        r == names_credential(value@),
{
    let lower = lowercase_of(&chars_of(value));
    contains_part(&lower, "token") || contains_part(&lower, "secret") || contains_part(
        &lower,
        "password",
    ) || contains_part(&lower, "passwd") || contains_part(&lower, "credential") || contains_part(
        &lower,
        "apikey",
    ) || contains_part(&lower, "api-key") || contains_part(&lower, "api_key") || contains_part(
        &lower,
        "auth",
    )
}

} // verus!
