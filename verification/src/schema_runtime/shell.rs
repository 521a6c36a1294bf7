//! Text handed to a remote shell.

use crate::text::{alphanumeric, chars_of, is_alphanumeric};
use vstd::prelude::*;

verus! {

/// A character that the shell reads as itself outside quotes.
pub open spec fn is_shell_safe(c: char) -> bool {
    ||| is_alphanumeric(c)
    ||| c == '-'
    ||| c == '_'
    ||| c == '.'
    ||| c == '/'
    ||| c == '='
    ||| c == ':'
    ||| c == '#'
    ||| c == '+'
    ||| c == ','
}

/// Text that needs no quotes.
pub open spec fn is_bare_word(s: Seq<char>) -> bool {
    s.len() > 0 && forall|i: int| 0 <= i < s.len() ==> is_shell_safe(#[trigger] s[i])
}

/// `s` as it stands between single quotes: each quote closes the quotation,
/// stands escaped, and opens the quotation again.
pub open spec fn quote_body(s: Seq<char>) -> Seq<char>
    decreases s.len(),
{
    if s.len() == 0 {
        Seq::empty()
    } else {
        (if s[0] == '\'' {
            "'\\''"@
        } else {
            seq![s[0]]
        }) + quote_body(s.skip(1))
    }
}

/// `s` as one word of a shell command: bare where it may be, else quoted.
pub open spec fn shell_word(s: Seq<char>) -> Seq<char> {
    if is_bare_word(s) {
        s
    } else {
        "'"@ + quote_body(s) + "'"@
    }
}

/// What the shell takes a word for: quotes group, a backslash outside quotes
/// escapes one character, and any other character outside quotes must be safe.
pub open spec fn shell_reads(word: Seq<char>, quoted: bool) -> Option<Seq<char>>
    decreases word.len(),
{
    if word.len() == 0 {
        if quoted {
            None
        } else {
            Some(Seq::empty())
        }
    } else if word[0] == '\'' {
        shell_reads(word.skip(1), !quoted)
    } else if quoted || is_shell_safe(word[0]) {
        match shell_reads(word.skip(1), quoted) {
            Some(rest) => Some(seq![word[0]] + rest),
            None => None,
        }
    } else if word[0] == '\\' && word.len() >= 2 {
        match shell_reads(word.skip(2), quoted) {
            Some(rest) => Some(seq![word[1]] + rest),
            None => None,
        }
    } else {
        None
    }
}

/// A remote shell command, already quoted.
#[derive(Debug, PartialEq, Eq)]
pub struct ShellCommand(pub String);

impl ShellCommand {
    /// Takes the command text as it is.
    pub fn from_raw(script: String) -> (r: Self)
        ensures
            r.0 == script,
    {
        ShellCommand(script)
    }

    /// The command text.
    pub fn into_text(self) -> (r: String)
        ensures
            r == self.0,
    {
        self.0
    }
}

/// One argument of a remote shell command.
#[derive(Debug, PartialEq, Eq)]
pub struct ShellArgument {
    pub text: String,
}

impl ShellArgument {
    /// Takes the argument's text.
    pub fn new(text: String) -> (r: Self)
        ensures
            r.text == text,
    {
        ShellArgument { text }
    }

    /// The argument as one word of a shell command.
    pub fn to_command_text(&self) -> (r: String)
        ensures
            r@ == shell_word(self.text@),
    {
        let v = chars_of(self.text.as_str());
        if v.len() > 0 && all_shell_safe(&v) {
            return self.text.clone();
        }
        let mut word = "'".to_owned();
        let mut i: usize = 0;
        assert(v@.skip(0) =~= v@);
        while i < v.len()
            invariant
                v@ == self.text@,
                i <= v.len(),
                "'"@ + quote_body(v@) == word@ + quote_body(v@.skip(i as int)),
            decreases v.len() - i,
        {
            let ghost rest = v@.skip(i as int);
            let ghost before = word@;
            assert(rest[0] == v@[i as int]);
            assert(rest.skip(1) =~= v@.skip(i + 1));
            if v[i] == '\'' {
                word.append("'\\''");
                assert(before + ("'\\''"@ + quote_body(rest.skip(1))) =~= word@ + quote_body(
                    rest.skip(1),
                ));
            } else {
                word.push(v[i]);
                assert(before + (seq![v@[i as int]] + quote_body(rest.skip(1))) =~= word@
                    + quote_body(rest.skip(1)));
            }
            i = i + 1;
        }
        assert(v@.skip(i as int).len() == 0);
        assert(word@ + quote_body(v@.skip(i as int)) =~= word@);
        word.append("'");
        word
    }
}

fn all_shell_safe(v: &Vec<char>) -> (r: bool)
    ensures
        r == (forall|i: int| 0 <= i < v@.len() ==> is_shell_safe(#[trigger] v@[i])),
{
    let mut i: usize = 0;
    while i < v.len()
        invariant
            i <= v.len(),
            forall|j: int| 0 <= j < i ==> is_shell_safe(#[trigger] v@[j]),
        decreases v.len() - i,
    {
        let c = v[i];
        if !(alphanumeric(c) || c == '-' || c == '_' || c == '.' || c == '/' || c == '=' || c == ':'
            || c == '#' || c == '+' || c == ',') {
            assert(!is_shell_safe(v@[i as int]));
            return false;
        }
        i = i + 1;
    }
    true
}

proof fn lemma_bare_word_reads(s: Seq<char>)
    requires
        forall|i: int| 0 <= i < s.len() ==> is_shell_safe(#[trigger] s[i]),
    ensures
        shell_reads(s, false) == Some(s),
    decreases s.len(),
{
    if s.len() > 0 {
        assert(is_shell_safe(s[0]));
        assert forall|i: int| 0 <= i < s.skip(1).len() implies is_shell_safe(
            #[trigger] s.skip(1)[i],
        ) by {
            assert(s.skip(1)[i] == s[i + 1]);
        }
        lemma_bare_word_reads(s.skip(1));
        assert(seq![s[0]] + s.skip(1) =~= s);
    } else {
        assert(s =~= Seq::<char>::empty());
    }
}

proof fn lemma_quote_body_reads(s: Seq<char>)
    ensures
        shell_reads(quote_body(s) + "'"@, true) == Some(s),
    decreases s.len(),
{
    reveal_strlit("'");
    reveal_strlit("'\\''");
    let word = quote_body(s) + "'"@;
    if s.len() == 0 {
        assert(word =~= seq!['\'']);
        assert(word.skip(1).len() == 0);
        assert(shell_reads(word.skip(1), false) == Some(Seq::<char>::empty()));
        assert(s =~= Seq::<char>::empty());
    } else {
        lemma_quote_body_reads(s.skip(1));
        let tail = quote_body(s.skip(1)) + "'"@;
        assert(seq![s[0]] + s.skip(1) =~= s);
        if s[0] == '\'' {
            assert(word =~= "'\\''"@ + tail);
            assert(word[0] == '\'');
            let after_close = word.skip(1);
            assert(after_close[0] == '\\');
            assert(after_close[1] == '\'');
            let after_escape = after_close.skip(2);
            assert(after_escape[0] == '\'');
            assert(after_escape.skip(1) =~= tail);
            assert(shell_reads(after_escape, false) == shell_reads(tail, true));
            assert(shell_reads(after_close, false) == Some(seq!['\''] + s.skip(1)));
        } else {
            assert(word =~= seq![s[0]] + tail);
            assert(word.skip(1) =~= tail);
        }
    }
}

/// The shell reads a rendered argument back as the argument itself, whatever
/// characters it holds.
pub proof fn law_shell_reads_the_argument_back(s: Seq<char>)
    ensures
        shell_reads(shell_word(s), false) == Some(s),
{
    if is_bare_word(s) {
        lemma_bare_word_reads(s);
    } else {
        reveal_strlit("'");
        lemma_quote_body_reads(s);
        let word = shell_word(s);
        assert(word[0] == '\'');
        assert(word.skip(1) =~= quote_body(s) + "'"@);
    }
}

} // verus!
