//! How the daemon is told what to run.

use crate::error::Error;
use crate::generated::NotaDecodeError;
use crate::text::{chars_of, concat, leading_white, lemma_white_bounds, white_space};
use vstd::prelude::*;

verus! {

/// Where the text of a configuration comes from.
#[derive(Debug, PartialEq, Eq)]
pub enum ConfigurationSource {
    /// The argument itself.
    Inline(String),
    /// The file that the argument names.
    File(String),
}

/// Whether an argument is a configuration itself: behind leading white space it
/// opens a round, square or curly bracket.
pub open spec fn is_inline(argument: Seq<char>) -> bool {
    let text = argument.skip(leading_white(argument) as int);
    text.len() > 0 && (text[0] == '(' || text[0] == '[' || text[0] == '{')
}

impl ConfigurationSource {
    /// Where the configuration that `argument` names comes from.
    pub fn of_argument(argument: &str) -> (r: Self)
        ensures
            match r {
                ConfigurationSource::Inline(text) => is_inline(argument@) && text@ == argument@,
                ConfigurationSource::File(path) => !is_inline(argument@) && path@ == argument@,
            },
    {
        let v = chars_of(argument);
        let ghost all = v@;
        let mut i: usize = 0;
        assert(all.skip(0) =~= all);
        while i < v.len() && white_space(v[i])
            invariant
                i <= v@.len(),
                all == v@,
                leading_white(all) == i + leading_white(all.skip(i as int)),
            decreases v@.len() - i,
        {
            assert(all.skip(i as int)[0] == all[i as int]);
            assert(all.skip(i as int).skip(1) =~= all.skip(i + 1));
            i = i + 1;
        }
        proof {
            lemma_white_bounds(all);
            if i < v@.len() {
                assert(all.skip(i as int)[0] == all[i as int]);
            }
            assert(leading_white(all.skip(i as int)) == 0);
        }
        if i < v.len() && (v[i] == '(' || v[i] == '[' || v[i] == '{') {
            ConfigurationSource::Inline(argument.to_string())
        } else {
            ConfigurationSource::File(argument.to_string())
        }
    }
}

/// What a configuration file that cannot be read means.
pub fn unreadable_configuration(argument: &str, error: &str) -> (r: Error)
    ensures
        r matches Error::ConfigurationDecode(text) && text@ == "read "@ + argument@ + ": "@
            + error@,
{
    let head = concat("read ", argument);
    let open = concat(head.as_str(), ": ");
    Error::ConfigurationDecode(concat(open.as_str(), error))
}

/// A configuration text holds exactly one root.
pub fn single_root(found: usize) -> (r: Result<(), NotaDecodeError>)
    ensures
        r is Ok <==> found == 1,
        r matches Err(error) ==> error == (NotaDecodeError::ExpectedSingleRoot { found }),
{
    if found != 1 {
        return Err(NotaDecodeError::ExpectedSingleRoot { found });
    }
    Ok(())
}

} // verus!
