//! The text of a string literal, freed of the quotes it is written in.

use vstd::prelude::*;
use vstd::string::StrSliceExecFns;

verus! {

/// The character that delimits a string literal.
pub const QUOTE: char = '"';

/// `s` without the quotes it starts with.
pub open spec fn trim_start_quotes(s: Seq<char>) -> Seq<char>
    decreases s.len(),
{
    if s.len() > 0 && s.first() == QUOTE {
        trim_start_quotes(s.drop_first())
    } else {
        s
    }
}

/// `s` without the quotes it ends with.
pub open spec fn trim_end_quotes(s: Seq<char>) -> Seq<char>
    decreases s.len(),
{
    if s.len() > 0 && s.last() == QUOTE {
        trim_end_quotes(s.drop_last())
    } else {
        s
    }
}

/// `s` with every quote at its start and at its end removed; quotes inside
/// stay. A text made of quotes alone becomes empty.
pub open spec fn unquoted(s: Seq<char>) -> Seq<char> {
    trim_end_quotes(trim_start_quotes(s))
}

/// Removes the quotes around the text of a literal.
pub fn trim_quotes(literal: &str) -> (text: String)
    ensures
        text@ == unquoted(literal@),
{
    let n: usize = literal.unicode_len();
    let mut lo: usize = 0;
    assert(literal@ =~= literal@.subrange(0, n as int));
    while lo < n && literal.get_char(lo) == QUOTE
        invariant
            lo <= n,
            n == literal@.len(),
            trim_start_quotes(literal@) == trim_start_quotes(literal@.subrange(lo as int, n as int)),
        decreases n - lo,
    {
        proof {
            let rest = literal@.subrange(lo as int, n as int);
            assert(rest.first() == QUOTE);
            assert(rest.drop_first() =~= literal@.subrange(lo + 1, n as int));
        }
        lo += 1;
    }
    let mut hi: usize = n;
    while hi > lo && literal.get_char(hi - 1) == QUOTE
        invariant
            lo <= hi <= n,
            n == literal@.len(),
            unquoted(literal@) == trim_end_quotes(literal@.subrange(lo as int, hi as int)),
        decreases hi - lo,
    {
        proof {
            let rest = literal@.subrange(lo as int, hi as int);
            assert(rest.last() == QUOTE);
            assert(rest.drop_last() =~= literal@.subrange(lo as int, hi - 1));
        }
        hi -= 1;
    }
    literal.substring_char(lo, hi).to_owned()
}

} // verus!
