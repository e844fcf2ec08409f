//! The confirmation gate: one line of input, accepted only when it is the
//! affirmative token.

use vstd::prelude::*;
use vstd::string::*;

verus! {

/// Whether `line` is the affirmative answer: the single character `y`, alone
/// or followed by the one line feed that ends a line read from a terminal.
pub open spec fn affirmative(line: Seq<char>) -> bool {
    line =~= seq!['y'] || line =~= seq!['y', '\n']
}

/// Decides whether the line that the user typed confirms the merge.
pub fn is_affirmative(line: &str) -> (accepted: bool)
    ensures
        accepted == affirmative(line@),
{
    let n: usize = line.unicode_len();
    if n == 1 {
        line.get_char(0) == 'y'
    } else if n == 2 {
        line.get_char(0) == 'y' && line.get_char(1) == '\n'
    } else {
        false
    }
}

} // verus!
