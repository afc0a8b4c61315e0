//! The line matcher: a stateless predicate over a compiled pattern and one
//! line of text.

use vstd::prelude::*;

verus! {

use crate::options::MinigrepOptions;
use crate::pattern::{CompiledPattern, regex_is_match, regex_match};

/// The match verdict for one line: true if and only if the pattern matches
/// somewhere within the line.
pub fn match_line(_options: &MinigrepOptions, pattern: &CompiledPattern, line: &str) -> (r: bool)
    ensures
        r == regex_match(pattern@, line@),
{
    regex_is_match(pattern, line)
}

} // verus!
