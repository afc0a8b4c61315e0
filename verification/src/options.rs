//! The options model: normalizing a raw argument list into an immutable
//! record of the run's settings.
//!
//! The last token of the argument list is the file name and the
//! second-to-last is the query, whatever their text looks like. Every token
//! strictly between the program name and those two positions is scanned for
//! the two flag tokens; anything else there is ignored.

use vstd::prelude::*;

verus! {

/// Failure of argument normalization.
#[derive(Clone, Copy, PartialEq, Eq, Structural, Debug)]
pub enum ArgumentError {
    /// Fewer than three tokens in the argument list: there is no room for
    /// both a query and a file name after the program name.
    InsufficientArguments,
}

/// The normalized options of one invocation, constructed once from the raw
/// argument list and read-only thereafter.
#[derive(Debug)]
pub struct MinigrepOptions {
    /// Path of the file whose lines are searched.
    pub filename: String,
    /// Raw pattern text, to be compiled as a regular expression.
    pub query: String,
    /// When set, lines that do not match are the ones emitted.
    pub invert_match: bool,
    /// When set, the capture groups are emitted instead of the full line.
    pub dump_capture_groups: bool,
}

/// The token that turns on invert-match.
pub open spec fn invert_flag() -> Seq<char> {
    "-v"@
}

/// The token that turns on capture-group dumping.
pub open spec fn dump_flag() -> Seq<char> {
    "-g"@
}

/// A flag is set exactly when its token occurs somewhere strictly between
/// the program name and the two trailing positional tokens.
pub open spec fn flag_present(args: Seq<String>, flag: Seq<char>) -> bool {
    exists|i: int| 1 <= i < args.len() - 2 && args[i]@ == flag
}

/// The set of tokens that the flag scan looks at: everything strictly
/// between the program name and the two trailing positional tokens.
pub open spec fn middle_tokens(args: Seq<String>) -> Set<Seq<char>> {
    Set::new(|t: Seq<char>| exists|i: int| 1 <= i < args.len() - 2 && args[i]@ == t)
}

/// Turn the full argument list (program name at position 0 included) into a
/// `MinigrepOptions`, or fail when there are too few tokens.
pub fn parse_args(args: &Vec<String>) -> (r: Result<MinigrepOptions, ArgumentError>)
    ensures
        r is Err <==> args@.len() < 3,
        r matches Err(e) ==> e == ArgumentError::InsufficientArguments,
        r matches Ok(o) ==> {
            &&& o.filename@ == args@[args@.len() - 1]@
            &&& o.query@ == args@[args@.len() - 2]@
            &&& o.invert_match == flag_present(args@, invert_flag())
            &&& o.dump_capture_groups == flag_present(args@, dump_flag())
        },
{
    let arg_count = args.len();
    if arg_count < 3 {
        return Err(ArgumentError::InsufficientArguments);
    }

    let invert_token = String::from_str("-v");
    let dump_token = String::from_str("-g");
    let mut invert_match: bool = false;
    let mut dump_capture_groups: bool = false;
    let mut arg_index: usize = 1;
    while arg_index < arg_count - 2
        invariant
            3 <= arg_count == args@.len(),
            1 <= arg_index <= arg_count - 2,
            invert_token@ == invert_flag(),
            dump_token@ == dump_flag(),
            invert_match == exists|i: int| 1 <= i < arg_index && args@[i]@ == invert_flag(),
            dump_capture_groups == exists|i: int| 1 <= i < arg_index && args@[i]@ == dump_flag(),
        decreases arg_count - 2 - arg_index,
    {
        if args[arg_index] == invert_token {
            invert_match = true;
        }
        if args[arg_index] == dump_token {
            dump_capture_groups = true;
        }
        arg_index += 1;
    }

    let query = args[arg_count - 2].clone();
    let filename = args[arg_count - 1].clone();

    Ok(MinigrepOptions { filename, query, invert_match, dump_capture_groups })
}

/// Flag detection depends only on which tokens occur in the scanned middle
/// region, never on their order, their positions, or how often each repeats:
/// two argument lists whose middle regions hold the same set of tokens agree
/// on every flag.
pub proof fn lemma_flags_order_independent(a: Seq<String>, b: Seq<String>, flag: Seq<char>)
    requires
        middle_tokens(a) == middle_tokens(b),
    ensures
        flag_present(a, flag) == flag_present(b, flag),
{
    assert(flag_present(a, flag) == middle_tokens(a).contains(flag));
    assert(flag_present(b, flag) == middle_tokens(b).contains(flag));
}

} // verus!
