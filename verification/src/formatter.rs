//! The output formatter: deciding, per line, whether anything is emitted
//! and in which of the two formats — the full line, or a comma-joined dump
//! of the pattern's capture groups.

use vstd::prelude::*;

verus! {

use crate::options::MinigrepOptions;
use crate::pattern::{CompiledPattern, captures_of, regex_captures};

/// Whether a line with match verdict `is_match` is emitted: the verdict
/// itself, flipped when invert-match is on.
pub open spec fn spec_should_emit(invert_match: bool, is_match: bool) -> bool {
    if invert_match {
        !is_match
    } else {
        is_match
    }
}

/// Inversion law: for any match verdict, turning invert-match on emits the
/// line exactly when leaving it off would not.
pub proof fn lemma_invert_flips_emission(is_match: bool)
    ensures
        spec_should_emit(true, is_match) == !spec_should_emit(false, is_match),
{
}

/// The concatenation of the given texts, each followed by one comma.
pub open spec fn joined_with_trailing_commas(elems: Seq<Seq<char>>) -> Seq<char>
    decreases elems.len(),
{
    if elems.len() == 0 {
        Seq::empty()
    } else {
        joined_with_trailing_commas(elems.drop_last()) + elems.last() + seq![',']
    }
}

/// The capture-group output line for the capture set `slots`: slots 1
/// through second-to-last each followed by a comma, then the final slot
/// with no comma. A single-slot set (a pattern with no groups) degenerates
/// to that slot's text alone; an empty set, which a successful match never
/// yields, to the empty text.
pub open spec fn spec_capture_output(slots: Seq<Seq<char>>) -> Seq<char> {
    if slots.len() == 0 {
        Seq::empty()
    } else if slots.len() == 1 {
        slots[0]
    } else {
        joined_with_trailing_commas(slots.subrange(1, slots.len() - 1)) + slots.last()
    }
}

/// Join a capture set into one output line, as `spec_capture_output` says.
pub fn join_captures(slots: &Vec<String>) -> (r: String)
    requires
        slots@.len() >= 1,
    ensures
        r@ == spec_capture_output(slots.deep_view()),
{
    let n = slots.len();
    let mut joined = String::new();
    if n == 1 {
        joined.append(slots[0].as_str());
        return joined;
    }
    let mut slot_index: usize = 1;
    while slot_index < n - 1
        invariant
            2 <= n == slots@.len(),
            1 <= slot_index <= n - 1,
            joined@ == joined_with_trailing_commas(
                slots.deep_view().subrange(1, slot_index as int),
            ),
        decreases n - 1 - slot_index,
    {
        joined.append(slots[slot_index].as_str());
        joined.append(",");
        proof {
            reveal_strlit(",");
            let prefix = slots.deep_view().subrange(1, slot_index + 1);
            assert(prefix.drop_last() =~= slots.deep_view().subrange(1, slot_index as int));
            assert(","@ =~= seq![',']);
        }
        slot_index += 1;
    }
    joined.append(slots[n - 1].as_str());
    joined
}

/// What capture dumping produces for one line: nothing when the engine
/// reports no captures, otherwise the joined capture line.
pub open spec fn spec_capture_line(pat: Seq<char>, line: Seq<char>) -> Option<Seq<char>> {
    match captures_of(pat, line) {
        Option::None => Option::None,
        Option::Some(slots) => Option::Some(spec_capture_output(slots)),
    }
}

/// Build the capture-group output for a line, or nothing when the engine
/// reports no captures for it.
pub fn write_capture_groups(_options: &MinigrepOptions, pattern: &CompiledPattern, line: &str) -> (r:
    Option<String>)
    ensures
        r.deep_view() == spec_capture_line(pattern@, line@),
{
    let captures = regex_captures(pattern, line);
    match captures {
        Option::None => Option::None,
        Option::Some(slots) => Option::Some(join_captures(&slots)),
    }
}

/// The text, if any, that a line adds to the output: nothing unless
/// `spec_should_emit` allows it; otherwise the line itself, or its capture
/// dump when capture dumping is on.
pub open spec fn spec_output_line(
    invert_match: bool,
    dump_capture_groups: bool,
    pat: Seq<char>,
    line: Seq<char>,
    is_match: bool,
) -> Option<Seq<char>> {
    if !spec_should_emit(invert_match, is_match) {
        Option::None
    } else if dump_capture_groups {
        spec_capture_line(pat, line)
    } else {
        Option::Some(line)
    }
}

/// Decide what one line contributes to the output: the emitted text, or
/// nothing.
pub fn output_line(options: &MinigrepOptions, pattern: &CompiledPattern, line: &str, is_match: bool) -> (r:
    Option<String>)
    ensures
        r.deep_view() == spec_output_line(
            options.invert_match,
            options.dump_capture_groups,
            pattern@,
            line@,
            is_match,
        ),
{
    let mut should_write = is_match;
    if options.invert_match {
        should_write = !is_match;
    }
    if !should_write {
        return Option::None;
    }

    if options.dump_capture_groups {
        write_capture_groups(options, pattern, line)
    } else {
        Option::Some(String::from_str(line))
    }
}

} // verus!
