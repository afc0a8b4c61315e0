//! The per-line pipeline over a whole input: match each line, format it,
//! and collect what is emitted, in input order.

use vstd::prelude::*;

verus! {

use crate::formatter::{output_line, spec_output_line};
use crate::matcher::match_line;
use crate::options::MinigrepOptions;
use crate::pattern::{CompiledPattern, regex_match};

/// What one line contributes to the output, with its match verdict folded
/// in: the emitted text, or nothing.
pub open spec fn spec_line_result(
    invert_match: bool,
    dump_capture_groups: bool,
    pat: Seq<char>,
    line: Seq<char>,
) -> Option<Seq<char>> {
    spec_output_line(invert_match, dump_capture_groups, pat, line, regex_match(pat, line))
}

/// The whole run's output: the contributions of the emitted lines, in the
/// order their source lines have in the input.
pub open spec fn spec_outputs(
    invert_match: bool,
    dump_capture_groups: bool,
    pat: Seq<char>,
    lines: Seq<Seq<char>>,
) -> Seq<Seq<char>>
    decreases lines.len(),
{
    if lines.len() == 0 {
        Seq::empty()
    } else {
        let rest = spec_outputs(invert_match, dump_capture_groups, pat, lines.drop_last());
        match spec_line_result(invert_match, dump_capture_groups, pat, lines.last()) {
            Option::None => rest,
            Option::Some(emitted) => rest.push(emitted),
        }
    }
}

/// Run the matcher and the formatter over every line, in order, and collect
/// the emitted output lines.
pub fn process_lines(options: &MinigrepOptions, pattern: &CompiledPattern, lines: &Vec<String>) -> (r:
    Vec<String>)
    ensures
        r.deep_view() == spec_outputs(
            options.invert_match,
            options.dump_capture_groups,
            pattern@,
            lines.deep_view(),
        ),
{
    let mut emitted: Vec<String> = Vec::new();
    let mut line_index: usize = 0;
    while line_index < lines.len()
        invariant
            line_index <= lines@.len(),
            emitted.deep_view() == spec_outputs(
                options.invert_match,
                options.dump_capture_groups,
                pattern@,
                lines.deep_view().take(line_index as int),
            ),
        decreases lines@.len() - line_index,
    {
        let line = &lines[line_index];
        let is_match = match_line(options, pattern, line.as_str());
        let ghost emitted_before = emitted.deep_view();
        match output_line(options, pattern, line.as_str(), is_match) {
            Option::Some(text) => {
                emitted.push(text);
                proof {
                    assert(emitted.deep_view() =~= emitted_before.push(emitted@.last()@));
                }
            },
            Option::None => {},
        }
        proof {
            let prefix = lines.deep_view().take(line_index + 1);
            assert(prefix.drop_last() =~= lines.deep_view().take(line_index as int));
        }
        line_index += 1;
    }
    proof {
        assert(lines.deep_view().take(lines@.len() as int) =~= lines.deep_view());
    }
    emitted
}

/// Idempotence law: the pipeline is deterministic, so two runs over the
/// same options, pattern text and input lines produce identical output.
pub proof fn lemma_rerun_identical(
    invert_match: bool,
    dump_capture_groups: bool,
    pat: Seq<char>,
    lines: Seq<Seq<char>>,
    first_run: Seq<Seq<char>>,
    second_run: Seq<Seq<char>>,
)
    requires
        first_run == spec_outputs(invert_match, dump_capture_groups, pat, lines),
        second_run == spec_outputs(invert_match, dump_capture_groups, pat, lines),
    ensures
        first_run == second_run,
{
}

} // verus!
