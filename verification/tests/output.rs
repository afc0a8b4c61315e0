use minigrep::formatter::{join_captures, output_line, write_capture_groups};
use minigrep::matcher::match_line;
use minigrep::options::MinigrepOptions;
use minigrep::pattern::compile_pattern;
use minigrep::pipeline::process_lines;

fn options(query: &str, invert_match: bool, dump_capture_groups: bool) -> MinigrepOptions {
    MinigrepOptions {
        filename: "input.txt".to_string(),
        query: query.to_string(),
        invert_match,
        dump_capture_groups,
    }
}

fn lines(texts: &[&str]) -> Vec<String> {
    texts.iter().map(|t| t.to_string()).collect()
}

#[test]
fn scenario_plain_match() {
    let opts = options("an", false, false);
    let pattern = compile_pattern(&opts.query).unwrap();
    let emitted = process_lines(&opts, &pattern, &lines(&["apple", "banana", "cherry"]));
    assert_eq!(emitted, vec!["banana".to_string()]);
}

#[test]
fn scenario_inverted_match() {
    let opts = options("an", true, false);
    let pattern = compile_pattern(&opts.query).unwrap();
    let emitted = process_lines(&opts, &pattern, &lines(&["apple", "banana", "cherry"]));
    assert_eq!(emitted, vec!["apple".to_string(), "cherry".to_string()]);
}

#[test]
fn scenario_capture_groups() {
    let opts = options(r"(\w+)=(\d+)", false, true);
    let pattern = compile_pattern(&opts.query).unwrap();
    let emitted = process_lines(&opts, &pattern, &lines(&["foo=1", "bar=2"]));
    assert_eq!(emitted, vec!["foo,1".to_string(), "bar,2".to_string()]);
    assert_eq!(
        write_capture_groups(&opts, &pattern, "foo=1"),
        Some("foo,1".to_string())
    );
}

#[test]
fn scenario_pattern_without_groups_dumps_whole_match() {
    let opts = options("an", false, true);
    let pattern = compile_pattern(&opts.query).unwrap();
    assert_eq!(
        output_line(&opts, &pattern, "banana", true),
        Some("an".to_string())
    );
}

#[test]
fn single_group_dumps_that_group_alone() {
    let opts = options("(a)n", false, true);
    let pattern = compile_pattern(&opts.query).unwrap();
    assert_eq!(
        output_line(&opts, &pattern, "banana", true),
        Some("a".to_string())
    );
}

#[test]
fn non_participating_group_keeps_its_comma_slot() {
    let opts = options("(a)|(b)", false, true);
    let pattern = compile_pattern(&opts.query).unwrap();
    assert_eq!(output_line(&opts, &pattern, "a", true), Some("a,".to_string()));
    assert_eq!(output_line(&opts, &pattern, "b", true), Some(",b".to_string()));
}

#[test]
fn inversion_flips_emission() {
    let plain = options("an", false, false);
    let inverted = options("an", true, false);
    let pattern = compile_pattern("an").unwrap();
    for line in ["banana", "cherry"] {
        let verdict = match_line(&plain, &pattern, line);
        let emitted_plain = output_line(&plain, &pattern, line, verdict).is_some();
        let emitted_inverted = output_line(&inverted, &pattern, line, verdict).is_some();
        assert_eq!(emitted_inverted, !emitted_plain);
    }
}

#[test]
fn rerun_produces_identical_output() {
    let input = lines(&["apple", "banana", "cherry", "foo=1"]);
    for (invert, dump) in [(false, false), (true, false), (false, true)] {
        let opts = options("an", invert, dump);
        let pattern = compile_pattern(&opts.query).unwrap();
        let first = process_lines(&opts, &pattern, &input);
        let second = process_lines(&opts, &pattern, &input);
        assert_eq!(first, second);
    }
}

#[test]
fn non_matching_line_emits_nothing() {
    let opts = options("an", false, false);
    let pattern = compile_pattern(&opts.query).unwrap();
    assert_eq!(output_line(&opts, &pattern, "cherry", false), None);
}

#[test]
fn join_of_several_slots_skips_whole_match() {
    let slots = lines(&["foo=1", "foo", "1"]);
    assert_eq!(join_captures(&slots), "foo,1");
}

#[test]
fn join_of_single_slot_is_that_slot() {
    let slots = lines(&["an"]);
    assert_eq!(join_captures(&slots), "an");
}

#[test]
fn join_keeps_empty_slots_between_commas() {
    let slots = lines(&["whole", "x", "", "y"]);
    assert_eq!(join_captures(&slots), "x,,y");
}
