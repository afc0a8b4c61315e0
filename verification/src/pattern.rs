//! The compiled pattern and the trusted boundary around the regular
//! expression engine.
//!
//! The engine's behaviour is a function of the pattern text and the line
//! alone, so it is modelled by uninterpreted names over those two values:
//! `pattern_valid` for whether compilation succeeds, `regex_match` for the
//! match verdict, and `captures_of` for the capture set. Each name is tied
//! to exactly one engine call by a trusted wrapper.

use vstd::prelude::*;

verus! {

/// The engine's compiled-pattern type, declared so that it can stand in a
/// field; its values are opaque to the verifier.
#[verifier::external_type_specification]
#[verifier::external_body]
pub struct ExRegex(regex::Regex);

/// Whether the engine accepts `pat` as a well-formed pattern and compiles
/// it; a function of the pattern text alone.
pub uninterp spec fn pattern_valid(pat: Seq<char>) -> bool;

/// Whether the pattern `pat` matches somewhere within `line` (substring
/// semantics, no implicit anchoring); a function of the two texts alone.
pub uninterp spec fn regex_match(pat: Seq<char>, line: Seq<char>) -> bool;

/// The capture set that `pat` yields on `line`: `None` when the engine
/// reports no captures; otherwise the matched substrings, slot 0 the whole
/// match, slots 1 and up the groups in order of their opening parenthesis,
/// a group that did not participate as the empty string. A function of the
/// two texts alone.
pub uninterp spec fn captures_of(pat: Seq<char>, line: Seq<char>) -> Option<Seq<Seq<char>>>;

/// A pattern compiled once per run, kept together with the text it was
/// compiled from; shared read-only by every per-line evaluation.
pub struct CompiledPattern {
    regex: regex::Regex,
    text: String,
}

impl View for CompiledPattern {
    type V = Seq<char>;

    /// A compiled pattern is viewed as the text it was compiled from.
    closed spec fn view(&self) -> Seq<char> {
        self.text@
    }
}

/// Relies on regex::Regex::new: it returns Ok exactly when the pattern text
/// is a valid regular expression (within the default size limit), and the
/// compiled value then behaves as that text.
#[verifier::external_body]
fn regex_compile(pattern: &str) -> (r: Result<CompiledPattern, String>)
    ensures
        r is Ok <==> pattern_valid(pattern@),
        r matches Ok(p) ==> p@ == pattern@,
{
    match regex::Regex::new(pattern) {
        Ok(re) => Ok(CompiledPattern { regex: re, text: pattern.to_string() }),
        Err(e) => Err(e.to_string()),
    }
}

/// Relies on regex::Regex::is_match: true if and only if there is a match
/// for the pattern anywhere in the line.
#[verifier::external_body]
pub(crate) fn regex_is_match(pattern: &CompiledPattern, line: &str) -> (r: bool)
    ensures
        r == regex_match(pattern@, line@),
{
    pattern.regex.is_match(line)
}

/// Relies on regex::Regex::captures and Captures::iter: the captures are
/// Some exactly when the engine reports captures for the line; the iterator
/// always yields at least the whole-match slot 0, then the groups in order
/// of their opening parenthesis, a non-participating group as None (taken
/// here as the empty string).
#[verifier::external_body]
pub(crate) fn regex_captures(pattern: &CompiledPattern, line: &str) -> (r: Option<Vec<String>>)
    ensures
        r is Some <==> captures_of(pattern@, line@) is Some,
        r matches Some(v) ==> v.deep_view() == captures_of(pattern@, line@)->Some_0,
        r matches Some(v) ==> v@.len() >= 1,
{
    pattern.regex.captures(line).map(|caps| {
        caps.iter().map(|c| c.map_or(String::new(), |m| m.as_str().to_string())).collect()
    })
}

/// Compile `pattern` once for the run. Returns Err, with the engine's
/// diagnostic, exactly when the text is not a valid pattern.
pub fn compile_pattern(pattern: &str) -> (r: Result<CompiledPattern, String>)
    ensures
        r is Ok <==> pattern_valid(pattern@),
        r matches Ok(p) ==> p@ == pattern@,
{
    regex_compile(pattern)
}

} // verus!
