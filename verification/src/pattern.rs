//! Regular expression matching, delegated to the `regex` crate.
use vstd::prelude::*;

verus! {

#[verifier::external_type_specification]
#[verifier::external_body]
pub struct ExRegex(regex::Regex);

/// Whether the `regex` crate accepts `pattern` as a regular expression.
pub uninterp spec fn regex_is_valid(pattern: Seq<char>) -> bool;

/// The text of capture group `group` in the leftmost-first match of the regular
/// expression `pattern` in `haystack`, as the `regex` crate computes it;
/// `None` when there is no match or the group took no part in it.
pub uninterp spec fn regex_capture(pattern: Seq<char>, haystack: Seq<char>, group: nat) -> Option<
    Seq<char>,
>;

/// A compiled regular expression together with the source it was compiled from.
pub struct CompiledPattern {
    re: regex::Regex,
    source: String,
}

impl CompiledPattern {
    /// The source text of the pattern.
    pub closed spec fn source(&self) -> Seq<char> {
        self.source@
    }
}

/// Calls `regex::Regex::new`; trusted to succeed exactly on the patterns that
/// `regex_is_valid` holds of, and to remember the source it was given.
#[verifier::external_body]
pub(crate) fn compile_pattern(pattern: String) -> (r: Option<CompiledPattern>)
    ensures
        r is Some <==> regex_is_valid(pattern@),
        r matches Some(c) ==> c.source() == pattern@,
{
    match regex::Regex::new(&pattern) {
        Ok(re) => Some(CompiledPattern { re, source: pattern }),
        Err(_) => None,
    }
}

/// Calls `regex::Regex::captures` and reads the text of one capture group;
/// trusted to give `regex_capture` of the pattern's source, the haystack and the group.
#[verifier::external_body]
pub(crate) fn capture_group(p: &CompiledPattern, haystack: &str, group: usize) -> (r: Option<String>)
    ensures
        match r {
            Some(s) => regex_capture(p.source(), haystack@, group as nat) == Some(s@),
            None => regex_capture(p.source(), haystack@, group as nat) is None,
        },
{
    p.re.captures(haystack).and_then(|c| c.get(group)).map(|m| m.as_str().to_string())
}

} // verus!
