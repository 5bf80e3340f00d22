//! Regular-expression matching for log search, behind trusted wrappers around
//! the `regex` crate.

use vstd::prelude::*;

verus! {

#[verifier::external_type_specification]
#[verifier::external_body]
pub struct ExRegex(regex::Regex);

/// Whether the regex crate accepts the pattern text. `regex::Regex::new`
/// succeeds or fails depending on the pattern text alone (with the default
/// size limit), so the outcome is a function of the pattern.
pub uninterp spec fn regex_valid(pattern: Seq<char>) -> bool;

/// Whether the pattern matches anywhere in the line, as decided by
/// `regex::Regex::is_match`; the result is a function of pattern and line.
pub uninterp spec fn regex_matches(pattern: Seq<char>, line: Seq<char>) -> bool;

/// Relies on `regex::Regex::new`: compilation succeeds exactly on the pattern
/// texts the regex crate accepts.
#[verifier::external_body]
fn regex_new(pattern: &str) -> (r: Option<regex::Regex>)
    ensures
        r is Some <==> regex_valid(pattern@),
{
    regex::Regex::new(pattern).ok()
}

/// A compiled regular expression, remembering the pattern it was built from.
/// `compile` is the only constructor, so the compiled value always belongs to
/// the remembered pattern text.
pub struct Pattern {
    re: regex::Regex,
    pattern: Ghost<Seq<char>>,
}

impl Pattern {
    /// The pattern text this value was compiled from.
    pub closed spec fn pat(&self) -> Seq<char> {
        self.pattern@
    }

    /// Compiles the pattern, failing exactly on texts the regex crate rejects.
    pub fn compile(pattern: &str) -> (r: Option<Pattern>)
        ensures
            r is Some <==> regex_valid(pattern@),
            r is Some ==> r->Some_0.pat() == pattern@,
    {
        match regex_new(pattern) {
            Some(re) => {
                let ghost p = pattern@;
                Some(Pattern { re, pattern: Ghost(p) })
            },
            None => None,
        }
    }

    /// Relies on `regex::Regex::is_match`: true iff there is a match for the
    /// compiled pattern anywhere in the line. The result is a function of the
    /// pattern this value was compiled from (see `compile`) and the line.
    #[verifier::external_body]
    pub fn is_match(&self, line: &str) -> (r: bool)
        ensures
            r == regex_matches(self.pat(), line@),
    {
        self.re.is_match(line)
    }
}

} // verus!
