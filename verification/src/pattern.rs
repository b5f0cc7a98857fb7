//! Case-insensitive pattern matching over platform names.
//!
//! The matching itself is done by the `regex` crate; the library states its
//! results through the names below and builds the selection logic on them.

use vstd::prelude::*;

verus! {

#[verifier::external_type_specification]
#[verifier::external_body]
pub struct ExRegex(regex::Regex);

/// Whether `pattern` compiles as a regular expression
/// (the result of `regex::RegexBuilder::build` on it).
pub uninterp spec fn ci_pattern_valid(pattern: Seq<char>) -> bool;

/// The pattern a compiled matcher was built from.
pub uninterp spec fn regex_pattern(re: regex::Regex) -> Seq<char>;

/// Whether the pattern, compiled case-insensitively, matches somewhere in
/// `text` (the result of `regex::Regex::is_match`).
pub uninterp spec fn ci_match(pattern: Seq<char>, text: Seq<char>) -> bool;

/// Relies on regex's `RegexBuilder`: with `case_insensitive(true)`, `build`
/// returns `Ok` exactly when the pattern is a valid regular expression, and
/// the compiled value keeps the pattern it was built from.
#[verifier::external_body]
fn build_ci_regex(pattern: &str) -> (r: Option<regex::Regex>)
    ensures
        r is Some <==> ci_pattern_valid(pattern@),
        r matches Some(re) ==> regex_pattern(re) == pattern@,
{
    regex::RegexBuilder::new(pattern).case_insensitive(true).build().ok()
}

/// Relies on regex's `Regex::is_match`: true exactly when the pattern
/// matches somewhere in the text; an empty pattern finds the empty match at
/// the start of every text.
#[verifier::external_body]
fn regex_is_match(re: &regex::Regex, text: &str) -> (r: bool)
    ensures
        r == ci_match(regex_pattern(*re), text@),
        regex_pattern(*re).len() == 0 ==> r,
{
    re.is_match(text)
}

/// A pattern compiled once, case-insensitively, and matched against many
/// platform names.
pub struct PlatformMatcher {
    re: regex::Regex,
}

impl PlatformMatcher {
    /// The pattern this matcher was compiled from.
    pub closed spec fn pattern(self) -> Seq<char> {
        regex_pattern(self.re)
    }

    /// Compiles `pattern` case-insensitively; `None` exactly when the
    /// pattern is not a valid regular expression.
    pub fn compile(pattern: &str) -> (r: Option<PlatformMatcher>)
        ensures
            r is Some <==> ci_pattern_valid(pattern@),
            r matches Some(m) ==> m.pattern() == pattern@,
    {
        match build_ci_regex(pattern) {
            Some(re) => Some(PlatformMatcher { re }),
            None => None,
        }
    }

    /// True exactly when the pattern matches somewhere in `text`, ignoring
    /// case; an empty pattern matches every text.
    pub fn is_match(&self, text: &str) -> (r: bool)
        ensures
            r == ci_match(self.pattern(), text@),
            self.pattern().len() == 0 ==> r,
    {
        regex_is_match(&self.re, text)
    }
}

} // verus!
