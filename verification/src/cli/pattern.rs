//! Regular expressions that replies are matched against, by the `regex` crate.
use vstd::prelude::*;

verus! {

/// What `regex::Regex::new` gives for the pattern: success when it parses and
/// compiles within the crate's default size limits, else its error as text
/// (`to_string`). This depends on the pattern alone.
pub uninterp spec fn regex_outcome(pattern: Seq<char>) -> Result<(), Seq<char>>;

/// `regex::Regex::new` accepts the pattern.
pub open spec fn regex_compiles(pattern: Seq<char>) -> bool {
    regex_outcome(pattern) is Ok
}

/// `Regex::is_match` of the regex compiled from `pattern` on `haystack`: the
/// regex matches somewhere in the haystack.
pub uninterp spec fn regex_matches(pattern: Seq<char>, haystack: Seq<char>) -> bool;

/// Calls `regex::Regex::new(pattern)` and keeps only whether it succeeded, with
/// the text of the error when it did not. Claims: the outcome is the named
/// outcome of the pattern, the error taken by its text.
#[verifier::external_body]
pub(crate) fn check_pattern(pattern: &str) -> (r: Result<(), String>)
    ensures
        match r {
            Ok(()) => regex_outcome(pattern@) == Ok::<(), Seq<char>>(()),
            Err(m) => regex_outcome(pattern@) == Err::<(), Seq<char>>(m@),
        },
{
    match regex::Regex::new(pattern) {
        Ok(_) => Ok(()),
        Err(e) => Err(e.to_string()),
    }
}

/// Compiles `pattern` with `regex::Regex::new` and calls `Regex::is_match` on
/// `haystack`. Claims: the result is the named match of the pattern on the
/// haystack. The pattern is required to compile, so `new` does not fail here.
#[verifier::external_body]
pub(crate) fn pattern_matches(pattern: &str, haystack: &str) -> (r: bool)
    requires
        regex_compiles(pattern@),
    ensures
        r == regex_matches(pattern@, haystack@),
{
    match regex::Regex::new(pattern) {
        Ok(re) => re.is_match(haystack),
        Err(_) => false,
    }
}

} // verus!
