//! The ignore list: processes whose name matches one of the configured
//! regular expressions are never tracked.

use vstd::prelude::*;
use regex::RegexSet;

verus! {

#[verifier::external_type_specification]
#[verifier::external_body]
pub struct ExRegexSet(RegexSet);

#[verifier::external_type_specification]
#[verifier::external_body]
pub struct ExRegexError(regex::Error);

/// Whether `RegexSet::new` accepts every pattern of the list.
pub uninterp spec fn regex_set_valid(patterns: Seq<Seq<char>>) -> bool;

/// The patterns a `RegexSet` was built from, in order.
pub uninterp spec fn regex_set_patterns(set: RegexSet) -> Seq<Seq<char>>;

/// What `RegexSet::is_match` answers on this haystack for the set that
/// `RegexSet::new` builds from these patterns (the default options).
pub uninterp spec fn regex_set_is_match(patterns: Seq<Seq<char>>, haystack: Seq<char>) -> bool;

/// The text of each string of a list.
pub open spec fn texts(v: Seq<String>) -> Seq<Seq<char>> {
    v.map_values(|s: String| s@)
}

/// Why a check against the ignore list could not be made.
#[derive(Debug, PartialEq, Eq, Structural)]
pub enum IgnoreError {
    /// A pattern of the ignore list is not a valid regular expression.
    InvalidPattern,
}

/// A compiled ignore list: a `RegexSet` built by `RegexSet::new`, with the
/// default options. Its field is private and `build_ignore_set` is its only
/// constructor, so no set built with other options can stand in it.
struct IgnoreSet {
    set: RegexSet,
}

/// Calls `regex::RegexSet::new` on the patterns. Claimed of it: it succeeds
/// exactly when the patterns are valid (a name for that), an empty list is
/// valid, and the set it builds holds the patterns given, in order.
#[verifier::external_body]
fn build_ignore_set(patterns: &Vec<String>) -> (r: Result<IgnoreSet, regex::Error>)
    ensures
        r is Ok <==> regex_set_valid(texts(patterns@)),
        patterns@.len() == 0 ==> r is Ok,
        r matches Ok(s) ==> regex_set_patterns(s.set) == texts(patterns@),
{
    match RegexSet::new(patterns) {
        Ok(set) => Ok(IgnoreSet { set }),
        Err(e) => Err(e),
    }
}

/// Calls `regex::RegexSet::is_match` on a set that `RegexSet::new` built.
/// Claimed of it: for such a set the answer is a function of its patterns and
/// the haystack (a name for it), and a set without patterns matches nothing.
#[verifier::external_body]
fn ignore_set_matches(s: &IgnoreSet, haystack: &str) -> (b: bool)
    ensures
        b == regex_set_is_match(regex_set_patterns(s.set), haystack@),
        regex_set_patterns(s.set).len() == 0 ==> !b,
{
    s.set.is_match(haystack)
}

/// Whether `name` is on the ignore list: `Ok(true)` when one of the patterns
/// matches it, `Err` when a pattern is not a valid regular expression.
pub fn is_ignored(ignore: &Vec<String>, name: &String) -> (r: Result<bool, IgnoreError>)
    ensures
        r is Err <==> !regex_set_valid(texts(ignore@)),
        r matches Ok(b) ==> b == regex_set_is_match(texts(ignore@), name@),
        ignore@.len() == 0 ==> r == Ok::<bool, IgnoreError>(false),
{
    match build_ignore_set(ignore) {
        Ok(set) => Ok(ignore_set_matches(&set, name.as_str())),
        Err(_) => Err(IgnoreError::InvalidPattern),
    }
}

} // verus!
