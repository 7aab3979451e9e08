//! Regular-expression matching, done by the `regex` crate.
use vstd::prelude::*;

verus! {

/// What the `regex` crate finds: `None` when `pattern`, built by `RegexBuilder` with the
/// given `multi_line` and `dot_matches_new_line` flags, does not compile; else, for each
/// match that `Regex::captures_iter` yields over `haystack`, in order, the text of each
/// group named in `groups` (`None` where that group took no part in the match).
pub uninterp spec fn regex_captures(
    pattern: Seq<char>,
    multi_line: bool,
    dot_matches_new_line: bool,
    groups: Seq<Seq<char>>,
    haystack: Seq<char>,
) -> Option<Seq<Seq<Option<Seq<char>>>>>;

/// Runs `regex::RegexBuilder::new(pattern)` with the two flags, then
/// `Regex::captures_iter(haystack)`, and reads each named group of each match with
/// `Captures::name`. The contract ties the result to `regex_captures` and says that
/// each row holds one entry per requested group, which the conversion below makes so;
/// nothing is stated of which matches the regex crate finds.
#[verifier::external_body]
pub(crate) fn captures_all(
    pattern: &str,
    multi_line: bool,
    dot_matches_new_line: bool,
    groups: &Vec<String>,
    haystack: &str,
) -> (r: Option<Vec<Vec<Option<String>>>>)
    ensures
        r.deep_view() == regex_captures(
            pattern@,
            multi_line,
            dot_matches_new_line,
            groups.deep_view(),
            haystack@,
        ),
        r matches Some(rows) ==> forall|i: int|
            0 <= i < rows.len() ==> #[trigger] rows[i].len() == groups.len(),
{
    let built = regex::RegexBuilder::new(pattern).multi_line(multi_line).dot_matches_new_line(
        dot_matches_new_line,
    ).build();
    let re = match built {
        Ok(re) => re,
        Err(_) => return None,
    };
    let mut rows = Vec::new();
    for caps in re.captures_iter(haystack) {
        rows.push(groups.iter().map(|g| caps.name(g).map(|m| m.as_str().to_string())).collect());
    }
    Some(rows)
}

/// What `Regex::replace_all` gives: `None` when `pattern`, built by `RegexBuilder`
/// with the given flags, does not compile; else `haystack` with every match replaced
/// by `replacement`, in which `$1` and the like stand for the text of a group.
pub uninterp spec fn regex_replaced(
    pattern: Seq<char>,
    multi_line: bool,
    dot_matches_new_line: bool,
    haystack: Seq<char>,
    replacement: Seq<char>,
) -> Option<Seq<char>>;

/// Runs `regex::RegexBuilder::new(pattern)` with the two flags, then
/// `Regex::replace_all(haystack, replacement)`. The contract ties the result to the
/// name `regex_replaced`; nothing is stated of what the regex crate matches.
#[verifier::external_body]
pub(crate) fn replace_all_matches(
    pattern: &str,
    multi_line: bool,
    dot_matches_new_line: bool,
    haystack: &str,
    replacement: &str,
) -> (r: Option<String>)
    ensures
        r.deep_view() == regex_replaced(
            pattern@,
            multi_line,
            dot_matches_new_line,
            haystack@,
            replacement@,
        ),
{
    match regex::RegexBuilder::new(pattern).multi_line(multi_line).dot_matches_new_line(
        dot_matches_new_line,
    ).build() {
        Ok(re) => Some(re.replace_all(haystack, replacement).to_string()),
        Err(_) => None,
    }
}

} // verus!
