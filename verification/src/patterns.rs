//! Regular expressions, through the `regex` crate.
//!
//! Each wrapper compiles its pattern and asks one question of it. What the
//! answer is takes the regex crate's whole matching semantics to say, so
//! each answer is named here rather than written out: the names say only
//! that the same pattern and text give the same answer. A pattern that does
//! not compile gives `None`.

use vstd::prelude::*;

verus! {

/// `Regex::is_match` of `pattern` over `text`; `None` when the pattern does
/// not compile.
pub uninterp spec fn regex_match(pattern: Seq<char>, text: Seq<char>) -> Option<bool>;

/// The text of every match of `Regex::find_iter`, in order.
pub uninterp spec fn regex_found(pattern: Seq<char>, text: Seq<char>) -> Option<Seq<Seq<char>>>;

/// Capture group 1 of every match of `Regex::captures_iter`, in order.
pub uninterp spec fn regex_captured(pattern: Seq<char>, text: Seq<char>) -> Option<Seq<Option<Seq<char>>>>;

/// Capture group 1 of the first match of `Regex::captures`, if there is a
/// match.
pub uninterp spec fn regex_first_capture(pattern: Seq<char>, text: Seq<char>) -> Option<Option<Option<Seq<char>>>>;

/// `Regex::replace_all` of every match by `with`.
pub uninterp spec fn regex_replaced(pattern: Seq<char>, text: Seq<char>, with: Seq<char>) -> Option<Seq<char>>;

pub open spec fn option_view(o: Option<String>) -> Option<Seq<char>> {
    match o {
        Some(s) => Some(s@),
        None => None,
    }
}

/// `Regex::new(pattern)` then `is_match(text)`.
#[verifier::external_body]
pub(crate) fn is_match(pattern: &str, text: &str) -> (r: Option<bool>)
    ensures
        r == regex_match(pattern@, text@),
{
    regex::Regex::new(pattern).ok().map(|re| re.is_match(text))
}

/// `Regex::new(pattern)` then the text of each match of `find_iter(text)`.
#[verifier::external_body]
pub(crate) fn find_all(pattern: &str, text: &str) -> (r: Option<Vec<String>>)
    ensures
        match r {
            Some(v) => regex_found(pattern@, text@) == Some(v@.map_values(|s: String| s@)),
            None => regex_found(pattern@, text@) is None,
        },
{
    let re = regex::Regex::new(pattern).ok()?;
    Some(re.find_iter(text).map(|m| m.as_str().to_string()).collect())
}

/// `Regex::new(pattern)` then group 1 of each match of `captures_iter(text)`.
#[verifier::external_body]
pub(crate) fn captures_all(pattern: &str, text: &str) -> (r: Option<Vec<Option<String>>>)
    ensures
        match r {
            Some(v) => regex_captured(pattern@, text@) == Some(
                v@.map_values(|o: Option<String>| option_view(o)),
            ),
            None => regex_captured(pattern@, text@) is None,
        },
{
    let re = regex::Regex::new(pattern).ok()?;
    Some(re.captures_iter(text).map(|c| c.get(1).map(|m| m.as_str().to_string())).collect())
}

/// `Regex::new(pattern)` then group 1 of `captures(text)`: the outer
/// `Option` is the compile, the middle one the match, the inner one the
/// group.
#[verifier::external_body]
pub(crate) fn first_capture(pattern: &str, text: &str) -> (r: Option<Option<Option<String>>>)
    ensures
        match r {
            Some(Some(g)) => regex_first_capture(pattern@, text@) == Some(Some(option_view(g))),
            Some(None) => regex_first_capture(pattern@, text@) == Some(None::<Option<Seq<char>>>),
            None => regex_first_capture(pattern@, text@) is None,
        },
{
    let re = regex::Regex::new(pattern).ok()?;
    Some(re.captures(text).map(|c| c.get(1).map(|m| m.as_str().to_string())))
}

/// `Regex::new(pattern)` then `replace_all(text, with)`, taken literally.
#[verifier::external_body]
pub(crate) fn replace_all(pattern: &str, text: &str, with: &str) -> (r: Option<String>)
    ensures
        match r {
            Some(s) => regex_replaced(pattern@, text@, with@) == Some(s@),
            None => regex_replaced(pattern@, text@, with@) is None,
        },
{
    let re = regex::Regex::new(pattern).ok()?;
    Some(re.replace_all(text, regex::NoExpand(with)).into_owned())
}

/// How many of `patterns` match `text`.
pub open spec fn matching(patterns: Seq<&'static str>, text: Seq<char>) -> nat
    decreases patterns.len(),
{
    if patterns.len() == 0 {
        0
    } else {
        matching(patterns.drop_last(), text) + if regex_match(patterns.last()@, text) == Some(
            true,
        ) {
            1nat
        } else {
            0nat
        }
    }
}

pub proof fn lemma_matching_bound(patterns: Seq<&'static str>, text: Seq<char>)
    ensures
        matching(patterns, text) <= patterns.len(),
    decreases patterns.len(),
{
    if patterns.len() > 0 {
        lemma_matching_bound(patterns.drop_last(), text);
    }
}

/// Count the patterns that match, as `RegexSet::matches(text).len()` does.
pub fn count_matching(patterns: &Vec<&'static str>, text: &str) -> (n: usize)
    ensures
        n == matching(patterns@, text@),
        n <= patterns@.len(),
{
    let mut n: usize = 0;
    let mut i: usize = 0;
    while i < patterns.len()
        invariant
            i <= patterns@.len(),
            n == matching(patterns@.take(i as int), text@),
            n <= i,
        decreases patterns@.len() - i,
    {
        proof {
            assert(patterns@.take(i + 1).drop_last() == patterns@.take(i as int));
        }
        if is_match(patterns[i], text) == Some(true) {
            n = n + 1;
        }
        i = i + 1;
    }
    assert(patterns@.take(patterns@.len() as int) == patterns@);
    n
}

} // verus!
