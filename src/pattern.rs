//! Regular-expression matching, through the regex crate.

use vstd::prelude::*;

verus! {

/// The text of the leftmost-first match of `pattern` in `text`, as the regex
/// crate finds it; `None` where there is none or the pattern does not compile.
pub uninterp spec fn regex_first_match(pattern: Seq<char>, text: Seq<char>) -> Option<Seq<char>>;

/// `text` with every non-overlapping match of `pattern` replaced by
/// `replacement`, as the regex crate does it; `text` itself where the pattern
/// does not compile.
pub uninterp spec fn regex_replaced(pattern: Seq<char>, text: Seq<char>, replacement: Seq<char>) -> Seq<char>;

/// Relies on regex::Regex::find: the first match of a pattern in a text.
#[verifier::external_body]
pub(crate) fn first_match(pattern: &str, text: &str) -> (r: Option<String>)
    ensures
        match r {
            Some(m) => regex_first_match(pattern@, text@) == Some(m@),
            None => regex_first_match(pattern@, text@) is None,
        },
{
    let re = regex::Regex::new(pattern).ok()?;
    re.find(text).map(|m| m.as_str().to_string())
}

/// Relies on regex::Regex::replace_all: every match of a pattern replaced.
#[verifier::external_body]
pub(crate) fn replace_matches(pattern: &str, text: &str, replacement: &str) -> (r: String)
    ensures
        r@ == regex_replaced(pattern@, text@, replacement@),
{
    match regex::Regex::new(pattern) {
        Ok(re) => re.replace_all(text, replacement).to_string(),
        Err(_) => text.to_string(),
    }
}

} // verus!
