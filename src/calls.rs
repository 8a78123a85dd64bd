//! The calls into std and into the regex crate that the normalisation makes.

use crate::model::{collapse_space_runs, replace_each, trim_white_space};
use vstd::prelude::*;

verus! {

/// Relies on `str::replace`: with a one-character pattern and a one-character
/// replacement, every occurrence of the pattern's character becomes the
/// replacement's character and all other characters stay as they are.
#[verifier::external_body]
pub(crate) fn replace_char(s: &str, from: &str, to: &str) -> (r: String)
    requires
        from@.len() == 1,
        to@.len() == 1,
    ensures
        r@ == replace_each(s@, from@[0], to@[0]),
{
    s.replace(from, to)
}

/// Relies on `regex::Regex::new` and `regex::Regex::replace_all`: the pattern
/// `\s+` compiles, and in Unicode mode (the default) it matches each maximal
/// run of `White_Space` characters, the leftmost first and greedily; a
/// replacement string without `$` is inserted literally at each match.
#[verifier::external_body]
pub(crate) fn replace_space_runs(haystack: &str, pattern: &str, rep: &str) -> (r: String)
    requires
        pattern@ == seq!['\\', 's', '+'],
        !rep@.contains('$'),
    ensures
        r@ == collapse_space_runs(haystack@, rep@),
{
    let re = regex::Regex::new(pattern).unwrap();
    re.replace_all(haystack, rep).into_owned()
}

/// Relies on `str::trim`: the leading and trailing characters with the
/// Unicode `White_Space` property are removed.
#[verifier::external_body]
pub(crate) fn trim_edges(s: &str) -> (r: &str)
    ensures
        r@ == trim_white_space(s@),
{
    s.trim()
}

} // verus!
