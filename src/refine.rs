//! The normaliser and its three steps.

use crate::calls::{replace_char, replace_space_runs, trim_edges};
use crate::laws::{lemma_blank_normalizes_to_empty, lemma_normalized_is_normal_form};
use crate::model::{
    collapse_space_runs, is_white_space, newlines_to_spaces, normalized, trim_white_space,
};
use vstd::prelude::*;

verus! {

/// Turns every newline of `text` into a space.
pub fn replace_newlines(text: &str) -> (r: String)
    ensures
        r@ == newlines_to_spaces(text@),
{
    proof {
        reveal_strlit("\n");
        reveal_strlit(" ");
        assert("\n"@ =~= seq!['\n']);
        assert(" "@ =~= seq![' ']);
    }
    replace_char(text, "\n", " ")
}

/// Replaces every maximal run of whitespace in `text` by a single space.
pub fn collapse_whitespace(text: &str) -> (r: String)
    ensures
        r@ == collapse_space_runs(text@, seq![' ']),
{
    proof {
        reveal_strlit(" ");
        reveal_strlit("\\s+");
        assert(" "@ =~= seq![' ']);
        assert("\\s+"@ =~= seq!['\\', 's', '+']);
    }
    replace_space_runs(text, "\\s+", " ")
}

/// Removes the whitespace at both ends of `text`.
pub fn trim_whitespace(text: &str) -> (r: String)
    ensures
        r@ == trim_white_space(text@),
{
    String::from_str(trim_edges(text))
}

/// Normalises `text`: every newline becomes a space, every run of whitespace
/// becomes a single space, and whitespace at both ends is removed.
pub fn refine_text(text: &str) -> (r: String)
    ensures
        r@ == normalized(text@),
        forall|i: int| 0 <= i < r@.len() ==> #[trigger] r@[i] != '\n',
        forall|i: int| 0 <= i < r@.len() - 1 ==> !(#[trigger] r@[i] == ' ' && r@[i + 1] == ' '),
        r@.len() > 0 ==> r@[0] != ' ' && r@.last() != ' ',
        (forall|i: int| 0 <= i < text@.len() ==> is_white_space(#[trigger] text@[i])) ==> r@.len()
            == 0,
{
    let spaced = replace_newlines(text);
    let collapsed = collapse_whitespace(spaced.as_str());
    let r = trim_whitespace(collapsed.as_str());
    proof {
        lemma_normalized_is_normal_form(text@);
        lemma_blank_normalizes_to_empty(text@);
    }
    r
}

} // verus!
