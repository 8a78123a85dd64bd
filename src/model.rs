//! The mathematical model of the normalisation, over sequences of characters.

use vstd::prelude::*;

verus! {

/// The characters with the Unicode `White_Space` property: tab through
/// carriage return, space, next line, no-break space, ogham space mark, the
/// en quad through hair space, line and paragraph separators, narrow no-break
/// space, medium mathematical space and ideographic space.
pub open spec fn is_white_space(c: char) -> bool {
    ||| '\t' <= c <= '\r'
    ||| c == ' '
    ||| c == '\u{85}'
    ||| c == '\u{a0}'
    ||| c == '\u{1680}'
    ||| '\u{2000}' <= c <= '\u{200a}'
    ||| c == '\u{2028}'
    ||| c == '\u{2029}'
    ||| c == '\u{202f}'
    ||| c == '\u{205f}'
    ||| c == '\u{3000}'
}

/// `s` with every occurrence of `from` replaced by `to`.
pub open spec fn replace_each(s: Seq<char>, from: char, to: char) -> Seq<char> {
    s.map_values(|c: char| if c == from { to } else { c })
}

/// `s` with every newline turned into a space.
pub open spec fn newlines_to_spaces(s: Seq<char>) -> Seq<char> {
    replace_each(s, '\n', ' ')
}

/// `s` with every maximal run of whitespace characters replaced by `rep`;
/// all other characters are kept in order.
pub open spec fn collapse_space_runs(s: Seq<char>, rep: Seq<char>) -> Seq<char>
    decreases s.len(),
{
    if s.len() == 0 {
        Seq::empty()
    } else {
        let init = s.drop_last();
        if !is_white_space(s.last()) {
            collapse_space_runs(init, rep).push(s.last())
        } else if init.len() > 0 && is_white_space(init.last()) {
            collapse_space_runs(init, rep)
        } else {
            collapse_space_runs(init, rep) + rep
        }
    }
}

/// `s` without its leading whitespace.
pub open spec fn trim_start_white_space(s: Seq<char>) -> Seq<char>
    decreases s.len(),
{
    if s.len() > 0 && is_white_space(s[0]) {
        trim_start_white_space(s.drop_first())
    } else {
        s
    }
}

/// `s` without its trailing whitespace.
pub open spec fn trim_end_white_space(s: Seq<char>) -> Seq<char>
    decreases s.len(),
{
    if s.len() > 0 && is_white_space(s.last()) {
        trim_end_white_space(s.drop_last())
    } else {
        s
    }
}

/// `s` without whitespace at either end.
pub open spec fn trim_white_space(s: Seq<char>) -> Seq<char> {
    trim_end_white_space(trim_start_white_space(s))
}

/// The normalised form of `s`: newlines become spaces, each run of whitespace
/// becomes a single space, and the whitespace left at both ends is removed.
pub open spec fn normalized(s: Seq<char>) -> Seq<char> {
    trim_white_space(collapse_space_runs(newlines_to_spaces(s), seq![' ']))
}

/// The only whitespace character in `s` is the space.
pub open spec fn only_plain_spaces(s: Seq<char>) -> bool {
    forall|i: int| 0 <= i < s.len() && is_white_space(#[trigger] s[i]) ==> s[i] == ' '
}

/// No two neighbouring characters of `s` are both whitespace.
pub open spec fn no_adjacent_white_space(s: Seq<char>) -> bool {
    forall|i: int|
        0 <= i < s.len() - 1 ==> !(is_white_space(#[trigger] s[i]) && is_white_space(s[i + 1]))
}

/// Neither the first nor the last character of `s` is whitespace.
pub open spec fn no_edge_white_space(s: Seq<char>) -> bool {
    s.len() > 0 ==> !is_white_space(s[0]) && !is_white_space(s.last())
}

/// `s` is its own normalised form: words separated by single spaces.
pub open spec fn is_normal_form(s: Seq<char>) -> bool {
    &&& only_plain_spaces(s)
    &&& no_adjacent_white_space(s)
    &&& no_edge_white_space(s)
}

} // verus!
