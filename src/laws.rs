//! What holds of every normalised text, and the lemmas behind it.

use crate::model::{
    collapse_space_runs, is_normal_form, is_white_space, newlines_to_spaces, no_adjacent_white_space,
    no_edge_white_space, normalized, only_plain_spaces, replace_each, trim_end_white_space,
    trim_start_white_space, trim_white_space,
};
use vstd::prelude::*;

verus! {

/// Collapsing into single spaces leaves no whitespace but plain spaces, never
/// two of them in a row, and keeps whether the text ends in whitespace.
proof fn lemma_collapse_shape(s: Seq<char>)
    ensures
        only_plain_spaces(collapse_space_runs(s, seq![' '])),
        no_adjacent_white_space(collapse_space_runs(s, seq![' '])),
        collapse_space_runs(s, seq![' ']).len() == 0 <==> s.len() == 0,
        s.len() > 0 ==> (is_white_space(collapse_space_runs(s, seq![' ']).last())
            <==> is_white_space(s.last())),
    decreases s.len(),
{
    if s.len() > 0 {
        let init = s.drop_last();
        lemma_collapse_shape(init);
        let ci = collapse_space_runs(init, seq![' ']);
        let c = collapse_space_runs(s, seq![' ']);
        if !is_white_space(s.last()) || !(init.len() > 0 && is_white_space(init.last())) {
            let x = if is_white_space(s.last()) { ' ' } else { s.last() };
            assert(c =~= ci.push(x));
            assert forall|i: int| 0 <= i < c.len() && is_white_space(#[trigger] c[i]) implies c[i]
                == ' ' by {
                if i < ci.len() {
                    assert(c[i] == ci[i]);
                }
            }
            assert forall|i: int| 0 <= i < c.len() - 1 implies !(is_white_space(#[trigger] c[i])
                && is_white_space(c[i + 1])) by {
                assert(c[i] == ci[i]);
                if i < ci.len() - 1 {
                    assert(c[i + 1] == ci[i + 1]);
                }
            }
        }
    }
}

/// Removing leading whitespace leaves a suffix that does not start with
/// whitespace.
proof fn lemma_trim_start_shape(s: Seq<char>)
    ensures
        trim_start_white_space(s).len() <= s.len(),
        trim_start_white_space(s) =~= s.subrange(
            s.len() - trim_start_white_space(s).len(),
            s.len() as int,
        ),
        trim_start_white_space(s).len() > 0 ==> !is_white_space(trim_start_white_space(s)[0]),
    decreases s.len(),
{
    if s.len() > 0 && is_white_space(s[0]) {
        lemma_trim_start_shape(s.drop_first());
    }
}

/// Removing trailing whitespace leaves a prefix that does not end with
/// whitespace.
proof fn lemma_trim_end_shape(s: Seq<char>)
    ensures
        trim_end_white_space(s).len() <= s.len(),
        trim_end_white_space(s) =~= s.subrange(0, trim_end_white_space(s).len() as int),
        trim_end_white_space(s).len() > 0 ==> !is_white_space(trim_end_white_space(s).last()),
    decreases s.len(),
{
    if s.len() > 0 && is_white_space(s.last()) {
        lemma_trim_end_shape(s.drop_last());
    }
}

/// Plain spaces and the absence of neighbouring whitespace carry over to every
/// stretch of a text.
proof fn lemma_subrange_keeps_spacing(s: Seq<char>, a: int, b: int)
    requires
        0 <= a <= b <= s.len(),
        only_plain_spaces(s),
        no_adjacent_white_space(s),
    ensures
        only_plain_spaces(s.subrange(a, b)),
        no_adjacent_white_space(s.subrange(a, b)),
{
    let t = s.subrange(a, b);
    assert forall|i: int| 0 <= i < t.len() && is_white_space(#[trigger] t[i]) implies t[i]
        == ' ' by {
        assert(t[i] == s[a + i]);
    }
    assert forall|i: int| 0 <= i < t.len() - 1 implies !(is_white_space(#[trigger] t[i])
        && is_white_space(t[i + 1])) by {
        assert(t[i] == s[a + i]);
        assert(t[i + 1] == s[a + i + 1]);
    }
}

/// Trimming a text with plain, single spaces gives its normal form.
proof fn lemma_trim_shape(s: Seq<char>)
    requires
        only_plain_spaces(s),
        no_adjacent_white_space(s),
    ensures
        is_normal_form(trim_white_space(s)),
{
    let u = trim_start_white_space(s);
    lemma_trim_start_shape(s);
    lemma_trim_end_shape(u);
    let t = trim_end_white_space(u);
    let a = s.len() - u.len();
    assert(t =~= s.subrange(a, a + t.len()));
    lemma_subrange_keeps_spacing(s, a, a + t.len());
    if t.len() > 0 {
        assert(t[0] == u[0]);
    }
}

/// A text that holds no `from` is left as it is by replacing `from`.
proof fn lemma_replace_absent(s: Seq<char>, from: char, to: char)
    requires
        !s.contains(from),
    ensures
        replace_each(s, from, to) == s,
{
    assert(replace_each(s, from, to) =~= s);
}

/// Collapsing runs changes nothing in a text whose whitespace is already plain
/// single spaces.
proof fn lemma_collapse_keeps_spaced(s: Seq<char>)
    requires
        only_plain_spaces(s),
        no_adjacent_white_space(s),
    ensures
        collapse_space_runs(s, seq![' ']) == s,
    decreases s.len(),
{
    if s.len() > 0 {
        let init = s.drop_last();
        lemma_subrange_keeps_spacing(s, 0, s.len() - 1);
        assert(init =~= s.subrange(0, s.len() - 1));
        lemma_collapse_keeps_spaced(init);
        if is_white_space(s.last()) {
            assert(s.last() == s[s.len() - 1]);
            if init.len() > 0 {
                assert(init.last() == s[s.len() - 2]);
            }
            assert(collapse_space_runs(s, seq![' ']) =~= init + seq![' ']);
        }
        assert(s =~= init.push(s.last()));
    }
}

/// Trimming changes nothing in a text without whitespace at its ends.
proof fn lemma_trim_keeps_edges(s: Seq<char>)
    requires
        no_edge_white_space(s),
    ensures
        trim_white_space(s) == s,
{
}

/// A text of whitespace alone collapses to a single space.
proof fn lemma_collapse_blank(s: Seq<char>)
    requires
        s.len() > 0,
        forall|i: int| 0 <= i < s.len() ==> is_white_space(#[trigger] s[i]),
    ensures
        collapse_space_runs(s, seq![' ']) == seq![' '],
    decreases s.len(),
{
    let init = s.drop_last();
    assert(is_white_space(s[s.len() - 1]));
    if init.len() > 0 {
        assert(forall|i: int| 0 <= i < init.len() ==> init[i] == s[i]);
        lemma_collapse_blank(init);
        assert(is_white_space(s[s.len() - 2]));
    } else {
        assert(collapse_space_runs(init, seq![' ']) =~= Seq::<char>::empty());
        assert(collapse_space_runs(s, seq![' ']) =~= seq![' ']);
    }
}

/// The normalised form of any text has no whitespace but single spaces between
/// other characters: no newline, no two spaces in a row, and no whitespace at
/// either end.
pub proof fn lemma_normalized_is_normal_form(s: Seq<char>)
    ensures
        is_normal_form(normalized(s)),
        forall|i: int| 0 <= i < normalized(s).len() ==> #[trigger] normalized(s)[i] != '\n',
        forall|i: int|
            0 <= i < normalized(s).len() - 1 ==> !(#[trigger] normalized(s)[i] == ' '
                && normalized(s)[i + 1] == ' '),
        normalized(s).len() > 0 ==> normalized(s)[0] != ' ' && normalized(s).last() != ' ',
{
    let c = collapse_space_runs(newlines_to_spaces(s), seq![' ']);
    lemma_collapse_shape(newlines_to_spaces(s));
    lemma_trim_shape(c);
    let n = normalized(s);
    assert forall|i: int| 0 <= i < n.len() implies #[trigger] n[i] != '\n' by {
        assert(is_white_space('\n'));
        assert(is_white_space(n[i]) ==> n[i] == ' ');
    }
    assert forall|i: int| 0 <= i < n.len() - 1 implies !(#[trigger] n[i] == ' ' && n[i + 1]
        == ' ') by {
        assert(!(is_white_space(n[i]) && is_white_space(n[i + 1])));
    }
}

/// A text whose characters are all whitespace (the empty text among them)
/// normalises to the empty text.
pub proof fn lemma_blank_normalizes_to_empty(s: Seq<char>)
    ensures
        (forall|i: int| 0 <= i < s.len() ==> is_white_space(#[trigger] s[i])) ==> normalized(s).len()
            == 0,
{
    if forall|i: int| 0 <= i < s.len() ==> is_white_space(#[trigger] s[i]) {
        let m = newlines_to_spaces(s);
        if s.len() == 0 {
            assert(m.len() == 0);
            assert(collapse_space_runs(m, seq![' ']) =~= Seq::<char>::empty());
        } else {
            assert forall|i: int| 0 <= i < m.len() implies is_white_space(#[trigger] m[i]) by {
                assert(is_white_space(s[i]));
            }
            lemma_collapse_blank(m);
            assert(trim_start_white_space(seq![' ']) =~= trim_start_white_space(
                seq![' '].drop_first(),
            ));
        }
    }
}

/// Normalising is idempotent: the normalised form of a normalised text is that
/// text itself.
pub proof fn lemma_normalized_idempotent(s: Seq<char>)
    ensures
        normalized(normalized(s)) == normalized(s),
{
    let n = normalized(s);
    lemma_normalized_is_normal_form(s);
    assert(!n.contains('\n')) by {
        if n.contains('\n') {
            let i = choose|i: int| 0 <= i < n.len() && n[i] == '\n';
            assert(is_white_space(n[i]));
        }
    }
    lemma_replace_absent(n, '\n', ' ');
    lemma_collapse_keeps_spaced(n);
    lemma_trim_keeps_edges(n);
}

} // verus!
