use fast_text_refiner::{collapse_whitespace, refine_text, replace_newlines, trim_whitespace};

#[test]
fn empty_text_stays_empty() {
    assert_eq!(refine_text(""), "");
}

#[test]
fn whitespace_only_becomes_empty() {
    assert_eq!(refine_text("   \n\t  "), "");
}

#[test]
fn basic_collapse() {
    assert_eq!(
        refine_text("Hello\nworld   this   is\n\na   test"),
        "Hello world this is a test"
    );
}

#[test]
fn single_word_passes_through() {
    assert_eq!(refine_text("word"), "word");
}

#[test]
fn leading_and_trailing_removed() {
    assert_eq!(refine_text("  leading and trailing  "), "leading and trailing");
}

#[test]
fn newline_between_words_becomes_space() {
    assert_eq!(refine_text("a\nb"), "a b");
}

#[test]
fn tabs_and_carriage_returns_collapse() {
    assert_eq!(refine_text("a\t\tb\r\nc"), "a b c");
}

#[test]
fn unicode_white_space_collapses() {
    assert_eq!(refine_text("\u{a0}a\u{2003}\u{3000}b\u{2028}"), "a b");
}

#[test]
fn dollar_signs_are_kept() {
    assert_eq!(refine_text("$1  $$ a"), "$1 $$ a");
}

#[test]
fn non_ascii_words_are_kept() {
    assert_eq!(refine_text("  줄바꿈\n\n제거  "), "줄바꿈 제거");
}

#[test]
fn refining_twice_equals_refining_once() {
    let inputs = ["", " x ", "Hello\nworld   this   is\n\na   test", "\t a \u{85} b\n"];
    for input in inputs {
        let once = refine_text(input);
        assert_eq!(refine_text(&once), once);
    }
}

#[test]
fn output_has_no_newline_double_space_or_edge_space() {
    let out = refine_text("\n\n  one \n two\t\t\nthree  \n");
    assert_eq!(out, "one two three");
    assert!(!out.contains('\n'));
    assert!(!out.contains("  "));
    assert!(!out.starts_with(' '));
    assert!(!out.ends_with(' '));
}

#[test]
fn newlines_become_spaces_one_for_one() {
    assert_eq!(replace_newlines("a\n\nb\t\n"), "a  b\t ");
}

#[test]
fn whitespace_runs_become_one_space() {
    assert_eq!(collapse_whitespace(" a \t\n b\u{a0}\u{a0}"), " a b ");
}

#[test]
fn whitespace_at_both_ends_is_removed() {
    assert_eq!(trim_whitespace("\u{a0} a  b \n"), "a  b");
}
