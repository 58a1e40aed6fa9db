use only_connect::layout::split_text;

/// A deterministic stand-in for the font: every character is one unit wide.
fn char_width(s: String) -> u32 {
    s.chars().count() as u32
}

#[test]
fn wraps_at_word_boundaries() {
    let lines = split_text("the quick brown fox", 9, char_width);
    assert_eq!(lines, vec!["the quick", "brown fox"]);
}

#[test]
fn greedy_takes_the_longest_fitting_run() {
    let lines = split_text("a bb ccc dddd", 8, char_width);
    // "a bb" fits in 8, "a bb ccc" (8 chars) fits too, adding "dddd" breaks
    assert_eq!(lines, vec!["a bb ccc", "dddd"]);
}

#[test]
fn empty_input_gives_one_empty_line() {
    let lines = split_text("", 10, char_width);
    assert_eq!(lines, vec![""]);
}

#[test]
fn all_spaces_give_one_empty_line() {
    let lines = split_text("     ", 10, char_width);
    assert_eq!(lines, vec![""]);
}

#[test]
fn long_word_goes_alone_unsplit() {
    // a word wider than the budget is returned whole, overflowing silently
    let lines = split_text("supercalifragilisticexpialidocious", 10, char_width);
    assert_eq!(lines, vec!["supercalifragilisticexpialidocious"]);
}

#[test]
fn long_word_between_others() {
    let lines = split_text("an extraordinarily big cat", 7, char_width);
    assert_eq!(lines, vec!["an", "extraordinarily", "big cat"]);
}

#[test]
fn spaces_collapse_at_boundaries() {
    // leading, trailing and doubled spaces never reach the lines
    let lines = split_text("  hello    world  ", 5, char_width);
    assert_eq!(lines, vec!["hello", "world"]);
}

#[test]
fn round_trip_collapses_spacing() {
    // joining the lines with single spaces reads as the input with its
    // whitespace runs collapsed
    let lines = split_text("  one   two three  four ", 9, char_width);
    assert_eq!(lines.join(" "), "one two three four");
}

#[test]
fn rewrap_is_idempotent() {
    let lines = split_text("pack my box with five dozen liquor jugs", 12, char_width);
    assert!(lines.len() > 1);
    for line in &lines {
        let again = split_text(line, 12, char_width);
        assert_eq!(again, vec![line.clone()]);
    }
}

#[test]
fn everything_fits_on_one_line() {
    let lines = split_text("short text", 40, char_width);
    assert_eq!(lines, vec!["short text"]);
}

#[test]
fn each_word_on_its_own_line_at_width_zero() {
    let lines = split_text("one two three", 0, char_width);
    assert_eq!(lines, vec!["one", "two", "three"]);
}

#[test]
fn multibyte_text_wraps_safely() {
    // widths count characters, not bytes: no split ever lands inside a
    // codepoint
    let lines = split_text("héllo wörld naïve", 11, char_width);
    assert_eq!(lines, vec!["héllo wörld", "naïve"]);
}

#[test]
fn exact_fit_keeps_the_boundary_space_out() {
    let lines = split_text("ab cd", 5, char_width);
    assert_eq!(lines, vec!["ab cd"]);
    let lines = split_text("ab cd", 4, char_width);
    assert_eq!(lines, vec!["ab", "cd"]);
}
