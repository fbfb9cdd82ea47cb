use std::ops::Range;

use mio_gui::{begin_wrap, explicit_line_ranges};

/// Breaks `text` into lines, measuring a stretch by its number of characters.
fn wrap(text: &str, limit: Option<usize>) -> Vec<Range<usize>> {
    let mut breaker = begin_wrap(text, limit.is_some());
    loop {
        match breaker.candidate() {
            None => return breaker.emitted_lines(),
            Some(range) => {
                let fits = text[range].chars().count() <= limit.unwrap();
                if let Some(lines) = breaker.step(fits) {
                    return lines;
                }
            }
        }
    }
}

fn pieces<'a>(text: &'a str, lines: &[Range<usize>]) -> Vec<&'a str> {
    lines.iter().map(|line| &text[line.clone()]).collect()
}

#[test]
fn wrapping_preserves_grapheme_boundaries_and_source_order() {
    let text = "می‌روم خانه";
    let lines = wrap(text, Some(4));
    assert!(lines.len() > 1);
    assert!(lines.windows(2).all(|pair| pair[0].end == pair[1].start));
    assert_eq!(lines.first().unwrap().start, 0);
    assert_eq!(lines.last().unwrap().end, text.len());
    assert!(lines.iter().all(|line| text.is_char_boundary(line.start) && text.is_char_boundary(line.end)));
}

#[test]
fn explicit_lines_split_at_line_feeds() {
    assert_eq!(explicit_line_ranges("a\nbc"), vec![0..1, 2..4]);
    assert_eq!(explicit_line_ranges(""), vec![0..0]);
    assert_eq!(explicit_line_ranges("\n"), vec![0..0, 1..1]);
    assert_eq!(explicit_line_ranges("é\n\nz"), vec![0..2, 3..3, 4..5]);
}

#[test]
fn unbounded_wrapping_keeps_the_paragraphs() {
    let text = "one two\n\nthree";
    assert_eq!(wrap(text, None), vec![0..7, 8..8, 9..14]);
    assert_eq!(wrap(text, None), explicit_line_ranges(text));
}

#[test]
fn wrapping_breaks_after_the_last_white_space_that_fitted() {
    let text = "one two three";
    let lines = wrap(text, Some(5));
    assert_eq!(pieces(text, &lines), vec!["one ", "two ", "three"]);
}

#[test]
fn a_line_without_white_space_breaks_where_it_stops_fitting() {
    let text = "abcdefg";
    let lines = wrap(text, Some(3));
    assert_eq!(pieces(text, &lines), vec!["abc", "def", "g"]);
}

#[test]
fn the_first_two_clusters_stay_on_a_line_even_when_too_wide() {
    let text = "abc";
    let lines = wrap(text, Some(0));
    assert_eq!(pieces(text, &lines), vec!["ab", "c"]);
}

#[test]
fn empty_paragraphs_wrap_to_empty_lines() {
    let text = "\nab\n";
    assert_eq!(wrap(text, Some(10)), vec![0..0, 1..3, 4..4]);
    assert_eq!(wrap("", Some(10)), vec![0..0]);
}

#[test]
fn wrapping_keeps_grapheme_clusters_whole() {
    let text = "e\u{301}e\u{301}e\u{301}";
    let lines = wrap(text, Some(2));
    assert_eq!(pieces(text, &lines), vec!["e\u{301}e\u{301}", "e\u{301}"]);
}
