use crawl_ingest::segment::{
    chunk_html, extract_first_heading, find_heading_tags, plain_word_count, segment_at,
    spans_valid,
};
use crawl_ingest::text::{byte_length, chars_of, count_words, is_space, slice_bytes, trim};

fn pair(heading: &str, html: &str) -> (String, String) {
    (heading.to_string(), html.to_string())
}

#[test]
fn long_fragment_is_emitted_and_short_tail_is_flushed() {
    let chunks = chunk_html("<h1>A</h1>one two three four five six<h2>B</h2>hi");
    assert_eq!(
        chunks,
        vec![
            pair("A", "<h1>A</h1>one two three four five six"),
            pair("B", "<h2>B</h2>hi"),
        ]
    );
}

#[test]
fn text_without_headings_is_one_chunk() {
    assert_eq!(chunk_html("just text"), vec![pair("", "just text")]);
}

#[test]
fn short_fragments_collapse_into_one_chunk() {
    assert_eq!(
        chunk_html("<h1>A</h1>hi<h2>B</h2>ok"),
        vec![pair("A", "<h1>A</h1>hi <h2>B</h2>ok")]
    );
}

#[test]
fn empty_input_has_no_chunks() {
    assert_eq!(chunk_html(""), Vec::<(String, String)>::new());
}

#[test]
fn leading_text_comes_first_with_empty_heading() {
    let chunks = chunk_html("a b c d e f g<h3>T</h3>one two three four five six seven");
    assert_eq!(
        chunks,
        vec![
            pair("", "a b c d e f g"),
            pair("T", "<h3>T</h3>one two three four five six seven"),
        ]
    );
}

#[test]
fn short_leading_text_is_carried_into_the_next_fragment() {
    let chunks = chunk_html("intro\n<h2>T</h2> one two three four five six <h2>U</h2>end");
    assert_eq!(
        chunks,
        vec![
            pair("T", "intro <h2>T</h2> one two three four five six"),
            pair("U", "<h2>U</h2>end"),
        ]
    );
}

#[test]
fn fragments_are_trimmed() {
    assert_eq!(chunk_html("  \n just text \t"), vec![pair("", "just text")]);
}

#[test]
fn heading_tags_match_in_either_case_and_with_attributes() {
    let html = "<H2 class=\"x\">Über</H2>eins zwei drei vier fünf sechs<h7>no</h7>";
    assert_eq!(find_heading_tags(html), vec![(0, 14)]);
    assert_eq!(
        chunk_html(html),
        vec![pair("Über", "<H2 class=\"x\">Über</H2>eins zwei drei vier fünf sechs<h7>no</h7>")]
    );
}

#[test]
fn heading_tags_are_found_from_left_to_right() {
    assert_eq!(
        find_heading_tags("é<h1>A</h1>hi<h2>B</h2>ok"),
        vec![(2, 6), (14, 18)]
    );
    assert_eq!(find_heading_tags("<h1 no end"), Vec::<(usize, usize)>::new());
}

#[test]
fn segment_at_cuts_at_the_given_spans() {
    let html = "é<h1>A</h1>hi<h2>B</h2>one two three four five six";
    let spans = vec![(2, 6), (14, 18)];
    assert!(spans_valid(html, &spans));
    assert_eq!(
        segment_at(html, &spans),
        vec![pair("A", "é <h1>A</h1>hi <h2>B</h2>one two three four five six")]
    );
    assert_eq!(segment_at(html, &Vec::new()), vec![pair("A", html)]);
}

#[test]
fn spans_valid_refuses_spans_that_cannot_cut() {
    let html = "é<h1>A</h1>";
    assert!(spans_valid(html, &vec![]));
    assert!(spans_valid(html, &vec![(0, 0), (0, 2), (2, 12)]));
    assert!(!spans_valid(html, &vec![(1, 2)]));
    assert!(!spans_valid(html, &vec![(0, 1)]));
    assert!(!spans_valid(html, &vec![(4, 2)]));
    assert!(!spans_valid(html, &vec![(2, 13)]));
    assert!(!spans_valid(html, &vec![(2, 6), (5, 8)]));
}

#[test]
fn first_heading_is_the_first_that_the_tree_holds() {
    assert_eq!(extract_first_heading("<p>x</p><h3>One <b>two</b></h3><h1>Z</h1>"), "One two");
    assert_eq!(extract_first_heading("<p>x</p>"), "");
    assert_eq!(extract_first_heading(""), "");
}

#[test]
fn plain_word_count_ignores_markup() {
    assert_eq!(plain_word_count("<p>one <b>two</b> three</p>"), 3);
    assert_eq!(plain_word_count("<h1>A</h1>hi"), 1);
    assert_eq!(plain_word_count("<p></p>"), 0);
    assert_eq!(plain_word_count(""), 0);
}

#[test]
fn count_words_counts_runs_between_white_space() {
    assert_eq!(count_words(""), 0);
    assert_eq!(count_words("   "), 0);
    assert_eq!(count_words("one"), 1);
    assert_eq!(count_words("  one\ttwo\n three\u{a0}four\u{3000}five "), 5);
    assert_eq!(count_words("a b c d e f"), 6);
}

#[test]
fn count_words_agrees_with_split_whitespace() {
    for s in ["", " ", "a", " a  b ", "x\u{2003}y\u{85}z", "é è\r\nà", "\u{200b}a b"] {
        assert_eq!(count_words(s), s.split_whitespace().count());
    }
}

#[test]
fn is_space_agrees_with_char_is_whitespace() {
    let mut u: u32 = 0;
    while u <= 0x3100 {
        if let Some(c) = char::from_u32(u) {
            assert_eq!(is_space(c), c.is_whitespace());
        }
        u += 1;
    }
    assert!(!is_space('\u{200b}'));
    assert!(!is_space('\u{10ffff}'));
}

#[test]
fn trim_removes_white_space_at_both_ends_only() {
    assert_eq!(trim(""), "");
    assert_eq!(trim(" \t\n"), "");
    assert_eq!(trim("  a b  "), "a b");
    assert_eq!(trim("\u{a0}é è\u{2028}"), "é è");
    assert_eq!(trim("x"), "x");
    for s in ["", " a ", "\n\na  b\t", "\u{3000}x\u{1680}", "é "] {
        assert_eq!(trim(s), s.trim());
    }
}

#[test]
fn chars_of_lists_the_characters() {
    assert_eq!(chars_of(""), Vec::<char>::new());
    assert_eq!(chars_of("aé\u{1f600}"), vec!['a', 'é', '\u{1f600}']);
}

#[test]
fn slice_bytes_cuts_between_byte_offsets() {
    let s = "aé\u{1f600}z";
    assert_eq!(byte_length(s), 8);
    assert_eq!(slice_bytes(s, 0, 8), s);
    assert_eq!(slice_bytes(s, 1, 3), "é");
    assert_eq!(slice_bytes(s, 3, 7), "\u{1f600}");
    assert_eq!(slice_bytes(s, 7, 7), "");
}

#[test]
fn white_space_before_a_heading_is_an_empty_short_fragment() {
    assert_eq!(
        chunk_html("  <h1>A</h1>one two three four five six"),
        vec![pair("A", " <h1>A</h1>one two three four five six")]
    );
    assert_eq!(chunk_html("   "), vec![pair("", "")]);
}
