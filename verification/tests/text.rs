use pfsense_auto_backup::text::{chars_of, find, line_end, matches_at};

fn chars(text: &str) -> Vec<char> {
    text.chars().collect()
}

#[test]
fn characters_come_out_in_order() {
    assert_eq!(chars_of(""), Vec::<char>::new());
    assert_eq!(chars_of("abc"), vec!['a', 'b', 'c']);
    assert_eq!(chars_of("né日\n"), vec!['n', 'é', '日', '\n']);
}

#[test]
fn pattern_is_matched_only_where_it_stands_whole() {
    let text = chars("abcabc");
    let pattern = chars("bc");
    assert!(!matches_at(&text, &pattern, 0));
    assert!(matches_at(&text, &pattern, 1));
    assert!(!matches_at(&text, &pattern, 2));
    assert!(matches_at(&text, &pattern, 4));
    assert!(!matches_at(&text, &pattern, 5));
    assert!(!matches_at(&text, &pattern, 6));
    assert!(!matches_at(&text, &pattern, 7));
    assert!(!matches_at(&pattern, &text, 0));
}

#[test]
fn empty_pattern_stands_everywhere_within_the_text() {
    let text = chars("ab");
    let nothing = chars("");
    assert!(matches_at(&text, &nothing, 0));
    assert!(matches_at(&text, &nothing, 2));
    assert!(!matches_at(&text, &nothing, 3));
    assert!(matches_at(&nothing, &nothing, 0));
}

#[test]
fn search_finds_the_first_place_from_the_start_given() {
    let text = chars("abcabcab");
    let pattern = chars("ab");
    assert_eq!(find(&text, &pattern, 0), Some(0));
    assert_eq!(find(&text, &pattern, 1), Some(3));
    assert_eq!(find(&text, &pattern, 3), Some(3));
    assert_eq!(find(&text, &pattern, 4), Some(6));
    assert_eq!(find(&text, &pattern, 6), Some(6));
    assert_eq!(find(&text, &pattern, 7), None);
    assert_eq!(find(&text, &pattern, 8), None);
    assert_eq!(find(&text, &pattern, 100), None);
    assert_eq!(find(&text, &chars("abd"), 0), None);
    assert_eq!(find(&pattern, &text, 0), None);
}

#[test]
fn search_agrees_with_the_standard_one() {
    let texts = ["", "a", "aaa", "abab", "xxabxxab", "日本語日本", "ab\nab"];
    let patterns = ["", "a", "ab", "b", "aa", "日本", "\n", "abc"];
    for text in texts {
        for pattern in patterns {
            let text_chars = chars(text);
            let pattern_chars = chars(pattern);
            for from in 0..=text_chars.len() + 1 {
                let expected = (from..=text_chars.len()).find(|&at| {
                    at + pattern_chars.len() <= text_chars.len()
                        && text_chars[at..at + pattern_chars.len()] == pattern_chars[..]
                });
                assert_eq!(find(&text_chars, &pattern_chars, from), expected);
            }
        }
    }
}

#[test]
fn line_ends_at_the_next_line_feed_or_with_the_text() {
    let text = chars("ab\ncd\n\nef");
    assert_eq!(line_end(&text, 0), 2);
    assert_eq!(line_end(&text, 2), 2);
    assert_eq!(line_end(&text, 3), 5);
    assert_eq!(line_end(&text, 6), 6);
    assert_eq!(line_end(&text, 7), 9);
    assert_eq!(line_end(&text, 9), 9);
    assert_eq!(line_end(&chars(""), 0), 0);
    assert_eq!(line_end(&chars("a\rb"), 0), 3);
    assert_eq!(line_end(&text, 10), 9);
    assert_eq!(line_end(&text, 1000), 9);
}
