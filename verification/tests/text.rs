use cloud_detect::text::{chars_contain, chars_of, contains, matches_at};

#[test]
fn contains_finds_a_needle_anywhere() {
    assert!(contains("hello world", "hello"));
    assert!(contains("hello world", "o w"));
    assert!(contains("hello world", "world"));
    assert!(contains("hello world", "hello world"));
    assert!(contains("aaab", "aab"));
    assert!(contains("abababc", "ababc"));
}

#[test]
fn contains_rejects_what_is_not_there() {
    assert!(!contains("hello world", "worlds"));
    assert!(!contains("hello world", "hello  world"));
    assert!(!contains("hello", "hello world"));
    assert!(!contains("", "a"));
    assert!(!contains("abab", "abb"));
}

#[test]
fn the_empty_needle_is_in_every_text() {
    assert!(contains("", ""));
    assert!(contains("abc", ""));
}

#[test]
fn contains_works_on_characters_not_bytes() {
    assert!(contains("grüße aus köln", "ße a"));
    assert!(contains("日本語のテキスト", "のテ"));
    assert!(!contains("é", "e"));
    assert!(!contains("日本語", "本日"));
}

#[test]
fn contains_agrees_with_std() {
    let texts = ["", "a", "ab", "ba", "aba", "abab", "Google", "oke-oke", "ECS Virt"];
    for hay in texts {
        for needle in texts {
            assert_eq!(contains(hay, needle), hay.contains(needle), "{hay:?} {needle:?}");
        }
    }
}

#[test]
fn chars_of_lists_the_characters() {
    assert_eq!(chars_of(""), Vec::<char>::new());
    assert_eq!(chars_of("aß日"), vec!['a', 'ß', '日']);
}

#[test]
fn matches_at_looks_at_one_place() {
    let hay = chars_of("abcabc");
    let needle = chars_of("bc");
    assert!(!matches_at(&hay, &needle, 0));
    assert!(matches_at(&hay, &needle, 1));
    assert!(!matches_at(&hay, &needle, 2));
    assert!(matches_at(&hay, &needle, 4));
    assert!(!matches_at(&hay, &needle, 5));
    assert!(!matches_at(&hay, &needle, usize::MAX));
    assert!(matches_at(&hay, &Vec::new(), 6));
    assert!(!matches_at(&hay, &Vec::new(), 7));
    assert!(!matches_at(&needle, &hay, 0));
}

#[test]
fn chars_contain_searches_characters() {
    assert!(chars_contain(&chars_of("abcabc"), &chars_of("cab")));
    assert!(!chars_contain(&chars_of("abcabc"), &chars_of("cc")));
    assert!(!chars_contain(&chars_of("ab"), &chars_of("abc")));
}
