use levari::natural::{key_of, key_pattern};
use levari::text::{chars_of, compare_text, has_prefix, same_text};

fn wd(s: &str) -> Vec<char> {
    s.chars().collect()
}

#[test]
fn characters_come_out_in_order() {
    assert_eq!(chars_of("abc"), vec!['a', 'b', 'c']);
    assert_eq!(chars_of(""), Vec::<char>::new());
    assert_eq!(chars_of("h\u{e9}llo \u{1f3b5}"), vec!['h', '\u{e9}', 'l', 'l', 'o', ' ', '\u{1f3b5}']);
}

#[test]
fn text_compares_by_the_first_difference() {
    assert_eq!(compare_text(&wd("abc"), &wd("abd")), -1);
    assert_eq!(compare_text(&wd("abd"), &wd("abc")), 1);
    assert_eq!(compare_text(&wd("abc"), &wd("abc")), 0);
    assert_eq!(compare_text(&wd(""), &wd("")), 0);
    assert_eq!(compare_text(&wd(""), &wd("a")), -1);
    assert_eq!(compare_text(&wd("ab"), &wd("abc")), -1);
    assert_eq!(compare_text(&wd("abc"), &wd("ab")), 1);
    assert_eq!(compare_text(&wd("Z"), &wd("a")), -1);
    assert_eq!(compare_text(&wd("z"), &wd("\u{e9}")), -1);
}

#[test]
fn text_order_agrees_with_the_order_of_strings() {
    let samples = ["", "a", "ab", "b", "B", "a1", "a10", "a9", "\u{e9}", "z\u{1f3b5}", "zz"];
    for x in samples.iter() {
        for y in samples.iter() {
            let expected = match x.cmp(y) {
                std::cmp::Ordering::Less => -1,
                std::cmp::Ordering::Equal => 0,
                std::cmp::Ordering::Greater => 1,
            };
            assert_eq!(compare_text(&wd(x), &wd(y)), expected, "{:?} {:?}", x, y);
        }
    }
}

#[test]
fn prefixes_and_equal_texts_are_told() {
    assert!(has_prefix(&wd("cover.jpg"), &wd("cover.")));
    assert!(has_prefix(&wd("cover."), &wd("cover.")));
    assert!(has_prefix(&wd("x"), &wd("")));
    assert!(!has_prefix(&wd("cover"), &wd("cover.")));
    assert!(!has_prefix(&wd("xcover."), &wd("cover.")));
    assert!(same_text(&wd("mp3"), &wd("mp3")));
    assert!(same_text(&wd(""), &wd("")));
    assert!(!same_text(&wd("mp3"), &wd("mp")));
    assert!(!same_text(&wd("mp"), &wd("mp3")));
    assert!(!same_text(&wd("mp3"), &wd("mp4")));
}

#[test]
fn key_is_the_leading_letters_and_the_digits_after_them() {
    assert_eq!(key_of("track10"), Some((wd("track"), wd("10"))));
    assert_eq!(key_of("track007 - theme"), Some((wd("track"), wd("007"))));
    assert_eq!(key_of("12 monkeys"), Some((wd(""), wd("12"))));
    assert_eq!(key_of("Disc2Track3"), Some((wd("Disc"), wd("2"))));
    assert_eq!(
        key_of("a99999999999999999999"),
        Some((wd("a"), wd("99999999999999999999")))
    );
    assert_eq!(key_of("intro"), None);
    assert_eq!(key_of(""), None);
    assert_eq!(key_of("track 1"), None);
    assert_eq!(key_of("-1"), None);
    assert_eq!(key_of("\u{e9}1"), None);
    assert_eq!(key_of("a\u{0663}"), None);
    assert_eq!(key_pattern(), "^([A-Za-z]*)([0-9]+)");
}
