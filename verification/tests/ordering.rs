use levari::catalog::{natural_order, sort_songs, Song};
use levari::natural::compare_titles;
use std::cmp::Ordering;

fn song(title: &str) -> Song {
    Song { title: title.to_string(), duration: 0, path: 0 }
}

fn titles(songs: &[Song]) -> Vec<String> {
    songs.iter().map(|s| s.title.clone()).collect()
}

fn sorted_titles(input: &[&str]) -> Vec<String> {
    titles(&sort_songs(input.iter().map(|t| song(t)).collect()))
}

#[test]
fn numbers_compare_by_value() {
    assert_eq!(sorted_titles(&["track2", "track10", "track1"]), vec!["track1", "track2", "track10"]);
    assert_eq!(natural_order(&song("track9"), &song("track10")), Ordering::Less);
    assert_eq!(natural_order(&song("track10"), &song("track9")), Ordering::Greater);
}

#[test]
fn letters_decide_before_numbers() {
    assert_eq!(sorted_titles(&["b2", "a10"]), vec!["a10", "b2"]);
    assert_eq!(compare_titles("a10", "b2"), -1);
    assert_eq!(compare_titles("b2", "a10"), 1);
}

#[test]
fn title_without_number_compares_as_text() {
    assert_eq!(natural_order(&song("intro"), &song("track1")), Ordering::Less);
    assert_eq!(natural_order(&song("track1"), &song("intro")), Ordering::Greater);
    assert_eq!(compare_titles("intro", "intro"), 0);
    // As plain text "track10" sorts before "track9x:" only by its characters.
    assert_eq!(compare_titles("zebra", "track10"), 1);
}

#[test]
fn equal_numbers_written_differently_sort_alike_and_keep_their_order() {
    assert_eq!(compare_titles("a01", "a1"), 0);
    assert_eq!(natural_order(&song("a01"), &song("a1")), Ordering::Equal);
    assert_eq!(sorted_titles(&["a1", "a01", "a001"]), vec!["a1", "a01", "a001"]);
    assert_eq!(sorted_titles(&["a001", "a2", "a01", "a1"]), vec!["a001", "a01", "a1", "a2"]);
}

#[test]
fn text_after_the_number_is_ignored() {
    assert_eq!(compare_titles("track3 - intro", "track3 - outro"), 0);
    assert_eq!(compare_titles("track3z", "track12a"), -1);
}

#[test]
fn empty_letters_are_a_key_too() {
    assert_eq!(compare_titles("9", "10"), -1);
    assert_eq!(compare_titles("10 - b", "9 - a"), 1);
    assert_eq!(compare_titles("2", "a1"), -1);
}

#[test]
fn numbers_of_any_length_compare_by_value() {
    assert_eq!(compare_titles("a18446744073709551616", "a2"), 1);
    assert_eq!(compare_titles("a2", "a18446744073709551616"), -1);
    assert_eq!(
        natural_order(&song("a18446744073709551616"), &song("a2")),
        Ordering::Greater
    );
    assert_eq!(compare_titles("a99999999999999999999", "a5"), 1);
    assert_eq!(compare_titles("a18446744073709551615", "a18446744073709551616"), -1);
    assert_eq!(compare_titles("a18446744073709551616", "a18446744073709551616"), 0);
    assert_eq!(
        compare_titles("a100000000000000000000000000001", "a100000000000000000000000000000"),
        1
    );
    assert_eq!(
        compare_titles("a99999999999999999999999999999", "a100000000000000000000000000000"),
        -1
    );
    assert_eq!(
        sorted_titles(&["t340282366920938463463374607431768211456", "t7", "t18446744073709551616"]),
        vec!["t7", "t18446744073709551616", "t340282366920938463463374607431768211456"]
    );
}

#[test]
fn zeros_in_front_do_not_change_a_number() {
    assert_eq!(compare_titles("a007", "a7"), 0);
    assert_eq!(compare_titles("a0", "a000"), 0);
    assert_eq!(compare_titles("a000", "a1"), -1);
    assert_eq!(compare_titles("a010", "a9"), 1);
    assert_eq!(compare_titles("a09", "a10"), -1);
    assert_eq!(compare_titles("a000000000000000000000000000000000000002", "a1"), 1);
    assert_eq!(compare_titles("a000000000000000000000000000000000000002", "a3"), -1);
    assert_eq!(compare_titles("a12", "a13"), -1);
    assert_eq!(compare_titles("a21", "a13"), 1);
    assert_eq!(compare_titles("a1999", "a2000"), -1);
}

#[test]
fn digits_outside_ascii_are_no_number() {
    // U+0663 is a decimal digit, but not one of 0..=9: no key, so plain text order.
    assert_eq!(compare_titles("a\u{0663}", "a5"), 1);
    assert_eq!(compare_titles("a5", "a:"), -1);
    assert_eq!(compare_titles("a:", "a\u{0663}"), -1);
}

#[test]
fn order_is_antisymmetric_and_transitive_on_samples() {
    let samples = [
        "", "a", "a1", "a01", "a10", "a9", "a:", "a/", "ab1", "b", "1", "10", "track", "a1b",
        "a18446744073709551616", "a99999999999999999999",
    ];
    for x in samples.iter() {
        for y in samples.iter() {
            assert_eq!(compare_titles(x, y), -compare_titles(y, x));
            for z in samples.iter() {
                if compare_titles(x, y) <= 0 && compare_titles(y, z) <= 0 {
                    assert!(compare_titles(x, z) <= 0);
                    if compare_titles(x, y) < 0 || compare_titles(y, z) < 0 {
                        assert!(compare_titles(x, z) < 0);
                    }
                }
            }
        }
    }
}

#[test]
fn sorting_keeps_every_song() {
    let sorted = sort_songs(vec![song("b"), song("a2"), song("a10"), song("a2")]);
    assert_eq!(titles(&sorted), vec!["a2", "a2", "a10", "b"]);
    assert_eq!(sort_songs(Vec::new()).len(), 0);
}
