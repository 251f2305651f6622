use rustbook::hashmaps::{
    accessing_values_in_a_hashmap, count_words, create_new_hashmap,
    generating_hashmap_using_iterators, hashmaps_and_ownerships, inserting_if_key_has_no_value,
    is_white_space_char, overwriting_value, split_words, updating_based_on_old_value, word_counts,
};
use rustbook::string_map::StringMap;

fn entries(m: &StringMap<i32>) -> Vec<(String, i32)> {
    (0..m.len()).map(|i| { let (k, v) = m.entry_at(i); (k.clone(), *v) }).collect()
}

fn pairs(v: &[(&str, i32)]) -> Vec<(String, i32)> {
    v.iter().map(|(k, n)| (k.to_string(), *n)).collect()
}

#[test]
fn white_space_agrees_with_std() {
    for code in 0u32..=0x10FFFF {
        if let Some(c) = char::from_u32(code) {
            assert_eq!(is_white_space_char(c), c.is_whitespace(), "{:x}", code);
        }
    }
}

#[test]
fn split_words_agrees_with_std() {
    for t in [
        "hello world wonderful world",
        "",
        "   ",
        "  lead and trail  ",
        "tab\tnew\nline\r\nend",
        "one",
        "a\u{3000}b\u{a0}c",
    ] {
        let expected: Vec<String> = t.split_whitespace().map(|s| s.to_string()).collect();
        assert_eq!(split_words(t), expected, "{:?}", t);
    }
}

#[test]
fn counting_words() {
    let m = updating_based_on_old_value();
    assert_eq!(entries(&m), pairs(&[("hello", 1), ("world", 2), ("wonderful", 1)]));
    let m = word_counts("a b a  c a\nb");
    assert_eq!(entries(&m), pairs(&[("a", 3), ("b", 2), ("c", 1)]));
    assert_eq!(word_counts("").len(), 0);
    let ws: Vec<String> = vec!["x".into(), "x".into()];
    assert_eq!(entries(&count_words(&ws)), pairs(&[("x", 2)]));
}

#[test]
fn team_scores() {
    assert_eq!(entries(&create_new_hashmap()), pairs(&[("Blue", 10), ("Yellow", 50)]));
    assert_eq!(entries(&generating_hashmap_using_iterators()), pairs(&[("Blue", 10), ("Yellow", 50)]));
    assert_eq!(accessing_values_in_a_hashmap(), Some(10));
    assert_eq!(entries(&overwriting_value()), pairs(&[("Blue", 25)]));
    assert_eq!(entries(&inserting_if_key_has_no_value()), pairs(&[("Blue", 10), ("Yellow", 50)]));
    let m = hashmaps_and_ownerships();
    assert_eq!(m.get(&String::from("Favorite color")), Some(&String::from("Blue")));
    assert_eq!(m.len(), 1);
}

#[test]
fn string_map_operations() {
    let mut m: StringMap<i32> = StringMap::new();
    assert_eq!(m.get(&String::from("k")), None);
    m.insert(String::from("k"), 1);
    m.insert(String::from("j"), 2);
    m.insert(String::from("k"), 3);
    assert_eq!(entries(&m), pairs(&[("k", 3), ("j", 2)]));
    m.or_insert(String::from("j"), 9);
    m.or_insert(String::from("z"), 9);
    assert_eq!(entries(&m), pairs(&[("k", 3), ("j", 2), ("z", 9)]));
    assert!(m.contains_key(&String::from("z")));
    assert!(!m.contains_key(&String::from("Z")));
}
