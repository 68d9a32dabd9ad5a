use rs_rrc_client::order::text_precedes;
use rs_rrc_client::ordered_map::OrderedMap;
use rs_rrc_client::text::{
    collect, decimal_of, lowered, same, size_of_text, starts_with, trimmed, white_space,
    without_leading,
};

#[test]
fn white_space_is_what_std_says() {
    for code in 0..=0x10_ffff_u32 {
        if let Some(c) = char::from_u32(code) {
            assert_eq!(white_space(c), c.is_whitespace(), "{:x}", code);
        }
    }
}

#[test]
fn trimming_is_what_std_does() {
    for s in ["", " ", "a", " a ", "\t\u{2003}a b\u{85}\n", "\u{3000}", "a\u{200b}"] {
        assert_eq!(trimmed(s), s.trim());
    }
}

#[test]
fn leading_marks_are_taken_off() {
    assert_eq!(without_leading("##a#", '#'), "a#");
    assert_eq!(without_leading("a", '#'), "a");
    assert_eq!(without_leading("##", '#'), "");
}

#[test]
fn only_ascii_letters_are_lowered() {
    let s = "AbZ[@`{\u{c9}\u{130}9";
    assert_eq!(lowered(s), s.to_ascii_lowercase());
}

#[test]
fn characters_are_collected_in_order() {
    let chars = vec!['a', '\u{e9}', '\u{1f600}', 'z'];
    assert_eq!(collect(&chars, 1, 3), "\u{e9}\u{1f600}");
    assert_eq!(collect(&chars, 2, 2), "");
}

#[test]
fn sizes_are_in_bytes() {
    assert_eq!(size_of_text("a\u{e9}\u{20ac}\u{1f600}"), 1 + 2 + 3 + 4);
}

#[test]
fn comparisons_are_exact() {
    assert!(same("abc", "abc"));
    assert!(!same("abc", "abd"));
    assert!(!same("abc", "ab"));
    assert!(starts_with("nick changed: x", "nick changed:"));
    assert!(!starts_with("nick", "nick changed:"));
    assert!(starts_with("x", ""));
}

#[test]
fn numbers_are_written_in_decimal() {
    for n in [0, 9, 10, 99, 1204, u64::MAX] {
        assert_eq!(decimal_of(n), n.to_string());
    }
}

#[test]
fn the_order_of_strings_is_that_of_std() {
    let words = ["", "a", "ab", "b", "Z", "\u{e9}", "\u{ffff}", "\u{1f600}", "a\0", "a\u{e000}"];
    for a in words {
        for b in words {
            assert_eq!(text_precedes(a, b), a < b, "{:?} {:?}", a, b);
        }
    }
}

#[test]
fn maps_keep_their_keys_in_order() {
    let mut map: OrderedMap<String, String> = OrderedMap::new();
    for key in ["b", "a", "\u{1f600}", "c", "\u{e9}"] {
        assert_eq!(map.insert(key.to_string(), key.to_uppercase()), None);
    }
    assert_eq!(map.insert("a".into(), "x".into()), Some("A".to_string()));
    assert_eq!(map.len(), 5);
    let keys: Vec<&str> = (0..map.len()).map(|i| map.entry(i).0.as_str()).collect();
    assert_eq!(keys, vec!["a", "b", "c", "\u{e9}", "\u{1f600}"]);
    assert_eq!(map.get(&"a".to_string()), Some(&"x".to_string()));
    assert!(map.has(&"b".to_string()));
    assert_eq!(map.remove(&"b".to_string()), Some("B".to_string()));
    assert_eq!(map.remove(&"b".to_string()), None);
    assert!(!map.has(&"b".to_string()));
    let copy = map.clone();
    assert_eq!(copy, map);
    assert_eq!(copy.len(), 4);
}
