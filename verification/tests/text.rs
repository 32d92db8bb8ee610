use gardena_exporter::ordered::OrderedMap;
use gardena_exporter::json::Scalar;
use gardena_exporter::text::{compare, join, same, split_once, to_decimal, trim, trim_end, Standing};

#[test]
fn texts_are_compared_by_code_point() {
    assert_eq!(compare("a", "b"), Standing::Before);
    assert_eq!(compare("b", "a"), Standing::After);
    assert_eq!(compare("ab", "a"), Standing::After);
    assert_eq!(compare("", "a"), Standing::Before);
    assert_eq!(compare("z", "\u{e9}"), Standing::Before);
    assert_eq!(compare("\u{e9}", "\u{e9}"), Standing::Same);
    assert!(same("CLOSED", "CLOSED"));
    assert!(!same("CLOSED", "closed"));
}

#[test]
fn trailing_characters_are_cut_off() {
    assert_eq!(trim_end("https://host/v1//", '/'), "https://host/v1");
    assert_eq!(trim_end("https://host/v1", '/'), "https://host/v1");
    assert_eq!(trim_end("///", '/'), "");
    assert_eq!(trim_end("", '/'), "");
}

#[test]
fn white_space_is_cut_off_as_the_standard_library_does() {
    for text in [" a b ", "\t\u{a0}x\u{3000}\n", "", "   ", "x", "\u{200b}y\u{2003}", "\u{85}z"] {
        assert_eq!(trim(text), text.trim());
    }
    for code in 0..0x3100u32 {
        if let Some(c) = char::from_u32(code) {
            let text = format!("{c}m{c}");
            assert_eq!(trim(&text), text.trim());
        }
    }
}

#[test]
fn a_text_is_split_at_the_first_separator() {
    for text in ["a=b", "=b", "a=", "=", "a=b=c", "ab", "", "\u{e9}=\u{fc}=x"] {
        assert_eq!(split_once(text, '='), text.split_once('='));
    }
}

#[test]
fn texts_are_joined_with_a_separator() {
    let parts = vec!["a".to_string(), "b".to_string(), "".to_string()];
    assert_eq!(join(&parts, ", "), "a, b, ");
    assert_eq!(join(&Vec::new(), ", "), "");
    assert_eq!(join(&vec!["only".to_string()], ", "), "only");
}

#[test]
fn numbers_are_written_in_decimal() {
    for number in [0, 7, 10, 42, 1000, 3600, u64::MAX] {
        assert_eq!(to_decimal(number), number.to_string());
    }
}

#[test]
fn a_map_is_walked_in_key_order() {
    let mut map = OrderedMap::new();
    for (key, bits) in [("m", 1), ("b", 2), ("z", 3), ("a", 4), ("m", 5)] {
        map.insert(key.to_string(), Scalar { bits });
    }
    let entries: Vec<(&str, u64)> =
        (0..map.len()).map(|i| (map.key_at(i), map.value_at(i).bits)).collect();
    assert_eq!(entries, vec![("a", 4), ("b", 2), ("m", 5), ("z", 3)]);
    assert_eq!(map.get("q").map(|value| value.bits), None);
    if let Some(value) = map.get_mut("b") {
        value.bits = 9;
    }
    assert_eq!(map.get("b").map(|value| value.bits), Some(9));
    assert!(map.get_mut("c").is_none());
    map.clear();
    assert_eq!(map.len(), 0);
}
