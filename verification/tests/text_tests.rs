use blast::text::{chars_of, join_str, copy_string, first_index, prefix_of, str_eq, string_from_chars, suffix_from};

#[test]
fn strings_from_characters() {
    assert_eq!(string_from_chars(&['a', 'é', 'z']), "aéz");
    assert_eq!(string_from_chars(&[]), "");
}

#[test]
fn characters_of_strings() {
    assert_eq!(chars_of("héllo"), vec!['h', 'é', 'l', 'l', 'o']);
    assert_eq!(join_str("ab", "cd"), "abcd");
    assert!(str_eq("same", "same"));
    assert!(!str_eq("same", "sane"));
    assert!(!str_eq("a", "ab"));
    assert_eq!(copy_string(&String::from("x")), "x");
}

#[test]
fn index_prefix_suffix() {
    let v = chars_of("host:9735:x");
    assert_eq!(first_index(&v, ':'), 4);
    assert_eq!(first_index(&v, '#'), v.len());
    assert_eq!(prefix_of(&v, 4), chars_of("host"));
    assert_eq!(suffix_from(&v, 5), chars_of("9735:x"));
}
