use hana_vm::interned_string_map::InternedStringMap;

#[test]
fn interning_dedup() {
    let mut m = InternedStringMap::new();
    let h1 = m.get_or_insert("hello");
    let h2 = m.get_or_insert("hello");
    assert_eq!(h1, Some(0));
    assert_eq!(h1, h2);
    assert_eq!(m.get_or_insert("world"), Some(1));
    assert_eq!(m.get_or_insert("hello"), Some(0));
}

#[test]
fn interning_rejects_lengths_outside_range() {
    let mut m = InternedStringMap::new();
    assert_eq!(m.get_or_insert("a"), None);
    assert_eq!(m.get_or_insert(""), None);
    assert_eq!(m.get_or_insert("abcdefghijklmnopqrstuvwxy"), None);
    assert_eq!(m.get_or_insert("abcdefghijklmnopqrst"), None);
    assert_eq!(m.get_or_insert("abcdefghijklmnopqrs"), Some(0));
    assert_eq!(m.get_or_insert("ab"), Some(1));
    assert_eq!(m.get(2), None);
}

#[test]
fn interning_counts_utf8_bytes() {
    let mut m = InternedStringMap::new();
    // one character, two bytes
    assert_eq!(m.get_or_insert("\u{e9}"), Some(0));
    // ten characters, twenty bytes
    let long = "\u{e9}".repeat(10);
    assert_eq!(m.get_or_insert(&long), None);
}

#[test]
fn interning_immutability() {
    let mut m = InternedStringMap::new();
    let h = m.get_or_insert("first").unwrap();
    for i in 0..100u32 {
        let s = format!("s{}", i);
        m.get_or_insert(&s);
    }
    assert_eq!(m.get(h).unwrap().as_str(), "first");
    assert_eq!(m.get_unchecked(h).as_str(), "first");
    let h99 = m.get_or_insert("s99").unwrap();
    assert_eq!(m.get(h99).unwrap().as_str(), "s99");
}
