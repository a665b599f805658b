use advanced_traits::lookup::{has_only_known_keys, is_known_key, start_value};

fn entries(pairs: &[(&str, &str)]) -> Vec<(String, String)> {
    pairs.iter().map(|(key, value)| (key.to_string(), value.to_string())).collect()
}

#[test]
fn start_is_read() {
    let map = entries(&[("start", "value")]);
    assert!(has_only_known_keys(&map));
    assert_eq!(start_value(&map), "value");
}

#[test]
fn no_entries_give_the_fallback() {
    let map = entries(&[]);
    assert!(has_only_known_keys(&map));
    assert_eq!(start_value(&map), "Unknown");
}

#[test]
fn no_start_gives_the_fallback() {
    let map = entries(&[("repeat", "daily"), ("message", "hello"), ("remaining", "3")]);
    assert!(has_only_known_keys(&map));
    assert_eq!(start_value(&map), "Unknown");
}

#[test]
fn start_is_found_in_any_place() {
    let first = entries(&[("start", "now"), ("repeat", "daily"), ("message", "hello")]);
    let middle = entries(&[("repeat", "daily"), ("start", "now"), ("message", "hello")]);
    let last = entries(&[("message", "hello"), ("repeat", "daily"), ("start", "now")]);
    assert_eq!(start_value(&first), "now");
    assert_eq!(start_value(&middle), "now");
    assert_eq!(start_value(&last), "now");
}

#[test]
fn last_start_stays() {
    let map = entries(&[("start", "one"), ("repeat", "x"), ("start", "two")]);
    assert_eq!(start_value(&map), "two");
}

#[test]
fn value_is_not_the_key() {
    let map = entries(&[("start", "repeat")]);
    assert_eq!(start_value(&map), "repeat");
    let map = entries(&[("repeat", "start")]);
    assert_eq!(start_value(&map), "Unknown");
}

#[test]
fn the_four_keys_are_known() {
    assert!(is_known_key(&String::from("start")));
    assert!(is_known_key(&String::from("repeat")));
    assert!(is_known_key(&String::from("remaining")));
    assert!(is_known_key(&String::from("message")));
}

#[test]
fn other_keys_are_not_known() {
    assert!(!is_known_key(&String::from("stop")));
    assert!(!is_known_key(&String::from("")));
    assert!(!is_known_key(&String::from("Start")));
    assert!(!is_known_key(&String::from("start ")));
    assert!(!is_known_key(&String::from("value")));
}

#[test]
fn one_unknown_key_is_noticed() {
    assert!(!has_only_known_keys(&entries(&[("start", "a"), ("stop", "b")])));
    assert!(!has_only_known_keys(&entries(&[("colour", "red")])));
    assert!(has_only_known_keys(&entries(&[
        ("start", "a"),
        ("repeat", "b"),
        ("remaining", "c"),
        ("message", "d"),
    ])));
}
