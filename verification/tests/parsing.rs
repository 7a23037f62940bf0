use psor_sdk::parse_args;
use psor_sdk::ArgMap;

fn tokens(list: &[&str]) -> Vec<String> {
    list.iter().map(|s| s.to_string()).collect()
}

#[test]
fn splits_on_first_equals() {
    let (map, bad) = parse_args(&tokens(&["endpoint_id=host-1"]));
    assert_eq!(map.get("endpoint_id"), Some(&"host-1".to_string()));
    assert!(bad.is_empty());
}

#[test]
fn value_keeps_later_equals_signs() {
    let (map, bad) = parse_args(&tokens(&["query=a=b=c"]));
    assert_eq!(map.get("query"), Some(&"a=b=c".to_string()));
    assert!(bad.is_empty());
}

#[test]
fn empty_value_and_empty_key() {
    let (map, bad) = parse_args(&tokens(&["flag=", "=orphan"]));
    assert_eq!(map.get("flag"), Some(&"".to_string()));
    assert_eq!(map.get(""), Some(&"orphan".to_string()));
    assert!(bad.is_empty());
}

#[test]
fn malformed_tokens_are_collected_in_order() {
    let (map, bad) = parse_args(&tokens(&["plain", "a=1", "also bad", ""]));
    assert_eq!(map.get("a"), Some(&"1".to_string()));
    assert_eq!(bad, tokens(&["plain", "also bad", ""]));
}

#[test]
fn malformed_token_does_not_break_later_tokens() {
    let (map, bad) = parse_args(&tokens(&["endpoint_id=abc", "badtoken", "endpoint_id=xyz"]));
    assert_eq!(map.get("endpoint_id"), Some(&"xyz".to_string()));
    assert_eq!(bad, tokens(&["badtoken"]));
}

#[test]
fn last_binding_of_a_key_wins() {
    let (map, _) = parse_args(&tokens(&["k=first", "other=1", "k=second", "k=third"]));
    assert_eq!(map.get("k"), Some(&"third".to_string()));
    assert_eq!(map.get("other"), Some(&"1".to_string()));
}

#[test]
fn missing_key_is_a_lookup_failure() {
    let (map, _) = parse_args(&tokens(&["a=1"]));
    assert_eq!(map.get("endpoint_id"), None);
}

#[test]
fn no_tokens_gives_an_empty_map() {
    let (map, bad) = parse_args(&Vec::new());
    assert_eq!(map.get("endpoint_id"), None);
    assert!(bad.is_empty());
}

#[test]
fn insert_shadows_an_earlier_binding() {
    let mut map = ArgMap::new();
    map.insert("k".to_string(), "old".to_string());
    map.insert("k".to_string(), "new".to_string());
    assert_eq!(map.get("k"), Some(&"new".to_string()));
}

#[test]
fn unicode_keys_and_values_survive() {
    let (map, bad) = parse_args(&tokens(&["h\u{00f4}te=caf\u{00e9} \u{2603}"]));
    assert_eq!(map.get("h\u{00f4}te"), Some(&"caf\u{00e9} \u{2603}".to_string()));
    assert!(bad.is_empty());
}
