use rskm::listing::{list_keys, listing_output};

fn strings(v: &[&str]) -> Vec<String> {
    v.iter().map(|s| s.to_string()).collect()
}

#[test]
fn test_list_keys_filters_and_sorts() {
    let names = strings(&["zeta", "alpha.pub", "alpha", "b.pub.bak", "Beta", ".pub", "mid"]);
    assert_eq!(list_keys(&names), strings(&["Beta", "alpha", "b.pub.bak", "mid", "zeta"]));
}

#[test]
fn test_list_keys_keeps_duplicates_and_orders_prefixes_first() {
    let names = strings(&["ab", "a", "ab", "abc", "é", "z"]);
    assert_eq!(list_keys(&names), strings(&["a", "ab", "ab", "abc", "z", "é"]));
}

#[test]
fn test_list_keys_empty() {
    assert!(list_keys(&Vec::new()).is_empty());
    assert!(list_keys(&strings(&["x.pub"])).is_empty());
}

#[test]
fn test_list_keys_matches_std_sort() {
    let names = strings(&["b", "a\u{10000}", "a\u{ffff}", "A", "aa", "a"]);
    let mut expected: Vec<String> = names.clone();
    expected.sort();
    assert_eq!(list_keys(&names), expected);
}

#[test]
fn test_listing_output() {
    assert_eq!(listing_output(&Vec::new()), "No keys found.\n");
    assert_eq!(listing_output(&strings(&["a", "b"])), "a\nb\n");
}
