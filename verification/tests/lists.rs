use commit_wizard::{string_vec_map, strings};
use std::collections::BTreeMap;

#[test]
fn strings_macro_works_as_expected() {
    let result = strings(&["hello", "world", "123"]);
    let expected = vec!["hello".to_string(), "world".to_string(), "123".to_string()];
    assert_eq!(result, expected);
}

#[test]
fn string_vec_map_macro_works_as_expected() {
    let result: BTreeMap<String, Vec<String>> =
        string_vec_map(&[("a", &["1", "2"][..]), ("b", &["3", "4"][..])])
            .into_iter()
            .collect();
    let mut expected = BTreeMap::new();
    expected.insert("a".to_string(), vec!["1".to_string(), "2".to_string()]);
    expected.insert("b".to_string(), vec!["3".to_string(), "4".to_string()]);
    assert_eq!(result, expected);
}

#[test]
fn string_vec_map_orders_keys_and_keeps_last_value() {
    let result = string_vec_map(&[("b", &["x"][..]), ("a", &[][..]), ("b", &["y", "z"][..])]);
    assert_eq!(
        result,
        vec![
            ("a".to_string(), Vec::<String>::new()),
            ("b".to_string(), vec!["y".to_string(), "z".to_string()]),
        ]
    );
}

#[test]
fn strings_of_nothing_is_empty() {
    assert!(strings(&[]).is_empty());
}
