use imagind::arguments::{has_distinct_names, unshadowed};
use imagind::JsonValue;

fn entry(name: &str, text: &str) -> (String, JsonValue) {
    (name.to_string(), JsonValue::Text(text.to_string()))
}

#[test]
fn names_are_distinct_where_none_occurs_twice() {
    assert!(has_distinct_names(&vec![]));
    assert!(has_distinct_names(&vec![entry("a", "1")]));
    assert!(has_distinct_names(&vec![entry("a", "1"), entry("b", "1"), entry("A", "1")]));
    assert!(!has_distinct_names(&vec![entry("a", "1"), entry("a", "1")]));
    assert!(!has_distinct_names(&vec![entry("a", "1"), entry("b", "2"), entry("a", "3")]));
    assert!(!has_distinct_names(&vec![entry("b", "1"), entry("a", "2"), entry("a", "3")]));
}

#[test]
fn unshadowed_keeps_the_last_entry_of_each_name() {
    assert_eq!(unshadowed(&vec![]), vec![]);
    assert_eq!(
        unshadowed(&vec![entry("a", "1"), entry("b", "2"), entry("a", "3")]),
        vec![entry("b", "2"), entry("a", "3")]
    );
    assert_eq!(
        unshadowed(&vec![entry("a", "1"), entry("a", "2"), entry("a", "3")]),
        vec![entry("a", "3")]
    );
}

#[test]
fn unshadowed_copies_entries_of_distinct_names_as_they_are() {
    let entries = vec![entry("z", "1"), entry("a", "2"), entry("m", "3")];
    assert_eq!(unshadowed(&entries), entries);
    assert!(has_distinct_names(&unshadowed(&entries)));
}
