use resource_explorer::json::{double_value, JsonObject, JsonValue};
use resource_explorer::order::{sort_strings, text_le_exec};
use resource_explorer::text::{after_last, contains, decimal, join, starts_with};
use resource_explorer::timestamp::Timestamp;

fn text_of(v: &JsonValue) -> &str {
    match v {
        JsonValue::Str(s) => s.as_str(),
        _ => panic!("not a string"),
    }
}

#[test]
fn later_binding_of_a_key_wins() {
    let mut obj = JsonObject::new();
    assert!(obj.is_empty());
    obj.insert("Name", JsonValue::Str("first".to_string()));
    obj.insert("Other", JsonValue::Bool(true));
    obj.insert("Name", JsonValue::Str("second".to_string()));
    assert_eq!(text_of(obj.get("Name").unwrap()), "second");
    assert!(matches!(obj.get("Other"), Some(JsonValue::Bool(true))));
    assert!(obj.get("Missing").is_none());
    assert!(!obj.is_empty());
}

#[test]
fn optional_inserts_skip_missing_values() {
    let mut obj = JsonObject::new();
    obj.insert_opt_str("A", &None);
    obj.insert_opt_int("B", None);
    obj.insert_opt_bool("C", None);
    assert!(obj.is_empty());
    obj.insert_opt_int("B", Some(-7));
    assert!(matches!(obj.get("B"), Some(JsonValue::Number(-7))));
}

#[test]
fn doubles_keep_finite_values_and_zero_the_rest() {
    let bits = 1.5f64.to_bits();
    assert!(matches!(double_value(bits), JsonValue::FloatBits(b) if b == bits));
    assert!(matches!(double_value(f64::NAN.to_bits()), JsonValue::Number(0)));
    assert!(matches!(double_value(f64::INFINITY.to_bits()), JsonValue::Number(0)));
    assert!(matches!(double_value(f64::NEG_INFINITY.to_bits()), JsonValue::Number(0)));
}

#[test]
fn text_search_and_cutting() {
    assert!(contains("An AccessDeniedException occurred", "AccessDenied"));
    assert!(!contains("Throttled", "AccessDenied"));
    assert!(contains("abc", ""));
    assert!(!contains("", "a"));
    assert!(starts_with("AWS/EC2", "AWS/"));
    assert!(!starts_with("Custom/AWS", "AWS/"));
    assert_eq!(after_last("arn:aws:detective:us-east-1:123:graph/abc", '/'), "abc");
    assert_eq!(after_last("no-slash", '/'), "no-slash");
    assert_eq!(after_last("ends/", '/'), "");
    assert_eq!(resource_explorer::text::concat_text("documentdb-", "123"), "documentdb-123");
}

#[test]
fn decimal_text_of_numbers() {
    assert_eq!(decimal(0), "0");
    assert_eq!(decimal(7), "7");
    assert_eq!(decimal(2557), "2557");
    assert_eq!(decimal(1000), "1000");
}

#[test]
fn joining_with_a_separator() {
    let items = vec!["a=1".to_string(), "b=2".to_string(), "c=3".to_string()];
    assert_eq!(join(&items, ","), "a=1,b=2,c=3");
    assert_eq!(join(&Vec::new(), ","), "");
}

#[test]
fn strings_sort_in_ascending_order() {
    let sorted = sort_strings(vec!["b=2".to_string(), "a=9".to_string(), "ab".to_string(), "a".to_string()]);
    assert_eq!(sorted, vec!["a".to_string(), "a=9".to_string(), "ab".to_string(), "b=2".to_string()]);
    let same = sort_strings(vec!["x".to_string(), "x".to_string()]);
    assert_eq!(same, vec!["x".to_string(), "x".to_string()]);
    assert!(text_le_exec(&"abc".to_string(), &"abd".to_string()));
    assert!(text_le_exec(&"ab".to_string(), &"abc".to_string()));
    assert!(!text_le_exec(&"b".to_string(), &"abc".to_string()));
}

#[test]
fn timestamps_in_rfc3339() {
    let t = Timestamp::from_secs_and_nanos(1_700_000_000, 0);
    assert_eq!(t.secs(), 1_700_000_000);
    assert_eq!(t.subsec_nanos(), 0);
    assert_eq!(t.display_text(), "2023-11-14T22:13:20Z");
    assert_eq!(t.rfc3339_or_empty(), "2023-11-14T22:13:20Z");
    let epoch = Timestamp::from_secs_and_nanos(0, 500_000_000);
    assert_eq!(epoch.rfc3339_or_empty(), "1970-01-01T00:00:00.5Z");
    assert_eq!(epoch.display_text(), epoch.rfc3339_or_empty());
}

#[test]
fn timestamps_beyond_rfc3339_range() {
    let late = Timestamp::from_secs_and_nanos(253_402_300_800, 0);
    assert_eq!(late.rfc3339_or_empty(), "");
    assert_eq!(late.display_text(), "253402300800");
    let last = Timestamp::from_secs_and_nanos(253_402_300_799, 0);
    assert_eq!(last.rfc3339_or_empty(), "9999-12-31T23:59:59Z");
}
