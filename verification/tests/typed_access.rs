use serde::Deserialize;
use serde_json::Value;
use values_map::metadata::{required_outcome, typed_outcome};
use values_map::{MetadataExt, ValuesError, ValuesMap, ValuesMapBuilder};

fn sample() -> ValuesMap {
    let mut builder = ValuesMapBuilder::new();
    builder
        .string("name", "alice")
        .string_array("tags", &["a", "b"])
        .entry("age", Value::from(30))
        .entry("active", Value::from(true));
    builder.build()
}

fn metadata_message(err: ValuesError) -> String {
    match err {
        ValuesError::MetadataError(message) => message,
        other => panic!("expected a metadata error, got {:?}", other),
    }
}

#[test]
fn built_map_gives_back_typed_values() {
    let mut builder = ValuesMapBuilder::new();
    builder.string("name", "alice").string_array("tags", &["a", "b"]);
    let map = builder.build();

    let name: String = map.require_typed("name").unwrap();
    assert_eq!(name, "alice");
    let tags: Vec<String> = map.require_typed("tags").unwrap();
    assert_eq!(tags, vec!["a".to_owned(), "b".to_owned()]);
    let missing = map.require_typed::<i64>("missing").unwrap_err();
    assert!(metadata_message(missing).contains("\"missing\""));
}

#[test]
fn get_value_finds_what_the_map_holds() {
    let map = sample();
    assert_eq!(map.get_value("name"), Some(&Value::String("alice".to_owned())));
    assert_eq!(map.get_value("age"), Some(&Value::from(30)));
    assert_eq!(map.get_value("missing"), None);
    assert_eq!(map.get_value("Name"), None);
}

#[test]
fn get_value_on_an_empty_map_finds_nothing() {
    let map: ValuesMap = ValuesMap::new();
    assert_eq!(map.get_value("name"), None);
    assert_eq!(map.get_value(""), None);
}

#[test]
fn get_typed_on_an_absent_key_is_empty_not_a_failure() {
    let map = sample();
    assert_eq!(map.get_typed::<String>("missing").unwrap(), None);
    assert_eq!(map.get_typed::<i64>("missing").unwrap(), None);
    assert_eq!(map.get_typed::<Vec<String>>("missing").unwrap(), None);
    let empty: ValuesMap = ValuesMap::new();
    assert_eq!(empty.get_typed::<bool>("anything").unwrap(), None);
}

#[test]
fn get_typed_reads_a_present_value() {
    let map = sample();
    assert_eq!(map.get_typed::<String>("name").unwrap(), Some("alice".to_owned()));
    assert_eq!(map.get_typed::<i64>("age").unwrap(), Some(30));
    assert_eq!(map.get_typed::<u8>("age").unwrap(), Some(30));
    assert_eq!(map.get_typed::<bool>("active").unwrap(), Some(true));
    assert_eq!(
        map.get_typed::<Vec<String>>("tags").unwrap(),
        Some(vec!["a".to_owned(), "b".to_owned()])
    );
    assert_eq!(
        map.get_typed::<Value>("tags").unwrap(),
        Some(Value::Array(vec![Value::from("a"), Value::from("b")]))
    );
}

#[test]
fn get_typed_can_borrow_from_the_map() {
    let map = sample();
    let name: Option<&str> = map.get_typed("name").unwrap();
    assert_eq!(name, Some("alice"));
}

#[test]
fn get_typed_of_a_null_value_as_an_option_is_present_and_empty() {
    let mut builder = ValuesMapBuilder::new();
    builder.entry("maybe", Value::Null);
    let map = builder.build();
    assert_eq!(map.get_typed::<Option<String>>("maybe").unwrap(), Some(None));
}

#[test]
fn get_typed_on_a_mismatched_value_is_an_invalid_value_error() {
    let map = sample();
    let expected_detail =
        format!("{:?}", i64::deserialize(&Value::String("alice".to_owned())).unwrap_err());
    let message = metadata_message(map.get_typed::<i64>("name").unwrap_err());
    assert_eq!(message, format!("invalid value for \"name\": {}", expected_detail));
    assert!(message.starts_with("invalid value for \"name\": Error("));
    assert!(message.contains("invalid type"));
}

#[test]
fn get_typed_of_a_number_out_of_range_is_an_invalid_value_error() {
    let mut builder = ValuesMapBuilder::new();
    builder.entry("big", Value::from(300));
    let map = builder.build();
    let message = metadata_message(map.get_typed::<u8>("big").unwrap_err());
    assert!(message.starts_with("invalid value for \"big\": "));
}

#[test]
fn require_typed_on_an_absent_key_is_a_missing_required_error() {
    let map = sample();
    let message = metadata_message(map.require_typed::<i64>("missing").unwrap_err());
    assert_eq!(message, "missing required \"missing\"");
    let message = metadata_message(map.require_typed::<String>("").unwrap_err());
    assert_eq!(message, "missing required \"\"");
}

#[test]
fn require_typed_quotes_and_escapes_the_key() {
    let map = sample();
    let message = metadata_message(map.require_typed::<String>("a \"b\"\n").unwrap_err());
    assert_eq!(message, "missing required \"a \\\"b\\\"\\n\"");
}

#[test]
fn require_typed_reads_a_present_value() {
    let map = sample();
    assert_eq!(map.require_typed::<String>("name").unwrap(), "alice");
    assert_eq!(map.require_typed::<i64>("age").unwrap(), 30);
    assert_eq!(map.require_typed::<bool>("active").unwrap(), true);
}

#[test]
fn require_typed_on_a_mismatched_value_is_an_invalid_value_error() {
    let map = sample();
    let expected_detail = format!(
        "{:?}",
        String::deserialize(&Value::Array(vec![Value::from("a"), Value::from("b")])).unwrap_err()
    );
    let message = metadata_message(map.require_typed::<String>("tags").unwrap_err());
    assert_eq!(message, format!("invalid value for \"tags\": {}", expected_detail));
}

#[test]
fn typed_outcome_of_an_absent_key_is_empty() {
    let outcome = typed_outcome::<i64>("k", None);
    assert_eq!(outcome.unwrap(), None);
}

#[test]
fn typed_outcome_of_a_read_value_holds_it() {
    let outcome = typed_outcome("k", Some(Ok(5i64)));
    assert_eq!(outcome.unwrap(), Some(5));
}

#[test]
fn typed_outcome_of_an_unreadable_value_names_key_and_detail() {
    let outcome = typed_outcome::<i64>("k", Some(Err("not a number".to_owned())));
    assert_eq!(
        metadata_message(outcome.unwrap_err()),
        "invalid value for \"k\": not a number"
    );
}

#[test]
fn required_outcome_of_a_found_value_is_the_value() {
    assert_eq!(required_outcome("k", Some(5i64)).unwrap(), 5);
}

#[test]
fn required_outcome_of_nothing_is_a_missing_required_error() {
    let outcome = required_outcome::<i64>("k", None);
    assert_eq!(metadata_message(outcome.unwrap_err()), "missing required \"k\"");
}
