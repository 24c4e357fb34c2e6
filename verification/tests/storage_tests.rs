use pam_args::storage::{
    DefaultKeyValueStore, FromArgValue, KeyValueStore, KeyValueStoreExt, NonArgTextStore,
};
use pam_args::{AllowedKeyValueFormats, Error};

#[test]
fn test_default_store_creation() {
    let store = DefaultKeyValueStore::new(true);
    assert!(store.is_empty());
}

#[test]
fn test_default_store_add_get() {
    let mut store = DefaultKeyValueStore::new(true);
    store.add("KEY", Some("value"));
    assert_eq!(store.get("KEY"), Some("value"));
}

#[test]
fn test_default_store_case_sensitivity() {
    // Case-sensitive store
    let mut store = DefaultKeyValueStore::new(true);
    store.add("KEY", Some("value"));
    assert_eq!(store.get("KEY"), Some("value"));
    assert_eq!(store.get("key"), None);

    // Case-insensitive store
    let mut store = DefaultKeyValueStore::new(false);
    store.add("KEY", Some("value"));
    assert_eq!(store.get("KEY"), Some("value"));
    assert_eq!(store.get("key"), Some("value"));
}

#[test]
fn test_default_store_key_only() {
    let mut store = DefaultKeyValueStore::new(true);
    store.add("DEBUG", None);
    assert_eq!(store.get("DEBUG"), None);
    assert!(store.has_key("DEBUG"));
}

#[test]
fn test_default_store_key_equals() {
    let mut store = DefaultKeyValueStore::new(true);
    store.add("EMPTY", Some(""));
    assert_eq!(store.get("EMPTY"), Some(""));
    assert!(store.has_key("EMPTY"));
}

#[test]
fn test_default_store_keys() {
    let mut store = DefaultKeyValueStore::new(true);
    store.add("KEY1", Some("value1"));
    store.add("KEY2", Some("value2"));

    let keys = store.keys();
    assert_eq!(keys.len(), 2);
    assert!(keys.contains(&"KEY1"));
    assert!(keys.contains(&"KEY2"));
}

#[test]
fn test_default_store_value_of() {
    let mut store = DefaultKeyValueStore::new(true);
    store.add("PORT", Some("8080"));

    assert_eq!(store.value_of::<i32>("PORT"), Some(8080));
    assert_eq!(store.value_of::<String>("PORT"), Some("8080".to_string()));
    assert_eq!(store.value_of::<i32>("UNKNOWN"), None);
}

#[test]
fn test_default_store_clear() {
    let mut store = DefaultKeyValueStore::new(true);
    store.add("KEY", Some("value"));
    assert!(!store.is_empty());

    store.clear();
    assert!(store.is_empty());
}

#[test]
fn test_non_arg_text_store() {
    let mut store = NonArgTextStore::new();
    assert!(store.is_empty());

    store.add("Text 1");
    assert_eq!(store.len(), 1);
    assert_eq!(store.texts(), &["Text 1"]);

    store.add_multiple(vec!["Text 2", "Text 3"]);
    assert_eq!(store.len(), 3);
    assert_eq!(store.texts(), &["Text 1", "Text 2", "Text 3"]);

    store.clear();
    assert!(store.is_empty());
}

#[test]
fn test_from_arg_value_string() {
    let result = String::from_arg_value("test");
    assert!(result.is_ok());
    assert_eq!(result.unwrap(), "test");
}

#[test]
fn test_from_arg_value_i32() {
    let result = i32::from_arg_value("123");
    assert!(result.is_ok());
    assert_eq!(result.unwrap(), 123);

    let result = i32::from_arg_value("abc");
    assert!(result.is_err());
    assert!(matches!(result.unwrap_err(), Error::InvalidIntValue(_)));
}

#[test]
fn test_from_arg_value_bool() {
    // Test true values
    for value in &["true", "yes", "1", "on"] {
        let result = bool::from_arg_value(value);
        assert!(result.is_ok());
        assert_eq!(result.unwrap(), true);
    }

    // Test false values
    for value in &["false", "no", "0", "off"] {
        let result = bool::from_arg_value(value);
        assert!(result.is_ok());
        assert_eq!(result.unwrap(), false);
    }

    // Test invalid value
    let result = bool::from_arg_value("invalid");
    assert!(result.is_err());
    assert!(matches!(result.unwrap_err(), Error::InvalidBoolValue(_)));
}

#[test]
fn test_from_arg_value_char() {
    let result = char::from_arg_value("a");
    assert!(result.is_ok());
    assert_eq!(result.unwrap(), 'a');

    let result = char::from_arg_value("abc");
    assert!(result.is_err());
    assert!(matches!(result.unwrap_err(), Error::InvalidInput(_)));
}

#[test]
fn test_from_arg_value_option() {
    let result = Option::<i32>::from_arg_value("123");
    assert!(result.is_ok());
    assert_eq!(result.unwrap(), Some(123));

    let result = Option::<i32>::from_arg_value("");
    assert!(result.is_ok());
    assert_eq!(result.unwrap(), None);
}

#[test]
fn test_key_value_store_ext() {
    let mut store = DefaultKeyValueStore::new(true);
    store.add("PORT", Some("8080"));

    // Use the extension trait method
    let port: Option<i32> = KeyValueStoreExt::value_of(&store, "PORT");
    assert_eq!(port, Some(8080));
}

#[test]
fn test_storage_integration() {
    // Create a case-insensitive key-value store
    let mut kv_store = DefaultKeyValueStore::new(false);

    // Add key-value pairs in different formats
    kv_store.add("USER", Some("admin")); // KEY_VALUE format
    kv_store.add("FLAG", None); // KEY_ONLY format
    kv_store.add("EMPTY", Some("")); // KEY_EQUALS format

    // Check for key existence
    assert!(kv_store.has_key("user")); // Case-insensitive lookup
    assert!(kv_store.has_key("FLAG"));
    assert!(kv_store.has_key("empty"));

    // Retrieve values
    assert_eq!(kv_store.get("USER"), Some("admin"));
    assert_eq!(kv_store.get("user"), Some("admin")); // Case-insensitive
    assert_eq!(kv_store.get("FLAG"), None); // KEY_ONLY has no value
    assert_eq!(kv_store.get("EMPTY"), Some("")); // KEY_EQUALS has empty value

    // Type conversion
    kv_store.add("PORT", Some("8080"));
    assert_eq!(kv_store.value_of::<i32>("PORT"), Some(8080));

    // Create a non-argument text store
    let mut text_store = NonArgTextStore::new();

    // Add non-argument text
    text_store.add("This is some text");
    text_store.add_multiple(vec!["More text", "Even more text"]);

    // Retrieve non-argument text
    assert_eq!(text_store.texts(), &["This is some text", "More text", "Even more text"]);

    // Using FromArgValue trait
    let port_value = "8080";
    let port = i32::from_arg_value(port_value).unwrap();
    assert_eq!(port, 8080);

    let bool_value = "true";
    let flag = bool::from_arg_value(bool_value).unwrap();
    assert!(flag);
}

#[test]
fn storage_tests_test_format_compatibility() {
    // Test compatibility between different key-value formats
    let key_value_format = AllowedKeyValueFormats::KeyValue;
    let key_only_format = AllowedKeyValueFormats::KeyOnly;
    let key_equals_format = AllowedKeyValueFormats::KeyEquals;
    let key_all_format = AllowedKeyValueFormats::KeyAll;

    // KeyAll is compatible with all formats
    assert!(key_all_format.is_compatible_with(key_value_format));
    assert!(key_all_format.is_compatible_with(key_only_format));
    assert!(key_all_format.is_compatible_with(key_equals_format));

    // Other formats are only compatible with themselves
    assert!(key_value_format.is_compatible_with(key_value_format));
    assert!(!key_value_format.is_compatible_with(key_only_format));
    assert!(!key_value_format.is_compatible_with(key_equals_format));

    // Test compatibility with a list of formats
    let formats = vec![key_value_format, key_only_format];
    assert!(key_all_format.is_compatible_with_any(&formats));
    assert!(key_value_format.is_compatible_with_any(&formats));
    assert!(key_only_format.is_compatible_with_any(&formats));
    assert!(!key_equals_format.is_compatible_with_any(&formats));
}

#[test]
fn test_from_arg_value_error_handling() {
    // Test error handling for FromArgValue implementations

    // Invalid integer
    let result = i32::from_arg_value("not_a_number");
    assert!(result.is_err());
    match result {
        Err(Error::InvalidIntValue(val)) => assert_eq!(val, "not_a_number"),
        _ => panic!("Expected InvalidIntValue error"),
    }

    // Invalid boolean
    let result = bool::from_arg_value("maybe");
    assert!(result.is_err());
    match result {
        Err(Error::InvalidBoolValue(val)) => assert_eq!(val, "maybe"),
        _ => panic!("Expected InvalidBoolValue error"),
    }

    // Invalid character
    let result = char::from_arg_value("abc");
    assert!(result.is_err());
    match result {
        Err(Error::InvalidInput(_)) => (),
        _ => panic!("Expected InvalidInput error"),
    }
}

#[test]
fn test_key_overwrite() {
    let mut store = DefaultKeyValueStore::new(true);

    // Add a key-value pair
    store.add("KEY", Some("value1"));
    assert_eq!(store.get("KEY"), Some("value1"));

    // Overwrite the key with a new value
    store.add("KEY", Some("value2"));
    assert_eq!(store.get("KEY"), Some("value2"));

    // Overwrite with a key-only format
    store.add("KEY", None);
    assert_eq!(store.get("KEY"), None);
    assert!(store.has_key("KEY"));

    // Overwrite with a key-equals format
    store.add("KEY", Some(""));
    assert_eq!(store.get("KEY"), Some(""));
}

#[test]
fn test_case_sensitivity_changes() {
    let mut store = DefaultKeyValueStore::new(true);

    // Add keys with case-sensitive store
    store.add("KEY", Some("value"));
    store.add("key", Some("different"));

    // Both keys exist separately
    assert_eq!(store.get("KEY"), Some("value"));
    assert_eq!(store.get("key"), Some("different"));
    assert_eq!(store.len(), 2);

    // Change to case-insensitive
    store.set_case_sensitive(false);

    // Now the keys are treated as the same
    let value = store.get("KEY");
    assert!(value == Some("value") || value == Some("different"));

    // Add a new key with case-insensitive store
    store.add("KEY", Some("new_value"));

    // All case variations return the same value
    assert_eq!(store.get("KEY"), Some("new_value"));
    assert_eq!(store.get("key"), Some("new_value"));
    assert_eq!(store.get("Key"), Some("new_value"));
}

#[test]
fn overwriting_keeps_the_number_of_keys() {
    let mut store = DefaultKeyValueStore::new(true);
    store.add("A", Some("1"));
    store.add("B", None);
    store.add("A", Some("2"));
    store.add("C", Some(""));
    store.add("B", Some("3"));
    assert_eq!(store.len(), 3);
    let mut keys = store.keys();
    keys.sort();
    assert_eq!(keys, vec!["A", "B", "C"]);
    assert_eq!(store.get("A"), Some("2"));
    assert_eq!(store.get("B"), Some("3"));
    assert_eq!(store.get("C"), Some(""));
    assert!(!store.has_key("D"));
    assert_eq!(store.get("D"), None);
}

#[test]
fn keys_are_kept_under_their_normal_form() {
    let mut store = DefaultKeyValueStore::new(false);
    store.add("Debug", None);
    store.add("DEBUG", Some("x"));
    assert_eq!(store.len(), 1);
    assert_eq!(store.keys(), vec!["debug"]);
    assert_eq!(store.normalize_key("DeBuG"), "debug");
    let sensitive = DefaultKeyValueStore::new(true);
    assert_eq!(sensitive.normalize_key("DeBuG"), "DeBuG");
}

#[test]
fn a_copy_of_a_store_holds_the_same_entries() {
    let mut store = DefaultKeyValueStore::new(false);
    store.add("USER", Some("admin"));
    store.add("FLAG", None);
    let copy = store.clone();
    store.clear();
    assert!(store.is_empty());
    assert_eq!(copy.len(), 2);
    assert_eq!(copy.get("user"), Some("admin"));
    assert!(copy.has_key("flag"));
    assert_eq!(copy.get("flag"), None);
}

#[test]
fn value_of_reads_nothing_where_there_is_no_value() {
    let mut store = DefaultKeyValueStore::new(true);
    store.add("FLAG", None);
    store.add("TEXT", Some("abc"));
    assert_eq!(store.value_of::<String>("FLAG"), None);
    assert_eq!(store.value_of::<i32>("TEXT"), None);
    assert_eq!(store.value_of::<String>("TEXT"), Some("abc".to_string()));
    let missing: Option<String> = KeyValueStoreExt::value_of(&store, "MISSING");
    assert_eq!(missing, None);
}

#[test]
fn stored_texts_convert_as_their_type_says() {
    assert_eq!(char::from_arg_value("é"), Ok('é'));
    assert_eq!(
        char::from_arg_value(""),
        Err(Error::InvalidInput("Expected a single character, got: ''".to_string()))
    );
    assert_eq!(
        char::from_arg_value("abc"),
        Err(Error::InvalidInput("Expected a single character, got: 'abc'".to_string()))
    );
    assert_eq!(Option::<String>::from_arg_value("none"), Ok(Some("none".to_string())));
    assert_eq!(Option::<bool>::from_arg_value("ON"), Ok(Some(true)));
    assert_eq!(
        Option::<i32>::from_arg_value("x"),
        Err(Error::InvalidIntValue("x".to_string()))
    );
    assert_eq!(i32::from_arg_value("-2147483648"), Ok(i32::MIN));
}

#[test]
fn texts_come_back_in_the_order_in_which_they_were_added() {
    let mut store = NonArgTextStore::default();
    store.add_multiple(vec![]);
    assert!(store.is_empty());
    store.add_multiple(vec!["a", "b"]);
    store.add("c");
    store.add_multiple(vec!["d"]);
    assert_eq!(store.texts(), &["a", "b", "c", "d"]);
    assert_eq!(store.len(), 4);
    assert!(!store.is_empty());
}
