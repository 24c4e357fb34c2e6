use pam_args::{AllowedKeyValueFormats, Flag, KeyValue};

#[test]
fn test_flag_creation() {
    let flag = Flag::new("DEBUG", "Enable debug mode");
    assert_eq!(flag.name(), "DEBUG");
    assert_eq!(flag.description(), "Enable debug mode");
    assert!(flag.dependencies().is_empty());
    assert!(flag.exclusions().is_empty());
    assert!(!flag.has_binding());
}

#[test]
fn test_flag_dependencies() {
    let flag = Flag::new("VERBOSE", "Verbose output").depends_on("DEBUG");

    assert_eq!(flag.dependencies().len(), 1);
    assert_eq!(flag.dependencies()[0], "DEBUG");
}

#[test]
fn test_flag_exclusions() {
    let flag = Flag::new("DEBUG", "Debug mode").excludes("QUIET");

    assert_eq!(flag.exclusions().len(), 1);
    assert_eq!(flag.exclusions()[0], "QUIET");
}

#[test]
fn test_keyvalue_creation() {
    let kv = KeyValue::new("USER", "Username for authentication");
    assert_eq!(kv.name(), "USER");
    assert_eq!(kv.description(), "Username for authentication");
    assert!(!kv.is_required());
    assert!(kv.dependencies().is_empty());
    assert!(kv.exclusions().is_empty());
    assert_eq!(kv.get_allowed_formats().len(), 1);
    assert_eq!(kv.get_allowed_formats()[0], AllowedKeyValueFormats::KeyValue);
    assert!(kv.get_allowed_values().is_none());
    assert!(!kv.has_type_converter());
    assert!(!kv.has_binding());
}

#[test]
fn test_keyvalue_required() {
    let kv = KeyValue::new("USER", "Username").required();

    assert!(kv.is_required());
}

#[test]
fn test_keyvalue_dependencies() {
    let kv = KeyValue::new("PORT", "Port number").depends_on("HOST");

    assert_eq!(kv.dependencies().len(), 1);
    assert_eq!(kv.dependencies()[0], "HOST");
}

#[test]
fn test_keyvalue_exclusions() {
    let kv = KeyValue::new("HOST", "Host name").excludes("LOCAL");

    assert_eq!(kv.exclusions().len(), 1);
    assert_eq!(kv.exclusions()[0], "LOCAL");
}

#[test]
fn test_keyvalue_allowed_formats() {
    let kv = KeyValue::new("DEBUG", "Debug mode").allowed_formats(&[
        AllowedKeyValueFormats::KeyOnly,
        AllowedKeyValueFormats::KeyValue,
    ]);

    assert_eq!(kv.get_allowed_formats().len(), 2);
    assert_eq!(kv.get_allowed_formats()[0], AllowedKeyValueFormats::KeyOnly);
    assert_eq!(kv.get_allowed_formats()[1], AllowedKeyValueFormats::KeyValue);
}

#[test]
fn test_keyvalue_allowed_values() {
    let kv = KeyValue::new("ALIGN", "Text alignment").allowed_values(&["LEFT", "CENTER", "RIGHT"]);

    assert!(kv.get_allowed_values().is_some());
    assert_eq!(kv.get_allowed_values().unwrap().len(), 3);
    assert_eq!(kv.get_allowed_values().unwrap()[0], "LEFT");
    assert_eq!(kv.get_allowed_values().unwrap()[1], "CENTER");
    assert_eq!(kv.get_allowed_values().unwrap()[2], "RIGHT");

    assert!(kv.is_value_allowed("LEFT"));
    assert!(kv.is_value_allowed("CENTER"));
    assert!(kv.is_value_allowed("RIGHT"));
    assert!(!kv.is_value_allowed("BOTTOM"));
}

#[test]
fn keyvalue_without_listed_values_allows_any_value() {
    let kv = KeyValue::new("ALIGN", "Text alignment");
    assert!(kv.is_value_allowed("anything"));
    assert!(kv.is_value_allowed(""));
}

#[test]
fn keyvalue_with_empty_list_allows_no_value() {
    let none: [&str; 0] = [];
    let kv = KeyValue::new("ALIGN", "Text alignment").allowed_values(&none);
    assert_eq!(kv.get_allowed_values().unwrap().len(), 0);
    assert!(!kv.is_value_allowed("LEFT"));
}

#[test]
fn keyvalue_type_converter_is_recorded() {
    let kv = KeyValue::new("PORT", "Port number").type_converter(|s: &str| s.parse::<i32>());
    assert!(kv.has_type_converter());
    assert_eq!(kv.name(), "PORT");
    assert!(!kv.is_required());
}

#[test]
fn builders_keep_the_order_of_additions() {
    let flag = Flag::new("A", "a").depends_on("B").depends_on("C").excludes("D").excludes("E");
    assert_eq!(flag.dependencies(), &["B", "C"]);
    assert_eq!(flag.exclusions(), &["D", "E"]);
    let cloned = flag.clone();
    assert_eq!(cloned.name(), "A");
    assert_eq!(cloned.dependencies(), &["B", "C"]);
}

#[test]
fn compatibility_is_symmetric_and_widened_by_key_all() {
    let all = [
        AllowedKeyValueFormats::KeyValue,
        AllowedKeyValueFormats::KeyOnly,
        AllowedKeyValueFormats::KeyEquals,
        AllowedKeyValueFormats::KeyAll,
    ];
    for a in all {
        for b in all {
            let expected = a == b
                || a == AllowedKeyValueFormats::KeyAll
                || b == AllowedKeyValueFormats::KeyAll;
            assert_eq!(a.is_compatible_with(b), expected);
            assert_eq!(a.is_compatible_with(b), b.is_compatible_with(a));
        }
        assert!(!a.is_compatible_with_any(&[]));
    }
    assert_eq!(AllowedKeyValueFormats::KeyEquals.as_str(), "KeyEquals");
}
