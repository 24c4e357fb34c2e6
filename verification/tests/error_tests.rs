use pam_args::error::ErrorRecord;
use pam_args::{Error, Result};

#[test]
fn test_error_creation() {
    let err = Error::RequiredArgMissing("USER".to_string());
    assert!(matches!(err, Error::RequiredArgMissing(_)));

    let err = Error::MutuallyExclusiveArgs("DEBUG".to_string(), "QUIET".to_string());
    assert!(matches!(err, Error::MutuallyExclusiveArgs(_, _)));
}

#[test]
fn test_display_trait() {
    let err = Error::RequiredArgMissing("USER".to_string());
    assert_eq!(err.to_string(), "Required argument missing: USER");

    let err = Error::MutuallyExclusiveArgs("DEBUG".to_string(), "QUIET".to_string());
    assert_eq!(err.to_string(), "Mutually exclusive arguments found: DEBUG and QUIET");
}

#[test]
fn test_error_code() {
    let err = Error::RequiredArgMissing("USER".to_string());
    assert_eq!(err.code(), "REQUIRED_ARG_MISSING");

    let err = Error::InvalidValue("ALIGN".to_string(), "TOP".to_string());
    assert_eq!(err.code(), "INVALID_VALUE");
}

#[test]
fn test_error_details() {
    let err = Error::RequiredArgMissing("USER".to_string());
    assert!(err.details().contains("required argument 'USER' was not provided"));

    let err = Error::InvalidBoolValue("MAYBE".to_string());
    assert!(err.details().contains("could not be parsed as a boolean"));
}

#[test]
fn test_debug_trait() {
    let err = Error::InvalidValue("ALIGN".to_string(), "TOP".to_string());
    let debug_str = format!("{:?}", err);
    assert!(debug_str.contains("InvalidValue"));
    assert!(debug_str.contains("ALIGN"));
    assert!(debug_str.contains("TOP"));
}

#[test]
fn test_error_trait() {
    let err = Error::InvalidInput("test".to_string());
    let boxed: Box<Error> = Box::new(err);
    assert!(boxed.to_string().contains("Invalid input"));
}

#[test]
fn test_pattern_matching() {
    let err = Error::RequiredArgMissing("USER".to_string());

    let message = match err {
        Error::RequiredArgMissing(arg) => format!("Missing: {}", arg),
        _ => "Other error".to_string(),
    };

    assert_eq!(message, "Missing: USER");
}

#[test]
fn test_result_type() {
    let result: Result<()> = Err(Error::InvalidIntValue("abc".to_string()));
    assert!(result.is_err());

    if let Err(e) = result {
        assert!(matches!(e, Error::InvalidIntValue(_)));
    } else {
        panic!("Expected Err variant");
    }
}

#[test]
fn error_test_clone() {
    let err = Error::DuplicateArgName("FLAG".to_string());
    let err2 = err.clone();

    assert_eq!(err, err2);
}

#[test]
fn test_partial_eq() {
    let err1 = Error::RequiredArgMissing("USER".to_string());
    let err2 = Error::RequiredArgMissing("USER".to_string());
    let err3 = Error::RequiredArgMissing("PASSWORD".to_string());

    assert_eq!(err1, err2);
    assert_ne!(err1, err3);
}

fn every_variant() -> Vec<Error> {
    let a = || "A".to_string();
    let b = || "B".to_string();
    vec![
        Error::RequiredArgMissing(a()),
        Error::MutuallyExclusiveArgs(a(), b()),
        Error::InvalidKeyValue(a()),
        Error::UnrecognizedArg(a()),
        Error::InvalidIntValue(a()),
        Error::InvalidBoolValue(a()),
        Error::DependencyNotMet(a(), b()),
        Error::InvalidValue(a(), b()),
        Error::DuplicateArgName(a()),
        Error::UnclosedDelimiter(a()),
        Error::NestedBrackets(a()),
        Error::InvalidInput(a()),
        Error::UnexpectedError(a()),
    ]
}

#[test]
fn every_variant_has_its_code() {
    let codes: Vec<&str> = every_variant().iter().map(|e| e.code()).collect();
    assert_eq!(
        codes,
        vec![
            "REQUIRED_ARG_MISSING",
            "MUTUALLY_EXCLUSIVE_ARGS",
            "INVALID_KEY_VALUE",
            "UNRECOGNIZED_ARG",
            "INVALID_INT_VALUE",
            "INVALID_BOOL_VALUE",
            "DEPENDENCY_NOT_MET",
            "INVALID_VALUE",
            "DUPLICATE_ARG_NAME",
            "UNCLOSED_DELIMITER",
            "NESTED_BRACKETS",
            "INVALID_INPUT",
            "UNEXPECTED_ERROR",
        ]
    );
}

#[test]
fn every_variant_has_its_message() {
    let messages: Vec<String> = every_variant().iter().map(|e| e.to_string()).collect();
    assert_eq!(
        messages,
        vec![
            "Required argument missing: A",
            "Mutually exclusive arguments found: A and B",
            "Invalid key-value pair: A",
            "Unrecognized argument: A",
            "Invalid integer value: A",
            "Invalid boolean value: A",
            "Dependency not met: A requires B",
            "Invalid value for A: B",
            "Duplicate argument name: A",
            "Unclosed delimiter: A",
            "Nested brackets not supported: A",
            "Invalid input: A",
            "Unexpected error: A",
        ]
    );
}

#[test]
fn every_variant_has_its_details() {
    let details: Vec<String> = every_variant().iter().map(|e| e.details()).collect();
    assert_eq!(
        details,
        vec![
            "The required argument 'A' was not provided. Please ensure all required arguments are included.",
            "The arguments 'A' and 'B' cannot be used together. Please provide only one of these arguments.",
            "The key-value pair 'A' has an invalid format. Key-value pairs should be in the format 'key=value'.",
            "The argument 'A' is not recognized. Please check for typos or refer to the documentation for valid arguments.",
            "The value 'A' could not be parsed as an integer. Please provide a valid integer value.",
            "The value 'A' could not be parsed as a boolean. Valid boolean values include 'true', 'false', 'yes', 'no', '1', '0', 'on', 'off'.",
            "The argument 'A' requires 'B' to also be provided. Please include the required dependency.",
            "The value 'B' is not valid for the argument 'A'. Please refer to the documentation for allowed values.",
            "The argument name 'A' is defined more than once. Each argument name must be unique.",
            "An unclosed delimiter was found: A. Please ensure all quotes and brackets are properly closed.",
            "Nested brackets are not supported: A. Please restructure your arguments to avoid nested brackets.",
            "The input is invalid: A. Please check your input and try again.",
            "An unexpected error occurred: A. This is likely a bug in the library. Please report this issue.",
        ]
    );
}

#[test]
fn a_record_holds_the_code_the_message_and_the_texts_of_the_variant() {
    let record = Error::DependencyNotMet("PORT".to_string(), "HOST".to_string()).to_record();
    assert_eq!(
        record,
        ErrorRecord {
            code: Some("DEPENDENCY_NOT_MET".to_string()),
            message: Some("Dependency not met: PORT requires HOST".to_string()),
            argument: Some("PORT".to_string()),
            argument1: None,
            argument2: None,
            dependency: Some("HOST".to_string()),
            value: None,
            key_value: None,
            info: None,
        }
    );
    let record = Error::MutuallyExclusiveArgs("A".to_string(), "B".to_string()).to_record();
    assert_eq!(record.argument1, Some("A".to_string()));
    assert_eq!(record.argument2, Some("B".to_string()));
    assert_eq!(record.argument, None);
    let record = Error::InvalidKeyValue("k".to_string()).to_record();
    assert_eq!(record.key_value, Some("k".to_string()));
    let record = Error::InvalidValue("A".to_string(), "v".to_string()).to_record();
    assert_eq!(record.argument, Some("A".to_string()));
    assert_eq!(record.value, Some("v".to_string()));
    let record = Error::NestedBrackets("i".to_string()).to_record();
    assert_eq!(record.info, Some("i".to_string()));
}

#[test]
fn reading_the_record_of_an_error_gives_the_error_back() {
    for error in every_variant() {
        assert_eq!(Error::from_record(error.to_record()), Ok(error));
    }
}

fn blank() -> ErrorRecord {
    ErrorRecord {
        code: None,
        message: None,
        argument: None,
        argument1: None,
        argument2: None,
        dependency: None,
        value: None,
        key_value: None,
        info: None,
    }
}

#[test]
fn a_record_that_lacks_a_text_names_the_first_one_it_lacks() {
    assert_eq!(Error::from_record(blank()), Err("code"));
    let with_code = |code: &str| ErrorRecord { code: Some(code.to_string()), ..blank() };
    let some = |text: &str| Some(text.to_string());
    assert_eq!(Error::from_record(with_code("REQUIRED_ARG_MISSING")), Err("argument"));
    assert_eq!(Error::from_record(with_code("MUTUALLY_EXCLUSIVE_ARGS")), Err("argument1"));
    assert_eq!(
        Error::from_record(ErrorRecord {
            argument1: some("A"),
            ..with_code("MUTUALLY_EXCLUSIVE_ARGS")
        }),
        Err("argument2")
    );
    assert_eq!(Error::from_record(with_code("INVALID_KEY_VALUE")), Err("key_value"));
    assert_eq!(Error::from_record(with_code("UNRECOGNIZED_ARG")), Err("argument"));
    assert_eq!(Error::from_record(with_code("INVALID_INT_VALUE")), Err("value"));
    assert_eq!(Error::from_record(with_code("INVALID_BOOL_VALUE")), Err("value"));
    assert_eq!(Error::from_record(with_code("DEPENDENCY_NOT_MET")), Err("argument"));
    assert_eq!(
        Error::from_record(ErrorRecord { argument: some("A"), ..with_code("DEPENDENCY_NOT_MET") }),
        Err("dependency")
    );
    assert_eq!(
        Error::from_record(ErrorRecord { argument: some("A"), ..with_code("INVALID_VALUE") }),
        Err("value")
    );
    assert_eq!(Error::from_record(with_code("DUPLICATE_ARG_NAME")), Err("argument"));
    assert_eq!(Error::from_record(with_code("UNCLOSED_DELIMITER")), Err("info"));
    assert_eq!(Error::from_record(with_code("NESTED_BRACKETS")), Err("info"));
    assert_eq!(Error::from_record(with_code("INVALID_INPUT")), Err("info"));
    assert_eq!(Error::from_record(with_code("UNEXPECTED_ERROR")), Err("info"));
    // texts that the variant does not need are passed over
    assert_eq!(
        Error::from_record(ErrorRecord {
            argument: some("A"),
            info: some("i"),
            message: some("m"),
            ..with_code("INVALID_INPUT")
        }),
        Ok(Error::InvalidInput("i".to_string()))
    );
}

#[test]
fn a_code_that_is_not_known_makes_an_unexpected_error() {
    let some = |text: &str| Some(text.to_string());
    assert_eq!(
        Error::from_record(ErrorRecord { code: some("SOMETHING"), message: some("m"), ..blank() }),
        Ok(Error::UnexpectedError("m".to_string()))
    );
    assert_eq!(
        Error::from_record(ErrorRecord { code: some("required_arg_missing"), ..blank() }),
        Ok(Error::UnexpectedError("Unknown error code".to_string()))
    );
}
