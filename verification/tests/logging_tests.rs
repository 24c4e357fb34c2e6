use pam_args::logging::init::{self, InitAction};
use pam_args::logging::logger::{self, LogSettings};
use pam_args::logging::{
    LogComponent, LogConfig, LogDestination, LogLevel, LogOperation, LogOptions, SyslogFacility,
};
use pam_args::Error;

#[test]
fn test_log_component_as_str() {
    assert_eq!(LogComponent::General.as_str(), "GENERAL");
    assert_eq!(LogComponent::Parser.as_str(), "PARSER");
    assert_eq!(LogComponent::Tokenizer.as_str(), "TOKENIZER");
    assert_eq!(LogComponent::KeyValueStore.as_str(), "KV_STORE");
    assert_eq!(LogComponent::Validator.as_str(), "VALIDATOR");
    assert_eq!(LogComponent::FieldBinding.as_str(), "BINDING");
}

#[test]
fn test_log_operation_as_str() {
    assert_eq!(LogOperation::Init.as_str(), "INIT");
    assert_eq!(LogOperation::Config.as_str(), "CONFIG");
    assert_eq!(LogOperation::Parse.as_str(), "PARSE");
    assert_eq!(LogOperation::Tokenize.as_str(), "TOKENIZE");
    assert_eq!(LogOperation::Validate.as_str(), "VALIDATE");
    assert_eq!(LogOperation::Error.as_str(), "ERROR");
    assert_eq!(LogOperation::Operation.as_str(), "OP");
}

#[test]
fn test_log_config_default() {
    let config = LogConfig::default();
    assert!(config.include_timestamps);
    assert!(config.include_component);
    assert!(config.include_operation);
    assert!(!config.json_format);
}

#[test]
fn test_log_options_default() {
    let options = LogOptions::default();
    assert!(matches!(options.destination, LogDestination::Syslog));
    assert_eq!(options.level, LogLevel::Info);
    assert!(matches!(options.syslog_facility, Some(SyslogFacility::Auth)));
    assert_eq!(options.syslog_identifier, Some("pam_args".to_string()));
}

#[test]
fn test_logger_config() {
    // Test that the logger configuration can be initialized and retrieved
    let config = LogConfig {
        include_timestamps: false,
        include_component: true,
        include_operation: false,
        json_format: true,
    };

    let mut settings = LogSettings::new();
    logger::init(&mut settings, config.clone());

    let retrieved_config = logger::config(&mut settings);
    assert_eq!(retrieved_config.include_timestamps, config.include_timestamps);
    assert_eq!(retrieved_config.include_component, config.include_component);
    assert_eq!(retrieved_config.include_operation, config.include_operation);
    assert_eq!(retrieved_config.json_format, config.json_format);
}

#[test]
fn test_specialized_logging_functions() {
    let config = LogConfig::default();
    let args = vec!["DEBUG".to_string(), "USER=admin".to_string()];
    let rendered = format!("{:?}", args);
    assert_eq!(
        logger::parser_event(&config, "Test parser event", &rendered),
        "[PARSER][PARSE] Test parser event - [\"DEBUG\", \"USER=admin\"]"
    );

    assert_eq!(
        logger::tokenizer_event(&config, "Test tokenizer event", "\"input\"", None),
        "[TOKENIZER][TOKENIZE] Test tokenizer event - \"input\""
    );
    assert_eq!(
        logger::tokenizer_event(
            &config,
            "Test tokenizer event with tokens",
            "\"input\"",
            Some(&rendered)
        ),
        "[TOKENIZER][TOKENIZE] Test tokenizer event with tokens - (\"input\", [\"DEBUG\", \"USER=admin\"])"
    );

    assert_eq!(
        logger::validation_event(&config, "Test validation event", None),
        "[VALIDATOR][VALIDATE] Test validation event"
    );
    assert_eq!(
        logger::validation_event(&config, "Test validation event with data", Some("\"data\"")),
        "[VALIDATOR][VALIDATE] Test validation event with data - \"data\""
    );

    let error = Error::InvalidInput("test".to_string());
    assert_eq!(
        logger::error_event(
            &config,
            LogComponent::General,
            LogOperation::Operation,
            "Test error event",
            &error
        ),
        "[GENERAL][OP] Test error event - Error: Invalid input: test (INVALID_INPUT)"
    );
}

#[test]
fn the_first_layout_that_is_given_counts() {
    let first = LogConfig { json_format: true, ..LogConfig::default() };
    let second = LogConfig { include_component: false, ..LogConfig::default() };
    let mut settings = LogSettings::new();
    logger::init(&mut settings, first);
    logger::init(&mut settings, second);
    assert_eq!(logger::config(&mut settings), first);

    // asking for the layout before one is given settles on the standard one
    let mut settings = LogSettings::new();
    assert_eq!(logger::config(&mut settings), LogConfig::default());
    logger::init(&mut settings, first);
    assert_eq!(logger::config(&mut settings), LogConfig::default());
}

#[test]
fn plain_lines_show_what_the_layout_asks_for() {
    let all = LogConfig::default();
    let no_component = LogConfig { include_component: false, ..all };
    let no_operation = LogConfig { include_operation: false, ..all };
    let bare = LogConfig { include_component: false, include_operation: false, ..all };
    let line = |config: &LogConfig, data: Option<&str>| {
        logger::info_log(config, LogComponent::KeyValueStore, LogOperation::Config, "msg", data)
    };
    assert_eq!(line(&all, None), "[KV_STORE][CONFIG] msg");
    assert_eq!(line(&all, Some("7")), "[KV_STORE][CONFIG] msg - 7");
    assert_eq!(line(&no_component, Some("7")), "[CONFIG] msg - 7");
    assert_eq!(line(&no_operation, None), "[KV_STORE] msg");
    assert_eq!(line(&bare, Some("7")), " msg - 7");
    // the level does not show in a plain line
    assert_eq!(
        logger::trace_log(&all, LogComponent::Parser, LogOperation::Parse, "m", None),
        logger::warn_log(&all, LogComponent::Parser, LogOperation::Parse, "m", None)
    );
}

#[test]
fn json_lines_carry_level_component_operation_message_and_data() {
    let json = LogConfig { json_format: true, ..LogConfig::default() };
    assert_eq!(
        logger::trace_log(&json, LogComponent::Tokenizer, LogOperation::Tokenize, "m", Some("1")),
        "{\"level\":\"TRACE\",\"component\":\"TOKENIZER\",\"operation\":\"TOKENIZE\",\"message\":\"m\",\"data\":Some(1)}"
    );
    assert_eq!(
        logger::debug_log(&json, LogComponent::Parser, LogOperation::Parse, "m", None),
        "{\"level\":\"DEBUG\",\"component\":\"PARSER\",\"operation\":\"PARSE\",\"message\":\"m\",\"data\":None}"
    );
    assert_eq!(
        logger::info_log(&json, LogComponent::General, LogOperation::Init, "", None),
        "{\"level\":\"INFO\",\"component\":\"GENERAL\",\"operation\":\"INIT\",\"message\":\"\",\"data\":None}"
    );
    assert_eq!(
        logger::warn_log(&json, LogComponent::Validator, LogOperation::Validate, "w", Some("x")),
        "{\"level\":\"WARN\",\"component\":\"VALIDATOR\",\"operation\":\"VALIDATE\",\"message\":\"w\",\"data\":Some(x)}"
    );
    assert_eq!(
        logger::render(&json, LogLevel::Error, LogComponent::FieldBinding, LogOperation::Error, "e", None),
        "{\"level\":\"ERROR\",\"component\":\"BINDING\",\"operation\":\"ERROR\",\"message\":\"e\",\"data\":None}"
    );
}

#[test]
fn error_lines_name_the_error_and_its_code() {
    let plain = LogConfig::default();
    let json = LogConfig { json_format: true, ..plain };
    let error = Error::DependencyNotMet("PORT".to_string(), "HOST".to_string());
    assert_eq!(
        logger::error_log(&plain, LogComponent::Validator, LogOperation::Validate, "bad", None),
        "[VALIDATOR][VALIDATE] bad"
    );
    assert_eq!(
        logger::error_log(&plain, LogComponent::Validator, LogOperation::Validate, "bad", Some(&error)),
        "[VALIDATOR][VALIDATE] bad - Error: Dependency not met: PORT requires HOST (DEPENDENCY_NOT_MET)"
    );
    assert_eq!(
        logger::error_log(&json, LogComponent::Validator, LogOperation::Validate, "bad", None),
        "{\"level\":\"ERROR\",\"component\":\"VALIDATOR\",\"operation\":\"VALIDATE\",\"message\":\"bad\",\"error\":null}"
    );
    assert_eq!(
        logger::error_log(&json, LogComponent::Validator, LogOperation::Validate, "bad", Some(&error)),
        "{\"level\":\"ERROR\",\"component\":\"VALIDATOR\",\"operation\":\"VALIDATE\",\"message\":\"bad\",\"error\":{\"code\":\"DEPENDENCY_NOT_MET\",\"message\":\"Dependency not met: PORT requires HOST\"}}"
    );
}

#[test]
fn options_decide_what_is_set_up() {
    let action = init::with_options(&LogOptions::default());
    assert!(matches!(
        action,
        InitAction::Syslog { level: LogLevel::Info, facility: SyslogFacility::Auth, ref identifier }
            if identifier == "pam_args"
    ));

    let bare = LogOptions {
        destination: LogDestination::Both,
        level: LogLevel::Trace,
        config: LogConfig::default(),
        syslog_facility: None,
        syslog_identifier: None,
    };
    assert!(matches!(
        init::with_options(&bare),
        InitAction::Both { level: LogLevel::Trace, facility: SyslogFacility::Auth, ref identifier }
            if identifier == "pam_args"
    ));

    let custom = LogOptions {
        destination: LogDestination::Syslog,
        level: LogLevel::Warn,
        config: LogConfig::default(),
        syslog_facility: Some(SyslogFacility::Local3),
        syslog_identifier: Some("pam_mine".to_string()),
    };
    assert!(matches!(
        init::with_options(&custom),
        InitAction::Syslog { level: LogLevel::Warn, facility: SyslogFacility::Local3, ref identifier }
            if identifier == "pam_mine"
    ));

    let terminal = LogOptions { destination: LogDestination::Terminal, ..LogOptions::default() };
    assert!(matches!(
        init::with_options(&terminal),
        InitAction::Terminal { level: LogLevel::Info }
    ));

    let existing = LogOptions { destination: LogDestination::Existing, ..LogOptions::default() };
    assert!(matches!(init::with_options(&existing), InitAction::Nothing));
}

#[test]
fn the_three_ready_made_options() {
    let pam = init::for_pam("pam_mine", LogLevel::Debug);
    assert_eq!(pam.destination, LogDestination::Syslog);
    assert_eq!(pam.level, LogLevel::Debug);
    assert_eq!(pam.config, LogConfig::default());
    assert_eq!(pam.syslog_facility, Some(SyslogFacility::Auth));
    assert_eq!(pam.syslog_identifier, Some("pam_mine".to_string()));

    let dev = init::for_development(LogLevel::Trace);
    assert_eq!(dev.destination, LogDestination::Terminal);
    assert_eq!(dev.level, LogLevel::Trace);
    assert_eq!(dev.syslog_facility, Some(SyslogFacility::Auth));
    assert_eq!(dev.syslog_identifier, Some("pam_args".to_string()));

    let dual = init::dual_output("pam_two", LogLevel::Error);
    assert_eq!(dual.destination, LogDestination::Both);
    assert_eq!(dual.level, LogLevel::Error);
    assert_eq!(dual.syslog_facility, Some(SyslogFacility::Auth));
    assert_eq!(dual.syslog_identifier, Some("pam_two".to_string()));
}

#[test]
fn levels_have_their_names() {
    assert_eq!(LogLevel::Off.as_str(), "OFF");
    assert_eq!(LogLevel::Error.as_str(), "ERROR");
    assert_eq!(LogLevel::Warn.as_str(), "WARN");
    assert_eq!(LogLevel::Info.as_str(), "INFO");
    assert_eq!(LogLevel::Debug.as_str(), "DEBUG");
    assert_eq!(LogLevel::Trace.as_str(), "TRACE");
}
