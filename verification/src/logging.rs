//! Structured log lines and the choice of where they go.
//!
//! This module decides what a log line says and which logger a set of options
//! asks for. It writes nothing itself: the caller hands the line to its
//! logger, and sets the logger up as the chosen action says.

use vstd::prelude::*;

pub mod init;
pub mod logger;

verus! {

/// The part of the library that a log line comes from.
#[derive(Debug, Clone, Copy, PartialEq, Eq, Structural)]
pub enum LogComponent {
    /// General operations.
    General,
    /// The parser.
    Parser,
    /// The tokenizer.
    Tokenizer,
    /// The key-value store.
    KeyValueStore,
    /// Validation.
    Validator,
    /// Field binding.
    FieldBinding,
}

impl LogComponent {
    /// The name of the component in a log line.
    pub open spec fn name(self) -> Seq<char> {
        match self {
            LogComponent::General => "GENERAL"@,
            LogComponent::Parser => "PARSER"@,
            LogComponent::Tokenizer => "TOKENIZER"@,
            LogComponent::KeyValueStore => "KV_STORE"@,
            LogComponent::Validator => "VALIDATOR"@,
            LogComponent::FieldBinding => "BINDING"@,
        }
    }

    /// Returns the name of the component in a log line.
    pub fn as_str(&self) -> (name: &'static str)
        ensures
            name@ == self.name(),
    {
        match self {
            LogComponent::General => "GENERAL",
            LogComponent::Parser => "PARSER",
            LogComponent::Tokenizer => "TOKENIZER",
            LogComponent::KeyValueStore => "KV_STORE",
            LogComponent::Validator => "VALIDATOR",
            LogComponent::FieldBinding => "BINDING",
        }
    }
}

/// What the component was doing when it wrote a log line.
#[derive(Debug, Clone, Copy, PartialEq, Eq, Structural)]
pub enum LogOperation {
    /// Initialization.
    Init,
    /// Configuration.
    Config,
    /// Parsing.
    Parse,
    /// Tokenization.
    Tokenize,
    /// Validation.
    Validate,
    /// Error handling.
    Error,
    /// Anything else.
    Operation,
}

impl LogOperation {
    /// The name of the operation in a log line.
    pub open spec fn name(self) -> Seq<char> {
        match self {
            LogOperation::Init => "INIT"@,
            LogOperation::Config => "CONFIG"@,
            LogOperation::Parse => "PARSE"@,
            LogOperation::Tokenize => "TOKENIZE"@,
            LogOperation::Validate => "VALIDATE"@,
            LogOperation::Error => "ERROR"@,
            LogOperation::Operation => "OP"@,
        }
    }

    /// Returns the name of the operation in a log line.
    pub fn as_str(&self) -> (name: &'static str)
        ensures
            name@ == self.name(),
    {
        match self {
            LogOperation::Init => "INIT",
            LogOperation::Config => "CONFIG",
            LogOperation::Parse => "PARSE",
            LogOperation::Tokenize => "TOKENIZE",
            LogOperation::Validate => "VALIDATE",
            LogOperation::Error => "ERROR",
            LogOperation::Operation => "OP",
        }
    }
}

/// How log lines are laid out.
#[derive(Debug, Clone, Copy, PartialEq, Eq, Structural)]
pub struct LogConfig {
    /// Whether lines carry a time stamp.
    pub include_timestamps: bool,
    /// Whether lines name the component.
    pub include_component: bool,
    /// Whether lines name the operation.
    pub include_operation: bool,
    /// Whether lines are written as JSON objects.
    pub json_format: bool,
}

impl LogConfig {
    /// The usual layout: plain text with time stamp, component and operation.
    pub open spec fn standard() -> LogConfig {
        LogConfig {
            include_timestamps: true,
            include_component: true,
            include_operation: true,
            json_format: false,
        }
    }
}

impl Default for LogConfig {
    fn default() -> (config: Self)
        ensures
            config == LogConfig::standard(),
    {
        LogConfig {
            include_timestamps: true,
            include_component: true,
            include_operation: true,
            json_format: false,
        }
    }
}

/// Where log lines go.
#[derive(Debug, Clone, Copy, PartialEq, Eq, Structural)]
pub enum LogDestination {
    /// To the system log.
    Syslog,
    /// To the terminal.
    Terminal,
    /// To the system log and the terminal.
    Both,
    /// Nowhere new: the logger that is already set up, if any, stays.
    Existing,
}

/// The most verbose level of lines that are let through.
#[derive(Debug, Clone, Copy, PartialEq, Eq, Structural)]
pub enum LogLevel {
    /// No lines at all.
    Off,
    /// Errors only.
    Error,
    /// Warnings and errors.
    Warn,
    /// Informational lines and above.
    Info,
    /// Debugging lines and above.
    Debug,
    /// Everything.
    Trace,
}

impl LogLevel {
    /// The name of the level in a log line.
    pub open spec fn name(self) -> Seq<char> {
        match self {
            LogLevel::Off => "OFF"@,
            LogLevel::Error => "ERROR"@,
            LogLevel::Warn => "WARN"@,
            LogLevel::Info => "INFO"@,
            LogLevel::Debug => "DEBUG"@,
            LogLevel::Trace => "TRACE"@,
        }
    }

    /// Returns the name of the level in a log line.
    pub fn as_str(&self) -> (name: &'static str)
        ensures
            name@ == self.name(),
    {
        match self {
            LogLevel::Off => "OFF",
            LogLevel::Error => "ERROR",
            LogLevel::Warn => "WARN",
            LogLevel::Info => "INFO",
            LogLevel::Debug => "DEBUG",
            LogLevel::Trace => "TRACE",
        }
    }
}

/// The system log's facilities.
#[derive(Debug, Clone, Copy, PartialEq, Eq, Structural)]
pub enum SyslogFacility {
    Kern,
    User,
    Mail,
    Daemon,
    Auth,
    Syslog,
    Lpr,
    News,
    Uucp,
    Cron,
    AuthPriv,
    Ftp,
    Ntp,
    Audit,
    Alert,
    ClockDaemon,
    Local0,
    Local1,
    Local2,
    Local3,
    Local4,
    Local5,
    Local6,
    Local7,
}

/// What to set up for logging.
#[derive(Debug, Clone)]
pub struct LogOptions {
    /// Where log lines go.
    pub destination: LogDestination,
    /// The most verbose level that is let through.
    pub level: LogLevel,
    /// How log lines are laid out.
    pub config: LogConfig,
    /// The facility for the system log; the authentication facility where
    /// none is given.
    pub syslog_facility: Option<SyslogFacility>,
    /// The name under which lines appear in the system log; `pam_args` where
    /// none is given.
    pub syslog_identifier: Option<String>,
}

/// What a [`LogOptions`] holds.
pub ghost struct LogOptionsView {
    pub destination: LogDestination,
    pub level: LogLevel,
    pub config: LogConfig,
    pub syslog_facility: Option<SyslogFacility>,
    pub syslog_identifier: Option<Seq<char>>,
}

impl LogOptionsView {
    /// The usual options: informational lines and above, to the system log,
    /// under the authentication facility and the name `pam_args`.
    pub open spec fn standard() -> LogOptionsView {
        LogOptionsView {
            destination: LogDestination::Syslog,
            level: LogLevel::Info,
            config: LogConfig::standard(),
            syslog_facility: Some(SyslogFacility::Auth),
            syslog_identifier: Some("pam_args"@),
        }
    }
}

impl View for LogOptions {
    type V = LogOptionsView;

    open spec fn view(&self) -> LogOptionsView {
        LogOptionsView {
            destination: self.destination,
            level: self.level,
            config: self.config,
            syslog_facility: self.syslog_facility,
            syslog_identifier: self.syslog_identifier.deep_view(),
        }
    }
}

impl Default for LogOptions {
    fn default() -> (options: Self)
        ensures
            options@ == LogOptionsView::standard(),
    {
        LogOptions {
            destination: LogDestination::Syslog,
            level: LogLevel::Info,
            config: LogConfig::default(),
            syslog_facility: Some(SyslogFacility::Auth),
            syslog_identifier: Some("pam_args".to_owned()),
        }
    }
}

} // verus!
