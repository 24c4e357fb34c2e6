//! What a log line says.
//!
//! Data that goes with a line comes in as text: the caller renders it, and
//! the functions here put it in its place.

use vstd::prelude::*;
use vstd::string::*;
use crate::error::Error;
use crate::logging::{LogComponent, LogConfig, LogLevel, LogOperation};

verus! {

/// The layout of log lines, which can be set once. Until it is asked for, the
/// first layout that is given counts; once it is asked for without one, the
/// standard layout counts.
pub struct LogSettings {
    config: Option<LogConfig>,
}

impl View for LogSettings {
    type V = Option<LogConfig>;

    closed spec fn view(&self) -> Option<LogConfig> {
        self.config
    }
}

impl LogSettings {
    /// Creates settings in which no layout was chosen yet.
    pub fn new() -> (settings: Self)
        ensures
            settings@ is None,
    {
        LogSettings { config: None }
    }
}

/// The layout that counts from now on: the one that was chosen, or `fresh`.
pub open spec fn settled(chosen: Option<LogConfig>, fresh: LogConfig) -> LogConfig {
    match chosen {
        Some(config) => config,
        None => fresh,
    }
}

/// Chooses the layout of log lines, unless one was chosen before.
pub fn init(settings: &mut LogSettings, config: LogConfig)
    ensures
        final(settings)@ == Some(settled(old(settings)@, config)),
{
    if settings.config.is_none() {
        settings.config = Some(config);
    }
}

/// Returns the layout of log lines. Where none was chosen, the standard one
/// is chosen now.
pub fn config(settings: &mut LogSettings) -> (config: LogConfig)
    ensures
        config == settled(old(settings)@, LogConfig::standard()),
        final(settings)@ == Some(config),
{
    match settings.config {
        Some(config) => config,
        None => {
            let config = LogConfig::default();
            settings.config = Some(config);
            config
        },
    }
}

/// A name in square brackets, or nothing where the name is left out.
pub open spec fn tag(shown: bool, name: Seq<char>) -> Seq<char> {
    if shown {
        "["@ + name + "]"@
    } else {
        Seq::empty()
    }
}

/// How optional data is written in a JSON line.
pub open spec fn optional_text(data: Option<Seq<char>>) -> Seq<char> {
    match data {
        Some(d) => "Some("@ + d + ")"@,
        None => "None"@,
    }
}

/// What stands at the front of a plain line: component, operation, message.
pub open spec fn line_head(
    config: LogConfig,
    component: LogComponent,
    operation: LogOperation,
    message: Seq<char>,
) -> Seq<char> {
    tag(config.include_component, component.name()) + tag(
        config.include_operation,
        operation.name(),
    ) + " "@ + message
}

/// What stands at the front of a JSON line: level, component, operation,
/// message.
pub open spec fn json_head(
    level: LogLevel,
    component: LogComponent,
    operation: LogOperation,
    message: Seq<char>,
) -> Seq<char> {
    "{\"level\":\""@ + level.name() + "\",\"component\":\""@ + component.name()
        + "\",\"operation\":\""@ + operation.name() + "\",\"message\":\""@ + message
}

/// The log line for a message with optional data.
///
/// As JSON, the line is an object with the level, the component, the
/// operation, the message and the data. As plain text, it is the component
/// and the operation in square brackets, as far as the layout shows them,
/// then the message, then the data behind a dash where there is data.
pub open spec fn log_line(
    config: LogConfig,
    level: LogLevel,
    component: LogComponent,
    operation: LogOperation,
    message: Seq<char>,
    data: Option<Seq<char>>,
) -> Seq<char> {
    if config.json_format {
        json_head(level, component, operation, message) + "\",\"data\":"@ + optional_text(data)
            + "}"@
    } else {
        match data {
            Some(d) => line_head(config, component, operation, message) + " - "@ + d,
            None => line_head(config, component, operation, message),
        }
    }
}

/// How an optional error is written in a JSON line.
pub open spec fn json_error(error: Option<&Error>) -> Seq<char> {
    match error {
        Some(e) => "{\"code\":\""@ + e@.code() + "\",\"message\":\""@ + e@.message() + "\"}"@,
        None => "null"@,
    }
}

/// The log line for a message with an optional error.
pub open spec fn error_line(
    config: LogConfig,
    component: LogComponent,
    operation: LogOperation,
    message: Seq<char>,
    error: Option<&Error>,
) -> Seq<char> {
    if config.json_format {
        json_head(LogLevel::Error, component, operation, message) + "\",\"error\":"@ + json_error(
            error,
        ) + "}"@
    } else {
        match error {
            Some(e) => line_head(config, component, operation, message) + " - Error: "@
                + e@.message() + " ("@ + e@.code() + ")"@,
            None => line_head(config, component, operation, message),
        }
    }
}

/// How the input of the tokenizer and its tokens, where there are any, are
/// written as the data of a line.
pub open spec fn tokenizer_data(input: Seq<char>, tokens: Option<Seq<char>>) -> Seq<char> {
    match tokens {
        Some(t) => "("@ + input + ", "@ + t + ")"@,
        None => input,
    }
}

/// Starts a plain line.
fn start_line(config: &LogConfig, component: LogComponent, operation: LogOperation, message: &str) -> (out:
    String)
    ensures
        out@ == line_head(*config, component, operation, message@),
{
    let mut out = String::new();
    if config.include_component {
        out.append("[");
        out.append(component.as_str());
        out.append("]");
    }
    if config.include_operation {
        out.append("[");
        out.append(operation.as_str());
        out.append("]");
    }
    out.append(" ");
    out.append(message);
    assert(out@ =~= line_head(*config, component, operation, message@));
    out
}

/// Starts a JSON line.
fn start_json(level: LogLevel, component: LogComponent, operation: LogOperation, message: &str) -> (out:
    String)
    ensures
        out@ == json_head(level, component, operation, message@),
{
    let mut out = String::from_str("{\"level\":\"");
    out.append(level.as_str());
    out.append("\",\"component\":\"");
    out.append(component.as_str());
    out.append("\",\"operation\":\"");
    out.append(operation.as_str());
    out.append("\",\"message\":\"");
    out.append(message);
    out
}

/// Writes the log line of level `level` for a message with optional data.
pub fn render(
    config: &LogConfig,
    level: LogLevel,
    component: LogComponent,
    operation: LogOperation,
    message: &str,
    data: Option<&str>,
) -> (line: String)
    ensures
        line@ == log_line(*config, level, component, operation, message@, data.deep_view()),
{
    if config.json_format {
        let mut out = start_json(level, component, operation, message);
        let ghost head = out@;
        out.append("\",\"data\":");
        match data {
            Some(d) => {
                out.append("Some(");
                out.append(d);
                out.append(")");
            },
            None => {
                out.append("None");
            },
        }
        out.append("}");
        assert(out@ =~= head + "\",\"data\":"@ + optional_text(data.deep_view()) + "}"@);
        out
    } else {
        let mut out = start_line(config, component, operation, message);
        match data {
            Some(d) => {
                out.append(" - ");
                out.append(d);
            },
            None => {},
        }
        out
    }
}

/// Writes the trace line for a message with optional data.
pub fn trace_log(
    config: &LogConfig,
    component: LogComponent,
    operation: LogOperation,
    message: &str,
    data: Option<&str>,
) -> (line: String)
    ensures
        line@ == log_line(
            *config,
            LogLevel::Trace,
            component,
            operation,
            message@,
            data.deep_view(),
        ),
{
    render(config, LogLevel::Trace, component, operation, message, data)
}

/// Writes the debug line for a message with optional data.
pub fn debug_log(
    config: &LogConfig,
    component: LogComponent,
    operation: LogOperation,
    message: &str,
    data: Option<&str>,
) -> (line: String)
    ensures
        line@ == log_line(
            *config,
            LogLevel::Debug,
            component,
            operation,
            message@,
            data.deep_view(),
        ),
{
    render(config, LogLevel::Debug, component, operation, message, data)
}

/// Writes the informational line for a message with optional data.
pub fn info_log(
    config: &LogConfig,
    component: LogComponent,
    operation: LogOperation,
    message: &str,
    data: Option<&str>,
) -> (line: String)
    ensures
        line@ == log_line(*config, LogLevel::Info, component, operation, message@, data.deep_view()),
{
    render(config, LogLevel::Info, component, operation, message, data)
}

/// Writes the warning line for a message with optional data.
pub fn warn_log(
    config: &LogConfig,
    component: LogComponent,
    operation: LogOperation,
    message: &str,
    data: Option<&str>,
) -> (line: String)
    ensures
        line@ == log_line(*config, LogLevel::Warn, component, operation, message@, data.deep_view()),
{
    render(config, LogLevel::Warn, component, operation, message, data)
}

/// Writes the error line for a message with an optional error.
pub fn error_log(
    config: &LogConfig,
    component: LogComponent,
    operation: LogOperation,
    message: &str,
    error: Option<&Error>,
) -> (line: String)
    ensures
        line@ == error_line(*config, component, operation, message@, error),
{
    if config.json_format {
        let mut out = start_json(LogLevel::Error, component, operation, message);
        let ghost head = out@;
        out.append("\",\"error\":");
        match error {
            Some(e) => {
                let text = e.to_string();
                out.append("{\"code\":\"");
                out.append(e.code());
                out.append("\",\"message\":\"");
                out.append(text.as_str());
                out.append("\"}");
            },
            None => {
                out.append("null");
            },
        }
        out.append("}");
        assert(out@ =~= head + "\",\"error\":"@ + json_error(error) + "}"@);
        out
    } else {
        let mut out = start_line(config, component, operation, message);
        match error {
            Some(e) => {
                let text = e.to_string();
                out.append(" - Error: ");
                out.append(text.as_str());
                out.append(" (");
                out.append(e.code());
                out.append(")");
            },
            None => {},
        }
        out
    }
}

/// Writes the debug line of the parser for a message and the arguments it
/// works on.
pub fn parser_event(config: &LogConfig, message: &str, args: &str) -> (line: String)
    ensures
        line@ == log_line(
            *config,
            LogLevel::Debug,
            LogComponent::Parser,
            LogOperation::Parse,
            message@,
            Some(args@),
        ),
{
    debug_log(config, LogComponent::Parser, LogOperation::Parse, message, Some(args))
}

/// Writes the trace line of the tokenizer for a message, its input and,
/// where there are any, the tokens.
pub fn tokenizer_event(config: &LogConfig, message: &str, input: &str, tokens: Option<&str>) -> (line:
    String)
    ensures
        line@ == log_line(
            *config,
            LogLevel::Trace,
            LogComponent::Tokenizer,
            LogOperation::Tokenize,
            message@,
            Some(tokenizer_data(input@, tokens.deep_view())),
        ),
{
    match tokens {
        Some(t) => {
            let mut data = String::from_str("(");
            data.append(input);
            data.append(", ");
            data.append(t);
            data.append(")");
            trace_log(
                config,
                LogComponent::Tokenizer,
                LogOperation::Tokenize,
                message,
                Some(data.as_str()),
            )
        },
        None => trace_log(
            config,
            LogComponent::Tokenizer,
            LogOperation::Tokenize,
            message,
            Some(input),
        ),
    }
}

/// Writes the debug line of the validator for a message with optional data.
pub fn validation_event(config: &LogConfig, message: &str, data: Option<&str>) -> (line: String)
    ensures
        line@ == log_line(
            *config,
            LogLevel::Debug,
            LogComponent::Validator,
            LogOperation::Validate,
            message@,
            data.deep_view(),
        ),
{
    debug_log(config, LogComponent::Validator, LogOperation::Validate, message, data)
}

/// Writes the error line for a message and the error it is about.
pub fn error_event(
    config: &LogConfig,
    component: LogComponent,
    operation: LogOperation,
    message: &str,
    error: &Error,
) -> (line: String)
    ensures
        line@ == error_line(*config, component, operation, message@, Some(error)),
{
    error_log(config, component, operation, message, Some(error))
}

} // verus!
