//! Which logger a set of options asks for.

use vstd::prelude::*;
use vstd::string::*;
use crate::logging::{LogConfig, LogDestination, LogLevel, LogOptions, LogOptionsView, SyslogFacility};

verus! {

/// What has to be set up so that logging works as a set of options asks.
#[derive(Debug, Clone)]
pub enum InitAction {
    /// Connect to the system log.
    Syslog { level: LogLevel, facility: SyslogFacility, identifier: String },
    /// Log to the terminal.
    Terminal { level: LogLevel },
    /// Connect to the system log and tell the terminal about it.
    Both { level: LogLevel, facility: SyslogFacility, identifier: String },
    /// Set up nothing.
    Nothing,
}

/// The mathematical content of an [`InitAction`].
pub ghost enum InitActionView {
    Syslog { level: LogLevel, facility: SyslogFacility, identifier: Seq<char> },
    Terminal { level: LogLevel },
    Both { level: LogLevel, facility: SyslogFacility, identifier: Seq<char> },
    Nothing,
}

impl View for InitAction {
    type V = InitActionView;

    open spec fn view(&self) -> InitActionView {
        match self {
            InitAction::Syslog { level, facility, identifier } => InitActionView::Syslog {
                level: *level,
                facility: *facility,
                identifier: identifier@,
            },
            InitAction::Terminal { level } => InitActionView::Terminal { level: *level },
            InitAction::Both { level, facility, identifier } => InitActionView::Both {
                level: *level,
                facility: *facility,
                identifier: identifier@,
            },
            InitAction::Nothing => InitActionView::Nothing,
        }
    }
}

/// The facility that the options ask for: the given one, or the
/// authentication facility.
pub open spec fn chosen_facility(options: LogOptionsView) -> SyslogFacility {
    match options.syslog_facility {
        Some(f) => f,
        None => SyslogFacility::Auth,
    }
}

/// The name that the options ask for: the given one, or `pam_args`.
pub open spec fn chosen_identifier(options: LogOptionsView) -> Seq<char> {
    match options.syslog_identifier {
        Some(name) => name,
        None => "pam_args"@,
    }
}

/// The action that the options ask for.
pub open spec fn action_for(options: LogOptionsView) -> InitActionView {
    match options.destination {
        LogDestination::Syslog => InitActionView::Syslog {
            level: options.level,
            facility: chosen_facility(options),
            identifier: chosen_identifier(options),
        },
        LogDestination::Terminal => InitActionView::Terminal { level: options.level },
        LogDestination::Both => InitActionView::Both {
            level: options.level,
            facility: chosen_facility(options),
            identifier: chosen_identifier(options),
        },
        LogDestination::Existing => InitActionView::Nothing,
    }
}

/// Returns the facility that the options ask for.
fn facility_of(options: &LogOptions) -> (facility: SyslogFacility)
    ensures
        facility == chosen_facility(options@),
{
    match options.syslog_facility {
        Some(f) => f,
        None => SyslogFacility::Auth,
    }
}

/// Returns the name that the options ask for.
fn identifier_of(options: &LogOptions) -> (name: String)
    ensures
        name@ == chosen_identifier(options@),
{
    match &options.syslog_identifier {
        Some(name) => name.clone(),
        None => "pam_args".to_owned(),
    }
}

/// Decides what has to be set up for the given options.
pub fn with_options(options: &LogOptions) -> (action: InitAction)
    ensures
        action@ == action_for(options@),
{
    match options.destination {
        LogDestination::Syslog => InitAction::Syslog {
            level: options.level,
            facility: facility_of(options),
            identifier: identifier_of(options),
        },
        LogDestination::Terminal => InitAction::Terminal { level: options.level },
        LogDestination::Both => InitAction::Both {
            level: options.level,
            facility: facility_of(options),
            identifier: identifier_of(options),
        },
        LogDestination::Existing => InitAction::Nothing,
    }
}

/// The options of an authentication module: the system log, under the
/// authentication facility and the module's name.
pub fn for_pam(identifier: &str, level: LogLevel) -> (options: LogOptions)
    ensures
        options@ == (LogOptionsView {
            level,
            syslog_identifier: Some(identifier@),
            ..LogOptionsView::standard()
        }),
{
    LogOptions {
        destination: LogDestination::Syslog,
        level,
        config: LogConfig::default(),
        syslog_facility: Some(SyslogFacility::Auth),
        syslog_identifier: Some(identifier.to_owned()),
    }
}

/// The options for development: the terminal.
pub fn for_development(level: LogLevel) -> (options: LogOptions)
    ensures
        options@ == (LogOptionsView {
            destination: LogDestination::Terminal,
            level,
            ..LogOptionsView::standard()
        }),
{
    LogOptions {
        destination: LogDestination::Terminal,
        level,
        config: LogConfig::default(),
        syslog_facility: Some(SyslogFacility::Auth),
        syslog_identifier: Some("pam_args".to_owned()),
    }
}

/// The options for debugging a module: the system log and the terminal.
pub fn dual_output(identifier: &str, level: LogLevel) -> (options: LogOptions)
    ensures
        options@ == (LogOptionsView {
            destination: LogDestination::Both,
            level,
            syslog_identifier: Some(identifier@),
            ..LogOptionsView::standard()
        }),
{
    LogOptions {
        destination: LogDestination::Both,
        level,
        config: LogConfig::default(),
        syslog_facility: Some(SyslogFacility::Auth),
        syslog_identifier: Some(identifier.to_owned()),
    }
}

} // verus!
