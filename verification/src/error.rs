//! Error values reported by the argument parsing front-end.

use vstd::prelude::*;
use crate::text::{concat2, concat3, concat5, same_text};
use vstd::string::*;

verus! {

/// Every way in which parsing or converting an argument can fail.
#[derive(Debug, Clone, PartialEq)]
pub enum Error {
    /// A required argument was not provided; holds the argument's name.
    RequiredArgMissing(String),
    /// Two mutually exclusive arguments were both provided.
    MutuallyExclusiveArgs(String, String),
    /// A key-value argument has a shape that is not accepted.
    InvalidKeyValue(String),
    /// An argument that no definition matches.
    UnrecognizedArg(String),
    /// A value that is not an integer; holds the value.
    InvalidIntValue(String),
    /// A value that is not a boolean literal; holds the value.
    InvalidBoolValue(String),
    /// An argument was given without the argument it depends on.
    DependencyNotMet(String, String),
    /// A value outside the allowed set; holds the argument and the value.
    InvalidValue(String, String),
    /// An argument name that is defined more than once.
    DuplicateArgName(String),
    /// A quote or bracket that is never closed.
    UnclosedDelimiter(String),
    /// A bracket opened inside a bracketed list.
    NestedBrackets(String),
    /// Input that is malformed in some other way.
    InvalidInput(String),
    /// A failure that should not happen.
    UnexpectedError(String),
}

/// Outcome of an operation of this library.
pub type Result<T> = core::result::Result<T, Error>;

/// The mathematical content of an [`Error`]: its variant and its texts.
pub ghost enum ErrorView {
    RequiredArgMissing(Seq<char>),
    MutuallyExclusiveArgs(Seq<char>, Seq<char>),
    InvalidKeyValue(Seq<char>),
    UnrecognizedArg(Seq<char>),
    InvalidIntValue(Seq<char>),
    InvalidBoolValue(Seq<char>),
    DependencyNotMet(Seq<char>, Seq<char>),
    InvalidValue(Seq<char>, Seq<char>),
    DuplicateArgName(Seq<char>),
    UnclosedDelimiter(Seq<char>),
    NestedBrackets(Seq<char>),
    InvalidInput(Seq<char>),
    UnexpectedError(Seq<char>),
}

impl View for Error {
    type V = ErrorView;

    open spec fn view(&self) -> ErrorView {
        match self {
            Error::RequiredArgMissing(a) => ErrorView::RequiredArgMissing(a@),
            Error::MutuallyExclusiveArgs(a, b) => ErrorView::MutuallyExclusiveArgs(a@, b@),
            Error::InvalidKeyValue(a) => ErrorView::InvalidKeyValue(a@),
            Error::UnrecognizedArg(a) => ErrorView::UnrecognizedArg(a@),
            Error::InvalidIntValue(a) => ErrorView::InvalidIntValue(a@),
            Error::InvalidBoolValue(a) => ErrorView::InvalidBoolValue(a@),
            Error::DependencyNotMet(a, b) => ErrorView::DependencyNotMet(a@, b@),
            Error::InvalidValue(a, b) => ErrorView::InvalidValue(a@, b@),
            Error::DuplicateArgName(a) => ErrorView::DuplicateArgName(a@),
            Error::UnclosedDelimiter(a) => ErrorView::UnclosedDelimiter(a@),
            Error::NestedBrackets(a) => ErrorView::NestedBrackets(a@),
            Error::InvalidInput(a) => ErrorView::InvalidInput(a@),
            Error::UnexpectedError(a) => ErrorView::UnexpectedError(a@),
        }
    }
}

impl ErrorView {
    /// The stable identifier of the variant.
    pub open spec fn code(self) -> Seq<char> {
        match self {
            ErrorView::RequiredArgMissing(_) => "REQUIRED_ARG_MISSING"@,
            ErrorView::MutuallyExclusiveArgs(_, _) => "MUTUALLY_EXCLUSIVE_ARGS"@,
            ErrorView::InvalidKeyValue(_) => "INVALID_KEY_VALUE"@,
            ErrorView::UnrecognizedArg(_) => "UNRECOGNIZED_ARG"@,
            ErrorView::InvalidIntValue(_) => "INVALID_INT_VALUE"@,
            ErrorView::InvalidBoolValue(_) => "INVALID_BOOL_VALUE"@,
            ErrorView::DependencyNotMet(_, _) => "DEPENDENCY_NOT_MET"@,
            ErrorView::InvalidValue(_, _) => "INVALID_VALUE"@,
            ErrorView::DuplicateArgName(_) => "DUPLICATE_ARG_NAME"@,
            ErrorView::UnclosedDelimiter(_) => "UNCLOSED_DELIMITER"@,
            ErrorView::NestedBrackets(_) => "NESTED_BRACKETS"@,
            ErrorView::InvalidInput(_) => "INVALID_INPUT"@,
            ErrorView::UnexpectedError(_) => "UNEXPECTED_ERROR"@,
        }
    }

    /// The one-line message of the error.
    pub open spec fn message(self) -> Seq<char> {
        match self {
            ErrorView::RequiredArgMissing(a) => "Required argument missing: "@ + a,
            ErrorView::MutuallyExclusiveArgs(a, b) => "Mutually exclusive arguments found: "@ + a
                + " and "@ + b,
            ErrorView::InvalidKeyValue(a) => "Invalid key-value pair: "@ + a,
            ErrorView::UnrecognizedArg(a) => "Unrecognized argument: "@ + a,
            ErrorView::InvalidIntValue(a) => "Invalid integer value: "@ + a,
            ErrorView::InvalidBoolValue(a) => "Invalid boolean value: "@ + a,
            ErrorView::DependencyNotMet(a, b) => "Dependency not met: "@ + a + " requires "@ + b,
            ErrorView::InvalidValue(a, b) => "Invalid value for "@ + a + ": "@ + b,
            ErrorView::DuplicateArgName(a) => "Duplicate argument name: "@ + a,
            ErrorView::UnclosedDelimiter(a) => "Unclosed delimiter: "@ + a,
            ErrorView::NestedBrackets(a) => "Nested brackets not supported: "@ + a,
            ErrorView::InvalidInput(a) => "Invalid input: "@ + a,
            ErrorView::UnexpectedError(a) => "Unexpected error: "@ + a,
        }
    }

    /// The longer description of the error, with a hint at how to mend the input.
    pub open spec fn details(self) -> Seq<char> {
        match self {
            ErrorView::RequiredArgMissing(a) => "The required argument '"@ + a
                + "' was not provided. Please ensure all required arguments are included."@,
            ErrorView::MutuallyExclusiveArgs(a, b) => "The arguments '"@ + a + "' and '"@ + b
                + "' cannot be used together. Please provide only one of these arguments."@,
            ErrorView::InvalidKeyValue(a) => "The key-value pair '"@ + a
                + "' has an invalid format. Key-value pairs should be in the format 'key=value'."@,
            ErrorView::UnrecognizedArg(a) => "The argument '"@ + a
                + "' is not recognized. Please check for typos or refer to the documentation for valid arguments."@,
            ErrorView::InvalidIntValue(a) => "The value '"@ + a
                + "' could not be parsed as an integer. Please provide a valid integer value."@,
            ErrorView::InvalidBoolValue(a) => "The value '"@ + a
                + "' could not be parsed as a boolean. Valid boolean values include 'true', 'false', 'yes', 'no', '1', '0', 'on', 'off'."@,
            ErrorView::DependencyNotMet(a, b) => "The argument '"@ + a + "' requires '"@ + b
                + "' to also be provided. Please include the required dependency."@,
            ErrorView::InvalidValue(a, b) => "The value '"@ + b + "' is not valid for the argument '"@
                + a + "'. Please refer to the documentation for allowed values."@,
            ErrorView::DuplicateArgName(a) => "The argument name '"@ + a
                + "' is defined more than once. Each argument name must be unique."@,
            ErrorView::UnclosedDelimiter(a) => "An unclosed delimiter was found: "@ + a
                + ". Please ensure all quotes and brackets are properly closed."@,
            ErrorView::NestedBrackets(a) => "Nested brackets are not supported: "@ + a
                + ". Please restructure your arguments to avoid nested brackets."@,
            ErrorView::InvalidInput(a) => "The input is invalid: "@ + a
                + ". Please check your input and try again."@,
            ErrorView::UnexpectedError(a) => "An unexpected error occurred: "@ + a
                + ". This is likely a bug in the library. Please report this issue."@,
        }
    }
}

impl Error {
    /// Returns the stable identifier of this error's variant.
    pub fn code(&self) -> (code: &'static str)
        ensures
            code@ == self@.code(),
    {
        match self {
            Error::RequiredArgMissing(_) => "REQUIRED_ARG_MISSING",
            Error::MutuallyExclusiveArgs(_, _) => "MUTUALLY_EXCLUSIVE_ARGS",
            Error::InvalidKeyValue(_) => "INVALID_KEY_VALUE",
            Error::UnrecognizedArg(_) => "UNRECOGNIZED_ARG",
            Error::InvalidIntValue(_) => "INVALID_INT_VALUE",
            Error::InvalidBoolValue(_) => "INVALID_BOOL_VALUE",
            Error::DependencyNotMet(_, _) => "DEPENDENCY_NOT_MET",
            Error::InvalidValue(_, _) => "INVALID_VALUE",
            Error::DuplicateArgName(_) => "DUPLICATE_ARG_NAME",
            Error::UnclosedDelimiter(_) => "UNCLOSED_DELIMITER",
            Error::NestedBrackets(_) => "NESTED_BRACKETS",
            Error::InvalidInput(_) => "INVALID_INPUT",
            Error::UnexpectedError(_) => "UNEXPECTED_ERROR",
        }
    }

    /// Returns the one-line message of this error.
    pub fn to_string(&self) -> (text: String)
        ensures
            text@ == self@.message(),
    {
        match self {
            Error::RequiredArgMissing(a) => concat2("Required argument missing: ", a.as_str()),
            Error::MutuallyExclusiveArgs(a, b) => {
                let head = concat3("Mutually exclusive arguments found: ", a.as_str(), " and ");
                concat2(head.as_str(), b.as_str())
            },
            Error::InvalidKeyValue(a) => concat2("Invalid key-value pair: ", a.as_str()),
            Error::UnrecognizedArg(a) => concat2("Unrecognized argument: ", a.as_str()),
            Error::InvalidIntValue(a) => concat2("Invalid integer value: ", a.as_str()),
            Error::InvalidBoolValue(a) => concat2("Invalid boolean value: ", a.as_str()),
            Error::DependencyNotMet(a, b) => {
                let head = concat3("Dependency not met: ", a.as_str(), " requires ");
                concat2(head.as_str(), b.as_str())
            },
            Error::InvalidValue(a, b) => {
                let head = concat3("Invalid value for ", a.as_str(), ": ");
                concat2(head.as_str(), b.as_str())
            },
            Error::DuplicateArgName(a) => concat2("Duplicate argument name: ", a.as_str()),
            Error::UnclosedDelimiter(a) => concat2("Unclosed delimiter: ", a.as_str()),
            Error::NestedBrackets(a) => concat2("Nested brackets not supported: ", a.as_str()),
            Error::InvalidInput(a) => concat2("Invalid input: ", a.as_str()),
            Error::UnexpectedError(a) => concat2("Unexpected error: ", a.as_str()),
        }
    }

    /// Returns a longer description of this error, with a hint at how to mend the input.
    pub fn details(&self) -> (text: String)
        ensures
            text@ == self@.details(),
    {
        match self {
            Error::RequiredArgMissing(a) => concat3(
                "The required argument '",
                a.as_str(),
                "' was not provided. Please ensure all required arguments are included.",
            ),
            Error::MutuallyExclusiveArgs(a, b) => concat5(
                "The arguments '",
                a.as_str(),
                "' and '",
                b.as_str(),
                "' cannot be used together. Please provide only one of these arguments.",
            ),
            Error::InvalidKeyValue(a) => concat3(
                "The key-value pair '",
                a.as_str(),
                "' has an invalid format. Key-value pairs should be in the format 'key=value'.",
            ),
            Error::UnrecognizedArg(a) => concat3(
                "The argument '",
                a.as_str(),
                "' is not recognized. Please check for typos or refer to the documentation for valid arguments.",
            ),
            Error::InvalidIntValue(a) => concat3(
                "The value '",
                a.as_str(),
                "' could not be parsed as an integer. Please provide a valid integer value.",
            ),
            Error::InvalidBoolValue(a) => concat3(
                "The value '",
                a.as_str(),
                "' could not be parsed as a boolean. Valid boolean values include 'true', 'false', 'yes', 'no', '1', '0', 'on', 'off'.",
            ),
            Error::DependencyNotMet(a, b) => concat5(
                "The argument '",
                a.as_str(),
                "' requires '",
                b.as_str(),
                "' to also be provided. Please include the required dependency.",
            ),
            Error::InvalidValue(a, b) => concat5(
                "The value '",
                b.as_str(),
                "' is not valid for the argument '",
                a.as_str(),
                "'. Please refer to the documentation for allowed values.",
            ),
            Error::DuplicateArgName(a) => concat3(
                "The argument name '",
                a.as_str(),
                "' is defined more than once. Each argument name must be unique.",
            ),
            Error::UnclosedDelimiter(a) => concat3(
                "An unclosed delimiter was found: ",
                a.as_str(),
                ". Please ensure all quotes and brackets are properly closed.",
            ),
            Error::NestedBrackets(a) => concat3(
                "Nested brackets are not supported: ",
                a.as_str(),
                ". Please restructure your arguments to avoid nested brackets.",
            ),
            Error::InvalidInput(a) => concat3(
                "The input is invalid: ",
                a.as_str(),
                ". Please check your input and try again.",
            ),
            Error::UnexpectedError(a) => concat3(
                "An unexpected error occurred: ",
                a.as_str(),
                ". This is likely a bug in the library. Please report this issue.",
            ),
        }
    }
}

} // verus!

verus! {

/// The texts of an error under their names, as a record of the error holds
/// them. A record holds the code and the message, and the texts of the
/// error's variant: `argument`, `argument1` and `argument2`, `dependency`,
/// `value`, `key_value` or `info`.
#[derive(Debug, Clone, PartialEq)]
pub struct ErrorRecord {
    pub code: Option<String>,
    pub message: Option<String>,
    pub argument: Option<String>,
    pub argument1: Option<String>,
    pub argument2: Option<String>,
    pub dependency: Option<String>,
    pub value: Option<String>,
    pub key_value: Option<String>,
    pub info: Option<String>,
}

/// The mathematical content of an [`ErrorRecord`].
pub ghost struct ErrorRecordView {
    pub code: Option<Seq<char>>,
    pub message: Option<Seq<char>>,
    pub argument: Option<Seq<char>>,
    pub argument1: Option<Seq<char>>,
    pub argument2: Option<Seq<char>>,
    pub dependency: Option<Seq<char>>,
    pub value: Option<Seq<char>>,
    pub key_value: Option<Seq<char>>,
    pub info: Option<Seq<char>>,
}

impl View for ErrorRecord {
    type V = ErrorRecordView;

    open spec fn view(&self) -> ErrorRecordView {
        ErrorRecordView {
            code: self.code.deep_view(),
            message: self.message.deep_view(),
            argument: self.argument.deep_view(),
            argument1: self.argument1.deep_view(),
            argument2: self.argument2.deep_view(),
            dependency: self.dependency.deep_view(),
            value: self.value.deep_view(),
            key_value: self.key_value.deep_view(),
            info: self.info.deep_view(),
        }
    }
}

impl ErrorRecordView {
    /// A record with nothing in it.
    pub open spec fn blank() -> ErrorRecordView {
        ErrorRecordView {
            code: None,
            message: None,
            argument: None,
            argument1: None,
            argument2: None,
            dependency: None,
            value: None,
            key_value: None,
            info: None,
        }
    }
}

impl ErrorView {
    /// The record of the error: its code, its message and its texts under
    /// the names of its variant.
    pub open spec fn record(self) -> ErrorRecordView {
        let base = ErrorRecordView {
            code: Some(self.code()),
            message: Some(self.message()),
            ..ErrorRecordView::blank()
        };
        match self {
            ErrorView::RequiredArgMissing(a) => ErrorRecordView { argument: Some(a), ..base },
            ErrorView::MutuallyExclusiveArgs(a, b) => ErrorRecordView { argument1: Some(a), argument2: Some(b), ..base },
            ErrorView::InvalidKeyValue(a) => ErrorRecordView { key_value: Some(a), ..base },
            ErrorView::UnrecognizedArg(a) => ErrorRecordView { argument: Some(a), ..base },
            ErrorView::InvalidIntValue(a) => ErrorRecordView { value: Some(a), ..base },
            ErrorView::InvalidBoolValue(a) => ErrorRecordView { value: Some(a), ..base },
            ErrorView::DependencyNotMet(a, b) => ErrorRecordView { argument: Some(a), dependency: Some(b), ..base },
            ErrorView::InvalidValue(a, b) => ErrorRecordView { argument: Some(a), value: Some(b), ..base },
            ErrorView::DuplicateArgName(a) => ErrorRecordView { argument: Some(a), ..base },
            ErrorView::UnclosedDelimiter(a) => ErrorRecordView { info: Some(a), ..base },
            ErrorView::NestedBrackets(a) => ErrorRecordView { info: Some(a), ..base },
            ErrorView::InvalidInput(a) => ErrorRecordView { info: Some(a), ..base },
            ErrorView::UnexpectedError(a) => ErrorRecordView { info: Some(a), ..base },
        }
    }
}

/// The text of a record that a variant needs, or the name under which it is
/// missing.
pub open spec fn needed(text: Option<Seq<char>>, name: Seq<char>) -> core::result::Result<
    Seq<char>,
    Seq<char>,
> {
    match text {
        Some(t) => Ok(t),
        None => Err(name),
    }
}

/// The error that a record stands for, or the name of the first text that
/// the record lacks.
///
/// The code decides the variant, and the variant which texts are needed. A
/// record without a code lacks `code`. A code that is none of the thirteen
/// makes an unexpected error of the record's message, or of
/// `Unknown error code` where the record has no message.
pub open spec fn error_of(r: ErrorRecordView) -> core::result::Result<ErrorView, Seq<char>> {
    match r.code {
        None => Err("code"@),
        Some(code) => {
            if code == "REQUIRED_ARG_MISSING"@ {
                match needed(r.argument, "argument"@) {
                    Ok(a) => Ok(ErrorView::RequiredArgMissing(a)),
                    Err(name) => Err(name),
                }
            } else if code == "MUTUALLY_EXCLUSIVE_ARGS"@ {
                match needed(r.argument1, "argument1"@) {
                    Ok(a) => match needed(r.argument2, "argument2"@) {
                        Ok(b) => Ok(ErrorView::MutuallyExclusiveArgs(a, b)),
                        Err(name) => Err(name),
                    },
                    Err(name) => Err(name),
                }
            } else if code == "INVALID_KEY_VALUE"@ {
                match needed(r.key_value, "key_value"@) {
                    Ok(a) => Ok(ErrorView::InvalidKeyValue(a)),
                    Err(name) => Err(name),
                }
            } else if code == "UNRECOGNIZED_ARG"@ {
                match needed(r.argument, "argument"@) {
                    Ok(a) => Ok(ErrorView::UnrecognizedArg(a)),
                    Err(name) => Err(name),
                }
            } else if code == "INVALID_INT_VALUE"@ {
                match needed(r.value, "value"@) {
                    Ok(a) => Ok(ErrorView::InvalidIntValue(a)),
                    Err(name) => Err(name),
                }
            } else if code == "INVALID_BOOL_VALUE"@ {
                match needed(r.value, "value"@) {
                    Ok(a) => Ok(ErrorView::InvalidBoolValue(a)),
                    Err(name) => Err(name),
                }
            } else if code == "DEPENDENCY_NOT_MET"@ {
                match needed(r.argument, "argument"@) {
                    Ok(a) => match needed(r.dependency, "dependency"@) {
                        Ok(b) => Ok(ErrorView::DependencyNotMet(a, b)),
                        Err(name) => Err(name),
                    },
                    Err(name) => Err(name),
                }
            } else if code == "INVALID_VALUE"@ {
                match needed(r.argument, "argument"@) {
                    Ok(a) => match needed(r.value, "value"@) {
                        Ok(b) => Ok(ErrorView::InvalidValue(a, b)),
                        Err(name) => Err(name),
                    },
                    Err(name) => Err(name),
                }
            } else if code == "DUPLICATE_ARG_NAME"@ {
                match needed(r.argument, "argument"@) {
                    Ok(a) => Ok(ErrorView::DuplicateArgName(a)),
                    Err(name) => Err(name),
                }
            } else if code == "UNCLOSED_DELIMITER"@ {
                match needed(r.info, "info"@) {
                    Ok(a) => Ok(ErrorView::UnclosedDelimiter(a)),
                    Err(name) => Err(name),
                }
            } else if code == "NESTED_BRACKETS"@ {
                match needed(r.info, "info"@) {
                    Ok(a) => Ok(ErrorView::NestedBrackets(a)),
                    Err(name) => Err(name),
                }
            } else if code == "INVALID_INPUT"@ {
                match needed(r.info, "info"@) {
                    Ok(a) => Ok(ErrorView::InvalidInput(a)),
                    Err(name) => Err(name),
                }
            } else if code == "UNEXPECTED_ERROR"@ {
                match needed(r.info, "info"@) {
                    Ok(a) => Ok(ErrorView::UnexpectedError(a)),
                    Err(name) => Err(name),
                }
            } else {
                match r.message {
                    Some(m) => Ok(ErrorView::UnexpectedError(m)),
                    None => Ok(ErrorView::UnexpectedError("Unknown error code"@)),
                }
            }
        },
    }
}

/// Takes a text that a variant needs out of a record.
fn take_needed(text: Option<String>, name: &'static str) -> (out: core::result::Result<
    String,
    &'static str,
>)
    ensures
        match needed(text.deep_view(), name@) {
            Ok(t) => out matches Ok(s) && s@ == t,
            Err(n) => out matches Err(m) && m@ == n,
        },
{
    match text {
        Some(t) => Ok(t),
        None => Err(name),
    }
}

impl Error {
    /// Writes the record of this error.
    pub fn to_record(&self) -> (record: ErrorRecord)
        ensures
            record@ == self@.record(),
    {
        let mut record = ErrorRecord {
            code: Some(self.code().to_owned()),
            message: Some(self.to_string()),
            argument: None,
            argument1: None,
            argument2: None,
            dependency: None,
            value: None,
            key_value: None,
            info: None,
        };
        match self {
            Error::RequiredArgMissing(a) => {
                record.argument = Some(a.clone());
            },
            Error::MutuallyExclusiveArgs(a, b) => {
                record.argument1 = Some(a.clone());
                record.argument2 = Some(b.clone());
            },
            Error::InvalidKeyValue(a) => {
                record.key_value = Some(a.clone());
            },
            Error::UnrecognizedArg(a) => {
                record.argument = Some(a.clone());
            },
            Error::InvalidIntValue(a) => {
                record.value = Some(a.clone());
            },
            Error::InvalidBoolValue(a) => {
                record.value = Some(a.clone());
            },
            Error::DependencyNotMet(a, b) => {
                record.argument = Some(a.clone());
                record.dependency = Some(b.clone());
            },
            Error::InvalidValue(a, b) => {
                record.argument = Some(a.clone());
                record.value = Some(b.clone());
            },
            Error::DuplicateArgName(a) => {
                record.argument = Some(a.clone());
            },
            Error::UnclosedDelimiter(a) => {
                record.info = Some(a.clone());
            },
            Error::NestedBrackets(a) => {
                record.info = Some(a.clone());
            },
            Error::InvalidInput(a) => {
                record.info = Some(a.clone());
            },
            Error::UnexpectedError(a) => {
                record.info = Some(a.clone());
            },
        }
        record
    }

    /// Reads an error from its record. Where the record lacks a text that the
    /// error needs, the name of the first such text comes back instead.
    pub fn from_record(record: ErrorRecord) -> (out: core::result::Result<Error, &'static str>)
        ensures
            match error_of(record@) {
                Ok(error) => out matches Ok(e) && e@ == error,
                Err(name) => out matches Err(n) && n@ == name,
            },
    {
        let code = match record.code {
            Some(code) => code,
            None => {
                return Err("code");
            },
        };
        if same_text(code.as_str(), "REQUIRED_ARG_MISSING") {
            match take_needed(record.argument, "argument") {
                Ok(a) => Ok(Error::RequiredArgMissing(a)),
                Err(name) => Err(name),
            }
        } else if same_text(code.as_str(), "MUTUALLY_EXCLUSIVE_ARGS") {
            match take_needed(record.argument1, "argument1") {
                Ok(a) => match take_needed(record.argument2, "argument2") {
                    Ok(b) => Ok(Error::MutuallyExclusiveArgs(a, b)),
                    Err(name) => Err(name),
                },
                Err(name) => Err(name),
            }
        } else if same_text(code.as_str(), "INVALID_KEY_VALUE") {
            match take_needed(record.key_value, "key_value") {
                Ok(a) => Ok(Error::InvalidKeyValue(a)),
                Err(name) => Err(name),
            }
        } else if same_text(code.as_str(), "UNRECOGNIZED_ARG") {
            match take_needed(record.argument, "argument") {
                Ok(a) => Ok(Error::UnrecognizedArg(a)),
                Err(name) => Err(name),
            }
        } else if same_text(code.as_str(), "INVALID_INT_VALUE") {
            match take_needed(record.value, "value") {
                Ok(a) => Ok(Error::InvalidIntValue(a)),
                Err(name) => Err(name),
            }
        } else if same_text(code.as_str(), "INVALID_BOOL_VALUE") {
            match take_needed(record.value, "value") {
                Ok(a) => Ok(Error::InvalidBoolValue(a)),
                Err(name) => Err(name),
            }
        } else if same_text(code.as_str(), "DEPENDENCY_NOT_MET") {
            match take_needed(record.argument, "argument") {
                Ok(a) => match take_needed(record.dependency, "dependency") {
                    Ok(b) => Ok(Error::DependencyNotMet(a, b)),
                    Err(name) => Err(name),
                },
                Err(name) => Err(name),
            }
        } else if same_text(code.as_str(), "INVALID_VALUE") {
            match take_needed(record.argument, "argument") {
                Ok(a) => match take_needed(record.value, "value") {
                    Ok(b) => Ok(Error::InvalidValue(a, b)),
                    Err(name) => Err(name),
                },
                Err(name) => Err(name),
            }
        } else if same_text(code.as_str(), "DUPLICATE_ARG_NAME") {
            match take_needed(record.argument, "argument") {
                Ok(a) => Ok(Error::DuplicateArgName(a)),
                Err(name) => Err(name),
            }
        } else if same_text(code.as_str(), "UNCLOSED_DELIMITER") {
            match take_needed(record.info, "info") {
                Ok(a) => Ok(Error::UnclosedDelimiter(a)),
                Err(name) => Err(name),
            }
        } else if same_text(code.as_str(), "NESTED_BRACKETS") {
            match take_needed(record.info, "info") {
                Ok(a) => Ok(Error::NestedBrackets(a)),
                Err(name) => Err(name),
            }
        } else if same_text(code.as_str(), "INVALID_INPUT") {
            match take_needed(record.info, "info") {
                Ok(a) => Ok(Error::InvalidInput(a)),
                Err(name) => Err(name),
            }
        } else if same_text(code.as_str(), "UNEXPECTED_ERROR") {
            match take_needed(record.info, "info") {
                Ok(a) => Ok(Error::UnexpectedError(a)),
                Err(name) => Err(name),
            }
        } else {
            match record.message {
                Some(m) => Ok(Error::UnexpectedError(m)),
                None => Ok(Error::UnexpectedError("Unknown error code".to_owned())),
            }
        }
    }
}

/// The thirteen codes differ from each other.
proof fn codes_differ()
    ensures
        "REQUIRED_ARG_MISSING"@ != "MUTUALLY_EXCLUSIVE_ARGS"@,
        "REQUIRED_ARG_MISSING"@ != "INVALID_KEY_VALUE"@,
        "REQUIRED_ARG_MISSING"@ != "UNRECOGNIZED_ARG"@,
        "REQUIRED_ARG_MISSING"@ != "INVALID_INT_VALUE"@,
        "REQUIRED_ARG_MISSING"@ != "INVALID_BOOL_VALUE"@,
        "REQUIRED_ARG_MISSING"@ != "DEPENDENCY_NOT_MET"@,
        "REQUIRED_ARG_MISSING"@ != "INVALID_VALUE"@,
        "REQUIRED_ARG_MISSING"@ != "DUPLICATE_ARG_NAME"@,
        "REQUIRED_ARG_MISSING"@ != "UNCLOSED_DELIMITER"@,
        "REQUIRED_ARG_MISSING"@ != "NESTED_BRACKETS"@,
        "REQUIRED_ARG_MISSING"@ != "INVALID_INPUT"@,
        "REQUIRED_ARG_MISSING"@ != "UNEXPECTED_ERROR"@,
        "MUTUALLY_EXCLUSIVE_ARGS"@ != "INVALID_KEY_VALUE"@,
        "MUTUALLY_EXCLUSIVE_ARGS"@ != "UNRECOGNIZED_ARG"@,
        "MUTUALLY_EXCLUSIVE_ARGS"@ != "INVALID_INT_VALUE"@,
        "MUTUALLY_EXCLUSIVE_ARGS"@ != "INVALID_BOOL_VALUE"@,
        "MUTUALLY_EXCLUSIVE_ARGS"@ != "DEPENDENCY_NOT_MET"@,
        "MUTUALLY_EXCLUSIVE_ARGS"@ != "INVALID_VALUE"@,
        "MUTUALLY_EXCLUSIVE_ARGS"@ != "DUPLICATE_ARG_NAME"@,
        "MUTUALLY_EXCLUSIVE_ARGS"@ != "UNCLOSED_DELIMITER"@,
        "MUTUALLY_EXCLUSIVE_ARGS"@ != "NESTED_BRACKETS"@,
        "MUTUALLY_EXCLUSIVE_ARGS"@ != "INVALID_INPUT"@,
        "MUTUALLY_EXCLUSIVE_ARGS"@ != "UNEXPECTED_ERROR"@,
        "INVALID_KEY_VALUE"@ != "UNRECOGNIZED_ARG"@,
        "INVALID_KEY_VALUE"@ != "INVALID_INT_VALUE"@,
        "INVALID_KEY_VALUE"@ != "INVALID_BOOL_VALUE"@,
        "INVALID_KEY_VALUE"@ != "DEPENDENCY_NOT_MET"@,
        "INVALID_KEY_VALUE"@ != "INVALID_VALUE"@,
        "INVALID_KEY_VALUE"@ != "DUPLICATE_ARG_NAME"@,
        "INVALID_KEY_VALUE"@ != "UNCLOSED_DELIMITER"@,
        "INVALID_KEY_VALUE"@ != "NESTED_BRACKETS"@,
        "INVALID_KEY_VALUE"@ != "INVALID_INPUT"@,
        "INVALID_KEY_VALUE"@ != "UNEXPECTED_ERROR"@,
        "UNRECOGNIZED_ARG"@ != "INVALID_INT_VALUE"@,
        "UNRECOGNIZED_ARG"@ != "INVALID_BOOL_VALUE"@,
        "UNRECOGNIZED_ARG"@ != "DEPENDENCY_NOT_MET"@,
        "UNRECOGNIZED_ARG"@ != "INVALID_VALUE"@,
        "UNRECOGNIZED_ARG"@ != "DUPLICATE_ARG_NAME"@,
        "UNRECOGNIZED_ARG"@ != "UNCLOSED_DELIMITER"@,
        "UNRECOGNIZED_ARG"@ != "NESTED_BRACKETS"@,
        "UNRECOGNIZED_ARG"@ != "INVALID_INPUT"@,
        "UNRECOGNIZED_ARG"@ != "UNEXPECTED_ERROR"@,
        "INVALID_INT_VALUE"@ != "INVALID_BOOL_VALUE"@,
        "INVALID_INT_VALUE"@ != "DEPENDENCY_NOT_MET"@,
        "INVALID_INT_VALUE"@ != "INVALID_VALUE"@,
        "INVALID_INT_VALUE"@ != "DUPLICATE_ARG_NAME"@,
        "INVALID_INT_VALUE"@ != "UNCLOSED_DELIMITER"@,
        "INVALID_INT_VALUE"@ != "NESTED_BRACKETS"@,
        "INVALID_INT_VALUE"@ != "INVALID_INPUT"@,
        "INVALID_INT_VALUE"@ != "UNEXPECTED_ERROR"@,
        "INVALID_BOOL_VALUE"@ != "DEPENDENCY_NOT_MET"@,
        "INVALID_BOOL_VALUE"@ != "INVALID_VALUE"@,
        "INVALID_BOOL_VALUE"@ != "DUPLICATE_ARG_NAME"@,
        "INVALID_BOOL_VALUE"@ != "UNCLOSED_DELIMITER"@,
        "INVALID_BOOL_VALUE"@ != "NESTED_BRACKETS"@,
        "INVALID_BOOL_VALUE"@ != "INVALID_INPUT"@,
        "INVALID_BOOL_VALUE"@ != "UNEXPECTED_ERROR"@,
        "DEPENDENCY_NOT_MET"@ != "INVALID_VALUE"@,
        "DEPENDENCY_NOT_MET"@ != "DUPLICATE_ARG_NAME"@,
        "DEPENDENCY_NOT_MET"@ != "UNCLOSED_DELIMITER"@,
        "DEPENDENCY_NOT_MET"@ != "NESTED_BRACKETS"@,
        "DEPENDENCY_NOT_MET"@ != "INVALID_INPUT"@,
        "DEPENDENCY_NOT_MET"@ != "UNEXPECTED_ERROR"@,
        "INVALID_VALUE"@ != "DUPLICATE_ARG_NAME"@,
        "INVALID_VALUE"@ != "UNCLOSED_DELIMITER"@,
        "INVALID_VALUE"@ != "NESTED_BRACKETS"@,
        "INVALID_VALUE"@ != "INVALID_INPUT"@,
        "INVALID_VALUE"@ != "UNEXPECTED_ERROR"@,
        "DUPLICATE_ARG_NAME"@ != "UNCLOSED_DELIMITER"@,
        "DUPLICATE_ARG_NAME"@ != "NESTED_BRACKETS"@,
        "DUPLICATE_ARG_NAME"@ != "INVALID_INPUT"@,
        "DUPLICATE_ARG_NAME"@ != "UNEXPECTED_ERROR"@,
        "UNCLOSED_DELIMITER"@ != "NESTED_BRACKETS"@,
        "UNCLOSED_DELIMITER"@ != "INVALID_INPUT"@,
        "UNCLOSED_DELIMITER"@ != "UNEXPECTED_ERROR"@,
        "NESTED_BRACKETS"@ != "INVALID_INPUT"@,
        "NESTED_BRACKETS"@ != "UNEXPECTED_ERROR"@,
        "INVALID_INPUT"@ != "UNEXPECTED_ERROR"@,
{
    reveal_strlit("REQUIRED_ARG_MISSING");
    reveal_strlit("MUTUALLY_EXCLUSIVE_ARGS");
    reveal_strlit("INVALID_KEY_VALUE");
    reveal_strlit("UNRECOGNIZED_ARG");
    reveal_strlit("INVALID_INT_VALUE");
    reveal_strlit("INVALID_BOOL_VALUE");
    reveal_strlit("DEPENDENCY_NOT_MET");
    reveal_strlit("INVALID_VALUE");
    reveal_strlit("DUPLICATE_ARG_NAME");
    reveal_strlit("UNCLOSED_DELIMITER");
    reveal_strlit("NESTED_BRACKETS");
    reveal_strlit("INVALID_INPUT");
    reveal_strlit("UNEXPECTED_ERROR");
    assert("REQUIRED_ARG_MISSING"@.len() != "MUTUALLY_EXCLUSIVE_ARGS"@.len());
    assert("REQUIRED_ARG_MISSING"@.len() != "INVALID_KEY_VALUE"@.len());
    assert("REQUIRED_ARG_MISSING"@.len() != "UNRECOGNIZED_ARG"@.len());
    assert("REQUIRED_ARG_MISSING"@.len() != "INVALID_INT_VALUE"@.len());
    assert("REQUIRED_ARG_MISSING"@.len() != "INVALID_BOOL_VALUE"@.len());
    assert("REQUIRED_ARG_MISSING"@.len() != "DEPENDENCY_NOT_MET"@.len());
    assert("REQUIRED_ARG_MISSING"@.len() != "INVALID_VALUE"@.len());
    assert("REQUIRED_ARG_MISSING"@.len() != "DUPLICATE_ARG_NAME"@.len());
    assert("REQUIRED_ARG_MISSING"@.len() != "UNCLOSED_DELIMITER"@.len());
    assert("REQUIRED_ARG_MISSING"@.len() != "NESTED_BRACKETS"@.len());
    assert("REQUIRED_ARG_MISSING"@.len() != "INVALID_INPUT"@.len());
    assert("REQUIRED_ARG_MISSING"@.len() != "UNEXPECTED_ERROR"@.len());
    assert("MUTUALLY_EXCLUSIVE_ARGS"@.len() != "INVALID_KEY_VALUE"@.len());
    assert("MUTUALLY_EXCLUSIVE_ARGS"@.len() != "UNRECOGNIZED_ARG"@.len());
    assert("MUTUALLY_EXCLUSIVE_ARGS"@.len() != "INVALID_INT_VALUE"@.len());
    assert("MUTUALLY_EXCLUSIVE_ARGS"@.len() != "INVALID_BOOL_VALUE"@.len());
    assert("MUTUALLY_EXCLUSIVE_ARGS"@.len() != "DEPENDENCY_NOT_MET"@.len());
    assert("MUTUALLY_EXCLUSIVE_ARGS"@.len() != "INVALID_VALUE"@.len());
    assert("MUTUALLY_EXCLUSIVE_ARGS"@.len() != "DUPLICATE_ARG_NAME"@.len());
    assert("MUTUALLY_EXCLUSIVE_ARGS"@.len() != "UNCLOSED_DELIMITER"@.len());
    assert("MUTUALLY_EXCLUSIVE_ARGS"@.len() != "NESTED_BRACKETS"@.len());
    assert("MUTUALLY_EXCLUSIVE_ARGS"@.len() != "INVALID_INPUT"@.len());
    assert("MUTUALLY_EXCLUSIVE_ARGS"@.len() != "UNEXPECTED_ERROR"@.len());
    assert("INVALID_KEY_VALUE"@.len() != "UNRECOGNIZED_ARG"@.len());
    assert("INVALID_KEY_VALUE"@[8] != "INVALID_INT_VALUE"@[8]);
    assert("INVALID_KEY_VALUE"@.len() != "INVALID_BOOL_VALUE"@.len());
    assert("INVALID_KEY_VALUE"@.len() != "DEPENDENCY_NOT_MET"@.len());
    assert("INVALID_KEY_VALUE"@.len() != "INVALID_VALUE"@.len());
    assert("INVALID_KEY_VALUE"@.len() != "DUPLICATE_ARG_NAME"@.len());
    assert("INVALID_KEY_VALUE"@.len() != "UNCLOSED_DELIMITER"@.len());
    assert("INVALID_KEY_VALUE"@.len() != "NESTED_BRACKETS"@.len());
    assert("INVALID_KEY_VALUE"@.len() != "INVALID_INPUT"@.len());
    assert("INVALID_KEY_VALUE"@.len() != "UNEXPECTED_ERROR"@.len());
    assert("UNRECOGNIZED_ARG"@.len() != "INVALID_INT_VALUE"@.len());
    assert("UNRECOGNIZED_ARG"@.len() != "INVALID_BOOL_VALUE"@.len());
    assert("UNRECOGNIZED_ARG"@.len() != "DEPENDENCY_NOT_MET"@.len());
    assert("UNRECOGNIZED_ARG"@.len() != "INVALID_VALUE"@.len());
    assert("UNRECOGNIZED_ARG"@.len() != "DUPLICATE_ARG_NAME"@.len());
    assert("UNRECOGNIZED_ARG"@.len() != "UNCLOSED_DELIMITER"@.len());
    assert("UNRECOGNIZED_ARG"@.len() != "NESTED_BRACKETS"@.len());
    assert("UNRECOGNIZED_ARG"@.len() != "INVALID_INPUT"@.len());
    assert("UNRECOGNIZED_ARG"@[2] != "UNEXPECTED_ERROR"@[2]);
    assert("INVALID_INT_VALUE"@.len() != "INVALID_BOOL_VALUE"@.len());
    assert("INVALID_INT_VALUE"@.len() != "DEPENDENCY_NOT_MET"@.len());
    assert("INVALID_INT_VALUE"@.len() != "INVALID_VALUE"@.len());
    assert("INVALID_INT_VALUE"@.len() != "DUPLICATE_ARG_NAME"@.len());
    assert("INVALID_INT_VALUE"@.len() != "UNCLOSED_DELIMITER"@.len());
    assert("INVALID_INT_VALUE"@.len() != "NESTED_BRACKETS"@.len());
    assert("INVALID_INT_VALUE"@.len() != "INVALID_INPUT"@.len());
    assert("INVALID_INT_VALUE"@.len() != "UNEXPECTED_ERROR"@.len());
    assert("INVALID_BOOL_VALUE"@[0] != "DEPENDENCY_NOT_MET"@[0]);
    assert("INVALID_BOOL_VALUE"@.len() != "INVALID_VALUE"@.len());
    assert("INVALID_BOOL_VALUE"@[0] != "DUPLICATE_ARG_NAME"@[0]);
    assert("INVALID_BOOL_VALUE"@[0] != "UNCLOSED_DELIMITER"@[0]);
    assert("INVALID_BOOL_VALUE"@.len() != "NESTED_BRACKETS"@.len());
    assert("INVALID_BOOL_VALUE"@.len() != "INVALID_INPUT"@.len());
    assert("INVALID_BOOL_VALUE"@.len() != "UNEXPECTED_ERROR"@.len());
    assert("DEPENDENCY_NOT_MET"@.len() != "INVALID_VALUE"@.len());
    assert("DEPENDENCY_NOT_MET"@[1] != "DUPLICATE_ARG_NAME"@[1]);
    assert("DEPENDENCY_NOT_MET"@[0] != "UNCLOSED_DELIMITER"@[0]);
    assert("DEPENDENCY_NOT_MET"@.len() != "NESTED_BRACKETS"@.len());
    assert("DEPENDENCY_NOT_MET"@.len() != "INVALID_INPUT"@.len());
    assert("DEPENDENCY_NOT_MET"@.len() != "UNEXPECTED_ERROR"@.len());
    assert("INVALID_VALUE"@.len() != "DUPLICATE_ARG_NAME"@.len());
    assert("INVALID_VALUE"@.len() != "UNCLOSED_DELIMITER"@.len());
    assert("INVALID_VALUE"@.len() != "NESTED_BRACKETS"@.len());
    assert("INVALID_VALUE"@[8] != "INVALID_INPUT"@[8]);
    assert("INVALID_VALUE"@.len() != "UNEXPECTED_ERROR"@.len());
    assert("DUPLICATE_ARG_NAME"@[0] != "UNCLOSED_DELIMITER"@[0]);
    assert("DUPLICATE_ARG_NAME"@.len() != "NESTED_BRACKETS"@.len());
    assert("DUPLICATE_ARG_NAME"@.len() != "INVALID_INPUT"@.len());
    assert("DUPLICATE_ARG_NAME"@.len() != "UNEXPECTED_ERROR"@.len());
    assert("UNCLOSED_DELIMITER"@.len() != "NESTED_BRACKETS"@.len());
    assert("UNCLOSED_DELIMITER"@.len() != "INVALID_INPUT"@.len());
    assert("UNCLOSED_DELIMITER"@.len() != "UNEXPECTED_ERROR"@.len());
    assert("NESTED_BRACKETS"@.len() != "INVALID_INPUT"@.len());
    assert("NESTED_BRACKETS"@.len() != "UNEXPECTED_ERROR"@.len());
    assert("INVALID_INPUT"@.len() != "UNEXPECTED_ERROR"@.len());
}

/// Reading the record of an error gives the error back.
pub proof fn record_round_trip(error: ErrorView)
    ensures
        error_of(error.record()) == Ok::<ErrorView, Seq<char>>(error),
{
    codes_differ();
}

} // verus!
