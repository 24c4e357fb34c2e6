//! The entry point of the conversion chain.

use vstd::prelude::*;
use vstd::string::*;
use crate::conversion::{effective, outcome, ConverterConfig, FromArgValue};
use crate::error::{Error, ErrorView, Result};
use crate::text::{blank_trims_to_nothing, is_whitespace, trim, trimmed, trimmed_is_idempotent};

verus! {

/// What the text `value` converts to under `config`: where the configuration
/// asks for it, the text is trimmed before anything else looks at it.
pub open spec fn convert_spec<T: FromArgValue>(
    value: Seq<char>,
    config: ConverterConfig,
) -> core::result::Result<<T as DeepView>::V, ErrorView> {
    T::converted(
        if config.trim_whitespace {
            trimmed(value)
        } else {
            value
        },
        config,
    )
}

/// Converts `value` to `T`. Where no configuration is given, the standard one
/// is used.
pub fn convert<T: FromArgValue>(value: &str, config: Option<&ConverterConfig>) -> (out: Result<T>)
    ensures
        outcome(out) == convert_spec::<T>(value@, effective(config)),
{
    let default_config = ConverterConfig::default();
    let config = match config {
        Some(c) => c,
        None => &default_config,
    };
    if config.trim_whitespace {
        let processed = trim(value);
        T::from_arg_value(processed.as_str(), Some(config))
    } else {
        T::from_arg_value(value, Some(config))
    }
}

/// The message for a text that a converter of the caller's did not accept.
pub open spec fn failure_message(value: Seq<char>, target: Seq<char>, reason: Seq<char>) -> Seq<
    char,
> {
    "Failed to convert '"@ + value + "' to "@ + target + ": "@ + reason
}

/// Builds the error for a text that a converter of the caller's did not
/// accept: it names the text, the type that was asked for and the reason the
/// converter gave.
pub fn conversion_failure(value: &str, target: &str, reason: &str) -> (error: Error)
    ensures
        error@ == ErrorView::InvalidInput(failure_message(value@, target@, reason@)),
{
    let mut message = String::from_str("Failed to convert '");
    message.append(value);
    message.append("' to ");
    message.append(target);
    message.append(": ");
    message.append(reason);
    Error::InvalidInput(message)
}

/// With trimming switched on, white space around a text does not change what
/// the text converts to.
pub proof fn convert_ignores_outer_whitespace<T: FromArgValue>(
    value: Seq<char>,
    config: ConverterConfig,
)
    requires
        config.trim_whitespace,
    ensures
        convert_spec::<T>(value, config) == convert_spec::<T>(trimmed(value), config),
{
    trimmed_is_idempotent(value);
}

/// With trimming and the handling of empty texts switched on, a text of white
/// space only converts to an absent value, whatever the inner type.
pub proof fn blank_converts_to_absent<T: FromArgValue>(value: Seq<char>, config: ConverterConfig)
    requires
        config.trim_whitespace,
        config.handle_empty,
        forall|i: int| 0 <= i < value.len() ==> is_whitespace(#[trigger] value[i]),
    ensures
        convert_spec::<Option<T>>(value, config) == Ok::<Option<<T as DeepView>::V>, ErrorView>(None),
{
    blank_trims_to_nothing(value);
}

} // verus!
