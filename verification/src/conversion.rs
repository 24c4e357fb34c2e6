//! Detection of key-value shapes and conversion of raw texts to typed values.

use vstd::prelude::*;
use vstd::string::*;
use crate::args::AllowedKeyValueFormats;
use crate::error::{Error, ErrorView, Result};
use crate::number::{decimal, parse_i32, push_decimal, read_i32};
use crate::text::{ascii_lower, same_text, to_ascii_lower, to_chars};

pub mod converter;
pub mod format;

verus! {

/// The shape of one token: which of the three shapes it has, its key, and its
/// value where it has one.
#[derive(Debug, Clone, PartialEq)]
pub struct FormatDetectionResult {
    /// The shape that was detected.
    pub format: AllowedKeyValueFormats,
    /// The text before the first `=`, or the whole token.
    pub key: String,
    /// The text after the first `=`, if there is a `=`.
    pub value: Option<String>,
}

/// The mathematical content of a [`FormatDetectionResult`].
pub ghost struct Detection {
    pub format: AllowedKeyValueFormats,
    pub key: Seq<char>,
    pub value: Option<Seq<char>>,
}

impl View for FormatDetectionResult {
    type V = Detection;

    open spec fn view(&self) -> Detection {
        Detection { format: self.format, key: self.key@, value: self.value.deep_view() }
    }
}

/// How a raw text is prepared before it is converted.
#[derive(Debug, Clone, Copy)]
pub struct ConverterConfig {
    /// Whether white space around the text is removed first.
    pub trim_whitespace: bool,
    /// Whether an empty text stands for an absent value.
    pub handle_empty: bool,
    /// Whether `none` and `null`, in any case, stand for an absent value.
    pub recognize_none_values: bool,
}

impl ConverterConfig {
    /// The configuration used where none is given: all three switches on.
    pub open spec fn standard() -> ConverterConfig {
        ConverterConfig { trim_whitespace: true, handle_empty: true, recognize_none_values: true }
    }

    /// The text that describes a configuration.
    pub open spec fn description(self) -> Seq<char> {
        "ConverterConfig:\n  trim_whitespace: "@ + flag_text(self.trim_whitespace)
            + "\n  handle_empty: "@ + flag_text(self.handle_empty) + "\n  recognize_none_values: "@
            + flag_text(self.recognize_none_values)
    }

    /// Describes this configuration, one switch per line.
    pub fn to_string(&self) -> (text: String)
        ensures
            text@ == self.description(),
    {
        let mut text = String::from_str("ConverterConfig:\n  trim_whitespace: ");
        text.append(flag_name(self.trim_whitespace));
        text.append("\n  handle_empty: ");
        text.append(flag_name(self.handle_empty));
        text.append("\n  recognize_none_values: ");
        text.append(flag_name(self.recognize_none_values));
        text
    }
}

/// How a switch is written: `true` or `false`.
pub open spec fn flag_text(on: bool) -> Seq<char> {
    if on {
        "true"@
    } else {
        "false"@
    }
}

/// Writes a switch as `true` or `false`.
pub fn flag_name(on: bool) -> (name: &'static str)
    ensures
        name@ == flag_text(on),
{
    if on {
        "true"
    } else {
        "false"
    }
}

impl Default for ConverterConfig {
    fn default() -> (config: Self)
        ensures
            config == ConverterConfig::standard(),
    {
        ConverterConfig { trim_whitespace: true, handle_empty: true, recognize_none_values: true }
    }
}

/// The configuration that a conversion works with: the given one, or the
/// standard one where none is given.
pub open spec fn effective(config: Option<&ConverterConfig>) -> ConverterConfig {
    match config {
        Some(c) => *c,
        None => ConverterConfig::standard(),
    }
}

/// The mathematical content of the outcome of a conversion.
pub open spec fn outcome<T: DeepView>(out: core::result::Result<T, Error>) -> core::result::Result<
    T::V,
    ErrorView,
> {
    match out {
        Ok(v) => Ok(v.deep_view()),
        Err(e) => Err(e@),
    }
}

/// The literals that stand for `true`, in lower case.
pub open spec fn is_true_literal(s: Seq<char>) -> bool {
    s == "true"@ || s == "yes"@ || s == "1"@ || s == "on"@
}

/// The literals that stand for `false`, in lower case.
pub open spec fn is_false_literal(s: Seq<char>) -> bool {
    s == "false"@ || s == "no"@ || s == "0"@ || s == "off"@
}

/// The literals that stand for an absent value, in lower case.
pub open spec fn is_none_literal(s: Seq<char>) -> bool {
    s == "none"@ || s == "null"@ || s.len() == 0
}

/// The boolean that a text stands for, given its lower-case form.
pub open spec fn bool_of_lowered(lowered: Seq<char>, text: Seq<char>) -> core::result::Result<
    bool,
    ErrorView,
> {
    if is_true_literal(lowered) {
        Ok(true)
    } else if is_false_literal(lowered) {
        Ok(false)
    } else {
        Err(ErrorView::InvalidBoolValue(text))
    }
}

/// The boolean that `text` stands for, whatever the case of its letters: the
/// text is compared with the literals after its capital letters are replaced
/// by their lower-case forms.
pub open spec fn bool_of(text: Seq<char>) -> core::result::Result<bool, ErrorView> {
    bool_of_lowered(ascii_lower(text), text)
}

/// The integer that `text` writes.
pub open spec fn int_of(text: Seq<char>) -> core::result::Result<i32, ErrorView> {
    match parse_i32(text) {
        Some(n) => Ok(n),
        None => Err(ErrorView::InvalidIntValue(text)),
    }
}

/// The message for a text that is not exactly one character.
pub open spec fn not_one_char_message(text: Seq<char>) -> Seq<char> {
    "Expected a single character, got '"@ + text + "' ("@ + decimal(text.len()) + " characters)"@
}

/// The single character that `text` consists of.
pub open spec fn char_of(text: Seq<char>) -> core::result::Result<char, ErrorView> {
    if text.len() == 1 {
        Ok(text[0])
    } else {
        Err(ErrorView::InvalidInput(not_one_char_message(text)))
    }
}

/// Whether `text` stands for an absent value under `config`: it is empty and
/// empty texts are handled, or it is a none-literal but for the case of its
/// letters and those are recognised.
pub open spec fn is_absent(text: Seq<char>, config: ConverterConfig) -> bool {
    (config.handle_empty && text.len() == 0) || (config.recognize_none_values && is_none_literal(
        ascii_lower(text),
    ))
}

/// An optional value: absent where the text stands for absence, else what the
/// inner conversion makes of the text.
pub open spec fn optional_of<V>(
    text: Seq<char>,
    config: ConverterConfig,
    inner: core::result::Result<V, ErrorView>,
) -> core::result::Result<Option<V>, ErrorView> {
    if is_absent(text, config) {
        Ok(None)
    } else {
        match inner {
            Ok(v) => Ok(Some(v)),
            Err(e) => Err(e),
        }
    }
}

/// Two texts that differ in the case of their letters only stand for the same
/// boolean or both for none. A text stands for a boolean exactly when it is
/// one of the eight literals but for the case of its letters; any other text
/// fails, and the error holds the text.
pub proof fn bool_of_ignores_case(a: Seq<char>, b: Seq<char>)
    requires
        ascii_lower(a) == ascii_lower(b),
    ensures
        bool_of(a) is Ok <==> bool_of(b) is Ok,
        bool_of(a) is Ok ==> bool_of(a) == bool_of(b),
        bool_of(a) is Ok <==> is_true_literal(ascii_lower(a)) || is_false_literal(ascii_lower(a)),
        bool_of(a) is Err ==> bool_of(a) == Err::<bool, ErrorView>(ErrorView::InvalidBoolValue(a)),
{
}

/// No text stands for both `true` and `false`.
pub proof fn literals_are_disjoint(s: Seq<char>)
    ensures
        !(is_true_literal(s) && is_false_literal(s)),
{
    reveal_strlit("true");
    reveal_strlit("yes");
    reveal_strlit("1");
    reveal_strlit("on");
    reveal_strlit("false");
    reveal_strlit("no");
    reveal_strlit("0");
    reveal_strlit("off");
    assert("true"@.len() == 4 && "yes"@.len() == 3 && "1"@.len() == 1 && "on"@.len() == 2);
    assert("false"@.len() == 5 && "no"@.len() == 2 && "0"@.len() == 1 && "off"@.len() == 3);
    assert("yes"@[0] != "off"@[0]);
    assert("1"@[0] != "0"@[0]);
    assert("on"@[0] != "no"@[0]);
}

/// Types that a raw argument text can be converted to.
pub trait FromArgValue: Sized + DeepView {
    /// What the text `value` converts to under `config`.
    spec fn converted(value: Seq<char>, config: ConverterConfig) -> core::result::Result<
        <Self as DeepView>::V,
        ErrorView,
    >;

    /// Converts `value` to this type. Where no configuration is given, the
    /// standard one is used.
    fn from_arg_value(value: &str, config: Option<&ConverterConfig>) -> (out: Result<Self>)
        ensures
            outcome(out) == Self::converted(value@, effective(config)),
    ;
}

/// Tells whether `lowered` is a literal for `true`.
fn is_true_text(lowered: &str) -> (yes: bool)
    ensures
        yes == is_true_literal(lowered@),
{
    same_text(lowered, "true") || same_text(lowered, "yes") || same_text(lowered, "1") || same_text(
        lowered,
        "on",
    )
}

/// Tells whether `lowered` is a literal for `false`.
fn is_false_text(lowered: &str) -> (yes: bool)
    ensures
        yes == is_false_literal(lowered@),
{
    same_text(lowered, "false") || same_text(lowered, "no") || same_text(lowered, "0") || same_text(
        lowered,
        "off",
    )
}

/// Tells whether `lowered` is a literal for an absent value.
pub fn is_none_text(lowered: &str) -> (yes: bool)
    ensures
        yes == is_none_literal(lowered@),
{
    same_text(lowered, "none") || same_text(lowered, "null") || lowered.is_empty()
}

/// Decides which boolean `text` stands for, from its lower-case
/// form `lowered`.
pub fn bool_from_lowered(lowered: &str, text: &str) -> (out: Result<bool>)
    ensures
        outcome(out) == bool_of_lowered(lowered@, text@),
{
    if is_true_text(lowered) {
        Ok(true)
    } else if is_false_text(lowered) {
        Ok(false)
    } else {
        Err(Error::InvalidBoolValue(text.to_owned()))
    }
}

/// Converts a text to a boolean, whatever the case of its letters.
pub fn parse_bool(value: &str) -> (out: Result<bool>)
    ensures
        outcome(out) == bool_of(value@),
{
    let lowered = to_ascii_lower(value);
    bool_from_lowered(lowered.as_str(), value)
}

/// Converts a text to a 32-bit integer.
pub fn parse_int(value: &str) -> (out: Result<i32>)
    ensures
        outcome(out) == int_of(value@),
{
    let chars = to_chars(value);
    match read_i32(&chars) {
        Some(n) => Ok(n),
        None => Err(Error::InvalidIntValue(value.to_owned())),
    }
}

/// Converts a text of exactly one character to that character.
pub fn parse_char(value: &str) -> (out: Result<char>)
    ensures
        outcome(out) == char_of(value@),
{
    let n = value.unicode_len();
    if n == 1 {
        Ok(value.get_char(0))
    } else {
        let mut message = String::from_str("Expected a single character, got '");
        message.append(value);
        message.append("' (");
        push_decimal(&mut message, n);
        message.append(" characters)");
        Err(Error::InvalidInput(message))
    }
}

/// Tells whether `value` stands for an absent value under `config`.
pub fn stands_for_absent(value: &str, config: &ConverterConfig) -> (absent: bool)
    ensures
        absent == is_absent(value@, *config),
{
    if config.handle_empty && value.is_empty() {
        return true;
    }
    if config.recognize_none_values {
        let lowered = to_ascii_lower(value);
        return is_none_text(lowered.as_str());
    }
    false
}

impl FromArgValue for String {
    open spec fn converted(value: Seq<char>, config: ConverterConfig) -> core::result::Result<
        Seq<char>,
        ErrorView,
    > {
        Ok(value)
    }

    fn from_arg_value(value: &str, _config: Option<&ConverterConfig>) -> (out: Result<Self>) {
        Ok(value.to_owned())
    }
}

impl FromArgValue for i32 {
    open spec fn converted(value: Seq<char>, config: ConverterConfig) -> core::result::Result<
        i32,
        ErrorView,
    > {
        int_of(value)
    }

    fn from_arg_value(value: &str, _config: Option<&ConverterConfig>) -> (out: Result<Self>) {
        parse_int(value)
    }
}

impl FromArgValue for bool {
    open spec fn converted(value: Seq<char>, config: ConverterConfig) -> core::result::Result<
        bool,
        ErrorView,
    > {
        bool_of(value)
    }

    fn from_arg_value(value: &str, _config: Option<&ConverterConfig>) -> (out: Result<Self>) {
        parse_bool(value)
    }
}

impl FromArgValue for char {
    open spec fn converted(value: Seq<char>, config: ConverterConfig) -> core::result::Result<
        char,
        ErrorView,
    > {
        char_of(value)
    }

    fn from_arg_value(value: &str, _config: Option<&ConverterConfig>) -> (out: Result<Self>) {
        parse_char(value)
    }
}

impl<T: FromArgValue> FromArgValue for Option<T> {
    open spec fn converted(value: Seq<char>, config: ConverterConfig) -> core::result::Result<
        Option<<T as DeepView>::V>,
        ErrorView,
    > {
        optional_of(value, config, T::converted(value, config))
    }

    fn from_arg_value(value: &str, config: Option<&ConverterConfig>) -> (out: Result<Self>) {
        let default_config = ConverterConfig::default();
        let config = match config {
            Some(c) => c,
            None => &default_config,
        };
        if stands_for_absent(value, config) {
            return Ok(None);
        }
        match T::from_arg_value(value, Some(config)) {
            Ok(converted) => Ok(Some(converted)),
            Err(e) => Err(e),
        }
    }
}

} // verus!
