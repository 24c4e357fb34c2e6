//! Configuration of the argument parser, and its builder.

use vstd::prelude::*;
use crate::args::{copy_formats, AllowedKeyValueFormats};

verus! {

/// The settings of the argument parser. A configuration is made by
/// [`ParserConfig::new`] or by a [`ParserConfigBuilder`] and does not change
/// afterwards.
#[derive(Debug, Clone)]
pub struct ParserConfig {
    case_sensitive: bool,
    case_sensitive_values: bool,
    collect_non_argument_text: bool,
    enable_multi_key_value: bool,
    multi_key_value_formats: Vec<AllowedKeyValueFormats>,
    escape_char: char,
    single_quote: char,
    double_quote: char,
    open_bracket: char,
    close_bracket: char,
    delimiter: char,
    trim_values: bool,
}

/// What a [`ParserConfig`] holds.
pub ghost struct ParserConfigView {
    pub case_sensitive: bool,
    pub case_sensitive_values: bool,
    pub collect_non_argument_text: bool,
    pub enable_multi_key_value: bool,
    pub multi_key_value_formats: Seq<AllowedKeyValueFormats>,
    pub escape_char: char,
    pub single_quote: char,
    pub double_quote: char,
    pub open_bracket: char,
    pub close_bracket: char,
    pub delimiter: char,
    pub trim_values: bool,
}

impl ParserConfigView {
    /// The settings of a parser that was not configured.
    pub open spec fn standard() -> ParserConfigView {
        ParserConfigView {
            case_sensitive: true,
            case_sensitive_values: true,
            collect_non_argument_text: false,
            enable_multi_key_value: false,
            multi_key_value_formats: seq![AllowedKeyValueFormats::KeyValue],
            escape_char: '\\',
            single_quote: '\'',
            double_quote: '"',
            open_bracket: '[',
            close_bracket: ']',
            delimiter: ',',
            trim_values: true,
        }
    }
}

impl View for ParserConfig {
    type V = ParserConfigView;

    closed spec fn view(&self) -> ParserConfigView {
        ParserConfigView {
            case_sensitive: self.case_sensitive,
            case_sensitive_values: self.case_sensitive_values,
            collect_non_argument_text: self.collect_non_argument_text,
            enable_multi_key_value: self.enable_multi_key_value,
            multi_key_value_formats: self.multi_key_value_formats@,
            escape_char: self.escape_char,
            single_quote: self.single_quote,
            double_quote: self.double_quote,
            open_bracket: self.open_bracket,
            close_bracket: self.close_bracket,
            delimiter: self.delimiter,
            trim_values: self.trim_values,
        }
    }
}

/// Builds a [`ParserConfig`] setting by setting.
#[derive(Debug, Clone)]
pub struct ParserConfigBuilder {
    config: ParserConfig,
}

impl View for ParserConfigBuilder {
    type V = ParserConfigView;

    closed spec fn view(&self) -> ParserConfigView {
        self.config@
    }
}

impl ParserConfig {
    /// Creates a configuration with the standard settings.
    pub fn new() -> (config: Self)
        ensures
            config@ == ParserConfigView::standard(),
    {
        let mut multi_key_value_formats: Vec<AllowedKeyValueFormats> = Vec::new();
        multi_key_value_formats.push(AllowedKeyValueFormats::KeyValue);
        assert(multi_key_value_formats@ =~= seq![AllowedKeyValueFormats::KeyValue]);
        ParserConfig {
            case_sensitive: true,
            case_sensitive_values: true,
            collect_non_argument_text: false,
            enable_multi_key_value: false,
            multi_key_value_formats,
            escape_char: '\\',
            single_quote: '\'',
            double_quote: '"',
            open_bracket: '[',
            close_bracket: ']',
            delimiter: ',',
            trim_values: true,
        }
    }

    /// Whether argument names are compared with regard to case.
    pub fn is_case_sensitive(&self) -> (value: bool)
        ensures
            value == self@.case_sensitive,
    {
        self.case_sensitive
    }

    /// Whether values are compared with regard to case when they are checked against the allowed ones.
    pub fn is_case_sensitive_values(&self) -> (value: bool)
        ensures
            value == self@.case_sensitive_values,
    {
        self.case_sensitive_values
    }

    /// Whether text that is no argument is collected.
    pub fn collect_non_argument_text(&self) -> (value: bool)
        ensures
            value == self@.collect_non_argument_text,
    {
        self.collect_non_argument_text
    }

    /// Whether bracketed lists of key-value pairs are handled.
    pub fn enable_multi_key_value(&self) -> (value: bool)
        ensures
            value == self@.enable_multi_key_value,
    {
        self.enable_multi_key_value
    }

    /// The shapes accepted for the pairs of a bracketed list.
    pub fn multi_key_value_formats(&self) -> (formats: &[AllowedKeyValueFormats])
        ensures
            formats@ == self@.multi_key_value_formats,
    {
        self.multi_key_value_formats.as_slice()
    }

    /// Character that escapes the one after it.
    pub fn escape_char(&self) -> (value: char)
        ensures
            value == self@.escape_char,
    {
        self.escape_char
    }

    /// Single quote character.
    pub fn single_quote(&self) -> (value: char)
        ensures
            value == self@.single_quote,
    {
        self.single_quote
    }

    /// Double quote character.
    pub fn double_quote(&self) -> (value: char)
        ensures
            value == self@.double_quote,
    {
        self.double_quote
    }

    /// Character that opens a list.
    pub fn open_bracket(&self) -> (value: char)
        ensures
            value == self@.open_bracket,
    {
        self.open_bracket
    }

    /// Character that closes a list.
    pub fn close_bracket(&self) -> (value: char)
        ensures
            value == self@.close_bracket,
    {
        self.close_bracket
    }

    /// Character that separates the elements of a list.
    pub fn delimiter(&self) -> (value: char)
        ensures
            value == self@.delimiter,
    {
        self.delimiter
    }

    /// Whether white space around values is removed.
    pub fn trim_values(&self) -> (value: bool)
        ensures
            value == self@.trim_values,
    {
        self.trim_values
    }

    /// Starts a builder with the standard settings.
    pub fn builder() -> (builder: ParserConfigBuilder)
        ensures
            builder@ == ParserConfigView::standard(),
    {
        ParserConfigBuilder::new()
    }
}

impl Default for ParserConfig {
    fn default() -> (config: Self)
        ensures
            config@ == ParserConfigView::standard(),
    {
        ParserConfig::new()
    }
}

impl ParserConfigBuilder {
    /// Starts a builder with the standard settings.
    pub fn new() -> (builder: Self)
        ensures
            builder@ == ParserConfigView::standard(),
    {
        ParserConfigBuilder { config: ParserConfig::new() }
    }

    /// Sets whether argument names are compared with regard to case.
    pub fn case_sensitive(self, case_sensitive: bool) -> (builder: Self)
        ensures
            builder@ == (ParserConfigView { case_sensitive, ..self@ }),
    {
        let mut builder = self;
        builder.config.case_sensitive = case_sensitive;
        builder
    }

    /// Sets whether values are compared with regard to case when they are checked against the allowed ones.
    pub fn case_sensitive_values(self, case_sensitive_values: bool) -> (builder: Self)
        ensures
            builder@ == (ParserConfigView { case_sensitive_values, ..self@ }),
    {
        let mut builder = self;
        builder.config.case_sensitive_values = case_sensitive_values;
        builder
    }

    /// Sets whether text that is no argument is collected.
    pub fn collect_non_argument_text(self, collect_non_argument_text: bool) -> (builder: Self)
        ensures
            builder@ == (ParserConfigView { collect_non_argument_text, ..self@ }),
    {
        let mut builder = self;
        builder.config.collect_non_argument_text = collect_non_argument_text;
        builder
    }

    /// Sets whether bracketed lists of key-value pairs are handled.
    pub fn enable_multi_key_value(self, enable_multi_key_value: bool) -> (builder: Self)
        ensures
            builder@ == (ParserConfigView { enable_multi_key_value, ..self@ }),
    {
        let mut builder = self;
        builder.config.enable_multi_key_value = enable_multi_key_value;
        builder
    }

    /// Sets the shapes accepted for the pairs of a bracketed list.
    pub fn multi_key_value_formats(self, formats: &[AllowedKeyValueFormats]) -> (builder: Self)
        ensures
            builder@ == (ParserConfigView { multi_key_value_formats: formats@, ..self@ }),
    {
        let mut builder = self;
        builder.config.multi_key_value_formats = copy_formats(formats);
        builder
    }

    /// Sets the escape character.
    pub fn escape_char(self, escape_char: char) -> (builder: Self)
        ensures
            builder@ == (ParserConfigView { escape_char, ..self@ }),
    {
        let mut builder = self;
        builder.config.escape_char = escape_char;
        builder
    }

    /// Sets the two quote characters.
    pub fn quote_chars(self, single_quote: char, double_quote: char) -> (builder: Self)
        ensures
            builder@ == (ParserConfigView { single_quote, double_quote, ..self@ }),
    {
        let mut builder = self;
        builder.config.single_quote = single_quote;
        builder.config.double_quote = double_quote;
        builder
    }

    /// Sets the two bracket characters.
    pub fn bracket_chars(self, open_bracket: char, close_bracket: char) -> (builder: Self)
        ensures
            builder@ == (ParserConfigView { open_bracket, close_bracket, ..self@ }),
    {
        let mut builder = self;
        builder.config.open_bracket = open_bracket;
        builder.config.close_bracket = close_bracket;
        builder
    }

    /// Sets the character that separates the elements of a list.
    pub fn delimiter(self, delimiter: char) -> (builder: Self)
        ensures
            builder@ == (ParserConfigView { delimiter, ..self@ }),
    {
        let mut builder = self;
        builder.config.delimiter = delimiter;
        builder
    }

    /// Sets whether white space around values is removed.
    pub fn trim_values(self, trim_values: bool) -> (builder: Self)
        ensures
            builder@ == (ParserConfigView { trim_values, ..self@ }),
    {
        let mut builder = self;
        builder.config.trim_values = trim_values;
        builder
    }

    /// Finishes the configuration.
    pub fn build(self) -> (config: ParserConfig)
        ensures
            config@ == self@,
    {
        self.config
    }
}

impl Default for ParserConfigBuilder {
    fn default() -> (builder: Self)
        ensures
            builder@ == ParserConfigView::standard(),
    {
        ParserConfigBuilder::new()
    }
}

} // verus!
