//! Text utilities shared by the parsing components: case handling, escaping,
//! quote-aware trimming and splitting, and the check of key names.

use vstd::prelude::*;

pub mod case;
pub mod escaping;
pub mod strings;

verus! {

/// The characters and the case rule that the text utilities work with.
#[derive(Debug, Clone, Copy)]
pub struct TextProcessingConfig {
    /// Whether case matters when texts are compared.
    pub case_sensitive: bool,
    /// Character that escapes the one after it.
    pub escape_char: char,
    /// Single quote character.
    pub single_quote: char,
    /// Double quote character.
    pub double_quote: char,
}

impl TextProcessingConfig {
    /// The usual setting: case matters, backslash escapes, `'` and `"` quote.
    pub open spec fn standard() -> TextProcessingConfig {
        TextProcessingConfig {
            case_sensitive: true,
            escape_char: '\\',
            single_quote: '\'',
            double_quote: '"',
        }
    }
}

impl Default for TextProcessingConfig {
    fn default() -> (config: Self)
        ensures
            config == TextProcessingConfig::standard(),
    {
        TextProcessingConfig {
            case_sensitive: true,
            escape_char: '\\',
            single_quote: '\'',
            double_quote: '"',
        }
    }
}

} // verus!
