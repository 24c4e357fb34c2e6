use pam_args::tokenizer::{Tokenizer, TokenizerConfig};
use pam_args::Error;

#[test]
fn tokenizer_test_default_config() {
    let config = TokenizerConfig::default();
    assert_eq!(config.escape_char, '\\');
    assert_eq!(config.single_quote, '\'');
    assert_eq!(config.double_quote, '"');
    assert_eq!(config.open_bracket, '[');
    assert_eq!(config.close_bracket, ']');
    assert_eq!(config.delimiter, ',');
}

#[test]
fn test_tokenize_simple_arg() {
    let tokenizer = Tokenizer::new();
    let result = tokenizer.tokenize_arg("DEBUG").unwrap();
    assert_eq!(result.tokens, vec!["DEBUG"]);
    assert!(!result.has_bracketed_content);
}

#[test]
fn test_tokenize_bracketed_arg() {
    let tokenizer = Tokenizer::new();
    let result = tokenizer.tokenize_arg("[KEY=value,FLAG]").unwrap();
    assert_eq!(result.tokens, vec!["KEY=value", "FLAG"]);
    assert!(result.has_bracketed_content);
}

#[test]
fn test_tokenize_multiple_comma_separated_values() {
    let tokenizer = Tokenizer::new();
    let result = tokenizer.tokenize_arg("[KEY1=value1,KEY2=value2,KEY3=value3]").unwrap();
    assert_eq!(result.tokens, vec!["KEY1=value1", "KEY2=value2", "KEY3=value3"]);
    assert!(result.has_bracketed_content);
}

#[test]
fn test_tokenize_multiple_args() {
    let tokenizer = Tokenizer::new();
    let args = vec!["FLAG", "[KEY1=value1,KEY2=value2]", "TEXT"];
    let result = tokenizer.tokenize_args(args).unwrap();
    assert_eq!(result.tokens, vec!["FLAG", "KEY1=value1", "KEY2=value2", "TEXT"]);
    assert!(result.has_bracketed_content);
}

#[test]
fn test_quoted_values_in_brackets() {
    let tokenizer = Tokenizer::new();
    let result = tokenizer.tokenize_arg("[KEY=\"Value with spaces\"]").unwrap();
    assert_eq!(result.tokens, vec!["KEY=\"Value with spaces\""]);
    assert!(result.has_bracketed_content);
}

#[test]
fn test_mixed_quote_types() {
    let tokenizer = Tokenizer::new();
    let result = tokenizer.tokenize_arg("[KEY1='Single quoted',KEY2=\"Double quoted\"]").unwrap();
    assert_eq!(result.tokens, vec!["KEY1='Single quoted'", "KEY2=\"Double quoted\""]);
    assert!(result.has_bracketed_content);
}

#[test]
fn test_escaped_delimiter() {
    let tokenizer = Tokenizer::new();
    let result = tokenizer.tokenize_arg("[KEY=Value with \\, escaped comma]").unwrap();
    assert_eq!(result.tokens, vec!["KEY=Value with \\, escaped comma"]);
    assert!(result.has_bracketed_content);
}

#[test]
fn test_escaped_brackets() {
    let tokenizer = Tokenizer::new();
    let result = tokenizer.tokenize_arg("[KEY=\\[Not a nested bracket\\]]").unwrap();
    assert_eq!(result.tokens, vec!["KEY=\\[Not a nested bracket\\]"]);
    assert!(result.has_bracketed_content);
}

#[test]
fn test_empty_elements() {
    let tokenizer = Tokenizer::new();
    let result = tokenizer.tokenize_arg("[,,,]").unwrap();
    assert_eq!(result.tokens, vec!["", "", "", ""]); // Three commas create four empty elements
    assert!(result.has_bracketed_content);
}

#[test]
fn test_empty_brackets() {
    let tokenizer = Tokenizer::new();
    let result = tokenizer.tokenize_arg("[]").unwrap();
    assert_eq!(result.tokens, vec![""]);
    assert!(result.has_bracketed_content);
}

#[test]
fn test_unclosed_bracket() {
    let tokenizer = Tokenizer::new();
    let result = tokenizer.tokenize_arg("[Unclosed bracket");
    assert!(result.is_err());
    match result {
        Err(Error::UnclosedDelimiter(_)) => (),
        _ => panic!("Expected UnclosedDelimiter error"),
    }
}

#[test]
fn test_unclosed_quote_in_bracketed_content() {
    let tokenizer = Tokenizer::new();
    let result = tokenizer.tokenize_arg("[KEY=\"Unclosed quote]");
    assert!(result.is_err());
    match result {
        Err(Error::UnclosedDelimiter(_)) => (),
        _ => panic!("Expected UnclosedDelimiter error"),
    }
}

#[test]
fn test_trailing_escape_character() {
    let tokenizer = Tokenizer::new();
    let result = tokenizer.tokenize_arg("[KEY=value\\]");
    assert!(result.is_err());
    match result {
        Err(Error::InvalidInput(_)) => (),
        _ => panic!("Expected InvalidInput error"),
    }
}

#[test]
fn test_comma_inside_quotes() {
    let tokenizer = Tokenizer::new();
    let result = tokenizer.tokenize_arg("[KEY=\"Value, with comma\"]").unwrap();
    assert_eq!(result.tokens, vec!["KEY=\"Value, with comma\""]);
    assert!(result.has_bracketed_content);
}

#[test]
fn test_empty_value_between_commas() {
    let tokenizer = Tokenizer::new();
    let result = tokenizer.tokenize_arg("[KEY1=value1,,KEY2=value2]").unwrap();
    assert_eq!(result.tokens, vec!["KEY1=value1", "", "KEY2=value2"]);
    assert!(result.has_bracketed_content);
}

#[test]
fn test_whitespace_preservation() {
    let tokenizer = Tokenizer::new();
    let result = tokenizer.tokenize_arg("[ KEY1 = value1 , KEY2 = value2 ]").unwrap();
    assert_eq!(result.tokens, vec![" KEY1 = value1 ", " KEY2 = value2 "]);
    assert!(result.has_bracketed_content);
}

#[test]
fn test_mixed_quotes() {
    let tokenizer = Tokenizer::new();
    let result = tokenizer.tokenize_arg("[KEY=\'Mixed \"quotes\' inside]").unwrap();
    assert_eq!(result.tokens, vec!["KEY=\'Mixed \"quotes\' inside"]);
    assert!(result.has_bracketed_content);
}

#[test]
fn test_escape_sequences() {
    let tokenizer = Tokenizer::new();
    let result = tokenizer.tokenize_arg("[KEY=value\\nwith\\tescape\\\\sequences]").unwrap();
    assert_eq!(result.tokens, vec!["KEY=value\\nwith\\tescape\\\\sequences"]);
    assert!(result.has_bracketed_content);
}

#[test]
fn test_empty_value_with_space() {
    let tokenizer = Tokenizer::new();
    let result = tokenizer.tokenize_arg("[KEY=, VALUE=test]").unwrap();
    assert_eq!(result.tokens, vec!["KEY=", " VALUE=test"]);
    assert!(result.has_bracketed_content);
}

#[test]
fn test_custom_config() {
    let config = TokenizerConfig {
        escape_char: '&',
        single_quote: '`',
        double_quote: '*',
        open_bracket: '{',
        close_bracket: '}',
        delimiter: ';',
    };
    let tokenizer = Tokenizer::with_config(config);

    let result = tokenizer.tokenize_arg("{KEY1=value1;KEY2=value2}").unwrap();
    assert_eq!(result.tokens, vec!["KEY1=value1", "KEY2=value2"]);
    assert!(result.has_bracketed_content);

    let result = tokenizer.tokenize_arg("{KEY=*Value; with semicolon*}").unwrap();
    assert_eq!(result.tokens, vec!["KEY=*Value; with semicolon*"]);
    assert!(result.has_bracketed_content);
}

#[test]
fn an_argument_without_an_opening_bracket_is_its_own_token() {
    let tokenizer = Tokenizer::new();
    for text in ["", "a,b", "a]", "x[y]", " [a]", "KEY=\"open", "a\\", "'", "]["] {
        let result = tokenizer.tokenize_arg(text).unwrap();
        assert_eq!(result.tokens, vec![text]);
        assert!(!result.has_bracketed_content);
    }
}

#[test]
fn n_delimiters_make_n_plus_one_empty_tokens() {
    let tokenizer = Tokenizer::new();
    for n in 0..6 {
        let arg = format!("[{}]", ",".repeat(n));
        let result = tokenizer.tokenize_arg(&arg).unwrap();
        assert_eq!(result.tokens, vec![""; n + 1]);
        assert!(result.has_bracketed_content);
    }
}

#[test]
fn an_escaped_delimiter_at_the_end_adds_an_empty_token() {
    let tokenizer = Tokenizer::new();
    let result = tokenizer.tokenize_arg("[a\\,]").unwrap();
    assert_eq!(result.tokens, vec!["a\\,", ""]);
    let result = tokenizer.tokenize_arg("[a,]").unwrap();
    assert_eq!(result.tokens, vec!["a", ""]);
    let result = tokenizer.tokenize_arg("[,a]").unwrap();
    assert_eq!(result.tokens, vec!["", "a"]);
}

#[test]
fn an_escape_inside_quotes_returns_to_the_quotes() {
    let tokenizer = Tokenizer::new();
    let result = tokenizer.tokenize_arg("[KEY=\"a\\\"b,c\",D]").unwrap();
    assert_eq!(result.tokens, vec!["KEY=\"a\\\"b,c\"", "D"]);
    let result = tokenizer.tokenize_arg("[K='a\\'b,c',D]").unwrap();
    assert_eq!(result.tokens, vec!["K='a\\'b,c'", "D"]);
    // an escaped escape character at the end is complete
    let result = tokenizer.tokenize_arg("[a\\\\]").unwrap();
    assert_eq!(result.tokens, vec!["a\\\\"]);
}

#[test]
fn each_failure_has_its_own_error() {
    let tokenizer = Tokenizer::new();
    assert_eq!(
        tokenizer.tokenize_arg("[Unclosed bracket").unwrap_err(),
        Error::UnclosedDelimiter("Unclosed bracket in: [Unclosed bracket".to_string())
    );
    assert_eq!(
        tokenizer.tokenize_arg("[").unwrap_err(),
        Error::UnclosedDelimiter("Unclosed bracket in: [".to_string())
    );
    assert_eq!(
        tokenizer.tokenize_arg("[KEY=\"open]").unwrap_err(),
        Error::UnclosedDelimiter("Unclosed double quote in: KEY=\"open".to_string())
    );
    assert_eq!(
        tokenizer.tokenize_arg("[KEY='open]").unwrap_err(),
        Error::UnclosedDelimiter("Unclosed single quote in: KEY='open".to_string())
    );
    assert_eq!(
        tokenizer.tokenize_arg("[KEY=value\\]").unwrap_err(),
        Error::InvalidInput("Trailing escape character in: [KEY=value\\]".to_string())
    );
    assert_eq!(
        tokenizer.tokenize_arg("[a,[b],c]").unwrap_err(),
        Error::NestedBrackets("Nested brackets are not supported: a,[b],c".to_string())
    );
    // a nested bracket is reported before an open quote
    assert_eq!(
        tokenizer.tokenize_arg("[[a,'b]").unwrap_err(),
        Error::NestedBrackets("Nested brackets are not supported: [a,'b".to_string())
    );
    // a quoted opening bracket is no nested bracket
    assert_eq!(tokenizer.tokenize_arg("[a,'[b',c]").unwrap().tokens, vec!["a", "'[b'", "c"]);
    // a closing bracket inside the list is an ordinary character
    assert_eq!(tokenizer.tokenize_arg("[a]b,c]").unwrap().tokens, vec!["a]b", "c"]);
}

#[test]
fn a_batch_stops_at_the_first_failure() {
    let tokenizer = Tokenizer::new();
    assert_eq!(
        tokenizer.tokenize_args(vec!["A", "[b,'c]", "[d", "E"]).unwrap_err(),
        Error::UnclosedDelimiter("Unclosed single quote in: b,'c".to_string())
    );
    let empty = tokenizer.tokenize_args(vec![]).unwrap();
    assert!(empty.tokens.is_empty());
    assert!(!empty.has_bracketed_content);
    let bare = tokenizer.tokenize_args(vec!["A", "B=c"]).unwrap();
    assert_eq!(bare.tokens, vec!["A", "B=c"]);
    assert!(!bare.has_bracketed_content);
    let mixed = tokenizer.tokenize_args(vec!["[]", "A", "[,]"]).unwrap();
    assert_eq!(mixed.tokens, vec!["", "A", "", ""]);
    assert!(mixed.has_bracketed_content);
}

#[test]
fn the_parts_of_the_tokenizer_work_alone() {
    let tokenizer = Tokenizer::new();
    assert_eq!(tokenizer.extract_bracket_content("[a,b]").unwrap(), "a,b");
    assert_eq!(tokenizer.extract_bracket_content("[]").unwrap(), "");
    assert_eq!(
        tokenizer.extract_bracket_content("a,b]").unwrap_err(),
        Error::InvalidInput("Input must start with '[' and end with ']'".to_string())
    );
    assert_eq!(
        tokenizer.extract_bracket_content("[").unwrap_err(),
        Error::InvalidInput("Input must start with '[' and end with ']'".to_string())
    );
    assert_eq!(tokenizer.split_by_commas("a,b").unwrap(), vec!["a", "b"]);
    assert_eq!(tokenizer.split_by_commas("").unwrap(), vec![""]);
    assert_eq!(
        tokenizer.split_by_commas("a\\").unwrap_err(),
        Error::InvalidInput("Trailing escape character in: a\\".to_string())
    );
    assert_eq!(tokenizer.process_bracketed("[x,'y,z']").unwrap(), vec!["x", "'y,z'"]);
    assert!(tokenizer.process_bracketed("x,y").is_err());
    assert_eq!(
        tokenizer.process_bracketed("[x,\"y]").unwrap_err(),
        Error::UnclosedDelimiter("Unclosed double quote in: x,\"y".to_string())
    );
}

#[test]
fn a_configuration_with_one_character_in_two_roles_is_refused_on_request() {
    let good = TokenizerConfig::default();
    assert!(good.is_distinct());
    assert!(Tokenizer::with_distinct_config(good).is_ok());
    let bad = TokenizerConfig { delimiter: '\\', ..good };
    assert!(!bad.is_distinct());
    assert_eq!(
        Tokenizer::with_distinct_config(bad).err(),
        Some(Error::InvalidInput("Delimiter characters must be pairwise distinct".to_string()))
    );
    let same_brackets = TokenizerConfig { open_bracket: '|', close_bracket: '|', ..good };
    assert!(!same_brackets.is_distinct());
    // taken as it is, the opening bracket alone is an unclosed list
    let tokenizer = Tokenizer::with_config(same_brackets);
    assert_eq!(
        tokenizer.tokenize_arg("|").unwrap_err(),
        Error::UnclosedDelimiter("Unclosed bracket in: |".to_string())
    );
    assert_eq!(tokenizer.tokenize_arg("|a,b|").unwrap().tokens, vec!["a", "b"]);
}

#[test]
fn characters_beyond_ascii_are_whole_characters() {
    let config = TokenizerConfig {
        escape_char: '→',
        single_quote: '‹',
        double_quote: '«',
        open_bracket: '【',
        close_bracket: '】',
        delimiter: '、',
    };
    let tokenizer = Tokenizer::with_config(config);
    let result = tokenizer.tokenize_arg("【鍵=値、«a、b«、c→、d】").unwrap();
    assert_eq!(result.tokens, vec!["鍵=値", "«a、b«", "c→、d"]);
    assert!(result.has_bracketed_content);
}
