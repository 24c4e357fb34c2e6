//! Quote-aware trimming and splitting, and the check of key names.

use vstd::prelude::*;
use vstd::string::*;
use crate::error::{Error, ErrorView, Result};
use crate::text::{from_chars, to_chars, trim_bounds, trimmed};
use crate::tokenizer::closed_elements;
use crate::utils::TextProcessingConfig;

verus! {

/// Whether `s` opens and closes with the character `quote`.
pub open spec fn is_quoted_with(s: Seq<char>, quote: char) -> bool {
    s.len() >= 2 && s[0] == quote && s.last() == quote
}

/// `s` trimmed with regard to quotes: a text inside a pair of quotes keeps
/// the quotes and is trimmed between them; any other text is trimmed as a
/// whole.
pub open spec fn smart_trimmed(s: Seq<char>, config: TextProcessingConfig) -> Seq<char> {
    if is_quoted_with(s, config.single_quote) {
        seq![config.single_quote] + trimmed(s.subrange(1, s.len() - 1)) + seq![config.single_quote]
    } else if is_quoted_with(s, config.double_quote) {
        seq![config.double_quote] + trimmed(s.subrange(1, s.len() - 1)) + seq![config.double_quote]
    } else {
        trimmed(s)
    }
}

/// Trims `s` with regard to quotes.
pub fn smart_trim(s: &str, config: &TextProcessingConfig) -> (out: String)
    ensures
        out@ == smart_trimmed(s@, *config),
{
    let chars = to_chars(s);
    let n = chars.len();
    assert(chars@.subrange(0, n as int) =~= s@);
    if n >= 2 && ((chars[0] == config.single_quote && chars[n - 1] == config.single_quote) || (chars[0]
        == config.double_quote && chars[n - 1] == config.double_quote)) {
        let quote = if chars[0] == config.single_quote && chars[n - 1] == config.single_quote {
            config.single_quote
        } else {
            config.double_quote
        };
        let (i, j) = trim_bounds(&chars, 1, n - 1);
        let mut out = String::new();
        out.push(quote);
        let inner = from_chars(&chars, i, j);
        out.append(inner.as_str());
        out.push(quote);
        assert(out@ =~= seq![quote] + trimmed(s@.subrange(1, n - 1)) + seq![quote]);
        out
    } else {
        let (i, j) = trim_bounds(&chars, 0, n);
        from_chars(&chars, i, j)
    }
}

/// The splitter at one point of a text: whether it stands inside single
/// quotes, inside double quotes, right after an escape character, and the
/// pieces it has finished and the piece it is building.
pub ghost struct Splitter {
    pub in_single_quote: bool,
    pub in_double_quote: bool,
    pub in_escape: bool,
    pub done: Seq<Seq<char>>,
    pub current: Seq<char>,
}

/// The splitter before the first character.
pub open spec fn splitter_start() -> Splitter {
    Splitter {
        in_single_quote: false,
        in_double_quote: false,
        in_escape: false,
        done: Seq::empty(),
        current: Seq::empty(),
    }
}

/// One step of the splitter on the character `c`.
///
/// A character after an escape character is kept as it is. The escape
/// character is kept and escapes the next one. A quote character is kept and
/// opens or closes its kind of quote, unless it stands inside the other kind.
/// The delimiter outside quotes ends a piece. Every other character is kept.
pub open spec fn splitter_step(
    config: TextProcessingConfig,
    delimiter: char,
    s: Splitter,
    c: char,
) -> Splitter {
    if s.in_escape {
        Splitter { in_escape: false, current: s.current.push(c), ..s }
    } else if c == config.escape_char {
        Splitter { in_escape: true, current: s.current.push(c), ..s }
    } else if c == config.single_quote && !s.in_double_quote {
        Splitter { in_single_quote: !s.in_single_quote, current: s.current.push(c), ..s }
    } else if c == config.double_quote && !s.in_single_quote {
        Splitter { in_double_quote: !s.in_double_quote, current: s.current.push(c), ..s }
    } else if c == delimiter && !s.in_single_quote && !s.in_double_quote {
        Splitter { done: s.done.push(s.current), current: Seq::empty(), ..s }
    } else {
        Splitter { current: s.current.push(c), ..s }
    }
}

/// The splitter after all of `text`.
pub open spec fn splitter_run(config: TextProcessingConfig, delimiter: char, text: Seq<char>) -> Splitter
    decreases text.len(),
{
    if text.len() == 0 {
        splitter_start()
    } else {
        splitter_step(
            config,
            delimiter,
            splitter_run(config, delimiter, text.drop_last()),
            text.last(),
        )
    }
}

/// The pieces of `text` between the delimiters that stand outside quotes and
/// escapes, or the error for a quote or an escape that the text leaves open.
pub open spec fn smart_split_spec(
    text: Seq<char>,
    delimiter: char,
    config: TextProcessingConfig,
) -> core::result::Result<Seq<Seq<char>>, ErrorView> {
    let s = splitter_run(config, delimiter, text);
    if s.in_single_quote {
        Err(ErrorView::UnclosedDelimiter("Unclosed single quote"@))
    } else if s.in_double_quote {
        Err(ErrorView::UnclosedDelimiter("Unclosed double quote"@))
    } else if s.in_escape {
        Err(ErrorView::UnclosedDelimiter("String ends with an escape character"@))
    } else {
        Ok(s.done.push(s.current))
    }
}

/// Splitting loses nothing but the delimiters at which it splits: the
/// finished pieces, each followed by the delimiter, and then the piece under
/// construction spell the text that was split.
pub proof fn splitting_loses_nothing(config: TextProcessingConfig, delimiter: char, text: Seq<char>)
    ensures
        closed_elements(splitter_run(config, delimiter, text).done, delimiter) + splitter_run(
            config,
            delimiter,
            text,
        ).current == text,
    decreases text.len(),
{
    if text.len() == 0 {
        assert(closed_elements(Seq::<Seq<char>>::empty(), delimiter) + Seq::<char>::empty()
            =~= text);
    } else {
        let front = text.drop_last();
        let c = text.last();
        splitting_loses_nothing(config, delimiter, front);
        let before = splitter_run(config, delimiter, front);
        let after = splitter_run(config, delimiter, text);
        let written = closed_elements(before.done, delimiter);
        assert(text =~= front.push(c));
        if after.done.len() > before.done.len() {
            assert(c == delimiter);
            assert(after.done.drop_last() =~= before.done);
            assert(closed_elements(after.done, delimiter) + Seq::<char>::empty() =~= (written
                + before.current).push(c));
        } else {
            assert(written + before.current.push(c) =~= (written + before.current).push(c));
        }
    }
}

/// Splits `s` at the delimiters that stand outside quotes and escapes. The
/// pieces keep their quotes and escape characters.
pub fn smart_split(s: &str, delimiter: char, config: &TextProcessingConfig) -> (out: Result<
    Vec<String>,
>)
    ensures
        match smart_split_spec(s@, delimiter, *config) {
            Ok(pieces) => out matches Ok(v) && v.deep_view() == pieces,
            Err(error) => out matches Err(e) && e@ == error,
        },
{
    let chars = to_chars(s);
    let n = chars.len();
    let mut result: Vec<String> = Vec::new();
    let mut current = String::new();
    let mut in_single_quote = false;
    let mut in_double_quote = false;
    let mut in_escape = false;
    let mut i: usize = 0;
    assert(chars@.take(0) =~= Seq::<char>::empty());
    assert(result.deep_view() =~= Seq::<Seq<char>>::empty());
    while i < n
        invariant
            i <= n == chars.len(),
            chars@ == s@,
            splitter_run(*config, delimiter, chars@.take(i as int)) == (Splitter {
                in_single_quote,
                in_double_quote,
                in_escape,
                done: result.deep_view(),
                current: current@,
            }),
        decreases n - i,
    {
        let c = chars[i];
        let ghost before = splitter_run(*config, delimiter, chars@.take(i as int));
        let ghost next = chars@.take(i + 1);
        assert(next.drop_last() =~= chars@.take(i as int));
        assert(next.last() == c);
        if in_escape {
            current.push(c);
            in_escape = false;
        } else if c == config.escape_char {
            current.push(c);
            in_escape = true;
        } else if c == config.single_quote && !in_double_quote {
            current.push(c);
            in_single_quote = !in_single_quote;
        } else if c == config.double_quote && !in_single_quote {
            current.push(c);
            in_double_quote = !in_double_quote;
        } else if c == delimiter && !in_single_quote && !in_double_quote {
            result.push(current);
            current = String::new();
            assert(result.deep_view() =~= before.done.push(before.current));
        } else {
            current.push(c);
        }
        i += 1;
    }
    assert(chars@.take(n as int) =~= chars@);
    if in_single_quote {
        return Err(Error::UnclosedDelimiter("Unclosed single quote".to_owned()));
    }
    if in_double_quote {
        return Err(Error::UnclosedDelimiter("Unclosed double quote".to_owned()));
    }
    if in_escape {
        return Err(Error::UnclosedDelimiter("String ends with an escape character".to_owned()));
    }
    let ghost done = result.deep_view();
    let ghost last = current@;
    result.push(current);
    assert(result.deep_view() =~= done.push(last));
    Ok(result)
}

/// Whether `c` is an ASCII letter.
pub open spec fn is_ascii_letter(c: char) -> bool {
    ('a' <= c <= 'z') || ('A' <= c <= 'Z')
}

/// Whether `c` may stand in a key name: an ASCII letter, an ASCII digit or
/// the underscore.
pub open spec fn is_key_char(c: char) -> bool {
    is_ascii_letter(c) || ('0' <= c <= '9') || c == '_'
}

/// Whether `key` is a key name: not empty, opening with an ASCII letter or
/// the underscore, and made of key characters only.
pub open spec fn valid_key_name(key: Seq<char>) -> bool {
    &&& key.len() > 0
    &&& is_ascii_letter(key[0]) || key[0] == '_'
    &&& forall|i: int| 0 <= i < key.len() ==> is_key_char(#[trigger] key[i])
}

/// Tells whether `key` is a key name.
pub fn is_valid_key_name(key: &str) -> (valid: bool)
    ensures
        valid == valid_key_name(key@),
{
    let chars = to_chars(key);
    let n = chars.len();
    if n == 0 {
        return false;
    }
    let first = chars[0];
    if !((first >= 'a' && first <= 'z') || (first >= 'A' && first <= 'Z') || first == '_') {
        return false;
    }
    let mut i: usize = 0;
    while i < n
        invariant
            i <= n == chars.len(),
            chars@ == key@,
            forall|j: int| 0 <= j < i ==> is_key_char(#[trigger] chars@[j]),
        decreases n - i,
    {
        let c = chars[i];
        if !((c >= 'a' && c <= 'z') || (c >= 'A' && c <= 'Z') || (c >= '0' && c <= '9') || c == '_') {
            assert(!is_key_char(key@[i as int]));
            return false;
        }
        i += 1;
    }
    true
}

} // verus!
