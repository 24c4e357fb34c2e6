//! Resolving and producing escape sequences.

use vstd::prelude::*;
use vstd::string::*;
use crate::error::{Error, ErrorView, Result};
use crate::text::to_chars;
use crate::utils::TextProcessingConfig;

verus! {

/// The character that an escaped `c` stands for, for the nine characters that
/// may be escaped.
pub open spec fn escape_meaning(c: char) -> Option<char> {
    if c == 'n' {
        Some('\n')
    } else if c == 't' {
        Some('\t')
    } else if c == 'r' {
        Some('\r')
    } else if c == '\\' || c == '\'' || c == '"' || c == ',' || c == '[' || c == ']' {
        Some(c)
    } else {
        None
    }
}

/// Prefixes the text of a successful outcome with `head`.
pub open spec fn prepend(head: Seq<char>, tail: core::result::Result<Seq<char>, ErrorView>) -> core::result::Result<
    Seq<char>,
    ErrorView,
> {
    match tail {
        Ok(rest) => Ok(head + rest),
        Err(e) => Err(e),
    }
}

/// The text `s` with its escape sequences resolved.
///
/// Read from the left: the escape character and the character after it stand
/// for one character, any other character for itself. The first sequence that
/// escapes a character outside the nine fails the whole text; so does an
/// escape character at the very end.
pub open spec fn unescaped(s: Seq<char>, escape: char) -> core::result::Result<Seq<char>, ErrorView>
    decreases s.len(),
{
    if s.len() == 0 {
        Ok(Seq::empty())
    } else if s[0] != escape {
        prepend(seq![s[0]], unescaped(s.skip(1), escape))
    } else if s.len() == 1 {
        Err(ErrorView::UnclosedDelimiter("String ends with an escape character"@))
    } else {
        match escape_meaning(s[1]) {
            Some(c) => prepend(seq![c], unescaped(s.skip(2), escape)),
            None => Err(ErrorView::InvalidInput("Invalid escape sequence \\"@.push(s[1]))),
        }
    }
}

/// What one character becomes when a text is escaped: itself, behind the
/// escape character where it is that character or one of `special`.
pub open spec fn escaped_char(c: char, special: Seq<char>, escape: char) -> Seq<char> {
    if c == escape || special.contains(c) {
        seq![escape, c]
    } else {
        seq![c]
    }
}

/// The text `s` with the escape character put before each character that
/// needs it.
pub open spec fn escaped(s: Seq<char>, special: Seq<char>, escape: char) -> Seq<char>
    decreases s.len(),
{
    if s.len() == 0 {
        Seq::empty()
    } else {
        escaped(s.drop_last(), special, escape) + escaped_char(s.last(), special, escape)
    }
}

/// Escaping can be read from the left as well: the first character is
/// escaped, then the rest.
proof fn escaped_from_the_left(s: Seq<char>, special: Seq<char>, escape: char)
    requires
        s.len() > 0,
    ensures
        escaped(s, special, escape) == escaped_char(s[0], special, escape) + escaped(
            s.skip(1),
            special,
            escape,
        ),
    decreases s.len(),
{
    if s.len() == 1 {
        assert(s.drop_last() =~= Seq::<char>::empty());
        assert(s.skip(1) =~= Seq::<char>::empty());
        assert(escaped(s, special, escape) =~= escaped_char(s[0], special, escape) + escaped(
            s.skip(1),
            special,
            escape,
        ));
    } else {
        let front = s.drop_last();
        escaped_from_the_left(front, special, escape);
        assert(front.skip(1) =~= s.skip(1).drop_last());
        assert(s.skip(1).last() == s.last());
        assert(escaped(s, special, escape) =~= escaped_char(s[0], special, escape) + escaped(
            s.skip(1),
            special,
            escape,
        ));
    }
}

/// Unescaping an escaped text gives the text back, provided that the escape
/// character and each of the characters that are escaped is one that stands
/// for itself behind the escape character.
pub proof fn unescape_undoes_escape(s: Seq<char>, special: Seq<char>, escape: char)
    requires
        escape_meaning(escape) == Some(escape),
        forall|i: int| 0 <= i < special.len() ==> escape_meaning(#[trigger] special[i]) == Some(
            special[i],
        ),
    ensures
        unescaped(escaped(s, special, escape), escape) == Ok::<Seq<char>, ErrorView>(s),
    decreases s.len(),
{
    if s.len() == 0 {
        assert(s =~= Seq::<char>::empty());
    } else {
        let c = s[0];
        let rest = s.skip(1);
        escaped_from_the_left(s, special, escape);
        unescape_undoes_escape(rest, special, escape);
        let written = escaped(s, special, escape);
        let tail = escaped(rest, special, escape);
        assert(seq![c] + rest =~= s);
        if c == escape || special.contains(c) {
            assert(written =~= seq![escape, c] + tail);
            assert(written.len() >= 2);
            assert(written[0] == escape);
            assert(written[1] == c);
            assert(written.skip(2) =~= tail);
            assert(escape_meaning(c) == Some(c));
            assert(unescaped(written, escape) == prepend(seq![c], unescaped(tail, escape)));
        } else {
            assert(written =~= seq![c] + tail);
            assert(written.len() >= 1);
            assert(written[0] == c);
            assert(written.skip(1) =~= tail);
            assert(unescaped(written, escape) == prepend(seq![c], unescaped(tail, escape)));
        }
    }
}

/// Returns the character that an escaped `c` stands for.
fn meaning_of(c: char) -> (out: Option<char>)
    ensures
        out == escape_meaning(c),
{
    if c == 'n' {
        Some('\n')
    } else if c == 't' {
        Some('\t')
    } else if c == 'r' {
        Some('\r')
    } else if c == '\\' || c == '\'' || c == '"' || c == ',' || c == '[' || c == ']' {
        Some(c)
    } else {
        None
    }
}

/// Resolves the escape sequences of `s`.
pub fn unescape(s: &str, config: &TextProcessingConfig) -> (out: Result<String>)
    ensures
        match unescaped(s@, config.escape_char) {
            Ok(text) => out matches Ok(r) && r@ == text,
            Err(error) => out matches Err(e) && e@ == error,
        },
{
    let chars = to_chars(s);
    let n = chars.len();
    let escape = config.escape_char;
    let mut result = String::new();
    let mut i: usize = 0;
    assert(chars@.skip(0) =~= chars@);
    assert(Seq::<char>::empty() + chars@ =~= chars@);
    while i < n
        invariant
            i <= n == chars.len(),
            chars@ == s@,
            escape == config.escape_char,
            unescaped(s@, escape) == prepend(result@, unescaped(chars@.skip(i as int), escape)),
        decreases n - i,
    {
        let c = chars[i];
        let ghost rest = chars@.skip(i as int);
        let ghost before = result@;
        assert(rest[0] == c);
        if c != escape {
            result.push(c);
            assert(rest.skip(1) =~= chars@.skip(i + 1));
            assert(unescaped(s@, escape) == prepend(result@, unescaped(chars@.skip(i + 1), escape))) by {
                match unescaped(chars@.skip(i + 1), escape) {
                    Ok(tail) => {
                        assert(before + (seq![c] + tail) =~= before.push(c) + tail);
                    },
                    Err(_) => {},
                }
            }
            i += 1;
        } else if i + 1 == n {
            return Err(
                Error::UnclosedDelimiter("String ends with an escape character".to_owned()),
            );
        } else {
            let d = chars[i + 1];
            assert(rest[1] == d);
            match meaning_of(d) {
                Some(m) => {
                    result.push(m);
                    assert(rest.skip(2) =~= chars@.skip(i + 2));
                    assert(unescaped(s@, escape) == prepend(
                        result@,
                        unescaped(chars@.skip(i + 2), escape),
                    )) by {
                        match unescaped(chars@.skip(i + 2), escape) {
                            Ok(tail) => {
                                assert(before + (seq![m] + tail) =~= before.push(m) + tail);
                            },
                            Err(_) => {},
                        }
                    }
                    i += 2;
                },
                None => {
                    let mut message = String::from_str("Invalid escape sequence \\");
                    message.push(d);
                    return Err(Error::InvalidInput(message));
                },
            }
        }
    }
    assert(result@ + Seq::<char>::empty() =~= result@);
    Ok(result)
}

/// Tells whether `c` is among `list`.
fn is_listed(list: &[char], c: char) -> (found: bool)
    ensures
        found == list@.contains(c),
{
    let mut i: usize = 0;
    while i < list.len()
        invariant
            i <= list.len(),
            forall|j: int| 0 <= j < i ==> list@[j] != c,
        decreases list.len() - i,
    {
        if list[i] == c {
            return true;
        }
        i += 1;
    }
    false
}

/// Puts the escape character before each escape character in `s` and before
/// each character of `s` that is listed in `chars_to_escape`.
pub fn escape(s: &str, chars_to_escape: &[char], config: &TextProcessingConfig) -> (out: String)
    ensures
        out@ == escaped(s@, chars_to_escape@, config.escape_char),
{
    let chars = to_chars(s);
    let n = chars.len();
    let mut result = String::new();
    let mut i: usize = 0;
    assert(chars@.take(0) =~= Seq::<char>::empty());
    while i < n
        invariant
            i <= n == chars.len(),
            chars@ == s@,
            result@ == escaped(chars@.take(i as int), chars_to_escape@, config.escape_char),
        decreases n - i,
    {
        let c = chars[i];
        let ghost before = result@;
        let ghost next = chars@.take(i + 1);
        assert(next.drop_last() =~= chars@.take(i as int));
        assert(next.last() == c);
        if c == config.escape_char || is_listed(chars_to_escape, c) {
            result.push(config.escape_char);
            assert(result@ =~= before + seq![config.escape_char]);
        }
        result.push(c);
        assert(result@ =~= before + escaped_char(c, chars_to_escape@, config.escape_char));
        i += 1;
    }
    assert(chars@.take(n as int) =~= chars@);
    result
}

} // verus!
