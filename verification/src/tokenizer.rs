//! Tokenizer: turns raw arguments into logical tokens.
//!
//! A bare argument is one token. An argument written as a bracketed list,
//! `[elem,elem,...]`, is expanded into its elements. Inside the brackets a
//! small state machine keeps quoted and escaped list delimiters from splitting
//! an element. Escapes and quotes are only recognised here, never resolved:
//! every element is a verbatim piece of the input.

use vstd::prelude::*;
use vstd::string::*;
use crate::error::{Error, ErrorView, Result};
use crate::text::{concat2, to_chars};

verus! {

/// Where the scanner stands inside a bracketed list.
#[derive(Debug, Clone, Copy, PartialEq, Eq, Structural)]
pub enum TokenizerState {
    /// Outside any quote.
    Normal,
    /// Inside single quotes.
    InSingleQuote,
    /// Inside double quotes.
    InDoubleQuote,
    /// Inside a nested bracket; no input leads here, since nesting is refused.
    InBracket,
    /// Right after the escape character: the next character is taken verbatim.
    EscapeSequence,
}

/// The six characters that drive the tokenizer.
#[derive(Debug, Clone, Copy)]
pub struct TokenizerConfig {
    /// Character that escapes the one after it.
    pub escape_char: char,
    /// Single quote character.
    pub single_quote: char,
    /// Double quote character.
    pub double_quote: char,
    /// Character that opens a list.
    pub open_bracket: char,
    /// Character that closes a list.
    pub close_bracket: char,
    /// Character that separates the elements of a list.
    pub delimiter: char,
}

/// Tokens of one or more arguments.
#[derive(Debug, Clone)]
pub struct TokenizationResult {
    /// The tokens, in input order.
    pub tokens: Vec<String>,
    /// Whether any argument was a bracketed list.
    pub has_bracketed_content: bool,
}

/// Turns arguments into tokens under one delimiter configuration.
pub struct Tokenizer {
    config: TokenizerConfig,
}

/// Why the interior of a bracketed list cannot be split.
#[derive(Debug, Clone, Copy, PartialEq, Eq, Structural)]
pub enum SplitFailure {
    /// An opening bracket stands unquoted and unescaped inside the list.
    NestedBrackets,
    /// A single quote is never closed.
    UnclosedSingleQuote,
    /// A double quote is never closed.
    UnclosedDoubleQuote,
    /// A nested bracket is never closed.
    UnclosedBracket,
    /// The escape character is the last character, with nothing to escape.
    TrailingEscape,
}

/// The scanner at one point of the interior: its state, the state to go back
/// to after an escape, the finished elements, the element under construction
/// and whether a nested bracket was met.
pub ghost struct Scan {
    pub state: TokenizerState,
    pub resume: TokenizerState,
    pub done: Seq<Seq<char>>,
    pub current: Seq<char>,
    pub nested: bool,
}

/// The scanner before the first character.
pub open spec fn scan_start() -> Scan {
    Scan {
        state: TokenizerState::Normal,
        resume: TokenizerState::Normal,
        done: Seq::empty(),
        current: Seq::empty(),
        nested: false,
    }
}

/// What the scanner does with a character.
#[derive(Debug, Clone, Copy, PartialEq, Eq, Structural)]
pub enum ScanAction {
    /// The character becomes part of the element under construction.
    Keep,
    /// The character ends the element under construction and is dropped.
    Split,
    /// The character opens a nested list, which is refused.
    Refuse,
}

/// The scanner's move on one character.
#[derive(Debug, Clone, Copy, PartialEq, Eq, Structural)]
pub struct Transition {
    /// The state after the character.
    pub state: TokenizerState,
    /// The state to go back to after an escape.
    pub resume: TokenizerState,
    /// What happens to the character.
    pub action: ScanAction,
}

/// The move of the scanner in the state `state` on the character `c`.
///
/// After the escape character any character is kept, and the scanner goes
/// back to where it was. Outside quotes, the escape character and the quotes
/// are kept and change the state, the list delimiter splits, the opening
/// bracket is refused, and anything else is kept. Inside quotes, the escape
/// character and the closing quote are kept and change the state, and
/// anything else is kept, the list delimiter too. Where one character has two
/// roles, the role named first counts.
pub open spec fn transition(
    cfg: TokenizerConfig,
    state: TokenizerState,
    resume: TokenizerState,
    c: char,
) -> Transition {
    match state {
        TokenizerState::EscapeSequence => Transition {
            state: resume,
            resume,
            action: ScanAction::Keep,
        },
        TokenizerState::Normal => {
            if c == cfg.escape_char {
                Transition {
                    state: TokenizerState::EscapeSequence,
                    resume: TokenizerState::Normal,
                    action: ScanAction::Keep,
                }
            } else if c == cfg.single_quote {
                Transition { state: TokenizerState::InSingleQuote, resume, action: ScanAction::Keep }
            } else if c == cfg.double_quote {
                Transition { state: TokenizerState::InDoubleQuote, resume, action: ScanAction::Keep }
            } else if c == cfg.delimiter {
                Transition { state, resume, action: ScanAction::Split }
            } else if c == cfg.open_bracket {
                Transition { state, resume, action: ScanAction::Refuse }
            } else {
                Transition { state, resume, action: ScanAction::Keep }
            }
        },
        TokenizerState::InSingleQuote => {
            if c == cfg.escape_char {
                Transition {
                    state: TokenizerState::EscapeSequence,
                    resume: TokenizerState::InSingleQuote,
                    action: ScanAction::Keep,
                }
            } else if c == cfg.single_quote {
                Transition { state: TokenizerState::Normal, resume, action: ScanAction::Keep }
            } else {
                Transition { state, resume, action: ScanAction::Keep }
            }
        },
        TokenizerState::InDoubleQuote => {
            if c == cfg.escape_char {
                Transition {
                    state: TokenizerState::EscapeSequence,
                    resume: TokenizerState::InDoubleQuote,
                    action: ScanAction::Keep,
                }
            } else if c == cfg.double_quote {
                Transition { state: TokenizerState::Normal, resume, action: ScanAction::Keep }
            } else {
                Transition { state, resume, action: ScanAction::Keep }
            }
        },
        TokenizerState::InBracket => Transition { state, resume, action: ScanAction::Refuse },
    }
}

/// The scanner after one more character `c`.
pub open spec fn scan_step(cfg: TokenizerConfig, s: Scan, c: char) -> Scan {
    let t = transition(cfg, s.state, s.resume, c);
    match t.action {
        ScanAction::Keep => Scan { state: t.state, resume: t.resume, current: s.current.push(c), ..s },
        ScanAction::Split => Scan {
            state: t.state,
            resume: t.resume,
            done: s.done.push(s.current),
            current: Seq::empty(),
            ..s
        },
        ScanAction::Refuse => Scan { state: t.state, resume: t.resume, nested: true, ..s },
    }
}

/// The scanner after all of `content`.
pub open spec fn scan(cfg: TokenizerConfig, content: Seq<char>) -> Scan
    decreases content.len(),
{
    if content.len() == 0 {
        scan_start()
    } else {
        scan_step(cfg, scan(cfg, content.drop_last()), content.last())
    }
}

/// The elements of a scan that ended in the normal state. The element under
/// construction counts if it is not empty or if it is the only one; an
/// interior whose last character is the list delimiter gets one more, empty
/// element.
pub open spec fn scan_tokens(cfg: TokenizerConfig, content: Seq<char>) -> Seq<Seq<char>> {
    let s = scan(cfg, content);
    let base = if s.current.len() > 0 || s.done.len() == 0 {
        s.done.push(s.current)
    } else {
        s.done
    };
    if content.len() > 0 && content.last() == cfg.delimiter {
        base.push(Seq::empty())
    } else {
        base
    }
}

/// The elements of the interior `content` of a bracketed list, or the reason
/// why it has none. A nested bracket is reported before anything else.
pub open spec fn split_interior(cfg: TokenizerConfig, content: Seq<char>) -> core::result::Result<
    Seq<Seq<char>>,
    SplitFailure,
> {
    let s = scan(cfg, content);
    if s.nested {
        Err(SplitFailure::NestedBrackets)
    } else {
        match s.state {
            TokenizerState::Normal => Ok(scan_tokens(cfg, content)),
            TokenizerState::InSingleQuote => Err(SplitFailure::UnclosedSingleQuote),
            TokenizerState::InDoubleQuote => Err(SplitFailure::UnclosedDoubleQuote),
            TokenizerState::InBracket => Err(SplitFailure::UnclosedBracket),
            TokenizerState::EscapeSequence => Err(SplitFailure::TrailingEscape),
        }
    }
}

/// The error that reports `failure`. `content` is the interior that was
/// scanned and `whole` the text named for a trailing escape.
pub open spec fn failure_error(failure: SplitFailure, content: Seq<char>, whole: Seq<char>) -> ErrorView {
    match failure {
        SplitFailure::NestedBrackets => ErrorView::NestedBrackets(
            "Nested brackets are not supported: "@ + content,
        ),
        SplitFailure::UnclosedSingleQuote => ErrorView::UnclosedDelimiter(
            "Unclosed single quote in: "@ + content,
        ),
        SplitFailure::UnclosedDoubleQuote => ErrorView::UnclosedDelimiter(
            "Unclosed double quote in: "@ + content,
        ),
        SplitFailure::UnclosedBracket => ErrorView::UnclosedDelimiter(
            "Unclosed bracket in: "@ + content,
        ),
        SplitFailure::TrailingEscape => ErrorView::InvalidInput(
            "Trailing escape character in: "@ + whole,
        ),
    }
}

/// Whether `arg` opens with the opening bracket.
pub open spec fn starts_list(cfg: TokenizerConfig, arg: Seq<char>) -> bool {
    arg.len() > 0 && arg[0] == cfg.open_bracket
}

/// Whether `arg` is a list: an opening bracket, an interior, a closing bracket.
pub open spec fn is_bracketed(cfg: TokenizerConfig, arg: Seq<char>) -> bool {
    arg.len() >= 2 && arg[0] == cfg.open_bracket && arg.last() == cfg.close_bracket
}

/// What lies between the two brackets of a list.
pub open spec fn interior(arg: Seq<char>) -> Seq<char>
    recommends
        arg.len() >= 2,
{
    arg.subrange(1, arg.len() - 1)
}

/// The tokens of one argument and whether it was expanded, or the error.
pub open spec fn tokenize_one(cfg: TokenizerConfig, arg: Seq<char>) -> core::result::Result<
    (Seq<Seq<char>>, bool),
    ErrorView,
> {
    if !starts_list(cfg, arg) {
        Ok((seq![arg], false))
    } else if !is_bracketed(cfg, arg) {
        Err(ErrorView::UnclosedDelimiter("Unclosed bracket in: "@ + arg))
    } else {
        match split_interior(cfg, interior(arg)) {
            Ok(tokens) => Ok((tokens, true)),
            Err(failure) => Err(failure_error(failure, interior(arg), arg)),
        }
    }
}

/// The tokens of a batch of arguments: those of each argument in order, with
/// the expansion flags or-ed together. The batch fails with the error of the
/// first argument that fails.
pub open spec fn tokenize_batch(cfg: TokenizerConfig, args: Seq<Seq<char>>) -> core::result::Result<
    (Seq<Seq<char>>, bool),
    ErrorView,
>
    decreases args.len(),
{
    if args.len() == 0 {
        Ok((Seq::empty(), false))
    } else {
        match tokenize_batch(cfg, args.drop_last()) {
            Err(e) => Err(e),
            Ok((tokens, expanded)) => match tokenize_one(cfg, args.last()) {
                Err(e) => Err(e),
                Ok((more, flag)) => Ok((tokens + more, expanded || flag)),
            },
        }
    }
}

impl TokenizerConfig {
    /// Whether the six characters are pairwise distinct, so that no character
    /// has two meanings.
    pub open spec fn distinct(self) -> bool {
        &&& self.escape_char != self.single_quote
        &&& self.escape_char != self.double_quote
        &&& self.escape_char != self.open_bracket
        &&& self.escape_char != self.close_bracket
        &&& self.escape_char != self.delimiter
        &&& self.single_quote != self.double_quote
        &&& self.single_quote != self.open_bracket
        &&& self.single_quote != self.close_bracket
        &&& self.single_quote != self.delimiter
        &&& self.double_quote != self.open_bracket
        &&& self.double_quote != self.close_bracket
        &&& self.double_quote != self.delimiter
        &&& self.open_bracket != self.close_bracket
        &&& self.open_bracket != self.delimiter
        &&& self.close_bracket != self.delimiter
    }

    /// The usual characters: backslash, the two quotes, square brackets, comma.
    pub open spec fn standard() -> TokenizerConfig {
        TokenizerConfig {
            escape_char: '\\',
            single_quote: '\'',
            double_quote: '"',
            open_bracket: '[',
            close_bracket: ']',
            delimiter: ',',
        }
    }

    /// Tells whether the six characters are pairwise distinct.
    pub fn is_distinct(&self) -> (ok: bool)
        ensures
            ok == self.distinct(),
    {
        self.escape_char != self.single_quote && self.escape_char != self.double_quote
            && self.escape_char != self.open_bracket && self.escape_char != self.close_bracket
            && self.escape_char != self.delimiter && self.single_quote != self.double_quote
            && self.single_quote != self.open_bracket && self.single_quote != self.close_bracket
            && self.single_quote != self.delimiter && self.double_quote != self.open_bracket
            && self.double_quote != self.close_bracket && self.double_quote != self.delimiter
            && self.open_bracket != self.close_bracket && self.open_bracket != self.delimiter
            && self.close_bracket != self.delimiter
    }
}

impl Default for TokenizerConfig {
    fn default() -> (config: Self)
        ensures
            config == TokenizerConfig::standard(),
    {
        TokenizerConfig {
            escape_char: '\\',
            single_quote: '\'',
            double_quote: '"',
            open_bracket: '[',
            close_bracket: ']',
            delimiter: ',',
        }
    }
}

/// Concatenating vectors of strings concatenates what they hold.
proof fn deep_view_concat(all: Vec<String>, x: Vec<String>, y: Vec<String>)
    requires
        all@ == x@ + y@,
    ensures
        all.deep_view() == x.deep_view() + y.deep_view(),
{
    assert(all.deep_view() =~= x.deep_view() + y.deep_view());
}

impl Tokenizer {
    /// The configuration this tokenizer works with.
    pub closed spec fn config(&self) -> TokenizerConfig {
        self.config
    }

    /// Creates a tokenizer with the usual delimiter characters.
    pub fn new() -> (tokenizer: Self)
        ensures
            tokenizer.config() == TokenizerConfig::standard(),
    {
        Tokenizer { config: TokenizerConfig::default() }
    }

    /// Creates a tokenizer with the given delimiter characters. The characters
    /// are taken as they are; where two of them coincide, the meaning listed
    /// first in [`scan_step`] wins.
    pub fn with_config(config: TokenizerConfig) -> (tokenizer: Self)
        ensures
            tokenizer.config() == config,
    {
        Tokenizer { config }
    }

    /// Creates a tokenizer with the given delimiter characters, refusing a
    /// configuration in which one character has two meanings.
    pub fn with_distinct_config(config: TokenizerConfig) -> (made: Result<Self>)
        ensures
            config.distinct() ==> (made matches Ok(t) && t.config() == config),
            !config.distinct() ==> (made matches Err(e) && e@ == ErrorView::InvalidInput(
                "Delimiter characters must be pairwise distinct"@,
            )),
    {
        if config.is_distinct() {
            Ok(Tokenizer { config })
        } else {
            Err(Error::InvalidInput("Delimiter characters must be pairwise distinct".to_owned()))
        }
    }

    /// Decides the scanner's move in the state `state` on the character `c`.
    pub fn next_move(&self, state: TokenizerState, resume: TokenizerState, c: char) -> (t: Transition)
        ensures
            t == transition(self.config(), state, resume, c),
    {
        let cfg = &self.config;
        match state {
            TokenizerState::EscapeSequence => Transition {
                state: resume,
                resume,
                action: ScanAction::Keep,
            },
            TokenizerState::Normal => {
                if c == cfg.escape_char {
                    Transition {
                        state: TokenizerState::EscapeSequence,
                        resume: TokenizerState::Normal,
                        action: ScanAction::Keep,
                    }
                } else if c == cfg.single_quote {
                    Transition {
                        state: TokenizerState::InSingleQuote,
                        resume,
                        action: ScanAction::Keep,
                    }
                } else if c == cfg.double_quote {
                    Transition {
                        state: TokenizerState::InDoubleQuote,
                        resume,
                        action: ScanAction::Keep,
                    }
                } else if c == cfg.delimiter {
                    Transition { state, resume, action: ScanAction::Split }
                } else if c == cfg.open_bracket {
                    Transition { state, resume, action: ScanAction::Refuse }
                } else {
                    Transition { state, resume, action: ScanAction::Keep }
                }
            },
            TokenizerState::InSingleQuote => {
                if c == cfg.escape_char {
                    Transition {
                        state: TokenizerState::EscapeSequence,
                        resume: TokenizerState::InSingleQuote,
                        action: ScanAction::Keep,
                    }
                } else if c == cfg.single_quote {
                    Transition { state: TokenizerState::Normal, resume, action: ScanAction::Keep }
                } else {
                    Transition { state, resume, action: ScanAction::Keep }
                }
            },
            TokenizerState::InDoubleQuote => {
                if c == cfg.escape_char {
                    Transition {
                        state: TokenizerState::EscapeSequence,
                        resume: TokenizerState::InDoubleQuote,
                        action: ScanAction::Keep,
                    }
                } else if c == cfg.double_quote {
                    Transition { state: TokenizerState::Normal, resume, action: ScanAction::Keep }
                } else {
                    Transition { state, resume, action: ScanAction::Keep }
                }
            },
            TokenizerState::InBracket => Transition { state, resume, action: ScanAction::Refuse },
        }
    }

    /// Splits `chars[from..to]`, the interior of a list, into its elements.
    fn scan_range(&self, chars: &Vec<char>, from: usize, to: usize) -> (out: core::result::Result<
        Vec<String>,
        SplitFailure,
    >)
        requires
            from <= to <= chars.len(),
        ensures
            match split_interior(self.config(), chars@.subrange(from as int, to as int)) {
                Ok(tokens) => out matches Ok(v) && v.deep_view() == tokens,
                Err(failure) => out == Err::<Vec<String>, SplitFailure>(failure),
            },
    {
        let ghost content = chars@.subrange(from as int, to as int);
        let ghost cfg = self.config();
        let mut done: Vec<String> = Vec::new();
        let mut current = String::new();
        let mut state = TokenizerState::Normal;
        let mut resume = TokenizerState::Normal;
        let mut nested = false;
        let mut i: usize = from;
        assert(content.take(0) =~= Seq::<char>::empty());
        assert(done.deep_view() =~= Seq::<Seq<char>>::empty());
        while i < to
            invariant
                from <= i <= to <= chars.len(),
                content == chars@.subrange(from as int, to as int),
                cfg == self.config(),
                scan(cfg, content.take(i - from)) == (Scan {
                    state,
                    resume,
                    done: done.deep_view(),
                    current: current@,
                    nested,
                }),
            decreases to - i,
        {
            let c = chars[i];
            let ghost before = scan(cfg, content.take(i - from));
            proof {
                let next = content.take(i - from + 1);
                assert(next.drop_last() =~= content.take(i - from));
                assert(next.last() == c);
                assert(scan(cfg, next) == scan_step(cfg, before, c));
            }
            let t = self.next_move(state, resume, c);
            match t.action {
                ScanAction::Keep => {
                    current.push(c);
                },
                ScanAction::Split => {
                    done.push(current);
                    current = String::new();
                    assert(done.deep_view() =~= before.done.push(before.current));
                },
                ScanAction::Refuse => {
                    nested = true;
                },
            }
            state = t.state;
            resume = t.resume;
            i += 1;
        }
        assert(content.take(to - from) =~= content);
        if nested {
            return Err(SplitFailure::NestedBrackets);
        }
        match state {
            TokenizerState::Normal => {
                let ghost old_done = done.deep_view();
                let ghost last_piece = current@;
                if current.as_str().unicode_len() > 0 || done.len() == 0 {
                    done.push(current);
                    assert(done.deep_view() =~= old_done.push(last_piece));
                }
                let ghost base = done.deep_view();
                if to > from && chars[to - 1] == self.config.delimiter {
                    done.push(String::new());
                    assert(done.deep_view() =~= base.push(Seq::<char>::empty()));
                }
                Ok(done)
            },
            TokenizerState::InSingleQuote => Err(SplitFailure::UnclosedSingleQuote),
            TokenizerState::InDoubleQuote => Err(SplitFailure::UnclosedDoubleQuote),
            TokenizerState::InBracket => Err(SplitFailure::UnclosedBracket),
            TokenizerState::EscapeSequence => Err(SplitFailure::TrailingEscape),
        }
    }

    /// Builds the error that reports `failure` on the interior `content`.
    fn report(failure: SplitFailure, content: &str, whole: &str) -> (e: Error)
        ensures
            e@ == failure_error(failure, content@, whole@),
    {
        match failure {
            SplitFailure::NestedBrackets => Error::NestedBrackets(
                concat2("Nested brackets are not supported: ", content),
            ),
            SplitFailure::UnclosedSingleQuote => Error::UnclosedDelimiter(
                concat2("Unclosed single quote in: ", content),
            ),
            SplitFailure::UnclosedDoubleQuote => Error::UnclosedDelimiter(
                concat2("Unclosed double quote in: ", content),
            ),
            SplitFailure::UnclosedBracket => Error::UnclosedDelimiter(
                concat2("Unclosed bracket in: ", content),
            ),
            SplitFailure::TrailingEscape => Error::InvalidInput(
                concat2("Trailing escape character in: ", whole),
            ),
        }
    }

    /// Splits the interior of a list into its elements, keeping quoted and
    /// escaped delimiters inside their element.
    pub fn split_by_commas(&self, content: &str) -> (out: Result<Vec<String>>)
        ensures
            match split_interior(self.config(), content@) {
                Ok(tokens) => out matches Ok(v) && v.deep_view() == tokens,
                Err(failure) => out matches Err(e) && e@ == failure_error(failure, content@, content@),
            },
    {
        let chars = to_chars(content);
        assert(chars@.subrange(0, chars@.len() as int) =~= content@);
        match self.scan_range(&chars, 0, chars.len()) {
            Ok(tokens) => Ok(tokens),
            Err(failure) => Err(Self::report(failure, content, content)),
        }
    }

    /// Returns what stands between the brackets of a list.
    pub fn extract_bracket_content(&self, bracketed: &str) -> (out: Result<String>)
        ensures
            is_bracketed(self.config(), bracketed@) ==> (out matches Ok(s) && s@ == interior(
                bracketed@,
            )),
            !is_bracketed(self.config(), bracketed@) ==> (out matches Err(e) && e@
                == ErrorView::InvalidInput(
                "Input must start with '"@.push(self.config().open_bracket) + "' and end with '"@.push(
                    self.config().close_bracket,
                ) + "'"@,
            )),
    {
        let n = bracketed.unicode_len();
        if n >= 2 && bracketed.get_char(0) == self.config.open_bracket && bracketed.get_char(n - 1)
            == self.config.close_bracket {
            Ok(bracketed.substring_char(1, n - 1).to_owned())
        } else {
            let mut message = String::from_str("Input must start with '");
            message.push(self.config.open_bracket);
            message.append("' and end with '");
            message.push(self.config.close_bracket);
            message.append("'");
            Err(Error::InvalidInput(message))
        }
    }

    /// Splits one bracketed list into its elements.
    pub fn process_bracketed(&self, bracketed: &str) -> (out: Result<Vec<String>>)
        ensures
            is_bracketed(self.config(), bracketed@) ==> match split_interior(
                self.config(),
                interior(bracketed@),
            ) {
                Ok(tokens) => out matches Ok(v) && v.deep_view() == tokens,
                Err(failure) => out matches Err(e) && e@ == failure_error(
                    failure,
                    interior(bracketed@),
                    interior(bracketed@),
                ),
            },
            !is_bracketed(self.config(), bracketed@) ==> out is Err,
    {
        let content = self.extract_bracket_content(bracketed)?;
        self.split_by_commas(content.as_str())
    }

    /// Turns one argument into tokens.
    ///
    /// An argument that does not open with the opening bracket is its own
    /// single token. One that does must close with the closing bracket, and is
    /// then split into the elements of the list.
    pub fn tokenize_arg(&self, arg: &str) -> (out: Result<TokenizationResult>)
        ensures
            match tokenize_one(self.config(), arg@) {
                Ok((tokens, expanded)) => out matches Ok(r) && r.tokens.deep_view() == tokens
                    && r.has_bracketed_content == expanded,
                Err(error) => out matches Err(e) && e@ == error,
            },
            !starts_list(self.config(), arg@) ==> (out matches Ok(r) && r.tokens.deep_view()
                == seq![arg@] && !r.has_bracketed_content),
    {
        let chars = to_chars(arg);
        let n = chars.len();
        if n == 0 || chars[0] != self.config.open_bracket {
            let mut tokens: Vec<String> = Vec::new();
            tokens.push(arg.to_owned());
            assert(tokens.deep_view() =~= seq![arg@]);
            return Ok(TokenizationResult { tokens, has_bracketed_content: false });
        }
        if n < 2 || chars[n - 1] != self.config.close_bracket {
            return Err(Error::UnclosedDelimiter(concat2("Unclosed bracket in: ", arg)));
        }
        match self.scan_range(&chars, 1, n - 1) {
            Ok(tokens) => Ok(TokenizationResult { tokens, has_bracketed_content: true }),
            Err(failure) => {
                let content = arg.substring_char(1, n - 1);
                Err(Self::report(failure, content, arg))
            },
        }
    }

    /// Turns a batch of arguments into one flat list of tokens. Stops at the
    /// first argument that fails.
    pub fn tokenize_args(&self, args: Vec<&str>) -> (out: Result<TokenizationResult>)
        ensures
            match tokenize_batch(self.config(), args.deep_view()) {
                Ok((tokens, expanded)) => out matches Ok(r) && r.tokens.deep_view() == tokens
                    && r.has_bracketed_content == expanded,
                Err(error) => out matches Err(e) && e@ == error,
            },
    {
        let ghost inputs = args.deep_view();
        let mut all_tokens: Vec<String> = Vec::new();
        let mut has_bracketed = false;
        let mut i: usize = 0;
        assert(inputs.take(0) =~= Seq::<Seq<char>>::empty());
        assert(all_tokens.deep_view() =~= Seq::<Seq<char>>::empty());
        while i < args.len()
            invariant
                i <= args.len(),
                inputs == args.deep_view(),
                tokenize_batch(self.config(), inputs.take(i as int)) == Ok::<
                    (Seq<Seq<char>>, bool),
                    ErrorView,
                >((all_tokens.deep_view(), has_bracketed)),
            decreases args.len() - i,
        {
            proof {
                let next = inputs.take(i + 1);
                assert(next.drop_last() =~= inputs.take(i as int));
                assert(next.last() == args[i as int]@);
                assert(inputs.take(args.len() as int) =~= inputs);
            }
            match self.tokenize_arg(args[i]) {
                Err(e) => {
                    proof {
                        batch_error_persists(self.config(), inputs, i + 1);
                    }
                    return Err(e);
                },
                Ok(result) => {
                    let mut more = result.tokens;
                    let ghost before = all_tokens;
                    let ghost added = more;
                    all_tokens.append(&mut more);
                    proof {
                        deep_view_concat(all_tokens, before, added);
                    }
                    has_bracketed = has_bracketed || result.has_bracketed_content;
                },
            }
            i += 1;
        }
        assert(inputs.take(args.len() as int) =~= inputs);
        Ok(TokenizationResult { tokens: all_tokens, has_bracketed_content: has_bracketed })
    }
}

/// A text of `n` list delimiters.
pub open spec fn delimiters(cfg: TokenizerConfig, n: nat) -> Seq<char> {
    Seq::new(n, |i: int| cfg.delimiter)
}

/// `n` empty tokens.
pub open spec fn empty_tokens(n: nat) -> Seq<Seq<char>> {
    Seq::new(n, |i: int| Seq::<char>::empty())
}

/// After `n` delimiters the scanner has finished `n` empty elements and
/// stands at the start of the next one.
proof fn scan_of_delimiters(cfg: TokenizerConfig, n: nat)
    requires
        cfg.delimiter != cfg.escape_char,
        cfg.delimiter != cfg.single_quote,
        cfg.delimiter != cfg.double_quote,
    ensures
        scan(cfg, delimiters(cfg, n)) == (Scan { done: empty_tokens(n), ..scan_start() }),
    decreases n,
{
    if n == 0 {
        assert(empty_tokens(0) =~= Seq::<Seq<char>>::empty());
    } else {
        let shorter = (n - 1) as nat;
        scan_of_delimiters(cfg, shorter);
        assert(delimiters(cfg, n).drop_last() =~= delimiters(cfg, shorter));
        assert(empty_tokens(shorter).push(Seq::<char>::empty()) =~= empty_tokens(n));
    }
}

/// An interior that consists of `n` list delimiters and nothing else has
/// `n + 1` elements, all empty. For this the delimiter must differ from the
/// escape character and from both quotes.
pub proof fn delimiters_split_into_empty_tokens(cfg: TokenizerConfig, n: nat)
    requires
        cfg.delimiter != cfg.escape_char,
        cfg.delimiter != cfg.single_quote,
        cfg.delimiter != cfg.double_quote,
    ensures
        split_interior(cfg, delimiters(cfg, n)) == Ok::<Seq<Seq<char>>, SplitFailure>(
            empty_tokens(n + 1),
        ),
{
    scan_of_delimiters(cfg, n);
    if n == 0 {
        assert(empty_tokens(0).push(Seq::<char>::empty()) =~= empty_tokens(1));
    } else {
        assert(empty_tokens(n).push(Seq::<char>::empty()) =~= empty_tokens(n + 1));
    }
}

/// An argument that does not open with the opening bracket is its own single
/// token, and is not expanded.
pub proof fn bare_argument_is_one_token(cfg: TokenizerConfig, arg: Seq<char>)
    requires
        !starts_list(cfg, arg),
    ensures
        tokenize_one(cfg, arg) == Ok::<(Seq<Seq<char>>, bool), ErrorView>((seq![arg], false)),
{
}

/// Inside quotes and right after the escape character, the list delimiter
/// ends no element: it is kept as part of the element. For this the delimiter
/// must differ from the escape character and from both quotes.
pub proof fn quoted_delimiter_does_not_split(cfg: TokenizerConfig, s: Scan)
    requires
        s.state == TokenizerState::InSingleQuote || s.state == TokenizerState::InDoubleQuote
            || s.state == TokenizerState::EscapeSequence,
        cfg.delimiter != cfg.escape_char,
        cfg.delimiter != cfg.single_quote,
        cfg.delimiter != cfg.double_quote,
    ensures
        scan_step(cfg, s, cfg.delimiter).done == s.done,
        scan_step(cfg, s, cfg.delimiter).current == s.current.push(cfg.delimiter),
{
}

/// A list that is opened and not closed fails as an unclosed delimiter, and so
/// does a list whose interior ends inside a quote.
pub proof fn unclosed_list_or_quote_fails(cfg: TokenizerConfig, arg: Seq<char>)
    requires
        starts_list(cfg, arg),
        !is_bracketed(cfg, arg) || (!scan(cfg, interior(arg)).nested && (scan(
            cfg,
            interior(arg),
        ).state == TokenizerState::InSingleQuote || scan(cfg, interior(arg)).state
            == TokenizerState::InDoubleQuote)),
    ensures
        tokenize_one(cfg, arg) matches Err(ErrorView::UnclosedDelimiter(_)),
{
}

/// The finished elements written one after the other, each followed by the
/// list delimiter.
pub open spec fn closed_elements(done: Seq<Seq<char>>, delimiter: char) -> Seq<char>
    decreases done.len(),
{
    if done.len() == 0 {
        Seq::empty()
    } else {
        closed_elements(done.drop_last(), delimiter) + done.last() + seq![delimiter]
    }
}

/// Scanning loses nothing but the delimiters at which it splits: as long as
/// no nested bracket was met, the finished elements, each followed by the
/// list delimiter, and then the element under construction spell the text
/// that was scanned. So every element is a verbatim piece of the interior,
/// with its quotes, its escape characters and its white space.
pub proof fn scan_loses_nothing(cfg: TokenizerConfig, content: Seq<char>)
    ensures
        !scan(cfg, content).nested ==> closed_elements(scan(cfg, content).done, cfg.delimiter)
            + scan(cfg, content).current == content,
    decreases content.len(),
{
    if content.len() == 0 {
        assert(closed_elements(Seq::<Seq<char>>::empty(), cfg.delimiter) + Seq::<char>::empty()
            =~= content);
    } else {
        let front = content.drop_last();
        let c = content.last();
        scan_loses_nothing(cfg, front);
        let before = scan(cfg, front);
        let after = scan(cfg, content);
        if !after.nested {
            let written = closed_elements(before.done, cfg.delimiter);
            assert(written + before.current == front);
            assert(content =~= front.push(c));
            match transition(cfg, before.state, before.resume, c).action {
                ScanAction::Keep => {
                    assert(written + before.current.push(c) =~= (written + before.current).push(c));
                },
                ScanAction::Split => {
                    assert(c == cfg.delimiter);
                    assert(after.done.drop_last() =~= before.done);
                    assert(closed_elements(after.done, cfg.delimiter) + Seq::<char>::empty() =~= (
                    written + before.current).push(c));
                },
                ScanAction::Refuse => {},
            }
        }
    }
}

/// A batch of one argument has the tokens of that argument.
pub proof fn batch_of_one(cfg: TokenizerConfig, arg: Seq<char>)
    ensures
        tokenize_batch(cfg, seq![arg]) == tokenize_one(cfg, arg),
{
    let args = seq![arg];
    assert(args.drop_last() =~= Seq::<Seq<char>>::empty());
    assert(tokenize_batch(cfg, args.drop_last()) == Ok::<(Seq<Seq<char>>, bool), ErrorView>(
        (Seq::empty(), false),
    ));
    match tokenize_one(cfg, arg) {
        Ok((tokens, flag)) => {
            assert(Seq::<Seq<char>>::empty() + tokens =~= tokens);
        },
        Err(_) => {},
    }
}

/// Once a prefix of a batch fails, the whole batch fails with the same error.
proof fn batch_error_persists(cfg: TokenizerConfig, args: Seq<Seq<char>>, n: int)
    requires
        0 <= n <= args.len(),
        tokenize_batch(cfg, args.take(n)) is Err,
    ensures
        tokenize_batch(cfg, args) == tokenize_batch(cfg, args.take(n)),
    decreases args.len() - n,
{
    if n < args.len() {
        let next = args.take(n + 1);
        assert(next.drop_last() =~= args.take(n));
        batch_error_persists(cfg, args, n + 1);
    } else {
        assert(args.take(n) =~= args);
    }
}

} // verus!
