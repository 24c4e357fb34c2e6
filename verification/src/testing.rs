//! Helpers for exercising a parser: building argument lists, building inputs
//! that must fail, and joining and splitting argument strings.

use vstd::prelude::*;
use vstd::string::*;
use vstd::seq_lib::{to_multiset_contains, to_multiset_update};
use crate::text::to_chars;

verus! {

/// How generated arguments are written.
#[derive(Debug, Clone, Copy)]
pub struct TestConfig {
    /// Whether each key-value pair is written as a bracketed list.
    pub use_brackets: bool,
    /// Whether a value that holds a space is put in quotes.
    pub use_quotes: bool,
    /// The quote character to use.
    pub quote_char: char,
    /// Whether text that is no argument is included.
    pub include_non_arg_text: bool,
    /// Whether the arguments are put in a shuffled order.
    pub randomize_order: bool,
}

impl TestConfig {
    /// The usual way: no brackets, double quotes around values with a space,
    /// no other text, arguments in the order in which they were given.
    pub open spec fn standard() -> TestConfig {
        TestConfig {
            use_brackets: false,
            use_quotes: true,
            quote_char: '"',
            include_non_arg_text: false,
            randomize_order: false,
        }
    }

    /// Creates the usual configuration.
    pub fn new() -> (config: Self)
        ensures
            config == TestConfig::standard(),
    {
        TestConfig {
            use_brackets: false,
            use_quotes: true,
            quote_char: '"',
            include_non_arg_text: false,
            randomize_order: false,
        }
    }

    /// Creates a configuration that writes key-value pairs in brackets.
    pub fn with_brackets() -> (config: Self)
        ensures
            config == (TestConfig { use_brackets: true, ..TestConfig::standard() }),
    {
        TestConfig { use_brackets: true, ..TestConfig::new() }
    }

    /// Creates a configuration that writes key-value pairs without brackets.
    pub fn without_brackets() -> (config: Self)
        ensures
            config == TestConfig::standard(),
    {
        TestConfig::new()
    }

    /// Sets whether a value that holds a space is put in quotes.
    pub fn with_use_quotes(self, use_quotes: bool) -> (config: Self)
        ensures
            config == (TestConfig { use_quotes, ..self }),
    {
        TestConfig { use_quotes, ..self }
    }

    /// Sets the quote character.
    pub fn with_quote_char(self, quote_char: char) -> (config: Self)
        ensures
            config == (TestConfig { quote_char, ..self }),
    {
        TestConfig { quote_char, ..self }
    }

    /// Sets whether text that is no argument is included.
    pub fn with_non_arg_text(self, included: bool) -> (config: Self)
        ensures
            config == (TestConfig { include_non_arg_text: included, ..self }),
    {
        TestConfig { include_non_arg_text: included, ..self }
    }

    /// Sets whether the arguments are put in a shuffled order.
    pub fn with_randomize_order(self, randomize: bool) -> (config: Self)
        ensures
            config == (TestConfig { randomize_order: randomize, ..self }),
    {
        TestConfig { randomize_order: randomize, ..self }
    }
}

impl Default for TestConfig {
    fn default() -> (config: Self)
        ensures
            config == TestConfig::standard(),
    {
        TestConfig::new()
    }
}

/// Collects flags, key-value pairs and other text, and writes them as a list
/// of arguments.
pub struct TestArgsBuilder {
    flags: Vec<String>,
    key_values: Vec<(String, String)>,
    non_arg_text: Vec<String>,
    config: TestConfig,
}

/// What a [`TestArgsBuilder`] holds.
pub ghost struct TestArgsView {
    pub flags: Seq<Seq<char>>,
    pub key_values: Seq<(Seq<char>, Seq<char>)>,
    pub non_arg_text: Seq<Seq<char>>,
    pub config: TestConfig,
}

/// How a value is written: in quotes where quotes are used and the value
/// holds a space, else as it is.
pub open spec fn written_value(value: Seq<char>, config: TestConfig) -> Seq<char> {
    if config.use_quotes && value.contains(' ') {
        seq![config.quote_char] + value + seq![config.quote_char]
    } else {
        value
    }
}

/// How a key-value pair is written.
pub open spec fn written_pair(key: Seq<char>, value: Seq<char>, config: TestConfig) -> Seq<char> {
    if config.use_brackets {
        "["@ + key + "="@ + written_value(value, config) + "]"@
    } else {
        key + "="@ + written_value(value, config)
    }
}

impl TestArgsView {
    /// The arguments in the order in which they were given: the flags, the
    /// key-value pairs and, where it is included, the other text.
    pub open spec fn arguments(self) -> Seq<Seq<char>> {
        let pairs = Seq::new(
            self.key_values.len(),
            |i: int| written_pair(self.key_values[i].0, self.key_values[i].1, self.config),
        );
        if self.config.include_non_arg_text {
            self.flags + pairs + self.non_arg_text
        } else {
            self.flags + pairs
        }
    }
}

/// The state of the generator after one step.
pub open spec fn next_random(state: int) -> int {
    (state * 48271) % 0x7fffffff
}

/// Reads the system clock with `SystemTime::now` and turns it into the whole
/// seconds since `UNIX_EPOCH` with `duration_since` and `Duration::as_secs`,
/// for use as a seed; zero where the clock stands before 1970. The number
/// differs from call to call, so nothing is claimed of it.
#[verifier::external_body]
fn clock_seed() -> (seed: u64) {
    std::time::SystemTime::now().duration_since(std::time::UNIX_EPOCH).map_or(0, |d| d.as_secs())
}

/// Advances the generator by one step.
fn step_random(state: u64) -> (next: u64)
    ensures
        next == next_random(state as int),
        next < 0x7fffffff,
{
    let reduced: u64 = state % 0x7fffffff;
    assert((reduced * 48271) % 0x7fffffff == (state * 48271) % 0x7fffffff) by (nonlinear_arith)
        requires
            reduced == state % 0x7fffffff,
    ;
    (reduced * 48271) % 0x7fffffff
}

/// `s` with the texts at the places `i` and `j` exchanged.
pub open spec fn swapped(s: Seq<Seq<char>>, i: int, j: int) -> Seq<Seq<char>> {
    s.update(i, s[j]).update(j, s[i])
}

/// `s` shuffled from the place `i` down to the second place, with the
/// generator in the state `state`: the generator is advanced, the place `i`
/// is exchanged with the place that the new state picks among the places up
/// to `i`, and the shuffle goes on below `i`.
pub open spec fn shuffled_from(s: Seq<Seq<char>>, state: int, i: int) -> Seq<Seq<char>>
    decreases i,
{
    if i < 1 {
        s
    } else {
        let next = next_random(state);
        shuffled_from(swapped(s, i, next % (i + 1)), next, i - 1)
    }
}

/// `s` shuffled with the generator started at `seed`.
pub open spec fn shuffled(s: Seq<Seq<char>>, seed: int) -> Seq<Seq<char>> {
    shuffled_from(s, seed, s.len() - 1)
}

/// Exchanging two texts keeps what a list holds.
pub proof fn swapped_holds_the_same(s: Seq<Seq<char>>, i: int, j: int)
    requires
        0 <= i < s.len(),
        0 <= j < s.len(),
    ensures
        swapped(s, i, j).len() == s.len(),
        swapped(s, i, j).to_multiset() == s.to_multiset(),
{
    let middle = s.update(i, s[j]);
    to_multiset_update(s, i, s[j]);
    to_multiset_update(middle, j, s[i]);
    assert(s.contains(s[i]));
    assert(s.contains(s[j]));
    to_multiset_contains(s, s[i]);
    to_multiset_contains(s, s[j]);
    if i == j {
        assert(swapped(s, i, j) =~= s);
    } else {
        assert(middle[j] == s[j]);
        assert(swapped(s, i, j).to_multiset() =~= s.to_multiset());
    }
}

/// A shuffled list holds the same texts as often as the list it was made
/// from.
pub proof fn shuffled_holds_the_same(s: Seq<Seq<char>>, state: int, i: int)
    requires
        i < s.len(),
        0 <= state,
    ensures
        shuffled_from(s, state, i).len() == s.len(),
        shuffled_from(s, state, i).to_multiset() == s.to_multiset(),
    decreases i,
{
    if i >= 1 {
        let next = next_random(state);
        let j = next % (i + 1);
        assert(0 <= next) by (nonlinear_arith)
            requires
                0 <= state,
                next == (state * 48271) % 0x7fffffff,
        ;
        swapped_holds_the_same(s, i, j);
        shuffled_holds_the_same(swapped(s, i, j), next, i - 1);
    }
}

/// Shuffles `items` with the generator started at `seed`: from the last
/// place down to the second, each place is exchanged with a place at or
/// before it.
pub fn shuffle(items: &mut Vec<String>, seed: u64)
    ensures
        final(items).deep_view() == shuffled(old(items).deep_view(), seed as int),
{
    let n = items.len();
    if n < 2 {
        return ;
    }
    let mut state = seed;
    let mut i: usize = n - 1;
    while i >= 1
        invariant
            i < n == items.len(),
            n == old(items).deep_view().len(),
            shuffled(old(items).deep_view(), seed as int) == shuffled_from(
                items.deep_view(),
                state as int,
                i as int,
            ),
        decreases i,
    {
        state = step_random(state);
        let j = (state % ((i + 1) as u64)) as usize;
        let ghost before = items.deep_view();
        let a = items[i].clone();
        let b = items[j].clone();
        items.set(i, b);
        items.set(j, a);
        assert(items.deep_view() =~= swapped(before, i as int, j as int));
        i -= 1;
    }
}

impl View for TestArgsBuilder {
    type V = TestArgsView;

    closed spec fn view(&self) -> TestArgsView {
        TestArgsView {
            flags: self.flags.deep_view(),
            key_values: self.key_values.deep_view(),
            non_arg_text: self.non_arg_text.deep_view(),
            config: self.config,
        }
    }
}

impl TestArgsBuilder {
    /// Creates a builder with the usual configuration.
    pub fn new() -> (builder: Self)
        ensures
            builder@ == (TestArgsView {
                flags: Seq::empty(),
                key_values: Seq::empty(),
                non_arg_text: Seq::empty(),
                config: TestConfig::standard(),
            }),
    {
        Self::with_config(TestConfig::new())
    }

    /// Creates a builder with the given configuration.
    pub fn with_config(config: TestConfig) -> (builder: Self)
        ensures
            builder@ == (TestArgsView {
                flags: Seq::empty(),
                key_values: Seq::empty(),
                non_arg_text: Seq::empty(),
                config,
            }),
    {
        let builder = TestArgsBuilder {
            flags: Vec::new(),
            key_values: Vec::new(),
            non_arg_text: Vec::new(),
            config,
        };
        assert(builder.flags.deep_view() =~= Seq::<Seq<char>>::empty());
        assert(builder.key_values.deep_view() =~= Seq::<(Seq<char>, Seq<char>)>::empty());
        assert(builder.non_arg_text.deep_view() =~= Seq::<Seq<char>>::empty());
        builder
    }

    /// Adds a flag.
    pub fn add_flag(self, flag: &str) -> (builder: Self)
        ensures
            builder@ == (TestArgsView { flags: self@.flags.push(flag@), ..self@ }),
    {
        let mut builder = self;
        builder.flags.push(flag.to_owned());
        assert(builder.flags.deep_view() =~= self.flags.deep_view().push(flag@));
        builder
    }

    /// Adds several flags, in their order.
    pub fn add_flags(self, flags: Vec<&str>) -> (builder: Self)
        ensures
            builder@ == (TestArgsView { flags: self@.flags + flags.deep_view(), ..self@ }),
    {
        let mut builder = self;
        let ghost before = self.flags.deep_view();
        let mut i: usize = 0;
        assert(builder.flags.deep_view() =~= before + flags.deep_view().take(0));
        while i < flags.len()
            invariant
                i <= flags.len(),
                builder.flags.deep_view() == before + flags.deep_view().take(i as int),
                builder.key_values == self.key_values,
                builder.non_arg_text == self.non_arg_text,
                builder.config == self.config,
            decreases flags.len() - i,
        {
            let ghost so_far = builder.flags.deep_view();
            builder.flags.push(flags[i].to_owned());
            assert(builder.flags.deep_view() =~= so_far.push(flags@[i as int]@));
            assert(so_far.push(flags@[i as int]@) =~= before + flags.deep_view().take(i + 1));
            i += 1;
        }
        assert(flags.deep_view().take(flags.len() as int) =~= flags.deep_view());
        builder
    }

    /// Adds a key-value pair.
    pub fn add_key_value(self, key: &str, value: &str) -> (builder: Self)
        ensures
            builder@ == (TestArgsView { key_values: self@.key_values.push((key@, value@)), ..self@ }),
    {
        let mut builder = self;
        builder.key_values.push((key.to_owned(), value.to_owned()));
        assert(builder.key_values.deep_view() =~= self.key_values.deep_view().push((key@, value@)));
        builder
    }

    /// Adds several key-value pairs, in their order.
    pub fn add_key_values(self, key_values: Vec<(&str, &str)>) -> (builder: Self)
        ensures
            builder@ == (TestArgsView {
                key_values: self@.key_values + key_values.deep_view(),
                ..self@
            }),
    {
        let mut builder = self;
        let ghost before = self.key_values.deep_view();
        let mut i: usize = 0;
        assert(builder.key_values.deep_view() =~= before + key_values.deep_view().take(0));
        while i < key_values.len()
            invariant
                i <= key_values.len(),
                builder.key_values.deep_view() == before + key_values.deep_view().take(i as int),
                builder.flags == self.flags,
                builder.non_arg_text == self.non_arg_text,
                builder.config == self.config,
            decreases key_values.len() - i,
        {
            let ghost so_far = builder.key_values.deep_view();
            let (key, value) = key_values[i];
            builder.key_values.push((key.to_owned(), value.to_owned()));
            assert(builder.key_values.deep_view() =~= so_far.push((key@, value@)));
            assert(so_far.push((key@, value@)) =~= before + key_values.deep_view().take(i + 1));
            i += 1;
        }
        assert(key_values.deep_view().take(key_values.len() as int) =~= key_values.deep_view());
        builder
    }

    /// Adds a text that is no argument.
    pub fn add_non_arg_text(self, text: &str) -> (builder: Self)
        ensures
            builder@ == (TestArgsView { non_arg_text: self@.non_arg_text.push(text@), ..self@ }),
    {
        let mut builder = self;
        builder.non_arg_text.push(text.to_owned());
        assert(builder.non_arg_text.deep_view() =~= self.non_arg_text.deep_view().push(text@));
        builder
    }

    /// Replaces the configuration.
    pub fn with_config_override(self, config: TestConfig) -> (builder: Self)
        ensures
            builder@ == (TestArgsView { config, ..self@ }),
    {
        let mut builder = self;
        builder.config = config;
        builder
    }

    /// Writes one key-value pair.
    fn write_pair(key: &str, value: &str, config: &TestConfig) -> (out: String)
        ensures
            out@ == written_pair(key@, value@, *config),
    {
        let chars = to_chars(value);
        let mut has_space = false;
        let mut i: usize = 0;
        while i < chars.len()
            invariant
                i <= chars.len(),
                has_space <==> exists|k: int| 0 <= k < i && chars@[k] == ' ',
            decreases chars.len() - i,
        {
            if chars[i] == ' ' {
                has_space = true;
            }
            i += 1;
        }
        assert(has_space == value@.contains(' '));
        let mut out = String::new();
        if config.use_brackets {
            out.append("[");
        }
        out.append(key);
        out.append("=");
        let ghost head = out@;
        if config.use_quotes && has_space {
            out.push(config.quote_char);
            out.append(value);
            out.push(config.quote_char);
        } else {
            out.append(value);
        }
        assert(out@ =~= head + written_value(value@, *config));
        if config.use_brackets {
            out.append("]");
        }
        assert(out@ =~= written_pair(key@, value@, *config));
        out
    }

    /// Writes the arguments in the order in which they were given.
    fn write_all(self) -> (args: Vec<String>)
        ensures
            args.deep_view() == self@.arguments(),
    {
        let ghost pairs = Seq::new(
            self@.key_values.len(),
            |i: int| written_pair(self@.key_values[i].0, self@.key_values[i].1, self@.config),
        );
        let mut result: Vec<String> = Vec::new();
        let mut i: usize = 0;
        assert(result.deep_view() =~= self.flags.deep_view().take(0));
        while i < self.flags.len()
            invariant
                i <= self.flags.len(),
                result.deep_view() == self.flags.deep_view().take(i as int),
            decreases self.flags.len() - i,
        {
            let ghost so_far = result.deep_view();
            result.push(self.flags[i].clone());
            assert(result.deep_view() =~= so_far.push(self.flags@[i as int]@));
            assert(so_far.push(self.flags@[i as int]@) =~= self.flags.deep_view().take(i + 1));
            i += 1;
        }
        assert(self.flags.deep_view().take(self.flags.len() as int) =~= self.flags.deep_view());
        let mut k: usize = 0;
        assert(result.deep_view() =~= self@.flags + pairs.take(0));
        while k < self.key_values.len()
            invariant
                k <= self.key_values.len(),
                pairs.len() == self.key_values.len(),
                forall|i: int|
                    0 <= i < pairs.len() ==> #[trigger] pairs[i] == written_pair(
                        self.key_values@[i].0@,
                        self.key_values@[i].1@,
                        self.config,
                    ),
                result.deep_view() == self@.flags + pairs.take(k as int),
            decreases self.key_values.len() - k,
        {
            let ghost so_far = result.deep_view();
            let written = Self::write_pair(
                self.key_values[k].0.as_str(),
                self.key_values[k].1.as_str(),
                &self.config,
            );
            result.push(written);
            assert(result.deep_view() =~= so_far.push(pairs[k as int]));
            assert(so_far.push(pairs[k as int]) =~= self@.flags + pairs.take(k + 1));
            k += 1;
        }
        assert(pairs.take(pairs.len() as int) =~= pairs);
        if self.config.include_non_arg_text {
            let ghost head = result.deep_view();
            let mut t: usize = 0;
            assert(result.deep_view() =~= head + self.non_arg_text.deep_view().take(0));
            while t < self.non_arg_text.len()
                invariant
                    t <= self.non_arg_text.len(),
                    result.deep_view() == head + self.non_arg_text.deep_view().take(t as int),
                decreases self.non_arg_text.len() - t,
            {
                let ghost so_far = result.deep_view();
                result.push(self.non_arg_text[t].clone());
                assert(result.deep_view() =~= so_far.push(self.non_arg_text@[t as int]@));
                assert(so_far.push(self.non_arg_text@[t as int]@) =~= head
                    + self.non_arg_text.deep_view().take(t + 1));
                t += 1;
            }
            assert(self.non_arg_text.deep_view().take(self.non_arg_text.len() as int)
                =~= self.non_arg_text.deep_view());
        }
        result
    }

    /// Writes the arguments, shuffled with the generator started at `seed`
    /// where the configuration asks for a shuffled order.
    pub fn build_with_seed(self, seed: u64) -> (args: Vec<String>)
        ensures
            args.deep_view() == if self@.config.randomize_order {
                shuffled(self@.arguments(), seed as int)
            } else {
                self@.arguments()
            },
    {
        let randomize = self.config.randomize_order;
        let mut result = self.write_all();
        if randomize {
            shuffle(&mut result, seed);
        }
        result
    }

    /// Writes the arguments. Where the configuration asks for a shuffled
    /// order, the system clock seeds the shuffle.
    pub fn build(self) -> (args: Vec<String>)
        ensures
            !self@.config.randomize_order ==> args.deep_view() == self@.arguments(),
            args.deep_view().to_multiset() == self@.arguments().to_multiset(),
    {
        if self.config.randomize_order {
            let seed = clock_seed();
            proof {
                shuffled_holds_the_same(
                    self@.arguments(),
                    seed as int,
                    self@.arguments().len() - 1,
                );
            }
            self.build_with_seed(seed)
        } else {
            self.build_with_seed(0)
        }
    }
}

/// Makes argument lists that a parser must refuse.
pub struct ErrorSimulator {
    config: TestConfig,
}

/// Makes a list of one text.
fn one(text: String) -> (list: Vec<String>)
    ensures
        list.deep_view() == seq![text@],
{
    let mut list: Vec<String> = Vec::new();
    list.push(text);
    assert(list.deep_view() =~= seq![text@]);
    list
}

impl ErrorSimulator {
    /// The configuration of the simulator.
    pub closed spec fn config(&self) -> TestConfig {
        self.config
    }

    /// Creates a simulator with the usual configuration.
    pub fn new() -> (simulator: Self)
        ensures
            simulator.config() == TestConfig::standard(),
    {
        ErrorSimulator { config: TestConfig::new() }
    }

    /// Creates a simulator with the given configuration.
    pub fn with_config(config: TestConfig) -> (simulator: Self)
        ensures
            simulator.config() == config,
    {
        ErrorSimulator { config }
    }

    /// Arguments that lack the required argument: none at all.
    pub fn required_arg_missing(&self, required_arg: &str) -> (args: Vec<String>)
        ensures
            args.deep_view() == Seq::<Seq<char>>::empty(),
    {
        let args: Vec<String> = Vec::new();
        assert(args.deep_view() =~= Seq::<Seq<char>>::empty());
        args
    }

    /// Arguments that hold both of two mutually exclusive arguments.
    pub fn mutually_exclusive_args(&self, arg1: &str, arg2: &str) -> (args: Vec<String>)
        ensures
            args.deep_view() == seq![arg1@, arg2@],
    {
        let mut args: Vec<String> = Vec::new();
        args.push(arg1.to_owned());
        args.push(arg2.to_owned());
        assert(args.deep_view() =~= seq![arg1@, arg2@]);
        args
    }

    /// Arguments that hold an argument without the one it depends on.
    pub fn dependency_not_met(&self, arg: &str, dependency: &str) -> (args: Vec<String>)
        ensures
            args.deep_view() == seq![arg@],
    {
        one(arg.to_owned())
    }

    /// Arguments that give `arg` the value `invalid_value`.
    pub fn invalid_value(&self, arg: &str, invalid_value: &str) -> (args: Vec<String>)
        ensures
            args.deep_view() == seq![arg@ + "="@ + invalid_value@],
    {
        let mut text = String::from_str(arg);
        text.append("=");
        text.append(invalid_value);
        one(text)
    }

    /// Arguments that hold a malformed key-value pair.
    pub fn invalid_key_value(&self, invalid_kv: &str) -> (args: Vec<String>)
        ensures
            args.deep_view() == seq![invalid_kv@],
    {
        one(invalid_kv.to_owned())
    }

    /// Arguments that hold an argument that no definition matches.
    pub fn unrecognized_arg(&self, unrecognized: &str) -> (args: Vec<String>)
        ensures
            args.deep_view() == seq![unrecognized@],
    {
        one(unrecognized.to_owned())
    }

    /// Arguments that give `key` a value that is no integer.
    pub fn invalid_int_value(&self, key: &str) -> (args: Vec<String>)
        ensures
            args.deep_view() == seq![key@ + "=not_an_integer"@],
    {
        let mut text = String::from_str(key);
        text.append("=not_an_integer");
        one(text)
    }

    /// Arguments that give `key` a value that is no boolean.
    pub fn invalid_bool_value(&self, key: &str) -> (args: Vec<String>)
        ensures
            args.deep_view() == seq![key@ + "=not_a_boolean"@],
    {
        let mut text = String::from_str(key);
        text.append("=not_a_boolean");
        one(text)
    }
}

/// The texts of `parts` with one space between each two.
pub open spec fn spaced(parts: Seq<Seq<char>>) -> Seq<char>
    decreases parts.len(),
{
    if parts.len() == 0 {
        Seq::empty()
    } else if parts.len() == 1 {
        parts[0]
    } else {
        spaced(parts.drop_last()) + " "@ + parts.last()
    }
}

/// Writes a module's name and its arguments as one line: the name, a space,
/// and the arguments with one space between each two.
pub fn create_pam_arg_string(module_name: &str, args: Vec<&str>) -> (line: String)
    ensures
        line@ == module_name@ + " "@ + spaced(args.deep_view()),
{
    let mut joined = String::new();
    let mut i: usize = 0;
    assert(args.deep_view().take(0) =~= Seq::<Seq<char>>::empty());
    while i < args.len()
        invariant
            i <= args.len(),
            joined@ == spaced(args.deep_view().take(i as int)),
        decreases args.len() - i,
    {
        let ghost next = args.deep_view().take(i + 1);
        assert(next.drop_last() =~= args.deep_view().take(i as int));
        if i > 0 {
            joined.append(" ");
        }
        joined.append(args[i]);
        assert(joined@ =~= spaced(next));
        i += 1;
    }
    assert(args.deep_view().take(args.len() as int) =~= args.deep_view());
    let mut line = String::from_str(module_name);
    line.append(" ");
    line.append(joined.as_str());
    line
}

/// The splitter of argument lines at one point: whether it stands inside
/// double quotes, the arguments it has finished and the one it is building.
pub ghost struct LineSplit {
    pub in_quotes: bool,
    pub done: Seq<Seq<char>>,
    pub current: Seq<char>,
}

/// One step of the line splitter: a double quote is kept and opens or closes
/// a quoted stretch; a space outside quotes ends the argument under
/// construction, if there is one; every other character is kept.
pub open spec fn line_step(s: LineSplit, c: char) -> LineSplit {
    if c == '"' {
        LineSplit { in_quotes: !s.in_quotes, current: s.current.push(c), ..s }
    } else if c == ' ' && !s.in_quotes {
        if s.current.len() > 0 {
            LineSplit { done: s.done.push(s.current), current: Seq::empty(), ..s }
        } else {
            s
        }
    } else {
        LineSplit { current: s.current.push(c), ..s }
    }
}

/// The line splitter after all of `line`.
pub open spec fn line_run(line: Seq<char>) -> LineSplit
    decreases line.len(),
{
    if line.len() == 0 {
        LineSplit { in_quotes: false, done: Seq::empty(), current: Seq::empty() }
    } else {
        line_step(line_run(line.drop_last()), line.last())
    }
}

/// The arguments of a line: its stretches between spaces that stand outside
/// double quotes, empty stretches left out.
pub open spec fn line_arguments(line: Seq<char>) -> Seq<Seq<char>> {
    let s = line_run(line);
    if s.current.len() > 0 {
        s.done.push(s.current)
    } else {
        s.done
    }
}

/// Splits a line into its arguments at the spaces outside double quotes.
pub fn split_pam_arg_string(arg_string: &str) -> (args: Vec<String>)
    ensures
        args.deep_view() == line_arguments(arg_string@),
{
    let chars = to_chars(arg_string);
    let n = chars.len();
    let mut result: Vec<String> = Vec::new();
    let mut in_quotes = false;
    let mut current = String::new();
    let mut filled: usize = 0;
    let mut i: usize = 0;
    assert(chars@.take(0) =~= Seq::<char>::empty());
    assert(result.deep_view() =~= Seq::<Seq<char>>::empty());
    while i < n
        invariant
            i <= n == chars.len(),
            chars@ == arg_string@,
            filled == current@.len(),
            filled <= i,
            line_run(chars@.take(i as int)) == (LineSplit {
                in_quotes,
                done: result.deep_view(),
                current: current@,
            }),
        decreases n - i,
    {
        let c = chars[i];
        let ghost before = line_run(chars@.take(i as int));
        let ghost next = chars@.take(i + 1);
        assert(next.drop_last() =~= chars@.take(i as int));
        assert(next.last() == c);
        if c == '"' {
            in_quotes = !in_quotes;
            current.push(c);
            filled += 1;
        } else if c == ' ' && !in_quotes {
            if filled > 0 {
                result.push(current);
                current = String::new();
                filled = 0;
                assert(result.deep_view() =~= before.done.push(before.current));
            }
        } else {
            current.push(c);
            filled += 1;
        }
        i += 1;
    }
    assert(chars@.take(n as int) =~= chars@);
    if filled > 0 {
        let ghost done = result.deep_view();
        let ghost last = current@;
        result.push(current);
        assert(result.deep_view() =~= done.push(last));
    }
    result
}

} // verus!
