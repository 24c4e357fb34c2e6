//! Stores for what parsing finds: key-value pairs, and text that is no
//! argument. Also the conversion of a stored value to a type.

use vstd::prelude::*;
use vstd::string::*;
use crate::conversion::{bool_of, int_of, outcome, parse_bool, parse_int};
use crate::error::{Error, ErrorView, Result};
use crate::text::same_text;
use crate::utils::case::normalized;

verus! {

/// A table of keys, each with a value or alone.
pub trait KeyValueStore {
    /// The entries of the store: each key, in the form under which it is
    /// kept, with its value, or with `None` where the key stands alone.
    spec fn entries(&self) -> Map<Seq<char>, Option<Seq<char>>>;

    /// The form under which `key` is kept and looked up.
    spec fn stored_key(&self, key: Seq<char>) -> Seq<char>;

    /// Puts `key` with `value` into the store, in place of what the key had.
    fn add(&mut self, key: &str, value: Option<&str>)
        ensures
            final(self).entries() == old(self).entries().insert(
                old(self).stored_key(key@),
                value.deep_view(),
            ),
            forall|k: Seq<char>| final(self).stored_key(k) == old(self).stored_key(k),
    ;

    /// The value of `key`; `None` where the key is missing or stands alone.
    fn get(&self, key: &str) -> (value: Option<&str>)
        ensures
            value.deep_view() == value_at(self.entries(), self.stored_key(key@)),
    ;

    /// Whether `key` is in the store.
    fn has_key(&self, key: &str) -> (found: bool)
        ensures
            found == self.entries().dom().contains(self.stored_key(key@)),
    ;

    /// The keys of the store, each once, in no particular order.
    fn keys(&self) -> (keys: Vec<&str>)
        ensures
            keys.deep_view().no_duplicates(),
            forall|k: Seq<char>| keys.deep_view().contains(k) <==> self.entries().dom().contains(k),
    ;

    /// The number of keys in the store.
    fn len(&self) -> (n: usize)
        ensures
            self.entries().dom().finite(),
            n == self.entries().dom().len(),
    ;

    /// Whether the store holds no key.
    fn is_empty(&self) -> (empty: bool)
        ensures
            empty == (self.entries().dom().len() == 0),
    {
        self.len() == 0
    }
}

/// The value that `entries` holds for the stored form `key`.
pub open spec fn value_at(entries: Map<Seq<char>, Option<Seq<char>>>, key: Seq<char>) -> Option<
    Seq<char>,
> {
    if entries.dom().contains(key) {
        entries[key]
    } else {
        None
    }
}

/// The map that a list of entries stands for; of two entries with one key
/// the later one counts.
pub open spec fn entries_map(items: Seq<(String, Option<String>)>) -> Map<Seq<char>, Option<Seq<char>>>
    decreases items.len(),
{
    if items.len() == 0 {
        Map::empty()
    } else {
        entries_map(items.drop_last()).insert(items.last().0@, items.last().1.deep_view())
    }
}

/// Whether no two entries of the list have the same key.
pub open spec fn distinct_keys(items: Seq<(String, Option<String>)>) -> bool {
    forall|i: int, j: int| 0 <= i < j < items.len() ==> items[i].0@ != items[j].0@
}

/// The keys of the map of a list are the keys of its entries.
proof fn entries_map_keys(items: Seq<(String, Option<String>)>)
    ensures
        forall|k: Seq<char>|
            entries_map(items).dom().contains(k) <==> exists|i: int|
                0 <= i < items.len() && #[trigger] items[i].0@ == k,
        entries_map(items).dom().finite(),
    decreases items.len(),
{
    if items.len() > 0 {
        let front = items.drop_last();
        entries_map_keys(front);
        assert forall|k: Seq<char>| entries_map(items).dom().contains(k) implies exists|i: int|
            0 <= i < items.len() && #[trigger] items[i].0@ == k by {
            if k == items.last().0@ {
                assert(items[items.len() - 1].0@ == k);
            } else {
                let i = choose|i: int| 0 <= i < front.len() && #[trigger] front[i].0@ == k;
                assert(items[i].0@ == k);
            }
        }
        assert forall|k: Seq<char>|
            (exists|i: int| 0 <= i < items.len() && #[trigger] items[i].0@ == k) implies entries_map(
            items,
        ).dom().contains(k) by {
            let i = choose|i: int| 0 <= i < items.len() && #[trigger] items[i].0@ == k;
            if i < front.len() {
                assert(front[i].0@ == k);
            }
        }
    }
}

/// With distinct keys, the map of a list holds each entry's value at its key
/// and has as many keys as the list has entries.
proof fn entries_map_values(items: Seq<(String, Option<String>)>)
    requires
        distinct_keys(items),
    ensures
        forall|i: int|
            0 <= i < items.len() ==> entries_map(items).dom().contains(#[trigger] items[i].0@)
                && entries_map(items)[items[i].0@] == items[i].1.deep_view(),
        entries_map(items).dom().finite(),
        entries_map(items).dom().len() == items.len(),
    decreases items.len(),
{
    if items.len() > 0 {
        let front = items.drop_last();
        entries_map_values(front);
        entries_map_keys(front);
        assert(!entries_map(front).dom().contains(items.last().0@)) by {
            if entries_map(front).dom().contains(items.last().0@) {
                let i = choose|i: int| 0 <= i < front.len() && #[trigger] front[i].0@ == items.last().0@;
                assert(items[i].0@ == items[items.len() - 1].0@);
            }
        }
        assert forall|i: int| 0 <= i < items.len() implies entries_map(items).dom().contains(
            #[trigger] items[i].0@,
        ) && entries_map(items)[items[i].0@] == items[i].1.deep_view() by {
            if i < front.len() {
                assert(front[i] == items[i]);
                assert(items[i].0@ != items[items.len() - 1].0@);
            }
        }
    }
}

/// Replacing an entry by one with the same key replaces the key's value in
/// the map.
proof fn entries_map_update(items: Seq<(String, Option<String>)>, i: int, entry: (String, Option<String>))
    requires
        distinct_keys(items),
        0 <= i < items.len(),
        entry.0@ == items[i].0@,
    ensures
        distinct_keys(items.update(i, entry)),
        entries_map(items.update(i, entry)) == entries_map(items).insert(
            entry.0@,
            entry.1.deep_view(),
        ),
    decreases items.len(),
{
    let changed = items.update(i, entry);
    let front = items.drop_last();
    if i == items.len() - 1 {
        assert(changed.drop_last() =~= front);
        assert(entries_map(changed) =~= entries_map(items).insert(entry.0@, entry.1.deep_view()));
    } else {
        assert(changed.drop_last() =~= front.update(i, entry));
        assert(changed.last() == items.last());
        entries_map_update(front, i, entry);
        assert(items[i].0@ != items[items.len() - 1].0@);
        assert(entries_map(changed) =~= entries_map(items).insert(entry.0@, entry.1.deep_view()));
    }
}

/// A key-value store that keeps its entries in the order in which their keys
/// first came, with keys compared with or without regard to case.
#[derive(Debug)]
pub struct DefaultKeyValueStore {
    items: Vec<(String, Option<String>)>,
    case_sensitive: bool,
}

impl DefaultKeyValueStore {
    #[verifier::type_invariant]
    spec fn keys_are_distinct(self) -> bool {
        distinct_keys(self.items@)
    }

    /// Whether keys are compared with regard to case.
    pub closed spec fn is_case_sensitive(&self) -> bool {
        self.case_sensitive
    }

    /// Creates an empty store.
    pub fn new(case_sensitive: bool) -> (store: Self)
        ensures
            store.entries() == Map::<Seq<char>, Option<Seq<char>>>::empty(),
            store.is_case_sensitive() == case_sensitive,
    {
        DefaultKeyValueStore { items: Vec::new(), case_sensitive }
    }

    /// Sets whether keys are compared with regard to case from now on. The
    /// entries stay under the form in which their keys were put in.
    pub fn set_case_sensitive(&mut self, case_sensitive: bool)
        ensures
            final(self).entries() == old(self).entries(),
            final(self).is_case_sensitive() == case_sensitive,
    {
        proof {
            use_type_invariant(&*self);
        }
        self.case_sensitive = case_sensitive;
    }

    /// Returns the form under which `key` is kept and looked up: the key
    /// itself where case matters, else its lower-case form.
    pub fn normalize_key(&self, key: &str) -> (out: String)
        ensures
            out@ == self.stored_key(key@),
    {
        if self.case_sensitive {
            key.to_owned()
        } else {
            key.to_lowercase()
        }
    }

    /// Reads the value of `key` as a `T`. Without a value for the key there is
    /// nothing to read; whether a value reads as a `T` is up to `T`.
    pub fn value_of<T: core::str::FromStr>(&self, key: &str) -> (out: Option<T>)
        ensures
            value_at(self.entries(), self.stored_key(key@)) is None ==> out is None,
    {
        match self.get(key) {
            Some(value) => read_as(value),
            None => None,
        }
    }

    /// Removes all entries.
    pub fn clear(&mut self)
        ensures
            final(self).entries() == Map::<Seq<char>, Option<Seq<char>>>::empty(),
            final(self).is_case_sensitive() == old(self).is_case_sensitive(),
    {
        self.items = Vec::new();
    }

    /// Finds the entry that is kept under `stored`.
    fn find(&self, stored: &str) -> (at: Option<usize>)
        ensures
            match at {
                Some(i) => i < self.items@.len() && self.items@[i as int].0@ == stored@,
                None => forall|j: int| 0 <= j < self.items@.len() ==> self.items@[j].0@ != stored@,
            },
    {
        let mut i: usize = 0;
        while i < self.items.len()
            invariant
                i <= self.items@.len(),
                forall|j: int| 0 <= j < i ==> self.items@[j].0@ != stored@,
            decreases self.items@.len() - i,
        {
            if same_text(self.items[i].0.as_str(), stored) {
                return Some(i);
            }
            i += 1;
        }
        None
    }
}

impl Clone for DefaultKeyValueStore {
    fn clone(&self) -> (copy: Self)
        ensures
            copy.entries() == self.entries(),
            copy.is_case_sensitive() == self.is_case_sensitive(),
    {
        proof {
            use_type_invariant(self);
        }
        let mut items: Vec<(String, Option<String>)> = Vec::new();
        let mut i: usize = 0;
        while i < self.items.len()
            invariant
                i <= self.items@.len(),
                items@ == self.items@.take(i as int),
            decreases self.items@.len() - i,
        {
            let value = match &self.items[i].1 {
                Some(v) => Some(v.clone()),
                None => None,
            };
            items.push((self.items[i].0.clone(), value));
            assert(items@ =~= self.items@.take(i + 1));
            i += 1;
        }
        assert(self.items@.take(self.items@.len() as int) =~= self.items@);
        DefaultKeyValueStore { items, case_sensitive: self.case_sensitive }
    }
}

/// `str::parse` hands the text to the `FromStr` of `T`; what comes back is
/// up to that implementation, and a failure is turned into `None`.
#[verifier::external_body]
fn read_as<T: core::str::FromStr>(text: &str) -> (out: Option<T>) {
    text.parse::<T>().ok()
}

/// Copies an optional text.
fn copy_optional(value: Option<&str>) -> (out: Option<String>)
    ensures
        out.deep_view() == value.deep_view(),
{
    match value {
        Some(v) => Some(v.to_owned()),
        None => None,
    }
}

impl KeyValueStore for DefaultKeyValueStore {
    closed spec fn entries(&self) -> Map<Seq<char>, Option<Seq<char>>> {
        entries_map(self.items@)
    }

    open spec fn stored_key(&self, key: Seq<char>) -> Seq<char> {
        normalized(key, self.is_case_sensitive())
    }

    fn add(&mut self, key: &str, value: Option<&str>) {
        proof {
            use_type_invariant(&*self);
        }
        let stored = self.normalize_key(key);
        let owned = copy_optional(value);
        let ghost before = self.items@;
        let found = self.find(stored.as_str());
        let mut items: Vec<(String, Option<String>)> = Vec::new();
        core::mem::swap(&mut items, &mut self.items);
        match found {
            Some(i) => {
                proof {
                    entries_map_update(before, i as int, (stored, owned));
                }
                items.set(i, (stored, owned));
            },
            None => {
                items.push((stored, owned));
                assert(items@.drop_last() =~= before);
            },
        }
        self.items = items;
    }

    fn get(&self, key: &str) -> (value: Option<&str>) {
        proof {
            use_type_invariant(self);
            entries_map_keys(self.items@);
            entries_map_values(self.items@);
        }
        let stored = self.normalize_key(key);
        match self.find(stored.as_str()) {
            Some(i) => match &self.items[i].1 {
                Some(v) => Some(v.as_str()),
                None => None,
            },
            None => None,
        }
    }

    fn has_key(&self, key: &str) -> (found: bool) {
        proof {
            entries_map_keys(self.items@);
        }
        let stored = self.normalize_key(key);
        self.find(stored.as_str()).is_some()
    }

    fn keys(&self) -> (keys: Vec<&str>) {
        proof {
            use_type_invariant(self);
            entries_map_keys(self.items@);
        }
        let mut keys: Vec<&str> = Vec::new();
        let mut i: usize = 0;
        while i < self.items.len()
            invariant
                i <= self.items@.len(),
                keys@.len() == i,
                forall|j: int| 0 <= j < i ==> (#[trigger] keys@[j])@ == self.items@[j].0@,
            decreases self.items@.len() - i,
        {
            keys.push(self.items[i].0.as_str());
            i += 1;
        }
        let ghost listed = keys.deep_view();
        assert forall|k: Seq<char>| listed.contains(k) <==> self.entries().dom().contains(k) by {
            if listed.contains(k) {
                let j = choose|j: int| 0 <= j < listed.len() && listed[j] == k;
                assert(self.items@[j].0@ == k);
            }
            if self.entries().dom().contains(k) {
                let j = choose|j: int| 0 <= j < self.items@.len() && #[trigger] self.items@[j].0@ == k;
                assert(listed[j] == k);
            }
        }
        assert(listed.no_duplicates()) by {
            assert forall|a: int, b: int| 0 <= a < listed.len() && 0 <= b < listed.len() && a
                != b implies listed[a] != listed[b] by {
                assert(listed[a] == self.items@[a].0@);
                assert(listed[b] == self.items@[b].0@);
            }
        }
        keys
    }

    fn len(&self) -> (n: usize) {
        proof {
            use_type_invariant(self);
            entries_map_values(self.items@);
        }
        self.items.len()
    }
}

/// Text that is no argument, in the order in which it came.
#[derive(Debug, Clone)]
pub struct NonArgTextStore {
    text: Vec<String>,
}

impl View for NonArgTextStore {
    type V = Seq<Seq<char>>;

    closed spec fn view(&self) -> Seq<Seq<char>> {
        self.text.deep_view()
    }
}

impl Default for NonArgTextStore {
    fn default() -> (store: Self)
        ensures
            store@ == Seq::<Seq<char>>::empty(),
    {
        NonArgTextStore::new()
    }
}

impl NonArgTextStore {
    /// Creates an empty store.
    pub fn new() -> (store: Self)
        ensures
            store@ == Seq::<Seq<char>>::empty(),
    {
        let store = NonArgTextStore { text: Vec::new() };
        assert(store.text.deep_view() =~= Seq::<Seq<char>>::empty());
        store
    }

    /// Adds one text at the end.
    pub fn add(&mut self, text: &str)
        ensures
            final(self)@ == old(self)@.push(text@),
    {
        self.text.push(text.to_owned());
        assert(self.text.deep_view() =~= old(self).text.deep_view().push(text@));
    }

    /// Adds several texts at the end, in their order.
    pub fn add_multiple(&mut self, texts: Vec<&str>)
        ensures
            final(self)@ == old(self)@ + texts.deep_view(),
    {
        let ghost before = self.text.deep_view();
        let mut i: usize = 0;
        assert(self.text.deep_view() =~= before + texts.deep_view().take(0));
        while i < texts.len()
            invariant
                i <= texts.len(),
                self.text.deep_view() == before + texts.deep_view().take(i as int),
            decreases texts.len() - i,
        {
            let ghost so_far = self.text.deep_view();
            self.text.push(texts[i].to_owned());
            assert(self.text.deep_view() =~= so_far.push(texts@[i as int]@));
            assert(so_far.push(texts@[i as int]@) =~= before + texts.deep_view().take(i + 1));
            i += 1;
        }
        assert(texts.deep_view().take(texts.len() as int) =~= texts.deep_view());
    }

    /// All texts, in the order in which they were added.
    pub fn texts(&self) -> (texts: &[String])
        ensures
            texts.deep_view() == self@,
    {
        let texts = self.text.as_slice();
        assert(texts.deep_view() =~= self.text.deep_view());
        texts
    }

    /// The number of texts.
    pub fn len(&self) -> (n: usize)
        ensures
            n == self@.len(),
    {
        self.text.len()
    }

    /// Whether the store holds no text.
    pub fn is_empty(&self) -> (empty: bool)
        ensures
            empty == (self@.len() == 0),
    {
        self.text.len() == 0
    }

    /// Removes all texts.
    pub fn clear(&mut self)
        ensures
            final(self)@ == Seq::<Seq<char>>::empty(),
    {
        self.text.clear();
        assert(self.text.deep_view() =~= Seq::<Seq<char>>::empty());
    }
}

/// Reading a stored value as a type, for every key-value store.
pub trait KeyValueStoreExt: KeyValueStore {
    /// Reads the value of `key` as a `T`. Without a value for the key there is
    /// nothing to read; whether a value reads as a `T` is up to `T`.
    fn value_of<T: core::str::FromStr>(&self, key: &str) -> (out: Option<T>)
        ensures
            value_at(self.entries(), self.stored_key(key@)) is None ==> out is None,
    {
        match self.get(key) {
            Some(value) => read_as(value),
            None => None,
        }
    }
}

impl<S: KeyValueStore> KeyValueStoreExt for S {
}

/// The message for a stored text that is not exactly one character.
pub open spec fn not_one_char_message(text: Seq<char>) -> Seq<char> {
    "Expected a single character, got: '"@ + text + "'"@
}

/// The single character that `text` consists of.
pub open spec fn char_of(text: Seq<char>) -> core::result::Result<char, ErrorView> {
    if text.len() == 1 {
        Ok(text[0])
    } else {
        Err(ErrorView::InvalidInput(not_one_char_message(text)))
    }
}

/// Types that a stored argument text can be converted to.
pub trait FromArgValue: Sized + DeepView {
    /// What the text `value` converts to.
    spec fn converted(value: Seq<char>) -> core::result::Result<<Self as DeepView>::V, ErrorView>;

    /// Converts `value` to this type.
    fn from_arg_value(value: &str) -> (out: Result<Self>)
        ensures
            outcome(out) == Self::converted(value@),
    ;
}

impl FromArgValue for String {
    open spec fn converted(value: Seq<char>) -> core::result::Result<Seq<char>, ErrorView> {
        Ok(value)
    }

    fn from_arg_value(value: &str) -> (out: Result<Self>) {
        Ok(value.to_owned())
    }
}

impl FromArgValue for i32 {
    open spec fn converted(value: Seq<char>) -> core::result::Result<i32, ErrorView> {
        int_of(value)
    }

    fn from_arg_value(value: &str) -> (out: Result<Self>) {
        parse_int(value)
    }
}

impl FromArgValue for bool {
    open spec fn converted(value: Seq<char>) -> core::result::Result<bool, ErrorView> {
        bool_of(value)
    }

    fn from_arg_value(value: &str) -> (out: Result<Self>) {
        parse_bool(value)
    }
}

impl FromArgValue for char {
    open spec fn converted(value: Seq<char>) -> core::result::Result<char, ErrorView> {
        char_of(value)
    }

    fn from_arg_value(value: &str) -> (out: Result<Self>) {
        if value.unicode_len() == 1 {
            Ok(value.get_char(0))
        } else {
            let mut message = String::from_str("Expected a single character, got: '");
            message.append(value);
            message.append("'");
            Err(Error::InvalidInput(message))
        }
    }
}

impl<T: FromArgValue> FromArgValue for Option<T> {
    open spec fn converted(value: Seq<char>) -> core::result::Result<
        Option<<T as DeepView>::V>,
        ErrorView,
    > {
        if value.len() == 0 {
            Ok(None)
        } else {
            match T::converted(value) {
                Ok(v) => Ok(Some(v)),
                Err(e) => Err(e),
            }
        }
    }

    fn from_arg_value(value: &str) -> (out: Result<Self>) {
        if value.is_empty() {
            Ok(None)
        } else {
            match T::from_arg_value(value) {
                Ok(v) => Ok(Some(v)),
                Err(e) => Err(e),
            }
        }
    }
}

} // verus!
