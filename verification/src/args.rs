//! Argument declarations: flags, key-value pairs and the shapes a key-value
//! token may take.

use vstd::prelude::*;
use vstd::string::*;
use crate::text::same_text;

verus! {

/// The shapes of a key-value token that a declaration accepts.
#[derive(Debug, Clone, Copy, PartialEq, Eq, Structural)]
pub enum AllowedKeyValueFormats {
    /// `KEY=VALUE`
    KeyValue,
    /// `KEY`, without a value
    KeyOnly,
    /// `KEY=`, with an empty value
    KeyEquals,
    /// Any of the three shapes.
    KeyAll,
}

impl AllowedKeyValueFormats {
    /// Two shapes are compatible when they are the same or one of them is
    /// [`AllowedKeyValueFormats::KeyAll`].
    pub open spec fn compatible(self, other: Self) -> bool {
        self == other || self == AllowedKeyValueFormats::KeyAll || other
            == AllowedKeyValueFormats::KeyAll
    }

    /// Whether this shape is compatible with at least one of `formats`.
    pub open spec fn compatible_with_any(self, formats: Seq<Self>) -> bool {
        exists|i: int| 0 <= i < formats.len() && self.compatible(#[trigger] formats[i])
    }

    /// The name of the variant, as it is written in messages.
    pub open spec fn name(self) -> Seq<char> {
        match self {
            AllowedKeyValueFormats::KeyValue => "KeyValue"@,
            AllowedKeyValueFormats::KeyOnly => "KeyOnly"@,
            AllowedKeyValueFormats::KeyEquals => "KeyEquals"@,
            AllowedKeyValueFormats::KeyAll => "KeyAll"@,
        }
    }

    /// The three concrete shapes.
    pub fn all() -> (formats: Vec<Self>)
        ensures
            formats@ == seq![
                AllowedKeyValueFormats::KeyValue,
                AllowedKeyValueFormats::KeyOnly,
                AllowedKeyValueFormats::KeyEquals,
            ],
    {
        let mut formats: Vec<Self> = Vec::new();
        formats.push(AllowedKeyValueFormats::KeyValue);
        formats.push(AllowedKeyValueFormats::KeyOnly);
        formats.push(AllowedKeyValueFormats::KeyEquals);
        assert(formats@ =~= seq![
            AllowedKeyValueFormats::KeyValue,
            AllowedKeyValueFormats::KeyOnly,
            AllowedKeyValueFormats::KeyEquals,
        ]);
        formats
    }

    /// Tells whether this shape and `other` are compatible.
    pub fn is_compatible_with(&self, other: Self) -> (ok: bool)
        ensures
            ok == self.compatible(other),
    {
        *self == other || *self == AllowedKeyValueFormats::KeyAll || other
            == AllowedKeyValueFormats::KeyAll
    }

    /// Tells whether this shape is compatible with at least one of `formats`.
    pub fn is_compatible_with_any(&self, formats: &[Self]) -> (ok: bool)
        ensures
            ok == self.compatible_with_any(formats@),
    {
        let mut i: usize = 0;
        while i < formats.len()
            invariant
                i <= formats.len(),
                forall|j: int| 0 <= j < i ==> !self.compatible(#[trigger] formats@[j]),
            decreases formats.len() - i,
        {
            if self.is_compatible_with(formats[i]) {
                return true;
            }
            i += 1;
        }
        false
    }

    /// The name of the variant, as it is written in messages.
    pub fn as_str(&self) -> (name: &'static str)
        ensures
            name@ == self.name(),
    {
        match self {
            AllowedKeyValueFormats::KeyValue => "KeyValue",
            AllowedKeyValueFormats::KeyOnly => "KeyOnly",
            AllowedKeyValueFormats::KeyEquals => "KeyEquals",
            AllowedKeyValueFormats::KeyAll => "KeyAll",
        }
    }
}

/// Copies a list of texts.
fn copy_texts(values: &[&str]) -> (out: Vec<String>)
    ensures
        out.deep_view() == values.deep_view(),
{
    let mut out: Vec<String> = Vec::new();
    let mut i: usize = 0;
    while i < values.len()
        invariant
            i <= values.len(),
            out.len() == i,
            forall|j: int| 0 <= j < i ==> (#[trigger] out@[j])@ == values@[j]@,
        decreases values.len() - i,
    {
        out.push(values[i].to_owned());
        i += 1;
    }
    assert(out.deep_view() =~= values.deep_view());
    out
}

/// Copies a list of shapes.
pub fn copy_formats(formats: &[AllowedKeyValueFormats]) -> (out: Vec<AllowedKeyValueFormats>)
    ensures
        out@ == formats@,
{
    let mut out: Vec<AllowedKeyValueFormats> = Vec::new();
    let mut i: usize = 0;
    while i < formats.len()
        invariant
            i <= formats.len(),
            out@ == formats@.take(i as int),
        decreases formats.len() - i,
    {
        out.push(formats[i]);
        i += 1;
        assert(formats@.take(i as int) =~= formats@.take(i - 1).push(formats@[i - 1]));
    }
    assert(formats@.take(formats.len() as int) =~= formats@);
    out
}

/// A flag: an argument that is present or absent.
#[derive(Debug, Clone)]
pub struct Flag {
    name: String,
    description: String,
    dependencies: Vec<String>,
    exclusions: Vec<String>,
}

/// What a [`Flag`] holds.
pub ghost struct FlagView {
    pub name: Seq<char>,
    pub description: Seq<char>,
    pub dependencies: Seq<Seq<char>>,
    pub exclusions: Seq<Seq<char>>,
}

impl View for Flag {
    type V = FlagView;

    closed spec fn view(&self) -> FlagView {
        FlagView {
            name: self.name@,
            description: self.description@,
            dependencies: self.dependencies.deep_view(),
            exclusions: self.exclusions.deep_view(),
        }
    }
}

impl Flag {
    /// Declares a flag with no dependencies and no exclusions.
    pub fn new(name: &str, description: &str) -> (flag: Self)
        ensures
            flag@ == (FlagView {
                name: name@,
                description: description@,
                dependencies: Seq::empty(),
                exclusions: Seq::empty(),
            }),
    {
        let flag = Flag {
            name: name.to_owned(),
            description: description.to_owned(),
            dependencies: Vec::new(),
            exclusions: Vec::new(),
        };
        assert(flag.dependencies.deep_view() =~= Seq::<Seq<char>>::empty());
        assert(flag.exclusions.deep_view() =~= Seq::<Seq<char>>::empty());
        flag
    }

    /// Adds an argument that must be present for this flag to be accepted.
    pub fn depends_on(self, dependency: &str) -> (flag: Self)
        ensures
            flag@ == (FlagView { dependencies: self@.dependencies.push(dependency@), ..self@ }),
    {
        let mut flag = self;
        flag.dependencies.push(dependency.to_owned());
        assert(flag.dependencies.deep_view() =~= self.dependencies.deep_view().push(dependency@));
        flag
    }

    /// Adds an argument that must be absent for this flag to be accepted.
    pub fn excludes(self, exclusion: &str) -> (flag: Self)
        ensures
            flag@ == (FlagView { exclusions: self@.exclusions.push(exclusion@), ..self@ }),
    {
        let mut flag = self;
        flag.exclusions.push(exclusion.to_owned());
        assert(flag.exclusions.deep_view() =~= self.exclusions.deep_view().push(exclusion@));
        flag
    }

    /// The name of the flag.
    pub fn name(&self) -> (name: &str)
        ensures
            name@ == self@.name,
    {
        self.name.as_str()
    }

    /// The description of the flag.
    pub fn description(&self) -> (description: &str)
        ensures
            description@ == self@.description,
    {
        self.description.as_str()
    }

    /// The arguments this flag depends on, in the order they were added.
    pub fn dependencies(&self) -> (dependencies: &[String])
        ensures
            dependencies.deep_view() == self@.dependencies,
    {
        let dependencies = self.dependencies.as_slice();
        assert(dependencies.deep_view() =~= self.dependencies.deep_view());
        dependencies
    }

    /// The arguments this flag excludes, in the order they were added.
    pub fn exclusions(&self) -> (exclusions: &[String])
        ensures
            exclusions.deep_view() == self@.exclusions,
    {
        let exclusions = self.exclusions.as_slice();
        assert(exclusions.deep_view() =~= self.exclusions.deep_view());
        exclusions
    }

    /// Whether the flag is bound to a field. Bindings are not part of this
    /// library, so no flag has one.
    pub fn has_binding(&self) -> (bound: bool)
        ensures
            !bound,
    {
        false
    }
}

/// A key-value pair: an argument that carries a value.
#[derive(Debug, Clone)]
pub struct KeyValue {
    name: String,
    description: String,
    required: bool,
    dependencies: Vec<String>,
    exclusions: Vec<String>,
    allowed_formats: Vec<AllowedKeyValueFormats>,
    allowed_values: Option<Vec<String>>,
    has_type_converter: bool,
}

/// What a [`KeyValue`] holds.
pub ghost struct KeyValueView {
    pub name: Seq<char>,
    pub description: Seq<char>,
    pub required: bool,
    pub dependencies: Seq<Seq<char>>,
    pub exclusions: Seq<Seq<char>>,
    pub allowed_formats: Seq<AllowedKeyValueFormats>,
    pub allowed_values: Option<Seq<Seq<char>>>,
    pub has_type_converter: bool,
}

impl KeyValueView {
    /// Whether `value` may be given: any value where the declaration lists
    /// none, else only a listed one.
    pub open spec fn allows(self, value: Seq<char>) -> bool {
        match self.allowed_values {
            Some(values) => values.contains(value),
            None => true,
        }
    }
}

impl View for KeyValue {
    type V = KeyValueView;

    closed spec fn view(&self) -> KeyValueView {
        KeyValueView {
            name: self.name@,
            description: self.description@,
            required: self.required,
            dependencies: self.dependencies.deep_view(),
            exclusions: self.exclusions.deep_view(),
            allowed_formats: self.allowed_formats@,
            allowed_values: self.allowed_values.deep_view(),
            has_type_converter: self.has_type_converter,
        }
    }
}

impl KeyValue {
    /// Declares an optional key-value pair that accepts the `KEY=VALUE` shape
    /// and any value.
    pub fn new(name: &str, description: &str) -> (kv: Self)
        ensures
            kv@ == (KeyValueView {
                name: name@,
                description: description@,
                required: false,
                dependencies: Seq::empty(),
                exclusions: Seq::empty(),
                allowed_formats: seq![AllowedKeyValueFormats::KeyValue],
                allowed_values: None,
                has_type_converter: false,
            }),
    {
        let mut allowed_formats: Vec<AllowedKeyValueFormats> = Vec::new();
        allowed_formats.push(AllowedKeyValueFormats::KeyValue);
        let kv = KeyValue {
            name: name.to_owned(),
            description: description.to_owned(),
            required: false,
            dependencies: Vec::new(),
            exclusions: Vec::new(),
            allowed_formats,
            allowed_values: None,
            has_type_converter: false,
        };
        assert(kv.dependencies.deep_view() =~= Seq::<Seq<char>>::empty());
        assert(kv.exclusions.deep_view() =~= Seq::<Seq<char>>::empty());
        assert(kv.allowed_formats@ =~= seq![AllowedKeyValueFormats::KeyValue]);
        kv
    }

    /// Marks the pair as required.
    pub fn required(self) -> (kv: Self)
        ensures
            kv@ == (KeyValueView { required: true, ..self@ }),
    {
        let mut kv = self;
        kv.required = true;
        kv
    }

    /// Adds an argument that must be present for this pair to be accepted.
    pub fn depends_on(self, dependency: &str) -> (kv: Self)
        ensures
            kv@ == (KeyValueView { dependencies: self@.dependencies.push(dependency@), ..self@ }),
    {
        let mut kv = self;
        kv.dependencies.push(dependency.to_owned());
        assert(kv.dependencies.deep_view() =~= self.dependencies.deep_view().push(dependency@));
        kv
    }

    /// Adds an argument that must be absent for this pair to be accepted.
    pub fn excludes(self, exclusion: &str) -> (kv: Self)
        ensures
            kv@ == (KeyValueView { exclusions: self@.exclusions.push(exclusion@), ..self@ }),
    {
        let mut kv = self;
        kv.exclusions.push(exclusion.to_owned());
        assert(kv.exclusions.deep_view() =~= self.exclusions.deep_view().push(exclusion@));
        kv
    }

    /// Replaces the accepted shapes.
    pub fn allowed_formats(self, formats: &[AllowedKeyValueFormats]) -> (kv: Self)
        ensures
            kv@ == (KeyValueView { allowed_formats: formats@, ..self@ }),
    {
        let mut kv = self;
        kv.allowed_formats = copy_formats(formats);
        kv
    }

    /// Restricts the pair to the listed values.
    pub fn allowed_values(self, values: &[&str]) -> (kv: Self)
        ensures
            kv@ == (KeyValueView { allowed_values: Some(values.deep_view()), ..self@ }),
    {
        let mut kv = self;
        kv.allowed_values = Some(copy_texts(values));
        kv
    }

    /// Records that the value of this pair is converted to a type. The
    /// converter itself is not kept.
    pub fn type_converter<T, E, F: Fn(&str) -> core::result::Result<T, E>>(self, _converter: F) -> (kv:
        Self)
        ensures
            kv@ == (KeyValueView { has_type_converter: true, ..self@ }),
    {
        let mut kv = self;
        kv.has_type_converter = true;
        kv
    }

    /// The name of the pair.
    pub fn name(&self) -> (name: &str)
        ensures
            name@ == self@.name,
    {
        self.name.as_str()
    }

    /// The description of the pair.
    pub fn description(&self) -> (description: &str)
        ensures
            description@ == self@.description,
    {
        self.description.as_str()
    }

    /// Whether the pair is required.
    pub fn is_required(&self) -> (required: bool)
        ensures
            required == self@.required,
    {
        self.required
    }

    /// The arguments this pair depends on, in the order they were added.
    pub fn dependencies(&self) -> (dependencies: &[String])
        ensures
            dependencies.deep_view() == self@.dependencies,
    {
        let dependencies = self.dependencies.as_slice();
        assert(dependencies.deep_view() =~= self.dependencies.deep_view());
        dependencies
    }

    /// The arguments this pair excludes, in the order they were added.
    pub fn exclusions(&self) -> (exclusions: &[String])
        ensures
            exclusions.deep_view() == self@.exclusions,
    {
        let exclusions = self.exclusions.as_slice();
        assert(exclusions.deep_view() =~= self.exclusions.deep_view());
        exclusions
    }

    /// The accepted shapes.
    pub fn get_allowed_formats(&self) -> (formats: &[AllowedKeyValueFormats])
        ensures
            formats@ == self@.allowed_formats,
    {
        self.allowed_formats.as_slice()
    }

    /// The listed values, if the pair is restricted to some.
    pub fn get_allowed_values(&self) -> (values: Option<&[String]>)
        ensures
            values.deep_view() == self@.allowed_values,
    {
        match &self.allowed_values {
            Some(list) => {
                let values = list.as_slice();
                assert(values.deep_view() =~= list.deep_view());
                Some(values)
            },
            None => None,
        }
    }

    /// Tells whether `value` may be given for this pair.
    pub fn is_value_allowed(&self, value: &str) -> (allowed: bool)
        ensures
            allowed == self@.allows(value@),
    {
        match &self.allowed_values {
            Some(values) => {
                let ghost listed = values.deep_view();
                let mut i: usize = 0;
                while i < values.len()
                    invariant
                        i <= values.len(),
                        listed == values.deep_view(),
                        self@.allowed_values == Some(listed),
                        forall|j: int| 0 <= j < i ==> #[trigger] listed[j] != value@,
                    decreases values.len() - i,
                {
                    if same_text(values[i].as_str(), value) {
                        assert(listed[i as int] == value@);
                        return true;
                    }
                    i += 1;
                }
                false
            },
            None => true,
        }
    }

    /// Whether the value of this pair is converted to a type.
    pub fn has_type_converter(&self) -> (has: bool)
        ensures
            has == self@.has_type_converter,
    {
        self.has_type_converter
    }

    /// Whether the pair is bound to a field. Bindings are not part of this
    /// library, so no pair has one.
    pub fn has_binding(&self) -> (bound: bool)
        ensures
            !bound,
    {
        false
    }
}

} // verus!
