//! Detecting the shape of a key-value token and checking it against the
//! shapes that a declaration accepts.

use vstd::prelude::*;
use vstd::string::*;
use crate::args::AllowedKeyValueFormats;
use crate::conversion::{Detection, FormatDetectionResult};
use crate::error::{Error, ErrorView, Result};
use crate::text::{from_chars, to_chars};

verus! {

/// The place of the first `=` in `s`, if there is one.
pub open spec fn first_equals(s: Seq<char>) -> Option<int>
    decreases s.len(),
{
    if s.len() == 0 {
        None
    } else if s[0] == '=' {
        Some(0)
    } else {
        match first_equals(s.skip(1)) {
            Some(p) => Some(p + 1),
            None => None,
        }
    }
}

/// The shape of a token: without a `=` it is a key alone; with one, the key
/// is what stands before the first `=` and the value what stands after it,
/// and the shape goes by whether the value is empty.
pub open spec fn detection(input: Seq<char>) -> Detection {
    match first_equals(input) {
        None => Detection { format: AllowedKeyValueFormats::KeyOnly, key: input, value: None },
        Some(p) => Detection {
            format: if p + 1 == input.len() {
                AllowedKeyValueFormats::KeyEquals
            } else {
                AllowedKeyValueFormats::KeyValue
            },
            key: input.subrange(0, p),
            value: Some(input.subrange(p + 1, input.len() as int)),
        },
    }
}

/// The place that [`first_equals`] gives holds a `=`, and no place before it
/// does; where it gives none, the text holds no `=`.
pub proof fn first_equals_is_first(s: Seq<char>)
    ensures
        match first_equals(s) {
            Some(p) => 0 <= p < s.len() && s[p] == '=' && forall|j: int| 0 <= j < p ==> s[j] != '=',
            None => !s.contains('='),
        },
    decreases s.len(),
{
    if s.len() > 0 && s[0] != '=' {
        let rest = s.skip(1);
        first_equals_is_first(rest);
        match first_equals(rest) {
            Some(p) => {
                assert(rest[p] == s[p + 1]);
                assert forall|j: int| 0 <= j < p + 1 implies s[j] != '=' by {
                    if j > 0 {
                        assert(rest[j - 1] == s[j]);
                    }
                }
            },
            None => {
                if s.contains('=') {
                    let k = choose|k: int| 0 <= k < s.len() && s[k] == '=';
                    assert(rest[k - 1] == '=');
                }
            },
        }
    }
}

/// A place that holds a `=` with none before it is the place that
/// [`first_equals`] gives.
pub proof fn first_equals_is_unique(s: Seq<char>, p: int)
    requires
        0 <= p < s.len(),
        s[p] == '=',
        forall|j: int| 0 <= j < p ==> s[j] != '=',
    ensures
        first_equals(s) == Some(p),
{
    first_equals_is_first(s);
}

/// Detection undoes writing: a key without a `=`, written with a `=` and a
/// value, is detected as that key with that value, and written alone as a key
/// alone.
pub proof fn detection_undoes_writing(key: Seq<char>, value: Seq<char>)
    requires
        !key.contains('='),
    ensures
        detection(key + seq!['='] + value) == (Detection {
            format: if value.len() == 0 {
                AllowedKeyValueFormats::KeyEquals
            } else {
                AllowedKeyValueFormats::KeyValue
            },
            key,
            value: Some(value),
        }),
        detection(key) == (Detection {
            format: AllowedKeyValueFormats::KeyOnly,
            key,
            value: None,
        }),
{
    let written = key + seq!['='] + value;
    let p = key.len() as int;
    assert(written[p] == '=');
    assert forall|j: int| 0 <= j < p implies written[j] != '=' by {
        assert(written[j] == key[j]);
    }
    first_equals_is_unique(written, p);
    assert(written.subrange(0, p) =~= key);
    assert(written.subrange(p + 1, written.len() as int) =~= value);
    first_equals_is_first(key);
}

/// The names of `formats`, separated by a comma and a space.
pub open spec fn joined_names(formats: Seq<AllowedKeyValueFormats>) -> Seq<char>
    decreases formats.len(),
{
    if formats.len() == 0 {
        Seq::empty()
    } else if formats.len() == 1 {
        formats[0].name()
    } else {
        joined_names(formats.drop_last()) + ", "@ + formats.last().name()
    }
}

/// The message for a token whose shape is not accepted.
pub open spec fn rejection_message(
    key: Seq<char>,
    format: AllowedKeyValueFormats,
    allowed: Seq<AllowedKeyValueFormats>,
) -> Seq<char> {
    "Invalid format for key '"@ + key + "': expected one of ["@ + joined_names(allowed) + "], got "@
        + format.name()
}

/// Detects the shape of a token by its first `=`.
///
/// Without a `=` the token is a key alone. With one, the key is what stands
/// before it and the value what stands after it, which may be empty.
pub fn detect(input: &str) -> (found: FormatDetectionResult)
    ensures
        found@ == detection(input@),
{
    let chars = to_chars(input);
    let n = chars.len();
    let mut i: usize = 0;
    while i < n && chars[i] != '='
        invariant
            i <= n == chars.len(),
            forall|j: int| 0 <= j < i ==> chars@[j] != '=',
        decreases n - i,
    {
        i += 1;
    }
    proof {
        first_equals_is_first(input@);
    }
    if i == n {
        FormatDetectionResult {
            format: AllowedKeyValueFormats::KeyOnly,
            key: input.to_owned(),
            value: None,
        }
    } else {
        let key = from_chars(&chars, 0, i);
        let value = from_chars(&chars, i + 1, n);
        let format = if i + 1 == n {
            AllowedKeyValueFormats::KeyEquals
        } else {
            AllowedKeyValueFormats::KeyValue
        };
        FormatDetectionResult { format, key, value: Some(value) }
    }
}

/// Writes the names of `formats`, separated by a comma and a space.
fn join_names(formats: &[AllowedKeyValueFormats]) -> (out: String)
    ensures
        out@ == joined_names(formats@),
{
    let mut out = String::new();
    let mut i: usize = 0;
    assert(formats@.take(0) =~= Seq::<AllowedKeyValueFormats>::empty());
    while i < formats.len()
        invariant
            i <= formats.len(),
            out@ == joined_names(formats@.take(i as int)),
        decreases formats.len() - i,
    {
        let ghost next = formats@.take(i + 1);
        assert(next.drop_last() =~= formats@.take(i as int));
        if i > 0 {
            out.append(", ");
        }
        out.append(formats[i].as_str());
        assert(out@ =~= joined_names(next));
        i += 1;
    }
    assert(formats@.take(formats.len() as int) =~= formats@);
    out
}

/// Checks a detected shape against the accepted ones.
///
/// Succeeds exactly when the shape is compatible with one of
/// `allowed_formats`; else the error names the key, the accepted shapes and
/// the shape that was found.
pub fn validate(detected: &FormatDetectionResult, allowed_formats: &[AllowedKeyValueFormats]) -> (out:
    Result<()>)
    ensures
        detected@.format.compatible_with_any(allowed_formats@) ==> out is Ok,
        !detected@.format.compatible_with_any(allowed_formats@) ==> (out matches Err(e) && e@
            == ErrorView::InvalidKeyValue(
            rejection_message(detected@.key, detected@.format, allowed_formats@),
        )),
{
    if detected.format.is_compatible_with_any(allowed_formats) {
        Ok(())
    } else {
        let mut message = String::from_str("Invalid format for key '");
        message.append(detected.key.as_str());
        message.append("': expected one of [");
        let names = join_names(allowed_formats);
        message.append(names.as_str());
        message.append("], got ");
        message.append(detected.format.as_str());
        Err(Error::InvalidKeyValue(message))
    }
}

/// A shape that a token can have is accepted exactly when it is among the
/// accepted shapes or one of those is [`AllowedKeyValueFormats::KeyAll`].
pub proof fn accepted_iff_listed_or_all(
    format: AllowedKeyValueFormats,
    allowed: Seq<AllowedKeyValueFormats>,
)
    requires
        format != AllowedKeyValueFormats::KeyAll || allowed.len() == 0 || allowed.contains(
            AllowedKeyValueFormats::KeyAll,
        ),
    ensures
        format.compatible_with_any(allowed) <==> (allowed.contains(format) || allowed.contains(
            AllowedKeyValueFormats::KeyAll,
        )),
{
    if format.compatible_with_any(allowed) {
        let i = choose|i: int| 0 <= i < allowed.len() && format.compatible(#[trigger] allowed[i]);
        if allowed[i] == format {
            assert(allowed.contains(format));
        } else if allowed[i] == AllowedKeyValueFormats::KeyAll {
            assert(allowed.contains(AllowedKeyValueFormats::KeyAll));
        }
    }
    if allowed.contains(format) {
        let i = choose|i: int| 0 <= i < allowed.len() && allowed[i] == format;
        assert(format.compatible(allowed[i]));
    }
    if allowed.contains(AllowedKeyValueFormats::KeyAll) {
        let i = choose|i: int| 0 <= i < allowed.len() && allowed[i] == AllowedKeyValueFormats::KeyAll;
        assert(format.compatible(allowed[i]));
    }
}

} // verus!
