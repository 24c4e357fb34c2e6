//! Comparing and normalising texts with or without regard to case.

use vstd::prelude::*;
use vstd::string::*;
use crate::text::{lowercase, same_text};

verus! {

/// The form under which a text is compared: itself where case matters, else
/// its lower-case form.
pub open spec fn normalized(s: Seq<char>, case_sensitive: bool) -> Seq<char> {
    if case_sensitive {
        s
    } else {
        lowercase(s)
    }
}

/// Returns `s` unchanged where case matters, else its lower-case form.
pub fn normalize(s: &str, case_sensitive: bool) -> (out: String)
    ensures
        out@ == normalized(s@, case_sensitive),
{
    if case_sensitive {
        s.to_owned()
    } else {
        s.to_lowercase()
    }
}

/// Tells whether two texts are the same, with or without regard to case.
pub fn compare(a: &str, b: &str, case_sensitive: bool) -> (same: bool)
    ensures
        same == (normalized(a@, case_sensitive) == normalized(b@, case_sensitive)),
{
    if case_sensitive {
        same_text(a, b)
    } else {
        let lower_a = a.to_lowercase();
        let lower_b = b.to_lowercase();
        same_text(lower_a.as_str(), lower_b.as_str())
    }
}

} // verus!
