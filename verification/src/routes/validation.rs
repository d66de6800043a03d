//! The checks that request bodies must pass before a route handles them.
use vstd::prelude::*;

verus! {

/// A text whose length, counted in characters, lies within `min..=max`.
pub open spec fn length_within(s: Seq<char>, min: nat, max: nat) -> bool {
    min <= s.len() <= max
}

/// Whether the text has between `min` and `max` characters, bounds included.
pub fn char_length_within(s: &String, min: usize, max: usize) -> (r: bool)
    ensures
        r == length_within(s@, min as nat, max as nat),
{
    let n = s.as_str().unicode_len();
    min <= n && n <= max
}

/// An optional text is valid when it is absent or has an allowed length.
pub fn optional_length_within(s: &Option<String>, min: usize, max: usize) -> (r: bool)
    ensures
        r == match s {
            Some(t) => length_within(t@, min as nat, max as nat),
            None => true,
        },
{
    match s {
        Some(t) => char_length_within(t, min, max),
        None => true,
    }
}

} // verus!
