//! Random tokens drawn from nanoid's URL-safe alphabet.
use vstd::prelude::*;

verus! {

/// A character of nanoid's URL-safe alphabet: `_`, `-`, a digit or an ASCII letter.
pub open spec fn is_url_safe(c: char) -> bool {
    c == '_' || c == '-' || ('0' <= c && c <= '9') || ('a' <= c && c <= 'z') || ('A' <= c
        && c <= 'Z')
}

/// `nanoid::format` with the default random source and the URL-safe alphabet.
/// The characters are random; what holds of every outcome is that there are
/// `size` of them and each belongs to the alphabet. The function loops forever
/// for a size of zero, and computes `8 * size` without a check.
#[verifier::external_body]
fn nanoid_url_safe(size: usize) -> (token: String)
    requires
        0 < size < usize::MAX / 8,
    ensures
        token@.len() == size,
        forall|i: int| 0 <= i < size ==> is_url_safe(#[trigger] token@[i]),
{
    nanoid::format(nanoid::rngs::default, &nanoid::alphabet::SAFE, size)
}

/// A fresh random token of `size` URL-safe characters.
pub fn random_token(size: usize) -> (token: String)
    requires
        0 < size < usize::MAX / 8,
    ensures
        token@.len() == size,
        forall|i: int| 0 <= i < size ==> is_url_safe(#[trigger] token@[i]),
{
    nanoid_url_safe(size)
}

} // verus!
