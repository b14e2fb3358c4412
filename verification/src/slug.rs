//! Randomized alphanumeric suffixes for name collision avoidance.

use rand::distributions::{Alphanumeric, Distribution};
use rand::thread_rng;
use vstd::prelude::*;

verus! {

/// Whether `c` may occur in a slug: an ASCII letter or digit.
pub open spec fn is_slug_char(c: char) -> bool {
    ('a' <= c && c <= 'z') || ('A' <= c && c <= 'Z') || ('0' <= c && c <= '9')
}

/// Whether `s` is a slug of length `n`: exactly `n` alphanumeric characters.
pub open spec fn is_slug(s: Seq<char>, n: nat) -> bool {
    &&& s.len() == n
    &&& forall|i: int| 0 <= i < s.len() ==> is_slug_char(#[trigger] s[i])
}

/// Relies on rand's `Alphanumeric` distribution: each sampled byte is one of
/// `A`-`Z`, `a`-`z`, `0`-`9`, so taking `length` samples yields exactly
/// `length` alphanumeric characters. The entropy comes from the thread-local
/// generator; nothing is claimed about which characters come out.
#[verifier::external_body]
pub(crate) fn generate(length: usize) -> (r: String)
    requires
        length > 0,
    ensures
        is_slug(r@, length as nat),
{
    let mut rng = thread_rng();
    Alphanumeric.sample_iter(&mut rng).take(length).map(char::from).collect()
}

} // verus!
