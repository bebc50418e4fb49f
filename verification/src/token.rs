//! The shared-secret token: random generation at startup and the
//! constant-time-equivalent comparison used to authenticate heartbeats.

use vstd::prelude::*;
use vstd::string::*;
use rand::RngExt;

verus! {

/// A character the token alphabet contains: ASCII letters and digits.
pub open spec fn is_token_char(c: char) -> bool {
    ('a' <= c && c <= 'z') || ('A' <= c && c <= 'Z') || ('0' <= c && c <= '9')
}

/// Relies on rand's `Alphanumeric` distribution: each sample is one of
/// a-z, A-Z, 0-9, and exactly sixteen samples are taken.
#[verifier::external_body]
fn sample_alphanumeric_16() -> (t: String)
    ensures
        t@.len() == 16,
        forall|i: int| 0 <= i < t@.len() ==> is_token_char(#[trigger] t@[i]),
{
    rand::rng().sample_iter(&rand::distr::Alphanumeric).take(16).map(char::from).collect()
}

/// A fresh random secret token: sixteen alphanumeric characters.
pub fn generate_token() -> (t: String)
    ensures
        t@.len() == 16,
        forall|i: int| 0 <= i < t@.len() ==> is_token_char(#[trigger] t@[i]),
{
    sample_alphanumeric_16()
}

/// Compares two strings without an early exit on the first differing
/// character, so for inputs of the secret's length the time taken does not
/// depend on where they differ.
pub fn constant_time_eq(a: &str, b: &str) -> (r: bool)
    ensures
        r == (a@ == b@),
{
    let alen = a.unicode_len();
    let blen = b.unicode_len();
    if alen != blen {
        return false;
    }
    let mut differs = false;
    let mut i: usize = 0;
    while i < alen
        invariant
            alen == a@.len(),
            alen == b@.len(),
            i <= alen,
            differs == exists|j: int| 0 <= j < i && a@[j] != b@[j],
        decreases alen - i,
    {
        let ca = a.get_char(i);
        let cb = b.get_char(i);
        differs = if ca != cb {
            true
        } else {
            differs
        };
        i += 1;
    }
    if !differs {
        proof {
            assert(a@ =~= b@);
        }
    }
    !differs
}

} // verus!
