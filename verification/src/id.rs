use vstd::prelude::*;
use vstd::string::StrSliceExecFns;
use rand::distributions::{Alphanumeric, DistString};

verus! {

/// Number of characters in every paste identifier.
pub const ID_LENGTH: usize = 6;

/// A character of the identifier alphabet: an ASCII letter or digit.
pub open spec fn is_id_char(c: char) -> bool {
    ||| 'a' as u32 <= c as u32 <= 'z' as u32
    ||| 'A' as u32 <= c as u32 <= 'Z' as u32
    ||| '0' as u32 <= c as u32 <= '9' as u32
}

/// A well-formed identifier: exactly `ID_LENGTH` characters, every one of
/// them from the identifier alphabet.
pub open spec fn valid_id(s: Seq<char>) -> bool {
    s.len() == ID_LENGTH && (forall|i: int| 0 <= i < s.len() ==> is_id_char(#[trigger] s[i]))
}

/// Decide whether one character belongs to the identifier alphabet.
pub fn check_id_char(c: char) -> (r: bool)
    ensures
        r == is_id_char(c),
{
    let u = c as u32;
    ('a' as u32 <= u && u <= 'z' as u32) || ('A' as u32 <= u && u <= 'Z' as u32) || ('0' as u32
        <= u && u <= '9' as u32)
}

/// Decide whether a caller-supplied identifier is well formed.
///
/// This runs before any storage path is built: a rejected candidate never
/// addresses the store. The check is pure; it touches nothing but the string.
pub fn validate(candidate: &str) -> (r: bool)
    ensures
        r == valid_id(candidate@),
{
    let n = candidate.unicode_len();
    if n != ID_LENGTH {
        return false;
    }
    let mut i: usize = 0;
    while i < n
        invariant
            n == candidate@.len(),
            n == ID_LENGTH,
            i <= n,
            forall|j: int| 0 <= j < i ==> is_id_char(#[trigger] candidate@[j]),
        decreases n - i,
    {
        let c = candidate.get_char(i);
        if !check_id_char(c) {
            return false;
        }
        i = i + 1;
    }
    true
}

/// Relies on rand's `Alphanumeric` distribution: `sample_string` builds a
/// string of exactly `len` characters, each drawn from the ASCII set
/// `A`-`Z`, `a`-`z`, `0`-`9`. Nothing is assumed about which characters
/// come out: the source of randomness decides.
#[verifier::external_body]
fn sample_alphanumeric(len: usize) -> (r: String)
    ensures
        r@.len() == len as nat,
        forall|i: int| 0 <= i < r@.len() ==> is_id_char(#[trigger] r@[i]),
{
    Alphanumeric.sample_string(&mut rand::thread_rng(), len)
}

/// Produce a fresh identifier for a new paste: `ID_LENGTH` random
/// alphanumeric characters. Every result is well formed; no two calls are
/// correlated, and no check against existing storage is made here.
pub fn generate() -> (r: String)
    ensures
        valid_id(r@),
{
    sample_alphanumeric(ID_LENGTH)
}

} // verus!
