use vstd::prelude::*;
use crate::error::push_char;
use rand::Rng;

verus! {

/// The length of an access token.
pub const ACCESS_TOKEN_LEN: usize = 25;

/// The length of a refresh token.
pub const REFRESH_TOKEN_LEN: usize = 33;

/// An ASCII letter or digit.
pub open spec fn is_alphanumeric(c: char) -> bool {
    ('A' <= c <= 'Z') || ('a' <= c <= 'z') || ('0' <= c <= '9')
}

/// A string of letters and digits of the given length.
pub open spec fn is_token_of_len(s: Seq<char>, len: nat) -> bool {
    &&& s.len() == len
    &&& forall|i: int| 0 <= i < s.len() ==> is_alphanumeric(#[trigger] s[i])
}

/// Relies on `rand::thread_rng` and the `Alphanumeric` distribution, which
/// samples a byte from `A-Z`, `a-z` and `0-9` using a cryptographically
/// strong generator.
#[verifier::external_body]
fn random_alphanumeric() -> (c: char)
    ensures
        is_alphanumeric(c),
{
    char::from(rand::thread_rng().sample(rand::distributions::Alphanumeric))
}

/// A random string of `length` letters and digits.
pub fn gen_random(length: usize) -> (r: String)
    ensures
        is_token_of_len(r@, length as nat),
{
    let mut s = String::new();
    let mut i: usize = 0;
    while i < length
        invariant
            i <= length,
            is_token_of_len(s@, i as nat),
        decreases length - i,
    {
        let c = random_alphanumeric();
        push_char(&mut s, c);
        i = i + 1;
    }
    s
}

} // verus!
