//! Generation of confirmation tokens: 25 characters drawn uniformly from
//! the 62-symbol alphanumeric alphabet by a cryptographically-suitable
//! random source (about 148 bits of entropy).

use vstd::prelude::*;

verus! {

/// The fixed length of a confirmation token.
pub const TOKEN_LENGTH: usize = 25;

/// ASCII letters and digits, the alphabet tokens are drawn from.
pub open spec fn is_alphanumeric_char(c: char) -> bool {
    ||| 'a' as u32 <= c as u32 <= 'z' as u32
    ||| 'A' as u32 <= c as u32 <= 'Z' as u32
    ||| '0' as u32 <= c as u32 <= '9' as u32
}

/// Shape of a well-formed confirmation token: exactly [`TOKEN_LENGTH`]
/// alphanumeric characters.
pub open spec fn token_wf(s: Seq<char>) -> bool {
    &&& s.len() == TOKEN_LENGTH
    &&& forall|i: int| 0 <= i < s.len() ==> is_alphanumeric_char(#[trigger] s[i])
}

/// Relies on rand's `Alphanumeric` distribution: every sampled byte is an
/// ASCII letter or digit, drawn uniformly by the thread-local CSPRNG.
#[verifier::external_body]
fn sample_alphanumeric() -> (b: u8)
    ensures
        is_alphanumeric_char(b as char),
{
    let mut rng = rand::thread_rng();
    rand::Rng::sample(&mut rng, rand::distributions::Alphanumeric)
}

/// Relies on `String::push`: appends exactly the one character.
#[verifier::external_body]
fn push_char(s: &mut String, c: char)
    ensures
        final(s)@ == old(s)@.push(c),
{
    s.push(c);
}

/// Generates a random 25-character case-sensitive subscription token.
/// No collision check is performed; uniqueness rests on the entropy.
pub fn generate_subscription_token() -> (t: String)
    ensures
        token_wf(t@),
{
    let mut t = String::new();
    let mut i: usize = 0;
    while i < TOKEN_LENGTH
        invariant
            i <= TOKEN_LENGTH,
            t@.len() == i,
            forall|j: int| 0 <= j < i ==> is_alphanumeric_char(#[trigger] t@[j]),
        decreases TOKEN_LENGTH - i,
    {
        let b = sample_alphanumeric();
        push_char(&mut t, b as char);
        i += 1;
    }
    t
}

} // verus!
