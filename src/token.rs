use vstd::prelude::*;

verus! {

/// The number of characters of a confirmation token.
pub const SUB_TOKEN_LEN: usize = 25;

/// An ASCII letter or digit.
pub open spec fn is_alphanumeric_ascii(c: char) -> bool {
    ('A' <= c && c <= 'Z') || ('a' <= c && c <= 'z') || ('0' <= c && c <= '9')
}

/// A confirmation token: 25 ASCII letters or digits.
pub open spec fn is_sub_token(s: Seq<char>) -> bool {
    &&& s.len() == SUB_TOKEN_LEN
    &&& forall|i: int| 0 <= i < s.len() ==> is_alphanumeric_ascii(#[trigger] s[i])
}

/// Relies on rand's `Alphanumeric` distribution sampled from `thread_rng`:
/// its source picks a byte of `A-Z`, `a-z` or `0-9`.
#[verifier::external_body]
fn sample_alphanumeric() -> (r: u8)
    ensures
        is_alphanumeric_ascii(r as char),
{
    rand::Rng::sample(&mut rand::thread_rng(), rand::distributions::Alphanumeric)
}

/// Relies on `String::push`: appends one character.
#[verifier::external_body]
fn push_char(s: &mut String, c: char)
    ensures
        final(s)@ == old(s)@.push(c),
{
    s.push(c)
}

/// Draws a fresh confirmation token from the thread's random source.
pub fn gen_sub_token() -> (r: String)
    ensures
        is_sub_token(r@),
{
    let mut token = String::new();
    let mut i: usize = 0;
    while i < SUB_TOKEN_LEN
        invariant
            i <= SUB_TOKEN_LEN,
            token@.len() == i,
            forall|j: int| 0 <= j < i ==> is_alphanumeric_ascii(#[trigger] token@[j]),
        decreases SUB_TOKEN_LEN - i,
    {
        let b = sample_alphanumeric();
        push_char(&mut token, b as char);
        i = i + 1;
    }
    token
}

} // verus!
