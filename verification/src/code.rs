//! Short codes: fixed-length strings over the 62 ASCII letters and digits.

use vstd::prelude::*;

verus! {

/// Number of characters in a short code.
pub const CODE_LENGTH: usize = 6;

/// The alphabet of short codes: `A`-`Z`, `a`-`z` and `0`-`9`.
pub open spec fn is_code_char(c: char) -> bool {
    ||| 'A' <= c <= 'Z'
    ||| 'a' <= c <= 'z'
    ||| '0' <= c <= '9'
}

/// A well-formed short code: `CODE_LENGTH` characters, all from the alphabet.
pub open spec fn is_code(s: Seq<char>) -> bool {
    &&& s.len() == CODE_LENGTH
    &&& forall|i: int| 0 <= i < s.len() ==> is_code_char(#[trigger] s[i])
}

/// Appends one character to a string.
///
/// Trusted: `String::push` is documented to append the given `char` to the
/// end of the string, so the characters afterwards are the old ones followed
/// by `ch`.
pub assume_specification[ String::push ](s: &mut String, ch: char)
    ensures
        final(s)@ == old(s)@.push(ch),
;

/// Draws one character of the code alphabet from the thread-local generator.
///
/// Trusted: `rand`'s `Alphanumeric` distribution samples a byte out of a
/// fixed table holding exactly the 62 ASCII letters and digits; `char::from`
/// keeps its value. Which character comes out is up to the generator, so only
/// membership in the alphabet is claimed. The thread-local generator panics
/// if the operating system cannot seed it.
#[verifier::external_body]
fn sample_code_char() -> (c: char)
    ensures
        is_code_char(c),
{
    char::from(rand::Rng::sample(&mut rand::thread_rng(), rand::distributions::Alphanumeric))
}

/// Produces a fresh candidate code: `CODE_LENGTH` characters, each drawn
/// independently from the alphabet. Nothing is promised about uniqueness;
/// callers that need it check against their table and draw again.
pub fn generate() -> (code: String)
    ensures
        is_code(code@),
{
    let mut code = String::new();
    let mut drawn: usize = 0;
    while drawn < CODE_LENGTH
        invariant
            drawn <= CODE_LENGTH,
            code@.len() == drawn,
            forall|i: int| 0 <= i < code@.len() ==> is_code_char(#[trigger] code@[i]),
        decreases CODE_LENGTH - drawn,
    {
        let c = sample_code_char();
        code.push(c);
        drawn += 1;
    }
    code
}

} // verus!
