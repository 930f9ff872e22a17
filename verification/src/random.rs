//! Random tokens and identifiers. The randomness comes from the `rand` and
//! `uuid` crates; the shape of what is made of it is stated here.

use rand::Rng;
use vstd::prelude::*;
use vstd::string::StrSliceExecFns;

verus! {

/// The characters that a random token is drawn from.
pub const ALPHABET: &'static str = "abcdefghijklmnopqrstuvwxyzABCDEFGHIJKLMNOPQRSTUVWXYZ0123456789";

/// The number of characters in [`ALPHABET`].
pub const ALPHABET_LEN: usize = 62;

/// An ASCII letter or digit.
pub open spec fn is_alphanumeric(c: char) -> bool {
    ('a' <= c && c <= 'z') || ('A' <= c && c <= 'Z') || ('0' <= c && c <= '9')
}

/// A lower-case hexadecimal digit.
pub open spec fn is_lower_hex(c: char) -> bool {
    ('0' <= c && c <= '9') || ('a' <= c && c <= 'f')
}

/// The hyphenated lower-case form of a random (version 4) identifier in the
/// standard 128-bit layout: 8, 4, 4, 4 and 12 hexadecimal digits, with the
/// version digit `4` and a variant digit of `8`, `9`, `a` or `b`.
pub open spec fn is_random_id(text: Seq<char>) -> bool {
    &&& text.len() == 36
    &&& forall|i: int|
        0 <= i < 36 ==> if i == 8 || i == 13 || i == 18 || i == 23 {
            #[trigger] text[i] == '-'
        } else {
            is_lower_hex(text[i])
        }
    &&& text[14] == '4'
    &&& (text[19] == '8' || text[19] == '9' || text[19] == 'a' || text[19] == 'b')
}

/// `String::push`: appends one character.
pub assume_specification[ String::push ](text: &mut String, c: char)
    ensures
        final(text)@ == old(text)@.push(c),
;

/// Calls `rand::thread_rng().gen_range(0..bound)`.
///
/// Trusted: the result lies in the range. Nothing else is claimed of it. The
/// crate panics on an empty range, which the precondition excludes, and
/// where the operating system's random source fails.
#[verifier::external_body]
pub(crate) fn random_index(bound: usize) -> (index: usize)
    requires
        bound > 0,
    ensures
        index < bound,
{
    rand::thread_rng().gen_range(0..bound)
}

/// The alphabet holds the ASCII letters and digits, and nothing else.
pub proof fn lemma_alphabet(i: int)
    requires
        0 <= i < ALPHABET_LEN,
    ensures
        ALPHABET@.len() == ALPHABET_LEN,
        is_alphanumeric(ALPHABET@[i]),
{
    reveal_strlit("abcdefghijklmnopqrstuvwxyzABCDEFGHIJKLMNOPQRSTUVWXYZ0123456789");
}

/// Makes a random token of `length` characters, each drawn from
/// [`ALPHABET`].
pub fn generate_random_string(length: usize) -> (token: String)
    ensures
        token@.len() == length,
        forall|i: int| 0 <= i < length ==> is_alphanumeric(#[trigger] token@[i]),
{
    proof {
        lemma_alphabet(0);
    }
    let mut token = String::new();
    let mut made: usize = 0;
    while made < length
        invariant
            made <= length,
            token@.len() == made,
            ALPHABET@.len() == ALPHABET_LEN,
            forall|i: int| 0 <= i < made ==> is_alphanumeric(#[trigger] token@[i]),
        decreases length - made,
    {
        let index = random_index(ALPHABET_LEN);
        let c = ALPHABET.get_char(index);
        proof {
            lemma_alphabet(index as int);
        }
        token.push(c);
        made += 1;
    }
    token
}

/// Calls `uuid::Uuid::new_v4` and renders the identifier with its `Display`.
///
/// Trusted: the result has the hyphenated lower-case layout of a version 4
/// identifier. Nothing is claimed of its random digits. The call panics
/// where the operating system's random source fails.
#[verifier::external_body]
pub(crate) fn random_id() -> (id: String)
    ensures
        is_random_id(id@),
{
    uuid::Uuid::new_v4().to_string()
}

/// Makes a random unique identifier in the standard 128-bit layout.
pub fn generate_secure_id() -> (id: String)
    ensures
        is_random_id(id@),
{
    random_id()
}

} // verus!
