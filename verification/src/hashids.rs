//! The hash-like spelling of an identifier, made by the `harsh` crate.

use vstd::prelude::*;

verus! {

/// The least number of characters that a hash-like spelling has.
pub const HASHIDS_MIN_LENGTH: u8 = 6;

/// The text that `harsh` makes of one number, with its default alphabet, no
/// salt and the given least length.
pub uninterp spec fn hashids_encoding(min_length: u8, number: u64) -> Seq<char>;

/// Calls `harsh::Harsh::encode` on the single number `number`, with an
/// encoder built by `harsh::HarshBuilder` from its defaults and the least
/// length `min_length`.
///
/// Believed, not proved: the text depends on the two arguments alone. The
/// builder cannot fail on its default alphabet.
#[verifier::external_body]
fn encode_hashids(min_length: u8, number: u64) -> (spelling: String)
    ensures
        spelling@ == hashids_encoding(min_length, number),
{
    let encoder = harsh::Harsh::builder().length(usize::from(min_length)).build();
    encoder.unwrap().encode(&[number])
}

/// The hash-like spelling of `number`.
pub fn to_hashids(number: u64) -> (spelling: String)
    ensures
        spelling@ == hashids_encoding(HASHIDS_MIN_LENGTH, number),
{
    encode_hashids(HASHIDS_MIN_LENGTH, number)
}

} // verus!
