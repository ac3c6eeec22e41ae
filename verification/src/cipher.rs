//! The symmetric cipher on texts, from the `magic-crypt` crate.

use vstd::prelude::*;
use magic_crypt::MagicCryptTrait;

verus! {

/// The Base64 text of `text` encrypted under `key`: AES-256 in CBC mode with
/// the SHA-256 digest of `key` as the key, a zero initialisation vector and
/// PKCS7 padding.
pub uninterp spec fn ciphertext(text: Seq<char>, key: Seq<char>) -> Seq<char>;

/// Calls `magic_crypt::MagicCrypt256::new` with `key` and no initialisation
/// vector, and `encrypt_str_to_base64` on `text`.
///
/// Believed, not proved: the result depends on the two texts alone, and it is
/// never empty, since PKCS7 pads every message to at least one block and the
/// Base64 text of a block is not empty.
#[verifier::external_body]
pub(crate) fn encrypt(text: &str, key: &str) -> (sealed: String)
    ensures
        sealed@ == ciphertext(text@, key@),
        sealed@.len() > 0,
{
    magic_crypt::MagicCrypt256::new(key, None::<&[u8]>).encrypt_str_to_base64(text)
}

} // verus!
