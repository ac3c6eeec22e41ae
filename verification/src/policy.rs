//! The encryption policy: which secret, if any, encrypts a paste's content
//! and its attachment, and whether the uploader's passphrase is stored in
//! wrapped form.
//!
//! Two secrets may come with a request. The passphrase (`plain_key`) is what
//! the uploader typed; the random key (`random_key`) is what the client made
//! where it encrypts before it sends.

use vstd::prelude::*;
use vstd::string::*;
use crate::cipher::{ciphertext, encrypt};
use crate::text::{copy_text, decimal, text_of, to_decimal};

verus! {

/// The secret under which the server encrypts a payload.
#[derive(Clone, Copy, Debug, PartialEq, Eq, Structural)]
pub enum KeyChoice {
    /// The payload is stored as it came.
    NoKey,
    /// The uploader's passphrase.
    PlainKey,
    /// The client's random key: the payload came encrypted by the client and
    /// is wrapped once more.
    RandomKey,
}

/// The server encrypts content and attachment where the request asks for
/// server-side encryption and the paste is not read-only: under the random
/// key where the client encrypts as well, else under the passphrase.
pub open spec fn payload_key(encrypt_server: bool, encrypt_client: bool, readonly: bool) -> KeyChoice {
    if encrypt_server && !readonly {
        if encrypt_client {
            KeyChoice::RandomKey
        } else {
            KeyChoice::PlainKey
        }
    } else {
        KeyChoice::NoKey
    }
}

/// The passphrase is stored in wrapped form where the paste is read-only
/// and a passphrase came with the request.
pub open spec fn wraps_key(readonly: bool, plain_key: Seq<char>) -> bool {
    readonly && plain_key.len() > 0
}

/// The key under which a paste's passphrase is wrapped: the decimal spelling
/// of the paste's identifier.
pub open spec fn wrapping_key(id: u64) -> Seq<char> {
    decimal(id as nat)
}

/// The passphrase in wrapped form.
pub open spec fn wrapped_key(id: u64, plain_key: Seq<char>) -> Seq<char> {
    ciphertext(plain_key, wrapping_key(id))
}

/// The wrapped key of the stored paste: the wrapped passphrase where one is
/// stored, else what the request supplied, unchanged.
pub open spec fn stored_key(
    supplied: Option<Seq<char>>,
    readonly: bool,
    id: u64,
    plain_key: Seq<char>,
) -> Option<Seq<char>> {
    if wraps_key(readonly, plain_key) {
        Some(wrapped_key(id, plain_key))
    } else {
        supplied
    }
}

/// The secret that a choice names.
pub open spec fn chosen_secret(
    choice: KeyChoice,
    plain_key: Seq<char>,
    random_key: Seq<char>,
) -> Option<Seq<char>> {
    match choice {
        KeyChoice::NoKey => None,
        KeyChoice::PlainKey => Some(plain_key),
        KeyChoice::RandomKey => Some(random_key),
    }
}

/// The content as it is stored: encrypted under the chosen secret where
/// there is one and the content is not empty, else as it came.
pub open spec fn stored_content(
    content: Seq<char>,
    choice: KeyChoice,
    plain_key: Seq<char>,
    random_key: Seq<char>,
) -> Seq<char> {
    match chosen_secret(choice, plain_key, random_key) {
        Some(secret) => if content.len() > 0 {
            ciphertext(content, secret)
        } else {
            content
        },
        None => content,
    }
}

/// Decides under which secret the server encrypts the payload.
pub fn choose_payload_key(
    encrypt_server: bool,
    encrypt_client: bool,
    readonly: bool,
) -> (choice: KeyChoice)
    ensures
        choice == payload_key(encrypt_server, encrypt_client, readonly),
{
    if encrypt_server && !readonly {
        if encrypt_client {
            KeyChoice::RandomKey
        } else {
            KeyChoice::PlainKey
        }
    } else {
        KeyChoice::NoKey
    }
}

/// The secret that `choice` names, of the two that came with the request.
pub fn secret_for<'a>(
    choice: KeyChoice,
    plain_key: &'a str,
    random_key: &'a str,
) -> (secret: Option<&'a str>)
    ensures
        match secret {
            Some(s) => chosen_secret(choice, plain_key@, random_key@) == Some(s@),
            None => chosen_secret(choice, plain_key@, random_key@) is None,
        },
{
    match choice {
        KeyChoice::NoKey => None,
        KeyChoice::PlainKey => Some(plain_key),
        KeyChoice::RandomKey => Some(random_key),
    }
}

/// The wrapped key to store with the paste `id`.
pub fn seal_key(
    supplied: &Option<String>,
    readonly: bool,
    id: u64,
    plain_key: &str,
) -> (key: Option<String>)
    ensures
        text_of(key) == stored_key(text_of(*supplied), readonly, id, plain_key@),
        wraps_key(readonly, plain_key@) ==> key is Some && key->0@.len() > 0,
{
    if readonly && !plain_key.is_empty() {
        let wrapping = to_decimal(id);
        Some(encrypt(plain_key, wrapping.as_str()))
    } else {
        copy_text(supplied)
    }
}

/// The content to store.
pub fn seal_content(
    content: &str,
    choice: KeyChoice,
    plain_key: &str,
    random_key: &str,
) -> (stored: String)
    ensures
        stored@ == stored_content(content@, choice, plain_key@, random_key@),
{
    match secret_for(choice, plain_key, random_key) {
        Some(secret) => {
            if content.is_empty() {
                String::from_str(content)
            } else {
                encrypt(content, secret)
            }
        },
        None => String::from_str(content),
    }
}

/// A read-only paste whose request brought a passphrase is stored with the
/// wrapped passphrase, whatever wrapped key the request supplied; a paste
/// that is not read-only keeps the wrapped key that its request supplied,
/// whatever the passphrase.
pub proof fn theorem_key_wrapping(
    supplied: Option<Seq<char>>,
    readonly: bool,
    id: u64,
    plain_key: Seq<char>,
)
    ensures
        readonly && plain_key.len() > 0 ==> stored_key(supplied, readonly, id, plain_key) == Some(
            wrapped_key(id, plain_key),
        ),
        !readonly ==> stored_key(supplied, readonly, id, plain_key) == supplied,
{
}

} // verus!
