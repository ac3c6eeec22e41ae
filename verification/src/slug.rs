//! The public locator of a paste: the spelling of its identifier, and the
//! URL that is handed to the client.

use vstd::prelude::*;
use vstd::string::*;
use crate::animal_names::{animal_names, to_animal_names};
use crate::hashids::{hashids_encoding, to_hashids, HASHIDS_MIN_LENGTH};

verus! {

/// The public spelling of an identifier: hash-like where the server is set
/// so, else in animal names.
pub open spec fn slug(hash_ids: bool, id: u64) -> Seq<char> {
    if hash_ids {
        hashids_encoding(HASHIDS_MIN_LENGTH, id)
    } else {
        animal_names(id as nat)
    }
}

/// The URL of a new paste: below `auth`, and ending in `success`, where the
/// server encrypts the paste, so that the client goes on to unlock it; below
/// `upload` for every other paste.
pub open spec fn success_url(
    public_path: Seq<char>,
    slug: Seq<char>,
    encrypt_server: bool,
) -> Seq<char> {
    if encrypt_server {
        public_path + "/auth/"@ + slug + "/success"@
    } else {
        public_path + "/upload/"@ + slug
    }
}

/// The public spelling of `id`.
pub fn slug_of(hash_ids: bool, id: u64) -> (spelling: String)
    ensures
        spelling@ == slug(hash_ids, id),
{
    if hash_ids {
        to_hashids(id)
    } else {
        to_animal_names(id)
    }
}

/// The URL of the new paste whose public spelling is `slug`.
pub fn compose_url(public_path: &str, slug: &str, encrypt_server: bool) -> (url: String)
    ensures
        url@ == success_url(public_path@, slug@, encrypt_server),
{
    let mut url = String::from_str(public_path);
    if encrypt_server {
        url.append("/auth/");
        url.append(slug);
        url.append("/success");
    } else {
        url.append("/upload/");
        url.append(slug);
    }
    url
}

} // verus!
