//! What a client sends to create a paste, and what it gets back.

use vstd::prelude::*;
use crate::text::text_of;

verus! {

/// A creation request. Every field may be absent.
#[derive(Clone, Debug, PartialEq, Eq)]
pub struct CreatePastaRequest {
    /// The text or URL.
    pub content: Option<String>,
    /// The name of the attached file.
    pub file_name: Option<String>,
    /// The attached file, in Base64.
    pub file_content: Option<String>,
    pub extension: Option<String>,
    pub private: Option<bool>,
    pub readonly: Option<bool>,
    pub editable: Option<bool>,
    pub encrypt_server: Option<bool>,
    pub encrypt_client: Option<bool>,
    pub encrypted_key: Option<String>,
    /// A lifetime token.
    pub expiration: Option<String>,
    /// After how many reads the paste is to be deleted.
    pub burn_after: Option<u16>,
    pub uploader_password: Option<String>,
    /// The uploader's passphrase.
    pub plain_key: Option<String>,
    /// The secret that the client made where it encrypts itself.
    pub random_key: Option<String>,
}

/// A creation request as mathematical values.
pub struct RequestView {
    pub content: Option<Seq<char>>,
    pub file_name: Option<Seq<char>>,
    pub file_content: Option<Seq<char>>,
    pub extension: Option<Seq<char>>,
    pub private: Option<bool>,
    pub readonly: Option<bool>,
    pub editable: Option<bool>,
    pub encrypt_server: Option<bool>,
    pub encrypt_client: Option<bool>,
    pub encrypted_key: Option<Seq<char>>,
    pub expiration: Option<Seq<char>>,
    pub burn_after: Option<u16>,
    pub uploader_password: Option<Seq<char>>,
    pub plain_key: Option<Seq<char>>,
    pub random_key: Option<Seq<char>>,
}

impl View for CreatePastaRequest {
    type V = RequestView;

    open spec fn view(&self) -> RequestView {
        RequestView {
            content: text_of(self.content),
            file_name: text_of(self.file_name),
            file_content: text_of(self.file_content),
            extension: text_of(self.extension),
            private: self.private,
            readonly: self.readonly,
            editable: self.editable,
            encrypt_server: self.encrypt_server,
            encrypt_client: self.encrypt_client,
            encrypted_key: text_of(self.encrypted_key),
            expiration: text_of(self.expiration),
            burn_after: self.burn_after,
            uploader_password: text_of(self.uploader_password),
            plain_key: text_of(self.plain_key),
            random_key: text_of(self.random_key),
        }
    }
}

/// The answer to a request that succeeded: the public URL of the new paste.
#[derive(Clone, Debug, PartialEq, Eq)]
pub struct CreatePastaResponse {
    pub url: String,
}

} // verus!
