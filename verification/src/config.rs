//! The server's settings that the creation of a paste reads.

use vstd::prelude::*;
use crate::expiration::{is_known, is_known_token};
use crate::text::text_of;

verus! {

/// The settings, as the server was started with them.
#[derive(Clone, Debug, PartialEq, Eq)]
pub struct Config {
    /// File uploads are switched off.
    pub no_file_upload: bool,
    /// The largest upload, in mebibytes, of a paste that the server encrypts.
    pub max_file_size_encrypted_mb: usize,
    /// The largest upload, in mebibytes, of any other paste.
    pub max_file_size_unencrypted_mb: usize,
    /// The lifetime token used where a request names none, or an unknown one.
    pub default_expiry: String,
    /// Pastes that never expire are allowed.
    pub eternal_pasta: bool,
    /// Only uploaders who know the password may create pastes, where one is
    /// set.
    pub readonly: bool,
    /// The uploaders' password.
    pub uploader_password: Option<String>,
    /// Public locators are hash-like spellings, not animal names.
    pub hash_ids: bool,
    /// What every public URL of the server begins with.
    pub public_path: String,
    /// Whether a paste can be edited where its request does not say.
    pub editable: bool,
    /// The directory under which attachments are kept.
    pub data_dir: String,
}

/// The settings as mathematical values.
pub struct ConfigView {
    pub no_file_upload: bool,
    pub max_file_size_encrypted_mb: nat,
    pub max_file_size_unencrypted_mb: nat,
    pub default_expiry: Seq<char>,
    pub eternal_pasta: bool,
    pub readonly: bool,
    pub uploader_password: Option<Seq<char>>,
    pub hash_ids: bool,
    pub public_path: Seq<char>,
    pub editable: bool,
    pub data_dir: Seq<char>,
}

impl View for Config {
    type V = ConfigView;

    open spec fn view(&self) -> ConfigView {
        ConfigView {
            no_file_upload: self.no_file_upload,
            max_file_size_encrypted_mb: self.max_file_size_encrypted_mb as nat,
            max_file_size_unencrypted_mb: self.max_file_size_unencrypted_mb as nat,
            default_expiry: self.default_expiry@,
            eternal_pasta: self.eternal_pasta,
            readonly: self.readonly,
            uploader_password: text_of(self.uploader_password),
            hash_ids: self.hash_ids,
            public_path: self.public_path@,
            editable: self.editable,
            data_dir: self.data_dir@,
        }
    }
}

impl ConfigView {
    /// Settings are well formed where the default lifetime token is one of
    /// the tokens with a rule of its own.
    pub open spec fn wf(self) -> bool {
        is_known_token(self.default_expiry)
    }
}

impl Config {
    /// Whether the settings are well formed: the default lifetime token has
    /// a rule of its own.
    pub fn is_well_formed(&self) -> (ok: bool)
        ensures
            ok == self@.wf(),
    {
        is_known(self.default_expiry.as_str())
    }
}

} // verus!
