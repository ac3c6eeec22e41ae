//! The stored record of a paste, and the description of its attachment.

use vstd::prelude::*;
use vstd::string::*;
use crate::animal_names::{animal_names, to_animal_names};
use crate::hashids::{hashids_encoding, to_hashids, HASHIDS_MIN_LENGTH};
use crate::text::{str_eq, text_of};

verus! {

/// What a paste holds. The kind is derived from the request, never taken
/// from the client.
#[derive(Clone, Copy, Debug, PartialEq, Eq, Structural)]
pub enum PastaType {
    /// Neither content nor a file.
    Unset,
    /// Content that is no URL.
    Text,
    /// Content that is a URL.
    Url,
    /// An attached file, with or without content.
    File,
}

impl PastaType {
    /// The word under which the kind is stored.
    pub open spec fn spec_label(self) -> Seq<char> {
        match self {
            PastaType::Unset => ""@,
            PastaType::Text => "text"@,
            PastaType::Url => "url"@,
            PastaType::File => "file"@,
        }
    }

    /// The word under which the kind is stored: `text`, `url` or `file`, and
    /// the empty word for a paste that holds nothing.
    pub fn label(self) -> (label: &'static str)
        ensures
            label@ == self.spec_label(),
    {
        match self {
            PastaType::Unset => "",
            PastaType::Text => "text",
            PastaType::Url => "url",
            PastaType::File => "file",
        }
    }
}

/// A character that no attachment's name may hold: a path separator or a
/// control character.
pub open spec fn is_unsafe_char(c: char) -> bool {
    c == '/' || c == '\\' || c < ' ' || c == '\u{7f}'
}

/// A name is safe below the attachments directory where it is not empty, is
/// neither `.` nor `..`, and holds no path separator and no control
/// character: it names one entry of the paste's own directory, and nothing
/// above or outside it.
pub open spec fn is_safe_file_name(name: Seq<char>) -> bool {
    &&& name.len() > 0
    &&& name != "."@
    &&& name != ".."@
    &&& forall|i: int| 0 <= i < name.len() ==> !is_unsafe_char(#[trigger] name[i])
}

/// The description of an attachment: its name and its size in bytes. Where
/// the file lies follows from the paste's identifier and the name.
#[derive(Clone, Debug, PartialEq, Eq)]
pub struct PastaFile {
    pub name: String,
    pub size: u64,
}

/// An attachment's description as mathematical values.
pub struct PastaFileView {
    pub name: Seq<char>,
    pub size: nat,
}

impl View for PastaFile {
    type V = PastaFileView;

    open spec fn view(&self) -> PastaFileView {
        PastaFileView { name: self.name@, size: self.size as nat }
    }
}

/// Whether no character of `name` is a path separator or a control
/// character.
fn has_no_unsafe_char(name: &str) -> (clean: bool)
    ensures
        clean == (forall|i: int| 0 <= i < name@.len() ==> !is_unsafe_char(#[trigger] name@[i])),
{
    let mut clean = true;
    for c in it: name.chars()
        invariant
            it.seq() == name@,
            clean == (forall|i: int|
                0 <= i < it.index() ==> !is_unsafe_char(#[trigger] name@[i])),
    {
        if c == '/' || c == '\\' || c < ' ' || c == '\u{7f}' {
            clean = false;
        }
    }
    clean
}

/// Whether `name` is safe below the attachments directory.
pub fn is_safe_name(name: &str) -> (safe: bool)
    ensures
        safe == is_safe_file_name(name@),
{
    proof {
        reveal_strlit("");
        assert(name@.len() == 0 <==> name@ =~= ""@);
    }
    !str_eq(name, "") && !str_eq(name, ".") && !str_eq(name, "..") && has_no_unsafe_char(name)
}

impl PastaFile {
    /// The description of a file of the given name whose size is not known
    /// yet, or `None` where the name is not safe.
    pub fn from_unsanitized(name: &str) -> (file: Option<PastaFile>)
        ensures
            match file {
                Some(f) => is_safe_file_name(name@) && f@ == (PastaFileView { name: name@, size: 0 }),
                None => !is_safe_file_name(name@),
            },
    {
        if is_safe_name(name) {
            Some(PastaFile { name: String::from_str(name), size: 0 })
        } else {
            None
        }
    }

    /// The file's name.
    pub fn name(&self) -> (name: &str)
        ensures
            name@ == self@.name,
    {
        self.name.as_str()
    }
}

/// One stored paste.
#[derive(Clone, Debug, PartialEq, Eq)]
pub struct Pasta {
    /// The identity, shown to clients only through its spelling.
    pub id: u64,
    /// The text or URL, as stored: encrypted where the server encrypts.
    pub content: String,
    /// The attachment, if there is one.
    pub file: Option<PastaFile>,
    /// A tag that the client chose.
    pub extension: String,
    pub private: bool,
    pub readonly: bool,
    pub editable: bool,
    /// The server decrypts before it shows the paste.
    pub encrypt_server: bool,
    /// The client decrypts what the server shows.
    pub encrypt_client: bool,
    /// The uploader's passphrase, wrapped under a key made from `id`.
    pub encrypted_key: Option<String>,
    /// The second of creation.
    pub created: i64,
    /// How often the paste was read.
    pub read_count: u64,
    /// After how many reads the paste is deleted; `0` for never.
    pub burn_after_reads: u64,
    /// The second of the last read.
    pub last_read: i64,
    pub pasta_type: PastaType,
    /// The second at which the paste expires; `0` for never.
    pub expiration: i64,
}

/// A stored paste as mathematical values.
pub struct PastaView {
    pub id: u64,
    pub content: Seq<char>,
    pub file: Option<PastaFileView>,
    pub extension: Seq<char>,
    pub private: bool,
    pub readonly: bool,
    pub editable: bool,
    pub encrypt_server: bool,
    pub encrypt_client: bool,
    pub encrypted_key: Option<Seq<char>>,
    pub created: int,
    pub read_count: nat,
    pub burn_after_reads: nat,
    pub last_read: int,
    pub pasta_type: PastaType,
    pub expiration: int,
}

/// The description of an attachment that may be absent, as mathematical
/// values.
pub open spec fn file_of(file: Option<PastaFile>) -> Option<PastaFileView> {
    match file {
        Some(f) => Some(f@),
        None => None,
    }
}

impl View for Pasta {
    type V = PastaView;

    open spec fn view(&self) -> PastaView {
        PastaView {
            id: self.id,
            content: self.content@,
            file: file_of(self.file),
            extension: self.extension@,
            private: self.private,
            readonly: self.readonly,
            editable: self.editable,
            encrypt_server: self.encrypt_server,
            encrypt_client: self.encrypt_client,
            encrypted_key: text_of(self.encrypted_key),
            created: self.created as int,
            read_count: self.read_count as nat,
            burn_after_reads: self.burn_after_reads as nat,
            last_read: self.last_read as int,
            pasta_type: self.pasta_type,
            expiration: self.expiration as int,
        }
    }
}

impl Pasta {
    /// The identifier in animal names.
    pub fn id_as_animals(&self) -> (names: String)
        ensures
            names@ == animal_names(self.id as nat),
    {
        to_animal_names(self.id)
    }

    /// The identifier in its hash-like spelling.
    pub fn id_as_hashids(&self) -> (spelling: String)
        ensures
            spelling@ == hashids_encoding(HASHIDS_MIN_LENGTH, self.id),
    {
        to_hashids(self.id)
    }
}

/// The pastes of a store, in their order, as mathematical values.
pub open spec fn records(store: Seq<Pasta>) -> Seq<PastaView> {
    store.map_values(|p: Pasta| p@)
}

} // verus!
