//! The attachment of a paste: what is asked of an upload before it is
//! accepted, and where the file goes.

use vstd::prelude::*;
use vstd::string::*;
use base64::Engine;
use crate::animal_names::{animal_names, is_lower, lemma_spelling_shape, push_animal_names};
use crate::config::{Config, ConfigView};
use crate::error::{IoStage, Rejection};
use crate::pasta::{is_safe_file_name, PastaFile, PastaFileView};

verus! {

/// The number of bytes in a mebibyte.
pub const MEBIBYTE: u128 = 1048576;

/// The error of the `base64` crate's decoder.
#[verifier::external_type_specification]
#[verifier::external_body]
pub struct ExDecodeError(base64::DecodeError);

/// The bytes that a text spells in standard Base64 with padding, or `None`
/// where the text is no such spelling.
pub uninterp spec fn base64_decoding(text: Seq<char>) -> Option<Seq<u8>>;

/// Calls `decode` of the `base64` crate's `STANDARD` engine on `text`.
///
/// Believed, not proved: whether the text is accepted, and the bytes it
/// gives, depend on the text alone.
#[verifier::external_body]
fn decode_standard(text: &str) -> (decoded: Result<Vec<u8>, base64::DecodeError>)
    ensures
        match decoded {
            Ok(bytes) => base64_decoding(text@) == Some(bytes@),
            Err(_) => base64_decoding(text@) is None,
        },
{
    base64::engine::general_purpose::STANDARD.decode(text)
}

/// The bytes of a Base64 text, or `None` where the text is not Base64.
pub fn decode_upload(text: &str) -> (decoded: Option<Vec<u8>>)
    ensures
        match decoded {
            Some(bytes) => base64_decoding(text@) == Some(bytes@),
            None => base64_decoding(text@) is None,
        },
{
    match decode_standard(text) {
        Ok(bytes) => Some(bytes),
        Err(_) => None,
    }
}

/// The largest accepted upload in bytes: the ceiling for encrypted pastes
/// where the server encrypts this paste, else the ceiling for the others.
pub open spec fn size_ceiling(config: ConfigView, encrypt_server: bool) -> nat {
    if encrypt_server {
        config.max_file_size_encrypted_mb * 1048576
    } else {
        config.max_file_size_unencrypted_mb * 1048576
    }
}

/// What is asked of an upload's name: uploads are switched on, and the name
/// is safe.
pub open spec fn name_check(config: ConfigView, name: Seq<char>) -> Option<Rejection> {
    if config.no_file_upload {
        Some(Rejection::UploadsDisabled)
    } else if !is_safe_file_name(name) {
        Some(Rejection::UnsafeFileName)
    } else {
        None
    }
}

/// What is asked of an upload's content: it is Base64, and its bytes are no
/// more than the ceiling that holds for this paste.
pub open spec fn bytes_check(
    config: ConfigView,
    encrypt_server: bool,
    decoded: Option<Seq<u8>>,
) -> Option<Rejection> {
    match decoded {
        None => Some(Rejection::InvalidBase64),
        Some(bytes) => if bytes.len() > size_ceiling(config, encrypt_server) {
            Some(Rejection::FileTooLarge)
        } else {
            None
        },
    }
}

/// Why an upload of the given name and Base64 content is turned down, or
/// `None` where it is accepted. The name is looked at first.
pub open spec fn upload_check(
    config: ConfigView,
    encrypt_server: bool,
    name: Seq<char>,
    content: Seq<char>,
) -> Option<Rejection> {
    match name_check(config, name) {
        Some(rejection) => Some(rejection),
        None => bytes_check(config, encrypt_server, base64_decoding(content)),
    }
}

/// Checks an upload's name, and describes the file where the name passes.
pub fn admit_name(config: &Config, name: &str) -> (admitted: Result<PastaFile, Rejection>)
    ensures
        match admitted {
            Ok(file) => name_check(config@, name@) is None && file@ == (PastaFileView {
                name: name@,
                size: 0,
            }),
            Err(rejection) => name_check(config@, name@) == Some(rejection),
        },
{
    if config.no_file_upload {
        return Err(Rejection::UploadsDisabled);
    }
    match PastaFile::from_unsanitized(name) {
        Some(file) => Ok(file),
        None => Err(Rejection::UnsafeFileName),
    }
}

/// Whether `len` bytes are more than the ceiling that holds for this paste.
pub fn exceeds_ceiling(config: &Config, encrypt_server: bool, len: usize) -> (over: bool)
    ensures
        over == (len > size_ceiling(config@, encrypt_server)),
{
    let megabytes: usize = if encrypt_server {
        config.max_file_size_encrypted_mb
    } else {
        config.max_file_size_unencrypted_mb
    };
    let ceiling: u128 = (megabytes as u128) * MEBIBYTE;
    (len as u128) > ceiling
}

/// Checks an upload's decoded content, and hands the bytes on where they
/// pass.
pub fn admit_bytes(
    config: &Config,
    encrypt_server: bool,
    decoded: Option<Vec<u8>>,
) -> (admitted: Result<Vec<u8>, Rejection>)
    ensures
        match admitted {
            Ok(bytes) => decoded == Some(bytes) && bytes_check(
                config@,
                encrypt_server,
                Some(bytes@),
            ) is None,
            Err(rejection) => bytes_check(
                config@,
                encrypt_server,
                match decoded {
                    Some(bytes) => Some(bytes@),
                    None => None,
                },
            ) == Some(rejection),
        },
{
    match decoded {
        None => Err(Rejection::InvalidBase64),
        Some(bytes) => {
            if exceeds_ceiling(config, encrypt_server, bytes.len()) {
                Err(Rejection::FileTooLarge)
            } else {
                Ok(bytes)
            }
        },
    }
}

/// The directory of a paste's attachment: `attachments` below the data
/// directory, then the paste's identifier in animal names.
pub open spec fn attachment_dir(data_dir: Seq<char>, id: u64) -> Seq<char> {
    data_dir + "/attachments/"@ + animal_names(id as nat)
}

/// The path of a paste's attachment: the file's name in the paste's
/// directory.
pub open spec fn attachment_path(data_dir: Seq<char>, id: u64, name: Seq<char>) -> Seq<char> {
    attachment_dir(data_dir, id) + "/"@ + name
}

/// The directory in which the attachment of the paste `id` is kept.
pub fn directory_of(data_dir: &str, id: u64) -> (directory: String)
    ensures
        directory@ == attachment_dir(data_dir@, id),
{
    let mut directory = String::from_str(data_dir);
    directory.append("/attachments/");
    push_animal_names(&mut directory, id);
    directory
}

/// The path at which the attachment `name` of the paste `id` is kept.
pub fn path_of(data_dir: &str, id: u64, name: &str) -> (path: String)
    ensures
        path@ == attachment_path(data_dir@, id, name@),
{
    let mut path = directory_of(data_dir, id);
    path.append("/");
    path.append(name);
    path
}

/// The steps by which an attachment reaches the disk, in their order: the
/// directory is created unless it is there, the file is created, the bytes
/// are written, and the written file is encrypted in place where the paste
/// asks for it. A step that fails ends the writing; what earlier steps left
/// on the disk stays there.
pub open spec fn write_plan(encrypts: bool) -> Seq<IoStage> {
    if encrypts {
        seq![IoStage::CreateDirectory, IoStage::CreateFile, IoStage::WriteFile, IoStage::EncryptFile]
    } else {
        seq![IoStage::CreateDirectory, IoStage::CreateFile, IoStage::WriteFile]
    }
}

/// The steps to take, in their order, for an attachment that is encrypted
/// on the disk (`encrypts`) or is not.
pub fn plan_write(encrypts: bool) -> (steps: Vec<IoStage>)
    ensures
        steps@ == write_plan(encrypts),
{
    let mut steps: Vec<IoStage> = Vec::new();
    steps.push(IoStage::CreateDirectory);
    steps.push(IoStage::CreateFile);
    steps.push(IoStage::WriteFile);
    if encrypts {
        steps.push(IoStage::EncryptFile);
    }
    assert(steps@ =~= write_plan(encrypts));
    steps
}

/// An attachment lies in its paste's own directory: its path is the
/// directory, one `/`, and the file's name, and no separator follows that
/// `/`, so that the name leads neither below the directory nor out of it.
/// The directory's own name, the identifier in animal names, holds letters
/// and `-` only.
pub proof fn theorem_attachment_stays_in_directory(data_dir: Seq<char>, id: u64, name: Seq<char>)
    requires
        is_safe_file_name(name),
    ensures
        ({
            let directory = attachment_dir(data_dir, id);
            let path = attachment_path(data_dir, id, name);
            &&& path.len() == directory.len() + 1 + name.len()
            &&& path.subrange(0, directory.len() as int) == directory
            &&& path[directory.len() as int] == '/'
            &&& path.subrange(directory.len() as int + 1, path.len() as int) == name
            &&& forall|i: int|
                directory.len() < i < path.len() ==> path[i] != '/' && path[i] != '\\'
        }),
        forall|i: int|
            0 <= i < animal_names(id as nat).len() ==> {
                let c = #[trigger] animal_names(id as nat)[i];
                is_lower(c) || c == '-'
            },
{
    reveal_strlit("/");
    lemma_spelling_shape(id as nat);
    let directory = attachment_dir(data_dir, id);
    let path = attachment_path(data_dir, id, name);
    assert(path.subrange(0, directory.len() as int) =~= directory);
    assert(path.subrange(directory.len() as int + 1, path.len() as int) =~= name);
    assert forall|i: int| directory.len() < i < path.len() implies path[i] != '/' && path[i]
        != '\\' by {
        assert(path[i] == name[i - directory.len() - 1]);
    }
}

/// An upload larger than the ceiling for plain pastes is turned down where
/// the server does not encrypt the paste, and the same upload is accepted
/// where the server encrypts it and the ceiling for encrypted pastes is not
/// passed.
pub proof fn theorem_size_gate(config: ConfigView, bytes: Seq<u8>)
    ensures
        bytes.len() > config.max_file_size_unencrypted_mb * 1048576 ==> bytes_check(
            config,
            false,
            Some(bytes),
        ) == Some(Rejection::FileTooLarge),
        bytes.len() <= config.max_file_size_encrypted_mb * 1048576 ==> bytes_check(
            config,
            true,
            Some(bytes),
        ) is None,
{
}

} // verus!
