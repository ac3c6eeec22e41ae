//! Why a creation request is turned down, and what the client is told.

use vstd::prelude::*;
use vstd::string::*;

verus! {

/// The reasons for which a request is turned down before anything was
/// written or stored.
#[derive(Clone, Copy, Debug, PartialEq, Eq, Structural)]
pub enum Rejection {
    /// The server wants the uploaders' password and the request's is another.
    Unauthorized,
    /// File uploads are switched off.
    UploadsDisabled,
    /// The file's name is not safe to use below the attachments directory.
    UnsafeFileName,
    /// The file's content is not Base64.
    InvalidBase64,
    /// The file is larger than the ceiling that holds for this paste.
    FileTooLarge,
}

/// The classes into which failures fall.
#[derive(Clone, Copy, Debug, PartialEq, Eq, Structural)]
pub enum ErrorClass {
    Validation,
    Authorization,
    Policy,
    Io,
    Crypto,
}

/// The step at which the writing of an attachment failed.
#[derive(Clone, Copy, Debug, PartialEq, Eq, Structural)]
pub enum IoStage {
    CreateDirectory,
    CreateFile,
    WriteFile,
    EncryptFile,
}

/// A failure on the way to the disk: the step, and the text of the error
/// that the system gave.
#[derive(Clone, Debug, PartialEq, Eq)]
pub struct IoFailure {
    pub stage: IoStage,
    pub detail: String,
}

/// What is sent to the client in place of a URL: an HTTP status and a
/// message.
#[derive(Clone, Debug, PartialEq, Eq)]
pub struct ErrorReply {
    pub status: u16,
    pub message: String,
}

pub const STATUS_BAD_REQUEST: u16 = 400;

pub const STATUS_UNAUTHORIZED: u16 = 401;

pub const STATUS_FORBIDDEN: u16 = 403;

pub const STATUS_INTERNAL_ERROR: u16 = 500;

impl Rejection {
    /// The class of the failure.
    pub open spec fn spec_class(self) -> ErrorClass {
        match self {
            Rejection::Unauthorized => ErrorClass::Authorization,
            Rejection::UploadsDisabled => ErrorClass::Policy,
            Rejection::UnsafeFileName => ErrorClass::Validation,
            Rejection::InvalidBase64 => ErrorClass::Validation,
            Rejection::FileTooLarge => ErrorClass::Policy,
        }
    }

    /// The HTTP status: 401 for a wrong password, 403 where uploads are
    /// switched off, 400 for the rest.
    pub open spec fn spec_status(self) -> u16 {
        match self {
            Rejection::Unauthorized => 401,
            Rejection::UploadsDisabled => 403,
            Rejection::UnsafeFileName => 400,
            Rejection::InvalidBase64 => 400,
            Rejection::FileTooLarge => 400,
        }
    }

    /// The message sent with the status.
    pub open spec fn spec_message(self) -> Seq<char> {
        match self {
            Rejection::Unauthorized => "Incorrect uploader password"@,
            Rejection::UploadsDisabled => "File uploads are disabled"@,
            Rejection::UnsafeFileName => "Unsafe file name"@,
            Rejection::InvalidBase64 => "Invalid base64 file content"@,
            Rejection::FileTooLarge => "File exceeded size limit."@,
        }
    }

    #[verifier::when_used_as_spec(spec_class)]
    pub fn class(self) -> (class: ErrorClass)
        ensures
            class == self.spec_class(),
    {
        match self {
            Rejection::Unauthorized => ErrorClass::Authorization,
            Rejection::UploadsDisabled => ErrorClass::Policy,
            Rejection::UnsafeFileName => ErrorClass::Validation,
            Rejection::InvalidBase64 => ErrorClass::Validation,
            Rejection::FileTooLarge => ErrorClass::Policy,
        }
    }

    #[verifier::when_used_as_spec(spec_status)]
    pub fn status(self) -> (status: u16)
        ensures
            status == self.spec_status(),
    {
        match self {
            Rejection::Unauthorized => STATUS_UNAUTHORIZED,
            Rejection::UploadsDisabled => STATUS_FORBIDDEN,
            Rejection::UnsafeFileName => STATUS_BAD_REQUEST,
            Rejection::InvalidBase64 => STATUS_BAD_REQUEST,
            Rejection::FileTooLarge => STATUS_BAD_REQUEST,
        }
    }

    pub fn message(self) -> (message: &'static str)
        ensures
            message@ == self.spec_message(),
    {
        match self {
            Rejection::Unauthorized => "Incorrect uploader password",
            Rejection::UploadsDisabled => "File uploads are disabled",
            Rejection::UnsafeFileName => "Unsafe file name",
            Rejection::InvalidBase64 => "Invalid base64 file content",
            Rejection::FileTooLarge => "File exceeded size limit.",
        }
    }

    /// The reply that tells the client of this rejection.
    pub fn reply(self) -> (reply: ErrorReply)
        ensures
            reply.status == self.spec_status(),
            reply.message@ == self.spec_message(),
    {
        ErrorReply { status: self.status(), message: String::from_str(self.message()) }
    }
}

impl IoStage {
    /// The class of a failure at this step: the encryption of the written
    /// file is the cipher's failure, the other steps are the file system's.
    pub open spec fn spec_class(self) -> ErrorClass {
        match self {
            IoStage::EncryptFile => ErrorClass::Crypto,
            _ => ErrorClass::Io,
        }
    }

    /// What the message of a failure at this step begins with.
    pub open spec fn spec_prefix(self) -> Seq<char> {
        match self {
            IoStage::CreateDirectory => "Failed to create attachment directory: "@,
            IoStage::CreateFile => "Failed to create file: "@,
            IoStage::WriteFile => "Failed to write file: "@,
            IoStage::EncryptFile => "Failed to encrypt file: "@,
        }
    }

    #[verifier::when_used_as_spec(spec_class)]
    pub fn class(self) -> (class: ErrorClass)
        ensures
            class == self.spec_class(),
    {
        match self {
            IoStage::EncryptFile => ErrorClass::Crypto,
            _ => ErrorClass::Io,
        }
    }

    pub fn prefix(self) -> (prefix: &'static str)
        ensures
            prefix@ == self.spec_prefix(),
    {
        match self {
            IoStage::CreateDirectory => "Failed to create attachment directory: ",
            IoStage::CreateFile => "Failed to create file: ",
            IoStage::WriteFile => "Failed to write file: ",
            IoStage::EncryptFile => "Failed to encrypt file: ",
        }
    }
}

/// The message of a failure on the way to the disk: what names the step,
/// then the system's own words.
pub open spec fn failure_message(stage: IoStage, detail: Seq<char>) -> Seq<char> {
    stage.spec_prefix() + detail
}

impl IoFailure {
    /// The reply that tells the client of this failure: status 500, and the
    /// step's message with the system's error text behind it.
    pub fn reply(&self) -> (reply: ErrorReply)
        ensures
            reply.status == 500,
            reply.message@ == failure_message(self.stage, self.detail@),
    {
        let mut message = String::from_str(self.stage.prefix());
        message.append(self.detail.as_str());
        ErrorReply { status: STATUS_INTERNAL_ERROR, message }
    }
}

} // verus!
