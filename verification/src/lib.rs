//! The write path of an ephemeral paste service.
//!
//! A client submits a text, a URL or a file; the service stores a record and
//! answers with one obfuscated URL. This crate holds what is decided on that
//! way, each function with a contract that Verus proves:
//!
//! - `expiration`: from a lifetime token and the current time to a deadline;
//! - `animal_names`, `hashids`, `slug`: the public spelling of an identifier
//!   and the URL built on it;
//! - `policy`, `cipher`: which secret encrypts what, and the wrapped
//!   passphrase of a read-only paste;
//! - `attachment`, `url`: what is asked of an upload, where it is kept, and
//!   whether content is a URL;
//! - `pipeline`: the creation itself, from the request to the record in the
//!   store;
//! - `request`, `pasta`, `config`, `error`: the request, the stored record,
//!   the server's settings and the ways in which a creation fails, each
//!   with its view as mathematical values;
//! - `text`: small helpers on strings.
//!
//! Nothing here reads a clock or touches a disk. The caller hands in the
//! time, writes the attachment that `pipeline::create_api` describes, and
//! reports back through `pipeline::complete_upload`.

pub mod animal_names;
pub mod attachment;
pub mod cipher;
pub mod config;
pub mod error;
pub mod expiration;
pub mod hashids;
pub mod pasta;
pub mod pipeline;
pub mod policy;
pub mod request;
pub mod slug;
pub mod text;
pub mod url;

pub use crate::config::Config;
pub use crate::error::{ErrorReply, IoFailure, IoStage, Rejection};
pub use crate::expiration::expiration_to_timestamp;
pub use crate::pasta::{Pasta, PastaFile, PastaType};
pub use crate::pipeline::{complete_upload, create_api, create_with_id, Outcome, PendingUpload};
pub use crate::request::{CreatePastaRequest, CreatePastaResponse};
