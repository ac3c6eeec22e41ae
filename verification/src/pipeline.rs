//! The creation of a paste: from a request to a stored record and its
//! public URL.
//!
//! The work is done in the order in which a request is served. The
//! uploaders' password is looked at first. Content is classified as it
//! came, before anything is encrypted. An upload is checked and decoded.
//! Keys and content are sealed as the encryption policy says. A paste
//! without an attachment is stored at once. A paste with one is handed back
//! with the description of what has to be written; the caller writes it and
//! reports, and only then is the paste stored.

use vstd::prelude::*;
use vstd::string::*;
use rand::Rng;
use crate::attachment::{
    admit_bytes,
    admit_name,
    attachment_dir,
    attachment_path,
    base64_decoding,
    decode_upload,
    directory_of,
    path_of,
    plan_write,
    upload_check,
    write_plan,
};
use crate::config::{Config, ConfigView};
use crate::error::{failure_message, ErrorReply, IoFailure, IoStage, Rejection};
use crate::expiration::{expiration_to_timestamp, resolve, WEEK_SECONDS};
use crate::pasta::{Pasta, PastaFile, PastaFileView, PastaType, PastaView};
use crate::policy::{
    choose_payload_key,
    chosen_secret,
    payload_key,
    seal_content,
    seal_key,
    secret_for,
    stored_content,
    stored_key,
    wraps_key,
};
use crate::request::{CreatePastaRequest, CreatePastaResponse, RequestView};
use crate::slug::{compose_url, slug, slug_of, success_url};
use crate::text::{same_text, text_of};
use crate::url::{is_url, is_valid_url};

verus! {

/// A flag of a request, or `default` where the request does not say.
pub open spec fn flag_or(flag: Option<bool>, default: bool) -> bool {
    match flag {
        Some(b) => b,
        None => default,
    }
}

/// A text of a request, or the empty text where the request has none.
pub open spec fn text_or_empty(text: Option<Seq<char>>) -> Seq<char> {
    match text {
        Some(s) => s,
        None => Seq::empty(),
    }
}

/// The password gate: where the server is read-only and has an uploaders'
/// password, a request whose password is absent or another is refused.
pub open spec fn password_refused(config: ConfigView, request: RequestView) -> bool {
    config.readonly && config.uploader_password is Some && request.uploader_password
        != config.uploader_password
}

/// The kind of a paste's content, taken from the content as it came: none
/// for empty content, else a URL or a text.
pub open spec fn content_kind(content: Seq<char>) -> PastaType {
    if content.len() == 0 {
        PastaType::Unset
    } else if is_url(content) {
        PastaType::Url
    } else {
        PastaType::Text
    }
}

/// A request uploads a file where it has both a file's name and a file's
/// content.
pub open spec fn has_upload(request: RequestView) -> bool {
    request.file_name is Some && request.file_content is Some
}

/// Whether the server encrypts the paste of this request.
pub open spec fn encrypts(request: RequestView) -> bool {
    flag_or(request.encrypt_server, false)
}

/// Why a request is turned down, or `None` where it is served.
pub open spec fn rejection(config: ConfigView, request: RequestView) -> Option<Rejection> {
    if password_refused(config, request) {
        Some(Rejection::Unauthorized)
    } else if has_upload(request) {
        upload_check(
            config,
            encrypts(request),
            request.file_name->0,
            request.file_content->0,
        )
    } else {
        None
    }
}

/// The bytes of a request's upload.
pub open spec fn upload_bytes(request: RequestView) -> Seq<u8> {
    base64_decoding(request.file_content->0)->0
}

/// The secret under which the server encrypts the payload of this request.
pub open spec fn request_key(request: RequestView) -> crate::policy::KeyChoice {
    payload_key(
        encrypts(request),
        flag_or(request.encrypt_client, false),
        flag_or(request.readonly, false),
    )
}

/// The record that is stored for a request that is served at time `now`
/// under the identifier `id`.
pub open spec fn record(config: ConfigView, request: RequestView, now: int, id: u64) -> PastaView {
    let content = text_or_empty(request.content);
    let plain_key = text_or_empty(request.plain_key);
    let random_key = text_or_empty(request.random_key);
    let readonly = flag_or(request.readonly, false);
    PastaView {
        id,
        content: stored_content(content, request_key(request), plain_key, random_key),
        file: if has_upload(request) {
            Some(
                PastaFileView {
                    name: request.file_name->0,
                    size: upload_bytes(request).len(),
                },
            )
        } else {
            None
        },
        extension: text_or_empty(request.extension),
        private: flag_or(request.private, false),
        readonly,
        editable: flag_or(request.editable, config.editable),
        encrypt_server: encrypts(request),
        encrypt_client: flag_or(request.encrypt_client, false),
        encrypted_key: stored_key(request.encrypted_key, readonly, id, plain_key),
        created: now,
        read_count: 0,
        burn_after_reads: match request.burn_after {
            Some(reads) => reads as nat,
            None => 0,
        },
        last_read: now,
        pasta_type: if has_upload(request) {
            PastaType::File
        } else {
            content_kind(content)
        },
        expiration: resolve(
            match request.expiration {
                Some(token) => token,
                None => config.default_expiry,
            },
            now,
            config.eternal_pasta,
            config.default_expiry,
        ),
    }
}

/// Whether the passphrase of this request is stored in wrapped form.
pub open spec fn wraps_passphrase(request: RequestView) -> bool {
    wraps_key(flag_or(request.readonly, false), text_or_empty(request.plain_key))
}

/// The wrapped key of a record is there and is not empty.
pub open spec fn has_wrapped_key(pasta: PastaView) -> bool {
    pasta.encrypted_key is Some && pasta.encrypted_key->0.len() > 0
}

/// The URL that answers a request served under the identifier `id`.
pub open spec fn reply_url(config: ConfigView, request: RequestView, id: u64) -> Seq<char> {
    success_url(config.public_path, slug(config.hash_ids, id), encrypts(request))
}

/// A paste that waits for its attachment to reach the disk.
#[derive(Clone, Debug, PartialEq, Eq)]
pub struct PendingUpload {
    /// The finished record, as it will be stored.
    pub pasta: Pasta,
    /// The directory to create, unless it is there.
    pub directory: String,
    /// The file to write.
    pub path: String,
    /// What to write.
    pub bytes: Vec<u8>,
    /// The secret under which the written file is then encrypted in place,
    /// if it is.
    pub encrypt_with: Option<String>,
    /// The URL to answer with once the paste is stored.
    pub url: String,
}

/// A waiting paste as mathematical values.
pub struct PendingView {
    pub pasta: PastaView,
    pub directory: Seq<char>,
    pub path: Seq<char>,
    pub bytes: Seq<u8>,
    pub encrypt_with: Option<Seq<char>>,
    pub url: Seq<char>,
}

impl View for PendingUpload {
    type V = PendingView;

    open spec fn view(&self) -> PendingView {
        PendingView {
            pasta: self.pasta@,
            directory: self.directory@,
            path: self.path@,
            bytes: self.bytes@,
            encrypt_with: text_of(self.encrypt_with),
            url: self.url@,
        }
    }
}

impl PendingUpload {
    /// The steps by which the attachment reaches the disk, in their order.
    pub fn steps(&self) -> (steps: Vec<IoStage>)
        ensures
            steps@ == write_plan(self@.encrypt_with is Some),
    {
        plan_write(self.encrypt_with.is_some())
    }
}

/// What waits for the disk where a request with an upload is served.
pub open spec fn pending(config: ConfigView, request: RequestView, now: int, id: u64) -> PendingView {
    PendingView {
        pasta: record(config, request, now, id),
        directory: attachment_dir(config.data_dir, id),
        path: attachment_path(config.data_dir, id, request.file_name->0),
        bytes: upload_bytes(request),
        encrypt_with: chosen_secret(
            request_key(request),
            text_or_empty(request.plain_key),
            text_or_empty(request.random_key),
        ),
        url: reply_url(config, request, id),
    }
}

/// How far a request has come.
#[derive(Clone, Debug, PartialEq, Eq)]
pub enum Outcome {
    /// The paste is the last record of the store. It remains to persist it
    /// and to answer.
    Created(CreatePastaResponse),
    /// The attachment has to be written first; `complete_upload` goes on
    /// from here.
    Pending(PendingUpload),
}

/// The store after a record was appended to it.
pub open spec fn appended(before: Seq<Pasta>, after: Seq<Pasta>, record: PastaView) -> bool {
    &&& after.len() == before.len() + 1
    &&& after.drop_last() == before
    &&& after.last()@ == record
}

/// Calls `gen::<u16>` on the `rand` crate's thread-local generator.
///
/// Nothing is claimed of the number drawn.
#[verifier::external_body]
fn draw_u16() -> (drawn: u16) {
    rand::thread_rng().gen::<u16>()
}

/// A flag of a request, or `default` where the request does not say.
fn flag_value(flag: Option<bool>, default: bool) -> (value: bool)
    ensures
        value == flag_or(flag, default),
{
    match flag {
        Some(b) => b,
        None => default,
    }
}

/// A text of a request, or the empty text where the request has none.
fn text_value(text: &Option<String>) -> (value: &str)
    ensures
        value@ == text_or_empty(text_of(*text)),
{
    match text {
        Some(s) => s.as_str(),
        None => {
            proof {
                reveal_strlit("");
                assert(""@ =~= Seq::<char>::empty());
            }
            ""
        },
    }
}

/// Whether the password gate refuses the request.
pub fn refuses_password(config: &Config, request: &CreatePastaRequest) -> (refused: bool)
    ensures
        refused == password_refused(config@, request@),
{
    config.readonly && config.uploader_password.is_some() && !same_text(
        &request.uploader_password,
        &config.uploader_password,
    )
}

/// The kind of the content `content`.
pub fn classify(content: &str) -> (kind: PastaType)
    ensures
        kind == content_kind(content@),
{
    if content.is_empty() {
        PastaType::Unset
    } else if is_valid_url(content) {
        PastaType::Url
    } else {
        PastaType::Text
    }
}

/// Serves a creation request at time `now` under the identifier `id`.
///
/// A request that is turned down leaves the store as it was. A request
/// without an upload appends its record to the store and is answered with
/// the record's URL. A request with an upload leaves the store as it was
/// and hands back the record together with what has to be written.
pub fn create_with_id(
    store: &mut Vec<Pasta>,
    config: &Config,
    request: &CreatePastaRequest,
    now: i64,
    id: u64,
) -> (outcome: Result<Outcome, Rejection>)
    requires
        config@.wf(),
        now + WEEK_SECONDS <= i64::MAX,
    ensures
        match outcome {
            Err(why) => rejection(config@, request@) == Some(why) && final(store)@ == old(store)@,
            Ok(Outcome::Created(response)) => {
                &&& rejection(config@, request@) is None
                &&& !has_upload(request@)
                &&& appended(old(store)@, final(store)@, record(config@, request@, now as int, id))
                &&& response.url@ == reply_url(config@, request@, id)
                &&& wraps_passphrase(request@) ==> has_wrapped_key(final(store)@.last()@)
            },
            Ok(Outcome::Pending(waiting)) => {
                &&& rejection(config@, request@) is None
                &&& has_upload(request@)
                &&& final(store)@ == old(store)@
                &&& waiting@ == pending(config@, request@, now as int, id)
                &&& wraps_passphrase(request@) ==> has_wrapped_key(waiting@.pasta)
            },
        },
{
    if refuses_password(config, request) {
        return Err(Rejection::Unauthorized);
    }
    let readonly = flag_value(request.readonly, false);
    let encrypt_server = flag_value(request.encrypt_server, false);
    let encrypt_client = flag_value(request.encrypt_client, false);
    let content = text_value(&request.content);
    let plain_key = text_value(&request.plain_key);
    let random_key = text_value(&request.random_key);
    let token = match &request.expiration {
        Some(token) => token.as_str(),
        None => config.default_expiry.as_str(),
    };
    let choice = choose_payload_key(encrypt_server, encrypt_client, readonly);

    let mut pasta_type = classify(content);
    let mut file: Option<PastaFile> = None;
    let mut upload: Option<Vec<u8>> = None;
    match (&request.file_name, &request.file_content) {
        (Some(file_name), Some(file_content)) => {
            let described = admit_name(config, file_name.as_str())?;
            let decoded = decode_upload(file_content.as_str());
            let bytes = admit_bytes(config, encrypt_server, decoded)?;
            file = Some(PastaFile { name: described.name, size: bytes.len() as u64 });
            upload = Some(bytes);
            pasta_type = PastaType::File;
        },
        _ => {},
    }

    let pasta = Pasta {
        id,
        content: seal_content(content, choice, plain_key, random_key),
        file,
        extension: String::from_str(text_value(&request.extension)),
        private: flag_value(request.private, false),
        readonly,
        editable: flag_value(request.editable, config.editable),
        encrypt_server,
        encrypt_client,
        encrypted_key: seal_key(&request.encrypted_key, readonly, id, plain_key),
        created: now,
        read_count: 0,
        burn_after_reads: match request.burn_after {
            Some(reads) => reads as u64,
            None => 0,
        },
        last_read: now,
        pasta_type,
        expiration: expiration_to_timestamp(
            token,
            now,
            config.eternal_pasta,
            config.default_expiry.as_str(),
        ),
    };
    let spelling = slug_of(config.hash_ids, id);
    let url = compose_url(config.public_path.as_str(), spelling.as_str(), encrypt_server);

    match (upload, &request.file_name) {
        (Some(bytes), Some(file_name)) => {
            let encrypt_with = match secret_for(choice, plain_key, random_key) {
                Some(secret) => Some(String::from_str(secret)),
                None => None,
            };
            Ok(
                Outcome::Pending(
                    PendingUpload {
                        pasta,
                        directory: directory_of(config.data_dir.as_str(), id),
                        path: path_of(config.data_dir.as_str(), id, file_name.as_str()),
                        bytes,
                        encrypt_with,
                        url,
                    },
                ),
            )
        },
        _ => {
            store.push(pasta);
            assert(store@.drop_last() =~= old(store)@);
            Ok(Outcome::Created(CreatePastaResponse { url }))
        },
    }
}

/// Serves a creation request at time `now`, under an identifier drawn at
/// random from the 16-bit range. No check is made that the identifier is
/// new.
pub fn create_api(
    store: &mut Vec<Pasta>,
    config: &Config,
    request: &CreatePastaRequest,
    now: i64,
) -> (outcome: Result<Outcome, Rejection>)
    requires
        config@.wf(),
        now + WEEK_SECONDS <= i64::MAX,
    ensures
        match outcome {
            Err(why) => rejection(config@, request@) == Some(why) && final(store)@ == old(store)@,
            Ok(Outcome::Created(response)) => exists|id: u64|
                {
                    &&& id <= u16::MAX
                    &&& rejection(config@, request@) is None
                    &&& !has_upload(request@)
                    &&& appended(
                        old(store)@,
                        final(store)@,
                        #[trigger] record(config@, request@, now as int, id),
                    )
                    &&& response.url@ == reply_url(config@, request@, id)
                    &&& wraps_passphrase(request@) ==> has_wrapped_key(final(store)@.last()@)
                },
            Ok(Outcome::Pending(waiting)) => exists|id: u64|
                {
                    &&& id <= u16::MAX
                    &&& rejection(config@, request@) is None
                    &&& has_upload(request@)
                    &&& final(store)@ == old(store)@
                    &&& waiting@ == #[trigger] pending(config@, request@, now as int, id)
                    &&& wraps_passphrase(request@) ==> has_wrapped_key(waiting@.pasta)
                },
        },
{
    let id: u64 = draw_u16() as u64;
    create_with_id(store, config, request, now, id)
}

/// Goes on with a waiting paste once the caller has tried to write its
/// attachment. Where the attachment was written, the record is appended to
/// the store and the paste's URL is the answer. Where it was not, the store
/// stays as it was and the answer is the failure's reply, with status 500.
pub fn complete_upload(
    store: &mut Vec<Pasta>,
    waiting: PendingUpload,
    written: Result<(), IoFailure>,
) -> (answer: Result<CreatePastaResponse, ErrorReply>)
    ensures
        match answer {
            Ok(response) => {
                &&& written is Ok
                &&& appended(old(store)@, final(store)@, waiting@.pasta)
                &&& response.url@ == waiting@.url
            },
            Err(reply) => {
                &&& written is Err
                &&& final(store)@ == old(store)@
                &&& reply.status == 500
                &&& reply.message@ == failure_message(written->Err_0.stage, written->Err_0.detail@)
            },
        },
{
    match written {
        Ok(()) => {
            let PendingUpload { pasta, url, .. } = waiting;
            store.push(pasta);
            assert(store@.drop_last() =~= old(store)@);
            Ok(CreatePastaResponse { url })
        },
        Err(failure) => Err(failure.reply()),
    }
}

/// Where the server is read-only and has an uploaders' password, a request
/// with another password, or with none, is turned down as unauthorized, with
/// status 401, whatever else it holds.
pub proof fn theorem_password_gate(config: ConfigView, request: RequestView)
    requires
        config.readonly,
        config.uploader_password is Some,
        request.uploader_password != config.uploader_password,
    ensures
        rejection(config, request) == Some(Rejection::Unauthorized),
        Rejection::Unauthorized.spec_status() == 401,
{
}

/// The record of a request with an upload is of kind `file`, whatever its
/// content; without an upload, content that is a URL gives kind `url` and
/// any other content that is not empty gives kind `text`.
pub proof fn theorem_kind_of_record(config: ConfigView, request: RequestView, now: int, id: u64)
    ensures
        has_upload(request) ==> record(config, request, now, id).pasta_type == PastaType::File,
        !has_upload(request) && request.content is Some && request.content->0.len() > 0 ==> record(
            config,
            request,
            now,
            id,
        ).pasta_type == (if is_url(request.content->0) {
            PastaType::Url
        } else {
            PastaType::Text
        }),
{
}

/// A new record was never read: its read count is `0`, and its last read is
/// the second of its creation.
pub proof fn theorem_new_record_is_unread(config: ConfigView, request: RequestView, now: int, id: u64)
    ensures
        record(config, request, now, id).read_count == 0,
        record(config, request, now, id).created == now,
        record(config, request, now, id).last_read == now,
{
}

/// Where the server encrypts and the paste is not read-only, content that is
/// not empty is stored encrypted: under the passphrase, or under the random
/// key where the client encrypts as well.
pub proof fn theorem_encrypted_content(config: ConfigView, request: RequestView, now: int, id: u64)
    requires
        request.encrypt_server == Some(true),
        flag_or(request.readonly, false) == false,
        request.content is Some,
        request.content->0.len() > 0,
    ensures
        record(config, request, now, id).content == crate::cipher::ciphertext(
            request.content->0,
            if flag_or(request.encrypt_client, false) {
                text_or_empty(request.random_key)
            } else {
                text_or_empty(request.plain_key)
            },
        ),
{
}

} // verus!
