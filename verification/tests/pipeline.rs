use base64::Engine;
use pasta_create::config::Config;
use pasta_create::error::{IoFailure, IoStage, Rejection};
use pasta_create::pasta::{Pasta, PastaFile, PastaType};
use pasta_create::pipeline::{
    classify, complete_upload, create_api, create_with_id, refuses_password, Outcome, PendingUpload,
};
use pasta_create::request::CreatePastaRequest;

const NOW: i64 = 1_700_000_000;

fn settings() -> Config {
    Config {
        no_file_upload: false,
        max_file_size_encrypted_mb: 2,
        max_file_size_unencrypted_mb: 1,
        default_expiry: String::from("24hour"),
        eternal_pasta: false,
        readonly: false,
        uploader_password: None,
        hash_ids: false,
        public_path: String::from("https://bin.example"),
        editable: false,
        data_dir: String::from("data"),
    }
}

fn empty_request() -> CreatePastaRequest {
    CreatePastaRequest {
        content: None,
        file_name: None,
        file_content: None,
        extension: None,
        private: None,
        readonly: None,
        editable: None,
        encrypt_server: None,
        encrypt_client: None,
        encrypted_key: None,
        expiration: None,
        burn_after: None,
        uploader_password: None,
        plain_key: None,
        random_key: None,
    }
}

fn text_request(content: &str) -> CreatePastaRequest {
    CreatePastaRequest { content: Some(String::from(content)), ..empty_request() }
}

fn file_request(name: &str, bytes: &[u8]) -> CreatePastaRequest {
    CreatePastaRequest {
        file_name: Some(String::from(name)),
        file_content: Some(base64::engine::general_purpose::STANDARD.encode(bytes)),
        ..empty_request()
    }
}

fn created(config: &Config, request: &CreatePastaRequest, id: u64) -> (Pasta, String) {
    let mut store = Vec::new();
    match create_with_id(&mut store, config, request, NOW, id) {
        Ok(Outcome::Created(response)) => {
            assert_eq!(store.len(), 1);
            (store.pop().unwrap(), response.url)
        }
        other => panic!("not created: {:?}", other),
    }
}

fn waiting(config: &Config, request: &CreatePastaRequest, id: u64) -> PendingUpload {
    let mut store = Vec::new();
    match create_with_id(&mut store, config, request, NOW, id) {
        Ok(Outcome::Pending(pending)) => {
            assert!(store.is_empty());
            pending
        }
        other => panic!("not pending: {:?}", other),
    }
}

fn rejected(config: &Config, request: &CreatePastaRequest) -> Rejection {
    let before = vec![created(&settings(), &text_request("earlier"), 1).0];
    let mut store = before.clone();
    match create_with_id(&mut store, config, request, NOW, 1234) {
        Err(why) => {
            assert_eq!(store, before);
            why
        }
        other => panic!("not rejected: {:?}", other),
    }
}

#[test]
fn a_url_is_classified_as_url() {
    assert_eq!(classify("https://example.com"), PastaType::Url);
    let (pasta, _) = created(&settings(), &text_request("https://example.com"), 1234);
    assert_eq!(pasta.pasta_type, PastaType::Url);
    assert_eq!(pasta.pasta_type.label(), "url");
    assert_eq!(pasta.content, "https://example.com");
}

#[test]
fn a_text_is_classified_as_text() {
    assert_eq!(classify("hello world"), PastaType::Text);
    let (pasta, _) = created(&settings(), &text_request("hello world"), 1234);
    assert_eq!(pasta.pasta_type, PastaType::Text);
    assert_eq!(pasta.pasta_type.label(), "text");
    assert_eq!(pasta.content, "hello world");
}

#[test]
fn an_attachment_is_classified_as_file() {
    let pending = waiting(&settings(), &file_request("notes.txt", b"x"), 1234);
    assert_eq!(pending.pasta.pasta_type, PastaType::File);
    assert_eq!(pending.pasta.pasta_type.label(), "file");
}

#[test]
fn an_attachment_beside_content_is_classified_as_file() {
    let mut request = file_request("notes.txt", b"some bytes");
    request.content = Some(String::from("https://example.com"));
    let pending = waiting(&settings(), &request, 1234);
    assert_eq!(pending.pasta.pasta_type, PastaType::File);
    assert_eq!(pending.pasta.content, "https://example.com");
}

#[test]
fn an_empty_attachment_is_a_file_too() {
    let pending = waiting(&settings(), &file_request("empty.bin", b""), 1234);
    assert_eq!(pending.pasta.pasta_type, PastaType::File);
    assert_eq!(pending.pasta.file, Some(PastaFile { name: String::from("empty.bin"), size: 0 }));
    assert!(pending.bytes.is_empty());
}

#[test]
fn empty_content_has_no_kind() {
    assert_eq!(classify(""), PastaType::Unset);
    let (pasta, _) = created(&settings(), &text_request(""), 1234);
    assert_eq!(pasta.pasta_type, PastaType::Unset);
    let (pasta, _) = created(&settings(), &empty_request(), 1234);
    assert_eq!(pasta.pasta_type, PastaType::Unset);
    assert_eq!(pasta.content, "");
}

#[test]
fn the_kind_is_taken_before_the_content_is_encrypted() {
    let mut request = text_request("https://example.com");
    request.encrypt_server = Some(true);
    request.plain_key = Some(String::from("secret"));
    let (pasta, _) = created(&settings(), &request, 1234);
    assert_eq!(pasta.pasta_type, PastaType::Url);
    assert_eq!(pasta.content, "ZpgTKTSJK+aWI466I4+EGj1OT4YM2TzxUeO0tz9vSCk=");
}

#[test]
fn size_gate_through_the_pipeline() {
    let config = settings();
    let bytes = vec![7u8; 1_048_577];
    let plain = file_request("big.bin", &bytes);
    let why = rejected(&config, &plain);
    assert_eq!(why, Rejection::FileTooLarge);
    assert_eq!(why.status(), 400);

    let mut encrypted = file_request("big.bin", &bytes);
    encrypted.encrypt_server = Some(true);
    encrypted.plain_key = Some(String::from("secret"));
    let pending = waiting(&config, &encrypted, 1234);
    assert_eq!(pending.bytes, bytes);
    assert_eq!(pending.pasta.file.as_ref().unwrap().size, 1_048_577);
}

#[test]
fn a_file_at_the_ceiling_is_accepted() {
    let bytes = vec![7u8; 1_048_576];
    let pending = waiting(&settings(), &file_request("full.bin", &bytes), 1234);
    assert_eq!(pending.bytes.len(), 1_048_576);
}

#[test]
fn a_wrong_uploader_password_is_unauthorized() {
    let mut config = settings();
    config.readonly = true;
    config.uploader_password = Some(String::from("letmein"));
    let mut request = text_request("hello world");
    request.uploader_password = Some(String::from("guess"));
    assert!(refuses_password(&config, &request));
    let why = rejected(&config, &request);
    assert_eq!(why, Rejection::Unauthorized);
    assert_eq!(why.status(), 401);
}

#[test]
fn a_missing_uploader_password_is_unauthorized() {
    let mut config = settings();
    config.readonly = true;
    config.uploader_password = Some(String::from("letmein"));
    assert_eq!(rejected(&config, &text_request("hello world")), Rejection::Unauthorized);
}

#[test]
fn the_right_uploader_password_is_let_through() {
    let mut config = settings();
    config.readonly = true;
    config.uploader_password = Some(String::from("letmein"));
    let mut request = text_request("hello world");
    request.uploader_password = Some(String::from("letmein"));
    assert!(!refuses_password(&config, &request));
    let (pasta, _) = created(&config, &request, 1234);
    assert_eq!(pasta.content, "hello world");
}

#[test]
fn the_password_is_not_asked_for_unless_the_server_is_read_only_and_has_one() {
    let mut request = text_request("hello world");
    request.uploader_password = Some(String::from("guess"));

    let mut with_password_only = settings();
    with_password_only.uploader_password = Some(String::from("letmein"));
    assert!(!refuses_password(&with_password_only, &request));

    let mut read_only_only = settings();
    read_only_only.readonly = true;
    assert!(!refuses_password(&read_only_only, &request));
}

#[test]
fn the_password_is_looked_at_before_the_upload() {
    let mut config = settings();
    config.readonly = true;
    config.uploader_password = Some(String::from("letmein"));
    config.no_file_upload = true;
    assert_eq!(rejected(&config, &file_request("../x", b"x")), Rejection::Unauthorized);
}

#[test]
fn uploads_are_forbidden_where_switched_off() {
    let mut config = settings();
    config.no_file_upload = true;
    let why = rejected(&config, &file_request("notes.txt", b"x"));
    assert_eq!(why, Rejection::UploadsDisabled);
    assert_eq!(why.status(), 403);
}

#[test]
fn text_is_accepted_where_uploads_are_switched_off() {
    let mut config = settings();
    config.no_file_upload = true;
    let (pasta, _) = created(&config, &text_request("hello world"), 1234);
    assert_eq!(pasta.content, "hello world");
}

#[test]
fn an_unsafe_file_name_is_a_bad_request() {
    let why = rejected(&settings(), &file_request("../../etc/passwd", b"x"));
    assert_eq!(why, Rejection::UnsafeFileName);
    assert_eq!(why.status(), 400);
}

#[test]
fn the_name_is_looked_at_before_the_content() {
    let mut request = file_request("a/b", b"x");
    request.file_content = Some(String::from("not base64!"));
    assert_eq!(rejected(&settings(), &request), Rejection::UnsafeFileName);
}

#[test]
fn invalid_base64_is_a_bad_request() {
    let mut request = file_request("notes.txt", b"x");
    request.file_content = Some(String::from("not base64!"));
    let why = rejected(&settings(), &request);
    assert_eq!(why, Rejection::InvalidBase64);
    assert_eq!(why.status(), 400);
}

#[test]
fn a_name_without_content_is_no_upload() {
    let mut request = text_request("hello world");
    request.file_name = Some(String::from("../x"));
    let (pasta, _) = created(&settings(), &request, 1234);
    assert_eq!(pasta.file, None);
    assert_eq!(pasta.pasta_type, PastaType::Text);
}

#[test]
fn content_without_a_name_is_no_upload() {
    let mut request = text_request("hello world");
    request.file_content = Some(String::from("not base64!"));
    let (pasta, _) = created(&settings(), &request, 1234);
    assert_eq!(pasta.file, None);
}

#[test]
fn the_record_of_a_plain_text() {
    let mut request = text_request("hello world");
    request.extension = Some(String::from("md"));
    request.private = Some(true);
    request.burn_after = Some(3);
    request.expiration = Some(String::from("1hour"));
    request.encrypted_key = Some(String::from("supplied"));
    let (pasta, url) = created(&settings(), &request, 1234);
    let expected = Pasta {
        id: 1234,
        content: String::from("hello world"),
        file: None,
        extension: String::from("md"),
        private: true,
        readonly: false,
        editable: false,
        encrypt_server: false,
        encrypt_client: false,
        encrypted_key: Some(String::from("supplied")),
        created: NOW,
        read_count: 0,
        burn_after_reads: 3,
        last_read: NOW,
        pasta_type: PastaType::Text,
        expiration: NOW + 3_600,
    };
    assert_eq!(pasta, expected);
    assert_eq!(url, "https://bin.example/upload/squid-parrot");
}

#[test]
fn the_record_of_an_empty_request() {
    let (pasta, url) = created(&settings(), &empty_request(), 0);
    let expected = Pasta {
        id: 0,
        content: String::new(),
        file: None,
        extension: String::new(),
        private: false,
        readonly: false,
        editable: false,
        encrypt_server: false,
        encrypt_client: false,
        encrypted_key: None,
        created: NOW,
        read_count: 0,
        burn_after_reads: 0,
        last_read: NOW,
        pasta_type: PastaType::Unset,
        expiration: NOW + 86_400,
    };
    assert_eq!(pasta, expected);
    assert_eq!(url, "https://bin.example/upload/ant");
}

#[test]
fn editable_follows_the_server_where_the_request_does_not_say() {
    let mut config = settings();
    config.editable = true;
    assert!(created(&config, &text_request("x"), 1).0.editable);
    let mut request = text_request("x");
    request.editable = Some(false);
    assert!(!created(&config, &request, 1).0.editable);
    request.editable = Some(true);
    assert!(created(&settings(), &request, 1).0.editable);
}

#[test]
fn expiration_of_the_record() {
    let mut request = text_request("x");
    request.expiration = Some(String::from("never"));
    assert_eq!(created(&settings(), &request, 1).0.expiration, NOW + 604_800);
    let mut eternal = settings();
    eternal.eternal_pasta = true;
    assert_eq!(created(&eternal, &request, 1).0.expiration, 0);
    request.expiration = Some(String::from("bogus"));
    assert_eq!(created(&settings(), &request, 1).0.expiration, NOW + 86_400);
}

#[test]
fn a_read_only_paste_with_a_passphrase_gets_a_wrapped_key() {
    let mut request = text_request("hello world");
    request.readonly = Some(true);
    request.plain_key = Some(String::from("secret"));
    request.encrypted_key = Some(String::from("supplied"));
    let (pasta, _) = created(&settings(), &request, 4660);
    let key = pasta.encrypted_key.unwrap();
    assert!(!key.is_empty());
    assert_eq!(key, "+a5sGWUZT4w3kqLEc1TKZw==");
    assert_ne!(key, "secret");
    assert_ne!(key, "supplied");
}

#[test]
fn a_paste_that_is_not_read_only_keeps_its_supplied_key() {
    for plain_key in [None, Some(String::new()), Some(String::from("secret"))] {
        for supplied in [None, Some(String::from("supplied"))] {
            let mut request = text_request("hello world");
            request.readonly = Some(false);
            request.plain_key = plain_key.clone();
            request.encrypted_key = supplied.clone();
            assert_eq!(created(&settings(), &request, 4660).0.encrypted_key, supplied);
        }
    }
}

#[test]
fn a_read_only_paste_without_a_passphrase_keeps_its_supplied_key() {
    let mut request = text_request("hello world");
    request.readonly = Some(true);
    request.encrypted_key = Some(String::from("supplied"));
    assert_eq!(
        created(&settings(), &request, 4660).0.encrypted_key,
        Some(String::from("supplied"))
    );
    request.plain_key = Some(String::new());
    assert_eq!(
        created(&settings(), &request, 4660).0.encrypted_key,
        Some(String::from("supplied"))
    );
}

#[test]
fn the_wrapping_uses_the_passphrase_and_never_the_random_key() {
    let mut request = text_request("hello world");
    request.readonly = Some(true);
    request.plain_key = Some(String::from("secret"));
    request.random_key = Some(String::from("random"));
    request.encrypt_server = Some(true);
    request.encrypt_client = Some(true);
    let with_random = created(&settings(), &request, 4660).0;
    request.random_key = Some(String::from("another"));
    let with_another = created(&settings(), &request, 4660).0;
    assert_eq!(with_random.encrypted_key, with_another.encrypted_key);
    assert_eq!(with_random.encrypted_key, Some(String::from("+a5sGWUZT4w3kqLEc1TKZw==")));
}

#[test]
fn server_side_encryption_stores_the_content_encrypted() {
    let mut request = text_request("hello world");
    request.encrypt_server = Some(true);
    request.plain_key = Some(String::from("secret"));
    request.random_key = Some(String::from("random"));
    let (pasta, url) = created(&settings(), &request, 1234);
    assert_eq!(pasta.content, "uzStrdjjf4CLCMcsdRTKYA==");
    assert_eq!(pasta.encrypted_key, None);
    assert!(pasta.encrypt_server);
    assert_eq!(url, "https://bin.example/auth/squid-parrot/success");
}

#[test]
fn encryption_on_both_sides_wraps_the_content_under_the_random_key() {
    let mut request = text_request("hello world");
    request.encrypt_server = Some(true);
    request.encrypt_client = Some(true);
    request.plain_key = Some(String::from("secret"));
    request.random_key = Some(String::from("random"));
    let (pasta, _) = created(&settings(), &request, 1234);
    assert_eq!(pasta.content, "JSvWREgSVTnWkTD1zIsxEQ==");
    assert!(pasta.encrypt_client);
}

#[test]
fn client_side_encryption_alone_stores_the_content_as_it_came() {
    let mut request = text_request("hello world");
    request.encrypt_client = Some(true);
    request.random_key = Some(String::from("random"));
    let (pasta, url) = created(&settings(), &request, 1234);
    assert_eq!(pasta.content, "hello world");
    assert_eq!(url, "https://bin.example/upload/squid-parrot");
}

#[test]
fn a_read_only_paste_is_stored_as_it_came_even_with_server_side_encryption() {
    let mut request = text_request("hello world");
    request.encrypt_server = Some(true);
    request.readonly = Some(true);
    request.plain_key = Some(String::from("secret"));
    let (pasta, url) = created(&settings(), &request, 1234);
    assert_eq!(pasta.content, "hello world");
    assert_eq!(url, "https://bin.example/auth/squid-parrot/success");
}

#[test]
fn the_url_uses_hashids_where_the_server_is_set_so() {
    let mut config = settings();
    config.hash_ids = true;
    let (_, url) = created(&config, &text_request("hello world"), 1234);
    let slug = pasta_create::hashids::to_hashids(1234);
    assert_eq!(url, format!("https://bin.example/upload/{}", slug));
}

#[test]
fn what_waits_for_the_disk() {
    let pending = waiting(&settings(), &file_request("notes.txt", b"hello"), 64);
    assert_eq!(pending.directory, "data/attachments/eel-ant");
    assert_eq!(pending.path, "data/attachments/eel-ant/notes.txt");
    assert_eq!(pending.bytes, b"hello");
    assert_eq!(pending.encrypt_with, None);
    assert_eq!(pending.url, "https://bin.example/upload/eel-ant");
    assert_eq!(pending.pasta.file, Some(PastaFile { name: String::from("notes.txt"), size: 5 }));
    assert_eq!(pending.pasta.id, 64);
}

#[test]
fn the_attachment_directory_is_in_animal_names_whatever_the_slug() {
    let mut config = settings();
    config.hash_ids = true;
    let pending = waiting(&config, &file_request("notes.txt", b"hello"), 64);
    assert_eq!(pending.directory, "data/attachments/eel-ant");
    assert_ne!(pending.url, "https://bin.example/upload/eel-ant");
}

#[test]
fn the_file_is_encrypted_under_the_passphrase() {
    let mut request = file_request("notes.txt", b"hello");
    request.encrypt_server = Some(true);
    request.plain_key = Some(String::from("secret"));
    request.random_key = Some(String::from("random"));
    let pending = waiting(&settings(), &request, 64);
    assert_eq!(pending.encrypt_with, Some(String::from("secret")));
    assert_eq!(pending.bytes, b"hello");
    assert_eq!(pending.url, "https://bin.example/auth/eel-ant/success");
}

#[test]
fn the_file_is_encrypted_under_the_random_key_where_the_client_encrypts_too() {
    let mut request = file_request("notes.txt", b"hello");
    request.encrypt_server = Some(true);
    request.encrypt_client = Some(true);
    request.plain_key = Some(String::from("secret"));
    request.random_key = Some(String::from("random"));
    assert_eq!(waiting(&settings(), &request, 64).encrypt_with, Some(String::from("random")));
}

#[test]
fn the_file_of_a_read_only_paste_is_not_encrypted() {
    let mut request = file_request("notes.txt", b"hello");
    request.encrypt_server = Some(true);
    request.readonly = Some(true);
    request.plain_key = Some(String::from("secret"));
    assert_eq!(waiting(&settings(), &request, 64).encrypt_with, None);
}

#[test]
fn a_missing_passphrase_encrypts_under_the_empty_key() {
    let mut request = file_request("notes.txt", b"hello");
    request.encrypt_server = Some(true);
    assert_eq!(waiting(&settings(), &request, 64).encrypt_with, Some(String::new()));
}

#[test]
fn a_written_attachment_completes_the_paste() {
    let first = created(&settings(), &text_request("earlier"), 1).0;
    let mut store = vec![first.clone()];
    let pending = waiting(&settings(), &file_request("notes.txt", b"hello"), 64);
    let pasta = pending.pasta.clone();
    let response = complete_upload(&mut store, pending, Ok(())).unwrap();
    assert_eq!(response.url, "https://bin.example/upload/eel-ant");
    assert_eq!(store, vec![first, pasta]);
}

#[test]
fn a_failed_write_stores_nothing() {
    let first = created(&settings(), &text_request("earlier"), 1).0;
    let mut store = vec![first.clone()];
    let pending = waiting(&settings(), &file_request("notes.txt", b"hello"), 64);
    let failure = IoFailure { stage: IoStage::WriteFile, detail: String::from("disk full") };
    let reply = complete_upload(&mut store, pending, Err(failure)).unwrap_err();
    assert_eq!(reply.status, 500);
    assert_eq!(reply.message, "Failed to write file: disk full");
    assert_eq!(store, vec![first]);
}

#[test]
fn a_failed_encryption_stores_nothing() {
    let mut store = Vec::new();
    let mut request = file_request("notes.txt", b"hello");
    request.encrypt_server = Some(true);
    let pending = waiting(&settings(), &request, 64);
    let failure = IoFailure { stage: IoStage::EncryptFile, detail: String::from("gone") };
    let reply = complete_upload(&mut store, pending, Err(failure)).unwrap_err();
    assert_eq!(reply.status, 500);
    assert_eq!(reply.message, "Failed to encrypt file: gone");
    assert!(store.is_empty());
}

#[test]
fn records_are_appended_in_the_order_of_their_creation() {
    let mut store = Vec::new();
    for (id, content) in [(5u64, "first"), (3, "second"), (5, "third")] {
        let outcome = create_with_id(&mut store, &settings(), &text_request(content), NOW, id);
        assert!(matches!(outcome, Ok(Outcome::Created(_))));
    }
    let contents: Vec<&str> = store.iter().map(|p| p.content.as_str()).collect();
    assert_eq!(contents, vec!["first", "second", "third"]);
    let ids: Vec<u64> = store.iter().map(|p| p.id).collect();
    assert_eq!(ids, vec![5, 3, 5]);
}

#[test]
fn two_attachments_in_a_row_are_both_accepted() {
    let mut store = Vec::new();
    for name in ["one.txt", "two.txt"] {
        let pending = waiting(&settings(), &file_request(name, b"hello"), 64);
        assert_eq!(pending.directory, "data/attachments/eel-ant");
        assert!(complete_upload(&mut store, pending, Ok(())).is_ok());
    }
    assert_eq!(store.len(), 2);
}

#[test]
fn a_drawn_identifier_is_in_the_sixteen_bit_range() {
    for _ in 0..50 {
        let mut store = Vec::new();
        let outcome = create_api(&mut store, &settings(), &text_request("hello world"), NOW);
        let url = match outcome {
            Ok(Outcome::Created(response)) => response.url,
            other => panic!("not created: {:?}", other),
        };
        assert_eq!(store.len(), 1);
        let id = store[0].id;
        assert!(id <= 65_535);
        let slug = pasta_create::animal_names::to_animal_names(id);
        assert_eq!(url, format!("https://bin.example/upload/{}", slug));
        assert_eq!(store[0].content, "hello world");
    }
}

#[test]
fn drawn_identifiers_are_not_all_the_same() {
    let mut ids = std::collections::HashSet::new();
    for _ in 0..64 {
        let mut store = Vec::new();
        let outcome = create_api(&mut store, &settings(), &text_request("x"), NOW);
        assert!(outcome.is_ok());
        ids.insert(store[0].id);
    }
    assert!(ids.len() > 1);
}

#[test]
fn a_rejection_by_the_drawing_entry_stores_nothing() {
    let mut config = settings();
    config.readonly = true;
    config.uploader_password = Some(String::from("letmein"));
    let mut store = Vec::new();
    let outcome = create_api(&mut store, &config, &text_request("hello world"), NOW);
    assert_eq!(outcome, Err(Rejection::Unauthorized));
    assert!(store.is_empty());
}

#[test]
fn the_steps_follow_the_key() {
    let plain = waiting(&settings(), &file_request("notes.txt", b"hello"), 64);
    assert_eq!(
        plain.steps(),
        vec![IoStage::CreateDirectory, IoStage::CreateFile, IoStage::WriteFile]
    );
    let mut request = file_request("notes.txt", b"hello");
    request.encrypt_server = Some(true);
    let sealed = waiting(&settings(), &request, 64);
    assert_eq!(sealed.steps().last(), Some(&IoStage::EncryptFile));
    assert_eq!(sealed.steps().len(), 4);
}
