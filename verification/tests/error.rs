use pasta_create::error::{ErrorClass, IoFailure, IoStage, Rejection};

#[test]
fn statuses_of_rejections() {
    assert_eq!(Rejection::Unauthorized.status(), 401);
    assert_eq!(Rejection::UploadsDisabled.status(), 403);
    assert_eq!(Rejection::UnsafeFileName.status(), 400);
    assert_eq!(Rejection::InvalidBase64.status(), 400);
    assert_eq!(Rejection::FileTooLarge.status(), 400);
}

#[test]
fn messages_of_rejections() {
    assert_eq!(Rejection::Unauthorized.message(), "Incorrect uploader password");
    assert_eq!(Rejection::UploadsDisabled.message(), "File uploads are disabled");
    assert_eq!(Rejection::UnsafeFileName.message(), "Unsafe file name");
    assert_eq!(Rejection::InvalidBase64.message(), "Invalid base64 file content");
    assert_eq!(Rejection::FileTooLarge.message(), "File exceeded size limit.");
}

#[test]
fn classes_of_rejections() {
    assert_eq!(Rejection::Unauthorized.class(), ErrorClass::Authorization);
    assert_eq!(Rejection::UploadsDisabled.class(), ErrorClass::Policy);
    assert_eq!(Rejection::FileTooLarge.class(), ErrorClass::Policy);
    assert_eq!(Rejection::UnsafeFileName.class(), ErrorClass::Validation);
    assert_eq!(Rejection::InvalidBase64.class(), ErrorClass::Validation);
}

#[test]
fn a_rejection_replies_with_its_status_and_message() {
    let reply = Rejection::UploadsDisabled.reply();
    assert_eq!(reply.status, 403);
    assert_eq!(reply.message, "File uploads are disabled");
}

#[test]
fn a_failure_replies_with_the_systems_words() {
    let cases = [
        (IoStage::CreateDirectory, "Failed to create attachment directory: denied"),
        (IoStage::CreateFile, "Failed to create file: denied"),
        (IoStage::WriteFile, "Failed to write file: denied"),
        (IoStage::EncryptFile, "Failed to encrypt file: denied"),
    ];
    for (stage, message) in cases {
        let reply = IoFailure { stage, detail: String::from("denied") }.reply();
        assert_eq!(reply.status, 500);
        assert_eq!(reply.message, message);
    }
}

#[test]
fn classes_of_failures() {
    assert_eq!(IoStage::CreateDirectory.class(), ErrorClass::Io);
    assert_eq!(IoStage::CreateFile.class(), ErrorClass::Io);
    assert_eq!(IoStage::WriteFile.class(), ErrorClass::Io);
    assert_eq!(IoStage::EncryptFile.class(), ErrorClass::Crypto);
}
