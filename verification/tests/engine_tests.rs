use yor::crypto::decrypt;
use yor::engine::{
    build_text_item, finish_decrypted, plan_upsert, start_retrieve, AttemptOutcome, Retrieved,
    RetrySession, UpsertRoute,
};
use yor::value::{Category, CategoryKind, YorData, YorDataType};
use yor::YorError;

#[test]
fn plan_routes_data_inline() {
    assert_eq!(plan_upsert("data/str").unwrap(), UpsertRoute::Inline);
}

#[test]
fn plan_routes_file_kinds_to_file_contents() {
    assert_eq!(plan_upsert("image/png").unwrap(), UpsertRoute::FileContents);
    assert_eq!(plan_upsert("video/mp4").unwrap(), UpsertRoute::FileContents);
    assert_eq!(plan_upsert("file/bin").unwrap(), UpsertRoute::FileContents);
}

#[test]
fn upsert_with_bogus_kind_fails_before_any_write() {
    assert_eq!(plan_upsert("bogus/str").unwrap_err(), YorError::UnsupportedCategory);
}

#[test]
fn build_without_password_stores_plain_text() {
    let item = build_text_item("hello world", "", "data/str").unwrap();
    assert_eq!(item.y_type, "data/str");
    match item.y_data {
        YorDataType::Str(s) => assert_eq!(s, "hello world"),
        YorDataType::Bytes(_) => panic!("no password must store plain text"),
    }
}

#[test]
fn build_with_password_seals_and_rewrites_str_to_byte() {
    let item = build_text_item("top secret", "pw", "data/str").unwrap();
    assert_eq!(item.y_type, "data/byte");
    match item.y_data {
        YorDataType::Bytes(ct) => {
            assert_eq!(ct.len(), "top secret".len() + 40);
            assert_eq!(decrypt(&ct, "pw").unwrap(), b"top secret".to_vec());
        },
        YorDataType::Str(_) => panic!("a password must seal the value"),
    }
}

#[test]
fn build_with_password_keeps_other_encodings() {
    let item = build_text_item("v", "pw", "data/byte").unwrap();
    assert_eq!(item.y_type, "data/byte");
}

#[test]
fn retrieve_missing_key_is_empty_text() {
    match start_retrieve(None, "nothing").unwrap() {
        Retrieved::Text(t) => assert_eq!(t, ""),
        _ => panic!("a missing key reads as empty text"),
    }
}

#[test]
fn retrieve_plain_data_returns_it() {
    let item = YorData {
        y_data: YorDataType::Str("plain value".to_string()),
        y_type: "data/str".to_string(),
    };
    match start_retrieve(Some(item), "k").unwrap() {
        Retrieved::Text(t) => assert_eq!(t, "plain value"),
        _ => panic!("plain data comes back as text"),
    }
}

#[test]
fn retrieve_plain_file_decodes_and_names_output() {
    let data = b"file body".to_vec();
    let item = YorData {
        y_data: YorDataType::Str(base64::encode(&data)),
        y_type: "image/png".to_string(),
    };
    match start_retrieve(Some(item), "pic").unwrap() {
        Retrieved::FileWrite { name, bytes } => {
            assert_eq!(name, "pic.png");
            assert_eq!(bytes, data);
        },
        _ => panic!("a file kind is written to disk"),
    }
}

#[test]
fn retrieve_encrypted_needs_password() {
    let item = YorData {
        y_data: YorDataType::Bytes(vec![1, 2, 3]),
        y_type: "data/byte".to_string(),
    };
    match start_retrieve(Some(item), "k").unwrap() {
        Retrieved::NeedPassword { ciphertext, category } => {
            assert_eq!(ciphertext, vec![1, 2, 3]);
            assert_eq!(category.kind, CategoryKind::Data);
            assert_eq!(category.encoding, "byte");
        },
        _ => panic!("an encrypted payload starts the password session"),
    }
}

#[test]
fn retrieve_with_malformed_tag_is_rejected() {
    let item = YorData {
        y_data: YorDataType::Str("x".to_string()),
        y_type: "data".to_string(),
    };
    assert_eq!(start_retrieve(Some(item), "k").unwrap_err(), YorError::UnsupportedCategory);
}

#[test]
fn finish_decrypted_text() {
    let category = Category { kind: CategoryKind::Data, encoding: "byte".to_string() };
    match finish_decrypted(b"recovered", "k", &category).unwrap() {
        Retrieved::Text(t) => assert_eq!(t, "recovered"),
        _ => panic!("data kinds come back as text"),
    }
}

#[test]
fn finish_decrypted_rejects_invalid_utf8() {
    let category = Category { kind: CategoryKind::Data, encoding: "byte".to_string() };
    assert_eq!(
        finish_decrypted(&[0xff, 0xfe], "k", &category).unwrap_err(),
        YorError::InvalidEncoding
    );
}

#[test]
fn finish_decrypted_file_writes_bare_key_for_bin() {
    let data = b"raw".to_vec();
    let category = Category { kind: CategoryKind::File, encoding: "bin".to_string() };
    let text = base64::encode(&data).into_bytes();
    match finish_decrypted(&text, "blob", &category).unwrap() {
        Retrieved::FileWrite { name, bytes } => {
            assert_eq!(name, "blob");
            assert_eq!(bytes, data);
        },
        _ => panic!("file kinds are written to disk"),
    }
}

#[test]
fn retry_three_wrong_passwords_is_fatal() {
    let ct = yor::crypto::encrypt(&b"guarded".to_vec(), "right").unwrap();
    let mut session = RetrySession::new();
    assert!(matches!(session.attempt(&ct, "wrong one"), AttemptOutcome::Retry));
    assert!(matches!(session.attempt(&ct, "wrong two"), AttemptOutcome::Retry));
    assert!(matches!(session.attempt(&ct, "wrong three"), AttemptOutcome::Fatal));
    assert_eq!(session.attempts, 3);
}

#[test]
fn retry_correct_on_second_attempt_succeeds() {
    let ct = yor::crypto::encrypt(&b"guarded".to_vec(), "right").unwrap();
    let mut session = RetrySession::new();
    assert!(matches!(session.attempt(&ct, "wrong"), AttemptOutcome::Retry));
    match session.attempt(&ct, "right") {
        AttemptOutcome::Success(p) => assert_eq!(p, b"guarded".to_vec()),
        _ => panic!("the correct password on the second attempt succeeds"),
    }
    assert_eq!(session.attempts, 1);
}
