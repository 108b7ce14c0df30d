use yor::codec::{decode_file_payload, encode_file, generate_file_session, resolve_output_name};
use yor::crypto::decrypt;
use yor::value::YorDataType;
use yor::YorError;

#[test]
fn encode_file_plaintext_branch_is_base64() {
    let data = b"\x00\x01\x02binary file contents\xff".to_vec();
    let item = encode_file(&data, "", "file/bin").unwrap();
    assert_eq!(item.y_type, "file/bin");
    match item.y_data {
        YorDataType::Str(s) => {
            assert_eq!(s, base64::encode(&data));
            assert_eq!(decode_file_payload(s.as_bytes()).unwrap(), data);
        },
        YorDataType::Bytes(_) => panic!("no password must store plain text"),
    }
}

#[test]
fn file_round_trip_unencrypted() {
    let data = (0u16..=255).map(|b| b as u8).collect::<Vec<u8>>();
    let item = encode_file(&data, "", "image/png").unwrap();
    match item.y_data {
        YorDataType::Str(s) => {
            assert_eq!(decode_file_payload(s.as_bytes()).unwrap(), data);
        },
        YorDataType::Bytes(_) => panic!("no password must store plain text"),
    }
}

#[test]
fn file_round_trip_encrypted() {
    let data = b"PNG-ish \x89 payload \x00\x00".to_vec();
    let item = encode_file(&data, "open sesame", "image/png").unwrap();
    assert_eq!(item.y_type, "image/png");
    match item.y_data {
        YorDataType::Bytes(ct) => {
            let text = decrypt(&ct, "open sesame").unwrap();
            assert_eq!(decode_file_payload(&text).unwrap(), data);
        },
        YorDataType::Str(_) => panic!("a password must seal the payload"),
    }
}

#[test]
fn file_round_trip_encrypted_empty_file() {
    let data: Vec<u8> = Vec::new();
    let item = encode_file(&data, "pw", "file/bin").unwrap();
    match item.y_data {
        YorDataType::Bytes(ct) => {
            let text = decrypt(&ct, "pw").unwrap();
            assert_eq!(decode_file_payload(&text).unwrap(), data);
        },
        YorDataType::Str(_) => panic!("a password must seal the payload"),
    }
}

#[test]
fn decode_rejects_text_that_is_not_base64() {
    assert_eq!(decode_file_payload(b"!!! not base64 !!!").unwrap_err(), YorError::InvalidEncoding);
}

#[test]
fn output_name_appends_extension() {
    assert_eq!(resolve_output_name("photo", &"png".to_string()), "photo.png");
}

#[test]
fn output_name_bin_means_bare_key() {
    assert_eq!(resolve_output_name("blob", &"bin".to_string()), "blob");
}

#[test]
fn file_session_shape() {
    let s = generate_file_session("notes.txt");
    let chars: Vec<char> = s.chars().collect();
    assert_eq!(chars.len(), "notes.txt".chars().count() + 6);
    assert!(s.starts_with("notes.txt"));
    assert_eq!(chars["notes.txt".chars().count()], '-');
}

#[test]
fn file_sessions_differ() {
    // Five random characters: two draws almost surely differ.
    let a = generate_file_session("f");
    let b = generate_file_session("f");
    let c = generate_file_session("f");
    assert!(a != b || b != c);
}
