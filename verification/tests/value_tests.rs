use yor::value::{parse_category, parse_kind, split_type, CategoryKind};
use yor::YorError;

fn parts(s: &str) -> Vec<String> {
    split_type(s)
}

#[test]
fn split_type_two_parts() {
    assert_eq!(parts("image/png"), vec!["image".to_string(), "png".to_string()]);
}

#[test]
fn split_type_many_parts() {
    assert_eq!(parts("a/b/c"), vec!["a".to_string(), "b".to_string(), "c".to_string()]);
}

#[test]
fn split_type_no_separator() {
    assert_eq!(parts("data"), vec!["data".to_string()]);
}

#[test]
fn split_type_empty_string() {
    assert_eq!(parts(""), vec!["".to_string()]);
}

#[test]
fn split_type_trailing_separator() {
    assert_eq!(parts("file/"), vec!["file".to_string(), "".to_string()]);
}

#[test]
fn split_type_leading_separator() {
    assert_eq!(parts("/bin"), vec!["".to_string(), "bin".to_string()]);
}

#[test]
fn parse_kind_supported_set() {
    assert_eq!(parse_kind(&"data".to_string()), Some(CategoryKind::Data));
    assert_eq!(parse_kind(&"image".to_string()), Some(CategoryKind::Image));
    assert_eq!(parse_kind(&"video".to_string()), Some(CategoryKind::Video));
    assert_eq!(parse_kind(&"file".to_string()), Some(CategoryKind::File));
    assert_eq!(parse_kind(&"bogus".to_string()), None);
    assert_eq!(parse_kind(&"Data".to_string()), None);
}

#[test]
fn parse_category_valid_tags() {
    let c = parse_category("data/str").unwrap();
    assert_eq!(c.kind, CategoryKind::Data);
    assert_eq!(c.encoding, "str");

    let c = parse_category("image/png").unwrap();
    assert_eq!(c.kind, CategoryKind::Image);
    assert_eq!(c.encoding, "png");

    let c = parse_category("file/bin").unwrap();
    assert_eq!(c.kind, CategoryKind::File);
    assert_eq!(c.encoding, "bin");
}

#[test]
fn parse_category_unsupported_kind() {
    assert_eq!(parse_category("bogus/str").unwrap_err(), YorError::UnsupportedCategory);
}

#[test]
fn parse_category_missing_encoding() {
    assert_eq!(parse_category("data").unwrap_err(), YorError::UnsupportedCategory);
}

#[test]
fn file_kinds() {
    assert!(!CategoryKind::Data.is_file());
    assert!(CategoryKind::Image.is_file());
    assert!(CategoryKind::Video.is_file());
    assert!(CategoryKind::File.is_file());
}

#[test]
fn error_messages() {
    assert_eq!(YorError::UnsupportedCategory.message(), "Data type is not supported");
    assert_eq!(YorError::CiphertextTooShort.message(), "Ciphertext is too short");
    assert_eq!(YorError::InvalidKeyOrCiphertext.message(), "Invalid key password");
}
