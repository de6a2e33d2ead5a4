use bearer_auth::auth::error::AuthenticationError;
use bearer_auth::auth::header::{credential_of_header, header_text};

#[test]
fn visible_bytes_are_read_as_text() {
    assert_eq!(header_text(b"mra_abc123"), Some("mra_abc123".to_string()));
    assert_eq!(header_text(b"Bearer x y"), Some("Bearer x y".to_string()));
    assert_eq!(header_text(b""), Some(String::new()));
}

#[test]
fn tab_and_the_ends_of_the_visible_range_are_text() {
    assert_eq!(header_text(b"a\tb"), Some("a\tb".to_string()));
    assert_eq!(header_text(&[32u8, 126u8]), Some(" ~".to_string()));
}

#[test]
fn bytes_outside_the_visible_range_are_not_text() {
    assert_eq!(header_text(&[31u8]), None);
    assert_eq!(header_text(&[127u8]), None);
    assert_eq!(header_text(&[128u8]), None);
    assert_eq!(header_text(&[255u8]), None);
    assert_eq!(header_text(&[0u8]), None);
    assert_eq!(header_text(b"mra_abc\n"), None);
    assert_eq!(header_text("mra_\u{e9}".as_bytes()), None);
}

#[test]
fn one_bad_byte_anywhere_spoils_the_header() {
    assert_eq!(header_text(&[b'm', b'r', b'a', 0x80, b'_', b'x']), None);
    assert_eq!(header_text(&[0x1f, b'm', b'r', b'a']), None);
    assert_eq!(header_text(&[b'm', b'r', b'a', 0x7f]), None);
}

#[test]
fn missing_header_is_no_method() {
    assert_eq!(
        credential_of_header(None),
        Err(AuthenticationError::InvalidAuthMethod)
    );
}

#[test]
fn undecodable_header_is_invalid_credentials() {
    assert_eq!(
        credential_of_header(Some(&[b'm', b'r', b'a', b'_', 0xff][..])),
        Err(AuthenticationError::InvalidCredentials)
    );
}

#[test]
fn decodable_header_is_the_credential() {
    assert_eq!(
        credential_of_header(Some(&b"github_xyz"[..])),
        Ok("github_xyz".to_string())
    );
}
