use base64::Engine;
use breaks_queue::auth::{build_auth_header, AuthorizedUser, Credentials, Lookup, Rejection};

fn pair(username: &str, key: &str) -> Credentials {
    Credentials { username: username.to_string(), key: key.to_string() }
}

#[test]
fn header_is_the_base64_of_user_and_key() {
    assert_eq!(build_auth_header("secret"), "dG9raW9kcmVhbXk6c2VjcmV0");
    assert_eq!(build_auth_header(""), "dG9raW9kcmVhbXk6");
    assert_eq!(build_auth_header("a"), "dG9raW9kcmVhbXk6YQ==");
    assert_ne!(build_auth_header("secret"), "secret");
}

#[test]
fn header_agrees_with_the_engine() {
    for key in ["", "k", "pass word", "pässwörd", "a:b"] {
        let expected = base64::prelude::BASE64_STANDARD.encode(format!("tokiodreamy:{}", key));
        assert_eq!(build_auth_header(key), expected);
    }
}

#[test]
fn parse_reads_back_what_was_built() {
    for key in ["secret", "", "pässwörd", "with space"] {
        assert_eq!(Credentials::parse(&build_auth_header(key)), Some(pair("tokiodreamy", key)));
    }
}

#[test]
fn parse_reads_user_and_key() {
    assert_eq!(Credentials::parse("dXNlcjprZXk="), Some(pair("user", "key")));
    assert_eq!(Credentials::parse("Og=="), Some(pair("", "")));
}

#[test]
fn parse_rejects_what_is_not_base64() {
    assert_eq!(Credentials::parse("not base64!"), None);
    assert_eq!(Credentials::parse("dXNlcjprZXk"), None);
    assert_eq!(Credentials::parse("user:key"), None);
}

#[test]
fn parse_needs_exactly_one_colon() {
    let none = base64::prelude::BASE64_STANDARD.encode("userkey");
    let two = base64::prelude::BASE64_STANDARD.encode("user:key:more");
    assert_eq!(Credentials::parse(&none), None);
    assert_eq!(Credentials::parse(&two), None);
    assert_eq!(Credentials::parse(""), None);
}

#[test]
fn decoded_bytes_are_split_at_the_colon() {
    assert_eq!(Credentials::from_decoded(&b"user:key".to_vec()), Some(pair("user", "key")));
    assert_eq!(Credentials::from_decoded(&b":key".to_vec()), Some(pair("", "key")));
    assert_eq!(Credentials::from_decoded(&b"user:".to_vec()), Some(pair("user", "")));
    assert_eq!(Credentials::from_decoded(&b"user".to_vec()), None);
    assert_eq!(Credentials::from_decoded(&b"a:b:c".to_vec()), None);
    assert_eq!(Credentials::from_decoded(&b"::".to_vec()), None);
    assert_eq!(Credentials::from_decoded(&vec![]), None);
}

#[test]
fn decoded_bytes_must_be_utf8_on_both_sides() {
    assert_eq!(Credentials::from_decoded(&vec![0xff, b':', b'k']), None);
    assert_eq!(Credentials::from_decoded(&vec![b'u', b':', 0xc3]), None);
    assert_eq!(Credentials::from_decoded(&vec![0xc3, 0xa4, b':', 0xc3, 0xb6]), Some(pair("ä", "ö")));
}

#[test]
fn request_without_readable_credentials_is_unauthorized() {
    assert_eq!(AuthorizedUser::credentials(None), Err(Rejection::Unauthorized));
    assert_eq!(AuthorizedUser::credentials(Some("???")), Err(Rejection::Unauthorized));
    assert_eq!(AuthorizedUser::credentials(Some("dXNlcjprZXk=")), Ok(pair("user", "key")));
}

#[test]
fn lookup_decides_on_the_user() {
    let user = AuthorizedUser::decide(pair("user", "key"), Lookup::Known).unwrap();
    assert_eq!(user.who(), "user");
    assert_eq!(AuthorizedUser::decide(pair("user", "key"), Lookup::Unknown), Err(Rejection::Unauthorized));
    assert_eq!(
        AuthorizedUser::decide(pair("user", "key"), Lookup::Failed),
        Err(Rejection::InternalServerError)
    );
}

#[test]
fn rejections_have_their_status() {
    assert_eq!(Rejection::Unauthorized.status(), 401);
    assert_eq!(Rejection::InternalServerError.status(), 500);
}
