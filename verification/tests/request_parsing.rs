use elevate_backend::request::basic_auth_from_decoded;
use elevate_backend::request::bearer_from_header;
use elevate_backend::request::FromRequestError;

#[test]
fn bearer_header_yields_the_second_word() {
    let b = bearer_from_header("Bearer abc.def.ghi").unwrap();
    assert_eq!(b.token, "abc.def.ghi");
}

#[test]
fn bearer_header_splits_on_whitespace_runs() {
    // Runs of whitespace collapse and the scheme word is not inspected,
    // exactly as a whitespace split reads the header.
    let b = bearer_from_header("  Bearer \t abc ").unwrap();
    assert_eq!(b.token, "abc");
    // Anything after the second word is ignored.
    let b = bearer_from_header("Bearer abc def").unwrap();
    assert_eq!(b.token, "abc");
}

#[test]
fn bearer_header_without_value_is_invalid() {
    assert_eq!(bearer_from_header("Bearer ").unwrap_err(), FromRequestError::InvalidToken);
    assert_eq!(bearer_from_header("Bearer").unwrap_err(), FromRequestError::InvalidToken);
    assert_eq!(bearer_from_header("").unwrap_err(), FromRequestError::InvalidToken);
    assert_eq!(bearer_from_header("   \t ").unwrap_err(), FromRequestError::InvalidToken);
}

#[test]
fn basic_credentials_split_at_the_first_colon() {
    let auth = basic_auth_from_decoded("ada@example.com:hunter2:extra");
    assert_eq!(auth.username, "ada@example.com");
    assert_eq!(auth.password, Some(String::from("hunter2:extra")));
}

#[test]
fn basic_credentials_without_colon_have_no_password() {
    let auth = basic_auth_from_decoded("ada@example.com");
    assert_eq!(auth.username, "ada@example.com");
    assert_eq!(auth.password, None);
}

#[test]
fn parsers_accept_non_ascii_content() {
    let b = bearer_from_header("Bearer sch\u{f6}nes.token").unwrap();
    assert_eq!(b.token, "sch\u{f6}nes.token");
    let auth = basic_auth_from_decoded("ad\u{e1}@example.com:ge\u{df}heim");
    assert_eq!(auth.username, "ad\u{e1}@example.com");
    assert_eq!(auth.password, Some(String::from("ge\u{df}heim")));
}
