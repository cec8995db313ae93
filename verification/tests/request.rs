use augu::error::StarError;
use augu::request::{authorization_value, is_success, star_url, STARRED_ENDPOINT};
use reqwest::header::HeaderValue;
use reqwest::StatusCode;

#[test]
fn star_url_joins_with_a_slash() {
    assert_eq!(
        star_url("https://api.github.com/user/starred", "rust-lang/rust"),
        "https://api.github.com/user/starred/rust-lang/rust"
    );
}

#[test]
fn star_url_on_the_endpoint() {
    assert_eq!(STARRED_ENDPOINT, "https://api.github.com/user/starred");
    assert_eq!(
        star_url(STARRED_ENDPOINT, "a/b"),
        "https://api.github.com/user/starred/a/b"
    );
}

#[test]
fn star_url_passes_the_identifier_through() {
    assert_eq!(star_url("base", ""), "base/");
    assert_eq!(star_url("", "a/b"), "/a/b");
    assert_eq!(star_url("base", " odd id "), "base/ odd id ");
    assert_eq!(star_url("base/", "/a"), "base///a");
}

#[test]
fn success_is_the_two_hundreds() {
    assert!(is_success(200));
    assert!(is_success(204));
    assert!(is_success(299));
    assert!(!is_success(199));
    assert!(!is_success(300));
    assert!(!is_success(304));
    assert!(!is_success(404));
    assert!(!is_success(500));
    assert!(!is_success(0));
    assert!(!is_success(u16::MAX));
}

#[test]
fn success_agrees_with_the_http_status_type() {
    for code in 100..1000u16 {
        let status = StatusCode::from_u16(code).unwrap();
        assert_eq!(is_success(code), status.is_success());
    }
}

#[test]
fn authorization_is_the_word_token_and_the_token() {
    assert_eq!(authorization_value("abc123"), Ok("token abc123".to_owned()));
    assert_eq!(authorization_value(""), Ok("token ".to_owned()));
}

#[test]
fn authorization_accepts_tab_space_and_high_bytes() {
    assert_eq!(authorization_value("a\tb c"), Ok("token a\tb c".to_owned()));
    assert_eq!(authorization_value("cl\u{e9}"), Ok("token cl\u{e9}".to_owned()));
    assert_eq!(authorization_value("~"), Ok("token ~".to_owned()));
}

#[test]
fn authorization_refuses_control_bytes() {
    assert_eq!(authorization_value("abc\n"), Err(StarError::AuthenticationFormat));
    assert_eq!(authorization_value("a\rb"), Err(StarError::AuthenticationFormat));
    assert_eq!(authorization_value("\u{0}"), Err(StarError::AuthenticationFormat));
    assert_eq!(authorization_value("a\u{1f}"), Err(StarError::AuthenticationFormat));
    assert_eq!(authorization_value("\u{7f}abc"), Err(StarError::AuthenticationFormat));
}

#[test]
fn authorization_agrees_with_the_http_header_type() {
    for code in 0..=255u32 {
        let token = format!("a{}z", char::from_u32(code).unwrap());
        let ours = authorization_value(&token);
        let theirs = HeaderValue::from_str(&format!("token {}", token));
        assert_eq!(ours.is_ok(), theirs.is_ok());
        if let Ok(value) = ours {
            assert_eq!(theirs.unwrap().as_bytes(), value.as_bytes());
        }
    }
}
