use mstodo_lib::error::{AuthenticationError, Error, ErrorKind};
use mstodo_lib::error::Rejection;
use mstodo_lib::utils::{same_text, str2u64, NumberError};

#[test]
fn str2u64_reads_plain_digits() {
    assert_eq!(str2u64("0"), Ok(0));
    assert_eq!(str2u64("900"), Ok(900));
    assert_eq!(str2u64("007"), Ok(7));
    assert_eq!(str2u64("18446744073709551615"), Ok(u64::MAX));
}

#[test]
fn str2u64_accepts_a_leading_plus() {
    assert_eq!(str2u64("+42"), Ok(42));
    assert_eq!(str2u64("+0"), Ok(0));
}

#[test]
fn str2u64_rejects_empty_text() {
    assert_eq!(str2u64(""), Err(NumberError::Empty));
}

#[test]
fn str2u64_rejects_what_is_no_digit() {
    assert_eq!(str2u64("+"), Err(NumberError::InvalidDigit));
    assert_eq!(str2u64("-"), Err(NumberError::InvalidDigit));
    assert_eq!(str2u64("-1"), Err(NumberError::InvalidDigit));
    assert_eq!(str2u64("++1"), Err(NumberError::InvalidDigit));
    assert_eq!(str2u64("12a"), Err(NumberError::InvalidDigit));
    assert_eq!(str2u64(" 12"), Err(NumberError::InvalidDigit));
    assert_eq!(str2u64("12 "), Err(NumberError::InvalidDigit));
    assert_eq!(str2u64("1.5"), Err(NumberError::InvalidDigit));
    assert_eq!(str2u64("١٢"), Err(NumberError::InvalidDigit));
}

#[test]
fn str2u64_rejects_what_does_not_fit() {
    assert_eq!(str2u64("18446744073709551616"), Err(NumberError::Overflow));
    assert_eq!(str2u64("99999999999999999999999"), Err(NumberError::Overflow));
}

#[test]
fn str2u64_reports_the_first_failure_from_the_left() {
    assert_eq!(str2u64("18446744073709551616x"), Err(NumberError::Overflow));
    assert_eq!(str2u64("1844674407370955161x"), Err(NumberError::InvalidDigit));
    assert_eq!(str2u64("x18446744073709551616"), Err(NumberError::InvalidDigit));
}

#[test]
fn str2u64_agrees_with_the_standard_parser() {
    let samples = [
        "", "+", "-", "0", "+0", "-0", "1", "+1", "12345", "0000", "18446744073709551615",
        "18446744073709551616", "1844674407370955161x", "18446744073709551616x", "a", "1a", "+-1",
        " 1", "1 ", "١", "1_000",
    ];
    for text in samples {
        assert_eq!(str2u64(text).ok(), text.parse::<u64>().ok(), "{:?}", text);
    }
}

#[test]
fn same_text_compares_characters() {
    assert!(same_text("", ""));
    assert!(same_text("expired_token", "expired_token"));
    assert!(!same_text("expired_token", "expired_tokens"));
    assert!(!same_text("expired_token", "expired_tokeN"));
    assert!(!same_text("a", ""));
    assert!(same_text("é€", "é€"));
    assert!(!same_text("é", "e"));
}

#[test]
fn authentication_error_messages() {
    assert_eq!(
        AuthenticationError::NetworkError("dns".to_string()).message(),
        "Network error: dns"
    );
    assert_eq!(
        AuthenticationError::AuthorizationFailed(Rejection::Declined).message(),
        "Authentication failed"
    );
    assert_eq!(
        AuthenticationError::AuthorizationFailed(Rejection::Expired).message(),
        "Authentication failed"
    );
    assert_eq!(
        AuthenticationError::UnexpectedResponse("<html>".to_string()).message(),
        "Unexpected response: <html>"
    );
    assert_eq!(
        AuthenticationError::StoreError("locked".to_string()).message(),
        "Credential store error: locked"
    );
    assert_eq!(AuthenticationError::Cancelled.message(), "Authentication cancelled");
}

#[test]
fn error_wraps_each_layer() {
    let inner = AuthenticationError::UnexpectedResponse("raw".to_string());
    let error = Error::from(inner.clone());
    assert_eq!(error, Error(ErrorKind::Authentication(inner)));
    assert_eq!(error.message(), "Unexpected response: raw");

    let error = Error::from(NumberError::Empty);
    assert_eq!(error, Error(ErrorKind::Number(NumberError::Empty)));
    assert_eq!(error.message(), "cannot parse integer from empty string");
    assert_eq!(
        Error::from(NumberError::InvalidDigit).message(),
        "invalid digit found in string"
    );
    assert_eq!(
        Error::from(NumberError::Overflow).message(),
        "number too large to fit in target type"
    );
}

#[test]
fn number_error_messages_are_those_of_the_standard_parser() {
    for text in ["", "x", "18446744073709551616"] {
        let ours = Error::from(str2u64(text).unwrap_err()).message();
        let theirs = text.parse::<u64>().unwrap_err().to_string();
        assert_eq!(ours, theirs);
    }
}
