//! Error classification: the well-known codes and the generic case.

use pinentry::decimal::u16_to_decimal;
use pinentry::{Error, GpgError};

#[test]
fn code_62_is_timeout() {
    assert!(matches!(Error::from_parts(62, None), Error::Timeout));
}

#[test]
fn code_99_is_cancelled() {
    assert!(matches!(Error::from_parts(99, Some("canceled".to_string())), Error::Cancelled));
}

#[test]
fn code_114_stays_generic() {
    match Error::from_parts(114, Some("not confirmed".to_string())) {
        Error::Gpg(g) => assert_eq!(g.code(), 114),
        _ => panic!("code 114 must stay a generic GPG error"),
    }
}

#[test]
fn other_codes_keep_code_and_description() {
    match Error::from_parts(1, Some("General error".to_string())) {
        Error::Gpg(g) => {
            assert_eq!(g.code(), 1);
            assert_eq!(g.message(), "Code 1: General error");
        }
        _ => panic!("code 1 must stay a generic GPG error"),
    }
}

#[test]
fn gpg_error_message_without_description() {
    let g = GpgError::new(268, None);
    assert_eq!(g.code(), 268);
    assert_eq!(g.message(), "Code 268");
}

#[test]
fn error_messages() {
    assert_eq!(Error::Timeout.message(), "Operation timed out");
    assert_eq!(Error::Cancelled.message(), "Operation cancelled");
    assert_eq!(
        Error::from_parts(11, Some("Bad passphrase".to_string())).message(),
        "Code 11: Bad passphrase"
    );
}

#[test]
fn decimal_formatting() {
    assert_eq!(u16_to_decimal(0), "0");
    assert_eq!(u16_to_decimal(7), "7");
    assert_eq!(u16_to_decimal(30), "30");
    assert_eq!(u16_to_decimal(65535), "65535");
}

#[test]
fn largest_code_keeps_its_value() {
    match Error::from_parts(65535, None) {
        Error::Gpg(g) => assert_eq!(g.code(), 65535),
        _ => panic!("an unknown code must stay a generic GPG error"),
    }
}
