//! Response parsing: each of the six line shapes, and lines that match
//! none of them.

use pinentry::response::{server_response, Response};

#[test]
fn parses_bare_ok() {
    assert!(matches!(server_response("OK\n"), Some(Response::Success(None))));
}

#[test]
fn parses_ok_with_info() {
    match server_response("OK Pleased to meet you\n") {
        Some(Response::Success(Some(info))) => assert_eq!(info, "Pleased to meet you"),
        other => panic!("wrong classification: {:?}", other),
    }
}

#[test]
fn parses_ok_with_crlf() {
    assert!(matches!(server_response("OK\r\n"), Some(Response::Success(None))));
}

#[test]
fn parses_err_with_description() {
    match server_response("ERR 83886179 Operation cancelled <Pinentry>\n") {
        Some(Response::Failure { code, description }) => {
            // 83886179 truncated to its low sixteen bits.
            assert_eq!(code, 99);
            assert_eq!(description.as_deref(), Some("Operation cancelled <Pinentry>"));
        }
        other => panic!("wrong classification: {:?}", other),
    }
}

#[test]
fn parses_err_without_description() {
    match server_response("ERR 62\n") {
        Some(Response::Failure { code, description }) => {
            assert_eq!(code, 62);
            assert!(description.is_none());
        }
        other => panic!("wrong classification: {:?}", other),
    }
}

#[test]
fn parses_information_line() {
    match server_response("S PASSPHRASE_QUALITY 50\n") {
        Some(Response::Information { keyword, status }) => {
            assert_eq!(keyword, "PASSPHRASE_QUALITY");
            assert_eq!(status.as_deref(), Some("50"));
        }
        other => panic!("wrong classification: {:?}", other),
    }
}

#[test]
fn parses_information_line_without_status() {
    match server_response("S FLAVOR\n") {
        Some(Response::Information { keyword, status }) => {
            assert_eq!(keyword, "FLAVOR");
            assert!(status.is_none());
        }
        other => panic!("wrong classification: {:?}", other),
    }
}

#[test]
fn parses_comment_line() {
    match server_response("# just a note\n") {
        Some(Response::Comment(text)) => assert_eq!(text, "just a note"),
        other => panic!("wrong classification: {:?}", other),
    }
}

#[test]
fn parses_data_line() {
    match server_response("D secret%25stuff\n") {
        Some(Response::DataLine(data)) => assert_eq!(data, "secret%25stuff"),
        other => panic!("wrong classification: {:?}", other),
    }
}

#[test]
fn parses_inquire_line() {
    match server_response("INQUIRE GENPIN hint\n") {
        Some(Response::Inquire { keyword, parameters }) => {
            assert_eq!(keyword, "GENPIN");
            assert_eq!(parameters.as_deref(), Some("hint"));
        }
        other => panic!("wrong classification: {:?}", other),
    }
}

#[test]
fn rejects_unknown_prefix() {
    assert!(server_response("NOPE\n").is_none());
    assert!(server_response("OKAY\n").is_none());
    assert!(server_response("ok\n").is_none());
}

#[test]
fn rejects_missing_terminator() {
    assert!(server_response("OK").is_none());
    assert!(server_response("D secret").is_none());
    assert!(server_response("OK\r").is_none());
}

#[test]
fn rejects_empty_required_fields() {
    // A lone space after the keyword is not valid content.
    assert!(server_response("OK \n").is_none());
    assert!(server_response("D \n").is_none());
    assert!(server_response("# \n").is_none());
    assert!(server_response("ERR \n").is_none());
    assert!(server_response("S \n").is_none());
    assert!(server_response("INQUIRE \n").is_none());
}

#[test]
fn rejects_err_code_beyond_thirty_two_bits() {
    assert!(server_response("ERR 99999999999 too big\n").is_none());
}

#[test]
fn rejects_err_with_garbage_after_code() {
    assert!(server_response("ERR 62x\n").is_none());
}
