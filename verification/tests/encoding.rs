//! Request encoding: escaping, the trailing-backslash rule, and the
//! line-length guard.

use pinentry::encode::{encode_request, try_encode_request};

#[test]
fn encoding() {
    assert_eq!(encode_request("CMD", None), "CMD\n");
    let pairs = [
        ("bar", " bar\n"),
        ("bar\nbaz", " bar%0Abaz\n"),
        ("bar\rbaz", " bar%0Dbaz\n"),
        ("bar\r\nbaz", " bar%0D%0Abaz\n"),
        ("foo\\", " foo%5C\n"),
    ];
    for (p, want) in &pairs {
        let have = encode_request("", Some(p));
        assert_eq!(&have, want)
    }
}

#[test]
fn encoding_passes_non_ascii_through() {
    assert_eq!(encode_request("SETDESC", Some("héllo wörld")), "SETDESC héllo wörld\n");
}

#[test]
fn encoding_escapes_percent() {
    assert_eq!(encode_request("SETDESC", Some("50%")), "SETDESC 50%25\n");
}

#[test]
fn encoding_escapes_backslash_only_at_line_end() {
    assert_eq!(encode_request("SETDESC", Some("a\\b")), "SETDESC a\\b\n");
    assert_eq!(encode_request("SETDESC", Some("a\\")), "SETDESC a%5C\n");
}

#[test]
fn encoding_escapes_trailing_backslash_of_bare_command() {
    assert_eq!(encode_request("CMD\\", None), "CMD%5C\n");
}

#[test]
fn length_guard_accepts_a_full_line() {
    // 992 parameter bytes + "GETPIN" + space + terminator = exactly 1000.
    let param = "x".repeat(992);
    let line = try_encode_request("GETPIN", Some(&param)).expect("fits the limit");
    assert_eq!(line.len(), 1000);
}

#[test]
fn length_guard_rejects_an_overlong_line() {
    let param = "x".repeat(993);
    assert!(try_encode_request("GETPIN", Some(&param)).is_none());
}

#[test]
fn length_guard_counts_escape_expansion() {
    // 500 line feeds escape to 1500 bytes, far over the limit.
    let param = "\n".repeat(500);
    assert!(try_encode_request("GETPIN", Some(&param)).is_none());
}
