//! Response aggregation: whole cycles fed line by line, as a helper
//! process would emit them.

use pinentry::cycle::{CycleStep, ResponseCycle};
use pinentry::data::decode_data_line;
use pinentry::Error;

#[test]
fn two_data_lines_concatenate_in_order() {
    let mut cycle = ResponseCycle::new();
    assert!(matches!(cycle.process_line("D first%0A\n"), Ok(CycleStep::Continue)));
    assert!(matches!(cycle.process_line("D second\n"), Ok(CycleStep::Continue)));
    match cycle.process_line("OK\n") {
        Ok(CycleStep::Done(Some(data))) => assert_eq!(data.expose().as_str(), "first\nsecond"),
        other => panic!("cycle did not finish with data: {:?}", other.is_ok()),
    }
}

#[test]
fn ok_without_data_yields_none() {
    let mut cycle = ResponseCycle::new();
    match cycle.process_line("OK done\n") {
        Ok(CycleStep::Done(data)) => assert!(data.is_none()),
        _ => panic!("cycle did not finish"),
    }
}

#[test]
fn comments_and_status_lines_are_ignored() {
    let mut cycle = ResponseCycle::new();
    assert!(matches!(cycle.process_line("# warming up\n"), Ok(CycleStep::Continue)));
    assert!(matches!(cycle.process_line("S FLAVOR plain\n"), Ok(CycleStep::Continue)));
    assert!(matches!(cycle.process_line("INQUIRE GENPIN\n"), Ok(CycleStep::Continue)));
    match cycle.process_line("OK\n") {
        Ok(CycleStep::Done(data)) => assert!(data.is_none()),
        _ => panic!("cycle did not finish"),
    }
}

#[test]
fn err_line_destroys_data_and_classifies() {
    let mut cycle = ResponseCycle::new();
    assert!(matches!(cycle.process_line("D partial secret\n"), Ok(CycleStep::Continue)));
    match cycle.process_line("ERR 99 canceled\n") {
        Err(Error::Cancelled) => {}
        _ => panic!("expected the cancellation outcome"),
    }
    // The failed cycle keeps nothing: a fresh terminal response yields no data.
    match cycle.process_line("OK\n") {
        Ok(CycleStep::Done(data)) => assert!(data.is_none()),
        _ => panic!("cycle did not finish"),
    }
}

#[test]
fn malformed_line_is_an_io_error() {
    let mut cycle = ResponseCycle::new();
    assert!(matches!(cycle.process_line("WAT\n"), Err(Error::Io(_))));
}

#[test]
fn undecodable_data_line_is_an_io_error() {
    let mut cycle = ResponseCycle::new();
    // %FF is not well-formed UTF-8 once decoded.
    assert!(matches!(cycle.process_line("D bad%FF\n"), Err(Error::Io(_))));
}

#[test]
fn handshake_then_getpin_scenario() {
    // The unsolicited greeting a helper emits on connect.
    let mut handshake = ResponseCycle::new();
    match handshake.process_line("OK Pleased to meet you\n") {
        Ok(CycleStep::Done(data)) => assert!(data.is_none()),
        _ => panic!("handshake did not complete"),
    }
    // A GETPIN request answered with one data line.
    let mut cycle = ResponseCycle::new();
    assert!(matches!(cycle.process_line("D secret\n"), Ok(CycleStep::Continue)));
    match cycle.process_line("OK\n") {
        Ok(CycleStep::Done(Some(data))) => assert_eq!(data.expose().as_str(), "secret"),
        _ => panic!("request did not yield the secret"),
    }
    // The same request answered with a cancellation.
    let mut cancelled = ResponseCycle::new();
    match cancelled.process_line("ERR 99 canceled\n") {
        Err(Error::Cancelled) => {}
        _ => panic!("expected the cancellation outcome"),
    }
}

#[test]
fn data_lines_decode_percent_escapes() {
    assert_eq!(decode_data_line("a%25b").as_deref(), Some("a%b"));
    assert_eq!(decode_data_line("a%0Ab").as_deref(), Some("a\nb"));
    assert_eq!(decode_data_line("a%0db").as_deref(), Some("a\rb"));
    assert_eq!(decode_data_line("caf%C3%A9").as_deref(), Some("café"));
    // A percent sign not followed by two hex digits passes through.
    assert_eq!(decode_data_line("100%").as_deref(), Some("100%"));
    assert_eq!(decode_data_line("%zz").as_deref(), Some("%zz"));
}

#[test]
fn data_line_round_trip_recovers_the_text() {
    let texts = ["bar\nbaz", "bar\rbaz", "100%", "foo\\", "héllo\n wörld %25"];
    for text in &texts {
        let line = pinentry::encode::encode_request("", Some(text));
        // Strip the leading space and the terminator: the data portion.
        let portion = &line[1..line.len() - 1];
        assert_eq!(decode_data_line(portion).as_deref(), Some(*text));
    }
}

#[test]
fn invalid_utf8_data_does_not_decode() {
    assert!(decode_data_line("%FF").is_none());
    assert!(decode_data_line("%C3%28").is_none());
}
