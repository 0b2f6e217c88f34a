//! Fujitsu long-text translation.

use ipmicfg::cmd::fujitsu::{
    is_fujitsu_manufacturer, long_text_request, parse_long_text_response, validate_chunk, DecodeSel,
    LongText, Severity,
};
use ipmicfg::conn::Response;
use ipmicfg::dialog::Action;

fn response(text: &[u8], total_len: u8) -> Vec<u8> {
    let mut data = vec![
        0x80, 0x28, 0x00, // IANA
        0xA7, 0x00, // next ID
        0xA6, 0x00, // actual ID
        0x02, // record type
        0x10, 0x20, 0x30, 0x40, // timestamp
        0xA0, // CSS + major
        total_len,
    ];
    data.extend_from_slice(text);
    data.push(0);
    data
}

fn good(data: Vec<u8>) -> Result<Response, String> {
    Ok(Response { cc: 0, data })
}

#[test]
fn builds_f5_43_request_in_documented_byte_order() {
    assert_eq!(
        long_text_request(0x00A6, 0, 56),
        [0x80, 0x28, 0x00, 0x43, 0xA6, 0x00, 0x00, 0x38]
    );
}

#[test]
fn parses_f5_43_response() {
    let parsed = parse_long_text_response(&response(b"Battery event", 13)).unwrap();
    assert_eq!(parsed.next_record_id, 0x00A7);
    assert_eq!(parsed.actual_record_id, 0x00A6);
    assert_eq!(parsed.record_type, 0x02);
    assert_eq!(parsed.timestamp, 0x4030_2010);
    assert_eq!(parsed.severity_byte, 0xA0);
    assert_eq!(parsed.total_text_len, 13);
    assert_eq!(parsed.text, b"Battery event");
    assert_eq!(Severity::from_byte(parsed.severity_byte), Severity::Major);
    assert_ne!(parsed.severity_byte & 0x80, 0);
}

#[test]
fn rejects_wrong_iana_and_unterminated_text() {
    let mut wrong_iana = response(b"x", 1);
    wrong_iana[0] = 0;
    assert!(parse_long_text_response(&wrong_iana)
        .unwrap_err()
        .contains("unexpected enterprise ID"));

    let mut unterminated = response(b"x", 1);
    unterminated.pop();
    assert!(parse_long_text_response(&unterminated)
        .unwrap_err()
        .contains("NUL terminator"));
}

#[test]
fn rejects_mismatched_record_and_overlong_chunk() {
    let parsed = parse_long_text_response(&response(b"abcd", 4)).unwrap();
    assert!(validate_chunk(&parsed, None, 0x00A5, 56, 0)
        .unwrap_err()
        .contains("returned record"));
    assert!(validate_chunk(&parsed, None, 0x00A6, 3, 0)
        .unwrap_err()
        .contains("at most 3"));
}

#[test]
fn permits_first_and_last_record_selectors() {
    let parsed = parse_long_text_response(&response(b"abcd", 4)).unwrap();
    validate_chunk(&parsed, None, 0x0000, 56, 0).unwrap();
    validate_chunk(&parsed, None, 0xFFFF, 56, 0).unwrap();
}

#[test]
fn rejects_short_responses() {
    assert_eq!(
        parse_long_text_response(&[0x80; 14]).unwrap_err(),
        "short response: expected at least 15 data bytes, received 14"
    );
}

#[test]
fn pages_through_a_long_text() {
    let fetch = LongText::new(0x00A6, false);
    let request = fetch.request().unwrap();
    assert_eq!((request.netfn, request.cmd), (0x2E, 0xF5));
    assert_eq!(request.data[6..], [0, 56]);
    let (fetch, lines) = fetch.advance(good(response(b"abc", 5)));
    assert!(lines.is_empty());
    // The second request starts behind the first piece and asks for the rest.
    assert_eq!(fetch.request().unwrap().data[6..], [3, 2]);
    let (fetch, _) = fetch.advance(good(response(b"de", 5)));
    assert!(fetch.request().is_none());
    let entry = fetch.finish().unwrap();
    assert_eq!(entry.text, "abcde");
    assert_eq!(entry.record_id, 0x00A6);
    assert_eq!(entry.severity, Severity::Major);
    assert!(entry.css);
}

#[test]
fn replaces_bytes_that_are_no_text() {
    let fetch = LongText::new(0, false);
    let (fetch, _) = fetch.advance(good(response(b"a\xFFb", 3)));
    assert_eq!(fetch.finish().unwrap().text, "a\u{FFFD}b");
}

#[test]
fn text_errors_are_reported() {
    let changed = {
        let (fetch, _) = LongText::new(0x00A6, false).advance(good(response(b"abc", 5)));
        let mut second = response(b"de", 5);
        second[12] = 0x00;
        fetch.advance(good(second)).0
    };
    assert_eq!(
        changed.error().unwrap(),
        "controller changed SEL metadata during pagination"
    );
    let (too_much, _) = LongText::new(0x00A6, false).advance(good(response(b"abcdef", 5)));
    assert_eq!(
        too_much.error().unwrap(),
        "controller returned more text than its declared total length"
    );
    let (empty, _) = LongText::new(0x00A6, false).advance(good(response(b"", 5)));
    assert_eq!(
        empty.error().unwrap(),
        "controller returned an empty text chunk before completion"
    );
    let refused = Ok(Response { cc: 0xC1, data: vec![] });
    let (refused, _) = LongText::new(0x00A6, false).advance(refused);
    assert_eq!(
        refused.error().unwrap(),
        "completion code 0xC1 (command not supported by this BMC)"
    );
    let (lost, _) = LongText::new(0x00A6, false).advance(Err("timeout".to_string()));
    assert_eq!(lost.error().unwrap(), "transport error: timeout");
}

#[test]
fn shows_frames_in_debug_mode() {
    let fetch = LongText::new(0x00A6, true);
    assert_eq!(
        fetch.request_line(),
        "  request  netfn=0x2E cmd=0xF5 data=80 28 00 43 A6 00 00 38"
    );
    let (_, lines) = fetch.advance(Ok(Response { cc: 0xC7, data: vec![] }));
    assert_eq!(lines, vec!["  response cc=0xC7 data=(empty)"]);
}

#[test]
fn reports_translated_entries() {
    let decode = DecodeSel::new(vec![0x00A6], false);
    let step = decode.current(false);
    assert!(matches!(step.action, Action::Send(_)));
    let (decode, _) = decode.advance(good(response(b"Fan failed", 10)));
    let step = decode.current(false);
    assert!(matches!(step.action, Action::Finish(Ok(()))));
    assert_eq!(
        step.lines,
        vec![
            "",
            "Fujitsu iRMC SEL Text",
            "─────────────────────",
            "      ID  TIMESTAMP             SEVERITY  CSS  TYPE  EVENT     ",
            "  0x00A6  2004-02-16T01:42:40Z  major     yes  0x02  Fan failed",
            "",
        ]
    );
}

#[test]
fn a_failed_translation_names_its_record() {
    let decode = DecodeSel::new(vec![0x0001, 0x0002], false);
    let (decode, _) = decode.advance(Err("gone".to_string()));
    let Action::Finish(result) = decode.current(false).action else {
        panic!("expected the end");
    };
    assert_eq!(
        result,
        Err("Fujitsu SEL decode for record 0x0001 failed: transport error: gone".to_string())
    );
}

#[test]
fn knows_fujitsu_manufacturers() {
    assert!(is_fujitsu_manufacturer(0x2880));
    assert!(!is_fujitsu_manufacturer(0x0002A2));
}

#[test]
fn fetches_a_text_however_it_is_served() {
    let text: Vec<u8> = (0..200u8).map(|i| b'a' + i % 26).collect();
    for portion in [1, 7, 56] {
        let mut fetch = LongText::new(0x00A6, false);
        let mut at = 0;
        while let Some(request) = fetch.request() {
            assert_eq!(request.data[6] as usize, at);
            let n = portion.min(request.data[7] as usize);
            fetch = fetch.advance(good(response(&text[at..at + n], 200))).0;
            at += n;
        }
        let entry = fetch.finish().unwrap();
        assert_eq!(entry.text.as_bytes(), text);
        assert_eq!((entry.record_id, entry.css), (0x00A6, true));
    }
}
