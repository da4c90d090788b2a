use bench_routes::record::{Health, HealthStatus, Message, UserRecord};
use bench_routes::writer::{EncodeError, Writer};

fn literal(text: &str) -> Vec<u8> {
    let mut w = Writer::with_capacity(0);
    let n = w.write_json_string(text).unwrap();
    let bytes = w.freeze().to_vec();
    assert_eq!(n, bytes.len());
    bytes
}

#[test]
fn new_writer_is_empty() {
    assert_eq!(Writer::with_capacity(0).len(), 0);
    assert_eq!(Writer::with_capacity(64).len(), 0);
    assert_eq!(&Writer::with_capacity(64).freeze()[..], b"");
}

#[test]
fn write_appends_and_reports_the_length() {
    let mut w = Writer::with_capacity(4);
    assert_eq!(w.write(b"abc").unwrap(), 3);
    assert_eq!(w.len(), 3);
    assert_eq!(w.write(b"").unwrap(), 0);
    assert_eq!(w.write(b"defgh").unwrap(), 5);
    assert_eq!(w.len(), 8);
    assert_eq!(&w.freeze()[..], b"abcdefgh");
}

#[test]
fn flush_changes_nothing() {
    let mut w = Writer::with_capacity(4);
    w.write(b"abc").unwrap();
    assert!(w.flush().is_ok());
    assert_eq!(w.len(), 3);
    assert_eq!(&w.freeze()[..], b"abc");
}

#[test]
fn truncate_keeps_the_front() {
    let mut w = Writer::with_capacity(4);
    w.write(b"abcdef").unwrap();
    w.truncate(10);
    assert_eq!(w.len(), 6);
    w.truncate(6);
    assert_eq!(w.len(), 6);
    w.truncate(2);
    assert_eq!(w.len(), 2);
    w.write(b"Z").unwrap();
    assert_eq!(&w.freeze()[..], b"abZ");
}

#[test]
fn settle_keeps_what_succeeded() {
    let mut w = Writer::with_capacity(8);
    w.write(b"abcdef").unwrap();
    assert_eq!(w.settle(2, Ok(())).unwrap(), 4);
    assert_eq!(w.len(), 6);
    assert_eq!(w.settle(6, Ok(())).unwrap(), 0);
    assert_eq!(&w.freeze()[..], b"abcdef");
}

#[test]
fn settle_undoes_what_failed() {
    let mut w = Writer::with_capacity(8);
    w.write(b"abcdef").unwrap();
    let failure = std::io::Error::new(std::io::ErrorKind::WriteZero, "no room left");
    match w.settle(2, Err(failure)) {
        Err(EncodeError::Json(message)) => assert_eq!(message, "no room left"),
        other => panic!("{:?}", other),
    }
    assert_eq!(w.len(), 2);
    assert_eq!(&w.freeze()[..], b"ab");
}

#[test]
fn plain_strings_stand_between_quotes() {
    assert_eq!(literal(""), b"\"\"");
    assert_eq!(literal("ok"), b"\"ok\"");
    assert_eq!(literal("Hello, World!"), b"\"Hello, World!\"");
    assert_eq!(literal("a/b"), b"\"a/b\"");
    assert_eq!(literal("é"), b"\"\xc3\xa9\"");
    assert_eq!(literal("\u{7f}"), b"\"\x7f\"");
    assert_eq!(literal("\u{80}"), b"\"\xc2\x80\"");
}

#[test]
fn escapes_of_every_ascii_character() {
    for code in 0u8..128 {
        let text = (code as char).to_string();
        let inside: Vec<u8> = match code {
            0x22 => b"\\\"".to_vec(),
            0x5c => b"\\\\".to_vec(),
            0x08 => b"\\b".to_vec(),
            0x09 => b"\\t".to_vec(),
            0x0a => b"\\n".to_vec(),
            0x0c => b"\\f".to_vec(),
            0x0d => b"\\r".to_vec(),
            0x00..=0x1f => format!("\\u{:04x}", code).into_bytes(),
            _ => vec![code],
        };
        let mut expected = vec![b'"'];
        expected.extend_from_slice(&inside);
        expected.push(b'"');
        assert_eq!(literal(&text), expected, "{:#04x}", code);
    }
}

#[test]
fn escapes_use_lower_case_hex() {
    assert_eq!(literal("\u{0}"), b"\"\\u0000\"");
    assert_eq!(literal("\u{b}"), b"\"\\u000b\"");
    assert_eq!(literal("\u{e}"), b"\"\\u000e\"");
    assert_eq!(literal("\u{1a}"), b"\"\\u001a\"");
    assert_eq!(literal("\u{1f}"), b"\"\\u001f\"");
}

#[test]
fn escapes_in_long_strings() {
    for len in [15usize, 16, 17, 31, 32, 33, 63, 64, 65, 200] {
        for at in [0, len / 2, len - 1] {
            let mut text = "x".repeat(len).into_bytes();
            text[at] = b'"';
            let text = String::from_utf8(text).unwrap();
            let mut expected = vec![b'"'];
            expected.extend_from_slice("x".repeat(at).as_bytes());
            expected.extend_from_slice(b"\\\"");
            expected.extend_from_slice("x".repeat(len - at - 1).as_bytes());
            expected.push(b'"');
            assert_eq!(literal(&text), expected, "{} {}", len, at);
        }
        let plain = "é".repeat(len);
        let mut expected = vec![b'"'];
        expected.extend_from_slice(plain.as_bytes());
        expected.push(b'"');
        assert_eq!(literal(&plain), expected);
        let controls = "\u{1}\n".repeat(len);
        let mut expected = vec![b'"'];
        expected.extend_from_slice("\\u0001\\n".repeat(len).as_bytes());
        expected.push(b'"');
        assert_eq!(literal(&controls), expected);
    }
}

#[test]
fn json_string_is_appended_after_what_is_there() {
    let mut w = Writer::with_capacity(8);
    w.write(b"k:").unwrap();
    assert_eq!(w.write_json_string("a\"b").unwrap(), 6);
    assert_eq!(w.len(), 8);
    assert_eq!(&w.freeze()[..], b"k:\"a\\\"b\"");
}

#[test]
fn health_status_encodes() {
    let mut w = Writer::with_capacity(16);
    let n = HealthStatus { status: Health::Healthy }.json_write(&mut w).unwrap();
    assert_eq!(n, 15);
    assert_eq!(&w.freeze()[..], br#"{"status":"ok"}"#);
    assert_eq!(Health::Healthy.as_str(), "ok");
}

#[test]
fn message_encodes() {
    let mut w = Writer::with_capacity(32);
    let n = Message::hello().json_write(&mut w).unwrap();
    assert_eq!(n, 27);
    assert_eq!(&w.freeze()[..], br#"{"message":"Hello, World!"}"#);
    assert_eq!(Message::hello().message, "Hello, World!");

    let mut w = Writer::with_capacity(0);
    let n = Message { message: "say \"hi\"\n" }.json_write(&mut w).unwrap();
    assert_eq!(n, 26);
    assert_eq!(&w.freeze()[..], br#"{"message":"say \"hi\"\n"}"#);
}

#[test]
fn message_is_written_bare_as_plain_text() {
    let mut w = Writer::with_capacity(32);
    let n = Message::hello().text_write(&mut w).unwrap();
    assert_eq!(n, 13);
    assert_eq!(&w.freeze()[..], b"Hello, World!");

    let mut w = Writer::with_capacity(0);
    w.write(b"> ").unwrap();
    let n = Message { message: "say \"hi\"\n" }.text_write(&mut w).unwrap();
    assert_eq!(n, 9);
    assert_eq!(&w.freeze()[..], b"> say \"hi\"\n");
}

#[test]
fn user_record_is_named_after_its_id() {
    let user = UserRecord::new("42");
    assert_eq!(user.id, "42");
    assert_eq!(user.name, "User 42");
    assert_eq!(UserRecord::new("").name, "User ");
    assert_eq!(UserRecord::new("a b").name, "User a b");
    assert_eq!(UserRecord::new("é\"").name, "User é\"");
}

#[test]
fn user_record_encodes() {
    let mut w = Writer::with_capacity(64);
    let n = UserRecord::new("42").json_write(&mut w).unwrap();
    assert_eq!(n, 28);
    assert_eq!(&w.freeze()[..], br#"{"id":"42","name":"User 42"}"#);
}

#[test]
fn user_record_encodes_its_fields_as_they_are() {
    let mut w = Writer::with_capacity(64);
    let user = UserRecord { id: "7", name: String::from("Seven \\ 7") };
    let n = user.json_write(&mut w).unwrap();
    assert_eq!(&w.freeze()[..], br#"{"id":"7","name":"Seven \\ 7"}"#);
    assert_eq!(n, 30);
}

#[test]
fn records_are_appended_to_a_reused_writer() {
    let mut w = Writer::with_capacity(0);
    let a = HealthStatus { status: Health::Healthy }.json_write(&mut w).unwrap();
    let b = Message::hello().json_write(&mut w).unwrap();
    let c = UserRecord::new("x").json_write(&mut w).unwrap();
    assert_eq!((a, b, c), (15, 27, 26));
    assert_eq!(w.len(), 68);
    assert_eq!(
        &w.freeze()[..],
        &br#"{"status":"ok"}{"message":"Hello, World!"}{"id":"x","name":"User x"}"#[..]
    );
}
