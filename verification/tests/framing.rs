//! Messages on a byte stream.
use async_lsp::error::{Error, IoKind};
use async_lsp::framing::{HeaderReader, HeaderStep, CONTENT_LENGTH};
use async_lsp::message::Message;

fn protocol(r: Result<async_lsp::framing::Frame, Error>) -> String {
    match r {
        Err(Error::Protocol(text)) => text,
        _ => panic!("no protocol error"),
    }
}

#[test]
fn a_message_is_written_with_its_length() {
    assert_eq!(CONTENT_LENGTH, "Content-Length");
    assert_eq!(Message::write(""), b"Content-Length: 0\r\n\r\n");
    assert_eq!(Message::write("{}"), b"Content-Length: 2\r\n\r\n{}");
    assert_eq!(Message::write("\u{e9}"), "Content-Length: 2\r\n\r\n\u{e9}".as_bytes());
    let long = "x".repeat(1234);
    assert_eq!(Message::write(&long), format!("Content-Length: 1234\r\n\r\n{}", long).into_bytes());
}

#[test]
fn what_is_written_is_read_back() {
    let mut stream = Vec::new();
    for body in ["{}", "", "\u{1F600} four bytes"] {
        stream.extend(Message::write(body));
    }
    let mut at = 0;
    for body in ["{}", "", "\u{1F600} four bytes"] {
        let frame = Message::read(&stream[at..]).unwrap();
        assert_eq!(frame.body, body.as_bytes());
        at += frame.consumed;
    }
    assert_eq!(at, stream.len());
    assert!(matches!(Message::read(&stream[at..]), Err(Error::Eof)));
}

#[test]
fn other_headers_are_skipped_and_names_ignore_case() {
    let frame =
        Message::read(b"X-Other: a: b\r\ncontent-LENGTH: +3\r\nContent-Type: t\r\n\r\nabcdef")
            .unwrap();
    assert_eq!(frame.body, b"abc");
    assert_eq!(frame.consumed, 57);
}

#[test]
fn the_last_length_counts() {
    let frame =
        Message::read(b"Content-Length: 9\r\nContent-Length: 1\r\n\r\nabc").unwrap();
    assert_eq!(frame.body, b"a");
}

#[test]
fn malformed_headers_are_refused() {
    assert_eq!(protocol(Message::read(b"\r\n")), "Missing content-length");
    assert_eq!(protocol(Message::read(b"X: y\r\n\r\n")), "Missing content-length");
    assert_eq!(
        protocol(Message::read(b"Content-Length 3\r\n\r\n")),
        "Invalid header: \"Content-Length 3\\r\\n\""
    );
    assert_eq!(protocol(Message::read(b"a: b\n")), "Invalid header: \"a: b\\n\"");
    assert_eq!(protocol(Message::read(b"a: b")), "Invalid header: \"a: b\"");
    assert_eq!(
        protocol(Message::read(b"Content-Length: x3\r\n")),
        "Invalid content-length: x3"
    );
    assert_eq!(
        protocol(Message::read(b"Content-Length:  3\r\n")),
        "Invalid content-length:  3"
    );
    assert_eq!(
        protocol(Message::read(b"Content-Length: \r\n")),
        "Invalid content-length: "
    );
    assert_eq!(
        protocol(Message::read(b"Content-Length: 99999999999999999999999\r\n")),
        "Invalid content-length: 99999999999999999999999"
    );
}

#[test]
fn ends_of_the_stream_are_told_apart() {
    assert!(matches!(Message::read(b""), Err(Error::Eof)));
    assert!(matches!(Message::read(b"Content-Length: 3\r\n"), Err(Error::Eof)));
    match Message::read(b"Content-Length: 3\r\n\r\nab") {
        Err(Error::Io(e)) => assert_eq!(e.kind(), std::io::ErrorKind::UnexpectedEof),
        _ => panic!("accepted"),
    }
    let e = Message::read(b"Content-Length: 5\r\n\r\nab").unwrap_err();
    assert_eq!(e.io_kind(), Some(IoKind::UnexpectedEof));
    match Message::read(b"\xff: a\r\n") {
        Err(Error::Io(e)) => assert_eq!(e.kind(), std::io::ErrorKind::InvalidData),
        _ => panic!("accepted"),
    }
    let e = Message::read(b"Content-Length: 5\r\n\xc3\x28: a\r\n").unwrap_err();
    assert_eq!(e.io_kind(), Some(IoKind::InvalidData));
}

#[test]
fn headers_are_read_line_by_line() {
    let mut r = HeaderReader::new();
    assert_eq!(r.line("Content-Length: 12\r\n").unwrap(), HeaderStep::More);
    assert_eq!(r.line("A: b\r\n").unwrap(), HeaderStep::More);
    assert_eq!(r.line("\r\n").unwrap(), HeaderStep::Body(12));
    assert!(matches!(HeaderReader::new().line(""), Err(Error::Eof)));
}
