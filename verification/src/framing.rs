//! How messages are framed on a byte stream: a header that gives the length of the body, an empty
//! line, and the body.
use vstd::prelude::*;
use vstd::string::{StrSliceExecFns, StringExecFns};
use vstd::utf8::{decode_utf8, encode_utf8, valid_utf8};

use crate::error::{io_kind_of, Error, IoKind};
use crate::message::Message;
use crate::text::{
    append_decimal, chars_of, decimal, digits_value, find_separator, first_separator_at, joined,
    parse_length, parsed_length, prefix_is_ignoring_case, same_ignoring_case, separator_at,
};

verus! {

/// The name of the header that gives the length of the body.
pub const CONTENT_LENGTH: &'static str = "Content-Length";

/// What a line of the header says.
pub enum HeaderLine {
    /// The line is empty: the header ends.
    End,
    /// The line gives the length of the body.
    Length(usize),
    /// The line is a header of another name.
    Other,
    /// The line is no header.
    Malformed,
    /// The line gives a length that is no number, or one that is too large.
    BadLength(Seq<char>),
}

/// Whether a line ends in a carriage return and a line feed.
pub open spec fn ends_in_crlf(line: Seq<char>) -> bool {
    line.len() >= 2 && line[line.len() - 2] == '\r' && line[line.len() - 1] == '\n'
}

/// A line without its last two characters.
pub open spec fn stripped(line: Seq<char>) -> Seq<char> {
    line.take(line.len() - 2)
}

/// What a line of the header says: a header is a name and a value with `: ` between them, the name
/// being what precedes the first `: `.
pub open spec fn header_line(line: Seq<char>) -> HeaderLine {
    let h = stripped(line);
    if line == seq!['\r', '\n'] {
        HeaderLine::End
    } else if !ends_in_crlf(line) || !(exists|i: int| first_separator_at(h, i)) {
        HeaderLine::Malformed
    } else {
        let i = choose|i: int| first_separator_at(h, i);
        let value = h.skip(i + 2);
        if !same_ignoring_case(h.take(i), CONTENT_LENGTH@) {
            HeaderLine::Other
        } else {
            match parsed_length(value) {
                Some(n) => HeaderLine::Length(n),
                None => HeaderLine::BadLength(value),
            }
        }
    }
}

/// The quoted and escaped form of a text, as its `Debug` form shows it.
pub uninterp spec fn quoted(text: Seq<char>) -> Seq<char>;

/// `Debug` of `str`: the text in double quotes, with special characters escaped. Which characters
/// are escaped, and how, is left to the standard library.
#[verifier::external_body]
pub(crate) fn quote(text: &str) -> (r: String)
    ensures
        r@ == quoted(text@),
{
    format!("{:?}", text)
}

/// What is next after a line of the header.
#[derive(Clone, Copy, Debug, PartialEq, Eq, Structural)]
pub enum HeaderStep {
    /// Another line of the header.
    More,
    /// The body, of this many bytes.
    Body(usize),
}

/// Reads the lines of a header one after another.
#[derive(Clone, Copy, Debug, PartialEq, Eq, Structural)]
pub struct HeaderReader {
    content_len: Option<usize>,
}

impl HeaderReader {
    /// The length that the lines so far gave, the last one if several did.
    pub closed spec fn length(&self) -> Option<usize> {
        self.content_len
    }

    /// A reader that has read nothing.
    pub fn new() -> (r: Self)
        ensures
            r.length() is None,
    {
        HeaderReader { content_len: None }
    }

    /// Takes the next line, with its line ending. An empty `line` is the end of the input.
    pub fn line(&mut self, line: &str) -> (r: Result<HeaderStep, Error>)
        ensures
            line@.len() == 0 ==> r == Err::<HeaderStep, Error>(Error::Eof) && final(self).length()
                == old(self).length(),
            line@.len() > 0 ==> match header_line(line@) {
                HeaderLine::End => {
                    &&& final(self).length() == old(self).length()
                    &&& match old(self).length() {
                        Some(n) => r == Ok::<HeaderStep, Error>(HeaderStep::Body(n)),
                        None => r matches Err(e) && e.is_protocol("Missing content-length"@),
                    }
                },
                HeaderLine::Length(n) => {
                    &&& final(self).length() == Some(n)
                    &&& r == Ok::<HeaderStep, Error>(HeaderStep::More)
                },
                HeaderLine::Other => {
                    &&& final(self).length() == old(self).length()
                    &&& r == Ok::<HeaderStep, Error>(HeaderStep::More)
                },
                HeaderLine::Malformed => {
                    &&& final(self).length() == old(self).length()
                    &&& r matches Err(e)
                    &&& e.is_protocol("Invalid header: "@ + quoted(line@))
                },
                HeaderLine::BadLength(value) => {
                    &&& final(self).length() == old(self).length()
                    &&& r matches Err(e)
                    &&& e.is_protocol("Invalid content-length: "@ + value)
                },
            },
    {
        let chars = chars_of(line);
        let n: usize = chars.len();
        if n == 0 {
            return Err(Error::Eof);
        }
        if n == 2 && chars[0] == '\r' && chars[1] == '\n' {
            assert(line@ =~= seq!['\r', '\n']);
            return match self.content_len {
                Some(len) => Ok(HeaderStep::Body(len)),
                None => Err(Error::Protocol("Missing content-length".to_string())),
            };
        }
        let ghost h = stripped(line@);
        if n < 2 || chars[n - 2] != '\r' || chars[n - 1] != '\n' {
            let shown = quote(line);
            return Err(Error::Protocol(joined("Invalid header: ", shown.as_str())));
        }
        match find_separator(&chars, n - 2) {
            None => {
                assert(!(exists|i: int| first_separator_at(h, i))) by {
                    if exists|i: int| first_separator_at(h, i) {
                        let i = choose|i: int| first_separator_at(h, i);
                        assert(separator_at(h, i));
                    }
                }
                let shown = quote(line);
                Err(Error::Protocol(joined("Invalid header: ", shown.as_str())))
            },
            Some(i) => {
                proof {
                    let k = choose|k: int| first_separator_at(h, k);
                    assert(first_separator_at(h, i as int));
                    assert(first_separator_at(h, k));
                    assert(separator_at(h, i as int) && separator_at(h, k));
                    assert(k == i);
                    assert(h.take(i as int) =~= chars@.take(i as int));
                    assert(h.skip(i + 2) =~= chars@.subrange(i + 2, n - 2));
                }
                if !prefix_is_ignoring_case(&chars, i, CONTENT_LENGTH) {
                    return Ok(HeaderStep::More);
                }
                match parse_length(&chars, i + 2, n - 2) {
                    Some(len) => {
                        self.content_len = Some(len);
                        Ok(HeaderStep::More)
                    },
                    None => {
                        let value = line.substring_char(i + 2, n - 2);
                        Err(Error::Protocol(joined("Invalid content-length: ", value)))
                    },
                }
            },
        }
    }
}

/// What reading one message from a stream of bytes comes to.
pub enum Reading {
    /// The body stands at `start` and has `len` bytes.
    Frame { start: int, len: int },
    /// The stream ends before the header does.
    Eof,
    /// A line of the header is no UTF-8 text.
    NotText,
    /// A line of the header is no header.
    Malformed(Seq<char>),
    /// The header gives a length that is no number, or one that is too large.
    BadLength(Seq<char>),
    /// The header gives no length.
    NoLength,
    /// The stream ends before the body does.
    Truncated,
}

/// The end of the line that starts at `pos`: after the next line feed, or the end of the input.
pub open spec fn line_end(input: Seq<u8>, pos: int) -> int
    decreases input.len() - pos,
{
    if pos >= input.len() {
        input.len() as int
    } else if input[pos] == 10u8 {
        pos + 1
    } else {
        line_end(input, pos + 1)
    }
}

/// Reading a message from the line that starts at `pos`, when the lines before it gave `length`.
pub open spec fn reading(input: Seq<u8>, pos: int, length: Option<usize>) -> Reading
    decreases input.len() - pos,
    when 0 <= pos
    via reading_decreases
{
    let end = line_end(input, pos);
    let line = input.subrange(pos, end);
    if pos >= input.len() {
        Reading::Eof
    } else if !valid_utf8(line) {
        Reading::NotText
    } else {
        match header_line(decode_utf8(line)) {
            HeaderLine::End => match length {
                None => Reading::NoLength,
                Some(n) => if end + n <= input.len() {
                    Reading::Frame { start: end, len: n as int }
                } else {
                    Reading::Truncated
                },
            },
            HeaderLine::Length(n) => reading(input, end, Some(n)),
            HeaderLine::Other => reading(input, end, length),
            HeaderLine::Malformed => Reading::Malformed(decode_utf8(line)),
            HeaderLine::BadLength(value) => Reading::BadLength(value),
        }
    }
}

#[via_fn]
proof fn reading_decreases(input: Seq<u8>, pos: int, length: Option<usize>) {
    lemma_line_end(input, pos);
}

/// A line that does not start at the end of the input is not empty.
proof fn lemma_line_end(input: Seq<u8>, pos: int)
    requires
        0 <= pos,
    ensures
        line_end(input, pos) <= input.len(),
        pos < input.len() ==> line_end(input, pos) > pos,
    decreases input.len() - pos,
{
    if pos < input.len() && input[pos] != 10u8 {
        lemma_line_end(input, pos + 1);
    }
}

/// A message body, and where the bytes after it start.
#[derive(Debug, PartialEq, Eq)]
pub struct Frame {
    /// The body.
    pub body: Vec<u8>,
    /// The number of bytes of the header and the body.
    pub consumed: usize,
}

/// `std::io::Error::new`, of the kind and with the text that the line readers of `futures` report
/// for bytes that are no UTF-8 text. Only its kind is stated.
#[verifier::external_body]
fn not_text() -> (e: std::io::Error)
    ensures
        io_kind_of(e) == IoKind::InvalidData,
{
    std::io::Error::new(std::io::ErrorKind::InvalidData, "stream did not contain valid UTF-8")
}

/// `std::io::Error::from`, of the kind that stands for an input that ends too early.
#[verifier::external_body]
fn ended_early() -> (e: std::io::Error)
    ensures
        io_kind_of(e) == IoKind::UnexpectedEof,
{
    std::io::Error::from(std::io::ErrorKind::UnexpectedEof)
}

/// `String::from_utf8`: gives the text that the bytes encode, if they are valid UTF-8.
#[verifier::external_body]
fn text_of(bytes: Vec<u8>) -> (r: Option<String>)
    ensures
        r is Some <==> valid_utf8(bytes@),
        r matches Some(text) ==> encode_utf8(text@) == bytes@,
{
    String::from_utf8(bytes).ok()
}

/// The bytes `from..to`.
fn copy_range(input: &[u8], from: usize, to: usize) -> (r: Vec<u8>)
    requires
        from <= to <= input@.len(),
    ensures
        r@ == input@.subrange(from as int, to as int),
{
    let mut v: Vec<u8> = Vec::new();
    let mut i: usize = from;
    while i < to
        invariant
            from <= i <= to <= input@.len(),
            v@ == input@.subrange(from as int, i as int),
        decreases to - i,
    {
        v.push(input[i]);
        assert(input@.subrange(from as int, i + 1) =~= input@.subrange(from as int, i as int).push(
            input@[i as int],
        ));
        i += 1;
    }
    v
}

/// The end of the line that starts at `pos`.
fn find_line_end(input: &[u8], pos: usize) -> (r: usize)
    requires
        pos <= input@.len(),
    ensures
        r == line_end(input@, pos as int),
        r <= input@.len(),
        pos < input@.len() ==> r > pos,
{
    let n: usize = input.len();
    let mut i: usize = pos;
    while i < n
        invariant
            pos <= i <= n == input@.len(),
            line_end(input@, pos as int) == line_end(input@, i as int),
        decreases n - i,
    {
        if input[i] == 10u8 {
            return i + 1;
        }
        i += 1;
    }
    n
}

impl Message {
    /// Reads one message from the start of `input`, and returns its body.
    pub fn read(input: &[u8]) -> (r: Result<Frame, Error>)
        ensures
            match reading(input@, 0, None) {
                Reading::Frame { start, len } => {
                    &&& r matches Ok(frame)
                    &&& frame.body@ == input@.subrange(start, start + len)
                    &&& frame.consumed == start + len
                },
                Reading::Eof => r == Err::<Frame, Error>(Error::Eof),
                Reading::NotText => r matches Err(Error::Io(e)) && io_kind_of(e)
                    == IoKind::InvalidData,
                Reading::Malformed(line) => r matches Err(e) && e.is_protocol(
                    "Invalid header: "@ + quoted(line),
                ),
                Reading::BadLength(value) => r matches Err(e) && e.is_protocol(
                    "Invalid content-length: "@ + value,
                ),
                Reading::NoLength => r matches Err(e) && e.is_protocol("Missing content-length"@),
                Reading::Truncated => r matches Err(Error::Io(e)) && io_kind_of(e)
                    == IoKind::UnexpectedEof,
            },
    {
        let mut reader = HeaderReader::new();
        let mut pos: usize = 0;
        loop
            invariant
                pos <= input@.len(),
                reading(input@, 0, None) == reading(input@, pos as int, reader.length()),
            decreases input@.len() - pos,
        {
            let end: usize = find_line_end(input, pos);
            let bytes = copy_range(input, pos, end);
            let ghost line_bytes = bytes@;
            proof {
                if pos == input@.len() {
                    assert(line_bytes =~= Seq::<u8>::empty());
                }
            }
            let line = match text_of(bytes) {
                Some(line) => line,
                None => {
                    return Err(Error::Io(not_text()));
                },
            };
            proof {
                vstd::utf8::encode_utf8_decode_utf8(line@);
                if pos == input@.len() {
                    assert(line@ == decode_utf8(line_bytes));
                    assert(line@.len() == 0);
                } else {
                    if line@.len() == 0 {
                        assert(encode_utf8(line@) =~= Seq::<u8>::empty());
                    }
                }
            }
            match reader.line(line.as_str()) {
                Err(e) => {
                    return Err(e);
                },
                Ok(HeaderStep::More) => {
                    pos = end;
                },
                Ok(HeaderStep::Body(len)) => {
                    if len > input.len() - end {
                        return Err(Error::Io(ended_early()));
                    }
                    let body = copy_range(input, end, end + len);
                    return Ok(Frame { body, consumed: end + len });
                },
            }
        }
    }

    /// The bytes that a message of the given body is written as.
    pub fn write(body: &str) -> (r: Vec<u8>)
        ensures
            r@ == framed(encode_utf8(body@)),
    {
        let mut header = joined(CONTENT_LENGTH, ": ");
        let bytes = body.as_bytes();
        append_decimal(&mut header, bytes.len() as u64);
        header.append("\r\n\r\n");
        let mut out = copy_range(header.as_str().as_bytes(), 0, header.as_str().as_bytes().len());
        let tail = copy_range(bytes, 0, bytes.len());
        let ghost head = out@;
        assert(head =~= encode_utf8(header@));
        let mut rest = tail;
        out.append(&mut rest);
        assert(bytes@.subrange(0, bytes@.len() as int) =~= bytes@);
        out
    }
}

/// The header of a message whose body has `len` bytes, with the empty line that ends it.
pub open spec fn header_of(len: nat) -> Seq<char> {
    CONTENT_LENGTH@ + ": "@ + decimal(len) + "\r\n\r\n"@
}

/// A message on the stream: the header, then the body.
pub open spec fn framed(body: Seq<u8>) -> Seq<u8> {
    encode_utf8(header_of(body.len())) + body
}

/// The header line that gives the length of a body.
spec fn length_line(len: nat) -> Seq<char> {
    CONTENT_LENGTH@ + ": "@ + decimal(len) + seq!['\r', '\n']
}

/// The length line says the length.
proof fn lemma_length_line(n: usize)
    ensures
        header_line(length_line(n as nat)) == HeaderLine::Length(n),
        vstd::utf8::is_ascii_chars(length_line(n as nat)),
        forall|i: int|
            0 <= i < length_line(n as nat).len() - 1 ==> #[trigger] length_line(n as nat)[i]
                != '\n',
        length_line(n as nat).last() == '\n',
{
    reveal_strlit("Content-Length");
    reveal_strlit(": ");
    let line = length_line(n as nat);
    let digits = decimal(n as nat);
    crate::text::lemma_decimal_digits(n as nat);
    crate::text::law_length_reads_back(n);
    let h = stripped(line);
    assert(CONTENT_LENGTH@.len() == 14);
    assert(line.len() == 18 + digits.len());
    assert(h =~= CONTENT_LENGTH@ + ": "@ + digits);
    assert(separator_at(h, 14));
    assert(first_separator_at(h, 14)) by {
        assert forall|j: int| 0 <= j < 14 implies !#[trigger] separator_at(h, j) by {
            assert(h[j] == CONTENT_LENGTH@[j]);
        }
    }
    let i = choose|i: int| first_separator_at(h, i);
    assert(first_separator_at(h, i));
    assert(separator_at(h, i));
    assert(i == 14);
    assert(h.take(14) =~= CONTENT_LENGTH@);
    assert(h.skip(16) =~= digits);
    assert(ends_in_crlf(line));
    assert forall|k: int| 0 <= k < line.len() implies '\0' <= #[trigger] line[k] <= '\u{7f}' && (k
        < line.len() - 1 ==> line[k] != '\n') by {
        if k < 14 {
            assert(line[k] == CONTENT_LENGTH@[k]);
        } else if k < 16 {
            assert(line[k] == ": "@[k - 14]);
        } else if k < 16 + digits.len() {
            assert(line[k] == digits[k - 16]);
        }
    }
}

/// A line that is followed by more bytes ends after its line feed.
proof fn lemma_line_end_at(input: Seq<u8>, pos: int, end: int)
    requires
        0 <= pos < end <= input.len(),
        input[end - 1] == 10u8,
        forall|i: int| pos <= i < end - 1 ==> #[trigger] input[i] != 10u8,
    ensures
        line_end(input, pos) == end,
    decreases end - pos,
{
    if pos < end - 1 {
        assert(input[pos] != 10u8);
        lemma_line_end_at(input, pos + 1, end);
    }
}

/// The bytes of an ASCII text are the codes of its characters.
proof fn lemma_ascii_bytes(text: Seq<char>)
    requires
        vstd::utf8::is_ascii_chars(text),
    ensures
        encode_utf8(text).len() == text.len(),
        forall|i: int|
            0 <= i < text.len() ==> #[trigger] encode_utf8(text)[i] as int == text[i] as int,
{
    vstd::utf8::is_ascii_chars_encode_utf8(text);
    assert forall|i: int| 0 <= i < text.len() implies #[trigger] encode_utf8(text)[i] as int
        == text[i] as int by {
        assert('\0' <= text[i] <= '\u{7f}');
        assert(text[i] as u8 == encode_utf8(text)[i]);
    }
}

/// What a message is written as reads back: reading from the start of a written message gives its
/// body, whatever follows it on the stream, and leaves what follows.
pub proof fn law_read_gives_back_written(body: Seq<u8>, rest: Seq<u8>)
    requires
        body.len() <= usize::MAX,
    ensures
        reading(framed(body) + rest, 0, None) == (Reading::Frame {
            start: framed(body).len() - body.len(),
            len: body.len() as int,
        }),
        (framed(body) + rest).subrange(
            framed(body).len() - body.len(),
            framed(body).len() as int,
        ) == body,
        (framed(body) + rest).skip(framed(body).len() as int) == rest,
{
    let n = body.len() as usize;
    let line = length_line(n as nat);
    let end_line = seq!['\r', '\n'];
    let header = header_of(body.len());
    let input = framed(body) + rest;
    reveal_strlit("\r\n\r\n");
    assert(header =~= line + end_line);
    lemma_length_line(n);
    assert(vstd::utf8::is_ascii_chars(header)) by {
        assert forall|k: int| 0 <= k < header.len() implies '\0' <= #[trigger] header[k]
            <= '\u{7f}' by {
            if k < line.len() {
                assert(header[k] == line[k]);
            } else {
                assert(header[k] == end_line[k - line.len()]);
            }
        }
    }
    lemma_ascii_bytes(header);
    lemma_ascii_bytes(line);
    lemma_ascii_bytes(end_line);
    let m = line.len() as int;
    let bytes = encode_utf8(header);
    assert(bytes.len() == m + 2);
    assert forall|k: int| 0 <= k < m + 2 implies #[trigger] input[k] as int == header[k] as int by {
        assert(input[k] == bytes[k]);
    }
    // The first line.
    assert(line_end(input, 0) == m) by {
        assert(input[m - 1] as int == header[m - 1] as int);
        assert(header[m - 1] == line[m - 1]);
        assert forall|i: int| 0 <= i < m - 1 implies #[trigger] input[i] != 10u8 by {
            assert(header[i] == line[i]);
            assert(input[i] as int == header[i] as int);
        }
        lemma_line_end_at(input, 0, m);
    }
    assert(input.subrange(0, m) =~= encode_utf8(line)) by {
        assert forall|k: int| 0 <= k < m implies input[k] == #[trigger] encode_utf8(line)[k] by {
            assert(header[k] == line[k]);
            assert(input[k] as int == header[k] as int);
        }
    }
    vstd::utf8::encode_utf8_valid_utf8(line);
    vstd::utf8::encode_utf8_decode_utf8(line);
    // The second line.
    assert(input[m] as int == header[m] as int && input[m + 1] as int == header[m + 1] as int);
    assert(header[m] == end_line[0] && header[m + 1] == end_line[1]);
    assert(line_end(input, m) == m + 2) by {
        lemma_line_end_at(input, m, m + 2);
    }
    assert(input.subrange(m, m + 2) =~= encode_utf8(end_line)) by {
        assert(encode_utf8(end_line)[0] as int == end_line[0] as int);
        assert(encode_utf8(end_line)[1] as int == end_line[1] as int);
    }
    vstd::utf8::encode_utf8_valid_utf8(end_line);
    vstd::utf8::encode_utf8_decode_utf8(end_line);
    assert(header_line(end_line) == HeaderLine::End);
    assert(reading(input, m, Some(n)) == (Reading::Frame { start: m + 2, len: n as int }));
    assert(reading(input, 0, None) == reading(input, m, Some(n)));
    assert(input.subrange(m + 2, m + 2 + n) =~= body);
    assert(input.skip(framed(body).len() as int) =~= rest);
}

/// Messages that are written one after another.
pub open spec fn stream_of(bodies: Seq<Seq<u8>>) -> Seq<u8>
    decreases bodies.len(),
{
    if bodies.len() == 0 {
        Seq::empty()
    } else {
        framed(bodies[0]) + stream_of(bodies.drop_first())
    }
}

/// The bodies that are read from a stream, in order, until the stream ends or a message cannot be
/// read.
pub open spec fn bodies_read(input: Seq<u8>) -> Seq<Seq<u8>>
    decreases input.len(),
{
    match reading(input, 0, None) {
        Reading::Frame { start, len } => if 0 < start && 0 <= len && start + len <= input.len() {
            seq![input.subrange(start, start + len)] + bodies_read(input.skip(start + len))
        } else {
            Seq::empty()
        },
        _ => Seq::empty(),
    }
}

/// A stream of messages reads back: the bodies come out in the order in which they were written,
/// none is lost and none is added.
pub proof fn law_stream_reads_back(bodies: Seq<Seq<u8>>)
    requires
        forall|i: int| 0 <= i < bodies.len() ==> (#[trigger] bodies[i]).len() <= usize::MAX,
    ensures
        bodies_read(stream_of(bodies)) == bodies,
    decreases bodies.len(),
{
    let input = stream_of(bodies);
    if bodies.len() > 0 {
        let rest = bodies.drop_first();
        assert forall|i: int| 0 <= i < rest.len() implies (#[trigger] rest[i]).len()
            <= usize::MAX by {
            assert(rest[i] == bodies[i + 1]);
        }
        law_stream_reads_back(rest);
        law_read_gives_back_written(bodies[0], stream_of(rest));
        let header = encode_utf8(header_of(bodies[0].len()));
        assert(header.len() > 0) by {
            lemma_header_not_empty(bodies[0].len());
        }
        assert(bodies =~= seq![bodies[0]] + rest);
    } else {
        assert(bodies =~= Seq::<Seq<u8>>::empty());
    }
}

/// A header is not empty.
proof fn lemma_header_not_empty(len: nat)
    ensures
        encode_utf8(header_of(len)).len() > 0,
{
    reveal_strlit("Content-Length");
    let header = header_of(len);
    assert(header.len() > 0);
    vstd::utf8::encode_utf8_decode_utf8(header);
    if encode_utf8(header).len() == 0 {
        assert(encode_utf8(header) =~= encode_utf8(Seq::<char>::empty()));
        vstd::utf8::encode_utf8_decode_utf8(Seq::<char>::empty());
    }
}

/// A message is written as `Content-Length: `, the number of bytes of its body in decimal, two line
/// ends, and the body.
pub proof fn law_written_on_the_wire()
    ensures
        forall|body: &str, r: Vec<u8>| #[trigger]
            call_ensures(Message::write, (body,), r) ==> r@ == encode_utf8(
                "Content-Length: "@ + decimal(encode_utf8(body@).len()) + "\r\n\r\n"@,
            ) + encode_utf8(body@),
{
    lemma_name_and_separator();
    assert forall|body: &str, r: Vec<u8>| #[trigger]
        call_ensures(Message::write, (body,), r) implies r@ == encode_utf8(
        "Content-Length: "@ + decimal(encode_utf8(body@).len()) + "\r\n\r\n"@,
    ) + encode_utf8(body@) by {
        assert(r@ == framed(encode_utf8(body@)));
    }
}

/// The name of the header and the separator, as one text.
proof fn lemma_name_and_separator()
    ensures
        "Content-Length: "@ == CONTENT_LENGTH@ + ": "@,
{
    reveal_strlit("Content-Length: ");
    reveal_strlit("Content-Length");
    reveal_strlit(": ");
    assert("Content-Length: "@ =~= CONTENT_LENGTH@ + ": "@);
}

/// Whether the line is a header of the name and the value: the name, `: `, the value, and a line
/// end, where `: ` does not occur in the name.
pub open spec fn is_header(line: Seq<char>, name: Seq<char>, value: Seq<char>) -> bool {
    &&& line == name + seq![':', ' '] + value + seq!['\r', '\n']
    &&& forall|j: int|
        #![trigger name[j]]
        0 <= j && j + 1 < name.len() ==> !(name[j] == ':' && name[j + 1] == ' ')
}

/// Whether the name is `Content-Length`, but for the case of its letters.
pub open spec fn names_the_length(name: Seq<char>) -> bool {
    &&& name.len() == "Content-Length"@.len()
    &&& forall|i: int|
        #![trigger name[i]]
        0 <= i < name.len() ==> {
            let c = "Content-Length"@[i];
            ||| name[i] == c
            ||| 'A' <= c <= 'Z' && name[i] as int == c as int + 32
            ||| 'a' <= c <= 'z' && name[i] as int == c as int - 32
        }
}

/// Whether the value is digits that denote the number, perhaps after a `+`.
pub open spec fn gives_number(value: Seq<char>, n: nat) -> bool {
    exists|d: Seq<char>|
        {
            &&& value == d || value == seq!['+'] + d
            &&& d.len() > 0
            &&& forall|i: int| 0 <= i < d.len() ==> '0' <= #[trigger] d[i] <= '9'
            &&& #[trigger] digits_value(d) == n
        }
}

/// A header line is one with its first separator behind the name.
proof fn lemma_header_found(line: Seq<char>, name: Seq<char>, value: Seq<char>)
    requires
        is_header(line, name, value),
    ensures
        ends_in_crlf(line),
        line != seq!['\r', '\n'],
        stripped(line) == name + seq![':', ' '] + value,
        first_separator_at(stripped(line), name.len() as int),
        forall|i: int| first_separator_at(stripped(line), i) ==> i == name.len(),
        stripped(line).take(name.len() as int) == name,
        stripped(line).skip(name.len() as int + 2) == value,
{
    let h = stripped(line);
    assert(h =~= name + seq![':', ' '] + value);
    let n = name.len() as int;
    assert(separator_at(h, n));
    assert forall|j: int| 0 <= j < n implies !#[trigger] separator_at(h, j) by {
        assert(h[j] == name[j]);
        if j + 1 < n {
            assert(h[j + 1] == name[j + 1]);
        } else {
            assert(h[j + 1] == ':');
        }
    }
    assert forall|i: int| first_separator_at(h, i) implies i == n by {
        assert(separator_at(h, i));
    }
    assert(h.take(n) =~= name);
    assert(h.skip(n + 2) =~= value);
    assert(line.len() > 2);
}

/// The two ways to say that a name is that of the header.
proof fn lemma_names_the_length(name: Seq<char>)
    ensures
        names_the_length(name) <==> same_ignoring_case(name, CONTENT_LENGTH@),
{
    reveal_strlit("Content-Length");
    if names_the_length(name) {
        assert forall|i: int| 0 <= i < name.len() implies crate::text::ascii_lower(
            #[trigger] name[i],
        ) == crate::text::ascii_lower(CONTENT_LENGTH@[i]) by {}
    }
    if same_ignoring_case(name, CONTENT_LENGTH@) {
        assert forall|i: int|
            #![trigger name[i]]
            0 <= i < name.len() implies {
            let c = "Content-Length"@[i];
            ||| name[i] == c
            ||| 'A' <= c <= 'Z' && name[i] as int == c as int + 32
            ||| 'a' <= c <= 'z' && name[i] as int == c as int - 32
        } by {
            assert(crate::text::ascii_lower(name[i]) == crate::text::ascii_lower(
                CONTENT_LENGTH@[i],
            ));
            let c = "Content-Length"@[i];
            assert('A' <= c <= 'Z' || 'a' <= c <= 'z' || c == '-');
        }
    }
}

/// The two ways to say what a value gives.
proof fn lemma_gives_number(value: Seq<char>, n: nat)
    ensures
        n <= usize::MAX ==> (gives_number(value, n) <==> parsed_length(value) == Some(n as usize)),
        n > usize::MAX && gives_number(value, n) ==> parsed_length(value) is None,
{
    if gives_number(value, n) {
        let d = choose|d: Seq<char>|
            {
                &&& value == d || value == seq!['+'] + d
                &&& d.len() > 0
                &&& forall|i: int| 0 <= i < d.len() ==> '0' <= #[trigger] d[i] <= '9'
                &&& #[trigger] digits_value(d) == n
            };
        assert('0' <= d[0] <= '9');
        assert(crate::text::length_digits(value) =~= d);
    }
    if n <= usize::MAX && parsed_length(value) == Some(n as usize) {
        let d = crate::text::length_digits(value);
        if value.len() > 0 && value[0] == '+' {
            assert(value =~= seq!['+'] + d);
        }
        assert(digits_value(d) == n);
    }
}

/// What a line of the header does: a line that gives the length in a value that a `usize` can hold
/// sets the length to that number, one with another value for it is an error, any other header line
/// is passed over, and what is no header line is an error. Only the first of these changes the
/// length.
pub proof fn law_header_lines()
    ensures
        forall|
            reader: &mut HeaderReader,
            line: &str,
            r: Result<HeaderStep, Error>,
            name: Seq<char>,
            value: Seq<char>,
            n: nat,
        |
            #![trigger call_ensures(HeaderReader::line, (reader, line), r), is_header(
                line@,
                name,
                value,
            ), gives_number(value, n)]
            call_ensures(HeaderReader::line, (reader, line), r) && is_header(line@, name, value)
                && names_the_length(name) && gives_number(value, n) && n <= usize::MAX ==> {
                &&& r == Ok::<HeaderStep, Error>(HeaderStep::More)
                &&& final(reader).length() == Some(n as usize)
            },
        forall|
            reader: &mut HeaderReader,
            line: &str,
            r: Result<HeaderStep, Error>,
            name: Seq<char>,
            value: Seq<char>,
        |
            #![trigger call_ensures(HeaderReader::line, (reader, line), r), is_header(
                line@,
                name,
                value,
            )]
            call_ensures(HeaderReader::line, (reader, line), r) && is_header(line@, name, value)
                && names_the_length(name) && (forall|n: nat| #[trigger]
                gives_number(value, n) ==> n > usize::MAX) ==> {
                &&& r matches Err(Error::Protocol(text)) && text@ == "Invalid content-length: "@
                    + value
                &&& final(reader).length() == reader.length()
            },
        forall|
            reader: &mut HeaderReader,
            line: &str,
            r: Result<HeaderStep, Error>,
            name: Seq<char>,
            value: Seq<char>,
        |
            #![trigger call_ensures(HeaderReader::line, (reader, line), r), is_header(
                line@,
                name,
                value,
            )]
            call_ensures(HeaderReader::line, (reader, line), r) && is_header(line@, name, value)
                && !names_the_length(name) ==> {
                &&& r == Ok::<HeaderStep, Error>(HeaderStep::More)
                &&& final(reader).length() == reader.length()
            },
        forall|reader: &mut HeaderReader, line: &str, r: Result<HeaderStep, Error>| #[trigger]
            call_ensures(HeaderReader::line, (reader, line), r) && line@.len() > 0 && line@ != seq![
                '\r',
                '\n',
            ] && (forall|name: Seq<char>, value: Seq<char>|
                !#[trigger] is_header(line@, name, value)) ==> {
                &&& r matches Err(Error::Protocol(text)) && text@ == "Invalid header: "@ + quoted(
                    line@,
                )
                &&& final(reader).length() == reader.length()
            },
{
    assert forall|
        reader: &mut HeaderReader,
        line: &str,
        r: Result<HeaderStep, Error>,
        name: Seq<char>,
        value: Seq<char>,
        n: nat,
    |
        #![trigger call_ensures(HeaderReader::line, (reader, line), r), is_header(
            line@,
            name,
            value,
        ), gives_number(value, n)]
        call_ensures(HeaderReader::line, (reader, line), r) && is_header(line@, name, value)
            && names_the_length(name) && gives_number(value, n) && n <= usize::MAX implies {
        &&& r == Ok::<HeaderStep, Error>(HeaderStep::More)
        &&& final(reader).length() == Some(n as usize)
    } by {
        lemma_header_says(line@, name, value);
        lemma_gives_number(value, n);
    }
    assert forall|
        reader: &mut HeaderReader,
        line: &str,
        r: Result<HeaderStep, Error>,
        name: Seq<char>,
        value: Seq<char>,
    |
        #![trigger call_ensures(HeaderReader::line, (reader, line), r), is_header(
            line@,
            name,
            value,
        )]
        call_ensures(HeaderReader::line, (reader, line), r) && is_header(line@, name, value)
            && names_the_length(name) && (forall|n: nat| #[trigger]
            gives_number(value, n) ==> n > usize::MAX) implies {
        &&& r matches Err(Error::Protocol(text)) && text@ == "Invalid content-length: "@ + value
        &&& final(reader).length() == reader.length()
    } by {
        lemma_header_says(line@, name, value);
        if parsed_length(value) is Some {
            lemma_gives_number(value, parsed_length(value)->0 as nat);
        }
    }
    assert forall|
        reader: &mut HeaderReader,
        line: &str,
        r: Result<HeaderStep, Error>,
        name: Seq<char>,
        value: Seq<char>,
    |
        #![trigger call_ensures(HeaderReader::line, (reader, line), r), is_header(
            line@,
            name,
            value,
        )]
        call_ensures(HeaderReader::line, (reader, line), r) && is_header(line@, name, value)
            && !names_the_length(name) implies {
        &&& r == Ok::<HeaderStep, Error>(HeaderStep::More)
        &&& final(reader).length() == reader.length()
    } by {
        lemma_header_says(line@, name, value);
    }
    assert forall|reader: &mut HeaderReader, line: &str, r: Result<HeaderStep, Error>| #[trigger]
        call_ensures(HeaderReader::line, (reader, line), r) && line@.len() > 0 && line@ != seq![
            '\r',
            '\n',
        ] && (forall|name: Seq<char>, value: Seq<char>|
            !#[trigger] is_header(line@, name, value)) implies {
        &&& r matches Err(Error::Protocol(text)) && text@ == "Invalid header: "@ + quoted(line@)
        &&& final(reader).length() == reader.length()
    } by {
        lemma_no_header_says(line@);
    }
}

/// What a header line says.
proof fn lemma_header_says(line: Seq<char>, name: Seq<char>, value: Seq<char>)
    requires
        is_header(line, name, value),
    ensures
        line.len() > 0,
        header_line(line) == (if names_the_length(name) {
            match parsed_length(value) {
                Some(n) => HeaderLine::Length(n),
                None => HeaderLine::BadLength(value),
            }
        } else {
            HeaderLine::Other
        }),
{
    lemma_header_found(line, name, value);
    lemma_names_the_length(name);
    let h = stripped(line);
    let i = choose|i: int| first_separator_at(h, i);
    assert(first_separator_at(h, name.len() as int));
    assert(first_separator_at(h, i));
}

/// What is no header line is malformed.
proof fn lemma_no_header_says(line: Seq<char>)
    requires
        line != seq!['\r', '\n'],
        forall|name: Seq<char>, value: Seq<char>| !#[trigger] is_header(line, name, value),
    ensures
        header_line(line) is Malformed,
{
    let h = stripped(line);
    if ends_in_crlf(line) && exists|i: int| first_separator_at(h, i) {
        let i = choose|i: int| first_separator_at(h, i);
        assert(first_separator_at(h, i));
        assert(separator_at(h, i));
        let name = h.take(i);
        let value = h.skip(i + 2);
        assert(line =~= name + seq![':', ' '] + value + seq!['\r', '\n']);
        assert forall|j: int|
            #![trigger name[j]]
            0 <= j && j + 1 < name.len() implies !(name[j] == ':' && name[j + 1] == ' ') by {
            assert(!separator_at(h, j));
        }
        assert(is_header(line, name, value));
    }
}

/// Where the header ends: the body is as long as the last length that a line gave. Without one, and
/// where the input ends, there is an error. A reader that has read nothing has no length.
pub proof fn law_header_ends()
    ensures
        forall|reader: HeaderReader| #[trigger]
            call_ensures(HeaderReader::new, (), reader) ==> reader.length() is None,
        forall|reader: &mut HeaderReader, line: &str, r: Result<HeaderStep, Error>| #[trigger]
            call_ensures(HeaderReader::line, (reader, line), r) && line@ == seq!['\r', '\n'] ==> {
                &&& reader.length() matches Some(n) ==> r == Ok::<HeaderStep, Error>(
                    HeaderStep::Body(n),
                )
                &&& reader.length() is None ==> (r matches Err(Error::Protocol(text)) && text@
                    == "Missing content-length"@)
                &&& final(reader).length() == reader.length()
            },
        forall|reader: &mut HeaderReader, line: &str, r: Result<HeaderStep, Error>| #[trigger]
            call_ensures(HeaderReader::line, (reader, line), r) && line@.len() == 0 ==> {
                &&& r == Err::<HeaderStep, Error>(Error::Eof)
                &&& final(reader).length() == reader.length()
            },
{
}

/// Whether the bytes are one line: they end in a line feed, and hold no other.
pub open spec fn one_line(b: Seq<u8>) -> bool {
    &&& b.len() > 0
    &&& b.last() == 10u8
    &&& forall|i: int| 0 <= i < b.len() - 1 ==> #[trigger] b[i] != 10u8
}

/// Whether the bytes are a header line of another name than `Content-Length`.
pub open spec fn other_header(b: Seq<u8>) -> bool {
    one_line(b) && valid_utf8(b) && exists|name: Seq<char>, value: Seq<char>| #[trigger]
        is_header(decode_utf8(b), name, value) && !names_the_length(name)
}

/// Whether the bytes are a header line that gives the length.
pub open spec fn length_header(b: Seq<u8>, n: nat) -> bool {
    one_line(b) && valid_utf8(b) && exists|name: Seq<char>, value: Seq<char>| #[trigger]
        is_header(decode_utf8(b), name, value) && names_the_length(name) && gives_number(value, n)
}

/// Whether the bytes are a header line that can be read.
pub open spec fn good_header(b: Seq<u8>) -> bool {
    other_header(b) || exists|n: nat| #[trigger] length_header(b, n) && n <= usize::MAX
}

/// The lines one after another.
pub open spec fn lines_of(lines: Seq<Seq<u8>>) -> Seq<u8>
    decreases lines.len(),
{
    if lines.len() == 0 {
        Seq::empty()
    } else {
        lines[0] + lines_of(lines.drop_first())
    }
}

/// Reading goes on behind a line that can be read.
proof fn lemma_line_read(input: Seq<u8>, pos: int, length: Option<usize>, b: Seq<u8>)
    requires
        0 <= pos,
        pos + b.len() <= input.len(),
        input.subrange(pos, pos + b.len()) == b,
        one_line(b),
        valid_utf8(b),
    ensures
        line_end(input, pos) == pos + b.len(),
        other_header(b) ==> reading(input, pos, length) == reading(input, pos + b.len(), length),
        forall|n: nat| #[trigger]
            length_header(b, n) && n <= usize::MAX ==> reading(input, pos, length) == reading(
                input,
                pos + b.len(),
                Some(n as usize),
            ),
{
    assert forall|i: int| pos <= i < pos + b.len() implies #[trigger] input[i] == b[i - pos] by {
        assert(input.subrange(pos, pos + b.len())[i - pos] == input[i]);
    }
    lemma_line_end_at(input, pos, pos + b.len());
    let text = decode_utf8(b);
    if other_header(b) {
        let (name, value) = choose|name: Seq<char>, value: Seq<char>| #[trigger]
            is_header(text, name, value) && !names_the_length(name);
        lemma_header_says(text, name, value);
    }
    assert forall|n: nat| #[trigger] length_header(b, n) && n <= usize::MAX implies reading(
        input,
        pos,
        length,
    ) == reading(input, pos + b.len(), Some(n as usize)) by {
        let (name, value) = choose|name: Seq<char>, value: Seq<char>| #[trigger]
            is_header(text, name, value) && names_the_length(name) && gives_number(value, n);
        lemma_header_says(text, name, value);
        lemma_gives_number(value, n);
    }
}

/// Reading goes on behind lines that can be read.
proof fn lemma_lines_read(
    input: Seq<u8>,
    pos: int,
    length: Option<usize>,
    lines: Seq<Seq<u8>>,
) -> (after: Option<usize>)
    requires
        0 <= pos,
        pos + lines_of(lines).len() <= input.len(),
        input.subrange(pos, pos + lines_of(lines).len()) == lines_of(lines),
        forall|i: int| 0 <= i < lines.len() ==> good_header(#[trigger] lines[i]),
    ensures
        reading(input, pos, length) == reading(input, pos + lines_of(lines).len(), after),
        (forall|i: int| 0 <= i < lines.len() ==> other_header(#[trigger] lines[i])) ==> after
            == length,
    decreases lines.len(),
{
    if lines.len() == 0 {
        length
    } else {
        let b = lines[0];
        let rest = lines.drop_first();
        let all = lines_of(lines);
        assert(good_header(lines[0]));
        assert(input.subrange(pos, pos + b.len()) =~= b) by {
            assert(all.subrange(0, b.len() as int) =~= b);
            assert(input.subrange(pos, pos + b.len()) =~= input.subrange(
                pos,
                pos + all.len(),
            ).subrange(0, b.len() as int));
        }
        lemma_line_read(input, pos, length, b);
        let next: Option<usize> = if other_header(b) {
            length
        } else {
            let n = choose|n: nat| #[trigger] length_header(b, n) && n <= usize::MAX;
            Some(n as usize)
        };
        let at = pos + b.len();
        assert(input.subrange(at, at + lines_of(rest).len()) =~= lines_of(rest)) by {
            assert(all.subrange(b.len() as int, all.len() as int) =~= lines_of(rest));
            assert(input.subrange(at, at + lines_of(rest).len()) =~= input.subrange(
                pos,
                pos + all.len(),
            ).subrange(b.len() as int, all.len() as int));
        }
        assert forall|i: int| 0 <= i < rest.len() implies good_header(#[trigger] rest[i]) by {
            assert(rest[i] == lines[i + 1]);
        }
        if forall|i: int| 0 <= i < lines.len() ==> other_header(#[trigger] lines[i]) {
            assert(other_header(lines[0]));
            assert forall|i: int| 0 <= i < rest.len() implies other_header(#[trigger] rest[i]) by {
                assert(rest[i] == lines[i + 1]);
            }
        }
        lemma_lines_read(input, at, next, rest)
    }
}

/// The bytes of an empty line.
proof fn lemma_empty_line()
    ensures
        one_line(seq![13u8, 10u8]),
        valid_utf8(seq![13u8, 10u8]),
        decode_utf8(seq![13u8, 10u8]) == seq!['\r', '\n'],
{
    let end_line = seq!['\r', '\n'];
    assert(vstd::utf8::is_ascii_chars(end_line));
    lemma_ascii_bytes(end_line);
    assert(encode_utf8(end_line) =~= seq![13u8, 10u8]) by {
        assert(encode_utf8(end_line)[0] as int == end_line[0] as int);
        assert(encode_utf8(end_line)[1] as int == end_line[1] as int);
    }
    vstd::utf8::encode_utf8_valid_utf8(end_line);
    vstd::utf8::encode_utf8_decode_utf8(end_line);
}

/// Whatever headers a message has, its body is the bytes behind the empty line, as many as the last
/// header that gives a length says. What follows is left on the stream. If there are fewer bytes,
/// the stream has ended too early.
pub proof fn law_body_stands_behind_the_header(
    before: Seq<Seq<u8>>,
    length: Seq<u8>,
    n: nat,
    after: Seq<Seq<u8>>,
    tail: Seq<u8>,
)
    requires
        n <= usize::MAX,
        forall|i: int| 0 <= i < before.len() ==> good_header(#[trigger] before[i]),
        length_header(length, n),
        forall|i: int| 0 <= i < after.len() ==> other_header(#[trigger] after[i]),
    ensures
        forall|input: &[u8], r: Result<Frame, Error>| #[trigger]
            call_ensures(Message::read, (input,), r) && input@ == lines_of(before) + length
                + lines_of(after) + seq![13u8, 10u8] + tail ==> {
                &&& tail.len() >= n ==> (r matches Ok(frame) && frame.body@ == tail.take(n as int)
                    && frame.consumed + tail.len() == input@.len() + n)
                &&& tail.len() < n ==> (r matches Err(Error::Io(e)) && io_kind_of(e)
                    == IoKind::UnexpectedEof)
            },
{
    let end = seq![13u8, 10u8];
    let input = lines_of(before) + length + lines_of(after) + end + tail;
    let a = lines_of(before).len() as int;
    let b = a + length.len();
    let c = b + lines_of(after).len();
    assert(input.subrange(0, a) =~= lines_of(before));
    let first = lemma_lines_read(input, 0, None, before);
    assert(input.subrange(a, b) =~= length);
    lemma_line_read(input, a, first, length);
    assert(input.subrange(b, c) =~= lines_of(after));
    assert forall|i: int| 0 <= i < after.len() implies good_header(#[trigger] after[i]) by {
        assert(other_header(after[i]));
    }
    let last = lemma_lines_read(input, b, Some(n as usize), after);
    assert(last == Some(n as usize));
    lemma_empty_line();
    assert(input.subrange(c, c + 2) =~= end);
    lemma_line_read(input, c, last, end);
    assert(reading(input, 0, None) == reading(input, c, last));
    assert(header_line(seq!['\r', '\n']) == HeaderLine::End);
    if tail.len() >= n {
        assert(input.subrange(c + 2, c + 2 + n) =~= tail.take(n as int));
    }
}

/// Reading a message that cannot be read fails with what is wrong behind the headers that could be
/// read: the stream ends, the header ends without a length, a line is no UTF-8 text, is no header,
/// or gives a length that is no number or too large a one.
pub proof fn law_unreadable_messages(before: Seq<Seq<u8>>, bad: Seq<u8>, tail: Seq<u8>)
    requires
        forall|i: int| 0 <= i < before.len() ==> good_header(#[trigger] before[i]),
        one_line(bad),
    ensures
        forall|input: &[u8], r: Result<Frame, Error>| #[trigger]
            call_ensures(Message::read, (input,), r) && input@ == lines_of(before) ==> r == Err::<
                Frame,
                Error,
            >(Error::Eof),
        forall|input: &[u8], r: Result<Frame, Error>| #[trigger]
            call_ensures(Message::read, (input,), r) && input@ == lines_of(before) + bad + tail
                ==> {
                &&& !valid_utf8(bad) ==> (r matches Err(Error::Io(e)) && io_kind_of(e)
                    == IoKind::InvalidData)
                &&& bad == seq![13u8, 10u8] && (forall|i: int|
                    0 <= i < before.len() ==> other_header(#[trigger] before[i])) ==> (
                r matches Err(Error::Protocol(text)) && text@ == "Missing content-length"@)
                &&& valid_utf8(bad) && bad != seq![13u8, 10u8] && (forall|
                    name: Seq<char>,
                    value: Seq<char>,
                |
                    !#[trigger] is_header(decode_utf8(bad), name, value)) ==> (
                r matches Err(Error::Protocol(text)) && text@ == "Invalid header: "@ + quoted(
                    decode_utf8(bad),
                ))
            },
        forall|input: &[u8], r: Result<Frame, Error>, name: Seq<char>, value: Seq<char>|
            #![trigger call_ensures(Message::read, (input,), r), is_header(
                decode_utf8(bad),
                name,
                value,
            )]
            call_ensures(Message::read, (input,), r) && input@ == lines_of(before) + bad + tail
                && valid_utf8(bad) && is_header(decode_utf8(bad), name, value) && names_the_length(
                name,
            ) && (forall|n: nat| #[trigger] gives_number(value, n) ==> n > usize::MAX) ==> (
            r matches Err(Error::Protocol(text)) && text@ == "Invalid content-length: "@ + value),
{
    let a = lines_of(before).len() as int;
    let b = a + bad.len();
    let whole = lines_of(before);
    assert(whole.subrange(0, a) =~= whole);
    let gone = lemma_lines_read(whole, 0, None, before);
    let input = lines_of(before) + bad + tail;
    assert(input.subrange(0, a) =~= lines_of(before));
    let length = lemma_lines_read(input, 0, None, before);
    assert(input.subrange(a, b) =~= bad);
    assert forall|i: int| a <= i < b implies #[trigger] input[i] == bad[i - a] by {}
    lemma_line_end_at(input, a, b);
    lemma_empty_line();
    let text = decode_utf8(bad);
    if valid_utf8(bad) && bad != seq![13u8, 10u8] {
        if text == seq!['\r', '\n'] {
            vstd::utf8::decode_utf8_encode_utf8(bad);
            vstd::utf8::decode_utf8_encode_utf8(seq![13u8, 10u8]);
        }
        if forall|name: Seq<char>, value: Seq<char>| !#[trigger] is_header(text, name, value) {
            lemma_no_header_says(text);
        }
    }
    assert forall|name: Seq<char>, value: Seq<char>| #[trigger]
        is_header(text, name, value) && names_the_length(name) && (forall|n: nat| #[trigger]
        gives_number(value, n) ==> n > usize::MAX) implies header_line(text)
        == HeaderLine::BadLength(value) by {
        lemma_header_says(text, name, value);
        if parsed_length(value) is Some {
            lemma_gives_number(value, parsed_length(value)->0 as nat);
        }
    }
}

/// A message that was written reads back, byte for byte, as the body behind a header that gives its
/// length in decimal, whatever follows it on the stream.
pub proof fn law_written_reads_back(body: Seq<u8>, rest: Seq<u8>)
    requires
        body.len() <= usize::MAX,
    ensures
        forall|input: &[u8], r: Result<Frame, Error>| #[trigger]
            call_ensures(Message::read, (input,), r) && input@ == encode_utf8(
                "Content-Length: "@ + decimal(body.len()) + "\r\n\r\n"@,
            ) + body + rest ==> (r matches Ok(frame) && frame.body@ == body && frame.consumed
                + rest.len() == input@.len()),
{
    lemma_name_and_separator();
    law_read_gives_back_written(body, rest);
}

/// A line that the stream ends in the middle of, without a line feed, is no header, whatever it
/// says.
pub proof fn law_cut_off_lines(before: Seq<Seq<u8>>, part: Seq<u8>)
    requires
        forall|i: int| 0 <= i < before.len() ==> good_header(#[trigger] before[i]),
        part.len() > 0,
        forall|i: int| 0 <= i < part.len() ==> #[trigger] part[i] != 10u8,
    ensures
        forall|input: &[u8], r: Result<Frame, Error>| #[trigger]
            call_ensures(Message::read, (input,), r) && input@ == lines_of(before) + part ==> {
                &&& valid_utf8(part) ==> (r matches Err(Error::Protocol(text)) && text@
                    == "Invalid header: "@ + quoted(decode_utf8(part)))
                &&& !valid_utf8(part) ==> (r matches Err(Error::Io(e)) && io_kind_of(e)
                    == IoKind::InvalidData)
            },
{
    let a = lines_of(before).len() as int;
    let input = lines_of(before) + part;
    assert(input.subrange(0, a) =~= lines_of(before));
    let length = lemma_lines_read(input, 0, None, before);
    assert(input.subrange(a, input.len() as int) =~= part);
    assert forall|i: int| a <= i < input.len() implies #[trigger] input[i] != 10u8 by {
        assert(input[i] == part[i - a]);
    }
    lemma_no_line_end(input, a);
    if valid_utf8(part) {
        let text = decode_utf8(part);
        if text.len() > 0 && text.last() == '\n' {
            lemma_last_byte(text);
            vstd::utf8::decode_utf8_encode_utf8(part);
            assert(part.last() == 10u8);
        }
        assert(!ends_in_crlf(text));
        if text == seq!['\r', '\n'] {
            assert(ends_in_crlf(text));
        }
        assert(header_line(text) is Malformed);
    }
}

/// Without a line feed, a line ends where the input does.
proof fn lemma_no_line_end(input: Seq<u8>, pos: int)
    requires
        0 <= pos <= input.len(),
        forall|i: int| pos <= i < input.len() ==> #[trigger] input[i] != 10u8,
    ensures
        line_end(input, pos) == input.len(),
    decreases input.len() - pos,
{
    if pos < input.len() {
        lemma_no_line_end(input, pos + 1);
    }
}

/// The bytes of a text that ends in a line feed end in that of the line feed.
proof fn lemma_last_byte(text: Seq<char>)
    requires
        text.len() > 0,
        text.last() == '\n',
    ensures
        encode_utf8(text).len() > 0,
        encode_utf8(text).last() == 10u8,
    decreases text.len(),
{
    let rest = text.drop_first();
    if text.len() == 1 {
        assert(vstd::utf8::is_ascii_chars(text));
        lemma_ascii_bytes(text);
        assert(encode_utf8(text)[0] as int == text[0] as int);
    } else {
        assert(rest.last() == '\n');
        lemma_last_byte(rest);
        assert(encode_utf8(text) == vstd::utf8::encode_scalar(text[0] as u32) + encode_utf8(rest));
    }
}

} // verus!
