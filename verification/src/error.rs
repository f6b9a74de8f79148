//! Error codes, error responses and the errors of the library.
use vstd::prelude::*;
use vstd::string::{to_string_from_display_ensures, StringExecFns};

use crate::text::{append_signed_decimal, decimal, joined, signed_decimal};

verus! {

/// A JSON document.
pub type JsonValue = serde_json::Value;

/// A JSON-RPC error code.
///
/// The codes that are defined or used by LSP are associated constants, eg.
/// [`ErrorCode::REQUEST_FAILED`].
#[derive(Clone, Copy, Debug, PartialEq, Eq, Structural, PartialOrd, Ord, Hash)]
pub struct ErrorCode(pub i32);

impl ErrorCode {
    /// Invalid JSON was received by the server. An error occurred on the server while parsing the
    /// JSON text.
    pub const PARSE_ERROR: i32 = -32700;

    /// The JSON sent is not a valid Request object.
    pub const INVALID_REQUEST: i32 = -32600;

    /// The method does not exist / is not available.
    pub const METHOD_NOT_FOUND: i32 = -32601;

    /// Invalid method parameter(s).
    pub const INVALID_PARAMS: i32 = -32602;

    /// Internal JSON-RPC error.
    pub const INTERNAL_ERROR: i32 = -32603;

    /// The start of the range of error codes that JSON-RPC reserves. It doesn't denote a real
    /// error code. No LSP error codes should be defined between the start and end of the range.
    /// For backwards compatibility `SERVER_NOT_INITIALIZED` and `UNKNOWN_ERROR_CODE` are left in
    /// the range.
    pub const JSONRPC_RESERVED_ERROR_RANGE_START: i32 = -32099;

    /// A server received a notification or request before it has received the `initialize`
    /// request.
    pub const SERVER_NOT_INITIALIZED: i32 = -32002;

    /// An unknown error.
    pub const UNKNOWN_ERROR_CODE: i32 = -32001;

    /// The end of the range of error codes that JSON-RPC reserves. It doesn't denote a real error
    /// code.
    pub const JSONRPC_RESERVED_ERROR_RANGE_END: i32 = -32000;

    /// The start of the range of error codes that LSP reserves. It doesn't denote a real error
    /// code.
    pub const LSP_RESERVED_ERROR_RANGE_START: i32 = -32899;

    /// A request failed but it was syntactically correct, e.g the method name was known and the
    /// parameters were valid. The error message should contain human readable information about
    /// why the request failed.
    pub const REQUEST_FAILED: i32 = -32803;

    /// The server cancelled the request. This error code should only be used for requests that
    /// explicitly support being server cancellable.
    pub const SERVER_CANCELLED: i32 = -32802;

    /// The server detected that the content of a document got modified outside normal conditions.
    pub const CONTENT_MODIFIED: i32 = -32801;

    /// The client has canceled a request and a server has detected the cancel.
    pub const REQUEST_CANCELLED: i32 = -32800;

    /// The end of the range of error codes that LSP reserves. It doesn't denote a real error code.
    pub const LSP_RESERVED_ERROR_RANGE_END: i32 = -32800;

    /// The text that the code is shown as.
    pub open spec fn displayed(&self) -> Seq<char> {
        "jsonrpc error "@ + signed_decimal(self.0 as int)
    }

    /// Shows the code.
    pub fn display(&self) -> (r: String)
        ensures
            r@ == self.displayed(),
    {
        let mut s = "jsonrpc error ".to_string();
        append_signed_decimal(&mut s, self.0);
        s
    }
}

impl From<i32> for ErrorCode {
    fn from(i: i32) -> (r: Self) {
        Self(i)
    }
}

impl vstd::std_specs::convert::FromSpecImpl<i32> for ErrorCode {
    open spec fn obeys_from_spec() -> bool {
        true
    }

    open spec fn from_spec(i: i32) -> Self {
        ErrorCode(i)
    }
}

/// The error object in case a request fails.
#[non_exhaustive]
#[derive(Debug)]
pub struct ResponseError {
    /// A number indicating the error type that occurred.
    pub code: ErrorCode,
    /// A string providing a short description of the error.
    pub message: String,
    /// A primitive or structured value that contains additional information about the error. Can
    /// be omitted.
    pub data: Option<JsonValue>,
}

/// A copy of an optional document.
pub(crate) fn clone_document(document: &Option<JsonValue>) -> (r: Option<JsonValue>)
    ensures
        r == *document,
{
    match document {
        Some(v) => Some(v.clone()),
        None => None,
    }
}

impl Clone for ResponseError {
    fn clone(&self) -> (r: Self)
        ensures
            r == *self,
    {
        ResponseError {
            code: self.code,
            message: self.message.clone(),
            data: clone_document(&self.data),
        }
    }
}

impl ResponseError {
    /// Whether the error has the given code and message, and no additional data.
    pub open spec fn says(&self, code: i32, message: Seq<char>) -> bool {
        &&& self.code == ErrorCode(code)
        &&& self.message@ == message
        &&& self.data is None
    }

    /// Creates an error object with a JSON-RPC error code and a message.
    #[must_use]
    pub fn new(code: ErrorCode, message: impl core::fmt::Display) -> (r: Self)
        ensures
            r.code == code,
            to_string_from_display_ensures(&message, r.message),
            r.data is None,
    {
        Self { code, message: message.to_string(), data: None }
    }

    /// Creates an error object with a JSON-RPC error code, a message, and any additional data.
    #[must_use]
    pub fn new_with_data(
        code: ErrorCode,
        message: impl core::fmt::Display,
        data: JsonValue,
    ) -> (r: Self)
        ensures
            r.code == code,
            to_string_from_display_ensures(&message, r.message),
            r.data == Some(data),
    {
        Self { code, message: message.to_string(), data: Some(data) }
    }

    /// An error object of a code and a message, without additional data.
    pub fn plain(code: i32, message: &str) -> (r: Self)
        ensures
            r.says(code, message@),
    {
        Self { code: ErrorCode(code), message: message.to_string(), data: None }
    }

    /// The text that the error is shown as.
    pub open spec fn displayed(&self) -> Seq<char> {
        self.message@ + " ("@ + self.code.displayed() + ")"@
    }

    /// Shows the error: its message, then its code in parentheses.
    pub fn display(&self) -> (r: String)
        ensures
            r@ == self.displayed(),
    {
        let mut s = joined(self.message.as_str(), " (");
        let code = self.code.display();
        s.append(code.as_str());
        s.append(")");
        s
    }
}

/// The kinds of input and output errors that this library makes.
#[derive(Clone, Copy, Debug, PartialEq, Eq, Structural)]
pub enum IoKind {
    /// The input is not of the right form.
    InvalidData,
    /// The input ends too early.
    UnexpectedEof,
    /// Any other kind.
    Other,
}

/// What `std::io::Error::kind` says of an error.
pub uninterp spec fn io_kind_of(e: std::io::Error) -> IoKind;

/// `std::io::Error::kind`: the kind of an error.
#[verifier::external_body]
fn io_kind(e: &std::io::Error) -> (r: IoKind)
    ensures
        r == io_kind_of(*e),
{
    match e.kind() {
        std::io::ErrorKind::InvalidData => IoKind::InvalidData,
        std::io::ErrorKind::UnexpectedEof => IoKind::UnexpectedEof,
        _ => IoKind::Other,
    }
}

/// Possible errors.
#[non_exhaustive]
#[derive(Debug)]
pub enum Error {
    /// The service main loop stopped.
    ServiceStopped,
    /// The peer replies undecodable or invalid responses.
    Deserialize(serde_json::Error),
    /// The peer replies an error.
    Response(ResponseError),
    /// The peer violates the Language Server Protocol.
    Protocol(String),
    /// Input/output errors from the underlying channels.
    Io(std::io::Error),
    /// The underlying channel reached EOF (end of file).
    Eof,
    /// No handlers for events or mandatory notifications (not starting with `$/`).
    ///
    /// Does not occur when catch-all handlers are installed.
    Routing(String),
}

/// The error underneath another one.
#[derive(Debug)]
pub enum Source<'a> {
    /// An undecodable document.
    Deserialize(&'a serde_json::Error),
    /// An error that the peer replied.
    Response(&'a ResponseError),
    /// An input or output error.
    Io(&'a std::io::Error),
}

impl Error {
    /// Whether the error is a protocol violation with the given description.
    pub open spec fn is_protocol(&self, description: Seq<char>) -> bool {
        *self matches Error::Protocol(text) && text@ == description
    }

    /// Whether the error is a missing handler with the given description.
    pub open spec fn is_routing(&self, description: Seq<char>) -> bool {
        *self matches Error::Routing(text) && text@ == description
    }

    /// Whether `shown` is the text that the error is shown as.
    pub open spec fn shows(&self, shown: Seq<char>) -> bool {
        match *self {
            Error::ServiceStopped => shown == "service stopped"@,
            Error::Deserialize(e) => exists|t: String|
                #[trigger] to_string_from_display_ensures(&e, t) && shown
                    == "deserialization failed: "@ + t@,
            Error::Response(e) => shown == e.displayed(),
            Error::Protocol(text) => shown == "protocol error: "@ + text@,
            Error::Io(e) => exists|t: String|
                #[trigger] to_string_from_display_ensures(&e, t) && shown == t@,
            Error::Eof => shown == "the underlying channel reached EOF"@,
            Error::Routing(text) => shown == text@,
        }
    }

    /// Shows the error.
    pub fn display(&self) -> (r: String)
        ensures
            self.shows(r@),
    {
        match self {
            Error::ServiceStopped => "service stopped".to_string(),
            Error::Deserialize(e) => {
                let t = e.to_string();
                joined("deserialization failed: ", t.as_str())
            },
            Error::Response(e) => e.display(),
            Error::Protocol(text) => joined("protocol error: ", text.as_str()),
            Error::Io(e) => e.to_string(),
            Error::Eof => "the underlying channel reached EOF".to_string(),
            Error::Routing(text) => text.clone(),
        }
    }

    /// The kind of the input or output error, if it is one.
    pub fn io_kind(&self) -> (r: Option<IoKind>)
        ensures
            r == (match *self {
                Error::Io(e) => Some(io_kind_of(e)),
                _ => None,
            }),
    {
        match self {
            Error::Io(e) => Some(io_kind(e)),
            _ => None,
        }
    }

    /// The error underneath this one, if there is one.
    pub fn source(&self) -> (r: Option<Source<'_>>)
        ensures
            r == (match *self {
                Error::Deserialize(e) => Some(Source::Deserialize(&e)),
                Error::Response(e) => Some(Source::Response(&e)),
                Error::Io(e) => Some(Source::Io(&e)),
                _ => None,
            }),
    {
        match self {
            Error::Deserialize(e) => Some(Source::Deserialize(e)),
            Error::Response(e) => Some(Source::Response(e)),
            Error::Io(e) => Some(Source::Io(e)),
            _ => None,
        }
    }
}

impl From<serde_json::Error> for Error {
    fn from(source: serde_json::Error) -> (r: Self) {
        Error::Deserialize(source)
    }
}

impl vstd::std_specs::convert::FromSpecImpl<serde_json::Error> for Error {
    open spec fn obeys_from_spec() -> bool {
        true
    }

    open spec fn from_spec(source: serde_json::Error) -> Self {
        Error::Deserialize(source)
    }
}

impl From<ResponseError> for Error {
    fn from(source: ResponseError) -> (r: Self) {
        Error::Response(source)
    }
}

impl vstd::std_specs::convert::FromSpecImpl<ResponseError> for Error {
    open spec fn obeys_from_spec() -> bool {
        true
    }

    open spec fn from_spec(source: ResponseError) -> Self {
        Error::Response(source)
    }
}

impl From<std::io::Error> for Error {
    fn from(source: std::io::Error) -> (r: Self) {
        Error::Io(source)
    }
}

impl vstd::std_specs::convert::FromSpecImpl<std::io::Error> for Error {
    open spec fn obeys_from_spec() -> bool {
        true
    }

    open spec fn from_spec(source: std::io::Error) -> Self {
        Error::Io(source)
    }
}

/// The codes have the values that JSON-RPC and LSP give them.
pub proof fn law_error_codes()
    ensures
        ErrorCode::PARSE_ERROR == -32700,
        ErrorCode::INVALID_REQUEST == -32600,
        ErrorCode::METHOD_NOT_FOUND == -32601,
        ErrorCode::INVALID_PARAMS == -32602,
        ErrorCode::INTERNAL_ERROR == -32603,
        ErrorCode::JSONRPC_RESERVED_ERROR_RANGE_START == -32099,
        ErrorCode::SERVER_NOT_INITIALIZED == -32002,
        ErrorCode::UNKNOWN_ERROR_CODE == -32001,
        ErrorCode::JSONRPC_RESERVED_ERROR_RANGE_END == -32000,
        ErrorCode::LSP_RESERVED_ERROR_RANGE_START == -32899,
        ErrorCode::REQUEST_FAILED == -32803,
        ErrorCode::SERVER_CANCELLED == -32802,
        ErrorCode::CONTENT_MODIFIED == -32801,
        ErrorCode::REQUEST_CANCELLED == -32800,
        ErrorCode::LSP_RESERVED_ERROR_RANGE_END == -32800,
{
}

/// A number in decimal, with a `-` before it if it is negative.
pub open spec fn written_out(i: int) -> Seq<char> {
    if i < 0 {
        seq!['-'] + decimal((-i) as nat)
    } else {
        decimal(i as nat)
    }
}

/// A code is shown as `jsonrpc error` and its number, an error object as its message with the code
/// in parentheses behind it.
pub proof fn law_error_objects_are_shown()
    ensures
        forall|c: &ErrorCode, r: String| #[trigger]
            call_ensures(ErrorCode::display, (c,), r) ==> r@ == "jsonrpc error "@ + written_out(
                c.0 as int,
            ),
        forall|e: &ResponseError, r: String| #[trigger]
            call_ensures(ResponseError::display, (e,), r) ==> r@ == e.message@ + " ("@ + (
            "jsonrpc error "@ + written_out(e.code.0 as int)) + ")"@,
{
}

/// Every error is shown as what it is, with the text or the error that it holds, and has the error
/// that it holds for its source.
pub proof fn law_errors_are_shown()
    ensures
        forall|e: &Error, r: String| #[trigger]
            call_ensures(Error::display, (e,), r) ==> match *e {
                Error::ServiceStopped => r@ == "service stopped"@,
                Error::Eof => r@ == "the underlying channel reached EOF"@,
                Error::Protocol(text) => r@ == "protocol error: "@ + text@,
                Error::Routing(text) => r@ == text@,
                Error::Response(o) => r@ == o.message@ + " ("@ + ("jsonrpc error "@ + written_out(
                    o.code.0 as int,
                )) + ")"@,
                Error::Deserialize(x) => exists|t: String| #[trigger]
                    to_string_from_display_ensures(&x, t) && r@ == "deserialization failed: "@ + t@,
                Error::Io(x) => exists|t: String| #[trigger]
                    to_string_from_display_ensures(&x, t) && r@ == t@,
            },
        forall|e: &Error, r: Option<Source<'_>>| #[trigger]
            call_ensures(Error::source, (e,), r) ==> match *e {
                Error::Deserialize(x) => r == Some(Source::Deserialize(&x)),
                Error::Response(x) => r == Some(Source::Response(&x)),
                Error::Io(x) => r == Some(Source::Io(&x)),
                _ => r is None,
            },
{
}

/// An error object is made of the code, the message and the data that it is given.
pub proof fn law_error_objects_are_made(code: i32, message: &str)
    ensures
        forall|r: ResponseError| #[trigger]
            call_ensures(ResponseError::plain, (code, message), r) ==> r.code.0 == code
                && r.message@ == message@ && r.data is None,
{
}

/// An error of another crate, and the error object of a peer, become the error that holds them.
pub proof fn law_errors_are_wrapped(
    json: serde_json::Error,
    object: ResponseError,
    io: std::io::Error,
    code: i32,
)
    ensures
        forall|r: Error| #[trigger]
            call_ensures(<Error as From<serde_json::Error>>::from, (json,), r) ==> r
                == Error::Deserialize(json),
        forall|r: Error| #[trigger]
            call_ensures(<Error as From<ResponseError>>::from, (object,), r) ==> r
                == Error::Response(object),
        forall|r: Error| #[trigger]
            call_ensures(<Error as From<std::io::Error>>::from, (io,), r) ==> r == Error::Io(io),
        forall|r: ErrorCode| #[trigger]
            call_ensures(<ErrorCode as From<i32>>::from, (code,), r) ==> r.0 == code,
{
}

} // verus!
