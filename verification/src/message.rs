//! The messages that two peers exchange.
use vstd::prelude::*;

use crate::error::{clone_document, JsonValue, ResponseError};
use crate::outside::null_document;
use crate::table::TableKey;
use crate::text::same_text;

verus! {

/// The identifier of requests and responses.
///
/// Though `null` is technically a valid id for responses, it has no form here since it hardly
/// makes sense for valid communication.
#[derive(Debug, PartialEq, Eq, Hash)]
pub enum RequestId {
    /// A number.
    Number(i32),
    /// A string.
    String(String),
}

/// What tells request identifiers apart.
pub enum RequestIdView {
    /// A number.
    Number(i32),
    /// The characters of a string.
    Text(Seq<char>),
}

impl View for RequestId {
    type V = RequestIdView;

    open spec fn view(&self) -> RequestIdView {
        match *self {
            RequestId::Number(n) => RequestIdView::Number(n),
            RequestId::String(s) => RequestIdView::Text(s@),
        }
    }
}

impl TableKey for RequestId {
    type Id = RequestIdView;

    open spec fn id(&self) -> RequestIdView {
        self@
    }

    fn same(&self, other: &Self) -> (r: bool) {
        match (self, other) {
            (RequestId::Number(a), RequestId::Number(b)) => *a == *b,
            (RequestId::String(a), RequestId::String(b)) => same_text(a.as_str(), b.as_str()),
            _ => false,
        }
    }
}

impl Clone for RequestId {
    fn clone(&self) -> (r: Self)
        ensures
            r == *self,
    {
        match self {
            RequestId::Number(n) => RequestId::Number(*n),
            RequestId::String(s) => RequestId::String(s.clone()),
        }
    }
}

/// The parameters as a message holds them: none for `null`.
pub open spec fn written(params: JsonValue) -> Option<JsonValue> {
    if null_document(params) {
        None
    } else {
        Some(params)
    }
}

/// Whether `params` are the parameters of a message that holds `held`: `null` for none.
pub open spec fn read_from(held: Option<JsonValue>, params: JsonValue) -> bool {
    match held {
        Some(v) => params == v,
        None => null_document(params) && forall|v: JsonValue| #[trigger]
            null_document(v) ==> v == params,
    }
}

/// The parameters as a message holds them: none for `null`.
pub fn write_params(params: &JsonValue) -> (r: Option<&JsonValue>)
    ensures
        match r {
            Some(v) => written(*params) == Some(*v),
            None => written(*params) is None,
        },
{
    if params.is_null() {
        None
    } else {
        Some(params)
    }
}

/// The parameters of a message from what it holds: `null` for none.
pub fn read_params(held: Option<JsonValue>) -> (r: JsonValue)
    ensures
        read_from(held, r),
{
    match held {
        Some(params) => params,
        None => JsonValue::default(),
    }
}

/// The parameters of a message are read back as they were written.
pub proof fn law_params_read_back(params: JsonValue, read: JsonValue)
    requires
        read_from(written(params), read),
    ensures
        read == params,
{
}

/// A dynamic runtime LSP request.
#[derive(Debug)]
pub struct AnyRequest {
    /// The request id.
    pub id: RequestId,
    /// The method to be invoked.
    pub method: String,
    /// The method's params.
    pub params: JsonValue,
}

impl Clone for AnyRequest {
    fn clone(&self) -> (r: Self)
        ensures
            r == *self,
    {
        AnyRequest {
            id: self.id.clone(),
            method: self.method.clone(),
            params: self.params.clone(),
        }
    }
}

/// A dynamic runtime LSP notification.
#[derive(Debug, PartialEq, Eq)]
pub struct AnyNotification {
    /// The method to be invoked.
    pub method: String,
    /// The notification's params.
    pub params: JsonValue,
}

impl Clone for AnyNotification {
    fn clone(&self) -> (r: Self)
        ensures
            r == *self,
    {
        AnyNotification { method: self.method.clone(), params: self.params.clone() }
    }
}

/// A dynamic runtime response.
#[derive(Debug)]
pub struct AnyResponse {
    /// The id of the request that it answers.
    pub id: RequestId,
    /// The result, when the request succeeded.
    pub result: Option<JsonValue>,
    /// The error, when the request failed.
    pub error: Option<ResponseError>,
}

impl Clone for AnyResponse {
    fn clone(&self) -> (r: Self)
        ensures
            r == *self,
    {
        AnyResponse {
            id: self.id.clone(),
            result: clone_document(&self.result),
            error: match &self.error {
                Some(error) => Some(error.clone()),
                None => None,
            },
        }
    }
}

/// A message of either direction.
#[derive(Debug)]
pub enum Message {
    /// A request, to be answered by a response.
    Request(AnyRequest),
    /// The answer to a request.
    Response(AnyResponse),
    /// A notification, which is not answered.
    Notification(AnyNotification),
}

impl Clone for Message {
    fn clone(&self) -> (r: Self)
        ensures
            r == *self,
    {
        match self {
            Message::Request(request) => Message::Request(request.clone()),
            Message::Response(response) => Message::Response(response.clone()),
            Message::Notification(notification) => Message::Notification(notification.clone()),
        }
    }
}

/// The version of JSON-RPC that a message is written in.
#[derive(Clone, Copy, Debug, PartialEq, Eq, Structural)]
pub enum RpcVersion {
    /// Version 2.0.
    V2,
}

/// A message together with the version that it is written in.
#[derive(Debug, PartialEq, Eq)]
pub struct RawMessage<T> {
    /// The version.
    pub jsonrpc: RpcVersion,
    /// The message.
    pub inner: T,
}

impl<T> RawMessage<T> {
    /// A message of version 2.0.
    pub fn new(inner: T) -> (r: Self)
        ensures
            r.jsonrpc == RpcVersion::V2,
            r.inner == inner,
    {
        Self { jsonrpc: RpcVersion::V2, inner }
    }
}

/// Parameters are written unless they are `null`, and read as they were written, `null` for none.
pub proof fn law_parameters_on_the_wire()
    ensures
        forall|p: &JsonValue, w: Option<&JsonValue>| #[trigger]
            call_ensures(write_params, (p,), w) ==> (w is None <==> null_document(*p)) && (
            w matches Some(v) ==> *v == *p),
        forall|p: JsonValue, r: JsonValue| #[trigger]
            call_ensures(read_params, (Some(p),), r) ==> r == p,
        forall|r: JsonValue| #[trigger] call_ensures(read_params, (None,), r) ==> null_document(r),
{
}

/// Ids are the same if and only if both are the same number, or both are strings of the same
/// characters.
pub proof fn law_ids_are_told_apart(a: &RequestId, b: &RequestId)
    ensures
        a@ == b@ <==> match (*a, *b) {
            (RequestId::Number(m), RequestId::Number(n)) => m == n,
            (RequestId::String(s), RequestId::String(t)) => s@ == t@,
            _ => false,
        },
        forall|r: bool| #[trigger]
            call_ensures(<RequestId as TableKey>::same, (a, b), r) ==> r == (a@ == b@),
{
}

} // verus!
