//! JSON-RPC 2.0 messages as the MCP server exchanges them, and how a
//! protocol error is answered.
use vstd::prelude::*;

pub mod error_codes;

use crate::json::JsonValue;
use crate::text::{concat, owned};
use self::error_codes::{INTERNAL_ERROR, INVALID_PARAMS, INVALID_REQUEST, METHOD_NOT_FOUND, PARSE_ERROR};

verus! {

/// The protocol version every message carries.
pub const JSONRPC_VERSION: &'static str = "2.0";

/// The id of a request: a string or a number.
#[derive(Debug, Clone, PartialEq, Eq)]
pub enum RequestId {
    String(String),
    Number(i64),
}

/// A request, or a notification when it has no id.
#[derive(Debug)]
pub struct JsonRpcRequest {
    /// Always "2.0".
    pub jsonrpc: String,
    pub method: String,
    pub params: Option<JsonValue>,
    /// Absent for notifications.
    pub id: Option<RequestId>,
}

impl JsonRpcRequest {
    /// A request with id `id`.
    pub fn new(method: &str, params: Option<JsonValue>, id: RequestId) -> (r: Self)
        ensures
            r.jsonrpc@ == JSONRPC_VERSION@,
            r.method@ == method@,
            r.params == params,
            r.id == Some(id),
    {
        JsonRpcRequest { jsonrpc: owned(JSONRPC_VERSION), method: owned(method), params, id: Some(id) }
    }

    /// A notification: a request without an id, which gets no answer.
    pub fn notification(method: &str, params: Option<JsonValue>) -> (r: Self)
        ensures
            r.jsonrpc@ == JSONRPC_VERSION@,
            r.method@ == method@,
            r.params == params,
            r.id is None,
    {
        JsonRpcRequest { jsonrpc: owned(JSONRPC_VERSION), method: owned(method), params, id: None }
    }

    /// Whether this is a notification (it has no id).
    pub fn is_notification(&self) -> (r: bool)
        ensures
            r == self.id is None,
    {
        self.id.is_none()
    }
}

/// The answer to a request that succeeded.
#[derive(Debug)]
pub struct JsonRpcResponse {
    pub jsonrpc: String,
    pub result: JsonValue,
    /// The id of the request answered.
    pub id: RequestId,
}

impl JsonRpcResponse {
    /// The answer `result` to request `id`.
    pub fn success(result: JsonValue, id: RequestId) -> (r: Self)
        ensures
            r.jsonrpc@ == JSONRPC_VERSION@,
            r.result == result,
            r.id == id,
    {
        JsonRpcResponse { jsonrpc: owned(JSONRPC_VERSION), result, id }
    }
}

/// An error: its code, message and optional data.
#[derive(Debug)]
pub struct JsonRpcError {
    pub code: i32,
    pub message: String,
    pub data: Option<JsonValue>,
}

impl JsonRpcError {
    /// Invalid JSON was received.
    pub fn parse_error(message: &str) -> (r: Self)
        ensures
            r.code == PARSE_ERROR,
            r.message@ == message@,
            r.data is None,
    {
        JsonRpcError { code: PARSE_ERROR, message: owned(message), data: None }
    }

    /// The request is not a valid request object.
    pub fn invalid_request(message: &str) -> (r: Self)
        ensures
            r.code == INVALID_REQUEST,
            r.message@ == message@,
            r.data is None,
    {
        JsonRpcError { code: INVALID_REQUEST, message: owned(message), data: None }
    }

    /// No method `method` exists.
    pub fn method_not_found(method: &str) -> (r: Self)
        ensures
            r.code == METHOD_NOT_FOUND,
            r.message@ == "Method not found: "@ + method@,
            r.data is None,
    {
        JsonRpcError {
            code: METHOD_NOT_FOUND,
            message: concat("Method not found: ", method),
            data: None,
        }
    }

    /// The parameters are not valid.
    pub fn invalid_params(message: &str) -> (r: Self)
        ensures
            r.code == INVALID_PARAMS,
            r.message@ == message@,
            r.data is None,
    {
        JsonRpcError { code: INVALID_PARAMS, message: owned(message), data: None }
    }

    /// Something failed inside the server.
    pub fn internal_error(message: &str) -> (r: Self)
        ensures
            r.code == INTERNAL_ERROR,
            r.message@ == message@,
            r.data is None,
    {
        JsonRpcError { code: INTERNAL_ERROR, message: owned(message), data: None }
    }
}

/// The answer to a request that failed.
#[derive(Debug)]
pub struct JsonRpcErrorResponse {
    pub jsonrpc: String,
    pub error: JsonRpcError,
    /// The id of the request, when it could be read.
    pub id: Option<RequestId>,
}

impl JsonRpcErrorResponse {
    /// The error answer `error` to request `id`.
    pub fn new(error: JsonRpcError, id: Option<RequestId>) -> (r: Self)
        ensures
            r.jsonrpc@ == JSONRPC_VERSION@,
            r.error == error,
            r.id == id,
    {
        JsonRpcErrorResponse { jsonrpc: owned(JSONRPC_VERSION), error, id }
    }
}

/// A message that is a request, an answer or an error answer.
#[derive(Debug)]
pub enum JsonRpcMessage {
    Request(JsonRpcRequest),
    Response(JsonRpcResponse),
    ErrorResponse(JsonRpcErrorResponse),
}

/// What went wrong while serving a message. Errors of the JSON reader and
/// of input and output are kept as their messages.
#[derive(Debug, Clone)]
pub enum ProtocolError {
    JsonParse(String),
    InvalidRequest(String),
    MethodNotFound(String),
    InvalidParams(String),
    Internal(String),
    Io(String),
    ToolError(String),
}

/// The code of the answer to a protocol error.
pub open spec fn error_code(e: ProtocolError) -> i32 {
    match e {
        ProtocolError::JsonParse(_) => PARSE_ERROR,
        ProtocolError::InvalidRequest(_) => INVALID_REQUEST,
        ProtocolError::MethodNotFound(_) => METHOD_NOT_FOUND,
        ProtocolError::InvalidParams(_) => INVALID_PARAMS,
        _ => INTERNAL_ERROR,
    }
}

/// The message of the answer to a protocol error: its text, or for a
/// missing method `Method not found: ` and the method.
pub open spec fn error_message(e: ProtocolError) -> Seq<char> {
    match e {
        ProtocolError::JsonParse(m) => m@,
        ProtocolError::InvalidRequest(m) => m@,
        ProtocolError::MethodNotFound(m) => "Method not found: "@ + m@,
        ProtocolError::InvalidParams(m) => m@,
        ProtocolError::Internal(m) => m@,
        ProtocolError::Io(m) => m@,
        ProtocolError::ToolError(m) => m@,
    }
}

impl ProtocolError {
    /// The error answer to this error, for request `id`.
    pub fn to_error_response(&self, id: Option<RequestId>) -> (r: JsonRpcErrorResponse)
        ensures
            r.jsonrpc@ == JSONRPC_VERSION@,
            r.error.code == error_code(*self),
            r.error.message@ == error_message(*self),
            r.error.data is None,
            r.id == id,
    {
        let error = match self {
            ProtocolError::JsonParse(m) => JsonRpcError::parse_error(m.as_str()),
            ProtocolError::InvalidRequest(m) => JsonRpcError::invalid_request(m.as_str()),
            ProtocolError::MethodNotFound(m) => JsonRpcError::method_not_found(m.as_str()),
            ProtocolError::InvalidParams(m) => JsonRpcError::invalid_params(m.as_str()),
            ProtocolError::Internal(m) => JsonRpcError::internal_error(m.as_str()),
            ProtocolError::Io(m) => JsonRpcError::internal_error(m.as_str()),
            ProtocolError::ToolError(m) => JsonRpcError::internal_error(m.as_str()),
        };
        JsonRpcErrorResponse::new(error, id)
    }
}

} // verus!
