//! JSON-RPC envelope vocabulary: request, response, error object, and the
//! method-specific parameter shapes.

use vstd::prelude::*;

use crate::json::{JsonVal, JsonValue};
use crate::types::{opt_obj_view, opt_str_view, Message, MessageView, Task, TaskHistory,
    TaskHistoryView, TaskView};

verus! {

/// The protocol version tag carried by every envelope.
pub fn jsonrpc_version() -> (r: String)
    ensures
        r@ == "2.0"@,
{
    "2.0".to_owned()
}

/// Error codes from the closed set used by the protocol.
#[derive(Debug, Clone, Copy, PartialEq, Eq, Structural)]
pub enum ErrorCode {
    ParseError,
    InvalidRequest,
    MethodNotFound,
    InvalidParams,
    InternalError,
    TaskNotFound,
}

impl ErrorCode {
    /// The numeric wire value of this error code.
    pub open spec fn spec_as_i32(self) -> i32 {
        match self {
            ErrorCode::ParseError => -32700i32,
            ErrorCode::InvalidRequest => -32600i32,
            ErrorCode::MethodNotFound => -32601i32,
            ErrorCode::InvalidParams => -32602i32,
            ErrorCode::InternalError => -32603i32,
            ErrorCode::TaskNotFound => -32001i32,
        }
    }

    pub fn as_i32(self) -> (r: i32)
        ensures
            r == self.spec_as_i32(),
    {
        match self {
            ErrorCode::ParseError => -32700,
            ErrorCode::InvalidRequest => -32600,
            ErrorCode::MethodNotFound => -32601,
            ErrorCode::InvalidParams => -32602,
            ErrorCode::InternalError => -32603,
            ErrorCode::TaskNotFound => -32001,
        }
    }
}

/// A request identifier: a string, a number, or an explicit null.
#[derive(Debug, PartialEq)]
pub enum RequestId {
    String(String),
    Number(i64),
    Null,
}

pub enum RequestIdView {
    Str(Seq<char>),
    Num(i64),
    Null,
}

impl View for RequestId {
    type V = RequestIdView;

    open spec fn view(&self) -> RequestIdView {
        match self {
            RequestId::String(s) => RequestIdView::Str(s@),
            RequestId::Number(n) => RequestIdView::Num(*n),
            RequestId::Null => RequestIdView::Null,
        }
    }
}

impl Clone for RequestId {
    fn clone(&self) -> (r: Self)
        ensures
            r@ == self@,
    {
        match self {
            RequestId::String(s) => RequestId::String(s.clone()),
            RequestId::Number(n) => RequestId::Number(*n),
            RequestId::Null => RequestId::Null,
        }
    }
}

impl From<String> for RequestId {
    fn from(s: String) -> (r: Self) {
        RequestId::String(s)
    }
}

impl vstd::std_specs::convert::FromSpecImpl<String> for RequestId {
    open spec fn obeys_from_spec() -> bool {
        true
    }

    open spec fn from_spec(s: String) -> Self {
        RequestId::String(s)
    }
}

impl From<i64> for RequestId {
    fn from(n: i64) -> (r: Self) {
        RequestId::Number(n)
    }
}

impl vstd::std_specs::convert::FromSpecImpl<i64> for RequestId {
    open spec fn obeys_from_spec() -> bool {
        true
    }

    open spec fn from_spec(n: i64) -> Self {
        RequestId::Number(n)
    }
}

/// An inbound request envelope.
#[derive(Debug, PartialEq)]
pub struct JsonRpcRequest {
    pub jsonrpc: String,
    pub id: Option<RequestId>,
    pub method: String,
    pub params: Option<JsonValue>,
}

pub struct JsonRpcRequestView {
    pub jsonrpc: Seq<char>,
    pub id: Option<RequestIdView>,
    pub method: Seq<char>,
    pub params: Option<JsonVal>,
}

/// The view of an optional request identifier.
pub open spec fn opt_id_view(o: Option<RequestId>) -> Option<RequestIdView> {
    match o {
        Some(id) => Some(id@),
        None => None,
    }
}

/// The view of an optional JSON value.
pub open spec fn opt_json_view(o: Option<JsonValue>) -> Option<JsonVal> {
    match o {
        Some(v) => Some(v@),
        None => None,
    }
}

impl View for JsonRpcRequest {
    type V = JsonRpcRequestView;

    open spec fn view(&self) -> JsonRpcRequestView {
        JsonRpcRequestView {
            jsonrpc: self.jsonrpc@,
            id: opt_id_view(self.id),
            method: self.method@,
            params: opt_json_view(self.params),
        }
    }
}

/// The error member of a response envelope.
#[derive(Debug, PartialEq)]
pub struct JsonRpcError {
    pub code: i32,
    pub message: String,
    pub data: Option<JsonValue>,
}

pub struct JsonRpcErrorView {
    pub code: i32,
    pub message: Seq<char>,
    pub data: Option<JsonVal>,
}

impl View for JsonRpcError {
    type V = JsonRpcErrorView;

    open spec fn view(&self) -> JsonRpcErrorView {
        JsonRpcErrorView {
            code: self.code,
            message: self.message@,
            data: opt_json_view(self.data),
        }
    }
}

impl JsonRpcError {
    /// An error object with the given code and message and no data.
    pub fn new(code: ErrorCode, message: &str) -> (r: Self)
        ensures
            r@ == (JsonRpcErrorView { code: code.spec_as_i32(), message: message@, data: None }),
    {
        JsonRpcError { code: code.as_i32(), message: message.to_owned(), data: None }
    }

    /// This error object with the given structured data attached.
    pub fn with_data(self, data: JsonValue) -> (r: Self)
        ensures
            r@ == (JsonRpcErrorView { code: self@.code, message: self@.message, data: Some(data@) }),
    {
        JsonRpcError { code: self.code, message: self.message, data: Some(data) }
    }

    pub fn parse_error(message: &str) -> (r: Self)
        ensures
            r@ == (JsonRpcErrorView {
                code: ErrorCode::ParseError.spec_as_i32(),
                message: message@,
                data: None,
            }),
    {
        Self::new(ErrorCode::ParseError, message)
    }

    pub fn invalid_request(message: &str) -> (r: Self)
        ensures
            r@ == (JsonRpcErrorView {
                code: ErrorCode::InvalidRequest.spec_as_i32(),
                message: message@,
                data: None,
            }),
    {
        Self::new(ErrorCode::InvalidRequest, message)
    }

    pub fn method_not_found(message: &str) -> (r: Self)
        ensures
            r@ == (JsonRpcErrorView {
                code: ErrorCode::MethodNotFound.spec_as_i32(),
                message: message@,
                data: None,
            }),
    {
        Self::new(ErrorCode::MethodNotFound, message)
    }

    pub fn invalid_params(message: &str) -> (r: Self)
        ensures
            r@ == (JsonRpcErrorView {
                code: ErrorCode::InvalidParams.spec_as_i32(),
                message: message@,
                data: None,
            }),
    {
        Self::new(ErrorCode::InvalidParams, message)
    }

    pub fn internal_error(message: &str) -> (r: Self)
        ensures
            r@ == (JsonRpcErrorView {
                code: ErrorCode::InternalError.spec_as_i32(),
                message: message@,
                data: None,
            }),
    {
        Self::new(ErrorCode::InternalError, message)
    }

    pub fn task_not_found(message: &str) -> (r: Self)
        ensures
            r@ == (JsonRpcErrorView {
                code: ErrorCode::TaskNotFound.spec_as_i32(),
                message: message@,
                data: None,
            }),
    {
        Self::new(ErrorCode::TaskNotFound, message)
    }
}

/// An outbound response envelope: exactly one of result and error is set.
#[derive(Debug, PartialEq)]
pub struct JsonRpcResponse {
    pub jsonrpc: String,
    pub id: RequestId,
    pub result: Option<JsonValue>,
    pub error: Option<JsonRpcError>,
}

pub struct JsonRpcResponseView {
    pub jsonrpc: Seq<char>,
    pub id: RequestIdView,
    pub result: Option<JsonVal>,
    pub error: Option<JsonRpcErrorView>,
}

/// The view of an optional error object.
pub open spec fn opt_error_view(o: Option<JsonRpcError>) -> Option<JsonRpcErrorView> {
    match o {
        Some(e) => Some(e@),
        None => None,
    }
}

impl View for JsonRpcResponse {
    type V = JsonRpcResponseView;

    open spec fn view(&self) -> JsonRpcResponseView {
        JsonRpcResponseView {
            jsonrpc: self.jsonrpc@,
            id: self.id@,
            result: opt_json_view(self.result),
            error: opt_error_view(self.error),
        }
    }
}

impl JsonRpcResponse {
    /// Whether this response is well formed: exactly one of result and error.
    pub open spec fn wf(self) -> bool {
        self@.jsonrpc == "2.0"@ && (self@.result is Some) != (self@.error is Some)
    }

    /// A success response carrying the given result payload.
    pub fn success(id: RequestId, result: JsonValue) -> (r: Self)
        ensures
            r@ == (JsonRpcResponseView {
                jsonrpc: "2.0"@,
                id: id@,
                result: Some(result@),
                error: None,
            }),
            r.wf(),
    {
        JsonRpcResponse { jsonrpc: jsonrpc_version(), id, result: Some(result), error: None }
    }

    /// An error response carrying the given error object.
    pub fn error(id: RequestId, error: JsonRpcError) -> (r: Self)
        ensures
            r@ == (JsonRpcResponseView {
                jsonrpc: "2.0"@,
                id: id@,
                result: None,
                error: Some(error@),
            }),
            r.wf(),
    {
        JsonRpcResponse { jsonrpc: jsonrpc_version(), id, result: None, error: Some(error) }
    }
}

/// Configuration for push notifications.
#[derive(Debug, PartialEq)]
pub struct PushNotificationConfig {
    /// Endpoint where the agent should send notifications.
    pub url: String,
    /// Token included in push notification requests for verification.
    pub token: Option<String>,
}

pub struct PushNotificationConfigView {
    pub url: Seq<char>,
    pub token: Option<Seq<char>>,
}

impl View for PushNotificationConfig {
    type V = PushNotificationConfigView;

    open spec fn view(&self) -> PushNotificationConfigView {
        PushNotificationConfigView { url: self.url@, token: opt_str_view(self.token) }
    }
}

/// Parameters of a send call.
#[derive(Debug, PartialEq)]
pub struct TaskSendParams {
    /// Unique identifier for the task.
    pub id: String,
    /// Optional identifier of the owning session.
    pub session_id: Option<String>,
    /// Message content to send to the agent.
    pub message: Message,
    /// Optional push notification information.
    pub push_notification: Option<PushNotificationConfig>,
    /// Optional hint for how much message history to include.
    pub history_length: Option<i32>,
    /// Optional metadata associated with sending this message.
    pub metadata: Option<Vec<(String, JsonValue)>>,
}

pub struct TaskSendParamsView {
    pub id: Seq<char>,
    pub session_id: Option<Seq<char>>,
    pub message: MessageView,
    pub push_notification: Option<PushNotificationConfigView>,
    pub history_length: Option<i32>,
    pub metadata: Option<Seq<(Seq<char>, JsonVal)>>,
}

/// The view of an optional push notification configuration.
pub open spec fn opt_push_view(o: Option<PushNotificationConfig>) -> Option<
    PushNotificationConfigView,
> {
    match o {
        Some(c) => Some(c@),
        None => None,
    }
}

impl View for TaskSendParams {
    type V = TaskSendParamsView;

    open spec fn view(&self) -> TaskSendParamsView {
        TaskSendParamsView {
            id: self.id@,
            session_id: opt_str_view(self.session_id),
            message: self.message@,
            push_notification: opt_push_view(self.push_notification),
            history_length: self.history_length,
            metadata: opt_obj_view(self.metadata),
        }
    }
}

/// Base parameters for task-identifier-based operations.
#[derive(Debug, PartialEq)]
pub struct TaskIdParams {
    /// Unique identifier of the task.
    pub id: String,
    /// Optional metadata to include with the operation.
    pub metadata: Option<Vec<(String, JsonValue)>>,
}

pub struct TaskIdParamsView {
    pub id: Seq<char>,
    pub metadata: Option<Seq<(Seq<char>, JsonVal)>>,
}

impl View for TaskIdParams {
    type V = TaskIdParamsView;

    open spec fn view(&self) -> TaskIdParamsView {
        TaskIdParamsView { id: self.id@, metadata: opt_obj_view(self.metadata) }
    }
}

/// Parameters for querying task information.
#[derive(Debug, PartialEq)]
pub struct TaskQueryParams {
    pub base: TaskIdParams,
    /// Optional hint for how much history to retrieve.
    pub history_length: Option<i32>,
}

pub struct TaskQueryParamsView {
    pub base: TaskIdParamsView,
    pub history_length: Option<i32>,
}

impl View for TaskQueryParams {
    type V = TaskQueryParamsView;

    open spec fn view(&self) -> TaskQueryParamsView {
        TaskQueryParamsView { base: self.base@, history_length: self.history_length }
    }
}

/// Response payload for task operations, with optional history attached.
#[derive(Debug, PartialEq)]
pub struct TaskResponse {
    pub task: Task,
    pub history: Option<TaskHistory>,
}

pub struct TaskResponseView {
    pub task: TaskView,
    pub history: Option<TaskHistoryView>,
}

impl View for TaskResponse {
    type V = TaskResponseView;

    open spec fn view(&self) -> TaskResponseView {
        TaskResponseView {
            task: self.task@,
            history: match &self.history {
                Some(h) => Some(h@),
                None => None,
            },
        }
    }
}

/// A streaming response wrapper: a result or an error per delivered item.
#[derive(Debug, PartialEq)]
pub struct StreamingResponse {
    pub result: Option<JsonValue>,
    pub error: Option<JsonRpcError>,
}

pub struct StreamingResponseView {
    pub result: Option<JsonVal>,
    pub error: Option<JsonRpcErrorView>,
}

impl View for StreamingResponse {
    type V = StreamingResponseView;

    open spec fn view(&self) -> StreamingResponseView {
        StreamingResponseView {
            result: opt_json_view(self.result),
            error: opt_error_view(self.error),
        }
    }
}

} // verus!
