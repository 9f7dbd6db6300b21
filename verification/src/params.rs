//! Validation of inbound envelopes and method parameters, and the wire
//! layout of outbound responses.

use vstd::prelude::*;

use crate::codec::{get_opt_fields, get_opt_i32, get_opt_str, message_from_json,
    message_from_json_spec, opt_i32_from, opt_obj_from, opt_str_from};
use crate::json::{clone_json, lemma_obj_view, lookup, obj_view, JsonVal, JsonValue};
use crate::jsonrpc::{JsonRpcError, JsonRpcErrorView, JsonRpcRequest, JsonRpcRequestView,
    JsonRpcResponse, JsonRpcResponseView, PushNotificationConfig, PushNotificationConfigView,
    RequestId, RequestIdView, TaskIdParams, TaskIdParamsView, TaskQueryParams,
    TaskQueryParamsView, TaskSendParams, TaskSendParamsView};

verus! {

/// The push notification configuration read from a JSON value: a URL is
/// required, a token optional.
pub open spec fn push_from_json_spec(v: JsonVal) -> Option<PushNotificationConfigView> {
    match lookup(v, "url"@) {
        Some(JsonVal::Str(url)) => match opt_str_from(v, "token"@) {
            Some(token) => Some(PushNotificationConfigView { url, token }),
            None => None,
        },
        _ => None,
    }
}

/// The send-call parameters read from a JSON value: a task identifier and a
/// message are required; session identifier, push notification, history
/// length hint, and metadata are optional.
pub open spec fn send_params_from_json_spec(v: JsonVal) -> Option<TaskSendParamsView> {
    match (lookup(v, "id"@), lookup(v, "message"@)) {
        (Some(JsonVal::Str(id)), Some(mv)) => match message_from_json_spec(mv) {
            Some(message) => {
                let push = match lookup(v, "pushNotification"@) {
                    None => Some(None),
                    Some(JsonVal::Null) => Some(None),
                    Some(pv) => match push_from_json_spec(pv) {
                        Some(p) => Some(Some(p)),
                        None => None,
                    },
                };
                match (
                    opt_str_from(v, "sessionId"@),
                    push,
                    opt_i32_from(v, "historyLength"@),
                    opt_obj_from(v, "metadata"@),
                ) {
                    (Some(session_id), Some(push_notification), Some(history_length), Some(
                        metadata,
                    )) => Some(
                        TaskSendParamsView {
                            id,
                            session_id,
                            message,
                            push_notification,
                            history_length,
                            metadata,
                        },
                    ),
                    _ => None,
                }
            },
            None => None,
        },
        _ => None,
    }
}

/// The identifier-only parameters read from a JSON value.
pub open spec fn id_params_from_json_spec(v: JsonVal) -> Option<TaskIdParamsView> {
    match (lookup(v, "id"@), opt_obj_from(v, "metadata"@)) {
        (Some(JsonVal::Str(id)), Some(metadata)) => Some(TaskIdParamsView { id, metadata }),
        _ => None,
    }
}

/// The query parameters read from a JSON value.
pub open spec fn query_params_from_json_spec(v: JsonVal) -> Option<TaskQueryParamsView> {
    match (id_params_from_json_spec(v), opt_i32_from(v, "historyLength"@)) {
        (Some(base), Some(history_length)) => Some(TaskQueryParamsView { base, history_length }),
        _ => None,
    }
}

/// The request envelope read from a JSON value: the version tag and method
/// are required strings; an absent or null identifier is absent; parameters
/// are carried as they came.
pub open spec fn request_from_json_spec(v: JsonVal) -> Option<JsonRpcRequestView> {
    match (lookup(v, "jsonrpc"@), lookup(v, "method"@)) {
        (Some(JsonVal::Str(jsonrpc)), Some(JsonVal::Str(method))) => {
            let id = match lookup(v, "id"@) {
                None => Some(None),
                Some(JsonVal::Null) => Some(None),
                Some(JsonVal::Str(s)) => Some(Some(RequestIdView::Str(s))),
                Some(JsonVal::Int(n)) => Some(Some(RequestIdView::Num(n as i64))),
                Some(_) => None,
            };
            match id {
                Some(id) => {
                    let params = match lookup(v, "params"@) {
                        None => None,
                        Some(JsonVal::Null) => None,
                        Some(pv) => Some(pv),
                    };
                    Some(JsonRpcRequestView { jsonrpc, id, method, params })
                },
                None => None,
            }
        },
        _ => None,
    }
}

pub fn push_from_json(v: &JsonValue) -> (r: Option<PushNotificationConfig>)
    ensures
        match r {
            Some(p) => push_from_json_spec(v@) == Some(p@),
            None => push_from_json_spec(v@) is None,
        },
{
    let url = match v.get("url") {
        Some(JsonValue::Str(s)) => s.clone(),
        _ => {
            return None;
        },
    };
    match get_opt_str(v, "token") {
        Ok(token) => Some(PushNotificationConfig { url, token }),
        Err(_) => None,
    }
}

pub fn send_params_from_json(v: &JsonValue) -> (r: Option<TaskSendParams>)
    ensures
        match r {
            Some(p) => send_params_from_json_spec(v@) == Some(p@),
            None => send_params_from_json_spec(v@) is None,
        },
{
    let id = match v.get("id") {
        Some(JsonValue::Str(s)) => s.clone(),
        _ => {
            return None;
        },
    };
    let message = match v.get("message") {
        Some(mv) => match message_from_json(mv) {
            Some(m) => m,
            None => {
                return None;
            },
        },
        None => {
            return None;
        },
    };
    let push_notification = match v.get("pushNotification") {
        None => None,
        Some(JsonValue::Null) => None,
        Some(pv) => match push_from_json(pv) {
            Some(p) => Some(p),
            None => {
                return None;
            },
        },
    };
    let session_id = match get_opt_str(v, "sessionId") {
        Ok(o) => o,
        Err(_) => {
            return None;
        },
    };
    let history_length = match get_opt_i32(v, "historyLength") {
        Ok(o) => o,
        Err(_) => {
            return None;
        },
    };
    let metadata = match get_opt_fields(v, "metadata") {
        Ok(o) => o,
        Err(_) => {
            return None;
        },
    };
    Some(
        TaskSendParams { id, session_id, message, push_notification, history_length, metadata },
    )
}

pub fn id_params_from_json(v: &JsonValue) -> (r: Option<TaskIdParams>)
    ensures
        match r {
            Some(p) => id_params_from_json_spec(v@) == Some(p@),
            None => id_params_from_json_spec(v@) is None,
        },
{
    let id = match v.get("id") {
        Some(JsonValue::Str(s)) => s.clone(),
        _ => {
            return None;
        },
    };
    match get_opt_fields(v, "metadata") {
        Ok(metadata) => Some(TaskIdParams { id, metadata }),
        Err(_) => None,
    }
}

pub fn query_params_from_json(v: &JsonValue) -> (r: Option<TaskQueryParams>)
    ensures
        match r {
            Some(p) => query_params_from_json_spec(v@) == Some(p@),
            None => query_params_from_json_spec(v@) is None,
        },
{
    let base = match id_params_from_json(v) {
        Some(b) => b,
        None => {
            return None;
        },
    };
    match get_opt_i32(v, "historyLength") {
        Ok(history_length) => Some(TaskQueryParams { base, history_length }),
        Err(_) => None,
    }
}

pub fn request_from_json(v: &JsonValue) -> (r: Option<JsonRpcRequest>)
    ensures
        match r {
            Some(req) => request_from_json_spec(v@) == Some(req@),
            None => request_from_json_spec(v@) is None,
        },
{
    let jsonrpc = match v.get("jsonrpc") {
        Some(JsonValue::Str(s)) => s.clone(),
        _ => {
            return None;
        },
    };
    let method = match v.get("method") {
        Some(JsonValue::Str(s)) => s.clone(),
        _ => {
            return None;
        },
    };
    let id = match v.get("id") {
        None => None,
        Some(JsonValue::Null) => None,
        Some(JsonValue::Str(s)) => Some(RequestId::String(s.clone())),
        Some(JsonValue::Int(n)) => Some(RequestId::Number(*n)),
        Some(_) => {
            return None;
        },
    };
    let params = match v.get("params") {
        None => None,
        Some(JsonValue::Null) => None,
        Some(pv) => Some(clone_json(pv)),
    };
    Some(JsonRpcRequest { jsonrpc, id, method, params })
}

/// The wire layout of a request identifier in a response.
pub open spec fn id_to_json_spec(id: RequestIdView) -> JsonVal {
    match id {
        RequestIdView::Str(s) => JsonVal::Str(s),
        RequestIdView::Num(n) => JsonVal::Int(n as int),
        RequestIdView::Null => JsonVal::Null,
    }
}

/// The wire layout of an error object.
pub open spec fn error_to_json_spec(e: JsonRpcErrorView) -> JsonVal {
    JsonVal::Obj(
        seq![("code"@, JsonVal::Int(e.code as int)), ("message"@, JsonVal::Str(e.message))] + (
        match e.data {
            Some(d) => seq![("data"@, d)],
            None => Seq::empty(),
        }),
    )
}

/// The wire layout of a response envelope: the version tag, the echoed
/// identifier, and whichever of result and error is present.
pub open spec fn response_to_json_spec(r: JsonRpcResponseView) -> JsonVal {
    JsonVal::Obj(
        seq![("jsonrpc"@, JsonVal::Str(r.jsonrpc)), ("id"@, id_to_json_spec(r.id))] + (
        match r.result {
            Some(v) => seq![("result"@, v)],
            None => Seq::empty(),
        }) + (match r.error {
            Some(e) => seq![("error"@, error_to_json_spec(e))],
            None => Seq::empty(),
        }),
    )
}

pub fn id_to_json(id: &RequestId) -> (r: JsonValue)
    ensures
        r@ == id_to_json_spec(id@),
{
    match id {
        RequestId::String(s) => JsonValue::Str(s.clone()),
        RequestId::Number(n) => JsonValue::Int(*n),
        RequestId::Null => JsonValue::Null,
    }
}

pub fn error_to_json(e: &JsonRpcError) -> (r: JsonValue)
    ensures
        r@ == error_to_json_spec(e@),
{
    let mut fields: Vec<(String, JsonValue)> = Vec::new();
    fields.push(("code".to_owned(), JsonValue::Int(e.code as i64)));
    fields.push(("message".to_owned(), JsonValue::Str(e.message.clone())));
    match &e.data {
        Some(d) => {
            let ghost before = fields@;
            fields.push(("data".to_owned(), clone_json(d)));
            proof {
                lemma_obj_view(fields@);
                lemma_obj_view(before);
                assert(fields@.drop_last() =~= before);
            }
        },
        None => {},
    }
    proof {
        lemma_obj_view(fields@);
        assert(obj_view(fields@) =~= seq![
            ("code"@, JsonVal::Int(e@.code as int)),
            ("message"@, JsonVal::Str(e@.message)),
        ] + (match e@.data {
            Some(d) => seq![("data"@, d)],
            None => Seq::<(Seq<char>, JsonVal)>::empty(),
        }));
    }
    JsonValue::Obj(fields)
}

pub fn response_to_json(r: &JsonRpcResponse) -> (out: JsonValue)
    ensures
        out@ == response_to_json_spec(r@),
{
    let mut fields: Vec<(String, JsonValue)> = Vec::new();
    fields.push(("jsonrpc".to_owned(), JsonValue::Str(r.jsonrpc.clone())));
    fields.push(("id".to_owned(), id_to_json(&r.id)));
    match &r.result {
        Some(v) => {
            let ghost before = fields@;
            fields.push(("result".to_owned(), clone_json(v)));
            proof {
                lemma_obj_view(fields@);
                lemma_obj_view(before);
                assert(fields@.drop_last() =~= before);
            }
        },
        None => {},
    }
    match &r.error {
        Some(e) => {
            let ghost before = fields@;
            fields.push(("error".to_owned(), error_to_json(e)));
            proof {
                lemma_obj_view(fields@);
                lemma_obj_view(before);
                assert(fields@.drop_last() =~= before);
            }
        },
        None => {},
    }
    proof {
        lemma_obj_view(fields@);
        assert(obj_view(fields@) =~= seq![
            ("jsonrpc"@, JsonVal::Str(r@.jsonrpc)),
            ("id"@, id_to_json_spec(r@.id)),
        ] + (match r@.result {
            Some(v) => seq![("result"@, v)],
            None => Seq::<(Seq<char>, JsonVal)>::empty(),
        }) + (match r@.error {
            Some(e) => seq![("error"@, error_to_json_spec(e))],
            None => Seq::<(Seq<char>, JsonVal)>::empty(),
        }));
    }
    JsonValue::Obj(fields)
}

} // verus!
