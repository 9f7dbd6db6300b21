use a2a_server::codec::{artifact_to_json, message_from_json, message_to_json, part_from_json,
    part_to_json, status_to_json, task_from_json, task_to_json};
use a2a_server::json::JsonValue;
use a2a_server::params::{error_to_json, id_params_from_json, query_params_from_json,
    request_from_json, response_to_json, send_params_from_json};
use a2a_server::jsonrpc::{JsonRpcError, JsonRpcResponse, ErrorCode, RequestId};
use a2a_server::types::{Artifact, Message, Part, Task, TaskState, TaskStatus};

fn obj(fields: Vec<(&str, JsonValue)>) -> JsonValue {
    JsonValue::Obj(fields.into_iter().map(|(k, v)| (k.to_string(), v)).collect())
}

fn s(v: &str) -> JsonValue {
    JsonValue::Str(v.to_string())
}

fn field<'a>(v: &'a JsonValue, name: &str) -> Option<&'a JsonValue> {
    v.get(name)
}

#[test]
fn task_round_trip_keeps_artifacts_absent() {
    let task = Task::new("t-42".to_string());
    let encoded = task_to_json(&task);
    assert!(field(&encoded, "artifacts").is_none());
    let decoded = task_from_json(&encoded).expect("round trip");
    assert_eq!(decoded, task);
    assert!(decoded.artifacts.is_none());
}

#[test]
fn task_round_trip_with_artifacts() {
    let artifact = Artifact {
        name: Some("out".to_string()),
        description: None,
        parts: vec![Part::text("result")],
        index: Some(3),
        append: Some(false),
        metadata: None,
        last_chunk: Some(true),
    };
    let task = Task::new("t-43".to_string()).complete().with_artifact(artifact);
    let encoded = task_to_json(&task);
    let decoded = task_from_json(&encoded).expect("round trip");
    assert_eq!(decoded, task);
}

#[test]
fn task_encodes_id_and_status() {
    let task = Task::new("abc".to_string());
    let encoded = task_to_json(&task);
    assert_eq!(field(&encoded, "id"), Some(&s("abc")));
    let status = field(&encoded, "status").expect("status present");
    assert_eq!(field(status, "state"), Some(&s("working")));
}

#[test]
fn every_state_has_its_kebab_case_spelling() {
    let cases = vec![
        (TaskState::Submitted, "submitted"),
        (TaskState::Working, "working"),
        (TaskState::InputRequired, "input-required"),
        (TaskState::Completed, "completed"),
        (TaskState::Canceled, "canceled"),
        (TaskState::Failed, "failed"),
        (TaskState::Unknown, "unknown"),
    ];
    for (state, spelled) in cases {
        let encoded = status_to_json(&TaskStatus { state });
        assert_eq!(field(&encoded, "state"), Some(&s(spelled)));
    }
}

#[test]
fn part_round_trip_with_file() {
    let json = obj(vec![
        ("type", s("file")),
        ("file", obj(vec![("name", s("a.bin")), ("bytes", s("AAAA"))])),
    ]);
    let part = part_from_json(&json).expect("decodes");
    let encoded = part_to_json(&part);
    let again = part_from_json(&encoded).expect("decodes again");
    assert_eq!(again, part);
}

#[test]
fn message_round_trip() {
    let message = Message::user_text("hi there");
    let encoded = message_to_json(&message);
    let decoded = message_from_json(&encoded).expect("decodes");
    assert_eq!(decoded, message);
}

#[test]
fn message_without_role_is_rejected() {
    let json = obj(vec![("parts", JsonValue::Arr(vec![]))]);
    assert!(message_from_json(&json).is_none());
}

#[test]
fn artifact_encodes_optional_fields_only_when_present() {
    let artifact = Artifact {
        name: None,
        description: None,
        parts: vec![],
        index: None,
        append: None,
        metadata: None,
        last_chunk: Some(true),
    };
    let encoded = artifact_to_json(&artifact);
    assert!(field(&encoded, "name").is_none());
    assert!(field(&encoded, "index").is_none());
    assert_eq!(field(&encoded, "lastChunk"), Some(&JsonValue::Bool(true)));
    assert_eq!(field(&encoded, "parts"), Some(&JsonValue::Arr(vec![])));
}

#[test]
fn send_params_require_id_and_message() {
    assert!(send_params_from_json(&obj(vec![("id", s("x"))])).is_none());
    let good = obj(vec![
        ("id", s("x")),
        ("sessionId", s("sess")),
        ("historyLength", JsonValue::Int(5)),
        ("message", obj(vec![("role", s("user")), ("parts", JsonValue::Arr(vec![]))])),
    ]);
    let p = send_params_from_json(&good).expect("decodes");
    assert_eq!(p.id, "x");
    assert_eq!(p.session_id.as_deref(), Some("sess"));
    assert_eq!(p.history_length, Some(5));
    assert!(p.metadata.is_none());
}

#[test]
fn history_length_out_of_range_is_rejected() {
    let bad = obj(vec![("id", s("x")), ("historyLength", JsonValue::Int(1 << 40))]);
    assert!(query_params_from_json(&bad).is_none());
}

#[test]
fn id_params_require_a_string_id() {
    assert!(id_params_from_json(&obj(vec![("id", JsonValue::Int(1))])).is_none());
    let p = id_params_from_json(&obj(vec![("id", s("ok"))])).expect("decodes");
    assert_eq!(p.id, "ok");
}

#[test]
fn request_decodes_each_id_shape() {
    let with = |extra: Vec<(&str, JsonValue)>| {
        let mut fields = vec![("jsonrpc", s("2.0")), ("method", s("tasks/get"))];
        fields.extend(extra);
        obj(fields)
    };
    let req = request_from_json(&with(vec![("id", s("one"))])).expect("decodes");
    assert_eq!(req.id, Some(RequestId::String("one".to_string())));
    let req = request_from_json(&with(vec![("id", JsonValue::Int(7))])).expect("decodes");
    assert_eq!(req.id, Some(RequestId::Number(7)));
    let req = request_from_json(&with(vec![])).expect("decodes");
    assert_eq!(req.id, None);
    let req = request_from_json(&with(vec![("id", JsonValue::Null)])).expect("decodes");
    assert_eq!(req.id, None);
    assert!(request_from_json(&with(vec![("id", JsonValue::Bool(true))])).is_none());
}

#[test]
fn request_requires_version_and_method() {
    assert!(request_from_json(&obj(vec![("method", s("tasks/get"))])).is_none());
    assert!(request_from_json(&obj(vec![("jsonrpc", s("2.0"))])).is_none());
}

#[test]
fn response_encodes_exactly_one_of_result_and_error() {
    let ok = JsonRpcResponse::success(RequestId::Number(1), JsonValue::Bool(true));
    let encoded = response_to_json(&ok);
    assert_eq!(field(&encoded, "jsonrpc"), Some(&s("2.0")));
    assert_eq!(field(&encoded, "id"), Some(&JsonValue::Int(1)));
    assert_eq!(field(&encoded, "result"), Some(&JsonValue::Bool(true)));
    assert!(field(&encoded, "error").is_none());

    let err = JsonRpcResponse::error(RequestId::Null, JsonRpcError::task_not_found("gone"));
    let encoded = response_to_json(&err);
    assert_eq!(field(&encoded, "id"), Some(&JsonValue::Null));
    assert!(field(&encoded, "result").is_none());
    let eo = field(&encoded, "error").expect("error present");
    assert_eq!(field(eo, "code"), Some(&JsonValue::Int(-32001)));
    assert_eq!(field(eo, "message"), Some(&s("gone")));
}

#[test]
fn error_object_carries_data_when_attached() {
    let e = JsonRpcError::invalid_params("bad").with_data(s("detail"));
    let encoded = error_to_json(&e);
    assert_eq!(field(&encoded, "code"), Some(&JsonValue::Int(-32602)));
    assert_eq!(field(&encoded, "data"), Some(&s("detail")));
}

#[test]
fn error_codes_are_the_closed_set() {
    assert_eq!(ErrorCode::ParseError.as_i32(), -32700);
    assert_eq!(ErrorCode::InvalidRequest.as_i32(), -32600);
    assert_eq!(ErrorCode::MethodNotFound.as_i32(), -32601);
    assert_eq!(ErrorCode::InvalidParams.as_i32(), -32602);
    assert_eq!(ErrorCode::InternalError.as_i32(), -32603);
    assert_eq!(ErrorCode::TaskNotFound.as_i32(), -32001);
}
