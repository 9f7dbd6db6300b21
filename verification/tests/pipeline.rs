use a2a_server::executor::AgentEvent;
use a2a_server::handler::{HandlerOutcome, RequestHandler, SendStarted};
use a2a_server::json::JsonValue;
use a2a_server::jsonrpc::{JsonRpcRequest, RequestId};
use a2a_server::store::InMemoryTaskStore;
use a2a_server::types::{Message, Task, TaskState};

fn obj(fields: Vec<(&str, JsonValue)>) -> JsonValue {
    JsonValue::Obj(fields.into_iter().map(|(k, v)| (k.to_string(), v)).collect())
}

fn s(v: &str) -> JsonValue {
    JsonValue::Str(v.to_string())
}

fn send_params(id: &str, text: &str) -> JsonValue {
    obj(vec![
        ("id", s(id)),
        (
            "message",
            obj(vec![
                ("role", s("user")),
                ("parts", JsonValue::Arr(vec![obj(vec![("type", s("text")), ("text", s(text))])])),
            ]),
        ),
    ])
}

fn start_send(handler: &mut RequestHandler, task_id: &str, text: &str) -> SendStarted {
    match handler.handle_message_send(Some(send_params(task_id, text)), RequestId::Number(1))
    {
        Ok(started) => started,
        Err(resp) => panic!("send rejected: {:?}", resp),
    }
}

fn get_task(handler: &RequestHandler, task_id: &str) -> Task {
    let params = obj(vec![("id", s(task_id))]);
    let resp = handler.handle_task_get(Some(params), RequestId::Number(2));
    assert!(resp.error.is_none());
    match resp.result {
        Some(v) => a2a_server::codec::task_from_json(&v).expect("task decodes"),
        None => panic!("no result"),
    }
}

#[test]
fn send_echoes_task_identifier() {
    let mut handler = RequestHandler::new(InMemoryTaskStore::new());
    let started = start_send(&mut handler, "task-1", "hi");
    assert_eq!(started.created.id, "task-1");
    let resp = handler.finish_send(started.created, started.reply_id);
    let task = a2a_server::codec::task_from_json(&resp.result.expect("result")).expect("decodes");
    assert_eq!(task.id, "task-1");
}

#[test]
fn get_unknown_task_is_task_not_found() {
    let handler = RequestHandler::new(InMemoryTaskStore::new());
    let params = obj(vec![("id", s("never-stored"))]);
    let resp = handler.handle_task_get(Some(params), RequestId::Number(3));
    assert!(resp.result.is_none());
    let err = resp.error.expect("error");
    assert_eq!(err.code, -32001);
}

#[test]
fn cancel_existing_task_reports_canceled() {
    let mut handler = RequestHandler::new(InMemoryTaskStore::new());
    let _ = start_send(&mut handler, "task-c", "work");
    let params = obj(vec![("id", s("task-c"))]);
    let (resp, ctx) = handler.handle_task_cancel(Some(params), RequestId::Number(4));
    let task =
        a2a_server::codec::task_from_json(&resp.result.expect("result")).expect("decodes");
    assert_eq!(task.status.state, TaskState::Canceled);
    let ctx = ctx.expect("context to relay");
    assert_eq!(ctx.task_id, "task-c");
    assert_eq!(ctx.message.role, "system");
    // The executor's own cancel outcome never enters the response: it is
    // relayed only after this snapshot is already built.
    let task = get_task(&handler, "task-c");
    assert_eq!(task.status.state, TaskState::Canceled);
}

#[test]
fn cancel_unknown_task_is_task_not_found() {
    let mut handler = RequestHandler::new(InMemoryTaskStore::new());
    let params = obj(vec![("id", s("ghost"))]);
    let (resp, ctx) = handler.handle_task_cancel(Some(params), RequestId::Number(5));
    assert!(ctx.is_none());
    assert_eq!(resp.error.expect("error").code, -32001);
}

#[test]
fn history_accumulates_in_call_order() {
    let mut handler = RequestHandler::new(InMemoryTaskStore::new());
    let _ = start_send(&mut handler, "task-h", "first");
    let second = start_send(&mut handler, "task-h", "second");
    assert_eq!(second.context.history.len(), 2);
    assert_eq!(second.context.history[0].parts[0].text.as_deref(), Some("first"));
    assert_eq!(second.context.history[1].parts[0].text.as_deref(), Some("second"));
    let history = handler.store().get_history("task-h");
    assert_eq!(history.len(), 2);
    assert_eq!(history[0].parts[0].text.as_deref(), Some("first"));
    assert_eq!(history[1].parts[0].text.as_deref(), Some("second"));
}

#[test]
fn unknown_method_is_method_not_found_with_echoed_id() {
    let cases: Vec<Option<RequestId>> = vec![
        Some(RequestId::String("abc".to_string())),
        Some(RequestId::Number(99)),
        None,
    ];
    for id in cases {
        let mut handler = RequestHandler::new(InMemoryTaskStore::new());
        let request = JsonRpcRequest {
            jsonrpc: "2.0".to_string(),
            id: id.clone(),
            method: "tasks/frobnicate".to_string(),
            params: None,
        };
        match handler.handle(request) {
            HandlerOutcome::Reply(resp) => {
                assert_eq!(resp.error.expect("error").code, -32601);
                match id {
                    Some(expected) => assert_eq!(resp.id, expected),
                    None => assert_eq!(resp.id, RequestId::Null),
                }
            },
            _ => panic!("expected an outright reply"),
        }
    }
}

#[test]
fn message_then_completed_settles_task() {
    let mut handler = RequestHandler::new(InMemoryTaskStore::new());
    let _ = start_send(&mut handler, "task-7", "hello");
    let reply = Message::agent_text("hello");
    let completed = Task::new("task-7".to_string()).complete();
    handler.drain_events(
        "task-7",
        vec![AgentEvent::Message(reply), AgentEvent::Completed(completed)],
    );
    let task = get_task(&handler, "task-7");
    assert_eq!(task.status.state, TaskState::Completed);
    // The completion event replaced the record, so the synthesized artifact
    // lives on the snapshot taken between the two events; history keeps both
    // the inbound and the agent message.
    let history = handler.store().get_history("task-7");
    assert_eq!(history.len(), 2);
    assert_eq!(history[0].role, "user");
    assert_eq!(history[1].role, "agent");
}

#[test]
fn message_event_attaches_last_chunk_artifact() {
    let mut handler = RequestHandler::new(InMemoryTaskStore::new());
    let _ = start_send(&mut handler, "task-a", "hello");
    let done = handler.apply_event("task-a", AgentEvent::Message(Message::agent_text("hi!")));
    assert!(!done);
    let task = get_task(&handler, "task-a");
    assert_eq!(task.status.state, TaskState::Working);
    let artifacts = task.artifacts.expect("one synthesized artifact");
    assert_eq!(artifacts.len(), 1);
    assert_eq!(artifacts[0].last_chunk, Some(true));
    assert_eq!(artifacts[0].name.as_deref(), Some("agent message"));
    assert_eq!(artifacts[0].parts[0].text.as_deref(), Some("hi!"));
}

#[test]
fn failed_event_settles_task_as_failed() {
    let mut handler = RequestHandler::new(InMemoryTaskStore::new());
    let started = start_send(&mut handler, "task-8", "boom please");
    // The send reply can be built before the drain finishes: it may still
    // show the pre-terminal snapshot. That race is expected.
    let early = handler.finish_send(started.created, started.reply_id);
    let early_task =
        a2a_server::codec::task_from_json(&early.result.expect("result")).expect("decodes");
    assert_eq!(early_task.status.state, TaskState::Working);
    let done = handler.apply_event("task-8", AgentEvent::Failed("boom".to_string()));
    assert!(done);
    let task = get_task(&handler, "task-8");
    assert_eq!(task.status.state, TaskState::Failed);
}

#[test]
fn status_update_is_stored_verbatim() {
    let mut handler = RequestHandler::new(InMemoryTaskStore::new());
    let _ = start_send(&mut handler, "task-s", "hi");
    let replacement = Task::new("task-s".to_string()).fail();
    let done = handler.apply_event("task-s", AgentEvent::StatusUpdate(replacement));
    assert!(!done);
    let task = get_task(&handler, "task-s");
    assert_eq!(task.status.state, TaskState::Failed);
}

#[test]
fn drain_stops_at_first_terminal_event() {
    let mut handler = RequestHandler::new(InMemoryTaskStore::new());
    let _ = start_send(&mut handler, "task-t", "hi");
    handler.drain_events(
        "task-t",
        vec![
            AgentEvent::Completed(Task::new("task-t".to_string()).complete()),
            AgentEvent::Failed("late".to_string()),
        ],
    );
    let task = get_task(&handler, "task-t");
    assert_eq!(task.status.state, TaskState::Completed);
}

#[test]
fn send_with_bad_params_is_invalid_params() {
    let mut handler = RequestHandler::new(InMemoryTaskStore::new());
    let missing_message = obj(vec![("id", s("task-x"))]);
    match handler.handle_message_send(Some(missing_message), RequestId::Number(6)) {
        Ok(_) => panic!("parameters without a message must be rejected"),
        Err(resp) => assert_eq!(resp.error.expect("error").code, -32602),
    }
    match handler.handle_message_send(None, RequestId::Number(7)) {
        Ok(_) => panic!("missing parameters must be rejected"),
        Err(resp) => assert_eq!(resp.error.expect("error").code, -32602),
    }
}

#[test]
fn get_with_bad_params_is_invalid_params() {
    let handler = RequestHandler::new(InMemoryTaskStore::new());
    let resp = handler.handle_task_get(Some(obj(vec![("id", JsonValue::Int(3))])), RequestId::Null);
    assert_eq!(resp.error.expect("error").code, -32602);
    let resp = handler.handle_task_get(None, RequestId::Null);
    assert_eq!(resp.error.expect("error").code, -32602);
}
