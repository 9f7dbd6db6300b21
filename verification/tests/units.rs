use a2a_server::card::AgentCapabilities;
use a2a_server::error::A2AError;
use a2a_server::greeting::hello_world_reply;
use a2a_server::store::InMemoryTaskStore;
use a2a_server::types::{Artifact, Message, Part, Task, TaskState};

#[test]
fn new_task_starts_working_without_artifacts() {
    let t = Task::new("id-1".to_string());
    assert_eq!(t.id, "id-1");
    assert_eq!(t.status.state, TaskState::Working);
    assert!(t.artifacts.is_none());
}

#[test]
fn complete_and_fail_flip_only_the_status() {
    let t = Task::new("id-2".to_string()).complete();
    assert_eq!(t.status.state, TaskState::Completed);
    let t = Task::new("id-3".to_string()).fail();
    assert_eq!(t.status.state, TaskState::Failed);
    assert!(t.artifacts.is_none());
}

#[test]
fn with_artifact_appends() {
    let a = Artifact {
        name: None,
        description: None,
        parts: vec![Part::text("x")],
        index: None,
        append: None,
        metadata: None,
        last_chunk: None,
    };
    let b = Artifact { name: Some("b".to_string()), ..a.clone() };
    let t = Task::new("id-4".to_string()).with_artifact(a).with_artifact(b);
    let artifacts = t.artifacts.expect("artifacts");
    assert_eq!(artifacts.len(), 2);
    assert_eq!(artifacts[1].name.as_deref(), Some("b"));
}

#[test]
fn message_builders_tag_roles_and_parts() {
    let m = Message::agent_text("hello");
    assert_eq!(m.role, "agent");
    assert_eq!(m.parts.len(), 1);
    assert_eq!(m.parts[0].part_type.as_deref(), Some("text"));
    assert_eq!(m.parts[0].text.as_deref(), Some("hello"));
    let m = Message::user_text("hi").with_part(Part::text("more"));
    assert_eq!(m.role, "user");
    assert_eq!(m.parts.len(), 2);
}

#[test]
fn store_put_get_delete() {
    let mut store = InMemoryTaskStore::new();
    assert!(store.get_task("a").is_none());
    store.store_task(Task::new("a".to_string()));
    let t = store.get_task("a").expect("stored");
    assert_eq!(t.id, "a");
    store.update_task(Task::new("a".to_string()).complete());
    assert_eq!(store.get_task("a").expect("updated").status.state, TaskState::Completed);
    store.delete_task("a");
    assert!(store.get_task("a").is_none());
    store.delete_task("a");
    assert!(store.get_task("a").is_none());
}

#[test]
fn store_history_starts_empty_and_appends() {
    let mut store = InMemoryTaskStore::new();
    assert_eq!(store.get_history("t").len(), 0);
    store.store_message("t", Message::user_text("one"));
    store.store_message("t", Message::agent_text("two"));
    let history = store.get_history("t");
    assert_eq!(history.len(), 2);
    assert_eq!(history[0].role, "user");
    assert_eq!(history[1].role, "agent");
    assert_eq!(store.get_history("other").len(), 0);
}

#[test]
fn greeting_is_plain_by_default() {
    let reply = hello_world_reply(&Message::user_text("hello there"));
    assert_eq!(reply.role, "agent");
    assert_eq!(reply.parts[0].text.as_deref(), Some("Hello World"));
}

#[test]
fn greeting_is_super_when_asked_in_any_case() {
    let reply = hello_world_reply(&Message::user_text("give me a SUPER hello"));
    assert_eq!(reply.parts[0].text.as_deref(), Some("🌟 SUPER HELLO WORLD! 🌟"));
    let reply = hello_world_reply(&Message::user_text("super hi"));
    assert_eq!(reply.parts[0].text.as_deref(), Some("🌟 SUPER HELLO WORLD! 🌟"));
}

#[test]
fn greeting_reads_the_first_text_part() {
    let m = Message::new("user")
        .with_part(Part {
            part_type: None,
            text: None,
            file: None,
            data: None,
            metadata: None,
        })
        .with_text("super greetings");
    let reply = hello_world_reply(&m);
    assert_eq!(reply.parts[0].text.as_deref(), Some("🌟 SUPER HELLO WORLD! 🌟"));
    let empty = Message::new("user");
    let reply = hello_world_reply(&empty);
    assert_eq!(reply.parts[0].text.as_deref(), Some("Hello World"));
}

#[test]
fn errors_render_with_their_kind() {
    let e = A2AError::TaskNotFound("t-9".to_string());
    assert_eq!(e.describe(), "Task not found: t-9");
    let e = A2AError::Custom("odd".to_string());
    assert_eq!(e.describe(), "Custom error: odd");
    let e = A2AError::SerializationError("bad json".to_string());
    assert_eq!(e.describe(), "Serialization error: bad json");
}

#[test]
fn default_capabilities_state_nothing() {
    let c = AgentCapabilities::default();
    assert!(c.streaming.is_none());
    assert!(c.push_notifications.is_none());
    assert!(c.state_transition_history.is_none());
}
