//! The agent executor's side of the pipeline: the events an execution emits
//! and the context it is given. The executor itself is an outside capability;
//! the library fixes only the vocabulary it exchanges with the handler.

use vstd::prelude::*;

use crate::types::{messages_view, Message, MessageView, Task, TaskView};

verus! {

/// An event emitted during agent execution.
#[derive(Debug, PartialEq)]
pub enum AgentEvent {
    /// A message from the agent, to be appended to history and projected
    /// into a synthesized artifact.
    Message(Message),
    /// A full replacement of the task record, persisted verbatim.
    StatusUpdate(Task),
    /// A terminal replacement of the task record; draining stops after it.
    Completed(Task),
    /// A terminal failure signal; the stored task transitions to Failed.
    Failed(String),
}

pub enum AgentEventView {
    Message(MessageView),
    StatusUpdate(TaskView),
    Completed(TaskView),
    Failed(Seq<char>),
}

impl View for AgentEvent {
    type V = AgentEventView;

    open spec fn view(&self) -> AgentEventView {
        match self {
            AgentEvent::Message(m) => AgentEventView::Message(m@),
            AgentEvent::StatusUpdate(t) => AgentEventView::StatusUpdate(t@),
            AgentEvent::Completed(t) => AgentEventView::Completed(t@),
            AgentEvent::Failed(e) => AgentEventView::Failed(e@),
        }
    }
}

impl AgentEventView {
    /// Whether the event ends its execution's stream.
    pub open spec fn is_terminal(self) -> bool {
        self is Completed || self is Failed
    }
}

/// The element-wise views of a sequence of events.
pub open spec fn events_view(s: Seq<AgentEvent>) -> Seq<AgentEventView> {
    Seq::new(s.len(), |i: int| s[i]@)
}

/// The context handed to an execution: the task, its inbound message, and
/// the history accumulated at the time of the call.
#[derive(Debug, PartialEq)]
pub struct RequestContext {
    /// Task identifier.
    pub task_id: String,
    /// Session identifier, if provided.
    pub session_id: Option<String>,
    /// Incoming message.
    pub message: Message,
    /// Message history.
    pub history: Vec<Message>,
}

pub struct RequestContextView {
    pub task_id: Seq<char>,
    pub session_id: Option<Seq<char>>,
    pub message: MessageView,
    pub history: Seq<MessageView>,
}

impl View for RequestContext {
    type V = RequestContextView;

    open spec fn view(&self) -> RequestContextView {
        RequestContextView {
            task_id: self.task_id@,
            session_id: crate::types::opt_str_view(self.session_id),
            message: self.message@,
            history: messages_view(self.history@),
        }
    }
}

} // verus!
