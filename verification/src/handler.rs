//! The request handler: validates method parameters, persists inbound
//! messages and task records, prepares executions, applies agent events to
//! the store, and builds the response for each call.
//!
//! The executor itself runs outside the library. A send call therefore splits
//! in two: `handle_message_send` validates and persists, and hands back
//! the context to execute; events coming out of the execution are applied in
//! order with `apply_event`; `finish_send` then reads the snapshot back for
//! the caller. A cancel call likewise returns the context whose cancellation
//! the surrounding program relays to the executor; the response does not
//! depend on that relay's outcome.

use vstd::prelude::*;

use crate::codec::{task_to_json, task_to_json_spec};
use crate::executor::{events_view, AgentEvent, AgentEventView, RequestContext,
    RequestContextView};
use crate::json::{JsonVal, JsonValue};
use crate::jsonrpc::{ErrorCode, JsonRpcError, JsonRpcRequest, JsonRpcResponse,
    JsonRpcResponseView, RequestId, RequestIdView};
use crate::params::{id_params_from_json_spec, id_params_from_json, query_params_from_json_spec,
    query_params_from_json, send_params_from_json_spec, send_params_from_json};
use crate::store::{InMemoryTaskStore, StoreView};
use crate::text::str_eq;
use crate::types::{Artifact, ArtifactView, Message, MessageView, Part, PartView, Task, TaskState,
    TaskStatus, TaskView};
use vstd::string::StringExecFns;

verus! {

/// The artifact synthesized from an agent message: the message's parts under
/// a role-derived name, marked as a last chunk.
pub open spec fn artifact_of_message(m: MessageView) -> ArtifactView {
    ArtifactView {
        name: Some(m.role + " message"@),
        description: None,
        parts: m.parts,
        index: None,
        append: None,
        metadata: None,
        last_chunk: Some(true),
    }
}

/// The task with the artifact appended to its (possibly absent) list.
pub open spec fn task_with_artifact_spec(t: TaskView, a: ArtifactView) -> TaskView {
    TaskView {
        id: t.id,
        status: t.status,
        artifacts: Some(
            match t.artifacts {
                Some(s) => s.push(a),
                None => Seq::<ArtifactView>::empty().push(a),
            },
        ),
    }
}

/// A task's history with one more message, begun afresh when none exists.
pub open spec fn hist_with(s: StoreView, tid: Seq<char>, m: MessageView) -> Seq<MessageView> {
    if s.history.contains_key(tid) {
        s.history[tid].push(m)
    } else {
        Seq::<MessageView>::empty().push(m)
    }
}

/// How one agent event changes the store.
///
/// A message is appended to history and projected onto the task as a
/// synthesized artifact; a status update or completion replaces the record
/// keyed by the event's own task; a failure forces the stored status to
/// Failed. Events arriving after a terminal state still apply, last write
/// winning.
pub open spec fn apply_event_spec(s: StoreView, tid: Seq<char>, ev: AgentEventView) -> StoreView {
    match ev {
        AgentEventView::Message(m) => {
            let history = s.history.insert(tid, hist_with(s, tid, m));
            if s.tasks.contains_key(tid) {
                let t2 = task_with_artifact_spec(s.tasks[tid], artifact_of_message(m));
                StoreView { tasks: s.tasks.insert(t2.id, t2), history }
            } else {
                StoreView { tasks: s.tasks, history }
            }
        },
        AgentEventView::StatusUpdate(t) => StoreView {
            tasks: s.tasks.insert(t.id, t),
            history: s.history,
        },
        AgentEventView::Completed(t) => StoreView {
            tasks: s.tasks.insert(t.id, t),
            history: s.history,
        },
        AgentEventView::Failed(_) => if s.tasks.contains_key(tid) {
            let t = s.tasks[tid];
            let t2 = TaskView {
                id: t.id,
                status: TaskStatus { state: TaskState::Failed },
                artifacts: t.artifacts,
            };
            StoreView { tasks: s.tasks.insert(t2.id, t2), history: s.history }
        } else {
            s
        },
    }
}

/// How a drained event queue changes the store: events apply in emission
/// order, and draining stops after the first terminal event.
pub open spec fn drain_spec(s: StoreView, tid: Seq<char>, evs: Seq<AgentEventView>) -> StoreView
    decreases evs.len(),
{
    if evs.len() == 0 {
        s
    } else {
        let s1 = apply_event_spec(s, tid, evs[0]);
        if evs[0].is_terminal() {
            s1
        } else {
            drain_spec(s1, tid, evs.drop_first())
        }
    }
}

/// The identifier echoed into a response: the request's, or null when the
/// request carried none.
pub open spec fn echoed(id: Option<RequestIdView>) -> RequestIdView {
    match id {
        Some(i) => i,
        None => RequestIdView::Null,
    }
}

/// Whether a response reports the given error code and nothing else.
pub open spec fn is_error_code(r: JsonRpcResponseView, code: i32) -> bool {
    &&& r.jsonrpc == "2.0"@
    &&& r.result is None
    &&& r.error is Some
    &&& r.error->Some_0.code == code
}

/// The parameters of a call, as the mathematical value they parse from.
pub open spec fn opt_params_view(params: Option<JsonValue>) -> Option<JsonVal> {
    match params {
        Some(v) => Some(v@),
        None => None,
    }
}

/// The synthetic cancellation message: role `system`, one text part `cancel`.
pub open spec fn cancel_message_view() -> MessageView {
    MessageView {
        role: "system"@,
        parts: Seq::<PartView>::empty().push(
            PartView {
                part_type: Some("text"@),
                text: Some("cancel"@),
                file: None,
                data: None,
                metadata: None,
            },
        ),
    }
}

/// What a get call answers on a given store: invalid parameters, the missing
/// task, or the snapshot.
pub open spec fn get_post(
    s: StoreView,
    params: Option<JsonVal>,
    id: RequestIdView,
    r: JsonRpcResponseView,
) -> bool {
    &&& r.jsonrpc == "2.0"@
    &&& r.id == id
    &&& match params {
        None => is_error_code(r, ErrorCode::InvalidParams.spec_as_i32()) && r.error->Some_0.message
            == "Missing parameters"@,
        Some(pv) => match query_params_from_json_spec(pv) {
            None => is_error_code(r, ErrorCode::InvalidParams.spec_as_i32()),
            Some(q) => if s.tasks.contains_key(q.base.id) {
                r.error is None && r.result == Some(task_to_json_spec(s.tasks[q.base.id]))
            } else {
                is_error_code(r, ErrorCode::TaskNotFound.spec_as_i32()) && r.error->Some_0.message
                    == "Task not found"@
            },
        },
    }
}

/// What a cancel call does: on an existing task the stored status becomes
/// Canceled and the response carries the canceled snapshot, whatever comes of
/// relaying the cancellation; otherwise the store is untouched and an error
/// is answered.
pub open spec fn cancel_post(
    s0: StoreView,
    s1: StoreView,
    params: Option<JsonVal>,
    id: RequestIdView,
    r: JsonRpcResponseView,
    ctx: Option<RequestContextView>,
) -> bool {
    &&& r.jsonrpc == "2.0"@
    &&& r.id == id
    &&& match params {
        None => {
            &&& s1 == s0
            &&& is_error_code(r, ErrorCode::InvalidParams.spec_as_i32())
            &&& ctx is None
        },
        Some(pv) => match id_params_from_json_spec(pv) {
            None => {
                &&& s1 == s0
                &&& is_error_code(r, ErrorCode::InvalidParams.spec_as_i32())
                &&& ctx is None
            },
            Some(p) => if s0.tasks.contains_key(p.id) {
                let t = s0.tasks[p.id];
                let t2 = TaskView {
                    id: t.id,
                    status: TaskStatus { state: TaskState::Canceled },
                    artifacts: t.artifacts,
                };
                &&& s1.tasks == s0.tasks.insert(t.id, t2)
                &&& s1.history == s0.history
                &&& r.error is None
                &&& r.result == Some(task_to_json_spec(t2))
                &&& ctx is Some
                &&& ctx->Some_0.task_id == p.id
                &&& ctx->Some_0.session_id is None
                &&& ctx->Some_0.message == cancel_message_view()
                &&& ctx->Some_0.history == (if s0.history.contains_key(p.id) {
                    s0.history[p.id]
                } else {
                    Seq::<MessageView>::empty()
                })
            } else {
                &&& s1 == s0
                &&& is_error_code(r, ErrorCode::TaskNotFound.spec_as_i32())
                &&& r.error->Some_0.message == "Task not found"@
                &&& ctx is None
            },
        },
    }
}

/// How starting a send call changes the store: the inbound message is
/// appended to the task's history and a fresh Working record replaces any
/// previous one under that identifier.
pub open spec fn send_persist(s: StoreView, p: crate::jsonrpc::TaskSendParamsView) -> StoreView {
    StoreView {
        tasks: s.tasks.insert(
            p.id,
            TaskView { id: p.id, status: TaskStatus { state: TaskState::Working }, artifacts: None },
        ),
        history: s.history.insert(p.id, hist_with(s, p.id, p.message)),
    }
}

/// A prepared send call: what the surrounding program needs to run the
/// execution and answer the caller afterwards.
pub struct SendStarted {
    /// The context to execute.
    pub context: RequestContext,
    /// The record created for the call, the fallback snapshot of the reply.
    pub created: Task,
    /// The identifier to echo in the reply.
    pub reply_id: RequestId,
}

/// What starting a send call yields: invalid parameters answered at once, or
/// the persisted state and prepared execution.
pub open spec fn send_start_post(
    s0: StoreView,
    s1: StoreView,
    params: Option<JsonVal>,
    id: RequestIdView,
    r: Result<SendStarted, JsonRpcResponse>,
) -> bool {
    match params {
        None => {
            &&& s1 == s0
            &&& r is Err
            &&& is_error_code(r->Err_0@, ErrorCode::InvalidParams.spec_as_i32())
            &&& r->Err_0@.id == id
            &&& r->Err_0@.error->Some_0.message == "Missing parameters"@
        },
        Some(pv) => match send_params_from_json_spec(pv) {
            None => {
                &&& s1 == s0
                &&& r is Err
                &&& is_error_code(r->Err_0@, ErrorCode::InvalidParams.spec_as_i32())
                &&& r->Err_0@.id == id
            },
            Some(p) => {
                &&& r is Ok
                &&& s1 == send_persist(s0, p)
                &&& r->Ok_0.created@ == (TaskView {
                    id: p.id,
                    status: TaskStatus { state: TaskState::Working },
                    artifacts: None,
                })
                &&& r->Ok_0.context@.task_id == p.id
                &&& r->Ok_0.context@.session_id == p.session_id
                &&& r->Ok_0.context@.message == p.message
                &&& r->Ok_0.context@.history == s1.history[p.id]
                &&& r->Ok_0.reply_id@ == id
            },
        },
    }
}

/// The request handler: owns the task store and answers the three calls.
pub struct RequestHandler {
    store: InMemoryTaskStore,
}

impl View for RequestHandler {
    type V = StoreView;

    closed spec fn view(&self) -> StoreView {
        self.store@
    }
}

/// What a whole call does to the handler, by method name.
pub enum HandlerOutcome {
    /// The call is answered outright.
    Reply(JsonRpcResponse),
    /// A send call was persisted; run the execution, then finish the reply.
    SendStarted(SendStarted),
    /// A cancel call was answered; relay the cancellation to the executor.
    CancelReply(JsonRpcResponse, RequestContext),
}

impl RequestHandler {
    /// Whether the handler's store is well formed.
    pub closed spec fn wf(&self) -> bool {
        self.store.wf()
    }

    /// A handler over the given store.
    pub fn new(store: InMemoryTaskStore) -> (r: Self)
        requires
            store.wf(),
        ensures
            r.wf(),
            r@ == store@,
    {
        RequestHandler { store }
    }

    /// The handler's store, for the surrounding program to read.
    pub fn store(&self) -> (r: &InMemoryTaskStore)
        ensures
            r@ == self@,
            r.wf() <==> self.wf(),
    {
        &self.store
    }

    /// The message synthesized for a cancellation context.
    fn cancel_message() -> (r: Message)
        ensures
            r@ == cancel_message_view(),
    {
        Message::new("system").with_text("cancel")
    }

    /// Answers a get call: looks the task up and returns its snapshot.
    pub fn handle_task_get(&self, params: Option<JsonValue>, id: RequestId) -> (r: JsonRpcResponse)
        requires
            self.wf(),
        ensures
            r.wf(),
            get_post(self@, opt_params_view(params), id@, r@),
    {
        let pv = match params {
            Some(pv) => pv,
            None => {
                return JsonRpcResponse::error(id, JsonRpcError::invalid_params(
                    "Missing parameters",
                ));
            },
        };
        let q = match query_params_from_json(&pv) {
            Some(q) => q,
            None => {
                return JsonRpcResponse::error(id, JsonRpcError::invalid_params(
                    "Invalid parameters",
                ));
            },
        };
        match self.store.get_task(q.base.id.as_str()) {
            Some(task) => JsonRpcResponse::success(id, task_to_json(&task)),
            None => JsonRpcResponse::error(id, JsonRpcError::task_not_found("Task not found")),
        }
    }

    /// Answers a cancel call: marks the stored task Canceled, builds the
    /// cancellation context to relay, and returns the canceled snapshot.
    pub fn handle_task_cancel(&mut self, params: Option<JsonValue>, id: RequestId) -> (r: (
        JsonRpcResponse,
        Option<RequestContext>,
    ))
        requires
            old(self).wf(),
        ensures
            final(self).wf(),
            r.0.wf(),
            cancel_post(
                old(self)@,
                final(self)@,
                opt_params_view(params),
                id@,
                r.0@,
                match r.1 {
                    Some(c) => Some(c@),
                    None => None,
                },
            ),
    {
        let pv = match params {
            Some(pv) => pv,
            None => {
                return (
                    JsonRpcResponse::error(id, JsonRpcError::invalid_params("Missing parameters")),
                    None,
                );
            },
        };
        let p = match id_params_from_json(&pv) {
            Some(p) => p,
            None => {
                return (
                    JsonRpcResponse::error(id, JsonRpcError::invalid_params("Invalid parameters")),
                    None,
                );
            },
        };
        let mut task = match self.store.get_task(p.id.as_str()) {
            Some(t) => t,
            None => {
                return (
                    JsonRpcResponse::error(id, JsonRpcError::task_not_found("Task not found")),
                    None,
                );
            },
        };
        task.status.state = TaskState::Canceled;
        let snapshot = task.clone();
        self.store.update_task(task);
        let history = self.store.get_history(p.id.as_str());
        let context = RequestContext {
            task_id: p.id,
            session_id: None,
            message: Self::cancel_message(),
            history,
        };
        (JsonRpcResponse::success(id, task_to_json(&snapshot)), Some(context))
    }

    /// Starts a send call: validates the parameters, persists the inbound
    /// message and the fresh Working record, and prepares the execution.
    pub fn handle_message_send(&mut self, params: Option<JsonValue>, id: RequestId) -> (r:
        Result<SendStarted, JsonRpcResponse>)
        requires
            old(self).wf(),
        ensures
            final(self).wf(),
            send_start_post(old(self)@, final(self)@, opt_params_view(params), id@, r),
    {
        let pv = match params {
            Some(pv) => pv,
            None => {
                return Err(
                    JsonRpcResponse::error(id, JsonRpcError::invalid_params("Missing parameters")),
                );
            },
        };
        let p = match send_params_from_json(&pv) {
            Some(p) => p,
            None => {
                return Err(
                    JsonRpcResponse::error(id, JsonRpcError::invalid_params("Invalid parameters")),
                );
            },
        };
        let task = Task::new(p.id.clone());
        self.store.store_message(task.id.as_str(), p.message.clone());
        let created = task.clone();
        self.store.store_task(task);
        let history = self.store.get_history(p.id.as_str());
        let context = RequestContext {
            task_id: p.id,
            session_id: p.session_id,
            message: p.message,
            history,
        };
        Ok(SendStarted { context, created, reply_id: id })
    }

    /// Finishes a send call: reads the current snapshot back, falling back
    /// to the record created at the start when the read yields nothing.
    pub fn finish_send(&self, created: Task, reply_id: RequestId) -> (r: JsonRpcResponse)
        requires
            self.wf(),
        ensures
            r.wf(),
            r@.id == reply_id@,
            r@.error is None,
            r@.result == Some(
                task_to_json_spec(
                    if self@.tasks.contains_key(created@.id) {
                        self@.tasks[created@.id]
                    } else {
                        created@
                    },
                ),
            ),
    {
        let task = match self.store.get_task(created.id.as_str()) {
            Some(t) => t,
            None => created,
        };
        JsonRpcResponse::success(reply_id, task_to_json(&task))
    }

    /// Dispatches one inbound envelope by method name. A send call comes back
    /// as a prepared execution; a cancel call comes back with the context to
    /// relay; everything else is answered outright, an unrecognized method
    /// with a method-not-found error echoing the request's identifier.
    pub fn handle(&mut self, request: JsonRpcRequest) -> (r: HandlerOutcome)
        requires
            old(self).wf(),
        ensures
            final(self).wf(),
            ({
                let id = echoed(request@.id);
                let pv = request@.params;
                if request@.method == "message/send"@ {
                    match r {
                        HandlerOutcome::SendStarted(st) => send_start_post(
                            old(self)@,
                            final(self)@,
                            pv,
                            id,
                            Ok(st),
                        ),
                        HandlerOutcome::Reply(resp) => send_start_post(
                            old(self)@,
                            final(self)@,
                            pv,
                            id,
                            Err(resp),
                        ),
                        _ => false,
                    }
                } else if request@.method == "tasks/get"@ {
                    match r {
                        HandlerOutcome::Reply(resp) => final(self)@ == old(self)@ && get_post(
                            old(self)@,
                            pv,
                            id,
                            resp@,
                        ),
                        _ => false,
                    }
                } else if request@.method == "tasks/cancel"@ {
                    match r {
                        HandlerOutcome::CancelReply(resp, ctx) => cancel_post(
                            old(self)@,
                            final(self)@,
                            pv,
                            id,
                            resp@,
                            Some(ctx@),
                        ),
                        HandlerOutcome::Reply(resp) => cancel_post(
                            old(self)@,
                            final(self)@,
                            pv,
                            id,
                            resp@,
                            None,
                        ),
                        _ => false,
                    }
                } else {
                    match r {
                        HandlerOutcome::Reply(resp) => {
                            &&& final(self)@ == old(self)@
                            &&& is_error_code(resp@, ErrorCode::MethodNotFound.spec_as_i32())
                            &&& resp@.id == id
                            &&& resp@.error->Some_0.message == "Method not found: "@
                                + request@.method
                        },
                        _ => false,
                    }
                }
            }),
    {
        let id = match request.id {
            Some(i) => i,
            None => RequestId::Null,
        };
        if str_eq(request.method.as_str(), "message/send") {
            match self.handle_message_send(request.params, id) {
                Ok(st) => HandlerOutcome::SendStarted(st),
                Err(resp) => HandlerOutcome::Reply(resp),
            }
        } else if str_eq(request.method.as_str(), "tasks/get") {
            HandlerOutcome::Reply(self.handle_task_get(request.params, id))
        } else if str_eq(request.method.as_str(), "tasks/cancel") {
            let (resp, ctx) = self.handle_task_cancel(request.params, id);
            match ctx {
                Some(c) => HandlerOutcome::CancelReply(resp, c),
                None => HandlerOutcome::Reply(resp),
            }
        } else {
            let msg = "Method not found: ".to_owned().concat(request.method.as_str());
            HandlerOutcome::Reply(
                JsonRpcResponse::error(id, JsonRpcError::method_not_found(msg.as_str())),
            )
        }
    }

    /// Applies one agent event to the store, reporting whether the event
    /// ends the stream.
    pub fn apply_event(&mut self, task_id: &str, event: AgentEvent) -> (done: bool)
        requires
            old(self).wf(),
        ensures
            final(self).wf(),
            final(self)@ == apply_event_spec(old(self)@, task_id@, event@),
            done == event@.is_terminal(),
    {
        match event {
            AgentEvent::Message(msg) => {
                self.store.store_message(task_id, msg.clone());
                match self.store.get_task(task_id) {
                    Some(task) => {
                        let task = task.with_artifact(message_to_artifact(msg));
                        self.store.update_task(task);
                    },
                    None => {},
                }
                proof {
                    assert(final(self)@.tasks =~= apply_event_spec(
                        old(self)@,
                        task_id@,
                        event@,
                    ).tasks);
                    assert(final(self)@.history =~= apply_event_spec(
                        old(self)@,
                        task_id@,
                        event@,
                    ).history);
                    assert(final(self)@ == apply_event_spec(old(self)@, task_id@, event@)) by {
                        assert(final(self)@ =~= apply_event_spec(old(self)@, task_id@, event@));
                    };
                }
                false
            },
            AgentEvent::StatusUpdate(task) => {
                self.store.update_task(task);
                proof {
                    assert(final(self)@ =~= apply_event_spec(old(self)@, task_id@, event@));
                }
                false
            },
            AgentEvent::Completed(task) => {
                self.store.update_task(task);
                proof {
                    assert(final(self)@ =~= apply_event_spec(old(self)@, task_id@, event@));
                }
                true
            },
            AgentEvent::Failed(_) => {
                match self.store.get_task(task_id) {
                    Some(task) => {
                        let task = task.fail();
                        self.store.update_task(task);
                    },
                    None => {},
                }
                proof {
                    assert(final(self)@ =~= apply_event_spec(old(self)@, task_id@, event@));
                }
                true
            },
        }
    }

    /// Applies a whole event stream in order, stopping after the first
    /// terminal event as the drain loop does.
    #[verifier::loop_isolation(false)]
    pub fn drain_events(&mut self, task_id: &str, events: Vec<AgentEvent>)
        requires
            old(self).wf(),
        ensures
            final(self).wf(),
            final(self)@ == drain_spec(old(self)@, task_id@, events_view(events@)),
    {
        let ghost orig = events_view(events@);
        let mut events = events;
        while events.len() > 0
            invariant
                self.wf(),
                drain_spec(old(self)@, task_id@, orig) == drain_spec(
                    self@,
                    task_id@,
                    events_view(events@),
                ),
            decreases events@.len(),
        {
            let ghost before = events_view(events@);
            let ev = events.remove(0);
            proof {
                assert(before[0] == ev@);
                assert(events_view(events@) =~= before.drop_first());
            }
            let ghost s_before = self@;
            let done = self.apply_event(task_id, ev);
            proof {
                assert(drain_spec(s_before, task_id@, before) == if before[0].is_terminal() {
                    self@
                } else {
                    drain_spec(self@, task_id@, before.drop_first())
                });
            }
            if done {
                return;
            }
        }
        proof {
            assert(drain_spec(self@, task_id@, events_view(events@)) == self@);
        }
    }
}

/// The artifact synthesized from an agent message.
pub fn message_to_artifact(message: Message) -> (r: Artifact)
    ensures
        r@ == artifact_of_message(message@),
{
    let name = message.role.clone().concat(" message");
    Artifact {
        name: Some(name),
        description: None,
        parts: message.parts,
        index: None,
        append: None,
        metadata: None,
        last_chunk: Some(true),
    }
}

} // verus!
