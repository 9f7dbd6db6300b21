//! Laws the pipeline obeys, proved over the store's transition functions.

use vstd::prelude::*;

use crate::executor::AgentEventView;
use crate::handler::{apply_event_spec, drain_spec, hist_with, send_persist};
use crate::jsonrpc::TaskSendParamsView;
use crate::store::StoreView;
use crate::types::{MessageView, TaskView};

verus! {

/// Whether every stored task record carries the identifier it is keyed by.
/// Every operation of the pipeline keys a record by its own identifier, so
/// this holds of every reachable store.
pub open spec fn tasks_consistent(s: StoreView) -> bool {
    forall|k: Seq<char>| #[trigger]
        s.tasks.contains_key(k) ==> s.tasks[k].id == k
}

/// Persisting a send call keeps the store consistent.
pub proof fn lemma_send_persist_consistent(s: StoreView, p: TaskSendParamsView)
    requires
        tasks_consistent(s),
    ensures
        tasks_consistent(send_persist(s, p)),
{
}

/// Applying an agent event keeps the store consistent.
pub proof fn lemma_apply_event_consistent(s: StoreView, tid: Seq<char>, ev: AgentEventView)
    requires
        tasks_consistent(s),
    ensures
        tasks_consistent(apply_event_spec(s, tid, ev)),
{
}

/// Draining a whole event stream keeps the store consistent.
pub proof fn lemma_drain_consistent(s: StoreView, tid: Seq<char>, evs: Seq<AgentEventView>)
    requires
        tasks_consistent(s),
    ensures
        tasks_consistent(drain_spec(s, tid, evs)),
    decreases evs.len(),
{
    if evs.len() > 0 {
        lemma_apply_event_consistent(s, tid, evs[0]);
        if !evs[0].is_terminal() {
            lemma_drain_consistent(apply_event_spec(s, tid, evs[0]), tid, evs.drop_first());
        }
    }
}

/// The snapshot a send call answers with carries the identifier that was
/// supplied: whether the reply re-reads the store or falls back to the record
/// created at the start, the task's identifier is the created one.
pub proof fn lemma_send_reply_task_id(s: StoreView, created: TaskView)
    requires
        tasks_consistent(s),
    ensures
        (if s.tasks.contains_key(created.id) {
            s.tasks[created.id]
        } else {
            created
        }).id == created.id,
{
}

/// Once a terminal event has been drained, the stored status is terminal —
/// never the initial Working placeholder. A completion replaces the record
/// with the terminal one it carries; a failure forces the stored record to
/// Failed.
pub proof fn lemma_terminal_event_settles(s: StoreView, tid: Seq<char>, ev: AgentEventView)
    requires
        tasks_consistent(s),
        ev.is_terminal(),
        ev matches AgentEventView::Completed(t) ==> t.id == tid
            && t.status.state.is_terminal(),
        ev is Failed ==> s.tasks.contains_key(tid),
    ensures
        apply_event_spec(s, tid, ev).tasks.contains_key(tid),
        apply_event_spec(s, tid, ev).tasks[tid].status.state.is_terminal(),
{
    match ev {
        AgentEventView::Completed(t) => {
            assert(apply_event_spec(s, tid, ev).tasks[tid] == t);
        },
        AgentEventView::Failed(_) => {
            assert(apply_event_spec(s, tid, ev).tasks[tid].status.state
                == crate::types::TaskState::Failed);
        },
        _ => {},
    }
}

/// History accumulates strictly in call order: persisting two send calls to
/// the same task identifier leaves that task's history ending in the two
/// inbound messages, in submission order, after whatever was there before.
pub proof fn lemma_history_call_order(
    s: StoreView,
    p1: TaskSendParamsView,
    p2: TaskSendParamsView,
)
    requires
        p1.id == p2.id,
    ensures
        ({
            let h = send_persist(send_persist(s, p1), p2).history[p1.id];
            &&& send_persist(send_persist(s, p1), p2).history.contains_key(p1.id)
            &&& h =~= (if s.history.contains_key(p1.id) {
                s.history[p1.id]
            } else {
                Seq::<MessageView>::empty()
            }) + seq![p1.message, p2.message]
        }),
{
    let s1 = send_persist(s, p1);
    let s2 = send_persist(s1, p2);
    assert(s1.history[p1.id] == hist_with(s, p1.id, p1.message));
    assert(s2.history[p1.id] == hist_with(s1, p1.id, p2.message));
}

} // verus!
