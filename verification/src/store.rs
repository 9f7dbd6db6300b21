//! The task store: the single source of truth mapping task identifiers to
//! task records and to their message histories.
//!
//! Records are kept as key/value lists with pairwise distinct keys; the view
//! of each list is the finite map it spells.

use vstd::prelude::*;

use crate::text::str_eq;
use crate::types::{messages_view, Message, MessageView, Task, TaskView};

verus! {

/// The finite map spelled by a key/value list, later bindings winning.
pub open spec fn pairs_map<V: View>(s: Seq<(String, V)>) -> Map<Seq<char>, V::V>
    decreases s.len(),
{
    if s.len() == 0 {
        Map::empty()
    } else {
        pairs_map(s.drop_last()).insert(s.last().0@, s.last().1@)
    }
}

/// Whether the keys of a key/value list are pairwise distinct.
pub open spec fn keys_unique<V>(s: Seq<(String, V)>) -> bool {
    forall|i: int, j: int| 0 <= i < j < s.len() ==> s[i].0@ != s[j].0@
}

/// The map of a list holds a key exactly when some pair binds it.
proof fn lemma_pairs_map_contains<V: View>(s: Seq<(String, V)>, k: Seq<char>)
    ensures
        pairs_map(s).contains_key(k) <==> exists|i: int| 0 <= i < s.len() && s[i].0@ == k,
    decreases s.len(),
{
    if s.len() > 0 {
        lemma_pairs_map_contains::<V>(s.drop_last(), k);
        if s.last().0@ == k {
            assert(s[s.len() - 1].0@ == k);
        } else {
            if pairs_map(s).contains_key(k) {
                let i = choose|i: int| 0 <= i < s.drop_last().len() && s.drop_last()[i].0@ == k;
                assert(s[i].0@ == k);
            }
            if exists|i: int| 0 <= i < s.len() && s[i].0@ == k {
                let i = choose|i: int| 0 <= i < s.len() && s[i].0@ == k;
                assert(s.drop_last()[i].0@ == k);
            }
        }
    }
}

/// With distinct keys, the map of a list sends each bound key to its value.
proof fn lemma_pairs_map_index<V: View>(s: Seq<(String, V)>, i: int)
    requires
        keys_unique(s),
        0 <= i < s.len(),
    ensures
        pairs_map(s).contains_key(s[i].0@),
        pairs_map(s)[s[i].0@] == s[i].1@,
    decreases s.len(),
{
    if i == s.len() - 1 {
    } else {
        assert(s.drop_last()[i] == s[i]);
        lemma_pairs_map_index::<V>(s.drop_last(), i);
        assert(s[i].0@ != s.last().0@);
    }
}

/// With distinct keys, removing a pair removes exactly its key from the map.
proof fn lemma_pairs_map_remove<V: View>(s: Seq<(String, V)>, i: int)
    requires
        keys_unique(s),
        0 <= i < s.len(),
    ensures
        pairs_map(s.remove(i)) =~= pairs_map(s).remove(s[i].0@),
    decreases s.len(),
{
    if i == s.len() - 1 {
        assert(s.remove(i) =~= s.drop_last());
        lemma_pairs_map_contains::<V>(s.drop_last(), s[i].0@);
        assert(forall|j: int| 0 <= j < s.drop_last().len() ==> s.drop_last()[j].0@ != s[i].0@);
        assert(!pairs_map(s.drop_last()).contains_key(s[i].0@));
        assert(pairs_map(s) == pairs_map(s.drop_last()).insert(s.last().0@, s.last().1@));
        assert(pairs_map(s).remove(s[i].0@) =~= pairs_map(s.drop_last()));
    } else {
        assert(s.drop_last()[i] == s[i]);
        lemma_pairs_map_remove::<V>(s.drop_last(), i);
        let t = s.remove(i);
        assert(t.len() == s.len() - 1);
        assert(t.last() == s.last());
        assert(t.drop_last() =~= s.drop_last().remove(i));
        assert(pairs_map(t) == pairs_map(t.drop_last()).insert(t.last().0@, t.last().1@));
        assert(s[i].0@ != s.last().0@);
        assert(pairs_map(s.remove(i)) =~= pairs_map(s).remove(s[i].0@));
    }
}

/// Appending a pair inserts its binding into the map.
proof fn lemma_pairs_map_push<V: View>(s: Seq<(String, V)>, p: (String, V))
    ensures
        pairs_map(s.push(p)) =~= pairs_map(s).insert(p.0@, p.1@),
{
    assert(s.push(p).drop_last() =~= s);
    assert(s.push(p).last() == p);
}

/// The index of the first pair binding `key`, if any.
fn find_index<V>(pairs: &Vec<(String, V)>, key: &str) -> (r: Option<usize>)
    ensures
        match r {
            Some(i) => 0 <= i < pairs@.len() && pairs@[i as int].0@ == key@,
            None => forall|j: int| 0 <= j < pairs@.len() ==> pairs@[j].0@ != key@,
        },
{
    let mut i: usize = 0;
    while i < pairs.len()
        invariant
            0 <= i <= pairs@.len(),
            forall|j: int| 0 <= j < i ==> pairs@[j].0@ != key@,
        decreases pairs@.len() - i,
    {
        if str_eq(pairs[i].0.as_str(), key) {
            return Some(i);
        }
        i = i + 1;
    }
    None
}

/// A task's accumulated history, oldest message first.
struct HistoryEntry {
    messages: Vec<Message>,
}

impl View for HistoryEntry {
    type V = Seq<MessageView>;

    closed spec fn view(&self) -> Seq<MessageView> {
        messages_view(self.messages@)
    }
}

/// The store's mathematical content: its task map and its history map.
pub struct StoreView {
    pub tasks: Map<Seq<char>, TaskView>,
    pub history: Map<Seq<char>, Seq<MessageView>>,
}

/// An in-memory task store.
pub struct InMemoryTaskStore {
    tasks: Vec<(String, Task)>,
    history: Vec<(String, HistoryEntry)>,
}

impl View for InMemoryTaskStore {
    type V = StoreView;

    closed spec fn view(&self) -> StoreView {
        StoreView { tasks: pairs_map(self.tasks@), history: pairs_map(self.history@) }
    }
}

impl InMemoryTaskStore {
    /// Whether the store's internal key lists are well formed.
    pub closed spec fn wf(&self) -> bool {
        keys_unique(self.tasks@) && keys_unique(self.history@)
    }

    /// An empty store.
    pub fn new() -> (r: Self)
        ensures
            r.wf(),
            r@.tasks =~= Map::<Seq<char>, TaskView>::empty(),
            r@.history =~= Map::<Seq<char>, Seq<MessageView>>::empty(),
    {
        InMemoryTaskStore { tasks: Vec::new(), history: Vec::new() }
    }

    /// Inserts or fully replaces the task record keyed by its identifier.
    pub fn store_task(&mut self, task: Task)
        requires
            old(self).wf(),
        ensures
            final(self).wf(),
            final(self)@.tasks =~= old(self)@.tasks.insert(task@.id, task@),
            final(self)@.history == old(self)@.history,
    {
        let ghost s0 = self.tasks@;
        match find_index(&self.tasks, task.id.as_str()) {
            Some(i) => {
                proof {
                    lemma_pairs_map_remove::<Task>(self.tasks@, i as int);
                }
                let _ = self.tasks.remove(i);
                proof {
                    assert forall|a: int, b: int|
                        0 <= a < b < self.tasks@.len() implies self.tasks@[a].0@
                        != self.tasks@[b].0@ by {
                        assert(self.tasks@[a] == if a < i as int {
                            s0[a]
                        } else {
                            s0[a + 1]
                        });
                    }
                }
            },
            None => {},
        }
        let ghost s1 = self.tasks@;
        let key = task.id.clone();
        let ghost kview = key@;
        self.tasks.push((key, task));
        proof {
            lemma_pairs_map_push::<Task>(s1, (self.tasks@.last().0, self.tasks@.last().1));
            assert(self.tasks@.drop_last() =~= s1);
            lemma_pairs_map_contains::<Task>(s1, kview);
            if pairs_map(s1).contains_key(kview) {
                let w = choose|w: int| 0 <= w < s1.len() && s1[w].0@ == kview;
                assert(false) by {
                    if exists|w: int| 0 <= w < s1.len() && s1[w].0@ == kview {
                        let w = choose|w: int| 0 <= w < s1.len() && s1[w].0@ == kview;
                        lemma_pairs_map_index::<Task>(s1, w);
                    }
                };
            }
            assert(pairs_map(s0).insert(kview, self.tasks@.last().1@) =~= pairs_map(
                self.tasks@,
            ));
        }
    }

    /// Gets the current snapshot of a task, or reports that none is stored.
    pub fn get_task(&self, id: &str) -> (r: Option<Task>)
        requires
            self.wf(),
        ensures
            match r {
                Some(t) => self@.tasks.contains_key(id@) && t@ == self@.tasks[id@],
                None => !self@.tasks.contains_key(id@),
            },
    {
        proof {
            lemma_pairs_map_contains::<Task>(self.tasks@, id@);
        }
        match find_index(&self.tasks, id) {
            Some(i) => {
                proof {
                    lemma_pairs_map_index::<Task>(self.tasks@, i as int);
                }
                Some(self.tasks[i].1.clone())
            },
            None => None,
        }
    }

    /// Updates a task record: the same full replacement as storing it.
    pub fn update_task(&mut self, task: Task)
        requires
            old(self).wf(),
        ensures
            final(self).wf(),
            final(self)@.tasks =~= old(self)@.tasks.insert(task@.id, task@),
            final(self)@.history == old(self)@.history,
    {
        self.store_task(task);
    }

    /// Removes the task record; idempotent.
    pub fn delete_task(&mut self, id: &str)
        requires
            old(self).wf(),
        ensures
            final(self).wf(),
            final(self)@.tasks =~= old(self)@.tasks.remove(id@),
            final(self)@.history == old(self)@.history,
    {
        let ghost s0 = self.tasks@;
        proof {
            lemma_pairs_map_contains::<Task>(self.tasks@, id@);
        }
        match find_index(&self.tasks, id) {
            Some(i) => {
                proof {
                    lemma_pairs_map_remove::<Task>(self.tasks@, i as int);
                    assert(self.tasks@[i as int].0@ == id@);
                }
                let _ = self.tasks.remove(i);
                proof {
                    assert forall|a: int, b: int|
                        0 <= a < b < self.tasks@.len() implies self.tasks@[a].0@
                        != self.tasks@[b].0@ by {
                        assert(self.tasks@[a] == if a < i as int {
                            s0[a]
                        } else {
                            s0[a + 1]
                        });
                        assert(self.tasks@[b] == if b < i as int {
                            s0[b]
                        } else {
                            s0[b + 1]
                        });
                    }
                }
            },
            None => {
                proof {
                    assert(self@.tasks.remove(id@) =~= self@.tasks);
                }
            },
        }
    }

    /// Appends to a task's history, creating an empty history on first use.
    pub fn store_message(&mut self, task_id: &str, message: Message)
        requires
            old(self).wf(),
        ensures
            final(self).wf(),
            final(self)@.tasks == old(self)@.tasks,
            final(self)@.history =~= old(self)@.history.insert(
                task_id@,
                if old(self)@.history.contains_key(task_id@) {
                    old(self)@.history[task_id@].push(message@)
                } else {
                    Seq::<MessageView>::empty().push(message@)
                },
            ),
    {
        let ghost s0 = self.history@;
        proof {
            lemma_pairs_map_contains::<HistoryEntry>(self.history@, task_id@);
        }
        match find_index(&self.history, task_id) {
            Some(i) => {
                proof {
                    lemma_pairs_map_index::<HistoryEntry>(self.history@, i as int);
                    lemma_pairs_map_remove::<HistoryEntry>(self.history@, i as int);
                }
                let (key, mut entry) = self.history.remove(i);
                proof {
                    assert forall|a: int, b: int|
                        0 <= a < b < self.history@.len() implies self.history@[a].0@
                        != self.history@[b].0@ by {
                        assert(self.history@[a] == if a < i as int {
                            s0[a]
                        } else {
                            s0[a + 1]
                        });
                        assert(self.history@[b] == if b < i as int {
                            s0[b]
                        } else {
                            s0[b + 1]
                        });
                    }
                }
                let ghost before = messages_view(entry.messages@);
                entry.messages.push(message);
                proof {
                    assert(messages_view(entry.messages@) =~= before.push(message@));
                }
                let ghost s1 = self.history@;
                self.history.push((key, entry));
                proof {
                    lemma_pairs_map_push::<HistoryEntry>(
                        s1,
                        (self.history@.last().0, self.history@.last().1),
                    );
                    assert(self.history@.drop_last() =~= s1);
                    assert(pairs_map(self.history@) =~= pairs_map(s0).insert(
                        task_id@,
                        pairs_map(s0)[task_id@].push(message@),
                    ));
                    assert forall|a: int, b: int|
                        0 <= a < b < self.history@.len() implies self.history@[a].0@
                        != self.history@[b].0@ by {
                        if b < self.history@.len() - 1 {
                            assert(self.history@[a] == s1[a]);
                            assert(self.history@[b] == s1[b]);
                        } else {
                            assert(self.history@[a] == s1[a]);
                            assert(s1[a] == if a < i as int {
                                s0[a]
                            } else {
                                s0[a + 1]
                            });
                        }
                    }
                }
            },
            None => {
                let mut messages: Vec<Message> = Vec::new();
                messages.push(message);
                let entry = HistoryEntry { messages };
                proof {
                    assert(entry@ =~= Seq::<MessageView>::empty().push(message@));
                }
                let ghost s1 = self.history@;
                self.history.push((task_id.to_owned(), entry));
                proof {
                    lemma_pairs_map_push::<HistoryEntry>(
                        s1,
                        (self.history@.last().0, self.history@.last().1),
                    );
                    assert(self.history@.drop_last() =~= s1);
                    assert forall|a: int, b: int|
                        0 <= a < b < self.history@.len() implies self.history@[a].0@
                        != self.history@[b].0@ by {
                        assert(self.history@[a] == s1[a]);
                    }
                }
            },
        }
    }

    /// The accumulated history for a task, empty when none exists.
    pub fn get_history(&self, task_id: &str) -> (r: Vec<Message>)
        requires
            self.wf(),
        ensures
            messages_view(r@) == if self@.history.contains_key(task_id@) {
                self@.history[task_id@]
            } else {
                Seq::<MessageView>::empty()
            },
    {
        proof {
            lemma_pairs_map_contains::<HistoryEntry>(self.history@, task_id@);
        }
        match find_index(&self.history, task_id) {
            Some(i) => {
                proof {
                    lemma_pairs_map_index::<HistoryEntry>(self.history@, i as int);
                }
                let r = self.history[i].1.messages.clone();
                proof {
                    assert(messages_view(r@) =~= messages_view(self.history@[i as int].1.messages@));
                }
                r
            },
            None => {
                let r: Vec<Message> = Vec::new();
                proof {
                    assert(messages_view(r@) =~= Seq::<MessageView>::empty());
                }
                r
            },
        }
    }
}

} // verus!
