//! Protocol vocabulary: task, message, part, artifact, status, and the agent
//! capability card. Pure data with mathematical views.

use vstd::prelude::*;

use crate::json::{obj_view, JsonVal, JsonValue};

verus! {

/// Task state within the protocol's state machine.
#[derive(Debug, Clone, Copy, PartialEq, Eq, Structural)]
pub enum TaskState {
    Submitted,
    Working,
    InputRequired,
    Completed,
    Canceled,
    Failed,
    Unknown,
}

impl TaskState {
    /// The terminal states: no transition is defined out of them.
    pub open spec fn is_terminal(self) -> bool {
        self == TaskState::Completed || self == TaskState::Canceled || self == TaskState::Failed
    }
}

/// Status of a task.
#[derive(Debug, Clone, Copy, PartialEq, Eq, Structural)]
pub struct TaskStatus {
    pub state: TaskState,
}

/// The character sequences of an optional string.
pub open spec fn opt_str_view(o: Option<String>) -> Option<Seq<char>> {
    match o {
        Some(s) => Some(s@),
        None => None,
    }
}

/// The field bindings of an optional metadata object.
pub open spec fn opt_obj_view(o: Option<Vec<(String, JsonValue)>>) -> Option<
    Seq<(Seq<char>, JsonVal)>,
> {
    match o {
        Some(fs) => Some(obj_view(fs@)),
        None => None,
    }
}

/// Base structure for file content.
#[derive(Debug, PartialEq)]
pub struct FileContentBase {
    /// Optional name of the file.
    pub name: Option<String>,
    /// Optional MIME type of the file content.
    pub mime_type: Option<String>,
}

pub struct FileContentBaseView {
    pub name: Option<Seq<char>>,
    pub mime_type: Option<Seq<char>>,
}

impl View for FileContentBase {
    type V = FileContentBaseView;

    open spec fn view(&self) -> FileContentBaseView {
        FileContentBaseView { name: opt_str_view(self.name), mime_type: opt_str_view(self.mime_type) }
    }
}

impl Clone for FileContentBase {
    fn clone(&self) -> (r: Self)
        ensures
            r@ == self@,
    {
        FileContentBase { name: self.name.clone(), mime_type: self.mime_type.clone() }
    }
}

/// File content carried inline, encoded as a string of the transfer encoding.
#[derive(Debug, PartialEq)]
pub struct FileContentBytes {
    pub base: FileContentBase,
    /// File content encoded as a string.
    pub bytes: String,
}

pub struct FileContentBytesView {
    pub base: FileContentBaseView,
    pub bytes: Seq<char>,
}

impl View for FileContentBytes {
    type V = FileContentBytesView;

    open spec fn view(&self) -> FileContentBytesView {
        FileContentBytesView { base: self.base@, bytes: self.bytes@ }
    }
}

impl Clone for FileContentBytes {
    fn clone(&self) -> (r: Self)
        ensures
            r@ == self@,
    {
        FileContentBytes { base: self.base.clone(), bytes: self.bytes.clone() }
    }
}

/// File content referred to by a URI.
#[derive(Debug, PartialEq)]
pub struct FileContentUri {
    pub base: FileContentBase,
    /// URI pointing to the file content.
    pub uri: String,
}

pub struct FileContentUriView {
    pub base: FileContentBaseView,
    pub uri: Seq<char>,
}

impl View for FileContentUri {
    type V = FileContentUriView;

    open spec fn view(&self) -> FileContentUriView {
        FileContentUriView { base: self.base@, uri: self.uri@ }
    }
}

impl Clone for FileContentUri {
    fn clone(&self) -> (r: Self)
        ensures
            r@ == self@,
    {
        FileContentUri { base: self.base.clone(), uri: self.uri.clone() }
    }
}

/// File content: either inline bytes or a URI.
#[derive(Debug, PartialEq)]
pub enum FileContent {
    Bytes(FileContentBytes),
    Uri(FileContentUri),
}

pub enum FileContentView {
    Bytes(FileContentBytesView),
    Uri(FileContentUriView),
}

impl View for FileContent {
    type V = FileContentView;

    open spec fn view(&self) -> FileContentView {
        match self {
            FileContent::Bytes(b) => FileContentView::Bytes(b@),
            FileContent::Uri(u) => FileContentView::Uri(u@),
        }
    }
}

impl Clone for FileContent {
    fn clone(&self) -> (r: Self)
        ensures
            r@ == self@,
    {
        match self {
            FileContent::Bytes(b) => FileContent::Bytes(b.clone()),
            FileContent::Uri(u) => FileContent::Uri(u.clone()),
        }
    }
}

/// A part of a message or artifact: exactly one payload kind is populated by
/// the constructors, though the wire shape allows any combination.
#[derive(Debug, PartialEq)]
pub struct Part {
    /// Type identifier for this part.
    pub part_type: Option<String>,
    /// Text content for text parts.
    pub text: Option<String>,
    /// File content for file parts.
    pub file: Option<FileContent>,
    /// Structured data content for data parts.
    pub data: Option<Vec<(String, JsonValue)>>,
    /// Optional metadata associated with this part.
    pub metadata: Option<Vec<(String, JsonValue)>>,
}

pub struct PartView {
    pub part_type: Option<Seq<char>>,
    pub text: Option<Seq<char>>,
    pub file: Option<FileContentView>,
    pub data: Option<Seq<(Seq<char>, JsonVal)>>,
    pub metadata: Option<Seq<(Seq<char>, JsonVal)>>,
}

/// The view of an optional file content.
pub open spec fn opt_file_view(o: Option<FileContent>) -> Option<FileContentView> {
    match o {
        Some(f) => Some(f@),
        None => None,
    }
}

impl View for Part {
    type V = PartView;

    open spec fn view(&self) -> PartView {
        PartView {
            part_type: opt_str_view(self.part_type),
            text: opt_str_view(self.text),
            file: opt_file_view(self.file),
            data: opt_obj_view(self.data),
            metadata: opt_obj_view(self.metadata),
        }
    }
}

impl Part {
    /// A part that carries only the given text.
    pub fn text(text: &str) -> (r: Self)
        ensures
            r@ == (PartView {
                part_type: Some("text"@),
                text: Some(text@),
                file: None,
                data: None,
                metadata: None,
            }),
    {
        Part {
            part_type: Some("text".to_owned()),
            text: Some(text.to_owned()),
            file: None,
            data: None,
            metadata: None,
        }
    }
}

/// A clone of an object's field list, binding for binding.
pub fn clone_fields(fs: &Vec<(String, JsonValue)>) -> (r: Vec<(String, JsonValue)>)
    ensures
        obj_view(r@) == obj_view(fs@),
{
    let mut out: Vec<(String, JsonValue)> = Vec::new();
    let mut i: usize = 0;
    while i < fs.len()
        invariant
            0 <= i <= fs@.len(),
            out@.len() == i,
            forall|j: int|
                0 <= j < i ==> out@[j].0@ == fs@[j].0@ && out@[j].1@ == fs@[j].1@,
        decreases fs@.len() - i,
    {
        let name = fs[i].0.clone();
        let value = crate::json::clone_json(&fs[i].1);
        out.push((name, value));
        i = i + 1;
    }
    proof {
        crate::json::lemma_obj_view(out@);
        crate::json::lemma_obj_view(fs@);
        assert(obj_view(out@) =~= obj_view(fs@));
    }
    out
}

/// A clone of an optional metadata object.
pub fn clone_opt_fields(o: &Option<Vec<(String, JsonValue)>>) -> (r: Option<
    Vec<(String, JsonValue)>,
>)
    ensures
        opt_obj_view(r) == opt_obj_view(*o),
{
    match o {
        Some(fs) => Some(clone_fields(fs)),
        None => None,
    }
}

impl Clone for Part {
    fn clone(&self) -> (r: Self)
        ensures
            r@ == self@,
    {
        Part {
            part_type: self.part_type.clone(),
            text: self.text.clone(),
            file: self.file.clone(),
            data: clone_opt_fields(&self.data),
            metadata: clone_opt_fields(&self.metadata),
        }
    }
}

/// The element-wise views of a sequence of parts.
pub open spec fn parts_view(s: Seq<Part>) -> Seq<PartView> {
    Seq::new(s.len(), |i: int| s[i]@)
}

/// An output or intermediate file from a task.
#[derive(Debug, PartialEq)]
pub struct Artifact {
    /// Optional name for the artifact.
    pub name: Option<String>,
    /// Optional description of the artifact.
    pub description: Option<String>,
    /// Constituent parts of the artifact.
    pub parts: Vec<Part>,
    /// Optional index for ordering artifacts.
    pub index: Option<i32>,
    /// Whether this artifact's content appends to a prior one with the same index.
    pub append: Option<bool>,
    /// Optional metadata associated with the artifact.
    pub metadata: Option<Vec<(String, JsonValue)>>,
    /// Whether this is the last chunk of data for this artifact.
    pub last_chunk: Option<bool>,
}

pub struct ArtifactView {
    pub name: Option<Seq<char>>,
    pub description: Option<Seq<char>>,
    pub parts: Seq<PartView>,
    pub index: Option<i32>,
    pub append: Option<bool>,
    pub metadata: Option<Seq<(Seq<char>, JsonVal)>>,
    pub last_chunk: Option<bool>,
}

impl View for Artifact {
    type V = ArtifactView;

    open spec fn view(&self) -> ArtifactView {
        ArtifactView {
            name: opt_str_view(self.name),
            description: opt_str_view(self.description),
            parts: parts_view(self.parts@),
            index: self.index,
            append: self.append,
            metadata: opt_obj_view(self.metadata),
            last_chunk: self.last_chunk,
        }
    }
}

impl Clone for Artifact {
    fn clone(&self) -> (r: Self)
        ensures
            r@ == self@,
    {
        let r = Artifact {
            name: self.name.clone(),
            description: self.description.clone(),
            parts: self.parts.clone(),
            index: self.index,
            append: self.append,
            metadata: clone_opt_fields(&self.metadata),
            last_chunk: self.last_chunk,
        };
        proof {
            assert(parts_view(r.parts@) =~= parts_view(self.parts@));
        }
        r
    }
}

/// The element-wise views of a sequence of artifacts.
pub open spec fn artifacts_view(s: Seq<Artifact>) -> Seq<ArtifactView> {
    Seq::new(s.len(), |i: int| s[i]@)
}

/// The views of an optional artifact list.
pub open spec fn opt_artifacts_view(o: Option<Vec<Artifact>>) -> Option<Seq<ArtifactView>> {
    match o {
        Some(v) => Some(artifacts_view(v@)),
        None => None,
    }
}

/// A message exchanged between caller and agent.
#[derive(Debug, PartialEq)]
pub struct Message {
    pub role: String,
    pub parts: Vec<Part>,
}

pub struct MessageView {
    pub role: Seq<char>,
    pub parts: Seq<PartView>,
}

impl View for Message {
    type V = MessageView;

    open spec fn view(&self) -> MessageView {
        MessageView { role: self.role@, parts: parts_view(self.parts@) }
    }
}

impl Clone for Message {
    fn clone(&self) -> (r: Self)
        ensures
            r@ == self@,
    {
        let r = Message { role: self.role.clone(), parts: self.parts.clone() };
        proof {
            assert(parts_view(r.parts@) =~= parts_view(self.parts@));
        }
        r
    }
}

impl Message {
    /// A message with the given role and no parts.
    pub fn new(role: &str) -> (r: Self)
        ensures
            r@ == (MessageView { role: role@, parts: Seq::<PartView>::empty() }),
    {
        let r = Message { role: role.to_owned(), parts: Vec::new() };
        proof {
            assert(parts_view(r.parts@) =~= Seq::<PartView>::empty());
        }
        r
    }

    /// This message with a text part appended.
    pub fn with_text(self, text: &str) -> (r: Self)
        ensures
            r@.role == self@.role,
            r@.parts == self@.parts.push(
                PartView {
                    part_type: Some("text"@),
                    text: Some(text@),
                    file: None,
                    data: None,
                    metadata: None,
                },
            ),
    {
        self.with_part(Part::text(text))
    }

    /// This message with the given part appended.
    pub fn with_part(self, part: Part) -> (r: Self)
        ensures
            r@.role == self@.role,
            r@.parts == self@.parts.push(part@),
    {
        let ghost old_parts = parts_view(self.parts@);
        let mut m = self;
        m.parts.push(part);
        proof {
            assert(parts_view(m.parts@) =~= old_parts.push(part@));
        }
        m
    }

    /// An agent message carrying the given text.
    pub fn agent_text(text: &str) -> (r: Self)
        ensures
            r@.role == "agent"@,
            r@.parts == Seq::<PartView>::empty().push(
                PartView {
                    part_type: Some("text"@),
                    text: Some(text@),
                    file: None,
                    data: None,
                    metadata: None,
                },
            ),
    {
        Message::new("agent").with_text(text)
    }

    /// A user message carrying the given text.
    pub fn user_text(text: &str) -> (r: Self)
        ensures
            r@.role == "user"@,
            r@.parts == Seq::<PartView>::empty().push(
                PartView {
                    part_type: Some("text"@),
                    text: Some(text@),
                    file: None,
                    data: None,
                    metadata: None,
                },
            ),
    {
        Message::new("user").with_text(text)
    }
}

/// The unit of work tracked by identifier, status, and artifacts.
#[derive(Debug, PartialEq)]
pub struct Task {
    pub id: String,
    pub status: TaskStatus,
    pub artifacts: Option<Vec<Artifact>>,
}

pub struct TaskView {
    pub id: Seq<char>,
    pub status: TaskStatus,
    pub artifacts: Option<Seq<ArtifactView>>,
}

impl View for Task {
    type V = TaskView;

    open spec fn view(&self) -> TaskView {
        TaskView { id: self.id@, status: self.status, artifacts: opt_artifacts_view(self.artifacts) }
    }
}

impl Clone for Task {
    fn clone(&self) -> (r: Self)
        ensures
            r@ == self@,
    {
        let artifacts = match &self.artifacts {
            Some(v) => Some(v.clone()),
            None => None,
        };
        let r = Task { id: self.id.clone(), status: self.status, artifacts };
        proof {
            if self.artifacts is Some {
                let v0 = self.artifacts->Some_0@;
                let v1 = r.artifacts->Some_0@;
                assert(artifacts_view(v1) =~= artifacts_view(v0));
            }
        }
        r
    }
}

impl Task {
    /// A fresh task with the given identifier: status Working, no artifacts.
    pub fn new(id: String) -> (r: Self)
        ensures
            r@ == (TaskView {
                id: id@,
                status: TaskStatus { state: TaskState::Working },
                artifacts: None,
            }),
    {
        Task { id, status: TaskStatus { state: TaskState::Working }, artifacts: None }
    }

    /// The same record with status Completed.
    pub fn complete(self) -> (r: Self)
        ensures
            r@ == (TaskView {
                id: self@.id,
                status: TaskStatus { state: TaskState::Completed },
                artifacts: self@.artifacts,
            }),
    {
        let mut t = self;
        t.status.state = TaskState::Completed;
        t
    }

    /// The same record with status Failed.
    pub fn fail(self) -> (r: Self)
        ensures
            r@ == (TaskView {
                id: self@.id,
                status: TaskStatus { state: TaskState::Failed },
                artifacts: self@.artifacts,
            }),
    {
        let mut t = self;
        t.status.state = TaskState::Failed;
        t
    }

    /// The same record with the artifact appended to its (possibly empty) list.
    pub fn with_artifact(self, artifact: Artifact) -> (r: Self)
        ensures
            r@.id == self@.id,
            r@.status == self@.status,
            r@.artifacts == Some(
                match self@.artifacts {
                    Some(s) => s.push(artifact@),
                    None => Seq::<ArtifactView>::empty().push(artifact@),
                },
            ),
    {
        let ghost old_view = self@;
        let mut t = self;
        match &mut t.artifacts {
            Some(v) => {
                let ghost before = artifacts_view(v@);
                v.push(artifact);
                proof {
                    assert(artifacts_view(v@) =~= before.push(artifact@));
                }
            },
            opt => {
                let mut v: Vec<Artifact> = Vec::new();
                v.push(artifact);
                proof {
                    assert(artifacts_view(v@) =~= Seq::<ArtifactView>::empty().push(artifact@));
                }
                *opt = Some(v);
            },
        }
        t
    }
}

/// History of a task on the wire: an optional chronological message list.
#[derive(Debug, PartialEq)]
pub struct TaskHistory {
    pub message_history: Option<Vec<Message>>,
}

/// The element-wise views of a sequence of messages.
pub open spec fn messages_view(s: Seq<Message>) -> Seq<MessageView> {
    Seq::new(s.len(), |i: int| s[i]@)
}

pub struct TaskHistoryView {
    pub message_history: Option<Seq<MessageView>>,
}

impl View for TaskHistory {
    type V = TaskHistoryView;

    open spec fn view(&self) -> TaskHistoryView {
        TaskHistoryView {
            message_history: match self.message_history {
                Some(v) => Some(messages_view(v@)),
                None => None,
            },
        }
    }
}

/// Event for task status updates.
#[derive(Debug, PartialEq)]
pub struct TaskStatusUpdateEvent {
    /// Identifier of the task being updated.
    pub id: String,
    /// New status of the task.
    pub status: TaskStatus,
    /// Whether this is the final update for the task.
    pub final_: Option<bool>,
    /// Optional metadata associated with this update event.
    pub metadata: Option<Vec<(String, JsonValue)>>,
}

/// Event for task artifact updates.
#[derive(Debug, PartialEq)]
pub struct TaskArtifactUpdateEvent {
    /// Identifier of the task being updated.
    pub id: String,
    /// New or updated artifact for the task.
    pub artifact: Artifact,
    /// Whether this is the final update for the task.
    pub final_: Option<bool>,
    /// Optional metadata associated with this update event.
    pub metadata: Option<Vec<(String, JsonValue)>>,
}

} // verus!
