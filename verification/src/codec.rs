//! Conversions between protocol types and JSON values: how tasks and their
//! pieces are laid out on the wire, and how inbound parameter objects are
//! validated.

use vstd::prelude::*;

use crate::json::{arr_view, json_view, lemma_arr_view, lemma_obj_view, lookup, lookup_fields,
    obj_view, JsonVal, JsonValue};
use crate::text::str_eq;
use crate::types::{artifacts_view, parts_view, Artifact, ArtifactView, FileContent,
    FileContentBase, FileContentBaseView, FileContentBytes, FileContentBytesView, FileContentUri,
    FileContentUriView, FileContentView, Message, MessageView, Part, PartView, Task, TaskState,
    TaskStatus, TaskView, opt_str_view};

verus! {

/// The wire spelling of a task state.
pub open spec fn state_str(s: TaskState) -> Seq<char> {
    match s {
        TaskState::Submitted => "submitted"@,
        TaskState::Working => "working"@,
        TaskState::InputRequired => "input-required"@,
        TaskState::Completed => "completed"@,
        TaskState::Canceled => "canceled"@,
        TaskState::Failed => "failed"@,
        TaskState::Unknown => "unknown"@,
    }
}

/// The task state spelled by a string, if any.
pub open spec fn state_from_str(s: Seq<char>) -> Option<TaskState> {
    if s == "submitted"@ {
        Some(TaskState::Submitted)
    } else if s == "working"@ {
        Some(TaskState::Working)
    } else if s == "input-required"@ {
        Some(TaskState::InputRequired)
    } else if s == "completed"@ {
        Some(TaskState::Completed)
    } else if s == "canceled"@ {
        Some(TaskState::Canceled)
    } else if s == "failed"@ {
        Some(TaskState::Failed)
    } else if s == "unknown"@ {
        Some(TaskState::Unknown)
    } else {
        None
    }
}

/// Reading back the spelling of a state yields that state.
pub proof fn lemma_state_round_trip(s: TaskState)
    ensures
        state_from_str(state_str(s)) == Some(s),
{
    reveal_strlit("submitted");
    reveal_strlit("working");
    reveal_strlit("input-required");
    reveal_strlit("completed");
    reveal_strlit("canceled");
    reveal_strlit("failed");
    reveal_strlit("unknown");
    assert(("submitted"@).len() == 9);
    assert(("working"@).len() == 7);
    assert(("input-required"@).len() == 14);
    assert(("completed"@).len() == 9);
    assert(("canceled"@).len() == 8);
    assert(("failed"@).len() == 6);
    assert(("unknown"@).len() == 7);
    assert(("submitted"@)[0] == 's' && ("completed"@)[0] == 'c');
    assert(("working"@)[0] == 'w' && ("unknown"@)[0] == 'u');
}

/// The wire layout of a task status.
pub open spec fn status_to_json_spec(s: TaskStatus) -> JsonVal {
    JsonVal::Obj(seq![("state"@, JsonVal::Str(state_str(s.state)))])
}

/// The task status read from a JSON value, if well formed.
pub open spec fn status_from_json_spec(v: JsonVal) -> Option<TaskStatus> {
    match lookup(v, "state"@) {
        Some(JsonVal::Str(s)) => match state_from_str(s) {
            Some(st) => Some(TaskStatus { state: st }),
            None => None,
        },
        _ => None,
    }
}

/// Reading back the layout of a status yields that status.
pub proof fn lemma_status_round_trip(s: TaskStatus)
    ensures
        status_from_json_spec(status_to_json_spec(s)) == Some(s),
{
    lemma_state_round_trip(s.state);
    let fields = seq![("state"@, JsonVal::Str(state_str(s.state)))];
    assert(lookup_fields(fields, "state"@) == Some(JsonVal::Str(state_str(s.state))));
}

pub fn state_to_json(s: TaskState) -> (r: JsonValue)
    ensures
        r@ == JsonVal::Str(state_str(s)),
{
    match s {
        TaskState::Submitted => JsonValue::Str("submitted".to_owned()),
        TaskState::Working => JsonValue::Str("working".to_owned()),
        TaskState::InputRequired => JsonValue::Str("input-required".to_owned()),
        TaskState::Completed => JsonValue::Str("completed".to_owned()),
        TaskState::Canceled => JsonValue::Str("canceled".to_owned()),
        TaskState::Failed => JsonValue::Str("failed".to_owned()),
        TaskState::Unknown => JsonValue::Str("unknown".to_owned()),
    }
}

pub fn status_to_json(s: &TaskStatus) -> (r: JsonValue)
    ensures
        r@ == status_to_json_spec(*s),
{
    let mut fields: Vec<(String, JsonValue)> = Vec::new();
    fields.push(("state".to_owned(), state_to_json(s.state)));
    proof {
        lemma_obj_view(fields@);
        assert(obj_view(fields@) =~= seq![("state"@, JsonVal::Str(state_str(s.state)))]);
    }
    JsonValue::Obj(fields)
}

/// The wire layout of file content carried inline.
pub open spec fn file_bytes_fields_spec(f: FileContentBytesView) -> Seq<(Seq<char>, JsonVal)> {
    base_fields_spec(f.base) + seq![("bytes"@, JsonVal::Str(f.bytes))]
}

/// The wire layout of file content referred to by URI.
pub open spec fn file_uri_fields_spec(f: FileContentUriView) -> Seq<(Seq<char>, JsonVal)> {
    base_fields_spec(f.base) + seq![("uri"@, JsonVal::Str(f.uri))]
}

/// The optional name and MIME type fields shared by both file shapes.
pub open spec fn base_fields_spec(b: FileContentBaseView) -> Seq<(Seq<char>, JsonVal)> {
    opt_str_field("name"@, b.name) + opt_str_field("mimeType"@, b.mime_type)
}

/// A field present exactly when the optional string is.
pub open spec fn opt_str_field(name: Seq<char>, o: Option<Seq<char>>) -> Seq<
    (Seq<char>, JsonVal),
> {
    match o {
        Some(s) => seq![(name, JsonVal::Str(s))],
        None => Seq::empty(),
    }
}

/// The wire layout of file content.
pub open spec fn file_to_json_spec(f: FileContentView) -> JsonVal {
    match f {
        FileContentView::Bytes(b) => JsonVal::Obj(file_bytes_fields_spec(b)),
        FileContentView::Uri(u) => JsonVal::Obj(file_uri_fields_spec(u)),
    }
}

fn push_opt_str_field(fields: &mut Vec<(String, JsonValue)>, name: &str, o: &Option<String>)
    ensures
        final(fields)@.len() == old(fields)@.len() + (if o is Some {
            1int
        } else {
            0int
        }),
        forall|j: int|
            0 <= j < old(fields)@.len() ==> final(fields)@[j] == old(fields)@[j],
        obj_view(final(fields)@) =~= obj_view(old(fields)@) + opt_str_field(
            name@,
            opt_str_view(*o),
        ),
{
    proof {
        lemma_obj_view(fields@);
    }
    match o {
        Some(s) => {
            fields.push((name.to_owned(), JsonValue::Str(s.clone())));
        },
        None => {},
    }
    proof {
        lemma_obj_view(fields@);
    }
}

pub fn file_to_json(f: &FileContent) -> (r: JsonValue)
    ensures
        r@ == file_to_json_spec(f@),
{
    let mut fields: Vec<(String, JsonValue)> = Vec::new();
    match f {
        FileContent::Bytes(b) => {
            push_opt_str_field(&mut fields, "name", &b.base.name);
            push_opt_str_field(&mut fields, "mimeType", &b.base.mime_type);
            proof {
                assert(obj_view(fields@) =~= base_fields_spec(b.base@));
            }
            let ghost before = fields@;
            fields.push(("bytes".to_owned(), JsonValue::Str(b.bytes.clone())));
            proof {
                lemma_obj_view(fields@);
                lemma_obj_view(before);
                assert(fields@.drop_last() =~= before);
                assert(obj_view(fields@) =~= obj_view(before).push(
                    ("bytes"@, JsonVal::Str(b.bytes@)),
                ));
                assert(file_bytes_fields_spec(b@) =~= base_fields_spec(b.base@).push(
                    ("bytes"@, JsonVal::Str(b.bytes@)),
                ));
                assert(obj_view(fields@) =~= file_bytes_fields_spec(b@));
            }
            JsonValue::Obj(fields)
        },
        FileContent::Uri(u) => {
            push_opt_str_field(&mut fields, "name", &u.base.name);
            push_opt_str_field(&mut fields, "mimeType", &u.base.mime_type);
            proof {
                assert(obj_view(fields@) =~= base_fields_spec(u.base@));
            }
            let ghost before = fields@;
            fields.push(("uri".to_owned(), JsonValue::Str(u.uri.clone())));
            proof {
                lemma_obj_view(fields@);
                lemma_obj_view(before);
                assert(fields@.drop_last() =~= before);
                assert(obj_view(fields@) =~= obj_view(before).push(
                    ("uri"@, JsonVal::Str(u.uri@)),
                ));
                assert(file_uri_fields_spec(u@) =~= base_fields_spec(u.base@).push(
                    ("uri"@, JsonVal::Str(u.uri@)),
                ));
                assert(obj_view(fields@) =~= file_uri_fields_spec(u@));
            }
            JsonValue::Obj(fields)
        },
    }
}

/// A field present exactly when the optional object is.
pub open spec fn opt_obj_field(name: Seq<char>, o: Option<Seq<(Seq<char>, JsonVal)>>) -> Seq<
    (Seq<char>, JsonVal),
> {
    match o {
        Some(fs) => seq![(name, JsonVal::Obj(fs))],
        None => Seq::empty(),
    }
}

/// The wire layout of a part.
pub open spec fn part_to_json_spec(p: PartView) -> JsonVal {
    JsonVal::Obj(
        opt_str_field("type"@, p.part_type) + opt_str_field("text"@, p.text) + (match p.file {
            Some(f) => seq![("file"@, file_to_json_spec(f))],
            None => Seq::empty(),
        }) + opt_obj_field("data"@, p.data) + opt_obj_field("metadata"@, p.metadata),
    )
}

fn push_opt_obj_field(
    fields: &mut Vec<(String, JsonValue)>,
    name: &str,
    o: &Option<Vec<(String, JsonValue)>>,
)
    ensures
        obj_view(final(fields)@) =~= obj_view(old(fields)@) + opt_obj_field(
            name@,
            crate::types::opt_obj_view(*o),
        ),
{
    proof {
        lemma_obj_view(fields@);
    }
    match o {
        Some(fs) => {
            let copied = crate::types::clone_fields(fs);
            let ghost before = fields@;
            fields.push((name.to_owned(), JsonValue::Obj(copied)));
            proof {
                lemma_obj_view(fields@);
                assert(fields@.drop_last() =~= before);
            }
        },
        None => {},
    }
    proof {
        lemma_obj_view(fields@);
    }
}

pub fn part_to_json(p: &Part) -> (r: JsonValue)
    ensures
        r@ == part_to_json_spec(p@),
{
    let mut fields: Vec<(String, JsonValue)> = Vec::new();
    push_opt_str_field(&mut fields, "type", &p.part_type);
    push_opt_str_field(&mut fields, "text", &p.text);
    match &p.file {
        Some(f) => {
            let ghost before = fields@;
            fields.push(("file".to_owned(), file_to_json(f)));
            proof {
                lemma_obj_view(fields@);
                lemma_obj_view(before);
                assert(fields@.drop_last() =~= before);
                assert(obj_view(fields@) =~= obj_view(before).push(
                    ("file"@, file_to_json_spec(p.file->Some_0@)),
                ));
            }
        },
        None => {},
    }
    push_opt_obj_field(&mut fields, "data", &p.data);
    push_opt_obj_field(&mut fields, "metadata", &p.metadata);
    proof {
        assert(obj_view(fields@) =~= opt_str_field("type"@, p@.part_type) + opt_str_field(
            "text"@,
            p@.text,
        ) + (match p@.file {
            Some(f) => seq![("file"@, file_to_json_spec(f))],
            None => Seq::empty(),
        }) + opt_obj_field("data"@, p@.data) + opt_obj_field("metadata"@, p@.metadata));
    }
    JsonValue::Obj(fields)
}

/// The element-wise wire layout of a list of parts.
pub open spec fn parts_to_json_spec(ps: Seq<PartView>) -> Seq<JsonVal> {
    Seq::new(ps.len(), |i: int| part_to_json_spec(ps[i]))
}

pub fn parts_to_json(ps: &Vec<Part>) -> (r: Vec<JsonValue>)
    ensures
        arr_view(r@) =~= parts_to_json_spec(parts_view(ps@)),
{
    let mut out: Vec<JsonValue> = Vec::new();
    let mut i: usize = 0;
    while i < ps.len()
        invariant
            0 <= i <= ps@.len(),
            out@.len() == i,
            forall|j: int| 0 <= j < i ==> out@[j]@ == part_to_json_spec(ps@[j]@),
        decreases ps@.len() - i,
    {
        out.push(part_to_json(&ps[i]));
        i = i + 1;
    }
    proof {
        lemma_arr_view(out@);
        assert(arr_view(out@) =~= parts_to_json_spec(parts_view(ps@)));
    }
    out
}

/// A field present exactly when the optional flag is.
pub open spec fn opt_bool_field(name: Seq<char>, o: Option<bool>) -> Seq<(Seq<char>, JsonVal)> {
    match o {
        Some(b) => seq![(name, JsonVal::Bool(b))],
        None => Seq::empty(),
    }
}

/// The wire layout of an artifact.
pub open spec fn artifact_to_json_spec(a: ArtifactView) -> JsonVal {
    JsonVal::Obj(
        opt_str_field("name"@, a.name) + opt_str_field("description"@, a.description) + seq![
            ("parts"@, JsonVal::Arr(parts_to_json_spec(a.parts))),
        ] + (match a.index {
            Some(n) => seq![("index"@, JsonVal::Int(n as int))],
            None => Seq::empty(),
        }) + opt_bool_field("append"@, a.append) + opt_obj_field("metadata"@, a.metadata)
            + opt_bool_field("lastChunk"@, a.last_chunk),
    )
}

fn push_opt_bool_field(fields: &mut Vec<(String, JsonValue)>, name: &str, o: &Option<bool>)
    ensures
        obj_view(final(fields)@) =~= obj_view(old(fields)@) + opt_bool_field(name@, *o),
{
    proof {
        lemma_obj_view(fields@);
    }
    match o {
        Some(b) => {
            let ghost before = fields@;
            fields.push((name.to_owned(), JsonValue::Bool(*b)));
            proof {
                lemma_obj_view(fields@);
                assert(fields@.drop_last() =~= before);
            }
        },
        None => {},
    }
    proof {
        lemma_obj_view(fields@);
    }
}

pub fn artifact_to_json(a: &Artifact) -> (r: JsonValue)
    ensures
        r@ == artifact_to_json_spec(a@),
{
    let mut fields: Vec<(String, JsonValue)> = Vec::new();
    push_opt_str_field(&mut fields, "name", &a.name);
    push_opt_str_field(&mut fields, "description", &a.description);
    let ghost before_parts = fields@;
    fields.push(("parts".to_owned(), JsonValue::Arr(parts_to_json(&a.parts))));
    proof {
        lemma_obj_view(fields@);
        lemma_obj_view(before_parts);
        assert(fields@.drop_last() =~= before_parts);
        assert(obj_view(fields@) =~= obj_view(before_parts).push(
            ("parts"@, JsonVal::Arr(parts_to_json_spec(a@.parts))),
        ));
    }
    match a.index {
        Some(n) => {
            let ghost before = fields@;
            fields.push(("index".to_owned(), JsonValue::Int(n as i64)));
            proof {
                lemma_obj_view(fields@);
                lemma_obj_view(before);
                assert(fields@.drop_last() =~= before);
            }
        },
        None => {},
    }
    push_opt_bool_field(&mut fields, "append", &a.append);
    push_opt_obj_field(&mut fields, "metadata", &a.metadata);
    push_opt_bool_field(&mut fields, "lastChunk", &a.last_chunk);
    proof {
        assert(obj_view(fields@) =~= opt_str_field("name"@, a@.name) + opt_str_field(
            "description"@,
            a@.description,
        ) + seq![("parts"@, JsonVal::Arr(parts_to_json_spec(a@.parts)))] + (match a@.index {
            Some(n) => seq![("index"@, JsonVal::Int(n as int))],
            None => Seq::empty(),
        }) + opt_bool_field("append"@, a@.append) + opt_obj_field("metadata"@, a@.metadata)
            + opt_bool_field("lastChunk"@, a@.last_chunk));
    }
    JsonValue::Obj(fields)
}

/// The element-wise wire layout of a list of artifacts.
pub open spec fn artifacts_to_json_spec(arts: Seq<ArtifactView>) -> Seq<JsonVal> {
    Seq::new(arts.len(), |i: int| artifact_to_json_spec(arts[i]))
}

pub fn artifacts_to_json(arts: &Vec<Artifact>) -> (r: Vec<JsonValue>)
    ensures
        arr_view(r@) =~= artifacts_to_json_spec(artifacts_view(arts@)),
{
    let mut out: Vec<JsonValue> = Vec::new();
    let mut i: usize = 0;
    while i < arts.len()
        invariant
            0 <= i <= arts@.len(),
            out@.len() == i,
            forall|j: int| 0 <= j < i ==> out@[j]@ == artifact_to_json_spec(arts@[j]@),
        decreases arts@.len() - i,
    {
        out.push(artifact_to_json(&arts[i]));
        i = i + 1;
    }
    proof {
        lemma_arr_view(out@);
        assert(arr_view(out@) =~= artifacts_to_json_spec(artifacts_view(arts@)));
    }
    out
}

/// The wire layout of a message.
pub open spec fn message_to_json_spec(m: MessageView) -> JsonVal {
    JsonVal::Obj(
        seq![
            ("role"@, JsonVal::Str(m.role)),
            ("parts"@, JsonVal::Arr(parts_to_json_spec(m.parts))),
        ],
    )
}

pub fn message_to_json(m: &Message) -> (r: JsonValue)
    ensures
        r@ == message_to_json_spec(m@),
{
    let mut fields: Vec<(String, JsonValue)> = Vec::new();
    fields.push(("role".to_owned(), JsonValue::Str(m.role.clone())));
    fields.push(("parts".to_owned(), JsonValue::Arr(parts_to_json(&m.parts))));
    proof {
        lemma_obj_view(fields@);
        assert(obj_view(fields@) =~= seq![
            ("role"@, JsonVal::Str(m@.role)),
            ("parts"@, JsonVal::Arr(parts_to_json_spec(m@.parts))),
        ]);
    }
    JsonValue::Obj(fields)
}

/// The wire layout of a task snapshot: identifier, status, and the artifact
/// list exactly when one is present.
pub open spec fn task_to_json_spec(t: TaskView) -> JsonVal {
    JsonVal::Obj(
        seq![("id"@, JsonVal::Str(t.id)), ("status"@, status_to_json_spec(t.status))] + (
        match t.artifacts {
            Some(arts) => seq![("artifacts"@, JsonVal::Arr(artifacts_to_json_spec(arts)))],
            None => Seq::empty(),
        }),
    )
}

pub fn task_to_json(t: &Task) -> (r: JsonValue)
    ensures
        r@ == task_to_json_spec(t@),
{
    let mut fields: Vec<(String, JsonValue)> = Vec::new();
    fields.push(("id".to_owned(), JsonValue::Str(t.id.clone())));
    fields.push(("status".to_owned(), status_to_json(&t.status)));
    match &t.artifacts {
        Some(arts) => {
            let ghost before = fields@;
            fields.push(("artifacts".to_owned(), JsonValue::Arr(artifacts_to_json(arts))));
            proof {
                lemma_obj_view(fields@);
                lemma_obj_view(before);
                assert(fields@.drop_last() =~= before);
            }
        },
        None => {},
    }
    proof {
        lemma_obj_view(fields@);
        assert(obj_view(fields@) =~= seq![
            ("id"@, JsonVal::Str(t@.id)),
            ("status"@, status_to_json_spec(t@.status)),
        ] + (match t@.artifacts {
            Some(arts) => seq![("artifacts"@, JsonVal::Arr(artifacts_to_json_spec(arts)))],
            None => Seq::<(Seq<char>, JsonVal)>::empty(),
        }));
    }
    JsonValue::Obj(fields)
}

/// A read of an optional string field: absent and null mean absent; a string
/// is taken; any other shape is rejected.
pub open spec fn opt_str_from(v: JsonVal, name: Seq<char>) -> Option<Option<Seq<char>>> {
    match lookup(v, name) {
        None => Some(None),
        Some(JsonVal::Null) => Some(None),
        Some(JsonVal::Str(s)) => Some(Some(s)),
        Some(_) => None,
    }
}

/// A read of an optional boolean field, as `opt_str_from` reads strings.
pub open spec fn opt_bool_from(v: JsonVal, name: Seq<char>) -> Option<Option<bool>> {
    match lookup(v, name) {
        None => Some(None),
        Some(JsonVal::Null) => Some(None),
        Some(JsonVal::Bool(b)) => Some(Some(b)),
        Some(_) => None,
    }
}

/// A read of an optional small-integer field: the value must fit the wire's
/// 32-bit signed range.
pub open spec fn opt_i32_from(v: JsonVal, name: Seq<char>) -> Option<Option<i32>> {
    match lookup(v, name) {
        None => Some(None),
        Some(JsonVal::Null) => Some(None),
        Some(JsonVal::Int(n)) => if -0x8000_0000 <= n <= 0x7fff_ffff {
            Some(Some(n as i32))
        } else {
            None
        },
        Some(_) => None,
    }
}

/// A read of an optional object-valued field.
pub open spec fn opt_obj_from(v: JsonVal, name: Seq<char>) -> Option<
    Option<Seq<(Seq<char>, JsonVal)>>,
> {
    match lookup(v, name) {
        None => Some(None),
        Some(JsonVal::Null) => Some(None),
        Some(JsonVal::Obj(fs)) => Some(Some(fs)),
        Some(_) => None,
    }
}

/// The file content read from a JSON value: an object carrying a string
/// `bytes` field is inline content; otherwise one carrying a string `uri`
/// field is a reference; anything else is rejected.
pub open spec fn file_from_json_spec(v: JsonVal) -> Option<FileContentView> {
    if !(v is Obj) {
        None
    } else {
        match (opt_str_from(v, "name"@), opt_str_from(v, "mimeType"@)) {
            (Some(name), Some(mime)) => {
                let base = FileContentBaseView { name, mime_type: mime };
                match lookup(v, "bytes"@) {
                    Some(JsonVal::Str(b)) => Some(
                        FileContentView::Bytes(FileContentBytesView { base, bytes: b }),
                    ),
                    _ => match lookup(v, "uri"@) {
                        Some(JsonVal::Str(u)) => Some(
                            FileContentView::Uri(FileContentUriView { base, uri: u }),
                        ),
                        _ => None,
                    },
                }
            },
            _ => None,
        }
    }
}

/// The part read from a JSON value: every field is optional.
pub open spec fn part_from_json_spec(v: JsonVal) -> Option<PartView> {
    if !(v is Obj) {
        None
    } else {
        match (opt_str_from(v, "type"@), opt_str_from(v, "text"@)) {
            (Some(part_type), Some(text)) => {
                let file = match lookup(v, "file"@) {
                    None => Some(None),
                    Some(JsonVal::Null) => Some(None),
                    Some(fv) => match file_from_json_spec(fv) {
                        Some(f) => Some(Some(f)),
                        None => None,
                    },
                };
                match (file, opt_obj_from(v, "data"@), opt_obj_from(v, "metadata"@)) {
                    (Some(file), Some(data), Some(metadata)) => Some(
                        PartView { part_type, text, file, data, metadata },
                    ),
                    _ => None,
                }
            },
            _ => None,
        }
    }
}

/// The parts read from a JSON array, each of which must be well formed.
pub open spec fn parts_from_json_spec(items: Seq<JsonVal>) -> Option<Seq<PartView>>
    decreases items.len(),
{
    if items.len() == 0 {
        Some(Seq::empty())
    } else {
        match (parts_from_json_spec(items.drop_last()), part_from_json_spec(items.last())) {
            (Some(ps), Some(p)) => Some(ps.push(p)),
            _ => None,
        }
    }
}

/// The message read from a JSON value: a role string and a parts array, both
/// required.
pub open spec fn message_from_json_spec(v: JsonVal) -> Option<MessageView> {
    match (lookup(v, "role"@), lookup(v, "parts"@)) {
        (Some(JsonVal::Str(role)), Some(JsonVal::Arr(items))) => match parts_from_json_spec(
            items,
        ) {
            Some(parts) => Some(MessageView { role, parts }),
            None => None,
        },
        _ => None,
    }
}

/// The artifact read from a JSON value: a parts array is required, the rest
/// is optional.
pub open spec fn artifact_from_json_spec(v: JsonVal) -> Option<ArtifactView> {
    if !(v is Obj) {
        None
    } else {
        match (opt_str_from(v, "name"@), opt_str_from(v, "description"@), lookup(v, "parts"@)) {
            (Some(name), Some(description), Some(JsonVal::Arr(items))) => match (
                parts_from_json_spec(items),
                opt_i32_from(v, "index"@),
                opt_bool_from(v, "append"@),
                opt_obj_from(v, "metadata"@),
                opt_bool_from(v, "lastChunk"@),
            ) {
                (Some(parts), Some(index), Some(append), Some(metadata), Some(last_chunk)) => Some(
                    ArtifactView { name, description, parts, index, append, metadata, last_chunk },
                ),
                _ => None,
            },
            _ => None,
        }
    }
}

/// The artifacts read from a JSON array, each of which must be well formed.
pub open spec fn artifacts_from_json_spec(items: Seq<JsonVal>) -> Option<Seq<ArtifactView>>
    decreases items.len(),
{
    if items.len() == 0 {
        Some(Seq::empty())
    } else {
        match (
            artifacts_from_json_spec(items.drop_last()),
            artifact_from_json_spec(items.last()),
        ) {
            (Some(arts), Some(a)) => Some(arts.push(a)),
            _ => None,
        }
    }
}

/// The task read from a JSON value: identifier and status are required; an
/// absent artifact list stays absent, distinct from an empty one.
pub open spec fn task_from_json_spec(v: JsonVal) -> Option<TaskView> {
    match (lookup(v, "id"@), lookup(v, "status"@)) {
        (Some(JsonVal::Str(id)), Some(sv)) => match status_from_json_spec(sv) {
            Some(status) => match lookup(v, "artifacts"@) {
                None => Some(TaskView { id, status, artifacts: None }),
                Some(JsonVal::Null) => Some(TaskView { id, status, artifacts: None }),
                Some(JsonVal::Arr(items)) => match artifacts_from_json_spec(items) {
                    Some(arts) => Some(TaskView { id, status, artifacts: Some(arts) }),
                    None => None,
                },
                Some(_) => None,
            },
            None => None,
        },
        _ => None,
    }
}

/// A lookup over concatenated field lists is decided by the first list when
/// it binds the name, and by the second otherwise.
proof fn lemma_lookup_append(
    a: Seq<(Seq<char>, JsonVal)>,
    b: Seq<(Seq<char>, JsonVal)>,
    name: Seq<char>,
)
    ensures
        lookup_fields(a + b, name) == match lookup_fields(a, name) {
            Some(v) => Some(v),
            None => lookup_fields(b, name),
        },
    decreases a.len(),
{
    if a.len() == 0 {
        assert(a + b =~= b);
    } else {
        assert((a + b)[0] == a[0]);
        assert((a + b).drop_first() =~= a.drop_first() + b);
        lemma_lookup_append(a.drop_first(), b, name);
    }
}

/// A field list of at most one binding, under another name, misses this one.
proof fn lemma_lookup_miss(seg: Seq<(Seq<char>, JsonVal)>, bound: Seq<char>, name: Seq<char>)
    requires
        seg.len() <= 1,
        seg.len() == 1 ==> seg[0].0 == bound,
        name != bound,
    ensures
        lookup_fields(seg, name) is None,
{
    if seg.len() == 1 {
        let e = Seq::<(Seq<char>, JsonVal)>::empty();
        assert(seg.drop_first() =~= e);
        assert(lookup_fields(e, name) is None);
        assert(lookup_fields(seg, name) == lookup_fields(e, name));
    }
}

/// Reading back the layout of file content yields that content.
pub proof fn lemma_file_round_trip(f: FileContentView)
    ensures
        file_from_json_spec(file_to_json_spec(f)) == Some(f),
{
    reveal_strlit("name");
    reveal_strlit("mimeType");
    reveal_strlit("bytes");
    reveal_strlit("uri");
    assert(("name"@).len() == 4);
    assert(("mimeType"@).len() == 8);
    assert(("bytes"@).len() == 5);
    assert(("uri"@).len() == 3);
    match f {
        FileContentView::Bytes(b) => {
            let name_seg = opt_str_field("name"@, b.base.name);
            let mime_seg = opt_str_field("mimeType"@, b.base.mime_type);
            let bytes_seg = seq![("bytes"@, JsonVal::Str(b.bytes))];
            let fields = file_bytes_fields_spec(b);
            assert(fields == (name_seg + mime_seg) + bytes_seg);
            lemma_lookup_append(name_seg + mime_seg, bytes_seg, "name"@);
            lemma_lookup_append(name_seg, mime_seg, "name"@);
            lemma_lookup_miss(mime_seg, "mimeType"@, "name"@);
            lemma_lookup_miss(bytes_seg, "bytes"@, "name"@);
            lemma_lookup_append(name_seg + mime_seg, bytes_seg, "mimeType"@);
            lemma_lookup_append(name_seg, mime_seg, "mimeType"@);
            lemma_lookup_miss(name_seg, "name"@, "mimeType"@);
            lemma_lookup_miss(bytes_seg, "bytes"@, "mimeType"@);
            lemma_lookup_append(name_seg + mime_seg, bytes_seg, "bytes"@);
            lemma_lookup_append(name_seg, mime_seg, "bytes"@);
            lemma_lookup_miss(name_seg, "name"@, "bytes"@);
            lemma_lookup_miss(mime_seg, "mimeType"@, "bytes"@);
            assert(lookup_fields(bytes_seg, "bytes"@) == Some(JsonVal::Str(b.bytes)));
        },
        FileContentView::Uri(u) => {
            let name_seg = opt_str_field("name"@, u.base.name);
            let mime_seg = opt_str_field("mimeType"@, u.base.mime_type);
            let uri_seg = seq![("uri"@, JsonVal::Str(u.uri))];
            let fields = file_uri_fields_spec(u);
            assert(fields == (name_seg + mime_seg) + uri_seg);
            lemma_lookup_append(name_seg + mime_seg, uri_seg, "name"@);
            lemma_lookup_append(name_seg, mime_seg, "name"@);
            lemma_lookup_miss(mime_seg, "mimeType"@, "name"@);
            lemma_lookup_miss(uri_seg, "uri"@, "name"@);
            lemma_lookup_append(name_seg + mime_seg, uri_seg, "mimeType"@);
            lemma_lookup_append(name_seg, mime_seg, "mimeType"@);
            lemma_lookup_miss(name_seg, "name"@, "mimeType"@);
            lemma_lookup_miss(uri_seg, "uri"@, "mimeType"@);
            lemma_lookup_append(name_seg + mime_seg, uri_seg, "bytes"@);
            lemma_lookup_append(name_seg, mime_seg, "bytes"@);
            lemma_lookup_miss(name_seg, "name"@, "bytes"@);
            lemma_lookup_miss(mime_seg, "mimeType"@, "bytes"@);
            lemma_lookup_miss(uri_seg, "uri"@, "bytes"@);
            lemma_lookup_append(name_seg + mime_seg, uri_seg, "uri"@);
            lemma_lookup_append(name_seg, mime_seg, "uri"@);
            lemma_lookup_miss(name_seg, "name"@, "uri"@);
            lemma_lookup_miss(mime_seg, "mimeType"@, "uri"@);
            assert(lookup_fields(uri_seg, "uri"@) == Some(JsonVal::Str(u.uri)));
        },
    }
}

/// Reading back the layout of a part yields that part.
pub proof fn lemma_part_round_trip(p: PartView)
    ensures
        part_from_json_spec(part_to_json_spec(p)) == Some(p),
{
    reveal_strlit("type");
    reveal_strlit("text");
    reveal_strlit("file");
    reveal_strlit("data");
    reveal_strlit("metadata");
    assert(("type"@).len() == 4 && ("type"@)[0] == 't' && ("type"@)[1] == 'y');
    assert(("text"@).len() == 4 && ("text"@)[0] == 't' && ("text"@)[1] == 'e');
    assert(("file"@).len() == 4 && ("file"@)[0] == 'f');
    assert(("data"@).len() == 4 && ("data"@)[0] == 'd');
    assert(("metadata"@).len() == 8);
    let t_seg = opt_str_field("type"@, p.part_type);
    let x_seg = opt_str_field("text"@, p.text);
    let f_seg: Seq<(Seq<char>, JsonVal)> = match p.file {
        Some(f) => seq![("file"@, file_to_json_spec(f))],
        None => Seq::empty(),
    };
    let d_seg = opt_obj_field("data"@, p.data);
    let m_seg = opt_obj_field("metadata"@, p.metadata);
    let names = seq!["type"@, "text"@, "file"@, "data"@, "metadata"@];
    assert forall|k: int| 0 <= k < 5 implies #[trigger] lookup_fields(
        (((t_seg + x_seg) + f_seg) + d_seg) + m_seg,
        names[k],
    ) == seg_pick(t_seg, x_seg, f_seg, d_seg, m_seg, k) by {
        let n = names[k];
        lemma_lookup_append(((t_seg + x_seg) + f_seg) + d_seg, m_seg, n);
        lemma_lookup_append((t_seg + x_seg) + f_seg, d_seg, n);
        lemma_lookup_append(t_seg + x_seg, f_seg, n);
        lemma_lookup_append(t_seg, x_seg, n);
        if k != 0 {
            lemma_lookup_miss(t_seg, "type"@, n);
        }
        if k != 1 {
            lemma_lookup_miss(x_seg, "text"@, n);
        }
        if k != 2 {
            lemma_lookup_miss(f_seg, "file"@, n);
        }
        if k != 3 {
            lemma_lookup_miss(d_seg, "data"@, n);
        }
        if k != 4 {
            lemma_lookup_miss(m_seg, "metadata"@, n);
        }
    }
    match p.file {
        Some(f) => {
            lemma_file_round_trip(f);
        },
        None => {},
    }
}

/// Which segment a part-field lookup lands in, by the field's position.
spec fn seg_pick(
    t_seg: Seq<(Seq<char>, JsonVal)>,
    x_seg: Seq<(Seq<char>, JsonVal)>,
    f_seg: Seq<(Seq<char>, JsonVal)>,
    d_seg: Seq<(Seq<char>, JsonVal)>,
    m_seg: Seq<(Seq<char>, JsonVal)>,
    k: int,
) -> Option<JsonVal> {
    let seg = if k == 0 {
        t_seg
    } else if k == 1 {
        x_seg
    } else if k == 2 {
        f_seg
    } else if k == 3 {
        d_seg
    } else {
        m_seg
    };
    if seg.len() == 0 {
        None
    } else {
        Some(seg[0].1)
    }
}

/// Reading back the layout of a parts list yields those parts.
pub proof fn lemma_parts_round_trip(ps: Seq<PartView>)
    ensures
        parts_from_json_spec(parts_to_json_spec(ps)) == Some(ps),
    decreases ps.len(),
{
    let enc = parts_to_json_spec(ps);
    if ps.len() > 0 {
        assert(enc.drop_last() =~= parts_to_json_spec(ps.drop_last()));
        lemma_parts_round_trip(ps.drop_last());
        lemma_part_round_trip(ps.last());
        assert(ps.drop_last().push(ps.last()) =~= ps);
    }
}

/// Reading back the layout of an artifact yields that artifact.
pub proof fn lemma_artifact_round_trip(a: ArtifactView)
    ensures
        artifact_from_json_spec(artifact_to_json_spec(a)) == Some(a),
{
    reveal_strlit("name");
    reveal_strlit("description");
    reveal_strlit("parts");
    reveal_strlit("index");
    reveal_strlit("append");
    reveal_strlit("metadata");
    reveal_strlit("lastChunk");
    assert(("name"@).len() == 4);
    assert(("description"@).len() == 11);
    assert(("parts"@).len() == 5 && ("parts"@)[0] == 'p');
    assert(("index"@).len() == 5 && ("index"@)[0] == 'i');
    assert(("append"@).len() == 6);
    assert(("metadata"@).len() == 8);
    assert(("lastChunk"@).len() == 9);
    let n_seg = opt_str_field("name"@, a.name);
    let de_seg = opt_str_field("description"@, a.description);
    let p_seg = seq![("parts"@, JsonVal::Arr(parts_to_json_spec(a.parts)))];
    let i_seg: Seq<(Seq<char>, JsonVal)> = match a.index {
        Some(n) => seq![("index"@, JsonVal::Int(n as int))],
        None => Seq::empty(),
    };
    let ap_seg = opt_bool_field("append"@, a.append);
    let m_seg = opt_obj_field("metadata"@, a.metadata);
    let l_seg = opt_bool_field("lastChunk"@, a.last_chunk);
    let names = seq![
        "name"@,
        "description"@,
        "parts"@,
        "index"@,
        "append"@,
        "metadata"@,
        "lastChunk"@,
    ];
    assert forall|k: int| 0 <= k < 7 implies #[trigger] lookup_fields(
        (((((n_seg + de_seg) + p_seg) + i_seg) + ap_seg) + m_seg) + l_seg,
        names[k],
    ) == artifact_seg_pick(n_seg, de_seg, p_seg, i_seg, ap_seg, m_seg, l_seg, k) by {
        let n = names[k];
        lemma_lookup_append((((((n_seg + de_seg) + p_seg) + i_seg) + ap_seg) + m_seg), l_seg, n);
        lemma_lookup_append(((((n_seg + de_seg) + p_seg) + i_seg) + ap_seg), m_seg, n);
        lemma_lookup_append((((n_seg + de_seg) + p_seg) + i_seg), ap_seg, n);
        lemma_lookup_append(((n_seg + de_seg) + p_seg), i_seg, n);
        lemma_lookup_append((n_seg + de_seg), p_seg, n);
        lemma_lookup_append(n_seg, de_seg, n);
        if k != 0 {
            lemma_lookup_miss(n_seg, "name"@, n);
        }
        if k != 1 {
            lemma_lookup_miss(de_seg, "description"@, n);
        }
        if k != 2 {
            lemma_lookup_miss(p_seg, "parts"@, n);
        }
        if k != 3 {
            lemma_lookup_miss(i_seg, "index"@, n);
        }
        if k != 4 {
            lemma_lookup_miss(ap_seg, "append"@, n);
        }
        if k != 5 {
            lemma_lookup_miss(m_seg, "metadata"@, n);
        }
        if k != 6 {
            lemma_lookup_miss(l_seg, "lastChunk"@, n);
        }
    }
    lemma_parts_round_trip(a.parts);
    match a.index {
        Some(n) => {
            assert(-0x8000_0000 <= n as int <= 0x7fff_ffff);
            assert((n as int) as i32 == n);
        },
        None => {},
    }
}

/// Which segment an artifact-field lookup lands in, by the field's position.
spec fn artifact_seg_pick(
    n_seg: Seq<(Seq<char>, JsonVal)>,
    de_seg: Seq<(Seq<char>, JsonVal)>,
    p_seg: Seq<(Seq<char>, JsonVal)>,
    i_seg: Seq<(Seq<char>, JsonVal)>,
    ap_seg: Seq<(Seq<char>, JsonVal)>,
    m_seg: Seq<(Seq<char>, JsonVal)>,
    l_seg: Seq<(Seq<char>, JsonVal)>,
    k: int,
) -> Option<JsonVal> {
    let seg = if k == 0 {
        n_seg
    } else if k == 1 {
        de_seg
    } else if k == 2 {
        p_seg
    } else if k == 3 {
        i_seg
    } else if k == 4 {
        ap_seg
    } else if k == 5 {
        m_seg
    } else {
        l_seg
    };
    if seg.len() == 0 {
        None
    } else {
        Some(seg[0].1)
    }
}

/// Reading back the layout of an artifact list yields those artifacts.
pub proof fn lemma_artifacts_round_trip(arts: Seq<ArtifactView>)
    ensures
        artifacts_from_json_spec(artifacts_to_json_spec(arts)) == Some(arts),
    decreases arts.len(),
{
    let enc = artifacts_to_json_spec(arts);
    if arts.len() > 0 {
        assert(enc.drop_last() =~= artifacts_to_json_spec(arts.drop_last()));
        lemma_artifacts_round_trip(arts.drop_last());
        lemma_artifact_round_trip(arts.last());
        assert(arts.drop_last().push(arts.last()) =~= arts);
    }
}

/// Serializing a task and reading it back yields an equal record. In
/// particular a task with no artifacts comes back with the artifact list
/// still absent, rather than empty.
pub proof fn lemma_task_round_trip(t: TaskView)
    ensures
        task_from_json_spec(task_to_json_spec(t)) == Some(t),
{
    reveal_strlit("id");
    reveal_strlit("status");
    reveal_strlit("artifacts");
    assert(("id"@).len() == 2);
    assert(("status"@).len() == 6);
    assert(("artifacts"@).len() == 9);
    let head = seq![("id"@, JsonVal::Str(t.id)), ("status"@, status_to_json_spec(t.status))];
    let a_seg: Seq<(Seq<char>, JsonVal)> = match t.artifacts {
        Some(arts) => seq![("artifacts"@, JsonVal::Arr(artifacts_to_json_spec(arts)))],
        None => Seq::empty(),
    };
    let fields = head + a_seg;
    assert(task_to_json_spec(t) == JsonVal::Obj(fields));
    lemma_lookup_append(head, a_seg, "id"@);
    lemma_lookup_append(head, a_seg, "status"@);
    lemma_lookup_append(head, a_seg, "artifacts"@);
    assert(lookup_fields(head, "id"@) == Some(JsonVal::Str(t.id)));
    let rest = seq![("status"@, status_to_json_spec(t.status))];
    assert(head.drop_first() =~= rest);
    assert(lookup_fields(head, "status"@) == lookup_fields(rest, "status"@));
    assert(lookup_fields(rest, "status"@) == Some(status_to_json_spec(t.status)));
    assert(lookup_fields(head, "artifacts"@) == lookup_fields(rest, "artifacts"@));
    let e = Seq::<(Seq<char>, JsonVal)>::empty();
    assert(rest.drop_first() =~= e);
    assert(lookup_fields(e, "artifacts"@) is None);
    assert(lookup_fields(rest, "artifacts"@) == lookup_fields(e, "artifacts"@));
    lemma_status_round_trip(t.status);
    match t.artifacts {
        Some(arts) => {
            lemma_artifacts_round_trip(arts);
        },
        None => {},
    }
}

pub(crate) fn get_opt_str(v: &JsonValue, name: &str) -> (r: Result<Option<String>, ()>)
    ensures
        match r {
            Ok(o) => opt_str_from(v@, name@) == Some(opt_str_view(o)),
            Err(_) => opt_str_from(v@, name@) is None,
        },
{
    match v.get(name) {
        None => Ok(None),
        Some(JsonValue::Null) => Ok(None),
        Some(JsonValue::Str(s)) => Ok(Some(s.clone())),
        Some(_) => Err(()),
    }
}

pub(crate) fn get_opt_bool(v: &JsonValue, name: &str) -> (r: Result<Option<bool>, ()>)
    ensures
        match r {
            Ok(o) => opt_bool_from(v@, name@) == Some(o),
            Err(_) => opt_bool_from(v@, name@) is None,
        },
{
    match v.get(name) {
        None => Ok(None),
        Some(JsonValue::Null) => Ok(None),
        Some(JsonValue::Bool(b)) => Ok(Some(*b)),
        Some(_) => Err(()),
    }
}

pub(crate) fn get_opt_i32(v: &JsonValue, name: &str) -> (r: Result<Option<i32>, ()>)
    ensures
        match r {
            Ok(o) => opt_i32_from(v@, name@) == Some(o),
            Err(_) => opt_i32_from(v@, name@) is None,
        },
{
    match v.get(name) {
        None => Ok(None),
        Some(JsonValue::Null) => Ok(None),
        Some(JsonValue::Int(n)) => {
            let n = *n;
            if -0x8000_0000i64 <= n && n <= 0x7fff_ffffi64 {
                Ok(Some(n as i32))
            } else {
                Err(())
            }
        },
        Some(_) => Err(()),
    }
}

pub(crate) fn get_opt_fields(v: &JsonValue, name: &str) -> (r: Result<Option<Vec<(String, JsonValue)>>, ()>)
    ensures
        match r {
            Ok(o) => opt_obj_from(v@, name@) == Some(crate::types::opt_obj_view(o)),
            Err(_) => opt_obj_from(v@, name@) is None,
        },
{
    match v.get(name) {
        None => Ok(None),
        Some(JsonValue::Null) => Ok(None),
        Some(JsonValue::Obj(fs)) => Ok(Some(crate::types::clone_fields(fs))),
        Some(_) => Err(()),
    }
}

pub fn file_from_json(v: &JsonValue) -> (r: Option<FileContent>)
    ensures
        match r {
            Some(f) => file_from_json_spec(v@) == Some(f@),
            None => file_from_json_spec(v@) is None,
        },
{
    if !(matches!(v, JsonValue::Obj(_))) {
        return None;
    }
    let name = match get_opt_str(v, "name") {
        Ok(o) => o,
        Err(_) => {
            return None;
        },
    };
    let mime_type = match get_opt_str(v, "mimeType") {
        Ok(o) => o,
        Err(_) => {
            return None;
        },
    };
    let base = FileContentBase { name, mime_type };
    match v.get("bytes") {
        Some(JsonValue::Str(b)) => Some(
            FileContent::Bytes(FileContentBytes { base, bytes: b.clone() }),
        ),
        _ => match v.get("uri") {
            Some(JsonValue::Str(u)) => Some(
                FileContent::Uri(FileContentUri { base, uri: u.clone() }),
            ),
            _ => None,
        },
    }
}

pub fn part_from_json(v: &JsonValue) -> (r: Option<Part>)
    ensures
        match r {
            Some(p) => part_from_json_spec(v@) == Some(p@),
            None => part_from_json_spec(v@) is None,
        },
{
    if !(matches!(v, JsonValue::Obj(_))) {
        return None;
    }
    let part_type = match get_opt_str(v, "type") {
        Ok(o) => o,
        Err(_) => {
            return None;
        },
    };
    let text = match get_opt_str(v, "text") {
        Ok(o) => o,
        Err(_) => {
            return None;
        },
    };
    let file = match v.get("file") {
        None => None,
        Some(JsonValue::Null) => None,
        Some(fv) => match file_from_json(fv) {
            Some(f) => Some(f),
            None => {
                return None;
            },
        },
    };
    let data = match get_opt_fields(v, "data") {
        Ok(o) => o,
        Err(_) => {
            return None;
        },
    };
    let metadata = match get_opt_fields(v, "metadata") {
        Ok(o) => o,
        Err(_) => {
            return None;
        },
    };
    Some(Part { part_type, text, file, data, metadata })
}

pub fn parts_from_json(items: &Vec<JsonValue>) -> (r: Option<Vec<Part>>)
    ensures
        match r {
            Some(ps) => parts_from_json_spec(arr_view(items@)) == Some(parts_view(ps@)),
            None => parts_from_json_spec(arr_view(items@)) is None,
        },
{
    proof {
        lemma_arr_view(items@);
    }
    let ghost all = arr_view(items@);
    let mut out: Vec<Part> = Vec::new();
    let mut i: usize = 0;
    while i < items.len()
        invariant
            0 <= i <= items@.len(),
            all == arr_view(items@),
            all.len() == items@.len(),
            forall|j: int| 0 <= j < items@.len() ==> all[j] == json_view(items@[j]),
            out@.len() == i,
            parts_from_json_spec(all.take(i as int)) == Some(parts_view(out@)),
        decreases items@.len() - i,
    {
        let ghost prefix = all.take(i as int);
        match part_from_json(&items[i]) {
            Some(p) => {
                let ghost out_before = parts_view(out@);
                out.push(p);
                proof {
                    let next = all.take(i + 1int);
                    assert(next.drop_last() =~= prefix);
                    assert(next.last() == all[i as int]);
                    assert(parts_view(out@) =~= out_before.push(p@));
                }
            },
            None => {
                proof {
                    lemma_parts_prefix_none(all, i as int);
                }
                return None;
            },
        }
        i = i + 1;
    }
    proof {
        assert(all.take(all.len() as int) =~= all);
    }
    Some(out)
}

/// When one item of a parts array is malformed, the whole array is.
proof fn lemma_parts_prefix_none(items: Seq<JsonVal>, i: int)
    requires
        0 <= i < items.len(),
        part_from_json_spec(items[i]) is None,
    ensures
        parts_from_json_spec(items) is None,
    decreases items.len(),
{
    if items.len() > 0 {
        if i == items.len() - 1 {
        } else {
            assert(items.drop_last()[i] == items[i]);
            lemma_parts_prefix_none(items.drop_last(), i);
        }
    }
}

pub fn message_from_json(v: &JsonValue) -> (r: Option<Message>)
    ensures
        match r {
            Some(m) => message_from_json_spec(v@) == Some(m@),
            None => message_from_json_spec(v@) is None,
        },
{
    let role = match v.get("role") {
        Some(JsonValue::Str(s)) => s.clone(),
        _ => {
            return None;
        },
    };
    match v.get("parts") {
        Some(JsonValue::Arr(items)) => match parts_from_json(items) {
            Some(parts) => Some(Message { role, parts }),
            None => None,
        },
        _ => None,
    }
}

pub fn artifact_from_json(v: &JsonValue) -> (r: Option<Artifact>)
    ensures
        match r {
            Some(a) => artifact_from_json_spec(v@) == Some(a@),
            None => artifact_from_json_spec(v@) is None,
        },
{
    if !(matches!(v, JsonValue::Obj(_))) {
        return None;
    }
    let name = match get_opt_str(v, "name") {
        Ok(o) => o,
        Err(_) => {
            return None;
        },
    };
    let description = match get_opt_str(v, "description") {
        Ok(o) => o,
        Err(_) => {
            return None;
        },
    };
    let parts = match v.get("parts") {
        Some(JsonValue::Arr(items)) => match parts_from_json(items) {
            Some(ps) => ps,
            None => {
                return None;
            },
        },
        _ => {
            return None;
        },
    };
    let index = match get_opt_i32(v, "index") {
        Ok(o) => o,
        Err(_) => {
            return None;
        },
    };
    let append = match get_opt_bool(v, "append") {
        Ok(o) => o,
        Err(_) => {
            return None;
        },
    };
    let metadata = match get_opt_fields(v, "metadata") {
        Ok(o) => o,
        Err(_) => {
            return None;
        },
    };
    let last_chunk = match get_opt_bool(v, "lastChunk") {
        Ok(o) => o,
        Err(_) => {
            return None;
        },
    };
    Some(Artifact { name, description, parts, index, append, metadata, last_chunk })
}

/// When one item of an artifact array is malformed, the whole array is.
proof fn lemma_artifacts_prefix_none(items: Seq<JsonVal>, i: int)
    requires
        0 <= i < items.len(),
        artifact_from_json_spec(items[i]) is None,
    ensures
        artifacts_from_json_spec(items) is None,
    decreases items.len(),
{
    if items.len() > 0 {
        if i == items.len() - 1 {
        } else {
            assert(items.drop_last()[i] == items[i]);
            lemma_artifacts_prefix_none(items.drop_last(), i);
        }
    }
}

pub fn artifacts_from_json(items: &Vec<JsonValue>) -> (r: Option<Vec<Artifact>>)
    ensures
        match r {
            Some(arts) => artifacts_from_json_spec(arr_view(items@)) == Some(
                artifacts_view(arts@),
            ),
            None => artifacts_from_json_spec(arr_view(items@)) is None,
        },
{
    proof {
        lemma_arr_view(items@);
    }
    let ghost all = arr_view(items@);
    let mut out: Vec<Artifact> = Vec::new();
    let mut i: usize = 0;
    while i < items.len()
        invariant
            0 <= i <= items@.len(),
            all == arr_view(items@),
            all.len() == items@.len(),
            forall|j: int| 0 <= j < items@.len() ==> all[j] == json_view(items@[j]),
            out@.len() == i,
            artifacts_from_json_spec(all.take(i as int)) == Some(artifacts_view(out@)),
        decreases items@.len() - i,
    {
        let ghost prefix = all.take(i as int);
        match artifact_from_json(&items[i]) {
            Some(a) => {
                let ghost out_before = artifacts_view(out@);
                out.push(a);
                proof {
                    let next = all.take(i + 1int);
                    assert(next.drop_last() =~= prefix);
                    assert(next.last() == all[i as int]);
                    assert(artifacts_view(out@) =~= out_before.push(a@));
                }
            },
            None => {
                proof {
                    lemma_artifacts_prefix_none(all, i as int);
                }
                return None;
            },
        }
        i = i + 1;
    }
    proof {
        assert(all.take(all.len() as int) =~= all);
    }
    Some(out)
}

pub fn status_from_json(v: &JsonValue) -> (r: Option<TaskStatus>)
    ensures
        match r {
            Some(s) => status_from_json_spec(v@) == Some(s),
            None => status_from_json_spec(v@) is None,
        },
{
    match v.get("state") {
        Some(JsonValue::Str(s)) => {
            if str_eq(s.as_str(), "submitted") {
                Some(TaskStatus { state: TaskState::Submitted })
            } else if str_eq(s.as_str(), "working") {
                Some(TaskStatus { state: TaskState::Working })
            } else if str_eq(s.as_str(), "input-required") {
                Some(TaskStatus { state: TaskState::InputRequired })
            } else if str_eq(s.as_str(), "completed") {
                Some(TaskStatus { state: TaskState::Completed })
            } else if str_eq(s.as_str(), "canceled") {
                Some(TaskStatus { state: TaskState::Canceled })
            } else if str_eq(s.as_str(), "failed") {
                Some(TaskStatus { state: TaskState::Failed })
            } else if str_eq(s.as_str(), "unknown") {
                Some(TaskStatus { state: TaskState::Unknown })
            } else {
                None
            }
        },
        _ => None,
    }
}

pub fn task_from_json(v: &JsonValue) -> (r: Option<Task>)
    ensures
        match r {
            Some(t) => task_from_json_spec(v@) == Some(t@),
            None => task_from_json_spec(v@) is None,
        },
{
    let id = match v.get("id") {
        Some(JsonValue::Str(s)) => s.clone(),
        _ => {
            return None;
        },
    };
    let status = match v.get("status") {
        Some(sv) => match status_from_json(sv) {
            Some(s) => s,
            None => {
                return None;
            },
        },
        None => {
            return None;
        },
    };
    let artifacts = match v.get("artifacts") {
        None => None,
        Some(JsonValue::Null) => None,
        Some(JsonValue::Arr(items)) => match artifacts_from_json(items) {
            Some(arts) => Some(arts),
            None => {
                return None;
            },
        },
        Some(_) => {
            return None;
        },
    };
    Some(Task { id, status, artifacts })
}

} // verus!
