//! A tagged model of JSON values.
//!
//! The wire transport hands the library already-parsed JSON as values of
//! this type; the library validates and builds protocol payloads on it.
//! Objects are ordered field lists; a lookup finds the first binding.

use vstd::prelude::*;

use crate::text::str_eq;

verus! {

/// An executable JSON value.
#[derive(Debug, PartialEq)]
pub enum JsonValue {
    Null,
    Bool(bool),
    Int(i64),
    Str(String),
    Arr(Vec<JsonValue>),
    Obj(Vec<(String, JsonValue)>),
}

/// The mathematical shape of a JSON value.
pub enum JsonVal {
    Null,
    Bool(bool),
    Int(int),
    Str(Seq<char>),
    Arr(Seq<JsonVal>),
    Obj(Seq<(Seq<char>, JsonVal)>),
}

/// The mathematical value of a JSON value.
pub open spec fn json_view(v: JsonValue) -> JsonVal
    decreases v,
{
    match v {
        JsonValue::Null => JsonVal::Null,
        JsonValue::Bool(b) => JsonVal::Bool(b),
        JsonValue::Int(n) => JsonVal::Int(n as int),
        JsonValue::Str(s) => JsonVal::Str(s@),
        JsonValue::Arr(vs) => JsonVal::Arr(arr_view(vs@)),
        JsonValue::Obj(fs) => JsonVal::Obj(obj_view(fs@)),
    }
}

/// The element-wise mathematical value of an array's items.
pub open spec fn arr_view(vs: Seq<JsonValue>) -> Seq<JsonVal>
    decreases vs,
{
    if vs.len() == 0 {
        Seq::empty()
    } else {
        arr_view(vs.drop_last()).push(json_view(vs.last()))
    }
}

/// The field-wise mathematical value of an object's bindings.
pub open spec fn obj_view(fs: Seq<(String, JsonValue)>) -> Seq<(Seq<char>, JsonVal)>
    decreases fs,
{
    if fs.len() == 0 {
        Seq::empty()
    } else {
        obj_view(fs.drop_last()).push((fs.last().0@, json_view(fs.last().1)))
    }
}

impl View for JsonValue {
    type V = JsonVal;

    open spec fn view(&self) -> JsonVal {
        json_view(*self)
    }
}

/// An array's value has one entry for each item, in order.
pub broadcast proof fn lemma_arr_view(vs: Seq<JsonValue>)
    ensures
        (#[trigger] arr_view(vs)).len() == vs.len(),
        forall|i: int| 0 <= i < vs.len() ==> arr_view(vs)[i] == json_view(vs[i]),
    decreases vs.len(),
{
    if vs.len() > 0 {
        lemma_arr_view(vs.drop_last());
    }
}

/// An object's value has one binding for each field, in order.
pub broadcast proof fn lemma_obj_view(fs: Seq<(String, JsonValue)>)
    ensures
        (#[trigger] obj_view(fs)).len() == fs.len(),
        forall|i: int|
            0 <= i < fs.len() ==> obj_view(fs)[i] == (fs[i].0@, json_view(fs[i].1)),
    decreases fs.len(),
{
    if fs.len() > 0 {
        lemma_obj_view(fs.drop_last());
    }
}

/// The first binding of `name` among `fields`, if any.
pub open spec fn lookup_fields(fields: Seq<(Seq<char>, JsonVal)>, name: Seq<char>) -> Option<
    JsonVal,
>
    decreases fields.len(),
{
    if fields.len() == 0 {
        None
    } else if fields[0].0 == name {
        Some(fields[0].1)
    } else {
        lookup_fields(fields.drop_first(), name)
    }
}

/// The field `name` of `v`, when `v` is an object that binds it.
pub open spec fn lookup(v: JsonVal, name: Seq<char>) -> Option<JsonVal> {
    match v {
        JsonVal::Obj(fields) => lookup_fields(fields, name),
        _ => None,
    }
}

impl JsonValue {
    /// The first value bound to `name`, when this is an object with such a field.
    pub fn get<'a>(&'a self, name: &str) -> (r: Option<&'a JsonValue>)
        ensures
            match r {
                Some(v) => lookup(self@, name@) == Some(v@),
                None => lookup(self@, name@) is None,
            },
    {
        match self {
            JsonValue::Obj(fields) => {
                proof {
                    lemma_obj_view(fields@);
                }
                let ghost vf = obj_view(fields@);
                let mut i: usize = 0;
                while i < fields.len()
                    invariant
                        0 <= i <= fields@.len(),
                        vf == obj_view(fields@),
                        vf.len() == fields@.len(),
                        forall|j: int|
                            0 <= j < fields@.len() ==> vf[j] == (
                            fields@[j].0@,
                            json_view(fields@[j].1),
                            ),
                        self@ == JsonVal::Obj(vf),
                        forall|j: int| 0 <= j < i ==> vf[j].0 != name@,
                    decreases fields@.len() - i,
                {
                    if str_eq(fields[i].0.as_str(), name) {
                        proof {
                            lemma_lookup_fields_from(vf, name@, i as int);
                            assert(vf.skip(i as int)[0] == vf[i as int]);
                        }
                        return Some(&fields[i].1);
                    }
                    i = i + 1;
                }
                proof {
                    lemma_lookup_fields_from(vf, name@, vf.len() as int);
                    assert(vf.skip(vf.len() as int).len() == 0);
                }
                None
            },
            _ => None,
        }
    }
}

/// A value equal to the given one. JSON values own heap data, so this walks
/// the structure.
#[verifier::loop_isolation(false)]
pub fn clone_json(v: &JsonValue) -> (r: JsonValue)
    ensures
        r@ == v@,
    decreases *v,
{
    match v {
        JsonValue::Null => JsonValue::Null,
        JsonValue::Bool(b) => JsonValue::Bool(*b),
        JsonValue::Int(n) => JsonValue::Int(*n),
        JsonValue::Str(s) => JsonValue::Str(s.clone()),
        JsonValue::Arr(vs) => {
            let mut out: Vec<JsonValue> = Vec::new();
            let mut i: usize = 0;
            while i < vs.len()
                invariant
                    0 <= i <= vs@.len(),
                    out@.len() == i,
                    forall|j: int| 0 <= j < i ==> out@[j]@ == vs@[j]@,
                decreases vs@.len() - i,
            {
                proof {
                    assert(decreases_to!(*v => v->Arr_0));
                    assert(decreases_to!(v->Arr_0 => v->Arr_0@));
                    assert(decreases_to!(v->Arr_0@ => v->Arr_0@[i as int]));
                    assert(v->Arr_0@[i as int] == vs@[i as int]);
                }
                out.push(clone_json(&vs[i]));
                i = i + 1;
            }
            proof {
                lemma_arr_view(out@);
                lemma_arr_view(vs@);
                assert(arr_view(out@) =~= arr_view(vs@));
            }
            JsonValue::Arr(out)
        },
        JsonValue::Obj(fs) => {
            let mut out: Vec<(String, JsonValue)> = Vec::new();
            let mut i: usize = 0;
            while i < fs.len()
                invariant
                    0 <= i <= fs@.len(),
                    out@.len() == i,
                    forall|j: int|
                        0 <= j < i ==> out@[j].0@ == fs@[j].0@ && out@[j].1@ == fs@[j].1@,
                decreases fs@.len() - i,
            {
                proof {
                    assert(decreases_to!(*v => v->Obj_0));
                    assert(decreases_to!(v->Obj_0 => v->Obj_0@));
                    assert(decreases_to!(v->Obj_0@ => v->Obj_0@[i as int]));
                    assert(decreases_to!(v->Obj_0@[i as int] => v->Obj_0@[i as int].1));
                    assert(v->Obj_0@[i as int].1 == fs@[i as int].1);
                }
                let name = fs[i].0.clone();
                let value = clone_json(&fs[i].1);
                out.push((name, value));
                i = i + 1;
            }
            proof {
                lemma_obj_view(out@);
                lemma_obj_view(fs@);
                assert(obj_view(out@) =~= obj_view(fs@));
            }
            JsonValue::Obj(out)
        },
    }
}

/// While every binding before `i` misses `name`, the lookup is decided at or
/// after `i`: it returns the first binding from `i` on, or nothing.
proof fn lemma_lookup_fields_from(fields: Seq<(Seq<char>, JsonVal)>, name: Seq<char>, i: int)
    requires
        0 <= i <= fields.len(),
        forall|j: int| 0 <= j < i ==> fields[j].0 != name,
    ensures
        lookup_fields(fields, name) == lookup_fields(fields.skip(i), name),
    decreases i,
{
    if i > 0 {
        assert(fields.drop_first() =~= fields.skip(1));
        lemma_lookup_fields_from(fields.drop_first(), name, i - 1);
        assert(fields.drop_first().skip(i - 1) =~= fields.skip(i));
    } else {
        assert(fields.skip(0) =~= fields);
    }
}

} // verus!
