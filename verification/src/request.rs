//! Building the one HTTP request a call makes.
//!
//! A `CallDescriptor` pairs a method name with its present parameters (an
//! absent optional parameter has no entry at all — it is omitted, never
//! null), an optional file-bearing field, and the declared result shape.
//! Without a local file the body is the JSON object of the parameters;
//! with one it is multipart: every parameter as a text part plus exactly
//! one binary part.  Remote file ids and URLs are never promoted to binary
//! parts: they travel as plain string fields.

use vstd::prelude::*;
use crate::json::{JsonV, JsonValue, jv_fields, field, spec_encode, lemma_jv_fields};

verus! {

/// A reference to file content: a path on this machine, an id the server
/// already knows, or a URL the server fetches.
pub enum FileRef {
    LocalPath(String),
    RemoteId(String),
    Url(String),
}

pub enum FileRefV {
    LocalPath(Seq<char>),
    RemoteId(Seq<char>),
    Url(Seq<char>),
}

impl View for FileRef {
    type V = FileRefV;

    open spec fn view(&self) -> FileRefV {
        match self {
            FileRef::LocalPath(p) => FileRefV::LocalPath(p@),
            FileRef::RemoteId(s) => FileRefV::RemoteId(s@),
            FileRef::Url(s) => FileRefV::Url(s@),
        }
    }
}

/// What the file resolver hands the transport: a plain string field, or a
/// binary part streamed from a local path.
pub enum Resolved {
    InlineString(String),
    BinaryPart(String),
}

pub enum ResolvedV {
    InlineString(Seq<char>),
    BinaryPart(Seq<char>),
}

impl View for Resolved {
    type V = ResolvedV;

    open spec fn view(&self) -> ResolvedV {
        match self {
            Resolved::InlineString(s) => ResolvedV::InlineString(s@),
            Resolved::BinaryPart(p) => ResolvedV::BinaryPart(p@),
        }
    }
}

impl FileRef {
    /// Normalize the reference: ids and URLs pass through as strings, only
    /// a local path becomes a binary part.
    pub fn resolve(self) -> (r: Resolved)
        ensures
            r@ == match self@ {
                FileRefV::LocalPath(p) => ResolvedV::BinaryPart(p),
                FileRefV::RemoteId(s) => ResolvedV::InlineString(s),
                FileRefV::Url(s) => ResolvedV::InlineString(s),
            },
    {
        match self {
            FileRef::LocalPath(p) => Resolved::BinaryPart(p),
            FileRef::RemoteId(s) => Resolved::InlineString(s),
            FileRef::Url(s) => Resolved::InlineString(s),
        }
    }
}

/// The shape a call's `result` is declared to decode into.
#[derive(Clone, Copy, PartialEq, Eq, Structural, Debug)]
pub enum ResultShape {
    Bool,
    Int,
    User,
    Chat,
    Message,
    Updates,
    File,
    ChatMember,
    ChatMembers,
    UserProfilePhotos,
    Raw,
}

/// The static description of one remote call.
pub struct CallDescriptor {
    pub method: String,
    pub params: Vec<(String, JsonValue)>,
    pub file_field: Option<(String, FileRef)>,
    pub expect: ResultShape,
}

pub struct CallDescriptorV {
    pub method: Seq<char>,
    pub params: Seq<(Seq<char>, JsonV)>,
    pub file_field: Option<(Seq<char>, FileRefV)>,
    pub expect: ResultShape,
}

impl View for CallDescriptor {
    type V = CallDescriptorV;

    open spec fn view(&self) -> CallDescriptorV {
        CallDescriptorV {
            method: self.method@,
            params: jv_fields(self.params@),
            file_field: match self.file_field {
                Some((name, file)) => Some((name@, file@)),
                None => None,
            },
            expect: self.expect,
        }
    }
}

/// One part of a multipart body.
pub enum Part {
    Text(String, String),
    Binary(String, String),
}

pub enum PartV {
    Text(Seq<char>, Seq<char>),
    Binary(Seq<char>, Seq<char>),
}

impl View for Part {
    type V = PartV;

    open spec fn view(&self) -> PartV {
        match self {
            Part::Text(name, value) => PartV::Text(name@, value@),
            Part::Binary(name, path) => PartV::Binary(name@, path@),
        }
    }
}

/// The body of the one HTTP exchange a call makes.
pub enum RequestBody {
    Json(JsonValue),
    Multipart(Vec<Part>),
}

pub enum RequestBodyV {
    Json(JsonV),
    Multipart(Seq<PartV>),
}

impl View for RequestBody {
    type V = RequestBodyV;

    open spec fn view(&self) -> RequestBodyV {
        match self {
            RequestBody::Json(v) => RequestBodyV::Json(v@),
            RequestBody::Multipart(parts) => RequestBodyV::Multipart(view_parts(parts@)),
        }
    }
}

pub open spec fn view_parts(parts: Seq<Part>) -> Seq<PartV> {
    parts.map_values(|p: Part| p@)
}

/// How one parameter travels as a multipart text part: a string goes raw,
/// anything else as its JSON text.
pub open spec fn text_of(v: JsonV) -> Seq<char> {
    match v {
        JsonV::Str(s) => s,
        _ => spec_encode(v),
    }
}

/// The text parts of a multipart body: every parameter, in order.
pub open spec fn text_parts(params: Seq<(Seq<char>, JsonV)>) -> Seq<PartV> {
    params.map_values(|p: (Seq<char>, JsonV)| PartV::Text(p.0, text_of(p.1)))
}

/// The body a descriptor yields.
pub open spec fn spec_build_body(d: CallDescriptorV) -> RequestBodyV {
    match d.file_field {
        None => RequestBodyV::Json(JsonV::Obj(d.params)),
        Some((name, FileRefV::RemoteId(s))) => RequestBodyV::Json(
            JsonV::Obj(d.params + field(name, JsonV::Str(s))),
        ),
        Some((name, FileRefV::Url(s))) => RequestBodyV::Json(
            JsonV::Obj(d.params + field(name, JsonV::Str(s))),
        ),
        Some((name, FileRefV::LocalPath(p))) => RequestBodyV::Multipart(
            text_parts(d.params).push(PartV::Binary(name, p)),
        ),
    }
}

/// Build the request body for one call.  Exactly the parameters the
/// descriptor lists appear; a parameter the caller left absent is not
/// there at all.
pub fn build_body(d: CallDescriptor) -> (r: RequestBody)
    ensures
        r@ == spec_build_body(d@),
{
    let ghost dv = d@;
    let CallDescriptor { method: _, params, file_field, expect: _ } = d;
    match file_field {
        None => RequestBody::Json(JsonValue::Obj(params)),
        Some((name, file)) => {
            match file.resolve() {
                Resolved::InlineString(s) => {
                    let mut fields = params;
                    let ghost before = fields@;
                    fields.push((name, JsonValue::Str(s)));
                    proof {
                        lemma_jv_fields(fields@);
                        lemma_jv_fields(before);
                        assert(jv_fields(fields@) =~= jv_fields(before) + field(
                            fields@.last().0@,
                            JsonV::Str(fields@.last().1->Str_0@),
                        ));
                    }
                    RequestBody::Json(JsonValue::Obj(fields))
                },
                Resolved::BinaryPart(p) => {
                    let mut parts: Vec<Part> = Vec::new();
                    let n = params.len();
                    let mut i: usize = 0;
                    let mut it = params;
                    proof {
                        lemma_jv_fields(it@);
                    }
                    while i < n
                        invariant
                            i <= n,
                            n == it@.len(),
                            jv_fields(it@) == dv.params,
                            jv_fields(it@).len() == it@.len(),
                            forall|j: int|
                                0 <= j < it@.len() ==> jv_fields(it@)[j] == (
                                it@[j].0@,
                                crate::json::jv(it@[j].1),
                                ),
                            view_parts(parts@) =~= text_parts(dv.params.take(i as int)),
                        decreases n - i,
                    {
                        let (pname, pval) = it_take(&mut it, i);
                        let value_text: String = match pval {
                            JsonValue::Str(s) => s,
                            other => other.to_text(),
                        };
                        parts.push(Part::Text(pname, value_text));
                        proof {
                            assert(dv.params.take(i as int + 1).drop_last() =~= dv.params.take(
                                i as int,
                            ));
                            assert(view_parts(parts@) =~= text_parts(dv.params.take(i as int))
                                .push(PartV::Text(dv.params[i as int].0, text_of(
                                dv.params[i as int].1,
                            ))));
                            assert(text_parts(dv.params.take(i as int + 1)) =~= text_parts(
                                dv.params.take(i as int),
                            ).push(PartV::Text(dv.params[i as int].0, text_of(
                                dv.params[i as int].1,
                            ))));
                        }
                        i = i + 1;
                    }
                    parts.push(Part::Binary(name, p));
                    proof {
                        assert(dv.params.take(dv.params.len() as int) =~= dv.params);
                        assert(view_parts(parts@) =~= text_parts(dv.params).push(
                            PartV::Binary(name@, p@),
                        ));
                    }
                    RequestBody::Multipart(parts)
                },
            }
        },
    }
}

/// Clone-free read of one parameter pair by index.
fn it_take(params: &mut Vec<(String, JsonValue)>, i: usize) -> (r: (String, JsonValue))
    requires
        i < old(params)@.len(),
    ensures
        final(params)@ == old(params)@,
        r.0@ == old(params)@[i as int].0@,
        r.1@ == old(params)@[i as int].1@,
{
    let (name, value) = clone_pair(&params[i]);
    (name, value)
}

/// Deep copy of one field pair, keeping its mathematical value.
fn clone_pair(p: &(String, JsonValue)) -> (r: (String, JsonValue))
    ensures
        r.0@ == p.0@,
        r.1@ == p.1@,
{
    (p.0.clone(), clone_json(&p.1))
}

/// Deep copy of a JSON tree, keeping its mathematical value.
pub fn clone_json(v: &JsonValue) -> (r: JsonValue)
    ensures
        r@ == v@,
    decreases *v,
{
    match v {
        JsonValue::Null => JsonValue::Null,
        JsonValue::Bool(b) => JsonValue::Bool(*b),
        JsonValue::Int(i) => JsonValue::Int(*i),
        JsonValue::Str(s) => JsonValue::Str(s.clone()),
        JsonValue::Arr(items) => {
            let mut out: Vec<JsonValue> = Vec::new();
            let mut i: usize = 0;
            proof {
                lemma_jv_items_local(items@);
                lemma_jv_items_local(out@);
            }
            while i < items.len()
                invariant
                    i <= items@.len(),
                    out@.len() == i,
                    *v == JsonValue::Arr(*items),
                    forall|j: int|
                        0 <= j < i ==> crate::json::jv(out@[j]) == crate::json::jv(items@[j]),
                decreases items@.len() - i,
            {
                proof {
                    assert((*v)->Arr_0 == *items);
                    assert(decreases_to!(*v => (*v)->Arr_0));
                    assert(decreases_to!(*items => items@));
                    assert(decreases_to!(items@ => items@[i as int]));
                }
                let c = clone_json(&items[i]);
                out.push(c);
                i = i + 1;
            }
            proof {
                lemma_jv_items_local(items@);
                lemma_jv_items_local(out@);
                assert(crate::json::jv_items(out@) =~= crate::json::jv_items(items@));
            }
            JsonValue::Arr(out)
        },
        JsonValue::Obj(fields) => {
            let mut out: Vec<(String, JsonValue)> = Vec::new();
            let mut i: usize = 0;
            while i < fields.len()
                invariant
                    i <= fields@.len(),
                    out@.len() == i,
                    *v == JsonValue::Obj(*fields),
                    forall|j: int|
                        0 <= j < i ==> out@[j].0@ == fields@[j].0@ && crate::json::jv(out@[j].1)
                            == crate::json::jv(fields@[j].1),
                decreases fields@.len() - i,
            {
                proof {
                    assert((*v)->Obj_0 == *fields);
                    assert(decreases_to!(*v => (*v)->Obj_0));
                    assert(decreases_to!(*fields => fields@));
                    assert(decreases_to!(fields@ => fields@[i as int]));
                    assert(decreases_to!(fields@[i as int] => fields@[i as int].1));
                }
                let name = fields[i].0.clone();
                let c = clone_json(&fields[i].1);
                out.push((name, c));
                i = i + 1;
            }
            proof {
                lemma_jv_fields(out@);
                lemma_jv_fields(fields@);
                assert(jv_fields(out@) =~= jv_fields(fields@));
            }
            JsonValue::Obj(out)
        },
    }
}

proof fn lemma_jv_items_local(s: Seq<JsonValue>)
    ensures
        crate::json::jv_items(s).len() == s.len(),
        forall|i: int| 0 <= i < s.len() ==> crate::json::jv_items(s)[i] == crate::json::jv(s[i]),
{
    crate::json::lemma_jv_items(s);
}

/// How many binary parts a multipart body holds.
pub open spec fn count_binary(parts: Seq<PartV>) -> int
    decreases parts,
{
    if parts.len() == 0 {
        0
    } else {
        count_binary(parts.drop_last()) + if parts.last() is Binary {
            1int
        } else {
            0int
        }
    }
}

proof fn lemma_text_parts_no_binary(params: Seq<(Seq<char>, JsonV)>)
    ensures
        count_binary(text_parts(params)) == 0,
    decreases params.len(),
{
    if params.len() > 0 {
        assert(text_parts(params).drop_last() =~= text_parts(params.drop_last()));
        lemma_text_parts_no_binary(params.drop_last());
    }
}

/// A descriptor carrying a local file builds a multipart body with exactly
/// one binary part — the file — and every parameter as a text part.
pub proof fn lemma_local_file_multipart(d: CallDescriptorV, name: Seq<char>, path: Seq<char>)
    requires
        d.file_field == Some((name, FileRefV::LocalPath(path))),
    ensures
        spec_build_body(d) matches RequestBodyV::Multipart(parts) && {
            &&& count_binary(parts) == 1
            &&& parts.len() == d.params.len() + 1
            &&& parts.last() == PartV::Binary(name, path)
            &&& forall|i: int|
                0 <= i < d.params.len() ==> parts[i] == PartV::Text(
                    d.params[i].0,
                    text_of(d.params[i].1),
                )
        },
{
    lemma_text_parts_no_binary(d.params);
    let parts = text_parts(d.params).push(PartV::Binary(name, path));
    assert(parts.drop_last() =~= text_parts(d.params));
}

/// A descriptor without a file field sends plain JSON: exactly the object
/// of its present parameters.
pub proof fn lemma_no_file_sends_json(d: CallDescriptorV)
    requires
        d.file_field is None,
    ensures
        spec_build_body(d) == RequestBodyV::Json(JsonV::Obj(d.params)),
{
}

} // verus!
