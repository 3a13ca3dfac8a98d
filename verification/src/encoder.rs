//! Encoding of one event into the two lines of the bulk wire format: an
//! action header and the document.

use crate::event::{lemma_key_index, lookup, timestamp_text, value_text, Event, Value};
use crate::json::{
    json_text, lemma_object_view, member, member_keys, member_position, members_view, set_member,
    with_member, Json, JsonValue,
};
use crate::template::{missing, rendered, MissingFields, Template};
use crate::bindings::push_char;
use crate::text::{chars_of, opt_text, push_chars, texts};
use vstd::prelude::*;
use vstd::string::*;
use vstd::utf8::encode_utf8;

verus! {

/// The first position at or after `from` that holds a dot, or the length of
/// the key when there is none.
pub open spec fn dot_position(key: Seq<char>, from: int) -> int
    decreases key.len() - from,
{
    if from >= key.len() {
        key.len() as int
    } else if key[from] == '.' {
        from
    } else {
        dot_position(key, from + 1)
    }
}

/// The parts of a dotted key from position `from` on: the texts between the
/// dots, empty ones included.
pub open spec fn key_parts(key: Seq<char>, from: int) -> Seq<Seq<char>>
    decreases key.len() - from,
{
    let dot = dot_position(key, from);
    if from <= dot < key.len() {
        seq![key.subrange(from, dot)] + key_parts(key, dot + 1)
    } else {
        seq![key.subrange(from, key.len() as int)]
    }
}

/// The members after `value` is set at the nested path `path[depth..]`:
/// each part but the last names an object, which is kept when it is there and
/// started empty when the name is free or holds something else.
pub open spec fn with_path(
    members: Seq<(Seq<char>, Json)>,
    path: Seq<Seq<char>>,
    depth: int,
    value: Json,
) -> Seq<(Seq<char>, Json)>
    decreases path.len() - depth,
{
    if depth < 0 || depth >= path.len() {
        members
    } else if depth + 1 == path.len() {
        with_member(members, path[depth], value)
    } else {
        let inner = match member(members, path[depth]) {
            Some(Json::Object(m)) => m,
            _ => Seq::empty(),
        };
        with_member(members, path[depth], Json::Object(with_path(inner, path, depth + 1, value)))
    }
}

/// The JSON value that stands for a field's value in a document.
pub open spec fn leaf(v: Value) -> Json {
    match v {
        Value::Text(s) => Json::Text(s@),
        Value::Integer(n) => Json::Number(n as int),
        Value::Boolean(b) => Json::Bool(b),
        Value::Timestamp(t) => Json::Text(timestamp_text(t)),
    }
}

/// The nested members built from the first `n` fields of an event, each set
/// at the path that its dotted name spells.
pub open spec fn unflattened(fields: Seq<(String, Value)>, n: int) -> Seq<(Seq<char>, Json)>
    decreases n,
{
    if n <= 0 {
        Seq::empty()
    } else {
        with_path(
            unflattened(fields, n - 1),
            key_parts(fields[n - 1].0@, 0),
            0,
            leaf(fields[n - 1].1),
        )
    }
}

/// The document of an event: its fields, nested by their dotted names.
pub open spec fn document(fields: Seq<(String, Value)>) -> Json {
    Json::Object(unflattened(fields, fields.len() as int))
}

/// The identifier of an event under the configured identifier field: the
/// text form of that field, when one is configured and the event has it.
pub open spec fn identifier(id_key: Option<Seq<char>>, fields: Seq<(String, Value)>) -> Option<
    Seq<char>,
> {
    match id_key {
        Some(k) => match lookup(fields, k) {
            Some(v) => Some(value_text(v)),
            None => None,
        },
        None => None,
    }
}

/// The members of an action after the identifier, if any, is set under `_id`.
pub open spec fn with_identifier(members: Seq<(Seq<char>, Json)>, id: Option<Seq<char>>) -> Seq<
    (Seq<char>, Json),
> {
    match id {
        Some(text) => with_member(members, "_id"@, Json::Text(text)),
        None => members,
    }
}

/// The members of an action: the destination name, the type tag and, when
/// there is one, the identifier.
pub open spec fn action_members(index: Seq<char>, doc_type: Seq<char>, id: Option<Seq<char>>) -> Seq<
    (Seq<char>, Json),
> {
    with_identifier(seq![("_index"@, Json::Text(index)), ("_type"@, Json::Text(doc_type))], id)
}

/// The action header for a document: an object whose one member, `index`,
/// holds the members of the action.
pub open spec fn action(index: Seq<char>, doc_type: Seq<char>, id: Option<Seq<char>>) -> Json {
    Json::Object(seq![("index"@, Json::Object(action_members(index, doc_type, id)))])
}

/// The two lines that encode an event, each ended by a line feed.
pub open spec fn encoded_text(
    index: Seq<char>,
    doc_type: Seq<char>,
    id: Option<Seq<char>>,
    fields: Seq<(String, Value)>,
) -> Seq<char> {
    json_text(action(index, doc_type, id)) + seq!['\n'] + json_text(document(fields)) + seq!['\n']
}

/// The bytes that encode an event: the UTF-8 form of its two lines; `None`
/// when the destination name cannot be resolved.
pub open spec fn encoding(
    index: Seq<char>,
    doc_type: Seq<char>,
    id_key: Option<Seq<char>>,
    fields: Seq<(String, Value)>,
) -> Option<Seq<u8>> {
    if missing(index, fields).len() > 0 {
        None
    } else {
        Some(
            encode_utf8(
                encoded_text(rendered(index, fields), doc_type, identifier(id_key, fields), fields),
            ),
        )
    }
}

/// The parts of a dotted key.
pub fn split_key(key: &str) -> (parts: Vec<String>)
    ensures
        texts(parts@) == key_parts(key@, 0),
        parts@.len() > 0,
{
    let chars = chars_of(key);
    let n = chars.len();
    let mut parts: Vec<String> = Vec::new();
    let mut from: usize = 0;
    let mut i: usize = 0;
    while i < n
        invariant
            from <= i <= n,
            n == chars@.len(),
            chars@ == key@,
            dot_position(key@, from as int) == dot_position(key@, i as int),
            texts(parts@) + key_parts(key@, from as int) == key_parts(key@, 0),
        decreases n - i,
    {
        if chars[i] == '.' {
            let ghost done = texts(parts@);
            let mut part = String::new();
            push_chars(&mut part, &chars, from, i);
            parts.push(part);
            proof {
                assert(texts(parts@) =~= done + seq![key@.subrange(from as int, i as int)]);
                assert(key_parts(key@, from as int) == seq![key@.subrange(from as int, i as int)]
                    + key_parts(key@, i + 1));
                assert(texts(parts@) + key_parts(key@, i + 1) =~= done + key_parts(
                    key@,
                    from as int,
                ));
            }
            from = i + 1;
        }
        i = i + 1;
    }
    let ghost done = texts(parts@);
    let mut part = String::new();
    push_chars(&mut part, &chars, from, n);
    parts.push(part);
    proof {
        assert(key_parts(key@, from as int) == seq![key@.subrange(from as int, n as int)]);
        assert(texts(parts@) =~= done + seq![key@.subrange(from as int, n as int)]);
    }
    parts
}

/// Sets `value` at the nested path `path[depth..]` below `members`.
pub fn set_path(
    members: &mut Vec<(String, JsonValue)>,
    path: &Vec<String>,
    depth: usize,
    value: JsonValue,
)
    requires
        depth < path.len(),
    ensures
        members_view(final(members)@) == with_path(
            members_view(old(members)@),
            texts(path@),
            depth as int,
            value@,
        ),
    decreases path.len() - depth,
{
    let key = path[depth].clone();
    assert(key@ == texts(path@)[depth as int]);
    if depth + 1 == path.len() {
        set_member(members, key, value);
    } else {
        let i = member_position(members, key.as_str());
        let mut inner: Vec<(String, JsonValue)> = Vec::new();
        let ghost before = members_view(members@);
        if i < members.len() {
            let taken = members.remove(i);
            match taken.1 {
                JsonValue::Object(m) => {
                    proof {
                        lemma_object_view(m);
                    }
                    inner = m;
                },
                _ => {
                    assert(members_view(inner@) =~= Seq::empty());
                },
            }
            assert(members_view(inner@) == match member(before, key@) {
                Some(Json::Object(m)) => m,
                _ => Seq::empty(),
            });
            set_path(&mut inner, path, depth + 1, value);
            proof {
                lemma_object_view(inner);
            }
            members.insert(i, (key, JsonValue::Object(inner)));
        } else {
            assert(members_view(inner@) =~= Seq::empty());
            set_path(&mut inner, path, depth + 1, value);
            proof {
                lemma_object_view(inner);
            }
            members.push((key, JsonValue::Object(inner)));
        }
        assert(members_view(members@) =~= with_path(before, texts(path@), depth as int, value@));
    }
}

/// The JSON value that stands for a field's value in a document.
pub fn leaf_value(v: &Value) -> (r: JsonValue)
    ensures
        r@ == leaf(*v),
{
    match v {
        Value::Text(s) => JsonValue::Text(s.clone()),
        Value::Integer(n) => JsonValue::Number(*n),
        Value::Boolean(b) => JsonValue::Bool(*b),
        Value::Timestamp(t) => {
            let mut out = String::new();
            t.push_text(&mut out);
            JsonValue::Text(out)
        },
    }
}

/// The document of an event: its fields, nested by their dotted names. A
/// later field replaces what an earlier one left at the same place.
pub fn unflatten(event: &Event) -> (r: JsonValue)
    ensures
        r@ == document(event@),
{
    let mut members: Vec<(String, JsonValue)> = Vec::new();
    let n = event.len();
    let mut i: usize = 0;
    assert(members_view(members@) =~= unflattened(event@, 0));
    while i < n
        invariant
            i <= n,
            n == event@.len(),
            members_view(members@) == unflattened(event@, i as int),
        decreases n - i,
    {
        let (name, value) = event.field(i);
        let path = split_key(name.as_str());
        set_path(&mut members, &path, 0, leaf_value(value));
        i = i + 1;
    }
    proof {
        lemma_object_view(members);
    }
    JsonValue::Object(members)
}

/// The characters of an optional string slice.
pub open spec fn opt_str(key: Option<&str>) -> Option<Seq<char>> {
    match key {
        Some(k) => Some(k@),
        None => None,
    }
}

/// Sets the identifier of an action: when an identifier field is configured
/// and the event has it, the member `_id` of `doc` becomes the text form of
/// that field, and `doc` has to be an object; otherwise `doc`, whatever it
/// is, is left as it is.
pub fn maybe_set_id(key: Option<&str>, doc: &mut JsonValue, event: &Event)
    requires
        identifier(opt_str(key), event@) is Some ==> old(doc)@ is Object,
    ensures
        match identifier(opt_str(key), event@) {
            Some(id) => final(doc)@ == Json::Object(
                with_member(old(doc)@->Object_0, "_id"@, Json::Text(id)),
            ),
            None => *final(doc) == *old(doc),
        },
{
    match key {
        Some(k) => match event.get(k) {
            Some(v) => {
                let id = v.to_text();
                match doc {
                    JsonValue::Object(members) => {
                        proof {
                            lemma_object_view(*members);
                        }
                        set_member(members, String::from_str("_id"), JsonValue::Text(id));
                        proof {
                            lemma_object_view(*members);
                        }
                    },
                    _ => {},
                }
            },
            None => {},
        },
        None => {},
    }
}

/// Encodes one event for the bulk endpoint: the action header with the
/// destination name resolved from `index`, the type tag and, when the
/// identifier field is configured and present, the identifier; a line feed;
/// the document; a line feed. The result is the UTF-8 form of that text.
///
/// Fails exactly when `index` cannot be resolved, and then names every field
/// that the event lacks.
pub fn encode_event(event: &Event, index: &Template, doc_type: &str, id_key: &Option<String>) -> (r:
    Result<Vec<u8>, MissingFields>)
    ensures
        match r {
            Ok(bytes) => encoding(index@, doc_type@, opt_text(*id_key), event@) == Some(bytes@),
            Err(m) => encoding(index@, doc_type@, opt_text(*id_key), event@) is None && texts(
                m.names@,
            ) == missing(index@, event@),
        },
{
    let name = match index.resolve(event) {
        Ok(name) => name,
        Err(m) => {
            return Err(m);
        },
    };
    let mut members: Vec<(String, JsonValue)> = Vec::new();
    members.push((String::from_str("_index"), JsonValue::Text(name)));
    members.push((String::from_str("_type"), JsonValue::text(doc_type)));
    let ghost base = seq![
        ("_index"@, Json::Text(rendered(index@, event@))),
        ("_type"@, Json::Text(doc_type@)),
    ];
    proof {
        lemma_object_view(members);
        assert(members_view(members@) =~= base);
    }
    let mut target = JsonValue::Object(members);
    let key: Option<&str> = match id_key {
        Some(k) => Some(k.as_str()),
        None => None,
    };
    maybe_set_id(key, &mut target, event);
    let mut outer: Vec<(String, JsonValue)> = Vec::new();
    outer.push((String::from_str("index"), target));
    let head = JsonValue::Object(outer);
    proof {
        lemma_object_view(outer);
        assert(members_view(outer@) =~= seq![("index"@, target@)]);
        assert(head@ == action(
            rendered(index@, event@),
            doc_type@,
            identifier(opt_text(*id_key), event@),
        ));
    }
    let body = unflatten(event);
    let mut out = String::new();
    head.write_text(&mut out);
    push_char(&mut out, '\n');
    body.write_text(&mut out);
    push_char(&mut out, '\n');
    proof {
        assert(out@ =~= encoded_text(
            rendered(index@, event@),
            doc_type@,
            identifier(opt_text(*id_key), event@),
            event@,
        ));
    }
    Ok(out.as_str().as_bytes_vec())
}

/// The action header names the destination and the type tag, and names an
/// identifier exactly when an identifier field is configured and the event
/// has that field; the identifier is then the text form of the field.
pub proof fn lemma_action_members(
    index: Seq<char>,
    doc_type: Seq<char>,
    id_key: Option<Seq<char>>,
    fields: Seq<(String, Value)>,
)
    ensures
        member(action_members(index, doc_type, identifier(id_key, fields)), "_index"@) == Some(
            Json::Text(index),
        ),
        member(action_members(index, doc_type, identifier(id_key, fields)), "_type"@) == Some(
            Json::Text(doc_type),
        ),
        match id_key {
            Some(k) => match lookup(fields, k) {
                Some(v) => member(
                    action_members(index, doc_type, identifier(id_key, fields)),
                    "_id"@,
                ) == Some(Json::Text(value_text(v))),
                None => member(
                    action_members(index, doc_type, identifier(id_key, fields)),
                    "_id"@,
                ) is None,
            },
            None => member(action_members(index, doc_type, identifier(id_key, fields)), "_id"@)
                is None,
        },
{
    reveal_strlit("_id");
    reveal_strlit("_index");
    reveal_strlit("_type");
    let base = seq![("_index"@, Json::Text(index)), ("_type"@, Json::Text(doc_type))];
    assert("_index"@[2] != "_id"@[2]);
    assert("_type"@[1] != "_id"@[1]);
    assert("_type"@[1] != "_index"@[1]);
    lemma_key_index(member_keys(base), "_id"@, 2);
    let members = action_members(index, doc_type, identifier(id_key, fields));
    let id = identifier(id_key, fields);
    if id is Some {
        assert(members =~= base.push(("_id"@, Json::Text(id->0))));
    }
    lemma_key_index(member_keys(members), "_index"@, 0);
    lemma_key_index(member_keys(members), "_type"@, 1);
    lemma_key_index(member_keys(members), "_id"@, 2);
}

/// Whether a name has no dot.
pub open spec fn is_flat(key: Seq<char>) -> bool {
    forall|i: int| 0 <= i < key.len() ==> key[i] != '.'
}

/// A name without a dot has one part, itself.
pub proof fn lemma_flat_key(key: Seq<char>)
    requires
        is_flat(key),
    ensures
        key_parts(key, 0) == seq![key],
{
    lemma_no_dot(key, 0);
    assert(key.subrange(0, key.len() as int) =~= key);
}

proof fn lemma_no_dot(key: Seq<char>, from: int)
    requires
        is_flat(key),
        0 <= from,
    ensures
        dot_position(key, from) >= key.len(),
    decreases key.len() - from,
{
    if from < key.len() {
        lemma_no_dot(key, from + 1);
    }
}

/// The members built from the first `n` fields of an event whose names are
/// distinct and have no dots are those fields, in order, each with the JSON
/// value that stands for its value.
pub proof fn lemma_flat_fields(fields: Seq<(String, Value)>, n: int)
    requires
        0 <= n <= fields.len(),
        forall|i: int| 0 <= i < fields.len() ==> is_flat(#[trigger] fields[i].0@),
        forall|i: int, j: int| 0 <= i < j < fields.len() ==> fields[i].0@ != fields[j].0@,
    ensures
        unflattened(fields, n) == Seq::new(n as nat, |i: int| (fields[i].0@, leaf(fields[i].1))),
    decreases n,
{
    let flat = Seq::new(n as nat, |i: int| (fields[i].0@, leaf(fields[i].1)));
    if n == 0 {
        assert(unflattened(fields, n) =~= flat);
    } else {
        lemma_flat_fields(fields, n - 1);
        let before = unflattened(fields, n - 1);
        let key = fields[n - 1].0@;
        lemma_flat_key(key);
        lemma_key_index(member_keys(before), key, n - 1);
        assert(unflattened(fields, n) == with_member(before, key, leaf(fields[n - 1].1)));
        assert(before.push((key, leaf(fields[n - 1].1))) =~= flat);
    }
}

/// The document of an event whose names are distinct and have no dots is
/// the object of its fields, in order: nothing is added, dropped or moved.
pub proof fn lemma_flat_document(fields: Seq<(String, Value)>)
    requires
        forall|i: int| 0 <= i < fields.len() ==> is_flat(#[trigger] fields[i].0@),
        forall|i: int, j: int| 0 <= i < j < fields.len() ==> fields[i].0@ != fields[j].0@,
    ensures
        document(fields) == Json::Object(
            Seq::new(fields.len(), |i: int| (fields[i].0@, leaf(fields[i].1))),
        ),
{
    lemma_flat_fields(fields, fields.len() as int);
}

} // verus!
