//! The JSON values that the sink emits, and their text.

use crate::bindings::{json_quote, json_string_text};
use crate::event::{key_index, lemma_key_index, same_chars};
use crate::bindings::push_char;
use crate::text::{chars_of, push_signed_decimal, signed_decimal_text};
use vstd::prelude::*;
use vstd::string::*;

verus! {

/// A JSON value as a mathematical object. The members of an object are kept
/// in order.
pub enum Json {
    Bool(bool),
    Number(int),
    Text(Seq<char>),
    Object(Seq<(Seq<char>, Json)>),
}

/// A JSON value. The members of an object are kept in order.
#[derive(Debug, PartialEq, Eq)]
pub enum JsonValue {
    Bool(bool),
    Number(i64),
    Text(String),
    Object(Vec<(String, JsonValue)>),
}

impl JsonValue {
    /// The value as a mathematical object.
    pub open spec fn model(self) -> Json
        decreases self,
    {
        match self {
            JsonValue::Bool(b) => Json::Bool(b),
            JsonValue::Number(n) => Json::Number(n as int),
            JsonValue::Text(s) => Json::Text(s@),
            JsonValue::Object(members) => Json::Object(
                Seq::new(
                    members@.len(),
                    |i: int|
                        if 0 <= i < members@.len() {
                            (members@[i].0@, members@[i].1.model())
                        } else {
                            (Seq::empty(), Json::Bool(false))
                        },
                ),
            ),
        }
    }
}

impl View for JsonValue {
    type V = Json;

    open spec fn view(&self) -> Json {
        self.model()
    }
}

/// The members of an object as mathematical values.
pub open spec fn members_view(members: Seq<(String, JsonValue)>) -> Seq<(Seq<char>, Json)> {
    Seq::new(members.len(), |i: int| (members[i].0@, members[i].1@))
}

/// The view of an object is the view of its members.
pub proof fn lemma_object_view(members: Vec<(String, JsonValue)>)
    ensures
        JsonValue::Object(members)@ == Json::Object(members_view(members@)),
{
    reveal_with_fuel(JsonValue::model, 2);
    assert(JsonValue::Object(members)@->Object_0 =~= members_view(members@));
}

/// The names of the members of an object, in order.
pub open spec fn member_keys(members: Seq<(Seq<char>, Json)>) -> Seq<Seq<char>> {
    Seq::new(members.len(), |i: int| members[i].0)
}

/// The member named `key`, if there is one.
pub open spec fn member(members: Seq<(Seq<char>, Json)>, key: Seq<char>) -> Option<Json> {
    let i = key_index(member_keys(members), key);
    if i < members.len() {
        Some(members[i].1)
    } else {
        None
    }
}

/// The members after `key` is set to `value`: replaced in place when
/// present, appended when not.
pub open spec fn with_member(members: Seq<(Seq<char>, Json)>, key: Seq<char>, value: Json) -> Seq<
    (Seq<char>, Json),
> {
    let i = key_index(member_keys(members), key);
    if i < members.len() {
        members.update(i, (key, value))
    } else {
        members.push((key, value))
    }
}

/// The text of a JSON value in compact form.
pub open spec fn json_text(v: Json) -> Seq<char>
    decreases v, 0nat,
{
    match v {
        Json::Bool(b) => if b {
            seq!['t', 'r', 'u', 'e']
        } else {
            seq!['f', 'a', 'l', 's', 'e']
        },
        Json::Number(n) => signed_decimal_text(n),
        Json::Text(s) => json_string_text(s),
        Json::Object(members) => seq!['{'] + members_text(members, 0) + seq!['}'],
    }
}

/// The text of the members of an object from position `i` on: each as its
/// quoted name, a colon and its value, with commas between them.
pub open spec fn members_text(members: Seq<(Seq<char>, Json)>, i: int) -> Seq<char>
    decreases members, members.len() - i,
{
    if 0 <= i < members.len() {
        (if i > 0 {
            seq![',']
        } else {
            Seq::empty()
        }) + json_string_text(members[i].0) + seq![':'] + json_text(members[i].1) + members_text(
            members,
            i + 1,
        )
    } else {
        Seq::empty()
    }
}

/// The position of the member named `key`, or the number of members when
/// there is none.
pub fn member_position(members: &Vec<(String, JsonValue)>, key: &str) -> (r: usize)
    ensures
        r == key_index(member_keys(members_view(members@)), key@),
        r <= members@.len(),
{
    let wanted = chars_of(key);
    let ghost keys = member_keys(members_view(members@));
    let mut i: usize = 0;
    while i < members.len()
        invariant
            i <= members.len(),
            keys == member_keys(members_view(members@)),
            wanted@ == key@,
            forall|j: int| 0 <= j < i ==> keys[j] != key@,
        decreases members.len() - i,
    {
        if same_chars(&members[i].0, &wanted) {
            proof {
                lemma_key_index(keys, key@, i as int);
            }
            return i;
        }
        i = i + 1;
    }
    proof {
        lemma_key_index(keys, key@, i as int);
    }
    i
}

/// Sets the member named `key` to `value`.
pub fn set_member(members: &mut Vec<(String, JsonValue)>, key: String, value: JsonValue)
    ensures
        members_view(final(members)@) == with_member(members_view(old(members)@), key@, value@),
{
    let i = member_position(members, key.as_str());
    if i < members.len() {
        members[i] = (key, value);
    } else {
        members.push((key, value));
    }
    assert(members_view(members@) =~= with_member(members_view(old(members)@), key@, value@));
}

impl JsonValue {
    /// An object without members.
    pub fn object() -> (r: JsonValue)
        ensures
            r@ == Json::Object(Seq::empty()),
    {
        let members: Vec<(String, JsonValue)> = Vec::new();
        proof {
            lemma_object_view(members);
            assert(members_view(members@) =~= Seq::empty());
        }
        JsonValue::Object(members)
    }

    /// The text `s` as a JSON string.
    pub fn text(s: &str) -> (r: JsonValue)
        ensures
            r@ == Json::Text(s@),
    {
        JsonValue::Text(String::from_str(s))
    }

    /// Appends the compact text of the value to `out`.
    pub fn write_text(&self, out: &mut String)
        ensures
            final(out)@ == old(out)@ + json_text(self@),
        decreases self,
    {
        match self {
            JsonValue::Bool(b) => {
                if *b {
                    push_char(out, 't');
                    push_char(out, 'r');
                    push_char(out, 'u');
                    push_char(out, 'e');
                } else {
                    push_char(out, 'f');
                    push_char(out, 'a');
                    push_char(out, 'l');
                    push_char(out, 's');
                    push_char(out, 'e');
                }
                assert(out@ =~= old(out)@ + json_text(self@));
            },
            JsonValue::Number(n) => {
                push_signed_decimal(out, *n);
            },
            JsonValue::Text(s) => {
                write_string(s.as_str(), out);
            },
            JsonValue::Object(members) => {
                proof {
                    lemma_object_view(*members);
                }
                let ghost model = members_view(members@);
                let ghost mut inner: Seq<char> = Seq::empty();
                push_char(out, '{');
                let mut i: usize = 0;
                while i < members.len()
                    invariant
                        i <= members.len(),
                        model == members_view(members@),
                        *self == JsonValue::Object(*members),
                        self@ == Json::Object(model),
                        out@ == old(out)@ + seq!['{'] + inner,
                        members_text(model, 0) == inner + members_text(model, i as int),
                    decreases members.len() - i,
                {
                    let ghost before = out@;
                    if i > 0 {
                        push_char(out, ',');
                    }
                    write_string(members[i].0.as_str(), out);
                    push_char(out, ':');
                    members[i].1.write_text(out);
                    proof {
                        let sep: Seq<char> = if i > 0 {
                            seq![',']
                        } else {
                            Seq::empty()
                        };
                        let piece = sep + json_string_text(model[i as int].0) + seq![':']
                            + json_text(model[i as int].1);
                        let rest = members_text(model, i + 1);
                        assert(out@ =~= before + piece);
                        assert(members_text(model, i as int) =~= piece + rest);
                        assert(inner + (piece + rest) =~= (inner + piece) + rest);
                        inner = inner + piece;
                        assert(out@ =~= old(out)@ + seq!['{'] + inner);
                    }
                    i = i + 1;
                }
                push_char(out, '}');
                proof {
                    assert(inner + members_text(model, i as int) =~= inner);
                    assert(out@ =~= old(out)@ + (seq!['{'] + inner + seq!['}']));
                }
            },
        }
    }

    /// The compact text of the value.
    pub fn to_text(&self) -> (r: String)
        ensures
            r@ == json_text(self@),
    {
        let mut out = String::new();
        self.write_text(&mut out);
        out
    }
}

/// Appends the JSON string literal for `text` to `out`.
pub fn write_string(text: &str, out: &mut String)
    ensures
        final(out)@ == old(out)@ + json_string_text(text@),
{
    match json_quote(text) {
        Ok(literal) => {
            out.append(literal.as_str());
        },
        Err(_) => {},
    }
}

} // verus!
