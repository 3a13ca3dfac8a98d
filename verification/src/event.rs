//! Structured log events: an ordered list of named values.

use crate::bindings::push_char;
use crate::text::{chars_of, padded_text, push_padded, push_signed_decimal, signed_decimal_text};
use vstd::prelude::*;
use vstd::string::*;

verus! {

/// A point in time, in UTC, broken down into calendar fields.
#[derive(Clone, Copy, Debug, PartialEq, Eq)]
pub struct Timestamp {
    year: u16,
    month: u8,
    day: u8,
    hour: u8,
    minute: u8,
    second: u8,
    nanos: u32,
}

/// Whether the calendar fields are in range.
pub open spec fn valid_time(
    year: int,
    month: int,
    day: int,
    hour: int,
    minute: int,
    second: int,
    nanos: int,
) -> bool {
    &&& 0 <= year <= 9999
    &&& 1 <= month <= 12
    &&& 1 <= day <= 31
    &&& 0 <= hour < 24
    &&& 0 <= minute < 60
    &&& 0 <= second < 60
    &&& 0 <= nanos < 1_000_000_000
}

/// The text form of a timestamp: date, `T`, time of day, nine fractional
/// digits when the fraction is not zero, and `Z`.
pub open spec fn timestamp_text(t: Timestamp) -> Seq<char> {
    padded_text(t.year() as nat, 4) + seq!['-'] + padded_text(t.month() as nat, 2) + seq!['-']
        + padded_text(t.day() as nat, 2) + seq!['T'] + padded_text(t.hour() as nat, 2) + seq![':']
        + padded_text(t.minute() as nat, 2) + seq![':'] + padded_text(t.second() as nat, 2) + (
    if t.nanos() > 0 {
        seq!['.'] + padded_text(t.nanos() as nat, 9)
    } else {
        Seq::empty()
    }) + seq!['Z']
}

impl Timestamp {
    #[verifier::type_invariant]
    spec fn in_range(self) -> bool {
        valid_time(
            self.year as int,
            self.month as int,
            self.day as int,
            self.hour as int,
            self.minute as int,
            self.second as int,
            self.nanos as int,
        )
    }

    /// The year, from 0 to 9999.
    pub closed spec fn year(self) -> u16 {
        self.year
    }

    /// The month, from 1 to 12.
    pub closed spec fn month(self) -> u8 {
        self.month
    }

    /// The day of the month, from 1 to 31.
    pub closed spec fn day(self) -> u8 {
        self.day
    }

    /// The hour, from 0 to 23.
    pub closed spec fn hour(self) -> u8 {
        self.hour
    }

    /// The minute, from 0 to 59.
    pub closed spec fn minute(self) -> u8 {
        self.minute
    }

    /// The second, from 0 to 59.
    pub closed spec fn second(self) -> u8 {
        self.second
    }

    /// The nanoseconds past the second.
    pub closed spec fn nanos(self) -> u32 {
        self.nanos
    }

    /// A timestamp from its calendar fields, or `None` when one is out of range.
    pub fn new(year: u16, month: u8, day: u8, hour: u8, minute: u8, second: u8, nanos: u32) -> (r:
        Option<Timestamp>)
        ensures
            r is Some <==> valid_time(
                year as int,
                month as int,
                day as int,
                hour as int,
                minute as int,
                second as int,
                nanos as int,
            ),
            r matches Some(t) ==> t.year() == year && t.month() == month && t.day() == day
                && t.hour() == hour && t.minute() == minute && t.second() == second && t.nanos()
                == nanos,
    {
        if year <= 9999 && 1 <= month && month <= 12 && 1 <= day && day <= 31 && hour < 24 && minute
            < 60 && second < 60 && nanos < 1_000_000_000 {
            Some(Timestamp { year, month, day, hour, minute, second, nanos })
        } else {
            None
        }
    }

    /// The year.
    pub fn get_year(&self) -> (r: u16)
        ensures
            r == self.year(),
    {
        self.year
    }

    /// The month.
    pub fn get_month(&self) -> (r: u8)
        ensures
            r == self.month(),
    {
        self.month
    }

    /// The day of the month.
    pub fn get_day(&self) -> (r: u8)
        ensures
            r == self.day(),
    {
        self.day
    }

    /// The hour.
    pub fn get_hour(&self) -> (r: u8)
        ensures
            r == self.hour(),
    {
        self.hour
    }

    /// The minute.
    pub fn get_minute(&self) -> (r: u8)
        ensures
            r == self.minute(),
    {
        self.minute
    }

    /// The second.
    pub fn get_second(&self) -> (r: u8)
        ensures
            r == self.second(),
    {
        self.second
    }

    /// The nanoseconds past the second.
    pub fn get_nanos(&self) -> (r: u32)
        ensures
            r == self.nanos(),
    {
        self.nanos
    }

    /// Appends the text form to `out`.
    pub fn push_text(&self, out: &mut String)
        ensures
            final(out)@ == old(out)@ + timestamp_text(*self),
    {
        push_padded(out, self.year as u32, 4);
        push_char(out, '-');
        push_padded(out, self.month as u32, 2);
        push_char(out, '-');
        push_padded(out, self.day as u32, 2);
        push_char(out, 'T');
        push_padded(out, self.hour as u32, 2);
        push_char(out, ':');
        push_padded(out, self.minute as u32, 2);
        push_char(out, ':');
        push_padded(out, self.second as u32, 2);
        if self.nanos > 0 {
            push_char(out, '.');
            push_padded(out, self.nanos, 9);
        }
        push_char(out, 'Z');
        assert(out@ =~= old(out)@ + timestamp_text(*self));
    }
}

/// The value of one field.
#[derive(Clone, Debug, PartialEq, Eq)]
pub enum Value {
    Text(String),
    Integer(i64),
    Boolean(bool),
    Timestamp(Timestamp),
}

/// The text form of a value, as it is interpolated into names and identifiers.
pub open spec fn value_text(v: Value) -> Seq<char> {
    match v {
        Value::Text(s) => s@,
        Value::Integer(n) => signed_decimal_text(n as int),
        Value::Boolean(b) => if b {
            seq!['t', 'r', 'u', 'e']
        } else {
            seq!['f', 'a', 'l', 's', 'e']
        },
        Value::Timestamp(t) => timestamp_text(t),
    }
}

impl Value {
    /// Appends the text form to `out`.
    pub fn push_text(&self, out: &mut String)
        ensures
            final(out)@ == old(out)@ + value_text(*self),
    {
        match self {
            Value::Text(s) => {
                out.append(s.as_str());
            },
            Value::Integer(n) => {
                push_signed_decimal(out, *n);
            },
            Value::Boolean(b) => {
                if *b {
                    push_char(out, 't');
                    push_char(out, 'r');
                    push_char(out, 'u');
                    push_char(out, 'e');
                } else {
                    push_char(out, 'f');
                    push_char(out, 'a');
                    push_char(out, 'l');
                    push_char(out, 's');
                    push_char(out, 'e');
                }
                assert(out@ =~= old(out)@ + value_text(*self));
            },
            Value::Timestamp(t) => {
                t.push_text(out);
            },
        }
    }

    /// The text form as a string of its own.
    pub fn to_text(&self) -> (r: String)
        ensures
            r@ == value_text(*self),
    {
        let mut out = String::new();
        self.push_text(&mut out);
        out
    }
}

/// The position of the first of `keys` equal to `key`, or the number of keys
/// when none is.
pub open spec fn key_index(keys: Seq<Seq<char>>, key: Seq<char>) -> int
    decreases keys.len(),
{
    if keys.len() == 0 {
        0
    } else if keys[0] == key {
        0
    } else {
        1 + key_index(keys.drop_first(), key)
    }
}

/// `key_index` is the first position that holds the key.
pub proof fn lemma_key_index(keys: Seq<Seq<char>>, key: Seq<char>, i: int)
    requires
        0 <= i <= keys.len(),
        forall|j: int| 0 <= j < i ==> keys[j] != key,
        i < keys.len() ==> keys[i] == key,
    ensures
        key_index(keys, key) == i,
    decreases i,
{
    if i > 0 {
        let rest = keys.drop_first();
        assert forall|j: int| 0 <= j < i - 1 implies rest[j] != key by {
            assert(rest[j] == keys[j + 1]);
        }
        lemma_key_index(rest, key, i - 1);
    }
}

/// `key_index` stays within the keys, and points at the key when inside.
pub proof fn lemma_key_index_bounds(keys: Seq<Seq<char>>, key: Seq<char>)
    ensures
        0 <= key_index(keys, key) <= keys.len(),
        key_index(keys, key) < keys.len() ==> keys[key_index(keys, key)] == key,
        forall|j: int| 0 <= j < key_index(keys, key) ==> keys[j] != key,
    decreases keys.len(),
{
    if keys.len() > 0 && keys[0] != key {
        let rest = keys.drop_first();
        lemma_key_index_bounds(rest, key);
        assert forall|j: int| 0 <= j < key_index(keys, key) implies keys[j] != key by {
            if j > 0 {
                assert(keys[j] == rest[j - 1]);
            }
        }
    }
}

/// The names of a list of fields, in order.
pub open spec fn field_keys(fields: Seq<(String, Value)>) -> Seq<Seq<char>> {
    Seq::new(fields.len(), |i: int| fields[i].0@)
}

/// The value of the field named `key`, if there is one.
pub open spec fn lookup(fields: Seq<(String, Value)>, key: Seq<char>) -> Option<Value> {
    let i = key_index(field_keys(fields), key);
    if i < fields.len() {
        Some(fields[i].1)
    } else {
        None
    }
}

/// The fields after `key` is set to `value`: replaced in place when present,
/// appended when not.
pub open spec fn with_field(fields: Seq<(String, Value)>, key: String, value: Value) -> Seq<
    (String, Value),
> {
    let i = key_index(field_keys(fields), key@);
    if i < fields.len() {
        fields.update(i, (key, value))
    } else {
        fields.push((key, value))
    }
}

/// A structured log event.
#[derive(Clone, Debug, PartialEq, Eq)]
pub struct Event {
    fields: Vec<(String, Value)>,
}

impl View for Event {
    type V = Seq<(String, Value)>;

    closed spec fn view(&self) -> Seq<(String, Value)> {
        self.fields@
    }
}

impl Event {
    /// An event without fields.
    pub fn new() -> (r: Event)
        ensures
            r@ == Seq::<(String, Value)>::empty(),
    {
        Event { fields: Vec::new() }
    }

    /// An event for one log line: the line under `message`, the time under
    /// `timestamp`.
    pub fn from_message(message: &str, at: Timestamp) -> (r: Event)
        ensures
            r@.len() == 2,
            r@[0].0@ == "message"@,
            r@[0].1 matches Value::Text(s) && s@ == message@,
            r@[1].0@ == "timestamp"@,
            r@[1].1 == Value::Timestamp(at),
    {
        let mut fields: Vec<(String, Value)> = Vec::new();
        fields.push((String::from_str("message"), Value::Text(String::from_str(message))));
        fields.push((String::from_str("timestamp"), Value::Timestamp(at)));
        Event { fields }
    }

    /// The number of fields.
    pub fn len(&self) -> (r: usize)
        ensures
            r == self@.len(),
    {
        self.fields.len()
    }

    /// The position of the field named `key`, or `len()` when there is none.
    pub fn position(&self, key: &str) -> (r: usize)
        ensures
            r == key_index(field_keys(self@), key@),
            r <= self@.len(),
    {
        let wanted = chars_of(key);
        let ghost keys = field_keys(self@);
        let mut i: usize = 0;
        while i < self.fields.len()
            invariant
                i <= self.fields.len(),
                keys == field_keys(self@),
                wanted@ == key@,
                forall|j: int| 0 <= j < i ==> keys[j] != key@,
            decreases self.fields.len() - i,
        {
            if same_chars(&self.fields[i].0, &wanted) {
                proof {
                    lemma_key_index(keys, key@, i as int);
                }
                return i;
            }
            i = i + 1;
        }
        proof {
            lemma_key_index(keys, key@, i as int);
        }
        i
    }

    /// The value of the field named `key`.
    pub fn get(&self, key: &str) -> (r: Option<&Value>)
        ensures
            match r {
                Some(v) => lookup(self@, key@) == Some(*v),
                None => lookup(self@, key@) is None,
            },
    {
        let i = self.position(key);
        if i < self.fields.len() {
            Some(&self.fields[i].1)
        } else {
            None
        }
    }

    /// The name and value of the field at position `i`.
    pub fn field(&self, i: usize) -> (r: (&String, &Value))
        requires
            i < self@.len(),
        ensures
            *r.0 == self@[i as int].0,
            *r.1 == self@[i as int].1,
    {
        (&self.fields[i].0, &self.fields[i].1)
    }

    /// Sets the field named `key` to `value`.
    pub fn insert_explicit(&mut self, key: String, value: Value)
        ensures
            final(self)@ == with_field(old(self)@, key, value),
    {
        let i = self.position(key.as_str());
        if i < self.fields.len() {
            self.fields[i] = (key, value);
        } else {
            self.fields.push((key, value));
        }
    }
}

/// Whether `s` holds exactly the characters `chars`.
pub fn same_chars(s: &String, chars: &Vec<char>) -> (r: bool)
    ensures
        r == (s@ == chars@),
{
    let mine = chars_of(s.as_str());
    if mine.len() != chars.len() {
        return false;
    }
    let mut i: usize = 0;
    while i < mine.len()
        invariant
            i <= mine.len(),
            mine.len() == chars.len(),
            mine@ == s@,
            forall|j: int| 0 <= j < i ==> mine@[j] == chars@[j],
        decreases mine.len() - i,
    {
        if mine[i] != chars[i] {
            assert(s@[i as int] != chars@[i as int]);
            return false;
        }
        i = i + 1;
    }
    assert(s@ =~= chars@);
    true
}

} // verus!
