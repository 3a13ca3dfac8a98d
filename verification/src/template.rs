//! Destination-name templates: literal text, time directives and field
//! directives (`{name}`), resolved against one event.
//!
//! A time directive is a percent sign and a letter; `time_text` lists the
//! letters and what each renders. `%%` stands for a percent sign. A percent
//! sign before any other character stands for itself.

use crate::event::{lookup, timestamp_text, value_text, Event, Timestamp, Value};
use crate::bindings::push_char;
use crate::text::{chars_of, padded_text, push_chars, push_padded, texts};
use vstd::prelude::*;
use vstd::string::*;

verus! {

/// Whether `c` after a percent sign names a time directive.
pub open spec fn is_time_letter(c: char) -> bool {
    c == 'Y' || c == 'C' || c == 'y' || c == 'm' || c == 'b' || c == 'h' || c == 'B' || c == 'd'
        || c == 'e' || c == 'H' || c == 'k' || c == 'I' || c == 'l' || c == 'p' || c == 'P' || c
        == 'M' || c == 'S' || c == 'f' || c == 'F' || c == 'D' || c == 'T' || c == 'R' || c == 'z'
        || c == 'Z'
}

/// A number below a hundred in two places, padded with a space.
pub open spec fn spaced_text(n: nat) -> Seq<char> {
    if n < 10 {
        seq![' '] + padded_text(n, 1)
    } else {
        padded_text(n, 2)
    }
}

/// The hour on the twelve-hour clock.
pub open spec fn hour12(hour: nat) -> nat {
    if hour % 12 == 0 {
        12
    } else {
        hour % 12
    }
}

/// The English name of a month.
pub open spec fn month_name(month: nat) -> Seq<char> {
    if month == 1 {
        "January"@
    } else if month == 2 {
        "February"@
    } else if month == 3 {
        "March"@
    } else if month == 4 {
        "April"@
    } else if month == 5 {
        "May"@
    } else if month == 6 {
        "June"@
    } else if month == 7 {
        "July"@
    } else if month == 8 {
        "August"@
    } else if month == 9 {
        "September"@
    } else if month == 10 {
        "October"@
    } else if month == 11 {
        "November"@
    } else {
        "December"@
    }
}

/// The English name of a month, cut to three letters.
pub open spec fn month_abbreviation(month: nat) -> Seq<char> {
    if month == 1 {
        "Jan"@
    } else if month == 2 {
        "Feb"@
    } else if month == 3 {
        "Mar"@
    } else if month == 4 {
        "Apr"@
    } else if month == 5 {
        "May"@
    } else if month == 6 {
        "Jun"@
    } else if month == 7 {
        "Jul"@
    } else if month == 8 {
        "Aug"@
    } else if month == 9 {
        "Sep"@
    } else if month == 10 {
        "Oct"@
    } else if month == 11 {
        "Nov"@
    } else {
        "Dec"@
    }
}

/// What the time directive with letter `c` renders for the time `t`, which
/// is in UTC: `Y` the year, `C` its hundreds, `y` its last two digits; `m`
/// the month, `B` its name, `b` and `h` the name cut short; `d` the day, `e`
/// the day padded with a space; `H` the hour, `k` the same padded with a
/// space, `I` and `l` likewise on the twelve-hour clock, `p` and `P` the half
/// of the day; `M` the minute, `S` the second, `f` the nanoseconds; `F` the
/// date as year-month-day, `D` as month/day/year; `T` the time to the
/// second, `R` to the minute; `z` and `Z` the zone.
pub open spec fn time_text(c: char, t: Timestamp) -> Seq<char> {
    if c == 'Y' {
        padded_text(t.year() as nat, 4)
    } else if c == 'C' {
        padded_text((t.year() / 100) as nat, 2)
    } else if c == 'y' {
        padded_text((t.year() % 100) as nat, 2)
    } else if c == 'm' {
        padded_text(t.month() as nat, 2)
    } else if c == 'b' || c == 'h' {
        month_abbreviation(t.month() as nat)
    } else if c == 'B' {
        month_name(t.month() as nat)
    } else if c == 'd' {
        padded_text(t.day() as nat, 2)
    } else if c == 'e' {
        spaced_text(t.day() as nat)
    } else if c == 'H' {
        padded_text(t.hour() as nat, 2)
    } else if c == 'k' {
        spaced_text(t.hour() as nat)
    } else if c == 'I' {
        padded_text(hour12(t.hour() as nat), 2)
    } else if c == 'l' {
        spaced_text(hour12(t.hour() as nat))
    } else if c == 'p' {
        if t.hour() < 12 {
            "AM"@
        } else {
            "PM"@
        }
    } else if c == 'P' {
        if t.hour() < 12 {
            "am"@
        } else {
            "pm"@
        }
    } else if c == 'M' {
        padded_text(t.minute() as nat, 2)
    } else if c == 'S' {
        padded_text(t.second() as nat, 2)
    } else if c == 'f' {
        padded_text(t.nanos() as nat, 9)
    } else if c == 'F' {
        padded_text(t.year() as nat, 4) + seq!['-'] + padded_text(t.month() as nat, 2) + seq!['-']
            + padded_text(t.day() as nat, 2)
    } else if c == 'D' {
        padded_text(t.month() as nat, 2) + seq!['/'] + padded_text(t.day() as nat, 2) + seq!['/']
            + padded_text((t.year() % 100) as nat, 2)
    } else if c == 'T' {
        padded_text(t.hour() as nat, 2) + seq![':'] + padded_text(t.minute() as nat, 2) + seq![':']
            + padded_text(t.second() as nat, 2)
    } else if c == 'R' {
        padded_text(t.hour() as nat, 2) + seq![':'] + padded_text(t.minute() as nat, 2)
    } else if c == 'z' {
        "+0000"@
    } else {
        "UTC"@
    }
}

/// The first position at or after `j` that holds a brace, or the length of
/// the pattern when there is none.
pub open spec fn name_end(p: Seq<char>, j: int) -> int
    decreases p.len() - j,
{
    if j >= p.len() {
        p.len() as int
    } else if p[j] == '}' || p[j] == '{' {
        j
    } else {
        name_end(p, j + 1)
    }
}

/// One unit of a pattern.
pub enum Piece {
    /// A character that stands for itself.
    Literal(char),
    /// A calendar field of the event's time.
    Time(char),
    /// The text form of the named field.
    Field(Seq<char>),
}

/// The piece that starts at position `i` of `p`, and the position after it.
pub open spec fn piece_at(p: Seq<char>, i: int) -> (Piece, int) {
    if p[i] == '%' && i + 1 < p.len() && is_time_letter(p[i + 1]) {
        (Piece::Time(p[i + 1]), i + 2)
    } else if p[i] == '%' && i + 1 < p.len() && p[i + 1] == '%' {
        (Piece::Literal('%'), i + 2)
    } else if p[i] == '{' && i + 1 < name_end(p, i + 1) < p.len() && p[name_end(p, i + 1)] == '}' {
        (Piece::Field(p.subrange(i + 1, name_end(p, i + 1))), name_end(p, i + 1) + 1)
    } else {
        (Piece::Literal(p[i]), i + 1)
    }
}

/// The name of the field that holds an event's time.
pub open spec fn time_key() -> Seq<char> {
    "timestamp"@
}

/// The time of an event: its `timestamp` field, when that holds a time.
pub open spec fn event_time(fields: Seq<(String, Value)>) -> Option<Timestamp> {
    match lookup(fields, time_key()) {
        Some(Value::Timestamp(t)) => Some(t),
        _ => None,
    }
}

/// What a piece renders against the fields of an event; nothing for a
/// directive that cannot be resolved.
pub open spec fn piece_text(piece: Piece, fields: Seq<(String, Value)>) -> Seq<char> {
    match piece {
        Piece::Literal(c) => seq![c],
        Piece::Time(c) => match event_time(fields) {
            Some(t) => time_text(c, t),
            None => Seq::empty(),
        },
        Piece::Field(name) => match lookup(fields, name) {
            Some(v) => value_text(v),
            None => Seq::empty(),
        },
    }
}

/// The field that a piece needs and the event lacks, if any.
pub open spec fn piece_missing(piece: Piece, fields: Seq<(String, Value)>) -> Seq<Seq<char>> {
    match piece {
        Piece::Literal(c) => Seq::empty(),
        Piece::Time(c) => match event_time(fields) {
            Some(t) => Seq::empty(),
            None => seq![time_key()],
        },
        Piece::Field(name) => match lookup(fields, name) {
            Some(v) => Seq::empty(),
            None => seq![name],
        },
    }
}

/// The rendering of the pattern from position `i` on.
pub open spec fn rendered_from(p: Seq<char>, i: int, fields: Seq<(String, Value)>) -> Seq<char>
    decreases p.len() - i,
{
    if 0 <= i < p.len() {
        let (piece, next) = piece_at(p, i);
        piece_text(piece, fields) + rendered_from(p, next, fields)
    } else {
        Seq::empty()
    }
}

/// The fields that the pattern needs from position `i` on and the event
/// lacks, one entry for each directive, in order.
pub open spec fn missing_from(p: Seq<char>, i: int, fields: Seq<(String, Value)>) -> Seq<
    Seq<char>,
>
    decreases p.len() - i,
{
    if 0 <= i < p.len() {
        let (piece, next) = piece_at(p, i);
        piece_missing(piece, fields) + missing_from(p, next, fields)
    } else {
        Seq::empty()
    }
}

/// The whole pattern rendered against an event.
pub open spec fn rendered(p: Seq<char>, fields: Seq<(String, Value)>) -> Seq<char> {
    rendered_from(p, 0, fields)
}

/// Every field the pattern needs and the event lacks.
pub open spec fn missing(p: Seq<char>, fields: Seq<(String, Value)>) -> Seq<Seq<char>> {
    missing_from(p, 0, fields)
}

/// The fields that a template needed and an event did not have.
#[derive(Clone, Debug, PartialEq, Eq)]
pub struct MissingFields {
    pub names: Vec<String>,
}

/// A compiled destination-name pattern.
#[derive(Clone, Debug, PartialEq, Eq)]
pub struct Template {
    pattern: Vec<char>,
}

impl View for Template {
    type V = Seq<char>;

    closed spec fn view(&self) -> Seq<char> {
        self.pattern@
    }
}

impl Template {
    /// The template with the given pattern.
    pub fn new(pattern: &str) -> (r: Template)
        ensures
            r@ == pattern@,
    {
        Template { pattern: chars_of(pattern) }
    }

    /// A copy of the template.
    pub fn copy(&self) -> (r: Template)
        ensures
            r@ == self@,
    {
        let pattern = self.pattern.clone();
        assert(pattern@ =~= self.pattern@);
        Template { pattern }
    }

    /// The position of the first brace at or after `j`.
    fn scan_name(&self, j: usize) -> (r: usize)
        requires
            j <= self@.len(),
        ensures
            r == name_end(self@, j as int),
            j <= r <= self@.len(),
    {
        let mut k: usize = j;
        while k < self.pattern.len() && self.pattern[k] != '}' && self.pattern[k] != '{'
            invariant
                j <= k <= self.pattern.len(),
                name_end(self@, j as int) == name_end(self@, k as int),
            decreases self.pattern.len() - k,
        {
            k = k + 1;
        }
        k
    }

    /// Renders the template against `event`: literal text is kept, a time
    /// directive renders from the event's time, a field directive renders the
    /// text form of the field. Fails when a directive names a field that the
    /// event lacks, and then names every such field.
    pub fn resolve(&self, event: &Event) -> (r: Result<String, MissingFields>)
        ensures
            match r {
                Ok(s) => missing(self@, event@).len() == 0 && s@ == rendered(self@, event@),
                Err(e) => missing(self@, event@).len() > 0 && texts(e.names@) == missing(
                    self@,
                    event@,
                ),
            },
    {
        let mut out = String::new();
        let mut lacking: Vec<String> = Vec::new();
        let time: Option<Timestamp> = match event.get("timestamp") {
            Some(Value::Timestamp(t)) => Some(*t),
            _ => None,
        };
        let n = self.pattern.len();
        let mut i: usize = 0;
        while i < n
            invariant
                i <= n,
                n == self@.len(),
                time == event_time(event@),
                out@ + rendered_from(self@, i as int, event@) == rendered(self@, event@),
                texts(lacking@) + missing_from(self@, i as int, event@) == missing(self@, event@),
            decreases n - i,
        {
            let ghost before = out@;
            let ghost lacked = texts(lacking@);
            let ghost (piece, next) = piece_at(self@, i as int);
            let c = self.pattern[i];
            let mut step: usize = 1;
            if c == '%' && i + 1 < n && is_time_char(self.pattern[i + 1]) {
                step = 2;
                match time {
                    Some(t) => {
                        push_time(&mut out, self.pattern[i + 1], t);
                    },
                    None => {
                        lacking.push(String::from_str("timestamp"));
                    },
                }
            } else if c == '%' && i + 1 < n && self.pattern[i + 1] == '%' {
                step = 2;
                push_char(&mut out, '%');
            } else if c == '{' {
                let end = self.scan_name(i + 1);
                if i + 1 < end && end < n && self.pattern[end] == '}' {
                    step = end + 1 - i;
                    let mut name = String::new();
                    push_chars(&mut name, &self.pattern, i + 1, end);
                    assert(name@ == self@.subrange(i + 1, end as int));
                    match event.get(name.as_str()) {
                        Some(v) => {
                            v.push_text(&mut out);
                        },
                        None => {
                            lacking.push(name);
                        },
                    }
                } else {
                    push_char(&mut out, c);
                }
            } else {
                push_char(&mut out, c);
            }
            proof {
                assert(next == i + step);
                assert(out@ =~= before + piece_text(piece, event@));
                assert(texts(lacking@) =~= lacked + piece_missing(piece, event@));
                assert(out@ + rendered_from(self@, next, event@) =~= before + rendered_from(
                    self@,
                    i as int,
                    event@,
                ));
                assert(texts(lacking@) + missing_from(self@, next, event@) =~= lacked
                    + missing_from(self@, i as int, event@));
            }
            i = i + step;
        }
        assert(out@ =~= rendered(self@, event@));
        assert(texts(lacking@) =~= missing(self@, event@));
        if lacking.len() == 0 {
            Ok(out)
        } else {
            Err(MissingFields { names: lacking })
        }
    }
}

/// Whether `c` after a percent sign names a time directive.
pub fn is_time_char(c: char) -> (r: bool)
    ensures
        r == is_time_letter(c),
{
    c == 'Y' || c == 'C' || c == 'y' || c == 'm' || c == 'b' || c == 'h' || c == 'B' || c == 'd'
        || c == 'e' || c == 'H' || c == 'k' || c == 'I' || c == 'l' || c == 'p' || c == 'P' || c
        == 'M' || c == 'S' || c == 'f' || c == 'F' || c == 'D' || c == 'T' || c == 'R' || c == 'z'
        || c == 'Z'
}

/// The English name of a month.
pub fn month_str(month: u8) -> (r: &'static str)
    ensures
        r@ == month_name(month as nat),
{
    match month {
        1 => "January",
        2 => "February",
        3 => "March",
        4 => "April",
        5 => "May",
        6 => "June",
        7 => "July",
        8 => "August",
        9 => "September",
        10 => "October",
        11 => "November",
        _ => "December",
    }
}

/// The English name of a month, cut to three letters.
pub fn month_short_str(month: u8) -> (r: &'static str)
    ensures
        r@ == month_abbreviation(month as nat),
{
    match month {
        1 => "Jan",
        2 => "Feb",
        3 => "Mar",
        4 => "Apr",
        5 => "May",
        6 => "Jun",
        7 => "Jul",
        8 => "Aug",
        9 => "Sep",
        10 => "Oct",
        11 => "Nov",
        _ => "Dec",
    }
}

/// Appends a number below a hundred in two places, padded with a space.
pub fn push_spaced(out: &mut String, n: u8)
    ensures
        final(out)@ == old(out)@ + spaced_text(n as nat),
{
    if n < 10 {
        push_char(out, ' ');
        push_padded(out, n as u32, 1);
        assert(out@ =~= old(out)@ + spaced_text(n as nat));
    } else {
        push_padded(out, n as u32, 2);
    }
}

/// The hour on the twelve-hour clock.
pub fn hour_on_twelve(hour: u8) -> (r: u8)
    ensures
        r == hour12(hour as nat),
{
    if hour % 12 == 0 {
        12
    } else {
        hour % 12
    }
}

/// Appends what the time directive with letter `c` renders for `t`.
pub fn push_time(out: &mut String, c: char, t: Timestamp)
    requires
        is_time_letter(c),
    ensures
        final(out)@ == old(out)@ + time_text(c, t),
{
    if c == 'Y' {
        push_padded(out, t.get_year() as u32, 4);
    } else if c == 'C' {
        push_padded(out, (t.get_year() / 100) as u32, 2);
    } else if c == 'y' {
        push_padded(out, (t.get_year() % 100) as u32, 2);
    } else if c == 'm' {
        push_padded(out, t.get_month() as u32, 2);
    } else if c == 'b' || c == 'h' {
        out.append(month_short_str(t.get_month()));
    } else if c == 'B' {
        out.append(month_str(t.get_month()));
    } else if c == 'd' {
        push_padded(out, t.get_day() as u32, 2);
    } else if c == 'e' {
        push_spaced(out, t.get_day());
    } else if c == 'H' {
        push_padded(out, t.get_hour() as u32, 2);
    } else if c == 'k' {
        push_spaced(out, t.get_hour());
    } else if c == 'I' {
        push_padded(out, hour_on_twelve(t.get_hour()) as u32, 2);
    } else if c == 'l' {
        push_spaced(out, hour_on_twelve(t.get_hour()));
    } else if c == 'p' {
        if t.get_hour() < 12 {
            out.append("AM");
        } else {
            out.append("PM");
        }
    } else if c == 'P' {
        if t.get_hour() < 12 {
            out.append("am");
        } else {
            out.append("pm");
        }
    } else if c == 'M' {
        push_padded(out, t.get_minute() as u32, 2);
    } else if c == 'S' {
        push_padded(out, t.get_second() as u32, 2);
    } else if c == 'f' {
        push_padded(out, t.get_nanos(), 9);
    } else if c == 'F' {
        push_padded(out, t.get_year() as u32, 4);
        push_char(out, '-');
        push_padded(out, t.get_month() as u32, 2);
        push_char(out, '-');
        push_padded(out, t.get_day() as u32, 2);
        assert(out@ =~= old(out)@ + time_text(c, t));
    } else if c == 'D' {
        push_padded(out, t.get_month() as u32, 2);
        push_char(out, '/');
        push_padded(out, t.get_day() as u32, 2);
        push_char(out, '/');
        push_padded(out, (t.get_year() % 100) as u32, 2);
        assert(out@ =~= old(out)@ + time_text(c, t));
    } else if c == 'T' {
        push_padded(out, t.get_hour() as u32, 2);
        push_char(out, ':');
        push_padded(out, t.get_minute() as u32, 2);
        push_char(out, ':');
        push_padded(out, t.get_second() as u32, 2);
        assert(out@ =~= old(out)@ + time_text(c, t));
    } else if c == 'R' {
        push_padded(out, t.get_hour() as u32, 2);
        push_char(out, ':');
        push_padded(out, t.get_minute() as u32, 2);
        assert(out@ =~= old(out)@ + time_text(c, t));
    } else if c == 'z' {
        out.append("+0000");
    } else {
        out.append("UTC");
    }
}

/// The pieces of a pattern from position `i` on.
pub open spec fn pieces_from(p: Seq<char>, i: int) -> Seq<Piece>
    decreases p.len() - i,
{
    if 0 <= i < p.len() {
        let (piece, next) = piece_at(p, i);
        seq![piece] + pieces_from(p, next)
    } else {
        Seq::empty()
    }
}

/// Whether the event has what a piece needs: a time for a time directive,
/// the named field for a field directive.
pub open spec fn resolves(piece: Piece, fields: Seq<(String, Value)>) -> bool {
    match piece {
        Piece::Literal(_) => true,
        Piece::Time(_) => event_time(fields) is Some,
        Piece::Field(name) => lookup(fields, name) is Some,
    }
}

/// The field that a directive reads.
pub open spec fn needed(piece: Piece) -> Seq<char> {
    match piece {
        Piece::Literal(_) => Seq::empty(),
        Piece::Time(_) => time_key(),
        Piece::Field(name) => name,
    }
}

/// From any position on: no field is missing exactly when the event has
/// what every directive needs; every directive that the event cannot serve
/// has its field among the missing ones; and every missing field is that of
/// a directive that the event cannot serve.
pub proof fn lemma_missing_from(p: Seq<char>, i: int, fields: Seq<(String, Value)>)
    ensures
        missing_from(p, i, fields).len() == 0 <==> (forall|k: int|
            0 <= k < pieces_from(p, i).len() ==> resolves(#[trigger] pieces_from(p, i)[k], fields)),
        forall|k: int|
            0 <= k < pieces_from(p, i).len() && !resolves(#[trigger] pieces_from(p, i)[k], fields)
                ==> missing_from(p, i, fields).contains(needed(pieces_from(p, i)[k])),
        forall|j: int|
            0 <= j < missing_from(p, i, fields).len() ==> exists|k: int|
                0 <= k < pieces_from(p, i).len() && !resolves(
                    #[trigger] pieces_from(p, i)[k],
                    fields,
                ) && needed(pieces_from(p, i)[k]) == (#[trigger] missing_from(p, i, fields)[j]),
    decreases p.len() - i,
{
    if 0 <= i < p.len() {
        let (piece, next) = piece_at(p, i);
        let rest = pieces_from(p, next);
        let all = pieces_from(p, i);
        let own = piece_missing(piece, fields);
        let later = missing_from(p, next, fields);
        let found = missing_from(p, i, fields);
        lemma_missing_from(p, next, fields);
        assert(all == seq![piece] + rest);
        assert(found == own + later);
        assert(all[0] == piece);
        assert forall|k: int| 0 <= k < rest.len() implies rest[k] == #[trigger] all[k + 1] by {}
        assert(own.len() == 0 <==> resolves(piece, fields));
        if found.len() == 0 {
            assert forall|k: int| 0 <= k < all.len() implies resolves(#[trigger] all[k], fields) by {
                if k > 0 {
                    assert(all[k] == rest[k - 1]);
                }
            }
        }
        if forall|k: int| 0 <= k < all.len() ==> resolves(#[trigger] all[k], fields) {
            assert(resolves(all[0], fields));
            assert forall|k: int| 0 <= k < rest.len() implies resolves(#[trigger] rest[k], fields) by {
                assert(resolves(all[k + 1], fields));
            }
        }
        assert forall|k: int| 0 <= k < all.len() && !resolves(#[trigger] all[k], fields) implies found.contains(
            needed(all[k]),
        ) by {
            if k == 0 {
                assert(found[0] == needed(piece));
            } else {
                assert(all[k] == rest[k - 1]);
                assert(later.contains(needed(rest[k - 1])));
                let j = choose|j: int| 0 <= j < later.len() && later[j] == needed(rest[k - 1]);
                assert(found[own.len() + j] == later[j]);
            }
        }
        assert forall|j: int| 0 <= j < found.len() implies exists|k: int|
            0 <= k < all.len() && !resolves(#[trigger] all[k], fields) && needed(all[k]) == (
            #[trigger] found[j]) by {
            if j < own.len() {
                assert(!resolves(all[0], fields) && needed(all[0]) == found[j]);
            } else {
                assert(found[j] == later[j - own.len()]);
                let k = choose|k: int|
                    0 <= k < rest.len() && !resolves(#[trigger] rest[k], fields) && needed(rest[k])
                        == later[j - own.len()];
                assert(!resolves(all[k + 1], fields) && needed(all[k + 1]) == found[j]);
            }
        }
    }
}

/// A pattern resolves against an event exactly when the event has what
/// every directive of the pattern needs. When it does not, the missing
/// fields are those of the directives that the event cannot serve, all of
/// them and no others.
pub proof fn lemma_resolves_iff_fields_present(p: Seq<char>, fields: Seq<(String, Value)>)
    ensures
        missing(p, fields).len() == 0 <==> (forall|k: int|
            0 <= k < pieces_from(p, 0).len() ==> resolves(#[trigger] pieces_from(p, 0)[k], fields)),
        forall|k: int|
            0 <= k < pieces_from(p, 0).len() && !resolves(#[trigger] pieces_from(p, 0)[k], fields)
                ==> missing(p, fields).contains(needed(pieces_from(p, 0)[k])),
        forall|j: int|
            0 <= j < missing(p, fields).len() ==> exists|k: int|
                0 <= k < pieces_from(p, 0).len() && !resolves(
                    #[trigger] pieces_from(p, 0)[k],
                    fields,
                ) && needed(pieces_from(p, 0)[k]) == (#[trigger] missing(p, fields)[j]),
{
    lemma_missing_from(p, 0, fields);
}

} // verus!
