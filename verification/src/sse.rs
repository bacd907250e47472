//! Incremental decoding of a server-sent-event byte stream.
//!
//! The decoder buffers bytes until a line ends (`\n`, `\r` or `\r\n`), reads
//! the `event`, `data`, `id` and `retry` fields of each line, and emits an
//! event at each blank line. `id` and the last event id carry over from one
//! event to the next; several `data` lines are joined with `\n`.

use vstd::prelude::*;
use vstd::utf8::*;
use vstd::string::*;
use crate::error::Error;
use crate::json::{JsonValue, json_get, json_get_str, spec_get, spec_get_str};
use crate::text::{opt_chars, chars_of, parse_u64_chars, spec_parse_u64, str_eq, string_from_chars, utf8_decode, utf8_error_message};

verus! {

/// A decoded server-sent event.
#[derive(Debug, Clone, PartialEq, Eq)]
pub struct ServerSentEvent {
    /// The `event` field; `None` stands for the default type (`message`).
    pub event: Option<String>,
    /// The `data` lines, joined with `\n`.
    pub data: String,
    /// The last event id seen so far in the stream.
    pub id: Option<String>,
    /// The reconnection delay in milliseconds, if the event set one.
    pub retry: Option<u64>,
}

/// The abstract value of an event.
pub struct EventView {
    pub event: Option<Seq<char>>,
    pub data: Seq<char>,
    pub id: Option<Seq<char>>,
    pub retry: Option<u64>,
}

impl View for ServerSentEvent {
    type V = EventView;

    open spec fn view(&self) -> EventView {
        EventView { event: opt_chars(self.event), data: self.data@, id: opt_chars(self.id), retry: self.retry }
    }
}

/// The abstract value of a list of events.
pub open spec fn events_view(events: Seq<ServerSentEvent>) -> Seq<EventView> {
    events.map_values(|e: ServerSentEvent| e@)
}

/// The fields accumulated for the event being read.
pub struct Fields {
    pub event: Option<Seq<char>>,
    pub data: Seq<Seq<char>>,
    pub last_id: Option<Seq<char>>,
    pub retry: Option<u64>,
}

/// The state of a decoder: the bytes not yet split into lines, and the
/// fields of the event being read.
pub struct DecoderState {
    pub buf: Seq<u8>,
    pub fields: Fields,
}

/// A line break byte.
pub open spec fn is_line_break(b: u8) -> bool {
    b == 10 || b == 13
}

/// The index of the first line break at or after `i`.
pub open spec fn first_line_break(buf: Seq<u8>, i: int) -> Option<int>
    decreases buf.len() - i,
{
    if i < 0 || i >= buf.len() {
        None
    } else if is_line_break(buf[i]) {
        Some(i)
    } else {
        first_line_break(buf, i + 1)
    }
}

/// Splits off the first complete line of `buf`: the line's bytes and what
/// follows its terminator (`\n`, `\r`, or `\r\n`). A `\r` that is the last
/// byte of `buf` does not end a line yet: the next byte decides whether the
/// terminator is `\r` or `\r\n`.
pub open spec fn spec_next_line(buf: Seq<u8>) -> Option<(Seq<u8>, Seq<u8>)> {
    match first_line_break(buf, 0) {
        None => None,
        Some(pos) => {
            if buf[pos] == 13 && pos + 1 == buf.len() {
                None
            } else {
                let rest = buf.skip(pos + 1);
                let rest = if buf[pos] == 13 && rest[0] == 10 {
                    rest.skip(1)
                } else {
                    rest
                };
                Some((buf.take(pos), rest))
            }
        },
    }
}

/// The last line of a stream that ended without a line break after it: the
/// bytes left, without a `\r` held back at their end.
pub open spec fn pending_line(buf: Seq<u8>) -> Seq<u8> {
    if buf.len() > 0 && buf.last() == 13 {
        buf.drop_last()
    } else {
        buf
    }
}

/// The index of the first `c` at or after `i`.
pub open spec fn first_index_of(s: Seq<char>, c: char, i: int) -> Option<int>
    decreases s.len() - i,
{
    if i < 0 || i >= s.len() {
        None
    } else if s[i] == c {
        Some(i)
    } else {
        first_index_of(s, c, i + 1)
    }
}

/// A line split at its first `:` into field name and value (no `:`: the
/// whole line is the name, the value is empty); one space after the colon is
/// not part of the value.
pub open spec fn split_field(line: Seq<char>) -> (Seq<char>, Seq<char>) {
    let (name, value) = match first_index_of(line, ':', 0) {
        Some(i) => (line.take(i), line.skip(i + 1)),
        None => (line, Seq::<char>::empty()),
    };
    let value = if value.len() > 0 && value[0] == ' ' {
        value.skip(1)
    } else {
        value
    };
    (name, value)
}

/// Lines joined with `\n`.
pub open spec fn join_lines(lines: Seq<Seq<char>>) -> Seq<char>
    decreases lines.len(),
{
    if lines.len() == 0 {
        Seq::empty()
    } else if lines.len() == 1 {
        lines[0]
    } else {
        join_lines(lines.drop_last()) + seq!['\n'] + lines.last()
    }
}

/// Closing the event being read: nothing when no field is set; otherwise the
/// event, after which `event`, `data` and `retry` are reset and the last
/// event id is kept.
pub open spec fn spec_flush(f: Fields) -> (Fields, Option<EventView>) {
    if f.event is None && f.data.len() == 0 && f.last_id is None && f.retry is None {
        (f, None)
    } else {
        (
            Fields { event: None, data: Seq::empty(), last_id: f.last_id, retry: None },
            Some(EventView { event: f.event, data: join_lines(f.data), id: f.last_id, retry: f.retry }),
        )
    }
}

/// Reading one line: a blank line closes the event, a line starting with `:`
/// is a comment, and the fields `event`, `data`, `id` (unless it holds a NUL)
/// and `retry` update the event being read; other fields are ignored.
pub open spec fn spec_decode_line(f: Fields, line: Seq<char>) -> (Fields, Option<EventView>) {
    if line.len() == 0 {
        spec_flush(f)
    } else if line[0] == ':' {
        (f, None)
    } else {
        let (name, value) = split_field(line);
        if name == "event"@ {
            (Fields { event: Some(value), ..f }, None)
        } else if name == "data"@ {
            (Fields { data: f.data.push(value), ..f }, None)
        } else if name == "id"@ && !value.contains('\0') {
            (Fields { last_id: Some(value), ..f }, None)
        } else if name == "retry"@ {
            (Fields { retry: spec_parse_u64(value), ..f }, None)
        } else {
            (f, None)
        }
    }
}

/// What splitting `buf` into lines and reading them yields: the bytes left
/// without a line break, the fields, the events closed on the way, and — when
/// a line is not UTF-8 — that line's bytes, at which reading stopped.
pub struct Drained {
    pub buf: Seq<u8>,
    pub fields: Fields,
    pub events: Seq<EventView>,
    pub bad_line: Option<Seq<u8>>,
}

/// Reads every complete line of `buf` in order.
pub open spec fn spec_drain(buf: Seq<u8>, f: Fields) -> Drained
    decreases buf.len(),
{
    match spec_next_line(buf) {
        None => Drained { buf, fields: f, events: Seq::empty(), bad_line: None },
        Some((line, rest)) => {
            if rest.len() >= buf.len() {
                Drained { buf, fields: f, events: Seq::empty(), bad_line: None }
            } else if !valid_utf8(line) {
                Drained { buf: rest, fields: f, events: Seq::empty(), bad_line: Some(line) }
            } else {
                let (f2, ev) = spec_decode_line(f, decode_utf8(line));
                let d = spec_drain(rest, f2);
                let first = match ev {
                    Some(e) => seq![e],
                    None => Seq::empty(),
                };
                Drained { events: first + d.events, ..d }
            }
        },
    }
}

/// The result of `push` or `finish` for the reading `d`: the events, or the
/// stream error for the line that is not UTF-8.
pub open spec fn drain_result(d: Drained, r: Result<Vec<ServerSentEvent>, Error>) -> bool {
    match d.bad_line {
        None => r matches Ok(v) && events_view(v@) == d.events,
        Some(line) => r matches Err(Error::Stream(m)) && m@ == utf8_error_message(line),
    }
}

proof fn lemma_first_line_break_append(buf: Seq<u8>, b: Seq<u8>, i: int)
    requires
        0 <= i,
        first_line_break(buf, i) is Some,
    ensures
        first_line_break(buf + b, i) == first_line_break(buf, i),
    decreases buf.len() - i,
{
    if i < buf.len() && !is_line_break(buf[i]) {
        lemma_first_line_break_append(buf, b, i + 1);
    }
}

proof fn lemma_next_line_append(buf: Seq<u8>, b: Seq<u8>, line: Seq<u8>, rest: Seq<u8>)
    requires
        spec_next_line(buf) == Some((line, rest)),
    ensures
        spec_next_line(buf + b) == Some((line, rest + b)),
        rest.len() < buf.len(),
{
    lemma_first_line_break_append(buf, b, 0);
    let pos = first_line_break(buf, 0)->0;
    assert(0 <= pos < buf.len()) by {
        lemma_first_line_break_range(buf, 0);
    }
    let c = buf + b;
    assert(c.take(pos) =~= buf.take(pos));
    assert(c.skip(pos + 1) =~= buf.skip(pos + 1) + b);
    let r = buf.skip(pos + 1);
    if r.len() > 0 {
        assert(c.skip(pos + 1)[0] == r[0]);
        if buf[pos] == 13 && r[0] == 10 {
            assert(c.skip(pos + 1).skip(1) =~= r.skip(1) + b);
        }
    }
}

proof fn lemma_first_line_break_range(buf: Seq<u8>, i: int)
    requires
        0 <= i,
    ensures
        first_line_break(buf, i) matches Some(p) ==> i <= p < buf.len() && is_line_break(buf[p]),
    decreases buf.len() - i,
{
    if i < buf.len() && !is_line_break(buf[i]) {
        lemma_first_line_break_range(buf, i + 1);
    }
}

/// Reading `buf + b` equals reading `buf`, then reading what it left with `b`
/// appended — provided reading `buf` met no ill-formed line.
pub proof fn lemma_drain_append(buf: Seq<u8>, f: Fields, b: Seq<u8>)
    requires
        spec_drain(buf, f).bad_line is None,
    ensures
        ({
            let d1 = spec_drain(buf, f);
            let d2 = spec_drain(d1.buf + b, d1.fields);
            let d = spec_drain(buf + b, f);
            &&& d.buf == d2.buf
            &&& d.fields == d2.fields
            &&& d.bad_line == d2.bad_line
            &&& d.events == d1.events + d2.events
        }),
    decreases buf.len(),
{
    match spec_next_line(buf) {
        None => {
            let d1 = spec_drain(buf, f);
            assert(Seq::<EventView>::empty() + spec_drain(buf + b, f).events =~= spec_drain(
                buf + b,
                f,
            ).events);
        },
        Some((line, rest)) => {
            lemma_next_line_append(buf, b, line, rest);
            assert((buf + b).len() == buf.len() + b.len());
            let (f2, ev) = spec_decode_line(f, decode_utf8(line));
            lemma_drain_append(rest, f2, b);
            let first = match ev {
                Some(e) => seq![e],
                None => Seq::empty(),
            };
            let inner1 = spec_drain(rest, f2);
            let inner2 = spec_drain(inner1.buf + b, inner1.fields);
            assert(first + (inner1.events + inner2.events) =~= (first + inner1.events) + inner2.events);
        },
    }
}

/// Splitting a chunk in two, at any byte, changes neither the events nor the
/// decoder's final state: the events of `push(a)` followed by those of
/// `push(b)` are the events of `push(a + b)`.
pub proof fn law_push_split(state: DecoderState, a: Seq<u8>, b: Seq<u8>)
    requires
        spec_drain(state.buf + a, state.fields).bad_line is None,
    ensures
        ({
            let d1 = spec_drain(state.buf + a, state.fields);
            let d2 = spec_drain(d1.buf + b, d1.fields);
            let d = spec_drain(state.buf + (a + b), state.fields);
            &&& d.buf == d2.buf
            &&& d.fields == d2.fields
            &&& d.bad_line == d2.bad_line
            &&& d.events == d1.events + d2.events
        }),
{
    assert(state.buf + (a + b) =~= (state.buf + a) + b);
    lemma_drain_append(state.buf + a, state.fields, b);
}

/// A blank line closes the event being read: the closed event (when any field
/// was set) carries the current `event`, `data` lines joined with `\n`,
/// last id and `retry`; afterwards the next event starts with no event type,
/// no data and no `retry`, while the last event id carries over.
pub proof fn law_blank_line_closes_event(f: Fields)
    ensures
        ({
            let (next, closed) = spec_decode_line(f, Seq::<char>::empty());
            &&& next.event is None
            &&& next.data.len() == 0
            &&& next.retry is None
            &&& next.last_id == f.last_id
            &&& (f.event is Some || f.data.len() > 0 || f.last_id is Some || f.retry is Some) ==> closed
                == Some(EventView { event: f.event, data: join_lines(f.data), id: f.last_id, retry: f.retry })
            &&& !(f.event is Some || f.data.len() > 0 || f.last_id is Some || f.retry is Some) ==> closed
                is None
        }),
{
}

/// An `event:` line sets the type of the event being read and changes
/// nothing else, so a closed event's type is the value of the last `event:`
/// line since the previous blank line, or none.
pub proof fn law_event_line_sets_type(f: Fields, value: Seq<char>)
    ensures
        ({
            let line = "event: "@ + value;
            let (next, closed) = spec_decode_line(f, line);
            &&& closed is None
            &&& next.event == Some(value)
            &&& next.data == f.data
            &&& next.last_id == f.last_id
            &&& next.retry == f.retry
        }),
{
    reveal_strlit("event: ");
    reveal_strlit("event");
    let line = "event: "@ + value;
    assert(line[0] == 'e');
    lemma_first_index_found(line, ':', 0, 5);
    assert(line.take(5) =~= "event"@);
    assert(line.skip(6) =~= seq![' '] + value);
    assert((seq![' '] + value).skip(1) =~= value);
}

/// A `data:` line adds its value (without the one space after the colon) as
/// a further line of the event's data, and changes nothing else; the lines
/// of an event's data are joined with a single `\n`.
pub proof fn law_data_lines(f: Fields, value: Seq<char>, a: Seq<char>, b: Seq<char>)
    ensures
        ({
            let (next, closed) = spec_decode_line(f, "data: "@ + value);
            &&& closed is None
            &&& next.data == f.data.push(value)
            &&& next.event == f.event
            &&& next.last_id == f.last_id
            &&& next.retry == f.retry
        }),
        join_lines(seq![a]) == a,
        join_lines(seq![a, b]) == a + seq!['\n'] + b,
{
    reveal_strlit("data: ");
    reveal_strlit("data");
    reveal_strlit("event");
    assert("data"@ != "event"@) by {
        assert("data"@.len() != "event"@.len());
    }
    let line = "data: "@ + value;
    assert(line[0] == 'd');
    lemma_first_index_found(line, ':', 0, 4);
    assert(line.take(4) =~= "data"@);
    assert(line.skip(5) =~= seq![' '] + value);
    assert((seq![' '] + value).skip(1) =~= value);
    assert(seq![a, b].drop_last() =~= seq![a]);
    assert(seq![a, b].last() == b);
    assert(join_lines(seq![a]) == a);
}

/// Incremental SSE decoder: feed it chunks with `push` and call `finish`
/// when the stream ends.
pub struct SseDecoder {
    bytes: Vec<u8>,
    event: Option<String>,
    data: Vec<String>,
    last_event_id: Option<String>,
    retry: Option<u64>,
}

impl View for SseDecoder {
    type V = DecoderState;

    closed spec fn view(&self) -> DecoderState {
        DecoderState {
            buf: self.bytes@,
            fields: Fields {
                event: opt_chars(self.event),
                data: self.data@.map_values(|s: String| s@),
                last_id: opt_chars(self.last_event_id),
                retry: self.retry,
            },
        }
    }
}

proof fn lemma_first_line_break_found(buf: Seq<u8>, i: int, pos: int)
    requires
        0 <= i <= pos < buf.len(),
        is_line_break(buf[pos]),
        forall|j: int| i <= j < pos ==> !is_line_break(#[trigger] buf[j]),
    ensures
        first_line_break(buf, i) == Some(pos),
    decreases pos - i,
{
    if i < pos {
        lemma_first_line_break_found(buf, i + 1, pos);
    }
}

proof fn lemma_first_line_break_none(buf: Seq<u8>, i: int)
    requires
        0 <= i <= buf.len(),
        forall|j: int| i <= j < buf.len() ==> !is_line_break(#[trigger] buf[j]),
    ensures
        first_line_break(buf, i) is None,
    decreases buf.len() - i,
{
    if i < buf.len() {
        lemma_first_line_break_none(buf, i + 1);
    }
}

proof fn lemma_first_index_found(s: Seq<char>, c: char, i: int, pos: int)
    requires
        0 <= i <= pos < s.len(),
        s[pos] == c,
        forall|j: int| i <= j < pos ==> #[trigger] s[j] != c,
    ensures
        first_index_of(s, c, i) == Some(pos),
    decreases pos - i,
{
    if i < pos {
        lemma_first_index_found(s, c, i + 1, pos);
    }
}

proof fn lemma_first_index_none(s: Seq<char>, c: char, i: int)
    requires
        0 <= i <= s.len(),
        forall|j: int| i <= j < s.len() ==> #[trigger] s[j] != c,
    ensures
        first_index_of(s, c, i) is None,
    decreases s.len() - i,
{
    if i < s.len() {
        lemma_first_index_none(s, c, i + 1);
    }
}

fn copy_chars(v: &Vec<char>, from: usize, to: usize) -> (r: Vec<char>)
    requires
        from <= to <= v@.len(),
    ensures
        r@ == v@.subrange(from as int, to as int),
{
    let mut r: Vec<char> = Vec::new();
    let mut i: usize = from;
    while i < to
        invariant
            from <= i <= to <= v@.len(),
            r@ == v@.subrange(from as int, i as int),
        decreases to - i,
    {
        r.push(v[i]);
        i = i + 1;
        assert(r@ =~= v@.subrange(from as int, i as int));
    }
    r
}

fn copy_bytes(v: &Vec<u8>, from: usize, to: usize) -> (r: Vec<u8>)
    requires
        from <= to <= v@.len(),
    ensures
        r@ == v@.subrange(from as int, to as int),
{
    let mut r: Vec<u8> = Vec::new();
    let mut i: usize = from;
    while i < to
        invariant
            from <= i <= to <= v@.len(),
            r@ == v@.subrange(from as int, i as int),
        decreases to - i,
    {
        r.push(v[i]);
        i = i + 1;
        assert(r@ =~= v@.subrange(from as int, i as int));
    }
    r
}

fn contains_nul(v: &Vec<char>) -> (r: bool)
    ensures
        r == v@.contains('\0'),
{
    let mut i: usize = 0;
    while i < v.len()
        invariant
            i <= v@.len(),
            forall|j: int| 0 <= j < i ==> v@[j] != '\0',
        decreases v@.len() - i,
    {
        if v[i] == '\0' {
            assert(v@[i as int] == '\0');
            return true;
        }
        i = i + 1;
    }
    false
}

/// Joins lines with `\n`.
pub fn join_strings(lines: &Vec<String>) -> (r: String)
    ensures
        r@ == join_lines(lines@.map_values(|s: String| s@)),
{
    let ghost ls = lines@.map_values(|s: String| s@);
    let mut out: Vec<char> = Vec::new();
    let mut i: usize = 0;
    while i < lines.len()
        invariant
            i <= lines@.len(),
            ls == lines@.map_values(|s: String| s@),
            out@ == join_lines(ls.take(i as int)),
        decreases lines@.len() - i,
    {
        let ghost prev = out@;
        if i > 0 {
            out.push('\n');
        }
        let line = chars_of(lines[i].as_str());
        let mut j: usize = 0;
        while j < line.len()
            invariant
                j <= line@.len(),
                out@ == (if i > 0 { prev + seq!['\n'] } else { prev }) + line@.take(j as int),
            decreases line@.len() - j,
        {
            out.push(line[j]);
            j = j + 1;
            assert(out@ =~= (if i > 0 { prev + seq!['\n'] } else { prev }) + line@.take(j as int));
        }
        proof {
            assert(line@.take(j as int) =~= line@);
            assert(ls.take(i + 1).drop_last() =~= ls.take(i as int));
            assert(ls[i as int] == lines@[i as int]@);
            if i == 0 {
                assert(join_lines(ls.take(0)) =~= Seq::<char>::empty());
                assert(out@ =~= join_lines(ls.take(1)));
            }
        }
        i = i + 1;
    }
    assert(ls.take(i as int) =~= ls);
    string_from_chars(&out)
}

impl SseDecoder {
    /// A decoder with no buffered bytes and no fields set.
    pub fn new() -> (d: SseDecoder)
        ensures
            d@.buf.len() == 0,
            d@.fields == (Fields { event: None, data: Seq::empty(), last_id: None, retry: None }),
    {
        let d = SseDecoder {
            bytes: Vec::new(),
            event: None,
            data: Vec::new(),
            last_event_id: None,
            retry: None,
        };
        assert(d@.fields.data =~= Seq::<Seq<char>>::empty());
        d
    }

    /// Closes the event being read (see `spec_flush`).
    fn flush_event(&mut self) -> (r: Option<ServerSentEvent>)
        ensures
            final(self)@.buf == old(self)@.buf,
            (final(self)@.fields, match r {
                Some(e) => Some(e@),
                None => None,
            }) == spec_flush(old(self)@.fields),
    {
        if self.event.is_none() && self.data.len() == 0 && self.last_event_id.is_none()
            && self.retry.is_none() {
            return None;
        }
        let data = join_strings(&self.data);
        let event = ServerSentEvent {
            event: self.event.take(),
            data,
            id: self.last_event_id.clone(),
            retry: self.retry.take(),
        };
        self.data = Vec::new();
        assert(self@.fields.data =~= Seq::<Seq<char>>::empty());
        Some(event)
    }

    /// Reads one line (see `spec_decode_line`).
    fn decode_line(&mut self, line: &str) -> (r: Option<ServerSentEvent>)
        ensures
            final(self)@.buf == old(self)@.buf,
            (final(self)@.fields, match r {
                Some(e) => Some(e@),
                None => None,
            }) == spec_decode_line(old(self)@.fields, line@),
    {
        let chars = chars_of(line);
        if chars.len() == 0 {
            return self.flush_event();
        }
        if chars[0] == ':' {
            return None;
        }
        let mut colon: usize = 0;
        while colon < chars.len() && chars[colon] != ':'
            invariant
                colon <= chars@.len(),
                forall|j: int| 0 <= j < colon ==> #[trigger] chars@[j] != ':',
            decreases chars@.len() - colon,
        {
            colon = colon + 1;
        }
        let (name, raw_value) = if colon < chars.len() {
            proof {
                lemma_first_index_found(chars@, ':', 0, colon as int);
            }
            (copy_chars(&chars, 0, colon), copy_chars(&chars, colon + 1, chars.len()))
        } else {
            proof {
                lemma_first_index_none(chars@, ':', 0);
            }
            assert(chars@.subrange(0, chars@.len() as int) =~= chars@);
            (copy_chars(&chars, 0, chars.len()), Vec::new())
        };
        let value = if raw_value.len() > 0 && raw_value[0] == ' ' {
            copy_chars(&raw_value, 1, raw_value.len())
        } else {
            raw_value
        };
        proof {
            let (n, v) = split_field(chars@);
            assert(n =~= name@);
            assert(v =~= value@);
        }
        let name_s = string_from_chars(&name);
        let value_s = string_from_chars(&value);
        if str_eq(name_s.as_str(), "event") {
            self.event = Some(value_s);
        } else if str_eq(name_s.as_str(), "data") {
            self.data.push(value_s);
            assert(self@.fields.data =~= old(self)@.fields.data.push(value@));
        } else if str_eq(name_s.as_str(), "id") && !contains_nul(&value) {
            self.last_event_id = Some(value_s);
        } else if str_eq(name_s.as_str(), "retry") {
            self.retry = parse_u64_chars(&value);
        }
        None
    }

    /// Splits off the next complete line of the buffer and decodes it.
    fn next_line(&mut self) -> (r: Option<Result<String, Error>>)
        ensures
            final(self)@.fields == old(self)@.fields,
            match spec_next_line(old(self)@.buf) {
                None => r is None && final(self)@.buf == old(self)@.buf,
                Some((line, rest)) => final(self)@.buf == rest && rest.len() < old(self)@.buf.len()
                    && match r {
                    Some(Ok(s)) => valid_utf8(line) && s@ == decode_utf8(line),
                    Some(Err(Error::Stream(m))) => !valid_utf8(line) && m@ == utf8_error_message(
                        line,
                    ),
                    _ => false,
                },
            },
    {
        let mut pos: usize = 0;
        while pos < self.bytes.len() && !(self.bytes[pos] == 10 || self.bytes[pos] == 13)
            invariant
                pos <= self.bytes@.len(),
                forall|j: int| 0 <= j < pos ==> !is_line_break(#[trigger] self.bytes@[j]),
            decreases self.bytes@.len() - pos,
        {
            pos = pos + 1;
        }
        if pos == self.bytes.len() {
            proof {
                lemma_first_line_break_none(self.bytes@, 0);
            }
            return None;
        }
        proof {
            lemma_first_line_break_found(self.bytes@, 0, pos as int);
        }
        if self.bytes[pos] == 13 && pos + 1 == self.bytes.len() {
            return None;
        }
        let line = copy_bytes(&self.bytes, 0, pos);
        let mut next: usize = pos + 1;
        if self.bytes[pos] == 13 && next < self.bytes.len() && self.bytes[next] == 10 {
            next = next + 1;
        }
        let rest = copy_bytes(&self.bytes, next, self.bytes.len());
        proof {
            let buf = self.bytes@;
            assert(line@ =~= buf.take(pos as int));
            let r1 = buf.skip(pos + 1);
            if buf[pos as int] == 13 && r1.len() > 0 && r1[0] == 10 {
                assert(rest@ =~= r1.skip(1));
            } else {
                assert(rest@ =~= r1);
            }
        }
        self.bytes = rest;
        match utf8_decode(line.as_slice()) {
            Ok(s) => Some(Ok(s)),
            Err(m) => Some(Err(Error::Stream(m))),
        }
    }

    /// Reads the complete lines in the buffer, returning the events closed
    /// on the way.
    fn drain(&mut self) -> (r: Result<Vec<ServerSentEvent>, Error>)
        ensures
            ({
                let d = spec_drain(old(self)@.buf, old(self)@.fields);
                &&& final(self)@.buf == d.buf
                &&& final(self)@.fields == d.fields
                &&& drain_result(d, r)
            }),
    {
        let ghost total = spec_drain(self@.buf, self@.fields);
        let mut events: Vec<ServerSentEvent> = Vec::new();
        loop
            invariant
                total == spec_drain(old(self)@.buf, old(self)@.fields),
                ({
                    let d = spec_drain(self@.buf, self@.fields);
                    &&& d.buf == total.buf
                    &&& d.fields == total.fields
                    &&& d.bad_line == total.bad_line
                    &&& total.events == events_view(events@) + d.events
                }),
            decreases self@.buf.len(),
        {
            let ghost before = self@;
            match self.next_line() {
                None => {
                    assert(events_view(events@) + Seq::<EventView>::empty() =~= events_view(events@));
                    return Ok(events);
                },
                Some(Err(e)) => {
                    assert(spec_drain(before.buf, before.fields).bad_line is Some);
                    return Err(e);
                },
                Some(Ok(line)) => {
                    let ev = self.decode_line(line.as_str());
                    match ev {
                        Some(e) => {
                            let ghost prev = events@;
                            events.push(e);
                            proof {
                                assert(events_view(events@) =~= events_view(prev).push(e@));
                                let d = spec_drain(self@.buf, self@.fields);
                                assert(total.events =~= events_view(events@) + d.events);
                            }
                        },
                        None => {},
                    }
                },
            }
        }
    }

    /// Feeds a chunk of bytes to the decoder and returns the events that the
    /// complete lines now buffered close. A line that is not UTF-8 ends the
    /// call with a stream error; the lines before it have been read.
    pub fn push(&mut self, chunk: &[u8]) -> (r: Result<Vec<ServerSentEvent>, Error>)
        ensures
            ({
                let d = spec_drain(old(self)@.buf + chunk@, old(self)@.fields);
                &&& final(self)@.buf == d.buf
                &&& final(self)@.fields == d.fields
                &&& drain_result(d, r)
            }),
    {
        let mut i: usize = 0;
        let ghost start = self@;
        while i < chunk.len()
            invariant
                i <= chunk@.len(),
                self@.buf == start.buf + chunk@.take(i as int),
                self@.fields == start.fields,
            decreases chunk@.len() - i,
        {
            self.bytes.push(chunk[i]);
            i = i + 1;
            assert(self@.buf =~= start.buf + chunk@.take(i as int));
        }
        assert(chunk@.take(i as int) =~= chunk@);
        self.drain()
    }

    /// Ends the stream: reads what is left in the buffer as a last line (a
    /// `\r` held back at its end is that line's terminator), then closes the
    /// event being read. If that line is not UTF-8 the call fails with a
    /// stream error and keeps the buffer.
    pub fn finish(&mut self) -> (r: Result<Vec<ServerSentEvent>, Error>)
        ensures
            ({
                let f0 = old(self)@.fields;
                let buf = old(self)@.buf;
                let line = pending_line(buf);
                if buf.len() > 0 && !valid_utf8(line) {
                    &&& r matches Err(Error::Stream(m)) && m@ == utf8_error_message(line)
                    &&& final(self)@ == old(self)@
                } else {
                    let (f1, e1) = if buf.len() > 0 {
                        spec_decode_line(f0, decode_utf8(line))
                    } else {
                        (f0, None)
                    };
                    let (f2, e2) = spec_flush(f1);
                    let first = match e1 {
                        Some(e) => seq![e],
                        None => Seq::empty(),
                    };
                    let second = match e2 {
                        Some(e) => seq![e],
                        None => Seq::empty(),
                    };
                    &&& r matches Ok(v) && events_view(v@) == first + second
                    &&& final(self)@.buf.len() == 0
                    &&& final(self)@.fields == f2
                }
            }),
    {
        let mut events: Vec<ServerSentEvent> = Vec::new();
        if self.bytes.len() > 0 {
            let n = self.bytes.len();
            let end = if self.bytes[n - 1] == 13 { n - 1 } else { n };
            let raw = copy_bytes(&self.bytes, 0, end);
            proof {
                if self.bytes@.last() == 13 {
                    assert(raw@ =~= self.bytes@.drop_last());
                } else {
                    assert(raw@ =~= self.bytes@);
                }
            }
            let line = match utf8_decode(raw.as_slice()) {
                Ok(s) => s,
                Err(m) => {
                    return Err(Error::Stream(m));
                },
            };
            self.bytes = Vec::new();
            if let Some(e) = self.decode_line(line.as_str()) {
                events.push(e);
            }
        }
        let ghost mid = events@;
        if let Some(e) = self.flush_event() {
            events.push(e);
        }
        proof {
            assert(events_view(events@) =~= events_view(events@));
        }
        assert(self@.buf =~= Seq::<u8>::empty());
        events
            .len();
        Ok(events)
    }
}

/// What the event stream does with a decoded event.
#[derive(Debug, Clone, PartialEq, Eq)]
pub enum StreamStep {
    /// The event is the `[DONE]` marker: the stream ends.
    Stop,
    /// The event carries an API error: the stream fails with this message.
    Fail(String),
    /// The event is handed to the caller.
    Emit,
}

/// Whether `data` begins with the end-of-stream marker `[DONE]`.
pub open spec fn starts_with_done(data: Seq<char>) -> bool {
    data.len() >= 6 && data.take(6) == "[DONE]"@
}

/// The message of an error event: `error.message`, or a fixed text.
pub open spec fn stream_error_message(error: JsonValue) -> Seq<char> {
    match spec_get_str(error, "message"@) {
        Some(m) => m,
        None => "An error occurred during streaming"@,
    }
}

fn starts_with_done_marker(data: &str) -> (r: bool)
    ensures
        r == starts_with_done(data@),
{
    let chars = chars_of(data);
    if chars.len() < 6 {
        return false;
    }
    let mut head: Vec<char> = Vec::new();
    let mut i: usize = 0;
    while i < 6
        invariant
            i <= 6 <= chars@.len(),
            head@ == chars@.take(i as int),
        decreases 6 - i,
    {
        head.push(chars[i]);
        i = i + 1;
        assert(head@ =~= chars@.take(i as int));
    }
    let head_s = string_from_chars(&head);
    str_eq(head_s.as_str(), "[DONE]")
}

/// Decides what the event stream does with `event`, given the event's data
/// parsed as JSON (`None` when it is not JSON): `[DONE]` ends the stream, a
/// JSON object with an `error` member fails it, anything else is emitted.
pub fn classify_event(event: &ServerSentEvent, parsed: Option<&JsonValue>) -> (step: StreamStep)
    ensures
        starts_with_done(event.data@) ==> step == StreamStep::Stop,
        !starts_with_done(event.data@) ==> match parsed {
            Some(v) => match spec_get(*v, "error"@) {
                Some(e) => step matches StreamStep::Fail(m) && m@ == stream_error_message(e),
                None => step == StreamStep::Emit,
            },
            None => step == StreamStep::Emit,
        },
{
    if starts_with_done_marker(event.data.as_str()) {
        return StreamStep::Stop;
    }
    match parsed {
        Some(v) => match json_get(v, "error") {
            Some(e) => match json_get_str(e, "message") {
                Some(m) => StreamStep::Fail(m.to_string()),
                None => StreamStep::Fail("An error occurred during streaming".to_string()),
            },
            None => StreamStep::Emit,
        },
        None => StreamStep::Emit,
    }
}

/// Decides what the event stream does with an event flushed at the end of
/// the body, given its data parsed as JSON: the same rules as for any other
/// event — `[DONE]` ends the stream, a JSON object with an `error` member
/// fails it, anything else is emitted.
pub fn classify_final_event(event: &ServerSentEvent, parsed: Option<&JsonValue>) -> (step: StreamStep)
    ensures
        starts_with_done(event.data@) ==> step == StreamStep::Stop,
        !starts_with_done(event.data@) ==> match parsed {
            Some(v) => match spec_get(*v, "error"@) {
                Some(e) => step matches StreamStep::Fail(m) && m@ == stream_error_message(e),
                None => step == StreamStep::Emit,
            },
            None => step == StreamStep::Emit,
        },
{
    classify_event(event, parsed)
}

} // verus!
