//! Parsing of complete SSE frames (text between blank lines) for the
//! provider adapter, and the framing helpers of the typed JSON event stream.

use vstd::prelude::*;
use crate::sse::{first_index_of, join_lines};
use crate::text::{chars_of, str_eq, string_from_chars};

verus! {

/// A Unicode `White_Space` character (what `char::is_whitespace` tests).
pub open spec fn is_whitespace(c: char) -> bool {
    ||| '\t' <= c <= '\r'
    ||| c == ' '
    ||| c == '\u{85}'
    ||| c == '\u{a0}'
    ||| c == '\u{1680}'
    ||| '\u{2000}' <= c <= '\u{200a}'
    ||| c == '\u{2028}'
    ||| c == '\u{2029}'
    ||| c == '\u{202f}'
    ||| c == '\u{205f}'
    ||| c == '\u{3000}'
}

/// `s` without its leading whitespace (`str::trim_start`).
pub open spec fn trim_start(s: Seq<char>) -> Seq<char>
    decreases s.len(),
{
    if s.len() > 0 && is_whitespace(s[0]) {
        trim_start(s.drop_first())
    } else {
        s
    }
}

/// A line without the `\r` of a `\r\n` ending.
pub open spec fn strip_cr(line: Seq<char>) -> Seq<char> {
    if line.len() > 0 && line.last() == '\r' {
        line.drop_last()
    } else {
        line
    }
}

pub proof fn lemma_first_index_range(s: Seq<char>, c: char, i: int)
    requires
        0 <= i,
    ensures
        first_index_of(s, c, i) matches Some(p) ==> i <= p < s.len() && s[p] == c,
    decreases s.len() - i,
{
    if i < s.len() && s[i] != c {
        lemma_first_index_range(s, c, i + 1);
    }
}

/// The lines of `s` as `str::lines` yields them: split at each `\n`, a `\r`
/// before the `\n` dropped, and no empty line after a final `\n`.
pub open spec fn spec_lines(s: Seq<char>) -> Seq<Seq<char>>
    decreases s.len(),
{
    match first_index_of(s, '\n', 0) {
        None => if s.len() == 0 {
            Seq::empty()
        } else {
            seq![s]
        },
        Some(i) => {
            proof {
                lemma_first_index_range(s, '\n', 0);
            }
            seq![strip_cr(s.take(i))] + spec_lines(s.skip(i + 1))
        },
    }
}

/// The value of `line` after `prefix`, leading whitespace trimmed, when the
/// line starts with `prefix`.
pub open spec fn field_value(line: Seq<char>, prefix: Seq<char>) -> Option<Seq<char>> {
    if line.len() >= prefix.len() && line.take(prefix.len() as int) == prefix {
        Some(trim_start(line.skip(prefix.len() as int)))
    } else {
        None
    }
}

/// The value of the last `event:` line.
pub open spec fn frame_event(lines: Seq<Seq<char>>) -> Option<Seq<char>>
    decreases lines.len(),
{
    if lines.len() == 0 {
        None
    } else {
        match field_value(lines.last(), "event:"@) {
            Some(v) => Some(v),
            None => frame_event(lines.drop_last()),
        }
    }
}

/// The values of the `data:` lines, in order.
pub open spec fn frame_data(lines: Seq<Seq<char>>) -> Seq<Seq<char>>
    decreases lines.len(),
{
    if lines.len() == 0 {
        Seq::empty()
    } else {
        let before = frame_data(lines.drop_last());
        match field_value(lines.last(), "data:"@) {
            Some(v) => before.push(v),
            None => before,
        }
    }
}

/// One event of a provider's SSE stream.
#[derive(Debug, Clone, PartialEq, Eq)]
pub struct SseEvent {
    pub event: Option<String>,
    pub data: String,
}

/// The event a frame holds: none when it has no `data:` line; otherwise the
/// last `event:` value and the `data:` values joined with `\n`.
pub open spec fn spec_parse_sse_frame(frame: Seq<char>) -> Option<(Option<Seq<char>>, Seq<char>)> {
    let lines = spec_lines(frame);
    if frame_data(lines).len() == 0 {
        None
    } else {
        Some((frame_event(lines), join_lines(frame_data(lines))))
    }
}

fn copy_range(v: &Vec<char>, from: usize, to: usize) -> (r: Vec<char>)
    requires
        from <= to <= v@.len(),
    ensures
        r@ == v@.subrange(from as int, to as int),
{
    let mut r: Vec<char> = Vec::new();
    let mut i: usize = from;
    while i < to
        invariant
            from <= i <= to <= v@.len(),
            r@ == v@.subrange(from as int, i as int),
        decreases to - i,
    {
        r.push(v[i]);
        i = i + 1;
        assert(r@ =~= v@.subrange(from as int, i as int));
    }
    r
}

/// `first_index_of` finds the first occurrence.
pub proof fn lemma_first_index_found_pub(s: Seq<char>, c: char, i: int, pos: int)
    requires
        0 <= i <= pos < s.len(),
        s[pos] == c,
        forall|j: int| i <= j < pos ==> #[trigger] s[j] != c,
    ensures
        first_index_of(s, c, i) == Some(pos),
{
    lemma_first_index_found_from(s, c, i, pos);
}

/// `first_index_of` finds nothing where `c` does not occur.
pub proof fn lemma_first_index_none_pub(s: Seq<char>, c: char, i: int)
    requires
        0 <= i <= s.len(),
        forall|j: int| i <= j < s.len() ==> #[trigger] s[j] != c,
    ensures
        first_index_of(s, c, i) is None,
{
    lemma_first_index_none_from(s, c, i);
}

proof fn lemma_first_index_found_from(s: Seq<char>, c: char, i: int, pos: int)
    requires
        0 <= i <= pos < s.len(),
        s[pos] == c,
        forall|j: int| i <= j < pos ==> #[trigger] s[j] != c,
    ensures
        first_index_of(s, c, i) == Some(pos),
    decreases pos - i,
{
    if i < pos {
        lemma_first_index_found_from(s, c, i + 1, pos);
    }
}

proof fn lemma_first_index_none_from(s: Seq<char>, c: char, i: int)
    requires
        0 <= i <= s.len(),
        forall|j: int| i <= j < s.len() ==> #[trigger] s[j] != c,
    ensures
        first_index_of(s, c, i) is None,
    decreases s.len() - i,
{
    if i < s.len() {
        lemma_first_index_none_from(s, c, i + 1);
    }
}

fn strip_cr_exec(line: Vec<char>) -> (r: Vec<char>)
    ensures
        r@ == strip_cr(line@),
{
    if line.len() > 0 && line[line.len() - 1] == '\r' {
        let mut l = line;
        l.pop();
        l
    } else {
        line
    }
}

/// Splits text into lines as `str::lines` does.
pub fn lines_of(s: &Vec<char>) -> (r: Vec<Vec<char>>)
    ensures
        r@.map_values(|v: Vec<char>| v@) == spec_lines(s@),
{
    let mut out: Vec<Vec<char>> = Vec::new();
    let mut pos: usize = 0;
    assert(s@.skip(0) =~= s@);
    assert(out@.map_values(|v: Vec<char>| v@) + spec_lines(s@) =~= spec_lines(s@));
    while pos < s.len()
        invariant
            pos <= s@.len(),
            out@.map_values(|v: Vec<char>| v@) + spec_lines(s@.skip(pos as int)) == spec_lines(s@),
        decreases s@.len() - pos,
    {
        let ghost rest = s@.skip(pos as int);
        let mut j: usize = pos;
        while j < s.len() && s[j] != '\n'
            invariant
                pos <= j <= s@.len(),
                forall|k: int| pos <= k < j ==> #[trigger] s@[k] != '\n',
            decreases s@.len() - j,
        {
            j = j + 1;
        }
        let ghost prev = out@.map_values(|v: Vec<char>| v@);
        if j < s.len() {
            proof {
                assert forall|k: int| 0 <= k < j - pos implies #[trigger] rest[k] != '\n' by {
                    assert(rest[k] == s@[pos + k]);
                }
                lemma_first_index_found_from(rest, '\n', 0, j - pos);
                assert(rest.take(j - pos) =~= s@.subrange(pos as int, j as int));
                assert(rest.skip(j - pos + 1) =~= s@.skip(j + 1));
            }
            let line = strip_cr_exec(copy_range(s, pos, j));
            out.push(line);
            pos = j + 1;
            proof {
                assert(out@.map_values(|v: Vec<char>| v@) =~= prev.push(line@));
                assert(prev.push(line@) + spec_lines(s@.skip(pos as int)) =~= prev + (seq![line@]
                    + spec_lines(s@.skip(pos as int))));
            }
        } else {
            proof {
                assert forall|k: int| 0 <= k < rest.len() implies #[trigger] rest[k] != '\n' by {
                    assert(rest[k] == s@[pos + k]);
                }
                lemma_first_index_none_from(rest, '\n', 0);
                assert(rest =~= s@.subrange(pos as int, s@.len() as int));
            }
            let line = copy_range(s, pos, s.len());
            out.push(line);
            pos = s.len();
            proof {
                assert(out@.map_values(|v: Vec<char>| v@) =~= prev.push(line@));
                assert(s@.skip(pos as int) =~= Seq::<char>::empty());
                assert(spec_lines(Seq::<char>::empty()) =~= Seq::<Seq<char>>::empty());
                assert(prev.push(line@) + Seq::<Seq<char>>::empty() =~= prev + seq![line@]);
            }
        }
    }
    proof {
        assert(s@.skip(pos as int) =~= Seq::<char>::empty());
        assert(spec_lines(Seq::<char>::empty()) =~= Seq::<Seq<char>>::empty());
        assert(out@.map_values(|v: Vec<char>| v@) + Seq::<Seq<char>>::empty() =~= out@.map_values(
            |v: Vec<char>| v@,
        ));
    }
    out
}

fn trim_start_exec(s: &Vec<char>, from: usize) -> (r: Vec<char>)
    requires
        from <= s@.len(),
    ensures
        r@ == trim_start(s@.skip(from as int)),
    decreases s@.len() - from,
{
    if from < s.len() && is_whitespace_exec(s[from]) {
        assert(s@.skip(from as int).drop_first() =~= s@.skip(from + 1));
        trim_start_exec(s, from + 1)
    } else {
        assert(s@.subrange(from as int, s@.len() as int) =~= s@.skip(from as int));
        copy_range(s, from, s.len())
    }
}

pub fn is_whitespace_exec(c: char) -> (r: bool)
    ensures
        r == is_whitespace(c),
{
    ('\t' <= c && c <= '\r') || c == ' ' || c == '\u{85}' || c == '\u{a0}' || c == '\u{1680}' || (
    '\u{2000}' <= c && c <= '\u{200a}') || c == '\u{2028}' || c == '\u{2029}' || c == '\u{202f}'
        || c == '\u{205f}' || c == '\u{3000}'
}

/// The value after `prefix` (leading whitespace trimmed) when `line` starts
/// with `prefix`.
fn field_value_exec(line: &Vec<char>, prefix: &str) -> (r: Option<Vec<char>>)
    ensures
        match r {
            Some(v) => field_value(line@, prefix@) == Some(v@),
            None => field_value(line@, prefix@) is None,
        },
{
    let p = chars_of(prefix);
    if line.len() < p.len() {
        return None;
    }
    let head = copy_range(line, 0, p.len());
    let head_s = string_from_chars(&head);
    assert(line@.subrange(0, p@.len() as int) =~= line@.take(p@.len() as int));
    if str_eq(head_s.as_str(), prefix) {
        Some(trim_start_exec(line, p.len()))
    } else {
        None
    }
}

/// Parses one SSE frame into an event: `event:` and `data:` lines are read
/// (value after the colon, leading whitespace trimmed; the last `event:`
/// wins, `data:` values are joined with `\n`); a frame without `data:` yields
/// nothing.
pub fn parse_sse_frame(frame: &str) -> (r: Option<SseEvent>)
    ensures
        match spec_parse_sse_frame(frame@) {
            None => r is None,
            Some((event, data)) => r matches Some(e) && e.data@ == data && match e.event {
                Some(x) => event == Some(x@),
                None => event is None,
            },
        },
{
    let chars = chars_of(frame);
    let lines = lines_of(&chars);
    let ghost ls = lines@.map_values(|v: Vec<char>| v@);
    let mut event: Option<Vec<char>> = None;
    let mut data: Vec<String> = Vec::new();
    let mut i: usize = 0;
    while i < lines.len()
        invariant
            i <= lines@.len(),
            ls == lines@.map_values(|v: Vec<char>| v@),
            data@.map_values(|s: String| s@) == frame_data(ls.take(i as int)),
            match event {
                Some(v) => frame_event(ls.take(i as int)) == Some(v@),
                None => frame_event(ls.take(i as int)) is None,
            },
        decreases lines@.len() - i,
    {
        proof {
            assert(ls.take(i + 1).drop_last() =~= ls.take(i as int));
            assert(ls.take(i + 1).last() == lines@[i as int]@);
        }
        match field_value_exec(&lines[i], "event:") {
            Some(v) => {
                event = Some(v);
            },
            None => {},
        }
        match field_value_exec(&lines[i], "data:") {
            Some(v) => {
                let ghost prev = data@.map_values(|s: String| s@);
                data.push(string_from_chars(&v));
                assert(data@.map_values(|s: String| s@) =~= prev.push(v@));
            },
            None => {},
        }
        i = i + 1;
    }
    assert(ls.take(i as int) =~= ls);
    if data.len() == 0 {
        return None;
    }
    let joined = crate::sse::join_strings(&data);
    let event_s = match event {
        Some(v) => Some(string_from_chars(&v)),
        None => None,
    };
    Some(SseEvent { event: event_s, data: joined })
}

/// Where a frame ends when one starts at `i`: after `\n\n`, or after
/// `\r\n\r\n`.
pub open spec fn boundary_at(buf: Seq<u8>, i: int) -> Option<int> {
    if i + 1 < buf.len() && buf[i] == 10 && buf[i + 1] == 10 {
        Some(i + 2)
    } else if i + 3 < buf.len() && buf[i] == 13 && buf[i + 1] == 10 && buf[i + 2] == 13 && buf[i + 3]
        == 10 {
        Some(i + 4)
    } else {
        None
    }
}

/// The end of the first frame found scanning from `i`.
pub open spec fn first_boundary(buf: Seq<u8>, i: int) -> Option<int>
    decreases buf.len() - i,
{
    if i < 0 || i + 1 >= buf.len() {
        None
    } else {
        match boundary_at(buf, i) {
            Some(e) => Some(e),
            None => first_boundary(buf, i + 1),
        }
    }
}

/// The length of the first complete frame in `buf`, blank line included.
pub fn find_sse_boundary(buf: &[u8]) -> (r: Option<usize>)
    ensures
        match r {
            Some(e) => first_boundary(buf@, 0) == Some(e as int),
            None => first_boundary(buf@, 0) is None,
        },
{
    let mut i: usize = 0;
    while i < buf.len() && buf.len() - i > 1
        invariant
            i <= buf@.len(),
            first_boundary(buf@, 0) == first_boundary(buf@, i as int),
        decreases buf@.len() - i,
    {
        if buf[i] == 10 && buf[i + 1] == 10 {
            return Some(i + 2);
        }
        if buf.len() - i > 3 && buf[i] == 13 && buf[i + 1] == 10 && buf[i + 2] == 13 && buf[i + 3]
            == 10 {
            return Some(i + 4);
        }
        i = i + 1;
    }
    None
}

/// `line` without its trailing `\r` characters.
pub open spec fn trim_end_cr(line: Seq<char>) -> Seq<char>
    decreases line.len(),
{
    if line.len() > 0 && line.last() == '\r' {
        trim_end_cr(line.drop_last())
    } else {
        line
    }
}

/// The payload of a `data:` line (one space after the colon dropped).
pub open spec fn data_payload(line: Seq<char>) -> Option<Seq<char>> {
    let t = trim_end_cr(line);
    if t.len() >= 6 && t.take(6) == "data: "@ {
        Some(t.skip(6))
    } else if t.len() >= 5 && t.take(5) == "data:"@ {
        Some(t.skip(5))
    } else {
        None
    }
}

/// Whether some `data:` line of the frame is the `[DONE]` marker.
pub open spec fn frame_has_done(lines: Seq<Seq<char>>) -> bool
    decreases lines.len(),
{
    lines.len() > 0 && (data_payload(lines.last()) == Some("[DONE]"@) || frame_has_done(
        lines.drop_last(),
    ))
}

/// The non-empty `data:` payloads of the frame, in order.
pub open spec fn frame_payloads(lines: Seq<Seq<char>>) -> Seq<Seq<char>>
    decreases lines.len(),
{
    if lines.len() == 0 {
        Seq::empty()
    } else {
        let before = frame_payloads(lines.drop_last());
        match data_payload(lines.last()) {
            Some(p) => if p.len() > 0 {
                before.push(p)
            } else {
                before
            },
            None => before,
        }
    }
}

/// What a frame of the typed JSON event stream carries.
#[derive(Debug, Clone, PartialEq, Eq)]
pub enum FramePayload {
    /// The end-of-stream marker.
    Done,
    /// No data: the frame is skipped.
    Skip,
    /// The JSON text of one event.
    Data(String),
}

fn trim_end_cr_exec(line: &Vec<char>) -> (r: Vec<char>)
    ensures
        r@ == trim_end_cr(line@),
{
    let mut end = line.len();
    assert(line@.take(end as int) =~= line@);
    while end > 0 && line[end - 1] == '\r'
        invariant
            end <= line@.len(),
            trim_end_cr(line@) == trim_end_cr(line@.take(end as int)),
        decreases end,
    {
        assert(line@.take(end as int).drop_last() =~= line@.take(end - 1));
        end = end - 1;
    }
    assert(line@.subrange(0, end as int) =~= line@.take(end as int));
    copy_range(line, 0, end)
}

fn starts_with_exec(line: &Vec<char>, prefix: &str) -> (r: bool)
    ensures
        r == (line@.len() >= prefix@.len() && line@.take(prefix@.len() as int) == prefix@),
{
    let p = chars_of(prefix);
    if line.len() < p.len() {
        return false;
    }
    let head = copy_range(line, 0, p.len());
    assert(line@.subrange(0, p@.len() as int) =~= line@.take(p@.len() as int));
    let head_s = string_from_chars(&head);
    str_eq(head_s.as_str(), prefix)
}

fn data_payload_exec(line: &Vec<char>) -> (r: Option<Vec<char>>)
    ensures
        match r {
            Some(p) => data_payload(line@) == Some(p@),
            None => data_payload(line@) is None,
        },
{
    let t = trim_end_cr_exec(line);
    proof {
        reveal_strlit("data: ");
        reveal_strlit("data:");
    }
    if starts_with_exec(&t, "data: ") {
        assert(t@.subrange(6, t@.len() as int) =~= t@.skip(6));
        Some(copy_range(&t, 6, t.len()))
    } else if starts_with_exec(&t, "data:") {
        assert(t@.subrange(5, t@.len() as int) =~= t@.skip(5));
        Some(copy_range(&t, 5, t.len()))
    } else {
        None
    }
}

/// Reads one frame of the typed JSON event stream: `[DONE]` in a `data:`
/// line ends the stream; otherwise the non-empty `data:` payloads joined with
/// `\n` are the event's JSON, and a frame without any is skipped.
pub fn frame_payload(frame: &str) -> (r: FramePayload)
    ensures
        ({
            let lines = spec_lines(frame@);
            if frame_has_done(lines) {
                r == FramePayload::Done
            } else if frame_payloads(lines).len() == 0 {
                r == FramePayload::Skip
            } else {
                r matches FramePayload::Data(d) && d@ == join_lines(frame_payloads(lines))
            }
        }),
{
    let chars = chars_of(frame);
    let lines = lines_of(&chars);
    let ghost ls = lines@.map_values(|v: Vec<char>| v@);
    let mut payloads: Vec<String> = Vec::new();
    let mut i: usize = 0;
    while i < lines.len()
        invariant
            i <= lines@.len(),
            ls == lines@.map_values(|v: Vec<char>| v@),
            ls == spec_lines(frame@),
            !frame_has_done(ls.take(i as int)),
            payloads@.map_values(|s: String| s@) == frame_payloads(ls.take(i as int)),
        decreases lines@.len() - i,
    {
        proof {
            assert(ls.take(i + 1).drop_last() =~= ls.take(i as int));
            assert(ls.take(i + 1).last() == lines@[i as int]@);
        }
        match data_payload_exec(&lines[i]) {
            Some(p) => {
                let p_s = string_from_chars(&p);
                if str_eq(p_s.as_str(), "[DONE]") {
                    proof {
                        lemma_has_done_extends(ls, i as int + 1);
                    }
                    return FramePayload::Done;
                }
                if p.len() > 0 {
                    let ghost prev = payloads@.map_values(|s: String| s@);
                    payloads.push(p_s);
                    assert(payloads@.map_values(|s: String| s@) =~= prev.push(p@));
                }
            },
            None => {},
        }
        i = i + 1;
    }
    assert(ls.take(i as int) =~= ls);
    if payloads.len() == 0 {
        return FramePayload::Skip;
    }
    FramePayload::Data(crate::sse::join_strings(&payloads))
}

proof fn lemma_has_done_extends(ls: Seq<Seq<char>>, k: int)
    requires
        0 <= k <= ls.len(),
        frame_has_done(ls.take(k)),
    ensures
        frame_has_done(ls),
    decreases ls.len() - k,
{
    if k < ls.len() {
        assert(ls.take(k + 1).drop_last() =~= ls.take(k));
        lemma_has_done_extends(ls, k + 1);
    } else {
        assert(ls.take(k) =~= ls);
    }
}

/// Splits the first frame (text up to the first blank line) off `buffer`:
/// the frame and the text after its `\n\n`.
pub open spec fn spec_take_frame(buffer: Seq<char>) -> Option<(Seq<char>, Seq<char>)> {
    match first_double_newline(buffer, 0) {
        Some(i) => Some((buffer.take(i), buffer.skip(i + 2))),
        None => None,
    }
}

/// The first index at or after `i` where `\n\n` starts.
pub open spec fn first_double_newline(s: Seq<char>, i: int) -> Option<int>
    decreases s.len() - i,
{
    if i < 0 || i + 1 >= s.len() {
        None
    } else if s[i] == '\n' && s[i + 1] == '\n' {
        Some(i)
    } else {
        first_double_newline(s, i + 1)
    }
}

/// Splits the first complete frame off the text buffered from a provider's
/// event stream.
pub fn take_frame(buffer: &str) -> (r: Option<(String, String)>)
    ensures
        match spec_take_frame(buffer@) {
            None => r is None,
            Some((frame, rest)) => r matches Some((f, t)) && f@ == frame && t@ == rest,
        },
{
    let chars = chars_of(buffer);
    let mut i: usize = 0;
    while i < chars.len() && chars.len() - i > 1
        invariant
            i <= chars@.len(),
            chars@ == buffer@,
            first_double_newline(chars@, 0) == first_double_newline(chars@, i as int),
        decreases chars@.len() - i,
    {
        if chars[i] == '\n' && chars[i + 1] == '\n' {
            let frame = copy_range(&chars, 0, i);
            let rest = copy_range(&chars, i + 2, chars.len());
            assert(chars@.subrange(0, i as int) =~= chars@.take(i as int));
            assert(chars@.subrange(i + 2, chars@.len() as int) =~= chars@.skip(i + 2));
            return Some((string_from_chars(&frame), string_from_chars(&rest)));
        }
        i = i + 1;
    }
    None
}

proof fn lemma_has_done_at(lines: Seq<Seq<char>>, i: int)
    requires
        0 <= i < lines.len(),
        data_payload(lines[i]) == Some("[DONE]"@),
    ensures
        frame_has_done(lines),
    decreases lines.len(),
{
    if i < lines.len() - 1 {
        assert(lines.drop_last()[i] == lines[i]);
        lemma_has_done_at(lines.drop_last(), i);
    }
}

/// A frame with a `data: [DONE]` (or `data:[DONE]`) line, wherever it
/// stands among the frame's lines, carries the end-of-stream marker.
pub proof fn law_done_line_ends_stream(lines: Seq<Seq<char>>, i: int)
    requires
        0 <= i < lines.len(),
        lines[i] == "data: [DONE]"@ || lines[i] == "data:[DONE]"@,
    ensures
        frame_has_done(lines),
{
    reveal_strlit("data: [DONE]");
    reveal_strlit("data:[DONE]");
    reveal_strlit("data: ");
    reveal_strlit("data:");
    reveal_strlit("[DONE]");
    let l = lines[i];
    assert(l.last() == ']');
    assert(trim_end_cr(l) == l);
    if l == "data: [DONE]"@ {
        assert(l.take(6) =~= "data: "@);
        assert(l.skip(6) =~= "[DONE]"@);
    } else {
        assert(l.take(6) != "data: "@) by {
            assert(l.take(6)[5] == '[');
        }
        assert(l.take(5) =~= "data:"@);
        assert(l.skip(5) =~= "[DONE]"@);
    }
    lemma_has_done_at(lines, i);
}

} // verus!
