//! The typed JSON event stream: bytes are buffered until a frame is
//! complete, and each frame yields a JSON payload, is skipped, or ends the
//! stream.

use vstd::prelude::*;
use crate::sse_frame::{
    FramePayload, first_boundary, find_sse_boundary, frame_payload, spec_lines, frame_has_done,
    frame_payloads,
};
use crate::sse::join_lines;
use crate::text::{lossy_utf8, utf8_lossy};

verus! {

/// What a frame's text carries.
pub enum PayloadView {
    Done,
    Skip,
    Data(Seq<char>),
}

/// What a frame's text carries: the end marker, nothing, or the joined
/// payload of its `data:` lines.
pub open spec fn payload_of(frame: Seq<char>) -> PayloadView {
    let lines = spec_lines(frame);
    if frame_has_done(lines) {
        PayloadView::Done
    } else if frame_payloads(lines).len() == 0 {
        PayloadView::Skip
    } else {
        PayloadView::Data(join_lines(frame_payloads(lines)))
    }
}

/// The outcome of asking the stream for its next event.
#[derive(Debug, Clone, PartialEq, Eq)]
pub enum FrameStep {
    /// The JSON text of the next event.
    Payload(String),
    /// The stream has ended.
    Finished,
    /// More bytes are needed.
    NeedMore,
}

/// The outcome of a step, abstractly.
pub enum StepView {
    Payload(Seq<char>),
    Finished,
    NeedMore,
}

/// A frame end is past the frame's start and within the buffer.
pub proof fn lemma_first_boundary_range(buf: Seq<u8>, i: int)
    requires
        0 <= i,
    ensures
        first_boundary(buf, i) matches Some(e) ==> i + 2 <= e <= buf.len(),
    decreases buf.len() - i,
{
    if i + 1 < buf.len() {
        lemma_first_boundary_range(buf, i + 1);
    }
}

/// The next step of the stream from buffered bytes `buf` (not yet ended):
/// frames without data are skipped; the end marker ends the stream and drops
/// what is buffered; a frame with data yields it.
pub open spec fn spec_step(buf: Seq<u8>) -> (Seq<u8>, bool, StepView)
    decreases buf.len(),
{
    match first_boundary(buf, 0) {
        None => (buf, false, StepView::NeedMore),
        Some(pos) => if 2 <= pos <= buf.len() {
            let rest = buf.skip(pos);
            match payload_of(lossy_utf8(buf.take(pos))) {
                PayloadView::Data(p) => (rest, false, StepView::Payload(p)),
                PayloadView::Done => (Seq::empty(), true, StepView::Finished),
                PayloadView::Skip => spec_step(rest),
            }
        } else {
            (buf, false, StepView::NeedMore)
        },
    }
}

/// The step that the end of the input gives from buffered bytes `buf`: the
/// payload of what is left, if it has data.
pub open spec fn spec_end(buf: Seq<u8>) -> StepView {
    if buf.len() == 0 {
        StepView::Finished
    } else {
        match payload_of(lossy_utf8(buf)) {
            PayloadView::Data(p) => StepView::Payload(p),
            _ => StepView::Finished,
        }
    }
}

/// Everything that buffered bytes `buf` yield before more bytes are needed:
/// the payloads in order, the bytes left, and whether the stream has ended.
pub open spec fn spec_drain_frames(buf: Seq<u8>) -> (Seq<Seq<char>>, Seq<u8>, bool)
    decreases buf.len(),
{
    let (rest, done, v) = spec_step(buf);
    match v {
        StepView::Payload(p) => if rest.len() < buf.len() {
            let (ps, left, d) = spec_drain_frames(rest);
            (seq![p] + ps, left, d)
        } else {
            (seq![p], rest, done)
        },
        StepView::Finished => (Seq::empty(), rest, true),
        StepView::NeedMore => (Seq::empty(), rest, false),
    }
}

/// A frame end found in a prefix is the first frame end of any longer
/// buffer too.
proof fn lemma_first_boundary_prefix(a: Seq<u8>, b: Seq<u8>, i: int)
    requires
        0 <= i,
        first_boundary(a, i) is Some,
    ensures
        first_boundary(a + b, i) == first_boundary(a, i),
    decreases a.len() - i,
{
    let w = a + b;
    lemma_first_boundary_range(a, i);
    assert(w[i] == a[i] && w[i + 1] == a[i + 1]);
    if i + 3 < a.len() {
        assert(w[i + 2] == a[i + 2] && w[i + 3] == a[i + 3]);
    }
    match crate::sse_frame::boundary_at(a, i) {
        Some(e) => {},
        None => {
            assert(first_boundary(a, i + 1) is Some);
            lemma_first_boundary_range(a, i + 1);
            assert(i + 2 < a.len());
            if i + 3 >= a.len() {
                // Only a `\r\n\r` could end `a` here, and it holds no frame
                // end after `i`.
                assert(a.len() == i + 3);
                assert(first_boundary(a, i + 2) is None);
                if w[i] == 13 && w[i + 1] == 10 && w[i + 2] == 13 {
                    assert(crate::sse_frame::boundary_at(a, i + 1) is None);
                    assert(false);
                }
            }
            assert(crate::sse_frame::boundary_at(w, i) is None);
            lemma_first_boundary_prefix(a, b, i + 1);
        },
    }
}

/// A step that finds a frame in `a` finds the same frame in `a + b`, and
/// what is left is what was left of `a`, followed by `b`.
proof fn lemma_step_append(a: Seq<u8>, b: Seq<u8>)
    requires
        spec_step(a).2 !is NeedMore,
    ensures
        spec_step(a + b).2 == spec_step(a).2,
        spec_step(a + b).1 == spec_step(a).1,
        spec_step(a).1 ==> spec_step(a + b).0 == spec_step(a).0,
        !spec_step(a).1 ==> spec_step(a + b).0 == spec_step(a).0 + b,
    decreases a.len(),
{
    let w = a + b;
    let pos = first_boundary(a, 0).unwrap();
    lemma_first_boundary_prefix(a, b, 0);
    lemma_first_boundary_range(a, 0);
    assert(w.take(pos) =~= a.take(pos));
    assert(w.skip(pos) =~= a.skip(pos) + b);
    match payload_of(lossy_utf8(a.take(pos))) {
        PayloadView::Skip => {
            lemma_step_append(a.skip(pos), b);
        },
        _ => {},
    }
}

/// Splitting the received bytes in two changes nothing: draining `a`, then
/// draining what is left followed by `b`, yields the payloads, the leftover
/// bytes and the end of the stream that draining `a + b` at once yields.
pub proof fn law_frames_split(a: Seq<u8>, b: Seq<u8>)
    ensures
        ({
            let d1 = spec_drain_frames(a);
            let d = spec_drain_frames(a + b);
            let d2 = spec_drain_frames(d1.1 + b);
            &&& d1.2 ==> d.0 == d1.0 && d.2
            &&& !d1.2 ==> d.0 == d1.0 + d2.0 && d.1 == d2.1 && d.2 == d2.2
        }),
    decreases a.len(),
{
    let (rest, _done, v) = spec_step(a);
    match v {
        StepView::NeedMore => {
            lemma_step_needmore_rest(a);
            lemma_needmore_append(a, b);
            let ps2 = spec_drain_frames(rest + b).0;
            assert(Seq::<Seq<char>>::empty() + ps2 =~= ps2);
        },
        StepView::Finished => {
            lemma_step_append(a, b);
        },
        StepView::Payload(p) => {
            lemma_step_append(a, b);
            lemma_step_shrinks(a);
            law_frames_split(rest, b);
            let r = spec_drain_frames(rest);
            assert(spec_step(a + b) == (rest + b, false, StepView::Payload(p)));
            assert(spec_drain_frames(a) == (seq![p] + r.0, r.1, r.2));
            assert(spec_drain_frames(a + b) == (
                seq![p] + spec_drain_frames(rest + b).0,
                spec_drain_frames(rest + b).1,
                spec_drain_frames(rest + b).2,
            ));
            assert(seq![p] + r.0 + spec_drain_frames(r.1 + b).0 =~= seq![p] + (r.0 + spec_drain_frames(r.1 + b).0));
        },
    }
}

/// A step that yields a payload consumes bytes.
proof fn lemma_step_shrinks(buf: Seq<u8>)
    ensures
        spec_step(buf).2 is Payload ==> spec_step(buf).0.len() < buf.len() && !spec_step(buf).1,
    decreases buf.len(),
{
    match first_boundary(buf, 0) {
        None => {},
        Some(pos) => {
            lemma_first_boundary_range(buf, 0);
            if 2 <= pos <= buf.len() {
                match payload_of(lossy_utf8(buf.take(pos))) {
                    PayloadView::Skip => lemma_step_shrinks(buf.skip(pos)),
                    _ => {},
                }
            }
        },
    }
}

/// When more bytes are needed, what is left is the buffer less the frames
/// skipped, and those frames are skipped whatever follows.
proof fn lemma_step_needmore_rest(buf: Seq<u8>)
    ensures
        spec_step(buf).2 is NeedMore ==> !spec_step(buf).1 && spec_step(buf).0.len() <= buf.len(),
    decreases buf.len(),
{
    match first_boundary(buf, 0) {
        None => {},
        Some(pos) => {
            lemma_first_boundary_range(buf, 0);
            if 2 <= pos <= buf.len() {
                match payload_of(lossy_utf8(buf.take(pos))) {
                    PayloadView::Skip => lemma_step_needmore_rest(buf.skip(pos)),
                    _ => {},
                }
            }
        },
    }
}

/// When `a` needs more bytes, `a + b` steps as what is left of `a`,
/// followed by `b`, does: the frames skipped in `a` are skipped in `a + b`.
proof fn lemma_needmore_append(a: Seq<u8>, b: Seq<u8>)
    requires
        spec_step(a).2 is NeedMore,
    ensures
        spec_step(a + b) == spec_step(spec_step(a).0 + b),
        spec_drain_frames(a + b) == spec_drain_frames(spec_step(a).0 + b),
    decreases a.len(),
{
    let w = a + b;
    match first_boundary(a, 0) {
        None => {},
        Some(pos) => {
            lemma_first_boundary_prefix(a, b, 0);
            lemma_first_boundary_range(a, 0);
            assert(w.take(pos) =~= a.take(pos));
            assert(w.skip(pos) =~= a.skip(pos) + b);
            lemma_needmore_append(a.skip(pos), b);
        },
    }
    lemma_step_needmore_rest(a);
    lemma_step_shrinks(spec_step(a).0 + b);
    lemma_step_shrinks(a + b);
}

/// Whether `s` is the abstract step `v`.
pub open spec fn is_step(s: FrameStep, v: StepView) -> bool {
    match v {
        StepView::Payload(p) => s matches FrameStep::Payload(x) && x@ == p,
        StepView::Finished => s == FrameStep::Finished,
        StepView::NeedMore => s == FrameStep::NeedMore,
    }
}

/// The buffer of a typed JSON event stream.
#[derive(Debug)]
pub struct FrameBuffer {
    buffer: Vec<u8>,
    done: bool,
}

fn tail(v: &Vec<u8>, from: usize) -> (r: Vec<u8>)
    requires
        from <= v@.len(),
    ensures
        r@ == v@.skip(from as int),
{
    let mut out: Vec<u8> = Vec::new();
    let mut i = from;
    while i < v.len()
        invariant
            from <= i <= v@.len(),
            out@ =~= v@.subrange(from as int, i as int),
        decreases v@.len() - i,
    {
        out.push(v[i]);
        i = i + 1;
    }
    out
}

impl FrameBuffer {
    /// The buffered bytes.
    pub closed spec fn spec_buffer(&self) -> Seq<u8> {
        self.buffer@
    }

    /// Whether the stream has ended.
    pub closed spec fn spec_done(&self) -> bool {
        self.done
    }

    /// An empty buffer of a stream that has not ended.
    pub fn new() -> (b: FrameBuffer)
        ensures
            b.spec_buffer().len() == 0,
            !b.spec_done(),
    {
        FrameBuffer { buffer: Vec::new(), done: false }
    }

    /// Appends received bytes.
    pub fn push(&mut self, bytes: &[u8])
        ensures
            final(self).spec_buffer() == old(self).spec_buffer() + bytes@,
            final(self).spec_done() == old(self).spec_done(),
    {
        let mut i: usize = 0;
        let ghost start = self.buffer@;
        while i < bytes.len()
            invariant
                i <= bytes@.len(),
                self.buffer@ =~= start + bytes@.take(i as int),
                self.done == old(self).done,
            decreases bytes@.len() - i,
        {
            self.buffer.push(bytes[i]);
            i = i + 1;
        }
        assert(bytes@.take(bytes@.len() as int) =~= bytes@);
    }

    /// The next step: nothing more once the stream has ended; otherwise as
    /// `spec_step` says.
    pub fn next(&mut self) -> (s: FrameStep)
        ensures
            old(self).spec_done() ==> s == FrameStep::Finished && *final(self) == *old(self),
            !old(self).spec_done() ==> ({
                let (b, d, v) = spec_step(old(self).spec_buffer());
                &&& is_step(s, v)
                &&& final(self).spec_buffer() == b
                &&& final(self).spec_done() == d
            }),
    {
        if self.done {
            return FrameStep::Finished;
        }
        let ghost orig = self.buffer@;
        loop
            invariant
                !self.done,
                !old(self).done,
                orig == old(self).buffer@,
                spec_step(orig) == spec_step(self.buffer@),
            decreases self.buffer@.len(),
        {
            let found = find_sse_boundary(self.buffer.as_slice());
            let pos = match found {
                None => {
                    return FrameStep::NeedMore;
                },
                Some(p) => p,
            };
            proof {
                lemma_first_boundary_range(self.buffer@, 0);
            }
            let mut head: Vec<u8> = Vec::new();
            let mut i: usize = 0;
            while i < pos
                invariant
                    pos <= self.buffer@.len(),
                    i <= pos,
                    head@ =~= self.buffer@.take(i as int),
                decreases pos - i,
            {
                head.push(self.buffer[i]);
                i = i + 1;
            }
            let text = utf8_lossy(head.as_slice());
            let rest = tail(&self.buffer, pos);
            let payload = frame_payload(text.as_str());
            match payload {
                FramePayload::Data(p) => {
                    self.buffer = rest;
                    return FrameStep::Payload(p);
                },
                FramePayload::Done => {
                    self.done = true;
                    self.buffer = Vec::new();
                    return FrameStep::Finished;
                },
                FramePayload::Skip => {
                    self.buffer = rest;
                },
            }
        }
    }

    /// Ends the stream after a failure (a payload that is not JSON, or an
    /// error of the input): nothing stays buffered, and every later `next` or
    /// `end` reports the end without reading further input.
    pub fn fail(&mut self)
        ensures
            final(self).spec_done(),
            final(self).spec_buffer().len() == 0,
    {
        self.done = true;
        self.buffer = Vec::new();
    }

    /// The step at the end of the input: the payload of what is left, if it
    /// has data; afterwards the stream has ended and nothing is buffered.
    pub fn end(&mut self) -> (s: FrameStep)
        ensures
            old(self).spec_done() ==> s == FrameStep::Finished && *final(self) == *old(self),
            !old(self).spec_done() ==> is_step(s, spec_end(old(self).spec_buffer()))
                && final(self).spec_done() && final(self).spec_buffer().len() == 0,
    {
        if self.done {
            return FrameStep::Finished;
        }
        self.done = true;
        if self.buffer.len() == 0 {
            return FrameStep::Finished;
        }
        let text = utf8_lossy(self.buffer.as_slice());
        self.buffer = Vec::new();
        match frame_payload(text.as_str()) {
            FramePayload::Data(p) => FrameStep::Payload(p),
            _ => FrameStep::Finished,
        }
    }
}

} // verus!
