//! Frames: splitting the byte stream into lines, reading a line's header,
//! and composing the queries sent to the device.
use vstd::prelude::*;

use crate::fields::ErrorKind;
use crate::registry::{decode, spec_decodes, spec_lookup, ResponseKind};
use crate::response::Response;
use vstd::slice::slice_subrange;

verus! {

pub open spec fn is_terminator(b: u8) -> bool {
    b == 0x0a || b == 0x0d
}

/// The bytes of `s` without its line feeds and carriage returns.
pub open spec fn strip_terminators(s: Seq<u8>) -> Seq<u8>
    decreases s.len(),
{
    if s.len() == 0 {
        s
    } else if is_terminator(s.last()) {
        strip_terminators(s.drop_last())
    } else {
        strip_terminators(s.drop_last()).push(s.last())
    }
}

/// The code of a line: the three bytes after its opening delimiter.
pub open spec fn frame_code(line: Seq<u8>) -> Seq<u8> {
    line.subrange(1, 4)
}

/// The payload of a line: what follows the header and the separator byte.
pub open spec fn frame_payload(line: Seq<u8>) -> Seq<u8> {
    if line.len() >= 6 {
        line.subrange(6, line.len() as int)
    } else {
        Seq::empty()
    }
}

/// A line that could not be decoded, with the line itself (terminators
/// removed) for diagnosis.
#[derive(Debug, Clone, PartialEq, Eq)]
pub struct FrameError {
    pub kind: ErrorKind,
    pub line: Vec<u8>,
}

/// The outcome of a line with the error reduced to its kind.
pub open spec fn outcome_kind(r: Result<Response, FrameError>) -> Result<Response, ErrorKind> {
    match r {
        Ok(v) => Ok(v),
        Err(e) => Err(e.kind),
    }
}

/// What decoding the line `s` returns.
pub open spec fn line_outcome(s: Seq<u8>, r: Result<Response, FrameError>) -> bool {
    let t = strip_terminators(s);
    &&& r matches Err(e) ==> e.line@ == t
    &&& if t.len() < 5 {
        outcome_kind(r) == Err::<Response, ErrorKind>(ErrorKind::FrameTooShort)
    } else {
        spec_decodes(frame_code(t), frame_payload(t), outcome_kind(r))
    }
}

/// Removes every line feed and carriage return from a line.
pub fn strip_line(s: &[u8]) -> (r: Vec<u8>)
    ensures
        r@ == strip_terminators(s@),
{
    let mut r: Vec<u8> = Vec::new();
    let mut i: usize = 0;
    while i < s.len()
        invariant
            i <= s@.len(),
            r@ == strip_terminators(s@.subrange(0, i as int)),
        decreases s@.len() - i,
    {
        assert(s@.subrange(0, i + 1).drop_last() =~= s@.subrange(0, i as int));
        if s[i] != 0x0a && s[i] != 0x0d {
            r.push(s[i]);
        }
        i = i + 1;
    }
    assert(s@.subrange(0, s@.len() as int) =~= s@);
    r
}

/// Splits a line into its code and its payload; a line shorter than a header
/// has neither.
pub fn split_frame(line: &[u8]) -> (r: Option<(&[u8], &[u8])>)
    ensures
        line@.len() < 5 ==> r is None,
        line@.len() >= 5 ==> (r matches Some((code, payload)) && code@ == frame_code(line@)
            && payload@ == frame_payload(line@)),
{
    let len = line.len();
    if len < 5 {
        return None;
    }
    let start: usize = if len >= 6 { 6 } else { len };
    let payload = slice_subrange(line, start, len);
    assert(payload@ =~= frame_payload(line@));
    Some((slice_subrange(line, 1, 4), payload))
}

/// Decodes one line: terminators are removed, a line of fewer than five bytes
/// is too short, and otherwise its code selects the decoder of its payload.
pub fn process_line(s: Vec<u8>) -> (r: Result<Response, FrameError>)
    ensures
        line_outcome(s@, r),
{
    let line = strip_line(s.as_slice());
    let decoded = match split_frame(line.as_slice()) {
        None => Err(ErrorKind::FrameTooShort),
        Some((code, payload)) => decode(code, payload),
    };
    match decoded {
        Ok(v) => Ok(v),
        Err(kind) => Err(FrameError { kind, line }),
    }
}

/// One byte of input: the pending line and the line it completes, if any. A
/// line feed ends a non-empty line; other terminators are dropped.
pub open spec fn reader_step(pending: Seq<u8>, b: u8) -> (Seq<u8>, Option<Seq<u8>>) {
    if b == 0x0a && pending.len() > 0 {
        (Seq::empty(), Some(pending))
    } else if is_terminator(b) {
        (pending, None)
    } else {
        (pending.push(b), None)
    }
}

/// The lines that the input `s` completes, in order, and what is left pending.
pub open spec fn reader_run(s: Seq<u8>) -> (Seq<Seq<u8>>, Seq<u8>)
    decreases s.len(),
{
    if s.len() == 0 {
        (Seq::empty(), Seq::empty())
    } else {
        let (lines, pending) = reader_run(s.drop_last());
        let (next, done) = reader_step(pending, s.last());
        match done {
            Some(line) => (lines.push(line), next),
            None => (lines, next),
        }
    }
}

/// Collects bytes into lines; each completed line is decoded at once.
pub struct LineAssembler {
    buf: Vec<u8>,
}

impl LineAssembler {
    /// The bytes of the line being collected.
    pub closed spec fn pending(&self) -> Seq<u8> {
        self.buf@
    }

    pub fn new() -> (r: LineAssembler)
        ensures
            r.pending() == Seq::<u8>::empty(),
    {
        LineAssembler { buf: Vec::new() }
    }

    /// Takes one byte; where it completes a line, returns that line decoded.
    pub fn push_byte(&mut self, b: u8) -> (r: Option<Result<Response, FrameError>>)
        ensures
            final(self).pending() == reader_step(old(self).pending(), b).0,
            match reader_step(old(self).pending(), b).1 {
                Some(line) => r matches Some(outcome) && line_outcome(line, outcome),
                None => r is None,
            },
    {
        if b == 0x0a && self.buf.len() > 0 {
            let mut line: Vec<u8> = Vec::new();
            std::mem::swap(&mut line, &mut self.buf);
            Some(process_line(line))
        } else if b == 0x0a || b == 0x0d {
            None
        } else {
            self.buf.push(b);
            None
        }
    }
}

/// Decodes every complete line of `bytes`, one result for each, in order.
pub fn decode_stream(bytes: &[u8]) -> (r: Vec<Result<Response, FrameError>>)
    ensures
        r@.len() == reader_run(bytes@).0.len(),
        forall|i: int| 0 <= i < r@.len() ==> line_outcome(reader_run(bytes@).0[i], #[trigger] r@[i]),
{
    let mut reader = LineAssembler::new();
    let mut r: Vec<Result<Response, FrameError>> = Vec::new();
    let mut i: usize = 0;
    while i < bytes.len()
        invariant
            i <= bytes@.len(),
            reader.pending() == reader_run(bytes@.subrange(0, i as int)).1,
            r@.len() == reader_run(bytes@.subrange(0, i as int)).0.len(),
            forall|j: int| 0 <= j < r@.len()
                ==> line_outcome(reader_run(bytes@.subrange(0, i as int)).0[j], #[trigger] r@[j]),
        decreases bytes@.len() - i,
    {
        assert(bytes@.subrange(0, i + 1).drop_last() =~= bytes@.subrange(0, i as int));
        match reader.push_byte(bytes[i]) {
            Some(outcome) => r.push(outcome),
            None => {},
        }
        i = i + 1;
    }
    assert(bytes@.subrange(0, bytes@.len() as int) =~= bytes@);
    r
}

/// After a line feed nothing is pending, so what follows is read as though the
/// stream began there: a bad line never spoils the lines after it.
pub proof fn lemma_reader_resynchronizes(s1: Seq<u8>, s2: Seq<u8>)
    requires
        s1.len() > 0,
        s1.last() == 0x0a,
    ensures
        reader_run(s1 + s2).0 == reader_run(s1).0 + reader_run(s2).0,
        reader_run(s1 + s2).1 == reader_run(s2).1,
    decreases s2.len(),
{
    if s2.len() == 0 {
        assert(s1 + s2 =~= s1);
        assert(reader_run(s1).0 + reader_run(s2).0 =~= reader_run(s1).0);
    } else {
        lemma_reader_resynchronizes(s1, s2.drop_last());
        assert((s1 + s2).drop_last() =~= s1 + s2.drop_last());
        let (l1, p1) = reader_run(s1 + s2.drop_last());
        let (l2, p2) = reader_run(s2.drop_last());
        let (next, done) = reader_step(p2, s2.last());
        if let Some(line) = done {
            assert(l1.push(line) =~= reader_run(s1).0 + l2.push(line));
        }
    }
}

/// The query frame for a code: the code between brackets, on a line of its own.
pub open spec fn query_frame(code: Seq<u8>) -> Seq<u8> {
    seq![0x0a, 0x5b] + code + seq![0x5d, 0x0a]
}

/// Appends the query frame for `code` to `out`.
pub fn write_code(out: &mut Vec<u8>, code: &[u8])
    ensures
        final(out)@ == old(out)@ + query_frame(code@),
{
    out.push(0x0a);
    out.push(0x5b);  // '['
    let ghost start = out@;
    let mut i: usize = 0;
    while i < code.len()
        invariant
            i <= code@.len(),
            out@ == start + code@.subrange(0, i as int),
        decreases code@.len() - i,
    {
        out.push(code[i]);
        i = i + 1;
        assert(out@ =~= start + code@.subrange(0, i as int));
    }
    out.push(0x5d);  // ']'
    out.push(0x0a);
    assert(code@.subrange(0, code@.len() as int) =~= code@);
    assert(out@ =~= old(out)@ + query_frame(code@));
}

/// The query for an entry, read back by the frame reader, is one line whose
/// header holds that entry's code.
pub proof fn lemma_query_round_trip(kind: ResponseKind)
    ensures
        reader_run(query_frame(kind.code_bytes())).0.len() == 1,
        frame_code(reader_run(query_frame(kind.code_bytes())).0[0]) == kind.code_bytes(),
        spec_lookup(frame_code(reader_run(query_frame(kind.code_bytes())).0[0])) == Some(kind),
        reader_run(query_frame(kind.code_bytes())).1.len() == 0,
{
    let q = query_frame(kind.code_bytes());
    reveal_with_fuel(reader_run, 8);
    assert(q.drop_last().drop_last().drop_last().drop_last().drop_last().drop_last().drop_last()
        =~= Seq::<u8>::empty());
    assert(reader_run(q).0[0] =~= seq![0x5b] + kind.code_bytes() + seq![0x5d]);
}

} // verus!
