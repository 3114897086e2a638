//! The output sink and its tail cursor. The sink is the append-only byte
//! store that the command's output and the supervisor's annotations merge
//! into; the tail is the reader that surfaces newly appended bytes, starting
//! from the sink's length at attachment so pre-existing content is never
//! replayed, and never missing or repeating a byte.

use vstd::prelude::*;

verus! {

/// The line terminator the tail reads up to.
pub const NEWLINE: u8 = 10;

/// An append-only byte store: the model of the log that one writer fills and
/// one tail reader follows. Writers only ever append; nothing is overwritten
/// or removed.
pub struct Sink {
    data: Vec<u8>,
}

impl View for Sink {
    type V = Seq<u8>;

    closed spec fn view(&self) -> Seq<u8> {
        self.data@
    }
}

impl Sink {
    /// An empty sink, as a fresh log starts.
    pub fn new() -> (s: Sink)
        ensures
            s@ == Seq::<u8>::empty(),
    {
        let s = Sink { data: Vec::new() };
        proof {
            assert(s@ =~= Seq::<u8>::empty());
        }
        s
    }

    /// A sink that already holds some bytes, as a reused log file does at
    /// startup.
    pub fn with_contents(data: Vec<u8>) -> (s: Sink)
        ensures
            s@ == data@,
    {
        Sink { data }
    }

    /// The number of bytes the sink holds.
    pub fn len(&self) -> (n: usize)
        ensures
            n == self@.len(),
    {
        self.data.len()
    }

    /// The byte at a position below the sink's length.
    pub fn byte_at(&self, i: usize) -> (b: u8)
        requires
            i < self@.len(),
        ensures
            b == self@[i as int],
    {
        self.data[i]
    }

    /// Appends bytes at the end; everything already present stays where it
    /// was.
    pub fn append(&mut self, bytes: &[u8])
        ensures
            final(self)@ == old(self)@ + bytes@,
    {
        let mut i: usize = 0;
        while i < bytes.len()
            invariant
                i <= bytes@.len(),
                self@ == old(self)@ + bytes@.subrange(0, i as int),
            decreases bytes@.len() - i,
        {
            self.data.push(bytes[i]);
            i = i + 1;
            proof {
                assert(old(self)@ + bytes@.subrange(0, i - 1) + seq![bytes@[i - 1]] =~= old(self)@
                    + bytes@.subrange(0, i as int));
            }
        }
        proof {
            assert(bytes@.subrange(0, bytes@.len() as int) =~= bytes@);
        }
    }

    /// Reads `count` bytes starting at `pos`; the sink is unchanged and the
    /// result is exactly that range of its contents.
    pub fn read_at(&self, pos: usize, count: usize) -> (out: Vec<u8>)
        requires
            pos + count <= self@.len(),
        ensures
            out@ == self@.subrange(pos as int, pos + count),
    {
        let n = self.data.len();
        let mut out: Vec<u8> = Vec::new();
        let mut i: usize = 0;
        while i < count
            invariant
                i <= count,
                pos + count <= n == self@.len(),
                out@ == self@.subrange(pos as int, pos + i),
            decreases count - i,
        {
            out.push(self.data[pos + i]);
            i = i + 1;
            proof {
                assert(self@.subrange(pos as int, pos + i - 1).push(self@[pos + i - 1]) =~= self@
                    .subrange(pos as int, pos + i));
            }
        }
        out
    }
}

/// Where the line that starts at `pos` ends: one past the first newline at
/// or after `pos`, or the end of the sink when no newline follows.
pub open spec fn spec_line_end(s: Seq<u8>, pos: int) -> int
    decreases s.len() - pos,
{
    if pos < 0 || pos >= s.len() {
        s.len() as int
    } else if s[pos] == NEWLINE {
        pos + 1
    } else {
        spec_line_end(s, pos + 1)
    }
}

/// The end of a line lies between its start and the end of the sink.
pub proof fn lemma_line_end_bounds(s: Seq<u8>, pos: int)
    requires
        0 <= pos <= s.len(),
    ensures
        pos <= spec_line_end(s, pos) <= s.len(),
    decreases s.len() - pos,
{
    if pos < s.len() && s[pos] != NEWLINE {
        lemma_line_end_bounds(s, pos + 1);
    }
}

/// The tail cursor: the offset up to which the reader has consumed the sink,
/// together with the offset it started from. Owned exclusively by the tail
/// streamer and monotonically non-decreasing.
pub struct Tail {
    /// The sink's length when the tail attached; nothing below it is ever
    /// emitted.
    pub start: usize,
    /// The offset the tail has consumed up to.
    pub pos: usize,
}

impl Tail {
    /// The cursor is well placed against a sink: between its start offset
    /// and the sink's end.
    pub open spec fn wf(&self, sink: Seq<u8>) -> bool {
        self.start <= self.pos <= sink.len()
    }

    /// Everything the tail has emitted so far: the sink's bytes from the
    /// attachment offset up to the cursor, in order.
    pub open spec fn emitted(&self, sink: Seq<u8>) -> Seq<u8> {
        sink.subrange(self.start as int, self.pos as int)
    }

    /// Attaches a tail to a sink: the cursor starts at the sink's current
    /// length, so whatever the sink already holds is never emitted.
    pub fn attach(sink: &Sink) -> (t: Tail)
        ensures
            t.start == sink@.len(),
            t.pos == sink@.len(),
            t.wf(sink@),
            t.emitted(sink@) == Seq::<u8>::empty(),
    {
        let n = sink.len();
        let t = Tail { start: n, pos: n };
        proof {
            assert(t.emitted(sink@) =~= Seq::<u8>::empty());
        }
        t
    }

    /// Consumes everything appended since the cursor: returns exactly the
    /// bytes between the cursor and the sink's end, and moves the cursor to
    /// the end. What has been emitted overall grows by exactly the returned
    /// chunk: no gap, no duplicate.
    pub fn poll(&mut self, sink: &Sink) -> (chunk: Vec<u8>)
        requires
            old(self).wf(sink@),
        ensures
            final(self).start == old(self).start,
            final(self).pos == sink@.len(),
            old(self).pos <= final(self).pos,
            final(self).wf(sink@),
            chunk@ == sink@.subrange(old(self).pos as int, sink@.len() as int),
            final(self).emitted(sink@) == old(self).emitted(sink@) + chunk@,
    {
        let n = sink.len();
        let chunk = sink.read_at(self.pos, n - self.pos);
        self.pos = n;
        proof {
            lemma_reads_concatenate(sink@, self.start as int, old(self).pos as int, n as int);
        }
        chunk
    }

    /// Consumes one line: returns the bytes from the cursor through the
    /// first newline (or through the end of the sink when no newline
    /// follows), and advances the cursor past them. What has been emitted
    /// overall grows by exactly the returned chunk.
    pub fn poll_line(&mut self, sink: &Sink) -> (chunk: Vec<u8>)
        requires
            old(self).wf(sink@),
        ensures
            final(self).start == old(self).start,
            final(self).pos == spec_line_end(sink@, old(self).pos as int),
            old(self).pos <= final(self).pos,
            final(self).wf(sink@),
            chunk@ == sink@.subrange(old(self).pos as int, spec_line_end(sink@, old(self).pos as int)),
            final(self).emitted(sink@) == old(self).emitted(sink@) + chunk@,
    {
        proof {
            lemma_line_end_bounds(sink@, self.pos as int);
        }
        let end = find_line_end(sink, self.pos);
        let chunk = sink.read_at(self.pos, end - self.pos);
        self.pos = end;
        proof {
            lemma_reads_concatenate(sink@, self.start as int, old(self).pos as int, end as int);
        }
        chunk
    }
}

/// Scans forward from `i` for the end of the current line.
fn find_line_end(sink: &Sink, i: usize) -> (e: usize)
    requires
        i <= sink@.len(),
    ensures
        e == spec_line_end(sink@, i as int),
    decreases sink@.len() - i,
{
    if i == sink.len() {
        i
    } else if sink.byte_at(i) == NEWLINE {
        i + 1
    } else {
        find_line_end(sink, i + 1)
    }
}

/// Bytes appended by the writer are exactly what a reader sees from the
/// previously recorded length onward: seeking to that length and reading to
/// the end observes the appended bytes, in order, nothing else.
pub proof fn lemma_sink_visibility(base: Seq<u8>, appended: Seq<u8>)
    ensures
        (base + appended).subrange(base.len() as int, (base + appended).len() as int) == appended,
{
    assert((base + appended).subrange(base.len() as int, (base + appended).len() as int)
        =~= appended);
}

/// Splitting a read at any midpoint loses nothing and repeats nothing: the
/// two halves concatenate to the whole range.
pub proof fn lemma_reads_concatenate(s: Seq<u8>, a: int, b: int, c: int)
    requires
        0 <= a <= b <= c <= s.len(),
    ensures
        s.subrange(a, b) + s.subrange(b, c) == s.subrange(a, c),
{
    assert(s.subrange(a, b) + s.subrange(b, c) =~= s.subrange(a, c));
}

/// Pre-existing content is never replayed: however far a tail that attached
/// at the old length has read, what it has seen is a prefix of the appended
/// bytes alone, never a byte of the old content.
pub proof fn lemma_no_replay(base: Seq<u8>, appended: Seq<u8>, pos: int)
    requires
        base.len() <= pos <= base.len() + appended.len(),
    ensures
        (base + appended).subrange(base.len() as int, pos) == appended.subrange(
            0,
            pos - base.len(),
        ),
{
    assert((base + appended).subrange(base.len() as int, pos) =~= appended.subrange(
        0,
        pos - base.len(),
    ));
}

} // verus!
