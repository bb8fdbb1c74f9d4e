//! Kernel land logger.
//!
//! The logger writes the lines it is given to a backend writer. When the
//! line-buffering is enabled, what is written is kept in a buffer until a
//! line is complete, and goes to the writer line by line.
use vstd::prelude::*;
use vstd::slice::*;

verus! {

/// The ASCII new-line, which completes a line.
pub const NEW_LINE: u8 = 10;

/// The lines which are completed, and what stays in the buffer, when
/// `chunk` is written after the bytes `buffered`.
pub open spec fn spec_buffered(buffered: Seq<u8>, chunk: Seq<u8>) -> (Seq<Seq<u8>>, Seq<u8>)
    decreases chunk.len(),
{
    if chunk.len() == 0 {
        (Seq::empty(), buffered)
    } else if chunk[0] == NEW_LINE {
        let rest = spec_buffered(Seq::empty(), chunk.skip(1));
        (seq![buffered.push(chunk[0])] + rest.0, rest.1)
    } else {
        spec_buffered(buffered.push(chunk[0]), chunk.skip(1))
    }
}

/// Manager of the bytes of the line which is not complete yet.
#[derive(Debug)]
pub struct LoggerBuffer {
    m_buffer: Vec<u8>,
}

impl LoggerBuffer {
    /// Size in bytes with which the buffer starts.
    pub const SIZE: usize = 512;

    /// The bytes kept in the buffer.
    pub closed spec fn view(&self) -> Seq<u8> {
        self.m_buffer@
    }

    /// Constructs a new `LoggerBuffer`, which holds no byte.
    pub fn new() -> (buffer: Self)
        ensures
            buffer@ == Seq::<u8>::empty(),
    {
        Self { m_buffer: Vec::with_capacity(Self::SIZE) }
    }

    /// Writes `str_chunk` to the buffer.
    ///
    /// Returns the lines which the chunk has completed, each with its
    /// new-line, by the order in which they have to be flushed. What
    /// follows the last new-line stays in the buffer.
    pub fn write_str_chunk(&mut self, str_chunk: &[u8]) -> (lines: Vec<Vec<u8>>)
        ensures
            lines.deep_view() == spec_buffered(old(self)@, str_chunk@).0,
            final(self)@ == spec_buffered(old(self)@, str_chunk@).1,
    {
        let mut lines: Vec<Vec<u8>> = Vec::new();
        let mut index: usize = 0;
        assert(str_chunk@.skip(0) == str_chunk@);
        assert(lines.deep_view() == Seq::<Seq<u8>>::empty());
        while index < str_chunk.len()
            invariant
                index <= str_chunk@.len(),
                lines.deep_view() + spec_buffered(self@, str_chunk@.skip(index as int)).0
                    == spec_buffered(old(self)@, str_chunk@).0,
                spec_buffered(self@, str_chunk@.skip(index as int)).1 == spec_buffered(
                    old(self)@,
                    str_chunk@,
                ).1,
            decreases str_chunk@.len() - index,
        {
            let byte: u8 = str_chunk[index];
            let ghost rest = str_chunk@.skip(index as int);
            let ghost before = self@;
            let ghost flushed = lines.deep_view();
            assert(rest[0] == byte);
            assert(rest.skip(1) == str_chunk@.skip(index + 1));
            self.m_buffer.push(byte);
            if byte == NEW_LINE {
                let mut line: Vec<u8> = Vec::new();
                core::mem::swap(&mut line, &mut self.m_buffer);
                lines.push(line);
                proof {
                    assert(lines.deep_view() == flushed.push(before.push(byte))) by {
                        assert(lines.deep_view() =~~= flushed.push(before.push(byte)));
                    }
                    let tail = spec_buffered(Seq::empty(), rest.skip(1));
                    assert(flushed.push(before.push(byte)) + tail.0 == flushed + (seq![
                        before.push(byte),
                    ] + tail.0));
                    assert(self@ == Seq::<u8>::empty());
                }
            }
            index = index + 1;
        }
        proof {
            assert(str_chunk@.skip(index as int).len() == 0);
            assert(lines.deep_view() + Seq::<Seq<u8>>::empty() == lines.deep_view());
        }
        lines
    }

    /// Returns the amount of the bytes kept in the buffer.
    pub fn len(&self) -> (len: usize)
        ensures
            len == self@.len(),
    {
        self.m_buffer.len()
    }
}

/// Interface of the backend writers: the link of the logger to the real
/// storage or hardware, as a serial output, the video or a file.
pub trait LoggerWriter: Sized {
    /// Constructs an initialized `LoggerWriter`.
    fn new() -> Self;

    /// Writes the bytes of a string and returns whether the write
    /// succeeded.
    fn write_str(&mut self, s: &[u8]) -> bool;
}

/// Middleware between the logger and the backend `LoggerWriter`, which
/// manages the line-buffering when it is enabled.
pub struct LoggerInner<W: LoggerWriter> {
    m_buffer: Option<LoggerBuffer>,
    m_buffered: bool,
    m_writer: W,
}

impl<W: LoggerWriter> LoggerInner<W> {
    /// Whether the line-buffering is enabled.
    pub closed spec fn spec_is_buffered(&self) -> bool {
        self.m_buffered
    }

    /// The bytes which wait in the buffer, if there is a buffer.
    pub closed spec fn spec_pending(&self) -> Option<Seq<u8>> {
        match self.m_buffer {
            Some(buffer) => Some(buffer@),
            None => None,
        }
    }

    /// The invariant: there is a buffer while the buffering is enabled.
    pub open spec fn wf(&self) -> bool {
        self.spec_is_buffered() ==> self.spec_pending() is Some
    }

    /// Constructs a `LoggerInner`. The returned instance is not buffered.
    pub fn new() -> (inner: Self)
        ensures
            inner.wf(),
            !inner.spec_is_buffered(),
            inner.spec_pending() is None,
    {
        Self { m_buffer: None, m_buffered: false, m_writer: W::new() }
    }

    /// Enables the line-buffering, re-using the buffer which was kept or
    /// making a new one.
    pub fn enable_buffering(&mut self)
        ensures
            final(self).wf(),
            final(self).spec_is_buffered(),
            final(self).spec_pending() == match old(self).spec_pending() {
                Some(pending) => Some(pending),
                None => Some(Seq::<u8>::empty()),
            },
    {
        if self.m_buffer.is_none() {
            self.m_buffer = Some(LoggerBuffer::new());
        }
        self.m_buffered = true;
    }

    /// Disables the line-buffering and, if `keep_buffer` is false, drops
    /// the buffer.
    pub fn disable_buffering(&mut self, keep_buffer: bool)
        ensures
            final(self).wf(),
            !final(self).spec_is_buffered(),
            final(self).spec_pending() == if keep_buffer {
                old(self).spec_pending()
            } else {
                None
            },
    {
        self.m_buffered = false;
        if !keep_buffer {
            self.m_buffer = None;
        }
    }

    /// Stores the given string into the buffer and writes the lines which
    /// it completes to the writer. Fails when there is no buffer, and
    /// when the writer fails: the lines after the one which failed are
    /// not written.
    pub fn write_in_buffer(&mut self, s: &[u8]) -> (written: bool)
        ensures
            final(self).spec_is_buffered() == old(self).spec_is_buffered(),
            final(self).spec_pending() == match old(self).spec_pending() {
                Some(pending) => Some(spec_buffered(pending, s@).1),
                None => None,
            },
            old(self).spec_pending() is None ==> !written,
            old(self).spec_pending() is Some && spec_buffered(
                old(self).spec_pending()->0,
                s@,
            ).0.len() == 0 ==> written,
    {
        let lines = match &mut self.m_buffer {
            Some(buffer) => buffer.write_str_chunk(s),
            None => {
                return false;
            },
        };
        let mut index: usize = 0;
        while index < lines.len()
            invariant
                index <= lines.len(),
                self.m_buffered == old(self).m_buffered,
                old(self).spec_pending() is Some,
                lines.deep_view() == spec_buffered(old(self).spec_pending()->0, s@).0,
                self.spec_pending() == Some(spec_buffered(old(self).spec_pending()->0, s@).1),
            decreases lines.len() - index,
        {
            if !self.m_writer.write_str(lines[index].as_slice()) {
                return false;
            }
            index = index + 1;
        }
        true
    }

    /// Writes a string: through the buffer when the buffering is enabled,
    /// else straight to the writer. Returns whether the write succeeded.
    pub fn write_str(&mut self, s: &[u8]) -> (written: bool)
        requires
            old(self).wf(),
        ensures
            final(self).wf(),
            final(self).spec_is_buffered() == old(self).spec_is_buffered(),
            final(self).spec_pending() == if old(self).spec_is_buffered() {
                Some(spec_buffered(old(self).spec_pending()->0, s@).1)
            } else {
                old(self).spec_pending()
            },
    {
        if self.is_buffered() {
            self.write_in_buffer(s)
        } else {
            self.m_writer.write_str(s)
        }
    }

    /// Returns whether the `LoggerInner` uses buffering.
    pub fn is_buffered(&self) -> (buffered: bool)
        ensures
            buffered == self.spec_is_buffered(),
    {
        self.m_buffered
    }
}

/// What is written in two chunks is buffered as what is written in one:
/// the same lines are completed and the same bytes stay in the buffer.
pub proof fn lemma_buffered_in_two_chunks(buffered: Seq<u8>, first: Seq<u8>, second: Seq<u8>)
    ensures
        spec_buffered(buffered, first + second).0 == spec_buffered(buffered, first).0
            + spec_buffered(spec_buffered(buffered, first).1, second).0,
        spec_buffered(buffered, first + second).1 == spec_buffered(
            spec_buffered(buffered, first).1,
            second,
        ).1,
    decreases first.len(),
{
    if first.len() == 0 {
        assert(first + second == second);
        assert(Seq::<Seq<u8>>::empty() + spec_buffered(buffered, second).0 == spec_buffered(
            buffered,
            second,
        ).0);
    } else {
        assert((first + second).skip(1) == first.skip(1) + second);
        assert((first + second)[0] == first[0]);
        if first[0] == NEW_LINE {
            lemma_buffered_in_two_chunks(Seq::empty(), first.skip(1), second);
            let line = seq![buffered.push(first[0])];
            let rest = spec_buffered(Seq::empty(), first.skip(1));
            let tail = spec_buffered(rest.1, second);
            assert(line + (rest.0 + tail.0) == (line + rest.0) + tail.0);
        } else {
            lemma_buffered_in_two_chunks(buffered.push(first[0]), first.skip(1), second);
        }
    }
}

/// A chunk without a new-line completes no line and is appended to the
/// buffer.
pub proof fn lemma_buffered_without_new_line(buffered: Seq<u8>, chunk: Seq<u8>)
    requires
        forall|i: int| 0 <= i < chunk.len() ==> chunk[i] != NEW_LINE,
    ensures
        spec_buffered(buffered, chunk).0.len() == 0,
        spec_buffered(buffered, chunk).1 == buffered + chunk,
    decreases chunk.len(),
{
    if chunk.len() == 0 {
        assert(buffered + chunk == buffered);
    } else {
        assert forall|i: int| 0 <= i < chunk.skip(1).len() implies chunk.skip(1)[i]
            != NEW_LINE by {
            assert(chunk.skip(1)[i] == chunk[i + 1]);
        }
        lemma_buffered_without_new_line(buffered.push(chunk[0]), chunk.skip(1));
        assert(buffered.push(chunk[0]) + chunk.skip(1) == buffered + chunk);
    }
}

} // verus!
