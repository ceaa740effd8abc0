//! Messages on a byte pipe: cut into chunks to be written, and put together
//! again from what reads bring.
use vstd::prelude::*;
use vstd::slice::slice_subrange;
use crate::error::{chained, lemma_tells, tells, with_heading};
use crate::protocol::{opt_text, viewed, BUFFER_SIZE};

verus! {

// ---------------------------------------------------------------------------
// Reading
// ---------------------------------------------------------------------------

/// A message on its way in.
pub struct MessageReader {
    received: Vec<u8>,
}

impl View for MessageReader {
    type V = Seq<u8>;

    closed spec fn view(&self) -> Seq<u8> {
        self.received@
    }
}

/// The bytes that a read brought; nothing for one that failed.
pub open spec fn brought(buf: Seq<u8>, read: Option<u32>) -> Option<Seq<u8>> {
    match read {
        Some(n) => Some(buf.take(n as int)),
        None => None,
    }
}

/// The message after a read: it grows by the bytes that the read brought.
pub open spec fn grown(received: Seq<u8>, read: Option<Seq<u8>>) -> Seq<u8> {
    match read {
        Some(chunk) => received + chunk,
        None => received,
    }
}

/// Another read is due only after one that filled the whole buffer.
pub open spec fn more_due(read: Option<Seq<u8>>) -> bool {
    read matches Some(chunk) && chunk.len() >= BUFFER_SIZE
}

impl MessageReader {
    /// A message of which nothing has come in.
    pub fn new() -> (r: Self)
        ensures
            r@ == Seq::<u8>::empty(),
    {
        MessageReader { received: Vec::new() }
    }

    /// Takes in one read: `read` bytes at the front of `buf`, or `None` for a
    /// read that failed. Gives back whether to read on.
    pub fn accept(&mut self, buf: &[u8], read: Option<u32>) -> (more: bool)
        requires
            read matches Some(n) ==> n <= buf@.len(),
        ensures
            final(self)@ == grown(old(self)@, brought(buf@, read)),
            more == more_due(brought(buf@, read)),
    {
        match read {
            Some(n) => {
                if n == 0 {
                    assert(final(self)@ =~= self@ + buf@.take(0));
                    return false;
                }
                let chunk = slice_subrange(buf, 0, n as usize);
                let ghost before = self@;
                self.received.extend_from_slice(chunk);
                assert(self@ =~= before + buf@.take(n as int));
                n >= BUFFER_SIZE
            },
            None => false,
        }
    }

    /// The message, once no more reads are due.
    pub fn finish(self) -> (r: Vec<u8>)
        ensures
            r@ == self@,
    {
        self.received
    }
}

// ---------------------------------------------------------------------------
// Writing
// ---------------------------------------------------------------------------

/// A message on its way out.
pub struct MessageWriter<'a> {
    bytes: &'a [u8],
    written: usize,
}

/// A [`MessageWriter`]: the whole message, and how much of it is written.
pub struct WriterView {
    pub bytes: Seq<u8>,
    pub written: nat,
}

impl<'a> View for MessageWriter<'a> {
    type V = WriterView;

    closed spec fn view(&self) -> WriterView {
        WriterView { bytes: self.bytes@, written: self.written as nat }
    }
}

/// The chunk to write next, where some of the message is left: as much of it as
/// the buffer takes.
pub open spec fn chunk_at(bytes: Seq<u8>, written: int) -> Seq<u8> {
    if bytes.len() - written <= BUFFER_SIZE {
        bytes.subrange(written, bytes.len() as int)
    } else {
        bytes.subrange(written, written + BUFFER_SIZE)
    }
}

impl<'a> MessageWriter<'a> {
    /// A message of which nothing is written.
    pub fn new(bytes: &'a [u8]) -> (r: Self)
        ensures
            r@ == (WriterView { bytes: bytes@, written: 0 }),
    {
        MessageWriter { bytes, written: 0 }
    }

    /// The chunk to write next; `None` once the whole message is written.
    pub fn next_chunk(&self) -> (r: Option<&'a [u8]>)
        ensures
            r is Some <==> self@.written < self@.bytes.len(),
            r matches Some(chunk) ==> chunk@ == chunk_at(self@.bytes, self@.written as int),
    {
        let len: usize = self.bytes.len();
        if self.written >= len {
            return None;
        }
        let end: usize = if len - self.written <= BUFFER_SIZE as usize {
            len
        } else {
            self.written + BUFFER_SIZE as usize
        };
        Some(slice_subrange(self.bytes, self.written, end))
    }

    /// Takes note that `count` bytes more are written.
    pub fn wrote(&mut self, count: u32)
        requires
            old(self)@.written + count <= usize::MAX,
        ensures
            final(self)@ == (WriterView {
                bytes: old(self)@.bytes,
                written: old(self)@.written + count as nat,
            }),
    {
        self.written = self.written + count as usize;
    }
}

// ---------------------------------------------------------------------------
// Offering the pipe
// ---------------------------------------------------------------------------

/// The system's code for a client that came before the broker waited for it.
pub const ERROR_PIPE_CONNECTED: u32 = 535;

/// Why the broker could not offer the pipe. A `cause` is the text of the
/// failure underneath.
#[derive(Debug)]
pub enum PipeError {
    /// The system does not understand who may use the pipe.
    InvalidSecurity { cause: String },
    /// The pipe could not be created.
    CreateFailed { last_error: String },
    /// The broker could not wait for a client.
    ConnectFailed { cause: String },
}

/// A [`PipeError`], with texts as sequences of characters.
pub enum PipeErrorView {
    InvalidSecurity { cause: Seq<char> },
    CreateFailed { last_error: Seq<char> },
    ConnectFailed { cause: Seq<char> },
}

impl View for PipeError {
    type V = PipeErrorView;

    open spec fn view(&self) -> PipeErrorView {
        match *self {
            PipeError::InvalidSecurity { cause } => PipeErrorView::InvalidSecurity {
                cause: cause@,
            },
            PipeError::CreateFailed { last_error } => PipeErrorView::CreateFailed {
                last_error: last_error@,
            },
            PipeError::ConnectFailed { cause } => PipeErrorView::ConnectFailed { cause: cause@ },
        }
    }
}

/// What is said of an error.
pub open spec fn pipe_message(e: PipeErrorView) -> Seq<char> {
    match e {
        PipeErrorView::InvalidSecurity { cause } => "invalid pipe security descriptor: "@ + cause,
        PipeErrorView::CreateFailed { last_error } => "CreateNamedPipeW failed: "@ + last_error,
        PipeErrorView::ConnectFailed { cause } => "ConnectNamedPipe failed: "@ + cause,
    }
}

/// What was being done, where the error comes from another.
pub open spec fn pipe_doing(e: PipeErrorView) -> Option<Seq<char>> {
    match e {
        PipeErrorView::InvalidSecurity { .. } => Some("invalid pipe security descriptor"@),
        PipeErrorView::CreateFailed { .. } => None,
        PipeErrorView::ConnectFailed { .. } => Some("ConnectNamedPipe failed"@),
    }
}

/// The error that it comes from; itself, where there is none.
pub open spec fn pipe_root(e: PipeErrorView) -> Seq<char> {
    match e {
        PipeErrorView::InvalidSecurity { cause } => cause,
        PipeErrorView::CreateFailed { .. } => pipe_message(e),
        PipeErrorView::ConnectFailed { cause } => cause,
    }
}

impl PipeError {
    /// The message on one line.
    pub fn message(&self) -> (r: String)
        ensures
            r@ == pipe_message(self@),
    {
        match self {
            PipeError::InvalidSecurity { cause } => with_heading(
                "invalid pipe security descriptor: ",
                cause.as_str(),
            ),
            PipeError::CreateFailed { last_error } => with_heading(
                "CreateNamedPipeW failed: ",
                last_error.as_str(),
            ),
            PipeError::ConnectFailed { cause } => with_heading(
                "ConnectNamedPipe failed: ",
                cause.as_str(),
            ),
        }
    }

    /// What was being done, where the error comes from another.
    pub fn doing(&self) -> (r: Option<String>)
        ensures
            opt_text(r) == pipe_doing(self@),
    {
        match self {
            PipeError::InvalidSecurity { .. } => Some(
                "invalid pipe security descriptor".to_owned(),
            ),
            PipeError::CreateFailed { .. } => None,
            PipeError::ConnectFailed { .. } => Some("ConnectNamedPipe failed".to_owned()),
        }
    }

    /// The error that it comes from; itself, where there is none.
    pub fn root(&self) -> (r: String)
        ensures
            r@ == pipe_root(self@),
    {
        match self {
            PipeError::InvalidSecurity { cause } => cause.as_str().to_owned(),
            PipeError::CreateFailed { .. } => self.message(),
            PipeError::ConnectFailed { cause } => cause.as_str().to_owned(),
        }
    }
}

/// Goes on once the system was told who may use the pipe.
pub fn secured(attempt: Result<(), String>) -> (r: Result<(), PipeError>)
    ensures
        viewed(r) == (match viewed(attempt) {
            Ok(_) => Ok(()),
            Err(cause) => Err(PipeErrorView::InvalidSecurity { cause }),
        }),
{
    match attempt {
        Ok(_) => Ok(()),
        Err(cause) => Err(PipeError::InvalidSecurity { cause }),
    }
}

/// Goes on once the system gave a handle of the pipe, which is valid or not.
pub fn created(valid: bool, last_error: &str) -> (r: Result<(), PipeError>)
    ensures
        viewed(r) == (if valid {
            Ok(())
        } else {
            Err(PipeErrorView::CreateFailed { last_error: last_error@ })
        }),
{
    if valid {
        Ok(())
    } else {
        Err(PipeError::CreateFailed { last_error: last_error.to_owned() })
    }
}

/// Whether a client is there after waiting for one: it is if the wait succeeded
/// or failed because the client was there already, which the system's last
/// error code tells.
pub open spec fn connection(
    wait: Result<(), Seq<char>>,
    last_error: u32,
) -> Result<(), PipeErrorView> {
    match wait {
        Err(cause) if last_error != ERROR_PIPE_CONNECTED => Err(
            PipeErrorView::ConnectFailed { cause },
        ),
        _ => Ok(()),
    }
}

/// Tells whether a client is there after waiting for one.
pub fn connected(wait: Result<(), String>, last_error: u32) -> (r: Result<(), PipeError>)
    ensures
        viewed(r) == connection(viewed(wait), last_error),
{
    match wait {
        Ok(_) => Ok(()),
        Err(cause) => if last_error != ERROR_PIPE_CONNECTED {
            Err(PipeError::ConnectFailed { cause })
        } else {
            Ok(())
        },
    }
}

// ---------------------------------------------------------------------------
// Laws
// ---------------------------------------------------------------------------

/// The message of an error is that of what was being done and of the error that
/// it comes from.
pub proof fn law_pipe_message_is_chained(e: PipeErrorView)
    ensures
        pipe_message(e) == chained(pipe_doing(e), pipe_root(e)),
{
    reveal_strlit(": ");
    reveal_strlit("invalid pipe security descriptor");
    reveal_strlit("invalid pipe security descriptor: ");
    reveal_strlit("ConnectNamedPipe failed");
    reveal_strlit("ConnectNamedPipe failed: ");
    assert(pipe_message(e) =~= chained(pipe_doing(e), pipe_root(e)));
}

/// What a reader has received after a sequence of reads, none behind the one
/// after which no more is due; and whether it still waits for one.
pub open spec fn collected(received: Seq<u8>, reads: Seq<Option<Seq<u8>>>) -> (Seq<u8>, bool)
    decreases reads.len(),
{
    if reads.len() == 0 {
        (received, true)
    } else {
        let now = grown(received, reads[0]);
        if more_due(reads[0]) {
            collected(now, reads.drop_first())
        } else {
            (now, false)
        }
    }
}

/// Chunks, one behind the other.
pub open spec fn concatenated(chunks: Seq<Seq<u8>>) -> Seq<u8>
    decreases chunks.len(),
{
    if chunks.len() == 0 {
        Seq::empty()
    } else {
        chunks[0] + concatenated(chunks.drop_first())
    }
}

/// Reads that all succeed, one for each chunk.
pub open spec fn arriving(chunks: Seq<Seq<u8>>) -> Seq<Option<Seq<u8>>> {
    Seq::new(chunks.len(), |i: int| Some(chunks[i]))
}

/// The chunks that are written of a message from a position on, where each is
/// written whole.
pub open spec fn chunks_from(bytes: Seq<u8>, written: int) -> Seq<Seq<u8>>
    decreases bytes.len() - written,
{
    if written >= bytes.len() {
        Seq::empty()
    } else {
        seq![chunk_at(bytes, written)] + chunks_from(
            bytes,
            if bytes.len() - written <= BUFFER_SIZE {
                bytes.len() as int
            } else {
                written + BUFFER_SIZE
            },
        )
    }
}

/// The chunks of a message, from any position on, are what is left of it; none
/// is empty or larger than the buffer, and all but the last fill the buffer.
pub proof fn law_chunks_are_the_message(bytes: Seq<u8>, written: int)
    requires
        0 <= written <= bytes.len(),
    ensures
        concatenated(chunks_from(bytes, written)) == bytes.skip(written),
        ({
            let chunks = chunks_from(bytes, written);
            forall|i: int|
                0 <= i < chunks.len() ==> {
                    &&& 1 <= (#[trigger] chunks[i]).len() <= BUFFER_SIZE
                    &&& i < chunks.len() - 1 ==> chunks[i].len() == BUFFER_SIZE
                }
        }),
    decreases bytes.len() - written,
{
    let chunks = chunks_from(bytes, written);
    if written < bytes.len() {
        let next = if bytes.len() - written <= BUFFER_SIZE {
            bytes.len() as int
        } else {
            written + BUFFER_SIZE
        };
        law_chunks_are_the_message(bytes, next);
        let rest = chunks_from(bytes, next);
        assert(chunks.drop_first() =~= rest);
        assert(chunks[0] == chunk_at(bytes, written));
        assert(concatenated(chunks) =~= bytes.skip(written));
        assert forall|i: int| 0 <= i < chunks.len() implies {
            &&& 1 <= (#[trigger] chunks[i]).len() <= BUFFER_SIZE
            &&& i < chunks.len() - 1 ==> chunks[i].len() == BUFFER_SIZE
        } by {
            if i > 0 {
                assert(chunks[i] == rest[i - 1]);
            }
        }
    } else {
        assert(concatenated(chunks) =~= bytes.skip(written));
    }
}

/// What a system that takes `counts[k]` bytes of the `k`-th chunk receives of a
/// message from a position on.
pub open spec fn taken(bytes: Seq<u8>, written: int, counts: Seq<int>) -> Seq<u8>
    decreases counts.len(),
{
    if counts.len() == 0 || written >= bytes.len() {
        Seq::empty()
    } else {
        chunk_at(bytes, written).take(counts[0]) + taken(
            bytes,
            written + counts[0],
            counts.drop_first(),
        )
    }
}

/// Each count is no more than the chunk that it is taken of.
pub open spec fn plausible(bytes: Seq<u8>, written: int, counts: Seq<int>) -> bool
    decreases counts.len(),
{
    counts.len() == 0 || written >= bytes.len() || (0 <= counts[0] <= chunk_at(
        bytes,
        written,
    ).len() && plausible(bytes, written + counts[0], counts.drop_first()))
}

/// How many bytes are taken in all.
pub open spec fn total(counts: Seq<int>) -> int
    decreases counts.len(),
{
    if counts.len() == 0 {
        0
    } else {
        counts[0] + total(counts.drop_first())
    }
}

/// However few bytes of each chunk the system takes, what it received so far is
/// the message from the position on, without a gap and without a repetition;
/// and once the counts reach the end of the message, it is all that was left of
/// it.
pub proof fn law_partial_writes_lose_nothing(bytes: Seq<u8>, written: int, counts: Seq<int>)
    requires
        0 <= written <= bytes.len(),
        plausible(bytes, written, counts),
    ensures
        taken(bytes, written, counts).is_prefix_of(bytes.skip(written)),
        written + total(counts) >= bytes.len() ==> taken(bytes, written, counts) == bytes.skip(
            written,
        ),
    decreases counts.len(),
{
    let left = bytes.skip(written);
    let got = taken(bytes, written, counts);
    if counts.len() == 0 || written >= bytes.len() {
        assert(got =~= left.subrange(0, 0));
    } else {
        let n = counts[0];
        law_partial_writes_lose_nothing(bytes, written + n, counts.drop_first());
        let rest = taken(bytes, written + n, counts.drop_first());
        let after = bytes.skip(written + n);
        assert(rest =~= after.subrange(0, rest.len() as int));
        assert(got.len() == n + rest.len());
        assert forall|i: int| 0 <= i < got.len() implies got[i] == left[i] by {
            if i >= n {
                assert(got[i] == rest[i - n]);
                assert(rest[i - n] == after.subrange(0, rest.len() as int)[i - n]);
                assert(after[i - n] == bytes[written + i]);
            } else {
                assert(got[i] == chunk_at(bytes, written)[i]);
            }
        }
        assert(got =~= left.subrange(0, got.len() as int));
        if written + total(counts) >= bytes.len() {
            assert(rest == after);
            assert(got =~= left);
        }
    }
}

/// Counts of at least one byte are no fewer bytes than counts.
proof fn lemma_total_of_progress(counts: Seq<int>)
    requires
        forall|i: int| 0 <= i < counts.len() ==> counts[i] >= 1,
    ensures
        total(counts) >= counts.len(),
    decreases counts.len(),
{
    if counts.len() > 0 {
        lemma_total_of_progress(counts.drop_first());
    }
}

/// A system that takes at least one byte of each chunk has the whole message
/// after as many chunks as there are bytes, at the latest.
pub proof fn law_steady_writes_come_to_the_end(bytes: Seq<u8>, written: int, counts: Seq<int>)
    requires
        0 <= written <= bytes.len(),
        plausible(bytes, written, counts),
        forall|i: int| 0 <= i < counts.len() ==> counts[i] >= 1,
        counts.len() >= bytes.len() - written,
    ensures
        taken(bytes, written, counts) == bytes.skip(written),
{
    lemma_total_of_progress(counts);
    law_partial_writes_lose_nothing(bytes, written, counts);
}

/// Reads that fill the buffer, up to one that does not, give the message that
/// they make up; reads behind that one are not made.
pub proof fn law_reader_collects(
    received: Seq<u8>,
    full: Seq<Seq<u8>>,
    last: Option<Seq<u8>>,
    behind: Seq<Option<Seq<u8>>>,
)
    requires
        forall|i: int| 0 <= i < full.len() ==> (#[trigger] full[i]).len() >= BUFFER_SIZE,
        !more_due(last),
    ensures
        collected(received, arriving(full).push(last) + behind) == (
            grown(received + concatenated(full), last),
            false,
        ),
    decreases full.len(),
{
    let reads = arriving(full).push(last) + behind;
    if full.len() == 0 {
        assert(reads[0] == last);
        assert(received + concatenated(full) =~= received);
    } else {
        assert(reads[0] == Some(full[0]));
        let rest = full.drop_first();
        assert forall|i: int| 0 <= i < rest.len() implies (#[trigger] rest[i]).len()
            >= BUFFER_SIZE by {
            assert(rest[i] == full[i + 1]);
        }
        law_reader_collects(received + full[0], rest, last, behind);
        assert(reads.drop_first() =~= arriving(rest).push(last) + behind);
        assert(received + full[0] + concatenated(rest) =~= received + concatenated(full));
    }
}

/// The chunks of a message followed by a chunk are those of both.
proof fn lemma_concatenated_push(chunks: Seq<Seq<u8>>, last: Seq<u8>)
    ensures
        concatenated(chunks.push(last)) == concatenated(chunks) + last,
    decreases chunks.len(),
{
    if chunks.len() == 0 {
        assert(chunks.push(last).drop_first() =~= chunks);
        assert(concatenated(chunks.push(last)) =~= concatenated(chunks) + last);
    } else {
        lemma_concatenated_push(chunks.drop_first(), last);
        assert(chunks.push(last).drop_first() =~= chunks.drop_first().push(last));
        assert(concatenated(chunks.push(last)) =~= concatenated(chunks) + last);
    }
}

/// A reader whom each chunk of a message reaches in one read, and then the end
/// of it (an empty read, or a failed one), receives the message that was
/// written.
pub proof fn law_read_gives_back_what_was_written(bytes: Seq<u8>, end: Option<Seq<u8>>)
    requires
        end matches Some(chunk) ==> chunk.len() == 0,
    ensures
        collected(Seq::empty(), arriving(chunks_from(bytes, 0)).push(end)) == (bytes, false),
{
    let chunks = chunks_from(bytes, 0);
    law_chunks_are_the_message(bytes, 0);
    assert(bytes.skip(0) =~= bytes);
    let none = Seq::<Option<Seq<u8>>>::empty();
    if chunks.len() == 0 || chunks.last().len() == BUFFER_SIZE {
        law_reader_collects(Seq::empty(), chunks, end, none);
        assert(arriving(chunks).push(end) + none =~= arriving(chunks).push(end));
        assert(grown(Seq::<u8>::empty() + concatenated(chunks), end) =~= bytes);
    } else {
        let full = chunks.drop_last();
        let last = chunks.last();
        assert(chunks =~= full.push(last));
        lemma_concatenated_push(full, last);
        law_reader_collects(Seq::empty(), full, Some(last), none.push(end));
        assert(arriving(full).push(Some(last)) + none.push(end) =~= arriving(chunks).push(end));
        assert(grown(Seq::<u8>::empty() + concatenated(full), Some(last)) =~= bytes);
    }
}

/// A message whose size is no multiple of the buffer's shows its own end: its
/// last chunk is short, and the reader waits for nothing behind it.
pub proof fn law_uneven_message_shows_its_end(bytes: Seq<u8>)
    requires
        bytes.len() % (BUFFER_SIZE as nat) != 0,
    ensures
        collected(Seq::empty(), arriving(chunks_from(bytes, 0))) == (bytes, false),
{
    let chunks = chunks_from(bytes, 0);
    law_chunks_are_the_message(bytes, 0);
    assert(bytes.skip(0) =~= bytes);
    lemma_last_chunk_is_short(bytes, 0);
    let none = Seq::<Option<Seq<u8>>>::empty();
    let full = chunks.drop_last();
    let last = chunks.last();
    assert(chunks =~= full.push(last));
    lemma_concatenated_push(full, last);
    law_reader_collects(Seq::empty(), full, Some(last), none);
    assert(arriving(full).push(Some(last)) + none =~= arriving(chunks));
    assert(grown(Seq::<u8>::empty() + concatenated(full), Some(last)) =~= bytes);
}

/// The last chunk of what is left of a message is short, where that is no
/// multiple of the buffer's size.
proof fn lemma_last_chunk_is_short(bytes: Seq<u8>, written: int)
    requires
        0 <= written <= bytes.len(),
        (bytes.len() - written) % (BUFFER_SIZE as int) != 0,
    ensures
        chunks_from(bytes, written).len() > 0,
        chunks_from(bytes, written).last().len() < BUFFER_SIZE,
    decreases bytes.len() - written,
{
    let chunks = chunks_from(bytes, written);
    if bytes.len() - written <= BUFFER_SIZE {
        assert(chunks_from(bytes, bytes.len() as int) =~= Seq::empty());
        assert(chunks =~= seq![chunk_at(bytes, written)]);
    } else {
        let next = written + BUFFER_SIZE;
        assert((bytes.len() - next) % (BUFFER_SIZE as int) == (bytes.len() - written) % (
        BUFFER_SIZE as int));
        lemma_last_chunk_is_short(bytes, next);
        assert(chunks.last() == chunks_from(bytes, next).last());
    }
}

/// A new reader has received nothing; one that is done gives back what it
/// received.
pub proof fn law_reader_starts_and_finishes(
    fresh: MessageReader,
    reader: MessageReader,
    bytes: Vec<u8>,
)
    requires
        call_ensures(MessageReader::new, (), fresh),
        call_ensures(MessageReader::finish, (reader,), bytes),
    ensures
        fresh@.len() == 0,
        bytes@ == reader@,
{
}

/// A read adds its bytes behind those received before, and nothing else; another
/// read is due exactly if it brought 65536 bytes or more. A failed read adds
/// nothing, and none is due behind it.
pub proof fn law_accept(reader: &mut MessageReader, buf: &[u8], read: Option<u32>, more: bool)
    requires
        call_ensures(MessageReader::accept, (reader, buf, read), more),
        read matches Some(n) ==> n <= buf@.len(),
    ensures
        read matches Some(n) ==> {
            &&& final(reader)@.len() == old(reader)@.len() + n
            &&& final(reader)@.take(old(reader)@.len() as int) == old(reader)@
            &&& final(reader)@.skip(old(reader)@.len() as int) == buf@.take(n as int)
            &&& more <==> n >= 65536
        },
        read is None ==> final(reader)@ == old(reader)@ && !more,
{
    if let Some(n) = read {
        let before = old(reader)@;
        let after = final(reader)@;
        assert(after == before + buf@.take(n as int));
        assert(after.take(before.len() as int) =~= before);
        assert(after.skip(before.len() as int) =~= buf@.take(n as int));
    }
}

/// A writer has a chunk exactly while something of its message is left: the next
/// bytes of it, and 65536 of them unless fewer are left.
pub proof fn law_next_chunk(writer: &MessageWriter, r: Option<&[u8]>, i: int)
    requires
        call_ensures(MessageWriter::next_chunk, (writer,), r),
    ensures
        r is None <==> writer@.written >= writer@.bytes.len(),
        r matches Some(chunk) ==> {
            let left = writer@.bytes.len() - writer@.written;
            &&& left <= 65536 ==> chunk@.len() == left
            &&& left > 65536 ==> chunk@.len() == 65536
            &&& 0 <= i < chunk@.len() ==> chunk@[i] == writer@.bytes[writer@.written + i]
        },
{
}

/// A new writer has written nothing of its message.
pub proof fn law_writer_starts(bytes: &[u8], r: MessageWriter)
    requires
        call_ensures(MessageWriter::new, (bytes,), r),
    ensures
        r@.bytes == bytes@,
        r@.written == 0,
{
}

/// What is written moves a writer on by as much, and its message stays.
pub proof fn law_wrote(writer: &mut MessageWriter, count: u32, r: ())
    requires
        call_ensures(MessageWriter::wrote, (writer, count), r),
        old(writer)@.written + count <= usize::MAX,
    ensures
        final(writer)@.bytes == old(writer)@.bytes,
        final(writer)@.written == old(writer)@.written + count,
{
}

/// What is said of each error of the pipe.
pub proof fn law_pipe_messages(e: &PipeError, r: String, doing: Option<String>, root: String)
    requires
        call_ensures(PipeError::message, (e,), r),
        call_ensures(PipeError::doing, (e,), doing),
        call_ensures(PipeError::root, (e,), root),
    ensures
        *e matches PipeError::InvalidSecurity { cause } ==> tells(
            r@,
            "invalid pipe security descriptor: "@,
            cause@,
        ),
        *e matches PipeError::CreateFailed { last_error } ==> tells(
            r@,
            "CreateNamedPipeW failed: "@,
            last_error@,
        ),
        *e matches PipeError::ConnectFailed { cause } ==> tells(
            r@,
            "ConnectNamedPipe failed: "@,
            cause@,
        ),
        doing matches Some(doing) ==> r@ == doing@ + ": "@ + root@,
        doing is None ==> r@ == root@,
        doing is None <==> *e is CreateFailed,
        *e matches PipeError::InvalidSecurity { cause } ==> root@ == cause@,
        *e matches PipeError::ConnectFailed { cause } ==> root@ == cause@,
{
    law_pipe_message_is_chained(e@);
    match *e {
        PipeError::InvalidSecurity { cause } => lemma_tells(
            "invalid pipe security descriptor: "@,
            cause@,
        ),
        PipeError::CreateFailed { last_error } => lemma_tells(
            "CreateNamedPipeW failed: "@,
            last_error@,
        ),
        PipeError::ConnectFailed { cause } => lemma_tells("ConnectNamedPipe failed: "@, cause@),
    }
}

/// Offering the pipe fails exactly where the system does, with what it says; but
/// a client that came before the wait, which is the system's error 535, is no
/// failure.
pub proof fn law_offering_the_pipe(
    attempt: Result<(), String>,
    valid: bool,
    last_error: &str,
    code: u32,
    secure: Result<(), PipeError>,
    made: Result<(), PipeError>,
    there: Result<(), PipeError>,
)
    requires
        call_ensures(secured, (attempt,), secure),
        call_ensures(created, (valid, last_error), made),
        call_ensures(connected, (attempt, code), there),
    ensures
        secure is Ok <==> attempt is Ok,
        attempt matches Err(cause) ==> secure matches Err(
            PipeError::InvalidSecurity { cause: told },
        ) && told@ == cause@,
        made is Ok <==> valid,
        !valid ==> (made matches Err(PipeError::CreateFailed { last_error: told }) && told@
            == last_error@),
        there is Ok <==> attempt is Ok || code == 535,
        there is Err ==> (there matches Err(PipeError::ConnectFailed { cause: told }) && told@
            == attempt->Err_0@),
{
}

} // verus!
