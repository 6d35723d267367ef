//! Reading several input sources as one stream: which source a read goes
//! to, and what each outcome of that read means for the stream.
//!
//! The reader here holds no handles. It says which source to read from, is
//! told how that read ended, and answers what the read on the whole stream
//! returns.

use crate::input::InputSource;
use vstd::prelude::*;

verus! {

/// What the error handler decides about a source that failed to read.
#[derive(Debug, Clone, Copy, PartialEq, Eq, Structural)]
pub enum ErrorVerdict {
    /// Treat the source as exhausted and go on with the next one.
    Continue,
    /// Hand the error to the caller and stay at the failing source.
    Abort,
}

/// What a read on the whole stream does first.
#[derive(Debug, Clone, Copy, PartialEq, Eq, Structural)]
pub enum ReadAction {
    /// Return zero bytes without reading from any source.
    ReturnZero,
    /// Read from the source at this index.
    ReadFrom(usize),
}

/// How the read from one source ended.
#[derive(Debug, Clone, Copy, PartialEq, Eq, Structural)]
pub enum ReadOutcome {
    /// The source gave this many bytes; zero means that it is exhausted.
    Read(usize),
    /// The source failed, and the error handler gave this verdict.
    Failed(ErrorVerdict),
}

/// What the read on the whole stream returns.
#[derive(Debug, Clone, Copy, PartialEq, Eq, Structural)]
pub enum ReadReply {
    /// Success with this many bytes.
    Bytes(usize),
    /// The error of the source, unchanged.
    Propagate,
}

/// The state of a chained reader: its sources in order, and the index of
/// the one that the next read goes to.
pub struct ChainView {
    pub sources: Seq<InputSource>,
    pub cursor: nat,
}

impl ChainView {
    /// Whether this is the state of a reader in memory: the number of its
    /// sources is one that a machine can count.
    pub open spec fn fits(self) -> bool {
        self.sources.len() <= usize::MAX
    }

    /// Whether the cursor is past the last source.
    pub open spec fn finished(self) -> bool {
        self.cursor >= self.sources.len()
    }

    /// The same reader with the cursor at the next source.
    pub open spec fn advanced(self) -> ChainView {
        ChainView { cursor: self.cursor + 1, ..self }
    }

    /// What a read does first, and the state after that. Past the last
    /// source it returns zero bytes. At an empty source it returns zero
    /// bytes too and moves on, since such a source is exhausted from the
    /// start. At any other source it reads from that source.
    pub open spec fn begin(self) -> (ChainView, ReadAction) {
        if self.finished() {
            (self, ReadAction::ReturnZero)
        } else if self.sources[self.cursor as int] == InputSource::Empty {
            (self.advanced(), ReadAction::ReturnZero)
        } else {
            (self, ReadAction::ReadFrom(self.cursor as usize))
        }
    }

    /// What the read on the stream returns once the read from the current
    /// source has ended with `outcome`, and the state after that. An
    /// exhausted source, and a failed one that the handler lets pass, move
    /// the cursor on and give zero bytes for this read. Bytes are handed on
    /// as they are. A failure that the handler aborts on is handed on, and
    /// the cursor stays. Past the last source every outcome gives zero
    /// bytes.
    pub open spec fn finish(self, outcome: ReadOutcome) -> (ChainView, ReadReply) {
        if self.finished() {
            (self, ReadReply::Bytes(0))
        } else {
            match outcome {
                ReadOutcome::Read(n) => if n == 0 {
                    (self.advanced(), ReadReply::Bytes(0))
                } else {
                    (self, ReadReply::Bytes(n))
                },
                ReadOutcome::Failed(ErrorVerdict::Continue) => (
                    self.advanced(),
                    ReadReply::Bytes(0),
                ),
                ReadOutcome::Failed(ErrorVerdict::Abort) => (self, ReadReply::Propagate),
            }
        }
    }
}

impl ChainView {
    /// One whole read on the stream, where the read from the source, if
    /// there is one, ends with `outcome`: the state after it and what it
    /// returns.
    pub open spec fn read(self, outcome: ReadOutcome) -> (ChainView, ReadReply) {
        match self.begin().1 {
            ReadAction::ReturnZero => (self.begin().0, ReadReply::Bytes(0)),
            ReadAction::ReadFrom(_) => self.begin().0.finish(outcome),
        }
    }

    /// The state after the first `k` of a series of reads, of which read
    /// `j` ends with `outcomes[j]`.
    pub open spec fn after_reads(self, outcomes: Seq<ReadOutcome>, k: nat) -> ChainView
        decreases k,
    {
        if k == 0 {
            self
        } else {
            self.after_reads(outcomes, (k - 1) as nat).read(outcomes[k - 1]).0
        }
    }
}

/// The cursor never moves back: a step leaves the sources as they are and
/// the cursor where it is or one further.
pub proof fn cursor_never_moves_back(reader: ChainView, outcome: ReadOutcome)
    ensures
        reader.begin().0.sources == reader.sources,
        reader.cursor <= reader.begin().0.cursor <= reader.cursor + 1,
        reader.finish(outcome).0.sources == reader.sources,
        reader.cursor <= reader.finish(outcome).0.cursor <= reader.cursor + 1,
{
}

/// Once the cursor is past the last source, the reader stays as it is and
/// every read reports the end of the data, whatever it is told.
pub proof fn finished_reader_reports_end(reader: ChainView, outcome: ReadOutcome)
    requires
        reader.finished(),
    ensures
        reader.begin() == (reader, ReadAction::ReturnZero),
        reader.finish(outcome) == (reader, ReadReply::Bytes(0)),
{
}

/// A read goes to the source at the cursor and to no other, and never to an
/// empty source.
pub proof fn reads_only_the_current_source(reader: ChainView, index: usize)
    requires
        reader.fits(),
        reader.begin().1 == ReadAction::ReadFrom(index),
    ensures
        index == reader.cursor,
        index < reader.sources.len(),
        reader.sources[index as int] != InputSource::Empty,
        reader.begin().0 == reader,
{
}

/// Where the handler aborts on a failure, the read on the stream hands the
/// error on and the cursor stays at the failing source: the next read goes
/// to that source again, and to none after it.
pub proof fn abort_stays_at_failing_source(reader: ChainView)
    requires
        !reader.finished(),
    ensures
        reader.finish(ReadOutcome::Failed(ErrorVerdict::Abort)) == (reader, ReadReply::Propagate),
        reader.finish(ReadOutcome::Failed(ErrorVerdict::Abort)).0.begin() == reader.begin(),
{
}

/// Where the handler lets a failure pass, the source counts as exhausted:
/// the read gives zero bytes, as it does at the end of a source, and the
/// next read goes on behind the failing source.
pub proof fn continue_skips_failing_source(reader: ChainView)
    requires
        !reader.finished(),
    ensures
        reader.finish(ReadOutcome::Failed(ErrorVerdict::Continue)) == (
            reader.advanced(),
            ReadReply::Bytes(0),
        ),
        reader.finish(ReadOutcome::Failed(ErrorVerdict::Continue)) == reader.finish(
            ReadOutcome::Read(0),
        ),
{
}

/// Bytes that a source gives are handed on as they are, and the reader
/// stays at that source.
pub proof fn data_is_handed_on(reader: ChainView, n: usize)
    requires
        !reader.finished(),
        n > 0,
    ensures
        reader.finish(ReadOutcome::Read(n)) == (reader, ReadReply::Bytes(n)),
{
}

/// Zero bytes before the end of the stream mean that the reader has moved
/// on to the next source: a caller that reads until the reader is finished
/// gets past every source that ends.
pub proof fn zero_bytes_move_on(reader: ChainView, outcome: ReadOutcome)
    requires
        !reader.finished(),
    ensures
        reader.begin().1 == ReadAction::ReturnZero ==> reader.begin().0 == reader.advanced(),
        reader.finish(outcome).1 == ReadReply::Bytes(0) ==> reader.finish(outcome).0
            == reader.advanced(),
{
}

/// Over any series of reads the sources stay as they are and the cursor
/// never moves back.
pub proof fn cursor_is_monotonic(reader: ChainView, outcomes: Seq<ReadOutcome>, a: nat, b: nat)
    requires
        a <= b,
    ensures
        reader.after_reads(outcomes, b).sources == reader.sources,
        reader.after_reads(outcomes, a).cursor <= reader.after_reads(outcomes, b).cursor,
    decreases b,
{
    if b > 0 {
        cursor_is_monotonic(reader, outcomes, if a < b {
            a
        } else {
            (b - 1) as nat
        }, (b - 1) as nat);
    }
}

/// Once a series of reads has taken the cursor past the last source, every
/// later read of the series returns zero bytes and leaves the reader as it
/// is.
pub proof fn end_of_data_is_final(
    reader: ChainView,
    outcomes: Seq<ReadOutcome>,
    a: nat,
    b: nat,
    next: ReadOutcome,
)
    requires
        a <= b,
        reader.after_reads(outcomes, a).finished(),
    ensures
        reader.after_reads(outcomes, b) == reader.after_reads(outcomes, a),
        reader.after_reads(outcomes, b).read(next).1 == ReadReply::Bytes(0),
    decreases b,
{
    if a < b {
        end_of_data_is_final(reader, outcomes, a, (b - 1) as nat, next);
    }
}

/// Whether the outcome ends the source: it is exhausted, or it failed and
/// the handler lets that pass.
pub open spec fn ends_source(outcome: ReadOutcome) -> bool {
    outcome == ReadOutcome::Read(0) || outcome == ReadOutcome::Failed(ErrorVerdict::Continue)
}

/// A source that ends costs one read and no more: where each of `k` reads
/// meets the end of its source, the cursor is `k` sources further, or past
/// the last source where there are fewer than that left.
pub proof fn ended_sources_cost_one_read_each(
    reader: ChainView,
    outcomes: Seq<ReadOutcome>,
    k: nat,
)
    requires
        reader.fits(),
        !reader.finished(),
        forall|j: int| 0 <= j < k ==> ends_source(#[trigger] outcomes[j]),
    ensures
        reader.after_reads(outcomes, k).cursor == if reader.cursor + k <= reader.sources.len() {
            reader.cursor + k
        } else {
            reader.sources.len()
        },
    decreases k,
{
    if k > 0 {
        ended_sources_cost_one_read_each(reader, outcomes, (k - 1) as nat);
        cursor_is_monotonic(reader, outcomes, 0, (k - 1) as nat);
        assert(ends_source(outcomes[k - 1]));
    }
}

/// A source on whose failure the handler aborts is never passed: as long as
/// every read from the source at `index` fails and is aborted on, no series
/// of reads takes the cursor beyond it, so nothing is read from any source
/// behind it.
pub proof fn aborting_source_is_never_passed(
    reader: ChainView,
    outcomes: Seq<ReadOutcome>,
    index: nat,
    k: nat,
)
    requires
        reader.cursor <= index < reader.sources.len(),
        reader.sources[index as int] != InputSource::Empty,
        forall|j: nat|
            j < k && (#[trigger] reader.after_reads(outcomes, j)).cursor == index
                ==> outcomes[j as int] == ReadOutcome::Failed(ErrorVerdict::Abort),
    ensures
        reader.after_reads(outcomes, k).cursor <= index,
        reader.after_reads(outcomes, k).sources == reader.sources,
    decreases k,
{
    if k > 0 {
        aborting_source_is_never_passed(reader, outcomes, index, (k - 1) as nat);
    }
}

/// An ordered collection of input sources read as one stream.
#[derive(Debug)]
pub struct ChainedReader {
    sources: Vec<InputSource>,
    cursor: usize,
}

impl View for ChainedReader {
    type V = ChainView;

    closed spec fn view(&self) -> ChainView {
        ChainView { sources: self.sources@, cursor: self.cursor as nat }
    }
}

impl ChainedReader {
    /// A reader over the given sources, in their order, at the first one.
    pub fn concat(sources: Vec<InputSource>) -> (reader: ChainedReader)
        ensures
            reader@ == (ChainView { sources: sources@, cursor: 0 }),
    {
        ChainedReader { sources, cursor: 0 }
    }

    /// The state of a reader in memory fits a machine.
    pub proof fn view_fits(&self)
        ensures
            self@.fits(),
    {
        assert(self.sources.len() == self.sources@.len());
    }

    /// The index of the source that the next read goes to; the number of
    /// sources or more once all are exhausted.
    pub fn cursor(&self) -> (index: usize)
        ensures
            index == self@.cursor,
    {
        self.cursor
    }

    /// The number of sources.
    pub fn len(&self) -> (count: usize)
        ensures
            count == self@.sources.len(),
    {
        self.sources.len()
    }

    /// Whether every source is exhausted, so that each further read reports
    /// the end of the data.
    pub fn is_finished(&self) -> (done: bool)
        ensures
            done == self@.finished(),
    {
        self.cursor >= self.sources.len()
    }

    /// Starts a read on the stream: says whether to return zero bytes at
    /// once or which source to read from.
    pub fn begin_read(&mut self) -> (action: ReadAction)
        ensures
            (final(self)@, action) == old(self)@.begin(),
    {
        if self.cursor >= self.sources.len() {
            ReadAction::ReturnZero
        } else {
            match self.sources[self.cursor] {
                InputSource::Empty => {
                    self.cursor = self.cursor + 1;
                    ReadAction::ReturnZero
                },
                _ => ReadAction::ReadFrom(self.cursor),
            }
        }
    }

    /// Ends a read on the stream: takes the outcome of the read from the
    /// current source and says what the read on the stream returns.
    pub fn finish_read(&mut self, outcome: ReadOutcome) -> (reply: ReadReply)
        ensures
            (final(self)@, reply) == old(self)@.finish(outcome),
    {
        if self.cursor >= self.sources.len() {
            ReadReply::Bytes(0)
        } else {
            match outcome {
                ReadOutcome::Read(n) => {
                    if n == 0 {
                        self.cursor = self.cursor + 1;
                    }
                    ReadReply::Bytes(n)
                },
                ReadOutcome::Failed(ErrorVerdict::Continue) => {
                    self.cursor = self.cursor + 1;
                    ReadReply::Bytes(0)
                },
                ReadOutcome::Failed(ErrorVerdict::Abort) => ReadReply::Propagate,
            }
        }
    }
}

} // verus!
