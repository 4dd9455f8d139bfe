//! The reader activity: polls the device and keeps the last-value store up to
//! date.
//!
//! The driver owns the port handle and a read buffer. It asks the [`Reader`]
//! what to do, does it, and reports what came of it.

use crate::store::SharedData;
use vstd::prelude::*;
use vstd::slice::{slice_subrange, slice_to_vec};

verus! {

/// The error type of `std::io`. Nothing is known of a value of it but what
/// [`is_timeout`] reports.
#[verifier::external_type_specification]
#[verifier::external_body]
pub struct ExIoError(std::io::Error);

/// Calls `std::io::Error::kind` and reports whether the kind is
/// `ErrorKind::TimedOut`. Nothing is claimed of the answer.
#[verifier::external_body]
fn is_timeout(error: &std::io::Error) -> (timed_out: bool) {
    matches!(error.kind(), std::io::ErrorKind::TimedOut)
}

/// How one attempt to fill the read buffer ended.
#[derive(Clone, Copy, Debug, PartialEq, Eq, Structural)]
pub enum ReadOutcome {
    /// The read succeeded and put this many bytes at the start of the buffer.
    /// Zero is a success like any other.
    Data(usize),
    /// Nothing arrived within the read timeout. This is the normal idle case
    /// and no error.
    TimedOut,
    /// The read failed in some other way.
    Failed,
}

/// What the driver of a reader has to do next.
#[derive(Clone, Copy, Debug, PartialEq, Eq, Structural)]
pub enum ReaderAction {
    /// Open the device for reading and report with [`Reader::on_open`].
    Open,
    /// Try to fill the read buffer and report with [`Reader::on_read`].
    Read,
    /// Give up for good: the device could not be opened.
    Abort,
}

/// What the driver has to put on the console after a read.
#[derive(Clone, Debug, PartialEq, Eq)]
pub enum ReaderTrace {
    /// An informational line that shows these received bytes.
    Received(Vec<u8>),
    /// An error line for a failed read.
    ReadError,
    /// No line at all.
    Nothing,
}

/// A [`ReaderTrace`] with its bytes as a sequence.
pub enum ReaderTraceView {
    Received(Seq<u8>),
    ReadError,
    Nothing,
}

impl View for ReaderTrace {
    type V = ReaderTraceView;

    open spec fn view(&self) -> ReaderTraceView {
        match self {
            ReaderTrace::Received(bytes) => ReaderTraceView::Received(bytes@),
            ReaderTrace::ReadError => ReaderTraceView::ReadError,
            ReaderTrace::Nothing => ReaderTraceView::Nothing,
        }
    }
}

/// The reader activity, by the stage it is in.
#[derive(Clone, Copy, Debug, PartialEq, Eq, Structural)]
pub enum Reader {
    /// The device has not been opened yet.
    Opening,
    /// The device is open and is polled, read after read, without end.
    Polling,
    /// The device could not be opened. Nothing will ever be read.
    Aborted,
}

/// The outcome that stands for a failed read, given whether the failure was a
/// timeout.
pub fn outcome_of_failure(timed_out: bool) -> (outcome: ReadOutcome)
    ensures
        outcome == if timed_out {
            ReadOutcome::TimedOut
        } else {
            ReadOutcome::Failed
        },
{
    if timed_out {
        ReadOutcome::TimedOut
    } else {
        ReadOutcome::Failed
    }
}

/// Sorts the result of a read on the port into one of the three outcomes.
///
/// A success keeps its byte count. A failure becomes
/// [`ReadOutcome::TimedOut`] where the error is of the timed-out kind and
/// [`ReadOutcome::Failed`] otherwise; which of the two is decided by the error
/// value, into which the contract cannot look.
pub fn classify_read(result: &Result<usize, std::io::Error>) -> (outcome: ReadOutcome)
    ensures
        result matches Ok(n) ==> outcome == ReadOutcome::Data(*n),
        result is Err ==> outcome == ReadOutcome::TimedOut || outcome == ReadOutcome::Failed,
{
    match result {
        Ok(n) => ReadOutcome::Data(*n),
        Err(error) => outcome_of_failure(is_timeout(error)),
    }
}

/// The contents of the store after a reader in stage `reader` has been told of
/// a read that ended with `outcome` in a buffer holding `buffer`.
///
/// Only a successful read by a polling reader changes the store, and it
/// replaces the contents with the bytes read: what was there before plays no
/// part.
pub open spec fn store_after_read(
    reader: Reader,
    before: Seq<u8>,
    buffer: Seq<u8>,
    outcome: ReadOutcome,
) -> Seq<u8> {
    match (reader, outcome) {
        (Reader::Polling, ReadOutcome::Data(n)) => buffer.take(n as int),
        _ => before,
    }
}

/// What goes on the console after that read.
pub open spec fn trace_of_read(reader: Reader, buffer: Seq<u8>, outcome: ReadOutcome)
    -> ReaderTraceView {
    match (reader, outcome) {
        (Reader::Polling, ReadOutcome::Data(n)) => ReaderTraceView::Received(buffer.take(n as int)),
        (Reader::Polling, ReadOutcome::Failed) => ReaderTraceView::ReadError,
        _ => ReaderTraceView::Nothing,
    }
}

impl Reader {
    /// A reader that has yet to open its device.
    pub fn new() -> (reader: Self)
        ensures
            reader == Reader::Opening,
    {
        Reader::Opening
    }

    /// The stage that follows the attempt to open the device.
    pub open spec fn after_open(self, opened: bool) -> Reader {
        match self {
            Reader::Opening => if opened {
                Reader::Polling
            } else {
                Reader::Aborted
            },
            _ => self,
        }
    }

    /// What the driver has to do in this stage.
    pub open spec fn action(self) -> ReaderAction {
        match self {
            Reader::Opening => ReaderAction::Open,
            Reader::Polling => ReaderAction::Read,
            Reader::Aborted => ReaderAction::Abort,
        }
    }

    /// What the driver has to do next.
    ///
    /// A polling reader always asks for another read: it never stops of its
    /// own accord and never asks the driver to wait.
    pub fn next_action(&self) -> (action: ReaderAction)
        ensures
            action == self.action(),
    {
        match self {
            Reader::Opening => ReaderAction::Open,
            Reader::Polling => ReaderAction::Read,
            Reader::Aborted => ReaderAction::Abort,
        }
    }

    /// Takes note of how the attempt to open the device ended.
    ///
    /// A reader that waits for its device starts polling if it was opened
    /// and aborts for good if it was not. In any other stage the report is
    /// out of place and changes nothing.
    pub fn on_open(&mut self, opened: bool)
        ensures
            *final(self) == old(self).after_open(opened),
    {
        match *self {
            Reader::Opening => {
                if opened {
                    *self = Reader::Polling;
                } else {
                    *self = Reader::Aborted;
                }
            },
            _ => {},
        }
    }

    /// Takes note of how a read ended and brings the store up to date.
    ///
    /// `buffer` is the read buffer as the read left it. For a polling reader:
    /// - a success with `n` bytes replaces the contents of `store` with the
    ///   first `n` bytes of `buffer`, also where `n` is zero, and asks for an
    ///   informational line that shows them;
    /// - a timeout leaves `store` alone and asks for no line;
    /// - any other failure leaves `store` alone and asks for an error line.
    ///
    /// The reader keeps polling whatever the outcome. In any other stage the
    /// report is out of place: `store` is left alone and no line is asked
    /// for.
    pub fn on_read(
        &mut self,
        store: &mut SharedData,
        buffer: &[u8],
        outcome: ReadOutcome,
    ) -> (trace: ReaderTrace)
        requires
            outcome matches ReadOutcome::Data(n) ==> n <= buffer@.len(),
        ensures
            *final(self) == *old(self),
            final(store)@ == store_after_read(*old(self), old(store)@, buffer@, outcome),
            trace@ == trace_of_read(*old(self), buffer@, outcome),
    {
        match (*self, outcome) {
            (Reader::Polling, ReadOutcome::Data(n)) => {
                let received = slice_to_vec(slice_subrange(buffer, 0, n));
                store.update(received.clone());
                ReaderTrace::Received(received)
            },
            (Reader::Polling, ReadOutcome::Failed) => ReaderTrace::ReadError,
            _ => ReaderTrace::Nothing,
        }
    }
}

/// One completed read as a reader is told of it: what the buffer held
/// afterwards and how the read ended.
pub struct Poll {
    pub buffer: Seq<u8>,
    pub outcome: ReadOutcome,
}

impl Poll {
    /// The bytes that this read delivered, where it succeeded.
    pub open spec fn payload(self) -> Seq<u8>
        recommends
            self.outcome is Data,
    {
        self.buffer.take(self.outcome->Data_0 as int)
    }
}

/// The contents of a store that held `before` after a polling reader has been
/// told of each of `polls`, one after the other.
pub open spec fn store_after_polls(before: Seq<u8>, polls: Seq<Poll>) -> Seq<u8>
    decreases polls.len(),
{
    if polls.len() == 0 {
        before
    } else {
        store_after_read(
            Reader::Polling,
            store_after_polls(before, polls.drop_last()),
            polls.last().buffer,
            polls.last().outcome,
        )
    }
}

/// The store overwrites and never accumulates: right after a successful read
/// it holds exactly the bytes of that read, whatever it held at the start and
/// whatever the reads before delivered.
pub proof fn lemma_store_holds_latest_read(before: Seq<u8>, polls: Seq<Poll>, i: int)
    requires
        0 <= i < polls.len(),
        polls[i].outcome is Data,
    ensures
        store_after_polls(before, polls.take(i + 1)) == polls[i].payload(),
{
    assert(polls.take(i + 1).last() == polls[i]);
}

/// A timeout is no event: the store is the same before and after it, no line
/// goes to the console, and the reader asks for the next read at once.
pub proof fn lemma_timeout_changes_nothing(before: Seq<u8>, polls: Seq<Poll>, i: int)
    requires
        0 <= i < polls.len(),
        polls[i].outcome is TimedOut,
    ensures
        store_after_polls(before, polls.take(i + 1)) == store_after_polls(before, polls.take(i)),
        trace_of_read(Reader::Polling, polls[i].buffer, polls[i].outcome)
            == ReaderTraceView::Nothing,
        Reader::Polling.action() == ReaderAction::Read,
{
    assert(polls.take(i + 1).last() == polls[i]);
    assert(polls.take(i + 1).drop_last() =~= polls.take(i));
}

} // verus!
